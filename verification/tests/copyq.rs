use std::collections::HashMap;
use unilii::copyq::{
    apply_i3_shortcut_defaults, build_history_eval_script, build_selected_items_eval_script,
    command_error, compact_preview, filter_item_indices, selection_status, status_line, i3_config_snippet,
    image_load_requests_for_visible_items, next_selected_row, preferred_image_mime, truncate_middle,
    visible_row_window, ClipboardItem, CopyqClient, CopyqError, CopyqFrontendOptions, ImageLoadRequest,
    ImagePreviewState, PastePlan, SelectionMove, I3_WINDOW_HEIGHT, I3_WINDOW_WIDTH,
};
use unilii::action_runner::ActionOutcome;

fn item(index: usize, mime_type: &str, preview: &str) -> ClipboardItem {
    ClipboardItem {
        index,
        mime_type: mime_type.to_string(),
        mime_types: vec![mime_type.to_string()],
        preview: preview.to_string(),
        is_text: mime_type.starts_with("text/"),
        image_mime_type: preferred_image_mime(&[mime_type.to_string()]).map(str::to_string),
        chars: preview.len(),
        lines: 1,
    }
}

#[test]
fn compact_preview_replaces_newlines_and_truncates_middle() {
    let preview = compact_preview("alpha\nbeta\ngamma\ndelta", 14);
    assert!(preview.contains('↵'));
    assert!(preview.contains('…'));
    assert!(preview.starts_with("alpha"));
    assert!(preview.ends_with("delta"));
}

#[test]
fn filter_matches_all_query_tokens_and_keeps_history_order_for_equal_scores() {
    let items = vec![
        item(0, "text/plain", "cargo build workspace"),
        item(1, "text/plain", "workspace cargo test"),
        item(2, "image/png", "<image/png>"),
    ];
    let matches = filter_item_indices(&items, "cargo workspace");
    assert_eq!(matches, vec![0, 1]);
    assert!(filter_item_indices(&items, "cargo image").is_empty());
}

#[test]
fn build_history_eval_script_uses_single_count_loop_and_json() {
    let script = build_history_eval_script(200);
    assert!(script.contains("for (var i = 0; i < count(); ++i)"));
    assert!(script.contains("JSON.stringify(items)"));
    assert!(script.contains("preferredImageMime"));
    assert!(script.contains("image_mime_type"));
    assert!(!script.contains("copyq read"));
}

#[test]
fn selected_items_script_contains_only_numeric_indices() {
    let script = build_selected_items_eval_script(&[0, 2, 13]);
    assert!(script.contains("var indices = [0, 2, 13];"));
    assert!(script.contains("print(str(read(j)))"));
}

#[test]
fn image_mime_prefers_png_and_detects_image_items() {
    let item = ClipboardItem {
        index: 3,
        mime_type: "image/bmp".to_string(),
        mime_types: vec!["text/uri-list".to_string(), "image/png".to_string(), "image/bmp".to_string()],
        preview: "<image: image/png>".to_string(),
        is_text: false,
        image_mime_type: Some("image/png".to_string()),
        chars: 18,
        lines: 1,
    };
    assert!(item.is_image());
    assert_eq!(item.kind_label(), "image");
    assert_eq!(item.primary_image_mime(), Some("image/png"));
}

#[test]
fn image_load_requests_skip_cached_or_non_visible_items() {
    let items = vec![
        item(0, "text/plain", "hello"),
        item(1, "image/png", "<image: image/png>"),
        item(2, "image/jpeg", "<image: image/jpeg>"),
    ];
    let mut cache = HashMap::new();
    cache.insert(1, ImagePreviewState::Loading);
    let requests = image_load_requests_for_visible_items(&items, &[0, 1, 2], &cache);
    assert_eq!(requests, vec![ImageLoadRequest { index: 2, mime_type: "image/jpeg".to_string() }]);
}

#[test]
fn selection_navigation_clamps_to_history_bounds() {
    assert_eq!(next_selected_row(0, 0, SelectionMove::Down(1)), 0);
    assert_eq!(next_selected_row(0, 3, SelectionMove::Up(1)), 0);
    assert_eq!(next_selected_row(0, 3, SelectionMove::Down(10)), 2);
    assert_eq!(next_selected_row(2, 3, SelectionMove::Last), 2);
    assert_eq!(next_selected_row(2, 3, SelectionMove::First), 0);
    assert_eq!(next_selected_row(2, 10, SelectionMove::Up(2)), 0);
}

#[test]
fn visible_window_keeps_the_selected_row_on_screen() {
    assert_eq!(visible_row_window(0, 0, 5), 0..0);
    assert_eq!(visible_row_window(3, 2, 5), 0..3);
    assert_eq!(visible_row_window(20, 0, 5), 0..5);
    assert_eq!(visible_row_window(20, 10, 5), 8..13);
    assert_eq!(visible_row_window(20, 19, 5), 15..20);
}

#[test]
fn i3_config_snippet_uses_stable_app_id_and_shortcut_mode() {
    let snippet = i3_config_snippet("/usr/local/bin/unilii-copyq", "$mod");
    assert!(snippet.contains(r#"app_id="unilii-copyq""#));
    assert!(snippet.contains("floating enable"));
    assert!(snippet.contains("bindsym $mod+v"));
    assert!(snippet.contains("--i3-shortcut"));
}

#[test]
fn i3_defaults_resize_only_default_windows() {
    let options = apply_i3_shortcut_defaults(CopyqFrontendOptions::default());
    assert!(options.i3_shortcut_mode);
    assert!(options.close_on_unfocus);
    assert_eq!(options.window_width, I3_WINDOW_WIDTH);
    assert_eq!(options.window_height, I3_WINDOW_HEIGHT);
    let mut custom = CopyqFrontendOptions::default();
    custom.window_width = 1000;
    let custom = apply_i3_shortcut_defaults(custom);
    assert_eq!(custom.window_width, 1000);
}

#[test]
fn meta_line_and_kinds() {
    let mut text = item(4, "text/plain", "a\nb");
    text.lines = 2;
    text.chars = 3;
    assert_eq!(text.compact_meta(), "#4 · text · 2 lines · 3 chars · text/plain");
    let html = item(0, "text/html", "");
    assert_eq!(html.kind_label(), "html");
    let mut data = item(1, "application/pdf", "");
    data.is_text = false;
    assert_eq!(data.kind_label(), "data");
    assert_eq!(data.compact_meta(), "#1 · data · application/pdf");
    let mut other = item(2, "x-special/thing", "");
    other.is_text = false;
    assert_eq!(other.kind_label(), "mime");
}

#[test]
fn truncation_edges() {
    assert_eq!(truncate_middle("abcdef", 6), "abcdef");
    assert_eq!(truncate_middle("abcdef", 3), "…");
    assert_eq!(truncate_middle("abcdefgh", 5), "ab…gh");
    assert_eq!(compact_preview("a\r\nb\rc", 10), "a↵b↵c");
}

#[test]
fn command_errors_prefer_stderr() {
    assert_eq!(command_error("exit 1".to_string(), "  \n"), "exit 1");
    assert_eq!(command_error("exit 1".to_string(), " boom \n"), "boom");
}

#[test]
fn client_and_error_messages() {
    let client = CopyqClient::new(&CopyqFrontendOptions::default());
    assert_eq!(client.copyq_bin, "copyq");
    assert_eq!(client.max_preview_chars, 220);
    let error = CopyqError::CommandFailed { program: "copyq".to_string(), message: "gone".to_string() };
    assert_eq!(error.message(), "copyq failed: gone");
    assert_eq!(CopyqError::EmptyHistory.message(), "CopyQ history is empty");
    assert_eq!(CopyqError::Json("bad".to_string()).message(), "failed to parse CopyQ JSON: bad");
}

#[test]
fn blank_query_keeps_every_item_and_image_fallback() {
    let items = vec![item(0, "text/plain", "x"), item(1, "text/plain", "y")];
    assert_eq!(filter_item_indices(&items, "   "), vec![0, 1]);
    assert_eq!(preferred_image_mime(&["image/x-icon".to_string()]), Some("image/x-icon"));
    assert_eq!(preferred_image_mime(&["text/plain".to_string()]), None);
    assert!(build_history_eval_script(42).contains("var MAX_LENGTH = 42;"));
    assert!(build_selected_items_eval_script(&[]).contains("var indices = [];"));
}

fn outcome(result: Result<(), String>, stdout: &str, stderr: &str, truncated: bool) -> ActionOutcome<()> {
    ActionOutcome {
        menu: "copyq".to_string(),
        action: "eval".to_string(),
        duration_ms: 3,
        exit_code: Some(0),
        error_class: None,
        stdout: stdout.to_string(),
        stderr: stderr.to_string(),
        stdout_truncated: truncated,
        stderr_truncated: false,
        stdout_bytes: stdout.len() as u64,
        stderr_bytes: stderr.len() as u64,
        result,
    }
}

fn client() -> CopyqClient {
    CopyqClient { copyq_bin: "copyq".to_string(), max_preview_chars: 80 }
}

#[test]
fn eval_output_reports_failures_and_trims() {
    let c = client();
    assert_eq!(c.eval_output(outcome(Ok(()), "  [1,2]\n", "", false)), Ok("[1,2]".to_string()));
    assert_eq!(
        c.eval_output(outcome(Err("exit status 1".to_string()), "", " no server \n", false)),
        Err(CopyqError::CommandFailed { program: "copyq".to_string(), message: "no server".to_string() })
    );
    assert_eq!(
        c.eval_output(outcome(Err("exit status 1".to_string()), "", "  ", false)),
        Err(CopyqError::CommandFailed { program: "copyq".to_string(), message: "exit status 1".to_string() })
    );
    assert_eq!(
        c.eval_output(outcome(Ok(()), "abcd", "", true)),
        Err(CopyqError::CommandFailed {
            program: "copyq".to_string(),
            message: "CopyQ output exceeded limit (4 bytes)".to_string(),
        })
    );
}

#[test]
fn paste_plans_select_one_or_merge() {
    let c = client();
    assert_eq!(c.paste_plan(&[], true), Err(CopyqError::EmptyHistory));
    assert_eq!(c.paste_plan(&[4], true), Ok(PastePlan::SelectOne { index: 4, paste: true }));
    match c.paste_plan(&[1, 3], false) {
        Ok(PastePlan::Merge { script, paste }) => {
            assert!(!paste);
            assert!(script.contains("var indices = [1, 3];"));
        }
        other => panic!("unexpected plan {other:?}"),
    }
    assert_eq!(
        CopyqClient::select_command_lines(12, true),
        vec![vec!["select".to_string(), "12".to_string()], vec!["paste".to_string()]]
    );
    assert_eq!(
        CopyqClient::merge_command_lines("a\nb", false),
        vec![vec!["add".to_string(), "a\nb".to_string()], vec!["select".to_string(), "0".to_string()]]
    );
}

#[test]
fn filter_laws_hold_on_a_small_history() {
    let items = vec![
        item(0, "text/plain", "Cargo build workspace"),
        item(1, "text/plain", "workspace cargo test"),
        item(2, "text/plain", "cargo fmt"),
        item(3, "image/png", "<image/png>"),
    ];
    let q1 = "cargo";
    let q2 = "workspace";
    assert_eq!(filter_item_indices(&items, &format!("{q1} {q2}")), filter_item_indices(&items, &format!("{q2} {q1}")));
    assert_eq!(filter_item_indices(&items, q1), vec![0, 1, 2]);
    assert_eq!(filter_item_indices(&items, &format!("{q1} {q2}")), vec![0, 1]);
    assert_eq!(filter_item_indices(&items, "CARGO"), filter_item_indices(&items, "cargo"));
    assert_eq!(filter_item_indices(&items, "   "), vec![0, 1, 2, 3]);
}

#[test]
fn status_line_reports_selection_rows_and_totals() {
    assert_eq!(selection_status(0, 3, 0, 0), "no selection");
    assert_eq!(selection_status(5, 1, 0, 5), "selected 2 / 5 · rows 1–5");
    assert_eq!(selection_status(5, 9, 2, 5), "selected 5 / 5 · rows 3–5");
    let (dot, line) = status_line(false, "12 clipboard entries · single CopyQ eval", "selected 2 / 5 · rows 1–5", 12);
    assert_eq!(dot, "●");
    assert_eq!(line, "12 clipboard entries · single CopyQ eval · selected 2 / 5 · rows 1–5 · 12 total · F1 shortcuts");
    assert_eq!(status_line(true, "Refreshing", "no selection", 0).0, "◌");
}

#[test]
fn filter_splits_the_query_at_unicode_whitespace_and_ignores_its_case() {
    let items = vec![
        item(0, "text/plain", "Cargo build workspace"),
        item(1, "text/plain", "cargo fmt"),
        item(2, "text/plain", "Ärger im Büro"),
    ];
    assert_eq!(filter_item_indices(&items, "cargo\u{3000}workspace"), vec![0]);
    assert_eq!(filter_item_indices(&items, "cargo\u{00A0}fmt"), vec![1]);
    assert!(filter_item_indices(&items, "cargo\u{200B}fmt").is_empty());
    assert_eq!(filter_item_indices(&items, &"ärger büro".to_ascii_uppercase()), filter_item_indices(&items, "ärger büro"));
    assert_eq!(filter_item_indices(&items, "ÄRGER"), vec![2]);
}
