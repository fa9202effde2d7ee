use std::collections::HashMap;
use unilii::filter_tab::{
    apply_outcome, collect_windows_from_i3_tree, filter_tab_key_action, i3_config_snippet, is_filter_tab_popup_window,
    loaded_status, mock_windows, quick_select_label_from_key, refresh_windows, render_preview_command, request_preview_loads,
    vim_list_key_enabled, FilterTabInput, FilterTabKeyAction, FilterTabOutcome, FilterTabPreview, WindowMatchContext,
    DEFAULT_PREVIEW_COMMAND,
};
use unilii::i3_tree::I3Node;
use unilii::i3_vis::{is_modifier_release_key, KeyModifiers, PopupEffect, PopupKey, PopupStep};

fn node(ty: &str) -> I3Node {
    I3Node {
        id: None,
        node_type: Some(ty.to_string()),
        name: None,
        layout: None,
        focused: None,
        urgent: None,
        has_window: false,
        window: None,
        app_id: None,
        class: None,
        instance: None,
        nodes: Vec::new(),
        floating_nodes: Vec::new(),
    }
}

fn window(id: u64, name: &str, native: u64, class: &str) -> I3Node {
    I3Node {
        id: Some(id),
        name: Some(name.to_string()),
        has_window: true,
        window: Some(native),
        class: Some(class.to_string()),
        ..node("con")
    }
}

fn workspace(name: &str, nodes: Vec<I3Node>) -> I3Node {
    I3Node { name: Some(name.to_string()), nodes, ..node("workspace") }
}

fn root(nodes: Vec<I3Node>) -> I3Node {
    I3Node { nodes, ..node("root") }
}

fn none() -> KeyModifiers {
    KeyModifiers::default()
}

fn ctrl() -> KeyModifiers {
    KeyModifiers { control: true, ..KeyModifiers::default() }
}

fn ch(s: &str) -> PopupKey {
    PopupKey::Character(s.to_string())
}

#[test]
fn i3_snippet_uses_stable_app_id_and_release_binding() {
    let snippet = i3_config_snippet("/usr/local/bin/unilii-filter-tab", "$mod");
    assert!(snippet.contains(r#"app_id="unilii-filter-tab""#));
    assert!(snippet.contains("bindsym $mod+u"));
    assert!(snippet.contains("/usr/local/bin/unilii-filter-tab"));
}

#[test]
fn preview_command_template_renders_con_and_native_ids() {
    assert_eq!(
        render_preview_command("shot {window} {x11_window} {con_id}", 10, 4242),
        "shot 4242 4242 10"
    );
}

#[test]
fn default_preview_command_fills_the_native_window() {
    assert_eq!(
        render_preview_command(DEFAULT_PREVIEW_COMMAND, 7, 99),
        "timeout 0.8s import -window 99 png:-"
    );
}

#[test]
fn preview_command_replaces_every_occurrence_and_leaves_other_braces() {
    assert_eq!(
        render_preview_command("{con_id}-{con_id} {other} {window}", 3, 0),
        "3-3 {other} 0"
    );
    assert_eq!(render_preview_command("no placeholders", 1, 2), "no placeholders");
}

#[test]
fn snippet_has_exact_layout() {
    assert_eq!(
        i3_config_snippet("ft", "Mod4"),
        "for_window [app_id=\"unilii-filter-tab\"] floating enable, border pixel 2, move position center, sticky enable\nbindsym Mod4+u exec --no-startup-id ft"
    );
}

#[test]
fn parses_i3_tree_windows_with_workspace_and_class() {
    let mut w = window(42, "ChatGPT - Firefox", 123, "firefox");
    w.urgent = Some(true);
    w.instance = Some("Navigator".to_string());
    let tree = root(vec![workspace("2:web", vec![w])]);
    let windows = collect_windows_from_i3_tree(&tree);
    assert_eq!(windows.len(), 1);
    assert_eq!(windows[0].id, 42);
    assert_eq!(windows[0].workspace.as_deref(), Some("2:web"));
    assert_eq!(windows[0].class_name.as_deref(), Some("firefox"));
    assert_eq!(windows[0].native_window_id, Some(123));
    assert!(windows[0].urgent);
}

#[test]
fn i3_tree_parser_skips_filter_tab_popup_itself() {
    let tree = root(vec![workspace(
        "1",
        vec![window(1, "unilii Filter Tab", 11, "unilii-filter-tab"), window(2, "work - tmux", 22, "Alacritty")],
    )]);
    let windows = collect_windows_from_i3_tree(&tree);
    assert_eq!(windows.len(), 1);
    assert_eq!(windows[0].id, 2);
}

#[test]
fn modifier_release_key_detection_covers_super_alt_ctrl_shift() {
    assert!(is_modifier_release_key(&PopupKey::Super));
    assert!(is_modifier_release_key(&PopupKey::Alt));
    assert!(is_modifier_release_key(&PopupKey::Control));
    assert!(is_modifier_release_key(&PopupKey::Shift));
    assert!(!is_modifier_release_key(&ch("u")));
}

#[test]
fn quick_select_label_from_key_accepts_plain_home_row_only() {
    assert_eq!(quick_select_label_from_key(&ch("a"), none()), Some('a'));
    assert_eq!(quick_select_label_from_key(&ch("a"), ctrl()), None);
    assert_eq!(quick_select_label_from_key(&PopupKey::Enter, none()), None);
}

#[test]
fn ctrl_q_toggles_quick_select_in_app_state() {
    assert_eq!(
        filter_tab_key_action(&ch("q"), ctrl(), false, ""),
        FilterTabKeyAction::Input(FilterTabInput::ToggleQuickSelect)
    );
}

#[test]
fn request_preview_loads_marks_unavailable_without_native_window_id() {
    let windows = vec![WindowMatchContext {
        id: 7,
        title: "no native".to_string(),
        class_name: Some("Class".to_string()),
        workspace: None,
        urgent: false,
        native_window_id: None,
    }];
    let mut previews = HashMap::new();
    let requests = request_preview_loads(true, 8, &vec![0], &windows, &mut previews, DEFAULT_PREVIEW_COMMAND);
    assert!(requests.is_empty());
    assert_eq!(previews.get(&7), Some(&FilterTabPreview::Unavailable));
}

#[test]
fn bare_jk_move_selection_only_when_query_is_empty() {
    assert_eq!(
        filter_tab_key_action(&ch("j"), none(), false, ""),
        FilterTabKeyAction::Input(FilterTabInput::NextWindow)
    );
    assert_eq!(
        filter_tab_key_action(&ch("k"), none(), false, ""),
        FilterTabKeyAction::Input(FilterTabInput::PreviousWindow)
    );
    assert_eq!(filter_tab_key_action(&ch("j"), none(), false, "fire"), FilterTabKeyAction::Ignore);
    assert_eq!(
        filter_tab_key_action(&ch("j"), ctrl(), false, "fire"),
        FilterTabKeyAction::Input(FilterTabInput::NextWindow)
    );
}

#[test]
fn escape_in_app_disarms_then_clears_then_closes() {
    assert_eq!(
        filter_tab_key_action(&PopupKey::Escape, none(), true, "fire"),
        FilterTabKeyAction::Input(FilterTabInput::Escape)
    );
    assert_eq!(
        filter_tab_key_action(&PopupKey::Escape, none(), false, "fire"),
        FilterTabKeyAction::Input(FilterTabInput::Escape)
    );
}

#[test]
fn vim_list_key_guard_protects_query_typing() {
    assert!(vim_list_key_enabled("", none()));
    assert!(!vim_list_key_enabled("fire", none()));
    assert!(vim_list_key_enabled("", KeyModifiers { shift: true, ..none() }));
    assert!(!vim_list_key_enabled("", ctrl()));
}

#[test]
fn bare_g_and_shift_g_jump_when_query_is_empty() {
    assert_eq!(
        filter_tab_key_action(&ch("g"), none(), false, ""),
        FilterTabKeyAction::Input(FilterTabInput::FirstWindow)
    );
    assert_eq!(
        filter_tab_key_action(&ch("G"), KeyModifiers { shift: true, ..none() }, false, ""),
        FilterTabKeyAction::Input(FilterTabInput::LastWindow)
    );
    assert_eq!(filter_tab_key_action(&ch("g"), none(), false, "g"), FilterTabKeyAction::Ignore);
}

#[test]
fn ctrl_u_clears_query_and_disarms_quick_select() {
    assert_eq!(filter_tab_key_action(&ch("u"), ctrl(), true, "fire"), FilterTabKeyAction::ClearQuery);
    assert_eq!(
        filter_tab_key_action(&PopupKey::Backspace, ctrl(), false, "fire"),
        FilterTabKeyAction::ClearQuery
    );
}

#[test]
fn ctrl_r_refreshes_status_and_clears_preview_cache() {
    let mut previews: HashMap<u32, FilterTabPreview> = HashMap::new();
    let mut status = "3 windows loaded".to_string();
    previews.insert(1, FilterTabPreview::Unavailable);
    assert_eq!(filter_tab_key_action(&ch("r"), ctrl(), false, ""), FilterTabKeyAction::Refresh);
    refresh_windows(&mut previews, &mut status);
    assert!(previews.is_empty());
    assert_eq!(status, "Refreshing i3 windows…");
}

#[test]
fn key_actions_cover_navigation_tabs_and_quick_select() {
    assert_eq!(
        filter_tab_key_action(&ch("x"), none(), true, "fire"),
        FilterTabKeyAction::Input(FilterTabInput::QuickSelect('x'))
    );
    assert_eq!(
        filter_tab_key_action(&PopupKey::Tab, KeyModifiers { shift: true, ..none() }, false, ""),
        FilterTabKeyAction::Input(FilterTabInput::PreviousTab)
    );
    assert_eq!(
        filter_tab_key_action(&PopupKey::Tab, none(), false, ""),
        FilterTabKeyAction::Input(FilterTabInput::NextTab)
    );
    assert_eq!(
        filter_tab_key_action(&ch("2"), KeyModifiers { alt: true, ..none() }, false, ""),
        FilterTabKeyAction::Input(FilterTabInput::SelectTab('2'))
    );
    assert_eq!(
        filter_tab_key_action(&ch("M"), ctrl(), false, "x"),
        FilterTabKeyAction::Input(FilterTabInput::Confirm)
    );
    assert_eq!(
        filter_tab_key_action(&ch("n"), ctrl(), false, "x"),
        FilterTabKeyAction::Input(FilterTabInput::NextWindow)
    );
    assert_eq!(
        filter_tab_key_action(&PopupKey::PageUp, none(), false, ""),
        FilterTabKeyAction::Input(FilterTabInput::PageUp)
    );
    assert_eq!(filter_tab_key_action(&PopupKey::Backspace, none(), false, ""), FilterTabKeyAction::Ignore);
    assert_eq!(filter_tab_key_action(&ch("z"), none(), false, ""), FilterTabKeyAction::Ignore);
}

#[test]
fn outcomes_become_steps() {
    assert_eq!(
        apply_outcome(FilterTabOutcome::ConfirmWindow(42), false),
        PopupStep { status: Some("dry-run: i3-msg [con_id=42] focus".to_string()), effect: PopupEffect::Nothing }
    );
    assert_eq!(
        apply_outcome(FilterTabOutcome::ConfirmWindow(42), true),
        PopupStep {
            status: Some("i3-msg [con_id=42] focus".to_string()),
            effect: PopupEffect::RunI3 {
                command: "[con_id=42] focus".to_string(),
                success: "Focused window #42".to_string(),
                closes: true,
            },
        }
    );
    assert_eq!(
        apply_outcome(FilterTabOutcome::ExecuteContextCommand("kill".to_string()), true).effect,
        PopupEffect::RunI3 { command: "kill".to_string(), success: "Executed window action".to_string(), closes: true }
    );
    assert_eq!(apply_outcome(FilterTabOutcome::Cancelled, true).effect, PopupEffect::Close);
    assert_eq!(apply_outcome(FilterTabOutcome::NeedsRefresh, true).effect, PopupEffect::Reload);
    assert_eq!(
        apply_outcome(FilterTabOutcome::Unchanged, true),
        PopupStep { status: None, effect: PopupEffect::Nothing }
    );
    assert_eq!(loaded_status(4, false), "4 windows loaded");
    assert_eq!(loaded_status(4, true), "4 windows loaded · capturing previews…");
}

#[test]
fn preview_loads_skip_known_and_cap_at_maximum() {
    let windows = mock_windows();
    let mut previews = HashMap::new();
    previews.insert(1002u32, FilterTabPreview::Unavailable);
    let requests = request_preview_loads(true, 3, &vec![0, 1, 2, 3], &windows, &mut previews, "shot {window}");
    assert_eq!(requests.len(), 2);
    assert_eq!((requests[0].con_id, requests[0].native_window_id), (1001, 2001));
    assert_eq!((requests[1].con_id, requests[1].native_window_id), (1003, 2003));
    assert_eq!(requests[0].command_template, "shot {window}");
    assert_eq!(previews.get(&1001), Some(&FilterTabPreview::Loading));
    assert_eq!(previews.get(&1002), Some(&FilterTabPreview::Unavailable));
    assert!(previews.get(&1004).is_none());
    let mut untouched = HashMap::new();
    assert!(request_preview_loads(false, 3, &vec![0], &windows, &mut untouched, "x").is_empty());
    assert!(untouched.is_empty());
}

#[test]
fn popup_window_detection_and_collection_order() {
    let n = node("con");
    assert!(is_filter_tab_popup_window("DeskHalloumi Filter Tab", None, &n));
    assert!(is_filter_tab_popup_window("x", Some("UNILII-FILTER-TAB"), &n));
    let mut with_app = node("con");
    with_app.app_id = Some("unilii-filter-tab".to_string());
    assert!(is_filter_tab_popup_window("x", None, &with_app));
    assert!(!is_filter_tab_popup_window("x", Some("firefox"), &n));
    let mut floating = window(3, "float", 33, "Pavucontrol");
    floating.name = None;
    let mut ws = workspace("9", vec![window(1, "a", 11, "A")]);
    ws.floating_nodes = vec![floating];
    let windows = collect_windows_from_i3_tree(&root(vec![ws]));
    assert_eq!(windows.iter().map(|w| w.id).collect::<Vec<_>>(), vec![1, 3]);
    assert_eq!(windows[1].title, "Untitled");
    assert_eq!(windows[1].workspace.as_deref(), Some("9"));
    assert_eq!(mock_windows().len(), 4);
    assert!(mock_windows()[3].urgent);
}
