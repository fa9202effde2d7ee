use unilii::copyq::{preferred_image_mime, ClipboardItem, CopyqFrontendOptions, ImageLoadRequest, ImagePreviewState};
use unilii::copyq_state::{CopyqKey, CopyqMessage, CopyqState, CopyqTask, VisibilityPhase};
use unilii::i3_vis::KeyModifiers;

fn item(index: usize, mime_type: &str, preview: &str) -> ClipboardItem {
    ClipboardItem {
        index,
        mime_type: mime_type.to_string(),
        mime_types: vec![mime_type.to_string()],
        preview: preview.to_string(),
        is_text: mime_type.starts_with("text/"),
        image_mime_type: preferred_image_mime(&[mime_type.to_string()]).map(str::to_string),
        chars: preview.len(),
        lines: 1,
    }
}

fn ctrl() -> KeyModifiers {
    KeyModifiers { control: true, ..KeyModifiers::default() }
}

#[test]
fn help_escape_is_contextual_before_closing() {
    let mut app = CopyqState::new(CopyqFrontendOptions::default());
    let _ = app.update(CopyqMessage::ToggleHelp);
    assert!(app.show_help);

    let _ = app.update(CopyqMessage::KeyPressed(CopyqKey::Escape, KeyModifiers::default()));
    assert!(!app.show_help);
    assert_eq!(app.visibility, VisibilityPhase::Opening);

    let _ = app.update(CopyqMessage::KeyPressed(CopyqKey::Escape, KeyModifiers::default()));
    assert_eq!(app.visibility, VisibilityPhase::Closing);
    assert_eq!(app.status, "Closing…");
}

fn loaded_state() -> (CopyqState, CopyqTask) {
    let mut app = CopyqState::new(CopyqFrontendOptions::default());
    assert!(app.loading);
    assert_eq!(app.status, "Loading CopyQ history…");
    let task = app.update(CopyqMessage::Loaded(Ok(vec![
        item(0, "text/plain", "hello world"),
        item(1, "image/png", "<image: image/png>"),
        item(2, "text/plain", "another hello"),
    ])));
    (app, task)
}

#[test]
fn loading_history_reports_count_and_requests_visible_images() {
    let (app, task) = loaded_state();
    assert!(!app.loading);
    assert_eq!(app.status, "3 clipboard entries · single CopyQ eval");
    assert_eq!(task, CopyqTask::LoadImages(vec![ImageLoadRequest { index: 1, mime_type: "image/png".to_string() }]));
    assert_eq!(app.image_previews.get(&1), Some(&ImagePreviewState::Loading));
}

#[test]
fn selection_moves_and_activation_pastes_the_selected_entry() {
    let (mut app, _) = loaded_state();
    assert_eq!(app.update(CopyqMessage::KeyPressed(CopyqKey::End, KeyModifiers::default())), CopyqTask::Nothing);
    assert_eq!(app.selected_row, 2);
    let _ = app.update(CopyqMessage::KeyPressed(CopyqKey::PageUp, KeyModifiers::default()));
    assert_eq!(app.selected_row, 0);
    let _ = app.update(CopyqMessage::KeyPressed(CopyqKey::Tab, KeyModifiers::default()));
    assert_eq!(app.selected_row, 1);
    let task = app.update(CopyqMessage::KeyPressed(CopyqKey::Enter, KeyModifiers::default()));
    assert_eq!(task, CopyqTask::Activate(vec![1]));
    assert_eq!(app.status, "Activating clipboard #1…");
    let _ = app.update(CopyqMessage::OperationDone(Ok(())));
    assert_eq!(app.visibility, VisibilityPhase::Closing);
}

#[test]
fn query_filters_and_merge_pastes_all_visible_entries() {
    let (mut app, _) = loaded_state();
    let _ = app.update(CopyqMessage::QueryChanged("hello".to_string()));
    assert_eq!(app.selected_row, 0);
    let task = app.update(CopyqMessage::KeyPressed(CopyqKey::Character("M".to_string()), ctrl()));
    assert_eq!(task, CopyqTask::Activate(vec![0, 2]));
    assert_eq!(app.status, "Merging 2 visible clipboard entries…");
    let _ = app.update(CopyqMessage::KeyPressed(CopyqKey::Character("u".to_string()), ctrl()));
    assert_eq!(app.query, "");
    let _ = app.update(CopyqMessage::QueryChanged("nothing matches".to_string()));
    assert_eq!(app.update(CopyqMessage::ActivateSelected), CopyqTask::Nothing);
    assert_eq!(app.update(CopyqMessage::MergeVisibleSelection), CopyqTask::Nothing);
    assert_eq!(app.status, "No clipboard entry selected");
}

#[test]
fn reload_errors_and_images() {
    let (mut app, _) = loaded_state();
    assert_eq!(app.update(CopyqMessage::KeyPressed(CopyqKey::Character("r".to_string()), ctrl())), CopyqTask::LoadItems);
    assert!(app.loading);
    assert!(app.image_previews.is_empty());
    assert_eq!(app.status, "Refreshing CopyQ history…");
    assert_eq!(app.update(CopyqMessage::KeyPressed(CopyqKey::Character("r".to_string()), KeyModifiers::default())), CopyqTask::Nothing);
    let _ = app.update(CopyqMessage::Loaded(Err("copyq failed".to_string())));
    assert!(!app.loading);
    assert_eq!(app.status, "copyq failed");
    let _ = app.update(CopyqMessage::ImageLoaded(4, Ok(vec![])));
    assert_eq!(app.image_previews.get(&4), Some(&ImagePreviewState::Error("CopyQ returned empty image data".to_string())));
    let _ = app.update(CopyqMessage::ImageLoaded(5, Ok(vec![1, 2])));
    assert_eq!(app.image_previews.get(&5), Some(&ImagePreviewState::Ready(vec![1, 2])));
    assert_eq!(app.update(CopyqMessage::AnimationTick), CopyqTask::Animate);
}

#[test]
fn unfocus_closes_only_when_configured_and_loaded() {
    let mut options = CopyqFrontendOptions::default();
    options.close_on_unfocus = true;
    let mut app = CopyqState::new(options);
    let _ = app.update(CopyqMessage::WindowUnfocused);
    assert_eq!(app.visibility, VisibilityPhase::Opening);
    let _ = app.update(CopyqMessage::Loaded(Ok(vec![])));
    let _ = app.update(CopyqMessage::WindowUnfocused);
    assert_eq!(app.visibility, VisibilityPhase::Closing);
}
