use unilii::quickjump::{handle_quickjump_key, quickjump_alphabet_for_view, QuickjumpOutcome, DEFAULT_QUICKJUMP_ALPHABET};

fn labels() -> Vec<String> {
    vec!["a".to_string(), "sa".to_string(), "sd".to_string()]
}

#[test]
fn typed_labels_activate_rows() {
    let mut input = String::new();
    assert_eq!(handle_quickjump_key(&mut input, "asd", &labels(), 'a'), QuickjumpOutcome::Activate(0));
    assert_eq!(input, "a");
    let mut input = String::new();
    assert_eq!(handle_quickjump_key(&mut input, "asd", &labels(), 's'), QuickjumpOutcome::Pending);
    assert_eq!(handle_quickjump_key(&mut input, "asd", &labels(), 'd'), QuickjumpOutcome::Activate(2));
    assert_eq!(input, "sd");
}

#[test]
fn unknown_prefixes_reset_and_other_letters_are_ignored() {
    let mut input = "s".to_string();
    assert_eq!(handle_quickjump_key(&mut input, "asd", &labels(), 's'), QuickjumpOutcome::Reset);
    assert_eq!(input, "");
    let mut input = "s".to_string();
    assert_eq!(handle_quickjump_key(&mut input, "asd", &labels(), 'x'), QuickjumpOutcome::Ignored);
    assert_eq!(input, "s");
}

#[test]
fn custom_menus_bring_their_alphabet() {
    let ids = vec!["Launcher".to_string()];
    assert_eq!(quickjump_alphabet_for_view(Some("launcher"), &ids, "1234"), "1234");
    assert_eq!(quickjump_alphabet_for_view(Some("other"), &ids, "1234"), DEFAULT_QUICKJUMP_ALPHABET);
    assert_eq!(quickjump_alphabet_for_view(None, &ids, "1234"), DEFAULT_QUICKJUMP_ALPHABET);
}
