use unilii::i3_tree::{
    find_workspace_node, first_workspace_node, focused_workspace_id, subtree_has_focused, I3Node,
};
use unilii::i3_vis::{
    build_graph_node, focus_window, i3_config_snippet, i3_direction_for_vim_char, i3_vim_command_from_action,
    i3_vim_command_from_key, i3_vis_key_action, is_i3_vis_popup_node, is_modifier_release_key, layout_kind,
    layout_label, mock_tree, no_command_modifier, parse_e2e_actions, restore_startup_focus_and_close,
    run_i3_passthrough_command, startup_restore_command, window_label, workspace_tree_from_i3_tree, I3VisInput,
    I3VisKeyAction, KeyModifiers, PopupEffect, PopupKey, PopupStep, VisNode, VisNodeKind,
};

fn con(id: u64) -> I3Node {
    I3Node {
        id: Some(id),
        node_type: Some("con".to_string()),
        name: None,
        layout: None,
        focused: None,
        urgent: None,
        has_window: false,
        window: None,
        app_id: None,
        class: None,
        instance: None,
        nodes: Vec::new(),
        floating_nodes: Vec::new(),
    }
}

fn window(id: u64, name: &str, native: u64, focused: bool, class: &str) -> I3Node {
    I3Node {
        name: Some(name.to_string()),
        has_window: true,
        window: Some(native),
        focused: Some(focused),
        class: Some(class.to_string()),
        ..con(id)
    }
}

fn split(id: u64, layout: &str, nodes: Vec<I3Node>) -> I3Node {
    I3Node { layout: Some(layout.to_string()), nodes, ..con(id) }
}

fn workspace(id: u64, name: &str, layout: &str, nodes: Vec<I3Node>) -> I3Node {
    I3Node {
        node_type: Some("workspace".to_string()),
        name: Some(name.to_string()),
        layout: Some(layout.to_string()),
        nodes,
        ..con(id)
    }
}

fn root(nodes: Vec<I3Node>) -> I3Node {
    I3Node { id: None, node_type: Some("root".to_string()), nodes, ..con(0) }
}

fn window_ids(node: &VisNode, out: &mut Vec<u64>) {
    if node.kind == VisNodeKind::Window {
        out.push(node.id);
    }
    for child in &node.children {
        window_ids(child, out);
    }
}

fn startup_focused(node: &VisNode) -> Option<u64> {
    if node.kind == VisNodeKind::Window && node.startup_focused {
        return Some(node.id);
    }
    node.children.iter().find_map(startup_focused)
}

fn labels(node: &VisNode, out: &mut Vec<String>) {
    out.push(node.label.clone());
    for child in &node.children {
        labels(child, out);
    }
}

fn two_workspace_tree() -> I3Node {
    let mut ignored = split(11, "splith", vec![window(12, "other", 999, false, "Other")]);
    ignored.name = Some("ignored".to_string());
    let mut main = window(21, "main.rs - Emacs", 101, false, "Emacs");
    main.layout = None;
    root(vec![
        workspace(1, "1", "splith", vec![ignored]),
        workspace(
            2,
            "2",
            "splitv",
            vec![split(
                20,
                "splitv",
                vec![
                    main,
                    split(
                        22,
                        "splith",
                        vec![window(23, "ChatGPT", 102, true, "firefox"), window(24, "shell", 103, false, "XTerm")],
                    ),
                ],
            )],
        ),
    ])
}

#[test]
fn i3_snippet_uses_stable_app_id_and_binding() {
    let snippet = i3_config_snippet("/usr/local/bin/unilii-i3-vis", "$mod");
    assert!(snippet.contains(r#"app_id="unilii-i3-vis""#));
    assert!(snippet.contains("bindsym $mod+i"));
    assert!(snippet.contains("/usr/local/bin/unilii-i3-vis"));
}

#[test]
fn e2e_action_parser_ignores_empty_segments() {
    assert_eq!(parse_e2e_actions("j,, release, "), vec!["j", "release"]);
}

#[test]
fn e2e_action_parser_edge_cases() {
    assert_eq!(parse_e2e_actions(""), Vec::<String>::new());
    assert_eq!(parse_e2e_actions(",,,"), Vec::<String>::new());
    assert_eq!(parse_e2e_actions("  k  "), vec!["k"]);
    assert_eq!(parse_e2e_actions("a b,c"), vec!["a b", "c"]);
}

#[test]
fn restore_command_targets_the_container() {
    assert_eq!(startup_restore_command(23), "[con_id=23] focus");
    assert_eq!(startup_restore_command(0), "[con_id=0] focus");
}

#[test]
fn vim_hjkl_keys_map_to_i3_focus_and_move_commands() {
    let none = KeyModifiers::default();
    let shift = KeyModifiers { shift: true, ..KeyModifiers::default() };
    let ctrl = KeyModifiers { control: true, ..KeyModifiers::default() };
    assert_eq!(i3_vim_command_from_key("h", none), Some("focus left".to_string()));
    assert_eq!(i3_vim_command_from_key("j", none), Some("focus down".to_string()));
    assert_eq!(i3_vim_command_from_key("K", none), Some("move up".to_string()));
    assert_eq!(i3_vim_command_from_key("l", shift), Some("move right".to_string()));
    assert_eq!(i3_vim_command_from_key("j", ctrl), None);
    assert_eq!(i3_vim_command_from_key("jj", none), None);
    assert_eq!(i3_vim_command_from_key("x", none), None);
}

#[test]
fn vim_actions_and_directions() {
    assert_eq!(i3_vim_command_from_action("k"), Some("focus up".to_string()));
    assert_eq!(i3_vim_command_from_action("L"), Some("move right".to_string()));
    assert_eq!(i3_vim_command_from_action("release"), None);
    assert_eq!(i3_vim_command_from_action(""), None);
    assert_eq!(i3_direction_for_vim_char('H'), Some("left"));
    assert_eq!(i3_direction_for_vim_char('q'), None);
}

#[test]
fn parses_workspace_tree_containing_focused_window() {
    let tree = two_workspace_tree();
    let root = workspace_tree_from_i3_tree(&tree).expect("workspace graph");
    assert_eq!(root.label, "workspace 2");
    assert_eq!(startup_focused(&root), Some(23));
    let mut ids = Vec::new();
    window_ids(&root, &mut ids);
    assert_eq!(ids, vec![21, 23, 24]);
    let mut all = Vec::new();
    labels(&root, &mut all);
    assert!(all.iter().any(|label| label == "2 horizontal"));
}

#[test]
fn skips_i3_vis_popup_itself() {
    let mut popup = window(88, "i3-vis", 200, false, "unilii-i3-vis");
    popup.layout = None;
    let tree = root(vec![workspace(
        2,
        "2",
        "splith",
        vec![popup, window(23, "ChatGPT", 102, true, "firefox")],
    )]);
    let graph = workspace_tree_from_i3_tree(&tree).expect("workspace graph");
    let mut ids = Vec::new();
    window_ids(&graph, &mut ids);
    assert_eq!(ids, vec![23]);
}

#[test]
fn modifier_release_key_detection_covers_common_modifiers() {
    assert!(is_modifier_release_key(&PopupKey::Super));
    assert!(is_modifier_release_key(&PopupKey::Alt));
    assert!(is_modifier_release_key(&PopupKey::Control));
    assert!(is_modifier_release_key(&PopupKey::Shift));
    assert!(!is_modifier_release_key(&PopupKey::Character("i".into())));
}

#[test]
fn key_navigation_and_modrelease_confirm_current_selection() {
    let none = KeyModifiers::default();
    let shift = KeyModifiers { shift: true, ..none };
    assert_eq!(i3_vis_key_action(&PopupKey::ArrowDown, none), I3VisKeyAction::Input(I3VisInput::Next));
    assert_eq!(i3_vis_key_action(&PopupKey::ArrowUp, none), I3VisKeyAction::Input(I3VisInput::Previous));
    assert_eq!(i3_vis_key_action(&PopupKey::Tab, none), I3VisKeyAction::Input(I3VisInput::Next));
    assert_eq!(i3_vis_key_action(&PopupKey::Tab, shift), I3VisKeyAction::Input(I3VisInput::Previous));
    assert_eq!(
        i3_vis_key_action(&PopupKey::Character("g".into()), none),
        I3VisKeyAction::Input(I3VisInput::First)
    );
    assert!(is_modifier_release_key(&PopupKey::Super));
}

#[test]
fn escape_restore_command_targets_startup_focused_window() {
    assert_eq!(startup_restore_command(23), "[con_id=23] focus");
    let graph = mock_tree();
    assert_eq!(startup_focused(&graph), Some(23));
    assert_eq!(
        i3_vis_key_action(&PopupKey::Escape, KeyModifiers::default()),
        I3VisKeyAction::Input(I3VisInput::Escape)
    );
}

#[test]
fn key_actions_cover_refresh_passthrough_and_jumps() {
    let none = KeyModifiers::default();
    let ctrl = KeyModifiers { control: true, ..none };
    assert_eq!(i3_vis_key_action(&PopupKey::Character("R".into()), ctrl), I3VisKeyAction::Refresh);
    assert_eq!(i3_vis_key_action(&PopupKey::Character("r".into()), none), I3VisKeyAction::Refresh);
    assert_eq!(
        i3_vis_key_action(&PopupKey::Character("h".into()), none),
        I3VisKeyAction::Passthrough("focus left".to_string())
    );
    assert_eq!(
        i3_vis_key_action(&PopupKey::Character("L".into()), none),
        I3VisKeyAction::Passthrough("move right".to_string())
    );
    assert_eq!(
        i3_vis_key_action(&PopupKey::Character("G".into()), KeyModifiers { shift: true, ..none }),
        I3VisKeyAction::Input(I3VisInput::Last)
    );
    assert_eq!(i3_vis_key_action(&PopupKey::Character("g".into()), ctrl), I3VisKeyAction::Ignore);
    assert_eq!(i3_vis_key_action(&PopupKey::Enter, none), I3VisKeyAction::Input(I3VisInput::Confirm));
    assert_eq!(i3_vis_key_action(&PopupKey::Home, none), I3VisKeyAction::Input(I3VisInput::First));
    assert_eq!(i3_vis_key_action(&PopupKey::End, none), I3VisKeyAction::Input(I3VisInput::Last));
    assert_eq!(i3_vis_key_action(&PopupKey::PageDown, none), I3VisKeyAction::Ignore);
    assert!(no_command_modifier(KeyModifiers { shift: true, ..none }));
    assert!(!no_command_modifier(KeyModifiers { logo: true, ..none }));
}

#[test]
fn steps_report_dry_runs_and_run_commands() {
    assert_eq!(
        restore_startup_focus_and_close(None, true),
        PopupStep { status: Some("Cancelled".to_string()), effect: PopupEffect::Close }
    );
    assert_eq!(
        restore_startup_focus_and_close(Some(23), false),
        PopupStep { status: Some("dry-run: i3-msg [con_id=23] focus".to_string()), effect: PopupEffect::Close }
    );
    assert_eq!(
        restore_startup_focus_and_close(Some(23), true),
        PopupStep {
            status: Some("i3-msg [con_id=23] focus".to_string()),
            effect: PopupEffect::RunI3 {
                command: "[con_id=23] focus".to_string(),
                success: "Restored startup focus #23".to_string(),
                closes: true,
            },
        }
    );
    assert_eq!(
        focus_window(24, false),
        PopupStep { status: Some("dry-run: i3-msg [con_id=24] focus".to_string()), effect: PopupEffect::Nothing }
    );
    assert_eq!(
        focus_window(24, true).effect,
        PopupEffect::RunI3 {
            command: "[con_id=24] focus".to_string(),
            success: "Focused #24".to_string(),
            closes: true,
        }
    );
    assert_eq!(
        run_i3_passthrough_command("focus left".to_string(), true),
        PopupStep {
            status: Some("i3-msg focus left".to_string()),
            effect: PopupEffect::RunI3 {
                command: "focus left".to_string(),
                success: "Executed i3 focus left".to_string(),
                closes: false,
            },
        }
    );
}

#[test]
fn tree_search_finds_focus_and_workspaces() {
    let tree = two_workspace_tree();
    assert!(subtree_has_focused(&tree));
    assert_eq!(focused_workspace_id(&tree), Some(2));
    assert_eq!(find_workspace_node(&tree, 1).and_then(|w| w.name.clone()), Some("1".to_string()));
    assert!(find_workspace_node(&tree, 5).is_none());
    assert_eq!(first_workspace_node(&tree).and_then(|w| w.id), Some(1));
    let unfocused = root(vec![workspace(7, "7", "splith", vec![window(70, "a", 1, false, "A")])]);
    assert_eq!(focused_workspace_id(&unfocused), None);
    let graph = workspace_tree_from_i3_tree(&unfocused).expect("first workspace");
    assert_eq!(graph.id, 7);
    assert_eq!(graph.label, "workspace 7");
}

#[test]
fn labels_and_kinds_follow_layouts() {
    let mut c = con(5);
    c.layout = Some("tabbed".to_string());
    assert_eq!(layout_kind(&c), VisNodeKind::Tabbed);
    assert_eq!(layout_label(&c, 3), "3 tabbed");
    assert_eq!(layout_label(&c, 0), "1 tabbed");
    let mut f = con(6);
    f.node_type = Some("floating_con".to_string());
    assert_eq!(layout_kind(&f), VisNodeKind::Floating);
    assert_eq!(layout_label(&f, 2), "2 floating");
    let mut named = con(7);
    named.name = Some("dock".to_string());
    assert_eq!(layout_label(&named, 2), "dock");
    assert_eq!(layout_label(&con(8), 2), "2 container");
    let mut w = window(9, "", 1, false, "Term");
    assert_eq!(window_label(&w), "Term · Untitled");
    w.class = None;
    w.instance = Some("inst".to_string());
    w.name = Some("title".to_string());
    assert_eq!(window_label(&w), "inst · title");
    w.instance = None;
    assert_eq!(window_label(&w), "title");
}

#[test]
fn popup_detection_and_empty_containers() {
    let mut titled = con(1);
    titled.name = Some("DeskHalloumi i3 Visualizer".to_string());
    assert!(is_i3_vis_popup_node(&titled));
    let mut by_app = con(2);
    by_app.app_id = Some("UNILII-I3-VIS".to_string());
    by_app.class = Some("other".to_string());
    assert!(is_i3_vis_popup_node(&by_app));
    assert!(!is_i3_vis_popup_node(&con(3)));
    assert!(build_graph_node(&con(4)).is_none());
    let mut no_id = window(0, "x", 1, false, "X");
    no_id.id = None;
    assert!(build_graph_node(&no_id).is_none());
    let leaf = build_graph_node(&window(10, "x", 1, true, "X")).expect("window leaf");
    assert_eq!(leaf.kind, VisNodeKind::Window);
    assert!(leaf.startup_focused);
}

#[test]
fn mock_tree_has_three_windows() {
    let graph = mock_tree();
    let mut ids = Vec::new();
    window_ids(&graph, &mut ids);
    assert_eq!(ids, vec![21, 23, 24]);
    assert_eq!(graph.label, "workspace 2");
}
