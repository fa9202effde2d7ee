//! Pieces of the i3 tree visualizer that are pure text and key handling:
//! vim-style focus and move commands, scripted test actions, the startup
//! focus restore command and the i3 configuration lines.

use vstd::prelude::*;
use crate::names::views;
use crate::i3_tree::{
    I3Node, app_identity, app_identity_of, class_or_instance, class_or_instance_of, field_is, first_workspace,
    first_workspace_node, find_workspace_node, focused_workspace, focused_workspace_id, holds, is_focused,
    lemma_children_smaller, workspace_with_id,
};
use crate::text::{
    chars_eq_ignore_case, chars_of, decimal, eq_ignore_ascii_case, nonblank_trimmed, push_decimal, push_str,
    split_pieces, split_trimmed_nonblank, str_eq, string_of,
};

verus! {

/// Linux application id that i3 rules match the visualizer by.
pub const DEFAULT_APP_ID: &'static str = "unilii-i3-vis";
/// Title of the visualizer window.
pub const DEFAULT_TITLE: &'static str = "DeskHalloumi i3 Visualizer";

/// The i3 command that gives focus back to container `id`.
pub fn startup_restore_command(id: u64) -> (r: String)
    ensures
        r@ == "[con_id="@ + decimal(id as nat) + "] focus"@,
{
    let mut v: Vec<char> = Vec::new();
    push_str(&mut v, "[con_id=");
    push_decimal(&mut v, id as u128);
    push_str(&mut v, "] focus");
    string_of(&v)
}

// == Scripted actions ==

/// The actions of a comma-separated script: each segment trimmed, empty
/// segments left out.
pub open spec fn script_actions(s: Seq<char>) -> Seq<Seq<char>> {
    nonblank_trimmed(split_pieces(s, ','))
}

/// Splits a comma-separated action script into its actions.
pub fn parse_e2e_actions(actions: &str) -> (r: Vec<String>)
    ensures
        views(r@) == script_actions(actions@),
{
    split_trimmed_nonblank(actions, ',')
}

// == Vim-style window commands ==

/// The i3 direction that a vim movement letter names, in either case.
pub open spec fn vim_direction(ch: char) -> Option<Seq<char>> {
    if ch == 'h' || ch == 'H' {
        Some("left"@)
    } else if ch == 'j' || ch == 'J' {
        Some("down"@)
    } else if ch == 'k' || ch == 'K' {
        Some("up"@)
    } else if ch == 'l' || ch == 'L' {
        Some("right"@)
    } else {
        None
    }
}

/// The i3 direction for a vim movement letter.
pub fn i3_direction_for_vim_char(ch: char) -> (r: Option<&'static str>)
    ensures
        match r {
            Some(d) => vim_direction(ch) == Some(d@),
            None => vim_direction(ch) is None,
        },
{
    if ch == 'h' || ch == 'H' {
        Some("left")
    } else if ch == 'j' || ch == 'J' {
        Some("down")
    } else if ch == 'k' || ch == 'K' {
        Some("up")
    } else if ch == 'l' || ch == 'L' {
        Some("right")
    } else {
        None
    }
}

/// The command for one vim letter: an uppercase letter (or a held shift)
/// moves the focused window, a lowercase one moves the focus.
pub open spec fn vim_command(ch: char, shift: bool) -> Option<Seq<char>> {
    match vim_direction(ch) {
        Some(d) => Some((if shift || ('A' <= ch && ch <= 'Z') { "move"@ } else { "focus"@ }) + " "@ + d),
        None => None,
    }
}

fn command_for(ch: char, shift: bool) -> (r: Option<String>)
    ensures
        match r {
            Some(c) => vim_command(ch, shift) == Some(c@),
            None => vim_command(ch, shift) is None,
        },
{
    match i3_direction_for_vim_char(ch) {
        Some(direction) => {
            let mut v: Vec<char> = Vec::new();
            if shift || ('A' <= ch && ch <= 'Z') {
                push_str(&mut v, "move");
            } else {
                push_str(&mut v, "focus");
            }
            push_str(&mut v, " ");
            push_str(&mut v, direction);
            Some(string_of(&v))
        },
        None => None,
    }
}

/// The i3 command for a scripted action that is a single vim letter.
pub fn i3_vim_command_from_action(action: &str) -> (r: Option<String>)
    ensures
        match r {
            Some(c) => action@.len() == 1 && vim_command(action@[0], false) == Some(c@),
            None => action@.len() != 1 || vim_command(action@[0], false) is None,
        },
{
    let cs = chars_of(action);
    if cs.len() != 1 {
        return None;
    }
    command_for(cs[0], false)
}

/// Modifier keys held with a key press.
#[derive(Debug, Clone, Copy, PartialEq, Eq, Default)]
pub struct KeyModifiers {
    pub control: bool,
    pub alt: bool,
    pub logo: bool,
    pub shift: bool,
}

/// The i3 command for a pressed key: a single vim letter with no command
/// modifier (control, alt or logo) held.
pub fn i3_vim_command_from_key(value: &str, modifiers: KeyModifiers) -> (r: Option<String>)
    ensures
        match r {
            Some(c) => !modifiers.control && !modifiers.alt && !modifiers.logo && value@.len() == 1
                && vim_command(value@[0], modifiers.shift) == Some(c@),
            None => modifiers.control || modifiers.alt || modifiers.logo || value@.len() != 1
                || vim_command(value@[0], modifiers.shift) is None,
        },
{
    if modifiers.control || modifiers.alt || modifiers.logo {
        return None;
    }
    let cs = chars_of(value);
    if cs.len() != 1 {
        return None;
    }
    command_for(cs[0], modifiers.shift)
}

/// A window leaf of the graph.
pub open spec fn window_leaf(id: u64, label: Seq<char>, focused: bool) -> VisTree {
    VisTree { id: id, label: label, kind: VisNodeKind::Window, startup_focused: focused, children: Seq::empty() }
}

/// The graph that mock mode shows: workspace 2 split vertically into an
/// editor and a horizontal split of a browser (focused at start) and a
/// terminal.
pub open spec fn mock_graph() -> VisTree {
    VisTree {
        id: 2,
        label: "workspace 2"@,
        kind: VisNodeKind::Workspace,
        startup_focused: false,
        children: seq![
            VisTree {
                id: 20,
                label: "2 vertical"@,
                kind: VisNodeKind::SplitVertical,
                startup_focused: false,
                children: seq![
                    window_leaf(21, "Emacs · unilii/src/i3_vis.rs"@, false),
                    VisTree {
                        id: 22,
                        label: "2 horizontal"@,
                        kind: VisNodeKind::SplitHorizontal,
                        startup_focused: false,
                        children: seq![
                            window_leaf(23, "Firefox · ChatGPT"@, true),
                            window_leaf(24, "XTerm · logs"@, false),
                        ],
                    },
                ],
            },
        ],
    }
}

fn leaf(id: u64, label: &str, focused: bool) -> (r: VisNode)
    ensures
        vis_tree(r) == window_leaf(id, label@, focused),
{
    let r = VisNode {
        id: id,
        label: crate::text::owned(label),
        kind: VisNodeKind::Window,
        startup_focused: focused,
        children: Vec::new(),
    };
    assert(vis_trees(r.children@) =~= Seq::<VisTree>::empty());
    r
}

fn branch(id: u64, label: &str, kind: VisNodeKind, children: Vec<VisNode>) -> (r: VisNode)
    ensures
        vis_tree(r) == (VisTree {
            id: id,
            label: label@,
            kind: kind,
            startup_focused: false,
            children: vis_trees(children@),
        }),
{
    VisNode { id: id, label: crate::text::owned(label), kind: kind, startup_focused: false, children: children }
}

/// The graph that mock mode shows.
pub fn mock_tree() -> (r: VisNode)
    ensures
        vis_tree(r) == mock_graph(),
{
    let a = leaf(23, "Firefox · ChatGPT", true);
    let b = leaf(24, "XTerm · logs", false);
    let ghost (ta, tb) = (vis_tree(a), vis_tree(b));
    let inner = vec![a, b];
    proof {
        reveal_with_fuel(vis_trees, 3);
        assert(inner@.drop_last() =~= seq![a]);
        assert(seq![a].drop_last() =~= Seq::<VisNode>::empty());
        assert(vis_trees(inner@) =~= seq![ta, tb]);
    }
    let h = branch(22, "2 horizontal", VisNodeKind::SplitHorizontal, inner);
    let e = leaf(21, "Emacs · unilii/src/i3_vis.rs", false);
    let ghost (te, th) = (vis_tree(e), vis_tree(h));
    let middle = vec![e, h];
    proof {
        reveal_with_fuel(vis_trees, 3);
        assert(middle@.drop_last() =~= seq![e]);
        assert(seq![e].drop_last() =~= Seq::<VisNode>::empty());
        assert(vis_trees(middle@) =~= seq![te, th]);
    }
    let v = branch(20, "2 vertical", VisNodeKind::SplitVertical, middle);
    let ghost tv = vis_tree(v);
    let top = vec![v];
    proof {
        reveal_with_fuel(vis_trees, 2);
        assert(top@.drop_last() =~= Seq::<VisNode>::empty());
        assert(vis_trees(top@) =~= seq![tv]);
    }
    branch(2, "workspace 2", VisNodeKind::Workspace, top)
}

/// A key as the popups see it: the named keys they react to, a character
/// key with its text, or any other key.
#[derive(Debug)]
pub enum PopupKey {
    Escape,
    Enter,
    Tab,
    ArrowDown,
    ArrowUp,
    PageDown,
    PageUp,
    Home,
    End,
    Backspace,
    Alt,
    AltGraph,
    Control,
    Shift,
    Meta,
    Super,
    Character(String),
    Other,
}

/// Whether the key is a modifier whose release confirms the selection.
pub open spec fn is_modifier_key(key: PopupKey) -> bool {
    key is Alt || key is AltGraph || key is Control || key is Shift || key is Meta || key is Super
}

/// Whether the released key is a modifier, whose release confirms.
pub fn is_modifier_release_key(key: &PopupKey) -> (r: bool)
    ensures
        r == is_modifier_key(*key),
{
    match key {
        PopupKey::Alt | PopupKey::AltGraph | PopupKey::Control | PopupKey::Shift | PopupKey::Meta
        | PopupKey::Super => true,
        _ => false,
    }
}

/// Whether no command modifier (control, alt or logo) is held.
pub fn no_command_modifier(modifiers: KeyModifiers) -> (r: bool)
    ensures
        r == (!modifiers.control && !modifiers.alt && !modifiers.logo),
{
    !modifiers.control && !modifiers.alt && !modifiers.logo
}

/// Whether the character key reads `t` exactly.
pub open spec fn key_text_is(key: PopupKey, t: Seq<char>) -> bool {
    key matches PopupKey::Character(v) && v@ == t
}

/// Whether the character key reads `t` ignoring ASCII case.
pub open spec fn key_text_like(key: PopupKey, t: Seq<char>) -> bool {
    key matches PopupKey::Character(v) && eq_ignore_ascii_case(v@, t)
}

/// Whether a character sequence is the single letter `lower`, ignoring ASCII case.
pub(crate) fn is_letter_like(cs: &Vec<char>, lower: char) -> (r: bool)
    requires
        'a' <= lower <= 'z',
    ensures
        r == eq_ignore_ascii_case(cs@, seq![lower]),
{
    let r = cs.len() == 1 && crate::text::lower_of(cs[0]) == lower;
    proof {
        let a = crate::text::ascii_lower(cs@);
        assert(crate::text::ascii_lower(seq![lower]) =~= seq![lower]);
        assert(a.len() == cs@.len());
        if cs@.len() == 1 {
            assert(a =~= seq![crate::text::lower_char(cs@[0])]);
            if a == seq![lower] {
                assert(a[0] == lower);
            }
        }
    }
    r

}

/// Whether a character sequence is exactly the single character `c`.
pub(crate) fn is_single(cs: &Vec<char>, c: char) -> (r: bool)
    ensures
        r == (cs@ == seq![c]),
{
    proof {
        if cs@.len() == 1 && cs@[0] == c {
            assert(cs@ =~= seq![c]);
        }
    }
    cs.len() == 1 && cs[0] == c
}

/// What the visualizer's selection model is told.
#[derive(Debug, Clone, Copy, PartialEq, Eq, Structural)]
pub enum I3VisInput {
    Activate,
    Escape,
    Confirm,
    Next,
    Previous,
    First,
    Last,
    ModifierRelease,
}

/// What a key press asks of the visualizer.
#[derive(Debug, PartialEq, Eq)]
pub enum I3VisKeyAction {
    /// Hand this input to the selection model.
    Input(I3VisInput),
    /// Reload the i3 tree.
    Refresh,
    /// Run this i3 command as it stands.
    Passthrough(String),
    Ignore,
}

/// Abstract value of a key action.
pub enum I3VisKeyPlan {
    Input(I3VisInput),
    Refresh,
    Passthrough(Seq<char>),
    Ignore,
}

/// The abstract value of a key action.
pub open spec fn i3_vis_plan(a: I3VisKeyAction) -> I3VisKeyPlan {
    match a {
        I3VisKeyAction::Input(i) => I3VisKeyPlan::Input(i),
        I3VisKeyAction::Refresh => I3VisKeyPlan::Refresh,
        I3VisKeyAction::Passthrough(c) => I3VisKeyPlan::Passthrough(c@),
        I3VisKeyAction::Ignore => I3VisKeyPlan::Ignore,
    }
}

/// The i3 command of a vim letter key, as `i3_vim_command_from_key` gives it.
pub open spec fn vim_key_command(v: Seq<char>, modifiers: KeyModifiers) -> Option<Seq<char>> {
    if modifiers.control || modifiers.alt || modifiers.logo || v.len() != 1 {
        None
    } else {
        vim_command(v[0], modifiers.shift)
    }
}

/// What a key press asks of the visualizer: Escape cancels, Enter confirms,
/// arrows, Tab and Shift+Tab, Home and End move the selection; `r` (alone or
/// with control) reloads; a vim letter runs its i3 command; `g` and `G`
/// select the first and last window.
pub open spec fn i3_vis_action(key: PopupKey, modifiers: KeyModifiers) -> I3VisKeyPlan {
    let plain = !modifiers.control && !modifiers.alt && !modifiers.logo;
    match key {
        PopupKey::Escape => I3VisKeyPlan::Input(I3VisInput::Escape),
        PopupKey::Enter => I3VisKeyPlan::Input(I3VisInput::Confirm),
        PopupKey::Tab => if modifiers.shift {
            I3VisKeyPlan::Input(I3VisInput::Previous)
        } else {
            I3VisKeyPlan::Input(I3VisInput::Next)
        },
        PopupKey::ArrowDown => I3VisKeyPlan::Input(I3VisInput::Next),
        PopupKey::ArrowUp => I3VisKeyPlan::Input(I3VisInput::Previous),
        PopupKey::Home => I3VisKeyPlan::Input(I3VisInput::First),
        PopupKey::End => I3VisKeyPlan::Input(I3VisInput::Last),
        PopupKey::Character(v) => if modifiers.control && eq_ignore_ascii_case(v@, seq!['r']) {
            I3VisKeyPlan::Refresh
        } else if v@ == seq!['r'] && plain {
            I3VisKeyPlan::Refresh
        } else if let Some(c) = vim_key_command(v@, modifiers) {
            I3VisKeyPlan::Passthrough(c)
        } else if v@ == seq!['g'] && plain {
            I3VisKeyPlan::Input(I3VisInput::First)
        } else if v@ == seq!['G'] && plain {
            I3VisKeyPlan::Input(I3VisInput::Last)
        } else {
            I3VisKeyPlan::Ignore
        },
        _ => I3VisKeyPlan::Ignore,
    }
}

/// What a key press asks of the visualizer.
pub fn i3_vis_key_action(key: &PopupKey, modifiers: KeyModifiers) -> (r: I3VisKeyAction)
    ensures
        i3_vis_plan(r) == i3_vis_action(*key, modifiers),
{
    match key {
        PopupKey::Escape => I3VisKeyAction::Input(I3VisInput::Escape),
        PopupKey::Enter => I3VisKeyAction::Input(I3VisInput::Confirm),
        PopupKey::Tab => if modifiers.shift {
            I3VisKeyAction::Input(I3VisInput::Previous)
        } else {
            I3VisKeyAction::Input(I3VisInput::Next)
        },
        PopupKey::ArrowDown => I3VisKeyAction::Input(I3VisInput::Next),
        PopupKey::ArrowUp => I3VisKeyAction::Input(I3VisInput::Previous),
        PopupKey::Home => I3VisKeyAction::Input(I3VisInput::First),
        PopupKey::End => I3VisKeyAction::Input(I3VisInput::Last),
        PopupKey::Character(value) => {
            let cs = chars_of(value.as_str());
            let plain = no_command_modifier(modifiers);
            if modifiers.control && is_letter_like(&cs, 'r') {
                I3VisKeyAction::Refresh
            } else if is_single(&cs, 'r') && plain {
                I3VisKeyAction::Refresh
            } else {
                match i3_vim_command_from_key(value.as_str(), modifiers) {
                    Some(c) => I3VisKeyAction::Passthrough(c),
                    None => if is_single(&cs, 'g') && plain {
                        I3VisKeyAction::Input(I3VisInput::First)
                    } else if is_single(&cs, 'G') && plain {
                        I3VisKeyAction::Input(I3VisInput::Last)
                    } else {
                        I3VisKeyAction::Ignore
                    },
                }
            }
        },
        _ => I3VisKeyAction::Ignore,
    }
}

/// What the visualizer or the window switcher does next.
#[derive(Debug, PartialEq, Eq)]
pub enum PopupEffect {
    Nothing,
    /// Close the popup window.
    Close,
    /// Reload the i3 tree.
    Reload,
    /// Run an i3 command; on success show `success`, then close the popup
    /// when `closes` holds, else reload the tree.
    RunI3 { command: String, success: String, closes: bool },
}

/// The status line a step sets (`None` keeps it) and what follows.
#[derive(Debug, PartialEq, Eq)]
pub struct PopupStep {
    pub status: Option<String>,
    pub effect: PopupEffect,
}

/// Abstract value of an effect.
pub enum EffectPlan {
    Nothing,
    Close,
    Reload,
    RunI3 { command: Seq<char>, success: Seq<char>, closes: bool },
}

/// Abstract value of a step.
pub struct StepPlan {
    pub status: Option<Seq<char>>,
    pub effect: EffectPlan,
}

/// The abstract value of a step.
pub open spec fn step_plan(s: PopupStep) -> StepPlan {
    StepPlan {
        status: match s.status {
            Some(t) => Some(t@),
            None => None,
        },
        effect: match s.effect {
            PopupEffect::Nothing => EffectPlan::Nothing,
            PopupEffect::Close => EffectPlan::Close,
            PopupEffect::Reload => EffectPlan::Reload,
            PopupEffect::RunI3 { command, success, closes } => EffectPlan::RunI3 {
                command: command@,
                success: success@,
                closes: closes,
            },
        },
    }
}

/// Running an i3 command: a dry run (without `execute`) only reports the
/// command and then does `dry`; otherwise the command runs.
pub open spec fn i3_command_step(command: Seq<char>, success: Seq<char>, closes: bool, execute: bool, dry: EffectPlan) -> StepPlan {
    if execute {
        StepPlan {
            status: Some("i3-msg "@ + command),
            effect: EffectPlan::RunI3 { command: command, success: success, closes: closes },
        }
    } else {
        StepPlan { status: Some("dry-run: i3-msg "@ + command), effect: dry }
    }
}

fn prefixed(prefix: &str, command: &str) -> (r: String)
    ensures
        r@ == prefix@ + command@,
{
    let mut v: Vec<char> = Vec::new();
    push_str(&mut v, prefix);
    push_str(&mut v, command);
    string_of(&v)
}

fn i3_step(command: String, success: String, closes: bool, execute: bool, dry: PopupEffect) -> (r: PopupStep)
    ensures
        step_plan(r) == i3_command_step(command@, success@, closes, execute, step_plan(
            PopupStep { status: None, effect: dry },
        ).effect),
{
    if execute {
        let status = prefixed("i3-msg ", command.as_str());
        PopupStep {
            status: Some(status),
            effect: PopupEffect::RunI3 { command: command, success: success, closes: closes },
        }
    } else {
        let status = prefixed("dry-run: i3-msg ", command.as_str());
        PopupStep { status: Some(status), effect: dry }
    }
}

fn focus_message(prefix: &str, id: u64) -> (r: String)
    ensures
        r@ == prefix@ + decimal(id as nat),
{
    let mut v: Vec<char> = Vec::new();
    push_str(&mut v, prefix);
    push_decimal(&mut v, id as u128);
    string_of(&v)
}

/// Cancelling the visualizer: without a window that had the focus at start
/// it reports `Cancelled` and closes; otherwise it gives that window the
/// focus back (closing afterwards), or in a dry run reports and closes.
pub open spec fn restore_step(startup: Option<u64>, execute: bool) -> StepPlan {
    match startup {
        None => StepPlan { status: Some("Cancelled"@), effect: EffectPlan::Close },
        Some(id) => i3_command_step(
            "[con_id="@ + decimal(id as nat) + "] focus"@,
            "Restored startup focus #"@ + decimal(id as nat),
            true,
            execute,
            EffectPlan::Close,
        ),
    }
}

/// Cancelling the visualizer.
pub fn restore_startup_focus_and_close(startup: Option<u64>, execute: bool) -> (r: PopupStep)
    ensures
        step_plan(r) == restore_step(startup, execute),
{
    match startup {
        None => PopupStep { status: Some(crate::text::owned("Cancelled")), effect: PopupEffect::Close },
        Some(id) => {
            let command = startup_restore_command(id);
            let success = focus_message("Restored startup focus #", id);
            i3_step(command, success, true, execute, PopupEffect::Close)
        },
    }
}

/// Confirming window `id`: give it the focus, then close; a dry run only
/// reports the command.
pub open spec fn focus_step(id: u64, execute: bool) -> StepPlan {
    i3_command_step(
        "[con_id="@ + decimal(id as nat) + "] focus"@,
        "Focused #"@ + decimal(id as nat),
        true,
        execute,
        EffectPlan::Nothing,
    )
}

/// Confirming window `id`.
pub fn focus_window(id: u64, execute: bool) -> (r: PopupStep)
    ensures
        step_plan(r) == focus_step(id, execute),
{
    let command = startup_restore_command(id);
    let success = focus_message("Focused #", id);
    i3_step(command, success, true, execute, PopupEffect::Nothing)
}

/// Running an i3 command typed as a vim key: it runs, and the tree reloads
/// afterwards; a dry run only reports it.
pub open spec fn passthrough_step(command: Seq<char>, execute: bool) -> StepPlan {
    i3_command_step(command, "Executed i3 "@ + command, false, execute, EffectPlan::Nothing)
}

/// Running an i3 command typed as a vim key.
pub fn run_i3_passthrough_command(command: String, execute: bool) -> (r: PopupStep)
    ensures
        step_plan(r) == passthrough_step(command@, execute),
{
    let success = prefixed("Executed i3 ", command.as_str());
    i3_step(command, success, false, execute, PopupEffect::Nothing)
}

// == i3 configuration ==

/// The i3 configuration lines up to the binding's modifier.
pub const I3_VIS_SNIPPET_HEAD: &'static str = "for_window [app_id=\"unilii-i3-vis\"] floating enable, border pixel 0, move position center, sticky enable\nfor_window [app_id=\"unilii-i3-vis\"] opacity 0.90\nbindsym ";

/// The i3 configuration lines for the visualizer: floating and opacity rules
/// keyed by its application id, and a `modifier+i` binding that starts
/// `executable`.
pub fn i3_config_snippet(executable: &str, modifier: &str) -> (r: String)
    ensures
        r@ == I3_VIS_SNIPPET_HEAD@ + modifier@ + "+i exec --no-startup-id "@ + executable@,
{
    let mut v: Vec<char> = Vec::new();
    push_str(&mut v, I3_VIS_SNIPPET_HEAD);
    push_str(&mut v, modifier);
    push_str(&mut v, "+i exec --no-startup-id ");
    push_str(&mut v, executable);
    string_of(&v)
}

// == Workspace graph ==

/// The kind of a node of the workspace graph.
#[derive(Debug, Clone, Copy, PartialEq, Eq, Structural)]
pub enum VisNodeKind {
    Workspace,
    SplitVertical,
    SplitHorizontal,
    Tabbed,
    Stacked,
    Floating,
    Container,
    Window,
}

/// A node of the workspace graph that the visualizer draws: a workspace, a
/// layout container or a window, with its children in order.
#[derive(Debug)]
pub struct VisNode {
    pub id: u64,
    pub label: String,
    pub kind: VisNodeKind,
    /// Whether this window had the focus when the visualizer started.
    pub startup_focused: bool,
    pub children: Vec<VisNode>,
}

/// Abstract value of a graph node.
pub struct VisTree {
    pub id: u64,
    pub label: Seq<char>,
    pub kind: VisNodeKind,
    pub startup_focused: bool,
    pub children: Seq<VisTree>,
}

pub proof fn lemma_vis_children_smaller(v: VisNode)
    ensures
        decreases_to!(v => v.children@),
{
    assert(decreases_to!(v => v.children));
    assert(decreases_to!(v.children => v.children@)) by {
        broadcast use vstd::std_specs::vec::axiom_vec_decreases_to_view;
    }
}

/// The abstract value of a graph node.
pub open spec fn vis_tree(v: VisNode) -> VisTree
    decreases v,
{
    proof {
        lemma_vis_children_smaller(v);
    }
    VisTree {
        id: v.id,
        label: v.label@,
        kind: v.kind,
        startup_focused: v.startup_focused,
        children: vis_trees(v.children@),
    }
}

/// The abstract values of a list of graph nodes.
pub open spec fn vis_trees(s: Seq<VisNode>) -> Seq<VisTree>
    decreases s,
{
    if s.len() == 0 {
        Seq::empty()
    } else {
        vis_trees(s.drop_last()).push(vis_tree(s.last()))
    }
}

pub proof fn lemma_vis_trees_len(s: Seq<VisNode>)
    ensures
        vis_trees(s).len() == s.len(),
    decreases s.len(),
{
    if s.len() > 0 {
        lemma_vis_trees_len(s.drop_last());
    }
}

/// The abstract value of an optional graph node.
pub open spec fn vis_option(o: Option<VisNode>) -> Option<VisTree> {
    match o {
        Some(v) => Some(vis_tree(v)),
        None => None,
    }
}

/// The graph kind of a layout container: by its `layout`, then a floating
/// container, else a plain container.
pub open spec fn layout_kind_of(n: I3Node) -> VisNodeKind {
    if holds(n.layout, "splitv"@) {
        VisNodeKind::SplitVertical
    } else if holds(n.layout, "splith"@) {
        VisNodeKind::SplitHorizontal
    } else if holds(n.layout, "tabbed"@) {
        VisNodeKind::Tabbed
    } else if holds(n.layout, "stacked"@) {
        VisNodeKind::Stacked
    } else if holds(n.node_type, "floating_con"@) {
        VisNodeKind::Floating
    } else {
        VisNodeKind::Container
    }
}

/// The graph kind of a layout container.
pub fn layout_kind(n: &I3Node) -> (r: VisNodeKind)
    ensures
        r == layout_kind_of(*n),
{
    if field_is(&n.layout, "splitv") {
        VisNodeKind::SplitVertical
    } else if field_is(&n.layout, "splith") {
        VisNodeKind::SplitHorizontal
    } else if field_is(&n.layout, "tabbed") {
        VisNodeKind::Tabbed
    } else if field_is(&n.layout, "stacked") {
        VisNodeKind::Stacked
    } else if field_is(&n.node_type, "floating_con") {
        VisNodeKind::Floating
    } else {
        VisNodeKind::Container
    }
}

/// The label of a layout container with `child_count` children (counted as
/// at least one): the count and the layout, or for a plain container its
/// non-empty name, else the count and `container`.
pub open spec fn layout_label_of(n: I3Node, child_count: nat) -> Seq<char> {
    let c = if child_count < 1 { 1nat } else { child_count };
    match layout_kind_of(n) {
        VisNodeKind::SplitVertical => decimal(c) + " vertical"@,
        VisNodeKind::SplitHorizontal => decimal(c) + " horizontal"@,
        VisNodeKind::Tabbed => decimal(c) + " tabbed"@,
        VisNodeKind::Stacked => decimal(c) + " stacked"@,
        VisNodeKind::Floating => decimal(c) + " floating"@,
        _ => match n.name {
            Some(name) if name@.len() > 0 => name@,
            _ => decimal(c) + " container"@,
        },
    }
}

/// The label of a layout container with `child_count` children.
pub fn layout_label(n: &I3Node, child_count: usize) -> (r: String)
    ensures
        r@ == layout_label_of(*n, child_count as nat),
{
    let c: usize = if child_count < 1 { 1 } else { child_count };
    let mut out: Vec<char> = Vec::new();
    let kind = layout_kind(n);
    match kind {
        VisNodeKind::SplitVertical | VisNodeKind::SplitHorizontal | VisNodeKind::Tabbed
        | VisNodeKind::Stacked | VisNodeKind::Floating => {
            push_decimal(&mut out, c as u128);
            match kind {
                VisNodeKind::SplitVertical => push_str(&mut out, " vertical"),
                VisNodeKind::SplitHorizontal => push_str(&mut out, " horizontal"),
                VisNodeKind::Tabbed => push_str(&mut out, " tabbed"),
                VisNodeKind::Stacked => push_str(&mut out, " stacked"),
                _ => push_str(&mut out, " floating"),
            }
        },
        _ => {
            match &n.name {
                Some(name) if !name.as_str().is_empty() => {
                    push_str(&mut out, name.as_str());
                },
                _ => {
                    push_decimal(&mut out, c as u128);
                    push_str(&mut out, " container");
                },
            }
        },
    }
    string_of(&out)
}

/// The label of a window: its class (or instance) and its non-empty title
/// (else `Untitled`), joined by a middle dot.
pub open spec fn window_label_of(n: I3Node) -> Seq<char> {
    let title = match n.name {
        Some(name) if name@.len() > 0 => name@,
        _ => "Untitled"@,
    };
    match class_or_instance(n) {
        Some(c) => c + " · "@ + title,
        None => title,
    }
}

/// The label of a window.
pub fn window_label(n: &I3Node) -> (r: String)
    ensures
        r@ == window_label_of(*n),
{
    let mut out: Vec<char> = Vec::new();
    match class_or_instance_of(n) {
        Some(c) => {
            push_str(&mut out, c.as_str());
            push_str(&mut out, " · ");
        },
        None => {},
    }
    match &n.name {
        Some(name) if !name.as_str().is_empty() => push_str(&mut out, name.as_str()),
        _ => push_str(&mut out, "Untitled"),
    }
    string_of(&out)
}

/// Whether the node is the visualizer's own window: titled as the visualizer,
/// or with an application id (else class, else instance) equal to its
/// application id ignoring ASCII case.
pub open spec fn is_vis_popup(n: I3Node) -> bool {
    let title = match n.name {
        Some(name) => name@,
        None => Seq::empty(),
    };
    title == DEFAULT_TITLE@ || (app_identity(n) matches Some(a) && eq_ignore_ascii_case(a, DEFAULT_APP_ID@))
}

/// Whether the node is the visualizer's own window.
pub fn is_i3_vis_popup_node(n: &I3Node) -> (r: bool)
    ensures
        r == is_vis_popup(*n),
{
    let titled = match &n.name {
        Some(name) => str_eq(name.as_str(), DEFAULT_TITLE),
        None => {
            let empty = String::new();
            str_eq(empty.as_str(), DEFAULT_TITLE)
        },
    };
    if titled {
        return true;
    }
    match app_identity_of(n) {
        Some(a) => {
            let x = chars_of(a.as_str());
            let y = chars_of(DEFAULT_APP_ID);
            chars_eq_ignore_case(&x, &y)
        },
        None => false,
    }
}

/// The graph node of a container: none without an id or for the
/// visualizer's own window; a window becomes a leaf with its label and
/// focus; a layout container becomes a node over the graph nodes of its
/// children, and none when it has no such child.
pub open spec fn graph_node(n: I3Node) -> Option<VisTree>
    decreases n, 1nat,
{
    match n.id {
        None => None,
        Some(id) => if is_vis_popup(n) {
            None
        } else if n.has_window {
            Some(VisTree {
                id: id,
                label: window_label_of(n),
                kind: VisNodeKind::Window,
                startup_focused: n.focused == Some(true),
                children: Seq::empty(),
            })
        } else {
            let children = graph_children_of(n);
            if children.len() == 0 {
                None
            } else {
                Some(VisTree {
                    id: id,
                    label: layout_label_of(n, children.len()),
                    kind: layout_kind_of(n),
                    startup_focused: false,
                    children: children,
                })
            }
        },
    }
}

/// The graph nodes of the children of `n`: `nodes`, then `floating_nodes`.
pub open spec fn graph_children_of(n: I3Node) -> Seq<VisTree>
    decreases n, 0nat,
{
    proof {
        lemma_children_smaller(n);
    }
    graph_list(n.nodes@) + graph_list(n.floating_nodes@)
}

/// The graph nodes of the containers of `s` that have one, in order.
pub open spec fn graph_list(s: Seq<I3Node>) -> Seq<VisTree>
    decreases s, 2nat,
{
    if s.len() == 0 {
        Seq::empty()
    } else {
        let before = graph_list(s.drop_last());
        match graph_node(s.last()) {
            Some(t) => before.push(t),
            None => before,
        }
    }
}

/// The graph node of a container.
pub fn build_graph_node(n: &I3Node) -> (r: Option<VisNode>)
    ensures
        vis_option(r) == graph_node(*n),
    decreases *n, 1nat,
{
    let id = match n.id {
        Some(id) => id,
        None => {
            return None;
        },
    };
    if is_i3_vis_popup_node(n) {
        return None;
    }
    if n.has_window {
        let label = window_label(n);
        let node = VisNode {
            id: id,
            label: label,
            kind: VisNodeKind::Window,
            startup_focused: is_focused(n),
            children: Vec::new(),
        };
        proof {
            assert(vis_trees(node.children@) =~= Seq::<VisTree>::empty());
        }
        return Some(node);
    }
    let children = graph_children(n);
    if children.len() == 0 {
        return None;
    }
    let count = children.len();
    proof {
        lemma_vis_trees_len(children@);
    }
    let kind = layout_kind(n);
    let label = layout_label(n, count);
    let node = VisNode { id: id, label: label, kind: kind, startup_focused: false, children: children };
    Some(node)
}

/// The graph nodes of the children of a container.
pub fn graph_children(n: &I3Node) -> (r: Vec<VisNode>)
    ensures
        vis_trees(r@) == graph_children_of(*n),
    decreases *n, 0nat,
{
    proof {
        lemma_children_smaller(*n);
    }
    let mut out: Vec<VisNode> = Vec::new();
    assert(vis_trees(out@) =~= Seq::<VisTree>::empty());
    push_graph_nodes(&n.nodes, &mut out);
    push_graph_nodes(&n.floating_nodes, &mut out);
    assert(vis_trees(out@) =~= graph_list(n.nodes@) + graph_list(n.floating_nodes@));
    out
}

fn push_graph_nodes(v: &Vec<I3Node>, out: &mut Vec<VisNode>)
    ensures
        vis_trees(final(out)@) == vis_trees(old(out)@) + graph_list(v@),
    decreases v@, 2nat,
{
    let ghost start = vis_trees(out@);
    let mut i: usize = 0;
    assert(v@.take(0) =~= Seq::<I3Node>::empty());
    assert(start + graph_list(v@.take(0)) =~= start);
    while i < v.len()
        invariant
            i <= v.len(),
            vis_trees(out@) == start + graph_list(v@.take(i as int)),
        decreases v.len() - i,
    {
        proof {
            assert(decreases_to!(v@ => v@[i as int]));
            assert(v@.take(i + 1).drop_last() =~= v@.take(i as int));
            assert(v@.take(i + 1).last() == v@[i as int]);
        }
        match build_graph_node(&v[i]) {
            Some(node) => {
                let ghost before = out@;
                out.push(node);
                proof {
                    assert(out@.drop_last() =~= before);
                    assert(start + graph_list(v@.take(i + 1)) =~= (start + graph_list(v@.take(i as int))).push(
                        vis_tree(node),
                    ));
                }
            },
            None => {},
        }
        i = i + 1;
    }
    assert(v@.take(i as int) =~= v@);
}

/// The graph of a workspace: none without an id; else a node labelled
/// `workspace` and its name (or `workspace` again) over the graph nodes of
/// its children.
pub open spec fn workspace_graph(n: I3Node) -> Option<VisTree> {
    match n.id {
        None => None,
        Some(id) => Some(VisTree {
            id: id,
            label: "workspace "@ + match n.name {
                Some(name) => name@,
                None => "workspace"@,
            },
            kind: VisNodeKind::Workspace,
            startup_focused: false,
            children: graph_children_of(n),
        }),
    }
}

/// The graph of a workspace.
pub fn build_workspace_graph(n: &I3Node) -> (r: Option<VisNode>)
    ensures
        vis_option(r) == workspace_graph(*n),
{
    let id = match n.id {
        Some(id) => id,
        None => {
            return None;
        },
    };
    let mut label: Vec<char> = Vec::new();
    push_str(&mut label, "workspace ");
    match &n.name {
        Some(name) => push_str(&mut label, name.as_str()),
        None => push_str(&mut label, "workspace"),
    }
    let children = graph_children(n);
    Some(VisNode {
        id: id,
        label: string_of(&label),
        kind: VisNodeKind::Workspace,
        startup_focused: false,
        children: children,
    })
}

/// The graph the visualizer shows for an i3 tree: that of the workspace
/// holding the focus, else that of the first workspace.
pub open spec fn workspace_tree(n: I3Node) -> Option<VisTree> {
    let ws = match focused_workspace(n) {
        Some(id) => workspace_with_id(n, id),
        None => first_workspace(n),
    };
    match ws {
        Some(w) => workspace_graph(w),
        None => None,
    }
}

/// The graph the visualizer shows for an i3 tree.
pub fn workspace_tree_from_i3_tree(n: &I3Node) -> (r: Option<VisNode>)
    ensures
        vis_option(r) == workspace_tree(*n),
{
    let ws = match focused_workspace_id(n) {
        Some(id) => find_workspace_node(n, id),
        None => first_workspace_node(n),
    };
    match ws {
        Some(w) => build_workspace_graph(w),
        None => None,
    }
}

/// Split containers show their direction: a `splitv` container is a
/// vertical split labelled with its child count (at least one) and
/// `vertical`, a `splith` container a horizontal split labelled
/// `horizontal`; so the two directions never share a kind or a label.
pub proof fn split_direction_is_kept(n: I3Node, child_count: nat)
    ensures
        holds(n.layout, "splitv"@) ==> layout_kind_of(n) == VisNodeKind::SplitVertical
            && layout_label_of(n, child_count) == decimal(if child_count < 1 { 1nat } else { child_count }) + " vertical"@,
        holds(n.layout, "splith"@) ==> layout_kind_of(n) == VisNodeKind::SplitHorizontal
            && layout_label_of(n, child_count) == decimal(if child_count < 1 { 1nat } else { child_count }) + " horizontal"@,
{
    reveal_strlit("splitv");
    reveal_strlit("splith");
    assert("splitv"@[5] != "splith"@[5]);
}

} // verus!
