//! Pieces of the i3 filter-tab popup: the windows it lists from the i3 tree,
//! the preview capture command and the i3 configuration lines.

use vstd::prelude::*;
use crate::i3_tree::{
    I3Node, app_identity, app_identity_of, class_or_instance, class_or_instance_of, is_workspace,
    is_workspace_node, lemma_children_smaller, text_of,
};
use crate::i3_vis::{
    EffectPlan, KeyModifiers, PopupEffect, PopupKey, PopupStep, StepPlan, i3_command_step, is_letter_like, is_single,
    step_plan,
};
use crate::text::{
    chars_eq_ignore_case, chars_of, decimal, decimal_string, eq_ignore_ascii_case, owned, push_decimal, push_str,
    replace_all, replaced, str_eq, string_of,
};
use std::collections::HashMap;

verus! {

/// Linux application id that i3 rules match the popup by.
pub const DEFAULT_APP_ID: &'static str = "unilii-filter-tab";
/// Title of the popup window.
pub const DEFAULT_TITLE: &'static str = "DeskHalloumi Filter Tab";
/// Shell command that captures a preview of one window.
pub const DEFAULT_PREVIEW_COMMAND: &'static str = "timeout 0.8s import -window {window} png:-";
/// Number of visible rows whose previews are captured at most.
pub const DEFAULT_MAX_PREVIEW_IMAGES: usize = 8;

/// The preview command for one window: `{con_id}` becomes the i3 container id,
/// then `{window}` and `{x11_window}` become the native window id.
pub open spec fn preview_command(template: Seq<char>, con_id: u32, native_window_id: u64) -> Seq<char> {
    let native = decimal(native_window_id as nat);
    replaced(
        replaced(replaced(template, "{con_id}"@, decimal(con_id as nat)), "{window}"@, native),
        "{x11_window}"@,
        native,
    )
}

/// Fills the placeholders of a preview command template.
pub fn render_preview_command(template: &str, con_id: u32, native_window_id: u64) -> (r: String)
    ensures
        r@ == preview_command(template@, con_id, native_window_id),
{
    proof {
        reveal_strlit("{con_id}");
        reveal_strlit("{window}");
        reveal_strlit("{x11_window}");
    }
    let con = decimal_string(con_id as u128);
    let native = decimal_string(native_window_id as u128);
    let a = replace_all(template, "{con_id}", con.as_str());
    let b = replace_all(a.as_str(), "{window}", native.as_str());
    replace_all(b.as_str(), "{x11_window}", native.as_str())
}

/// The first line of the i3 configuration, up to the binding's modifier.
pub const FILTER_TAB_SNIPPET_HEAD: &'static str = "for_window [app_id=\"unilii-filter-tab\"] floating enable, border pixel 2, move position center, sticky enable\nbindsym ";

/// The i3 configuration lines for the popup: a floating rule keyed by its
/// application id, and a `modifier+u` binding that starts `executable`.
pub fn i3_config_snippet(executable: &str, modifier: &str) -> (r: String)
    ensures
        r@ == FILTER_TAB_SNIPPET_HEAD@ + modifier@ + "+u exec --no-startup-id "@ + executable@,
{
    let mut v: Vec<char> = Vec::new();
    push_str(&mut v, FILTER_TAB_SNIPPET_HEAD);
    push_str(&mut v, modifier);
    push_str(&mut v, "+u exec --no-startup-id ");
    push_str(&mut v, executable);
    string_of(&v)
}

// == Windows of the i3 tree ==

/// A window that the popup lists.
#[derive(Debug)]
pub struct WindowMatchContext {
    /// The i3 container id.
    pub id: u32,
    pub title: String,
    pub class_name: Option<String>,
    /// Name of the workspace that holds the window.
    pub workspace: Option<String>,
    pub urgent: bool,
    /// The X11 window id, which preview capture needs.
    pub native_window_id: Option<u64>,
}

/// Abstract value of a listed window.
pub struct WindowEntry {
    pub id: u32,
    pub title: Seq<char>,
    pub class_name: Option<Seq<char>>,
    pub workspace: Option<Seq<char>>,
    pub urgent: bool,
    pub native_window_id: Option<u64>,
}

impl View for WindowMatchContext {
    type V = WindowEntry;

    open spec fn view(&self) -> WindowEntry {
        WindowEntry {
            id: self.id,
            title: self.title@,
            class_name: text_of(self.class_name),
            workspace: text_of(self.workspace),
            urgent: self.urgent,
            native_window_id: self.native_window_id,
        }
    }
}

/// The abstract values of a list of windows.
pub open spec fn entries(s: Seq<WindowMatchContext>) -> Seq<WindowEntry> {
    s.map_values(|w: WindowMatchContext| w@)
}

/// Whether a window is the popup itself: titled as the popup, or with an
/// application id (else class, else instance), or a class name, equal to the
/// popup's application id ignoring ASCII case.
pub open spec fn is_popup_window(title: Seq<char>, class_name: Option<Seq<char>>, n: I3Node) -> bool {
    ||| title == DEFAULT_TITLE@
    ||| app_identity(n) matches Some(a) && eq_ignore_ascii_case(a, DEFAULT_APP_ID@)
    ||| class_name matches Some(c) && eq_ignore_ascii_case(c, DEFAULT_APP_ID@)
}

fn is_app_id(s: &str) -> (r: bool)
    ensures
        r == eq_ignore_ascii_case(s@, DEFAULT_APP_ID@),
{
    let x = chars_of(s);
    let y = chars_of(DEFAULT_APP_ID);
    chars_eq_ignore_case(&x, &y)
}

/// Whether a window is the popup itself.
pub fn is_filter_tab_popup_window(title: &str, class_name: Option<&str>, n: &I3Node) -> (r: bool)
    ensures
        r == is_popup_window(title@, match class_name {
            Some(c) => Some(c@),
            None => None,
        }, *n),
{
    if str_eq(title, DEFAULT_TITLE) {
        return true;
    }
    let by_app = match app_identity_of(n) {
        Some(a) => is_app_id(a.as_str()),
        None => false,
    };
    if by_app {
        return true;
    }
    match class_name {
        Some(c) => is_app_id(c),
        None => false,
    }
}

/// The workspace that the containers below `n` belong to: the name of `n`
/// when it is a named workspace, else `ws`.
pub open spec fn workspace_below(n: I3Node, ws: Option<Seq<char>>) -> Option<Seq<char>> {
    if is_workspace(n) {
        match n.name {
            Some(name) => Some(name@),
            None => ws,
        }
    } else {
        ws
    }
}

/// The listing of one container in workspace `ws`: a window with an id that
/// is not the popup itself, titled by its name (else `Untitled`), with its
/// class (else instance), urgency and X11 window id; the id is truncated to
/// 32 bits.
pub open spec fn window_entry(n: I3Node, ws: Option<Seq<char>>) -> Option<WindowEntry> {
    let title = match n.name {
        Some(name) => name@,
        None => "Untitled"@,
    };
    let class_name = class_or_instance(n);
    match n.id {
        Some(id) => if n.has_window && !is_popup_window(title, class_name, n) {
            Some(WindowEntry {
                id: id as u32,
                title: title,
                class_name: class_name,
                workspace: ws,
                urgent: n.urgent == Some(true),
                native_window_id: n.window,
            })
        } else {
            None
        },
        None => None,
    }
}

/// The windows of the subtree of `n` in depth-first order (a container
/// before its `nodes`, then its `floating_nodes`), each with the workspace
/// that holds it; `ws` is the workspace above `n`.
pub open spec fn windows_in(n: I3Node, ws: Option<Seq<char>>) -> Seq<WindowEntry>
    decreases n,
{
    proof {
        lemma_children_smaller(n);
    }
    let w = workspace_below(n, ws);
    (match window_entry(n, w) {
        Some(e) => seq![e],
        None => Seq::empty(),
    }) + windows_in_list(n.nodes@, w) + windows_in_list(n.floating_nodes@, w)
}

/// The windows of the subtrees of `s` in order.
pub open spec fn windows_in_list(s: Seq<I3Node>, ws: Option<Seq<char>>) -> Seq<WindowEntry>
    decreases s,
{
    if s.len() == 0 {
        Seq::empty()
    } else {
        windows_in_list(s.drop_last(), ws) + windows_in(s.last(), ws)
    }
}

/// The windows that the popup lists for an i3 tree.
pub fn collect_windows_from_i3_tree(n: &I3Node) -> (r: Vec<WindowMatchContext>)
    ensures
        entries(r@) == windows_in(*n, None),
{
    let mut windows: Vec<WindowMatchContext> = Vec::new();
    assert(entries(windows@) =~= Seq::<WindowEntry>::empty());
    collect_windows_rec(n, None, &mut windows);
    windows
}

fn opt_owned(o: &Option<String>) -> (r: Option<String>)
    ensures
        text_of(r) == text_of(*o),
{
    match o {
        Some(s) => Some(owned(s.as_str())),
        None => None,
    }
}

fn window_of(n: &I3Node, workspace: &Option<String>) -> (r: Option<WindowMatchContext>)
    ensures
        match r {
            Some(w) => window_entry(*n, text_of(*workspace)) == Some(w@),
            None => window_entry(*n, text_of(*workspace)).is_none(),
        },
{
    if !n.has_window {
        return None;
    }
    let id = match n.id {
        Some(id) => id,
        None => {
            return None;
        },
    };
    let title = match &n.name {
        Some(name) => owned(name.as_str()),
        None => owned("Untitled"),
    };
    let class_name = match class_or_instance_of(n) {
        Some(c) => Some(owned(c.as_str())),
        None => None,
    };
    let popup = match &class_name {
        Some(c) => is_filter_tab_popup_window(title.as_str(), Some(c.as_str()), n),
        None => is_filter_tab_popup_window(title.as_str(), None, n),
    };
    if popup {
        return None;
    }
    let urgent = match n.urgent {
        Some(b) => b,
        None => false,
    };
    Some(WindowMatchContext {
        id: id as u32,
        title: title,
        class_name: class_name,
        workspace: opt_owned(workspace),
        urgent: urgent,
        native_window_id: n.window,
    })
}

fn collect_windows_rec(n: &I3Node, workspace: Option<String>, windows: &mut Vec<WindowMatchContext>)
    ensures
        entries(final(windows)@) == entries(old(windows)@) + windows_in(*n, text_of(workspace)),
    decreases *n,
{
    proof {
        lemma_children_smaller(*n);
    }
    let workspace = if is_workspace_node(n) {
        match &n.name {
            Some(name) => Some(owned(name.as_str())),
            None => workspace,
        }
    } else {
        workspace
    };
    let ghost before = entries(windows@);
    match window_of(n, &workspace) {
        Some(w) => {
            windows.push(w);
            assert(entries(windows@) =~= before.push(w@));
        },
        None => {},
    }
    let ghost middle = entries(windows@);
    collect_list(&n.nodes, &workspace, windows);
    collect_list(&n.floating_nodes, &workspace, windows);
    assert(entries(windows@) =~= before + windows_in(*n, text_of(workspace)));
}

fn collect_list(v: &Vec<I3Node>, workspace: &Option<String>, windows: &mut Vec<WindowMatchContext>)
    ensures
        entries(final(windows)@) == entries(old(windows)@) + windows_in_list(v@, text_of(*workspace)),
    decreases v@,
{
    let ghost ws = text_of(*workspace);
    let ghost start = entries(windows@);
    let mut i: usize = 0;
    assert(v@.take(0) =~= Seq::<I3Node>::empty());
    assert(start + windows_in_list(v@.take(0), ws) =~= start);
    while i < v.len()
        invariant
            i <= v.len(),
            ws == text_of(*workspace),
            entries(windows@) == start + windows_in_list(v@.take(i as int), ws),
        decreases v.len() - i,
    {
        proof {
            assert(decreases_to!(v@ => v@[i as int]));
            assert(v@.take(i + 1).drop_last() =~= v@.take(i as int));
            assert(v@.take(i + 1).last() == v@[i as int]);
        }
        let ws_copy = opt_owned(workspace);
        collect_windows_rec(&v[i], ws_copy, windows);
        assert(entries(windows@) =~= start + windows_in_list(v@.take(i + 1), ws));
        i = i + 1;
    }
    assert(v@.take(i as int) =~= v@);
}

/// A listed window of mock mode.
pub open spec fn mock_entry(id: u32, title: Seq<char>, class_name: Seq<char>, workspace: Seq<char>, native: u64, urgent: bool) -> WindowEntry {
    WindowEntry {
        id: id,
        title: title,
        class_name: Some(class_name),
        workspace: Some(workspace),
        urgent: urgent,
        native_window_id: Some(native),
    }
}

fn mock_window(id: u32, title: &str, class_name: &str, workspace: &str, native: u64, urgent: bool) -> (r: WindowMatchContext)
    ensures
        r@ == mock_entry(id, title@, class_name@, workspace@, native, urgent),
{
    WindowMatchContext {
        id: id,
        title: owned(title),
        class_name: Some(owned(class_name)),
        workspace: Some(owned(workspace)),
        urgent: urgent,
        native_window_id: Some(native),
    }
}

/// The windows that mock mode lists: a terminal, two browser windows (the
/// last one urgent) and an editor, on workspaces 1 to 4.
pub fn mock_windows() -> (r: Vec<WindowMatchContext>)
    ensures
        entries(r@) == seq![
            mock_entry(1001, "work - tmux"@, "Alacritty"@, "1"@, 2001, false),
            mock_entry(1002, "ChatGPT - Firefox"@, "firefox"@, "2"@, 2002, false),
            mock_entry(1003, "unilii - Emacs"@, "Emacs"@, "3"@, 2003, false),
            mock_entry(1004, "urgent mail - firefox"@, "firefox"@, "4"@, 2004, true),
        ],
{
    let r = vec![
        mock_window(1001, "work - tmux", "Alacritty", "1", 2001, false),
        mock_window(1002, "ChatGPT - Firefox", "firefox", "2", 2002, false),
        mock_window(1003, "unilii - Emacs", "Emacs", "3", 2003, false),
        mock_window(1004, "urgent mail - firefox", "firefox", "4", 2004, true),
    ];
    assert(entries(r@) =~= seq![r@[0]@, r@[1]@, r@[2]@, r@[3]@]);
    r
}

/// Whether a listed window reads as the popup itself: its title, or its
/// class name ignoring ASCII case, is the popup's.
pub open spec fn listed_as_popup(e: WindowEntry) -> bool {
    e.title == DEFAULT_TITLE@ || (e.class_name matches Some(c) && eq_ignore_ascii_case(c, DEFAULT_APP_ID@))
}

/// The popup never lists itself: no window listed for a tree reads as the
/// popup by title or class name.
pub proof fn popup_is_never_listed(n: I3Node, ws: Option<Seq<char>>)
    ensures
        forall|i: int| 0 <= i < windows_in(n, ws).len() ==> !listed_as_popup(#[trigger] windows_in(n, ws)[i]),
    decreases n,
{
    lemma_children_smaller(n);
    let w = workspace_below(n, ws);
    list_never_lists_popup(n.nodes@, w);
    list_never_lists_popup(n.floating_nodes@, w);
    let head: Seq<WindowEntry> = match window_entry(n, w) {
        Some(e) => seq![e],
        None => Seq::empty(),
    };
    let all = head + windows_in_list(n.nodes@, w) + windows_in_list(n.floating_nodes@, w);
    assert(windows_in(n, ws) == all);
    assert forall|i: int| 0 <= i < all.len() implies !listed_as_popup(#[trigger] all[i]) by {
        let a = head.len() as int;
        let b = a + windows_in_list(n.nodes@, w).len();
        if i < a {
            assert(all[i] == head[i]);
        } else if i < b {
            assert(all[i] == windows_in_list(n.nodes@, w)[i - a]);
        } else {
            assert(all[i] == windows_in_list(n.floating_nodes@, w)[i - b]);
        }
    }
}

proof fn list_never_lists_popup(s: Seq<I3Node>, ws: Option<Seq<char>>)
    ensures
        forall|i: int| 0 <= i < windows_in_list(s, ws).len() ==> !listed_as_popup(
            #[trigger] windows_in_list(s, ws)[i],
        ),
    decreases s,
{
    if s.len() > 0 {
        list_never_lists_popup(s.drop_last(), ws);
        popup_is_never_listed(s.last(), ws);
        let a = windows_in_list(s.drop_last(), ws);
        let b = windows_in(s.last(), ws);
        assert(windows_in_list(s, ws) == a + b);
        assert forall|i: int| 0 <= i < (a + b).len() implies !listed_as_popup(#[trigger] (a + b)[i]) by {
            if i < a.len() {
                assert((a + b)[i] == a[i]);
            } else {
                assert((a + b)[i] == b[i - a.len()]);
            }
        }
    }
}

// == Keys ==

/// What the switcher's selection model is told.
#[derive(Debug, Clone, Copy, PartialEq, Eq, Structural)]
pub enum FilterTabInput {
    Activate,
    Escape,
    Confirm,
    NextWindow,
    PreviousWindow,
    PageDown,
    PageUp,
    FirstWindow,
    LastWindow,
    NextTab,
    PreviousTab,
    ToggleQuickSelect,
    QuickSelect(char),
    SelectTab(char),
    ModifierRelease,
}

/// What a key press asks of the switcher.
#[derive(Debug, Clone, Copy, PartialEq, Eq, Structural)]
pub enum FilterTabKeyAction {
    /// Hand this input to the selection model.
    Input(FilterTabInput),
    /// Empty the query, disarm quick select and select the first row.
    ClearQuery,
    /// Forget the previews and reload the windows.
    Refresh,
    Ignore,
}

/// The quick-select label of a key: a single character typed with no
/// command modifier (control, alt or logo).
pub open spec fn quick_label(key: PopupKey, modifiers: KeyModifiers) -> Option<char> {
    if modifiers.control || modifiers.alt || modifiers.logo {
        None
    } else {
        match key {
            PopupKey::Character(v) => if v@.len() == 1 {
                Some(v@[0])
            } else {
                None
            },
            _ => None,
        }
    }
}

/// The quick-select label of a key.
pub fn quick_select_label_from_key(key: &PopupKey, modifiers: KeyModifiers) -> (r: Option<char>)
    ensures
        r == quick_label(*key, modifiers),
{
    if modifiers.control || modifiers.alt || modifiers.logo {
        return None;
    }
    match key {
        PopupKey::Character(value) => {
            let cs = chars_of(value.as_str());
            if cs.len() == 1 {
                Some(cs[0])
            } else {
                None
            }
        },
        _ => None,
    }
}

/// Whether bare letters move through the list: only while the query is
/// empty and no command modifier is held, so that typing is not captured.
pub open spec fn vim_keys_enabled(query: Seq<char>, modifiers: KeyModifiers) -> bool {
    query.len() == 0 && !modifiers.control && !modifiers.alt && !modifiers.logo
}

/// Whether bare letters move through the list.
pub fn vim_list_key_enabled(query: &str, modifiers: KeyModifiers) -> (r: bool)
    ensures
        r == vim_keys_enabled(query@, modifiers),
{
    query.is_empty() && !modifiers.control && !modifiers.alt && !modifiers.logo
}

/// What a character key asks of the switcher, given the query.
pub open spec fn character_action(v: Seq<char>, modifiers: KeyModifiers, query: Seq<char>) -> FilterTabKeyAction {
    let ctrl = modifiers.control;
    let vim = vim_keys_enabled(query, modifiers);
    if ctrl && eq_ignore_ascii_case(v, seq!['u']) {
        FilterTabKeyAction::ClearQuery
    } else if ctrl && eq_ignore_ascii_case(v, seq!['r']) {
        FilterTabKeyAction::Refresh
    } else if ctrl && eq_ignore_ascii_case(v, seq!['j']) {
        FilterTabKeyAction::Input(FilterTabInput::NextWindow)
    } else if ctrl && eq_ignore_ascii_case(v, seq!['k']) {
        FilterTabKeyAction::Input(FilterTabInput::PreviousWindow)
    } else if vim && v == seq!['g'] {
        FilterTabKeyAction::Input(FilterTabInput::FirstWindow)
    } else if vim && v == seq!['G'] {
        FilterTabKeyAction::Input(FilterTabInput::LastWindow)
    } else if vim && v == seq!['j'] {
        FilterTabKeyAction::Input(FilterTabInput::NextWindow)
    } else if vim && v == seq!['k'] {
        FilterTabKeyAction::Input(FilterTabInput::PreviousWindow)
    } else if ctrl && eq_ignore_ascii_case(v, seq!['n']) {
        FilterTabKeyAction::Input(FilterTabInput::NextWindow)
    } else if ctrl && eq_ignore_ascii_case(v, seq!['p']) {
        FilterTabKeyAction::Input(FilterTabInput::PreviousWindow)
    } else if ctrl && eq_ignore_ascii_case(v, seq!['q']) {
        FilterTabKeyAction::Input(FilterTabInput::ToggleQuickSelect)
    } else if ctrl && eq_ignore_ascii_case(v, seq!['m']) {
        FilterTabKeyAction::Input(FilterTabInput::Confirm)
    } else if modifiers.alt && v.len() == 1 {
        FilterTabKeyAction::Input(FilterTabInput::SelectTab(v[0]))
    } else {
        FilterTabKeyAction::Ignore
    }
}

/// What a key press asks of the switcher: with quick select armed, a plain
/// character picks by label; otherwise Escape, Enter, arrows, pages, Home,
/// End and (Shift+)Tab drive the model, Ctrl+Backspace clears the query, and
/// character keys act as `character_action` says.
pub open spec fn filter_tab_action(
    key: PopupKey,
    modifiers: KeyModifiers,
    quick_select_armed: bool,
    query: Seq<char>,
) -> FilterTabKeyAction {
    if quick_select_armed && quick_label(key, modifiers) is Some {
        FilterTabKeyAction::Input(FilterTabInput::QuickSelect(quick_label(key, modifiers).unwrap()))
    } else {
        match key {
            PopupKey::Escape => FilterTabKeyAction::Input(FilterTabInput::Escape),
            PopupKey::Enter => FilterTabKeyAction::Input(FilterTabInput::Confirm),
            PopupKey::ArrowDown => FilterTabKeyAction::Input(FilterTabInput::NextWindow),
            PopupKey::ArrowUp => FilterTabKeyAction::Input(FilterTabInput::PreviousWindow),
            PopupKey::PageDown => FilterTabKeyAction::Input(FilterTabInput::PageDown),
            PopupKey::PageUp => FilterTabKeyAction::Input(FilterTabInput::PageUp),
            PopupKey::Home => FilterTabKeyAction::Input(FilterTabInput::FirstWindow),
            PopupKey::End => FilterTabKeyAction::Input(FilterTabInput::LastWindow),
            PopupKey::Tab => if modifiers.shift {
                FilterTabKeyAction::Input(FilterTabInput::PreviousTab)
            } else {
                FilterTabKeyAction::Input(FilterTabInput::NextTab)
            },
            PopupKey::Backspace => if modifiers.control {
                FilterTabKeyAction::ClearQuery
            } else {
                FilterTabKeyAction::Ignore
            },
            PopupKey::Character(v) => character_action(v@, modifiers, query),
            _ => FilterTabKeyAction::Ignore,
        }
    }
}

fn character_key_action(cs: &Vec<char>, modifiers: KeyModifiers, vim: bool) -> (r: FilterTabKeyAction)
    ensures
        forall|query: Seq<char>| vim == vim_keys_enabled(query, modifiers) ==> r == character_action(
            cs@,
            modifiers,
            query,
        ),
{
    let ctrl = modifiers.control;
    if ctrl && is_letter_like(cs, 'u') {
        FilterTabKeyAction::ClearQuery
    } else if ctrl && is_letter_like(cs, 'r') {
        FilterTabKeyAction::Refresh
    } else if ctrl && is_letter_like(cs, 'j') {
        FilterTabKeyAction::Input(FilterTabInput::NextWindow)
    } else if ctrl && is_letter_like(cs, 'k') {
        FilterTabKeyAction::Input(FilterTabInput::PreviousWindow)
    } else if vim && is_single(cs, 'g') {
        FilterTabKeyAction::Input(FilterTabInput::FirstWindow)
    } else if vim && is_single(cs, 'G') {
        FilterTabKeyAction::Input(FilterTabInput::LastWindow)
    } else if vim && is_single(cs, 'j') {
        FilterTabKeyAction::Input(FilterTabInput::NextWindow)
    } else if vim && is_single(cs, 'k') {
        FilterTabKeyAction::Input(FilterTabInput::PreviousWindow)
    } else if ctrl && is_letter_like(cs, 'n') {
        FilterTabKeyAction::Input(FilterTabInput::NextWindow)
    } else if ctrl && is_letter_like(cs, 'p') {
        FilterTabKeyAction::Input(FilterTabInput::PreviousWindow)
    } else if ctrl && is_letter_like(cs, 'q') {
        FilterTabKeyAction::Input(FilterTabInput::ToggleQuickSelect)
    } else if ctrl && is_letter_like(cs, 'm') {
        FilterTabKeyAction::Input(FilterTabInput::Confirm)
    } else if modifiers.alt && cs.len() == 1 {
        FilterTabKeyAction::Input(FilterTabInput::SelectTab(cs[0]))
    } else {
        FilterTabKeyAction::Ignore
    }
}

/// What a key press asks of the switcher.
pub fn filter_tab_key_action(key: &PopupKey, modifiers: KeyModifiers, quick_select_armed: bool, query: &str) -> (r:
    FilterTabKeyAction)
    ensures
        r == filter_tab_action(*key, modifiers, quick_select_armed, query@),
{
    if quick_select_armed {
        match quick_select_label_from_key(key, modifiers) {
            Some(label) => {
                return FilterTabKeyAction::Input(FilterTabInput::QuickSelect(label));
            },
            None => {},
        }
    }
    match key {
        PopupKey::Escape => FilterTabKeyAction::Input(FilterTabInput::Escape),
        PopupKey::Enter => FilterTabKeyAction::Input(FilterTabInput::Confirm),
        PopupKey::ArrowDown => FilterTabKeyAction::Input(FilterTabInput::NextWindow),
        PopupKey::ArrowUp => FilterTabKeyAction::Input(FilterTabInput::PreviousWindow),
        PopupKey::PageDown => FilterTabKeyAction::Input(FilterTabInput::PageDown),
        PopupKey::PageUp => FilterTabKeyAction::Input(FilterTabInput::PageUp),
        PopupKey::Home => FilterTabKeyAction::Input(FilterTabInput::FirstWindow),
        PopupKey::End => FilterTabKeyAction::Input(FilterTabInput::LastWindow),
        PopupKey::Tab => if modifiers.shift {
            FilterTabKeyAction::Input(FilterTabInput::PreviousTab)
        } else {
            FilterTabKeyAction::Input(FilterTabInput::NextTab)
        },
        PopupKey::Backspace => if modifiers.control {
            FilterTabKeyAction::ClearQuery
        } else {
            FilterTabKeyAction::Ignore
        },
        PopupKey::Character(value) => {
            let cs = chars_of(value.as_str());
            let vim = vim_list_key_enabled(query, modifiers);
            character_key_action(&cs, modifiers, vim)
        },
        _ => FilterTabKeyAction::Ignore,
    }
}

// == Outcomes ==

/// What the switcher's selection model answers an input with.
#[derive(Debug, PartialEq, Eq)]
pub enum FilterTabOutcome {
    /// The model changed at most its own state.
    Unchanged,
    Cancelled,
    ConfirmWindow(u32),
    ExecuteContextCommand(String),
    NeedsRefresh,
}

/// The step that follows an outcome: confirming a window focuses it and
/// closes, a context command runs and closes (dry runs only report the
/// command), cancelling closes, a refresh reloads the windows.
pub open spec fn outcome_step(outcome: FilterTabOutcome, execute: bool) -> StepPlan {
    match outcome {
        FilterTabOutcome::Unchanged => StepPlan { status: None, effect: EffectPlan::Nothing },
        FilterTabOutcome::Cancelled => StepPlan { status: None, effect: EffectPlan::Close },
        FilterTabOutcome::ConfirmWindow(id) => i3_command_step(
            "[con_id="@ + decimal(id as nat) + "] focus"@,
            "Focused window #"@ + decimal(id as nat),
            true,
            execute,
            EffectPlan::Nothing,
        ),
        FilterTabOutcome::ExecuteContextCommand(command) => i3_command_step(
            command@,
            "Executed window action"@,
            true,
            execute,
            EffectPlan::Nothing,
        ),
        FilterTabOutcome::NeedsRefresh => StepPlan { status: None, effect: EffectPlan::Reload },
    }
}

fn run_i3_command(command: String, success_message: String, execute: bool) -> (r: PopupStep)
    ensures
        step_plan(r) == i3_command_step(command@, success_message@, true, execute, EffectPlan::Nothing),
{
    if execute {
        let mut v: Vec<char> = Vec::new();
        push_str(&mut v, "i3-msg ");
        push_str(&mut v, command.as_str());
        PopupStep {
            status: Some(string_of(&v)),
            effect: PopupEffect::RunI3 { command: command, success: success_message, closes: true },
        }
    } else {
        let mut v: Vec<char> = Vec::new();
        push_str(&mut v, "dry-run: i3-msg ");
        push_str(&mut v, command.as_str());
        PopupStep { status: Some(string_of(&v)), effect: PopupEffect::Nothing }
    }
}

/// The step that follows an outcome of the selection model.
pub fn apply_outcome(outcome: FilterTabOutcome, execute: bool) -> (r: PopupStep)
    ensures
        step_plan(r) == outcome_step(outcome, execute),
{
    match outcome {
        FilterTabOutcome::Unchanged => PopupStep { status: None, effect: PopupEffect::Nothing },
        FilterTabOutcome::Cancelled => PopupStep { status: None, effect: PopupEffect::Close },
        FilterTabOutcome::ConfirmWindow(id) => {
            let mut c: Vec<char> = Vec::new();
            push_str(&mut c, "[con_id=");
            push_decimal(&mut c, id as u128);
            push_str(&mut c, "] focus");
            let mut m: Vec<char> = Vec::new();
            push_str(&mut m, "Focused window #");
            push_decimal(&mut m, id as u128);
            run_i3_command(string_of(&c), string_of(&m), execute)
        },
        FilterTabOutcome::ExecuteContextCommand(command) => {
            run_i3_command(command, owned("Executed window action"), execute)
        },
        FilterTabOutcome::NeedsRefresh => PopupStep { status: None, effect: PopupEffect::Reload },
    }
}

/// The status line once the windows are loaded.
pub fn loaded_status(count: usize, preview_images: bool) -> (r: String)
    ensures
        r@ == decimal(count as nat) + if preview_images {
            " windows loaded · capturing previews…"@
        } else {
            " windows loaded"@
        },
{
    let mut v: Vec<char> = Vec::new();
    push_decimal(&mut v, count as u128);
    if preview_images {
        push_str(&mut v, " windows loaded · capturing previews…");
    } else {
        push_str(&mut v, " windows loaded");
    }
    string_of(&v)
}

// == Previews ==

/// The preview state of a window.
#[derive(Debug, PartialEq, Eq)]
pub enum FilterTabPreview {
    Loading,
    Unavailable,
    Ready(Vec<u8>),
    Error(String),
}

/// A capture of one window's preview.
#[derive(Debug, Clone, PartialEq, Eq)]
pub struct PreviewRequest {
    pub con_id: u32,
    pub native_window_id: u64,
    pub command_template: String,
}

/// The preview marks and captures for the visible rows `visible` (indices
/// into `windows`), over the windows whose ids are in `known` already: each
/// row in range whose window has no preview state yet becomes
/// `Unavailable` without an X11 window id, and otherwise `Loading` with a
/// capture request, in the visible order.
pub open spec fn preview_plan(windows: Seq<WindowMatchContext>, visible: Seq<usize>, known: Set<u32>) -> (Map<
    u32,
    FilterTabPreview,
>, Seq<(u32, u64)>)
    decreases visible.len(),
{
    if visible.len() == 0 {
        (Map::empty(), Seq::empty())
    } else {
        let (marks, requests) = preview_plan(windows, visible.drop_last(), known);
        let p = visible.last();
        if p < windows.len() {
            let w = windows[p as int];
            if known.contains(w.id) || marks.dom().contains(w.id) {
                (marks, requests)
            } else {
                match w.native_window_id {
                    None => (marks.insert(w.id, FilterTabPreview::Unavailable), requests),
                    Some(native) => (marks.insert(w.id, FilterTabPreview::Loading), requests.push((w.id, native))),
                }
            }
        } else {
            (marks, requests)
        }
    }
}

/// The visible rows whose previews are considered: at most `max` of them.
pub open spec fn considered(visible: Seq<usize>, max: usize) -> Seq<usize> {
    if max < visible.len() {
        visible.take(max as int)
    } else {
        visible
    }
}

pub const REFRESHING_STATUS: &'static str = "Refreshing i3 windows…";

/// Starting a refresh of the window list: every cached preview is dropped
/// and the status says the windows are being refreshed; the app then loads
/// the windows again.
pub fn refresh_windows(previews: &mut HashMap<u32, FilterTabPreview>, status: &mut String)
    ensures
        final(previews)@ == Map::<u32, FilterTabPreview>::empty(),
        final(status)@ == REFRESHING_STATUS@,
{
    previews.clear();
    *status = crate::text::owned(REFRESHING_STATUS);
}

/// Marks the previews of the visible rows and returns the captures to run;
/// nothing happens when previews are off.
pub fn request_preview_loads(
    preview_images: bool,
    max_preview_images: usize,
    visible_indices: &Vec<usize>,
    windows: &Vec<WindowMatchContext>,
    previews: &mut HashMap<u32, FilterTabPreview>,
    command_template: &str,
) -> (r: Vec<PreviewRequest>)
    ensures
        !preview_images ==> final(previews)@ == old(previews)@ && r@.len() == 0,
        preview_images ==> {
            let (marks, requests) = preview_plan(
                windows@,
                considered(visible_indices@, max_preview_images),
                old(previews)@.dom(),
            );
            &&& final(previews)@ == old(previews)@.union_prefer_right(marks)
            &&& r@.map_values(|q: PreviewRequest| (q.con_id, q.native_window_id)) == requests
            &&& forall|i: int| 0 <= i < r@.len() ==> (#[trigger] r@[i]).command_template@ == command_template@
        },
{
    broadcast use vstd::std_specs::hash::group_hash_axioms;
    let mut out: Vec<PreviewRequest> = Vec::new();
    if !preview_images {
        return out;
    }
    let n: usize = if max_preview_images < visible_indices.len() {
        max_preview_images
    } else {
        visible_indices.len()
    };
    let ghost seen = visible_indices@.take(n as int);
    let ghost start = previews@;
    assert(seen =~= considered(visible_indices@, max_preview_images));
    let mut k: usize = 0;
    proof {
        assert(seen.take(0) =~= Seq::<usize>::empty());
        assert(start.union_prefer_right(Map::<u32, FilterTabPreview>::empty()) =~= start);
        assert(out@.map_values(|q: PreviewRequest| (q.con_id, q.native_window_id)) =~= Seq::<(u32, u64)>::empty());
    }
    while k < n
        invariant
            n <= visible_indices@.len(),
            k <= n,
            seen == visible_indices@.take(n as int),
            ({
                let (marks, requests) = preview_plan(windows@, seen.take(k as int), start.dom());
                &&& previews@ == start.union_prefer_right(marks)
                &&& out@.map_values(|q: PreviewRequest| (q.con_id, q.native_window_id)) == requests
            }),
            forall|i: int| 0 <= i < out@.len() ==> (#[trigger] out@[i]).command_template@ == command_template@,
        decreases n - k,
    {
        let p = visible_indices[k];
        let ghost prev = preview_plan(windows@, seen.take(k as int), start.dom());
        let ghost before = out@;
        proof {
            let s = seen.take(k + 1);
            assert(s.drop_last() =~= seen.take(k as int));
            assert(s.last() == p);
        }
        if p < windows.len() {
            let w = &windows[p];
            if !previews.contains_key(&w.id) {
                proof {
                    assert(!start.dom().contains(w.id) && !prev.0.dom().contains(w.id));
                }
                match w.native_window_id {
                    None => {
                        previews.insert(w.id, FilterTabPreview::Unavailable);
                        proof {
                            assert(previews@ =~= start.union_prefer_right(
                                prev.0.insert(w.id, FilterTabPreview::Unavailable),
                            ));
                        }
                    },
                    Some(native) => {
                        previews.insert(w.id, FilterTabPreview::Loading);
                        out.push(
                            PreviewRequest {
                                con_id: w.id,
                                native_window_id: native,
                                command_template: owned(command_template),
                            },
                        );
                        proof {
                            assert(previews@ =~= start.union_prefer_right(
                                prev.0.insert(w.id, FilterTabPreview::Loading),
                            ));
                            assert(out@.map_values(|q: PreviewRequest| (q.con_id, q.native_window_id))
                                =~= before.map_values(|q: PreviewRequest| (q.con_id, q.native_window_id)).push(
                                (w.id, native),
                            ));
                        }
                    },
                }
            }
        }
        k = k + 1;
    }
    assert(seen.take(n as int) =~= seen);
    out
}

} // verus!
