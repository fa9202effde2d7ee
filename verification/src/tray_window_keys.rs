//! Keys pressed while the bar window has the keyboard: quick-jump typing,
//! menu navigation, view shortcuts and shift with a digit to open a tray
//! entry.

use vstd::prelude::*;
use crate::quickjump::{handle_quickjump_key, quickjump_step, QuickjumpOutcome};
use crate::text::{ascii_lower, has_infix, lower_char};
use crate::tray_keys::{
    character_form, extract_key_char, key_char_digit, key_char_of, key_digit_of, key_matches_char, key_matches_named,
    quoted, EvdevTrayContext,
};

verus! {

/// What the tray looks like when a window key arrives.
#[derive(Debug, Clone, Copy, PartialEq, Eq, Structural)]
pub struct WindowKeyContext {
    /// The same facts the raw key handler reads; `keys.shift_held` is the
    /// shift state before this key.
    pub keys: EvdevTrayContext,
    /// Whether the selected row can be made a favourite.
    pub favorite_target: bool,
    /// Whether the shown view offers quick-jump hints.
    pub quickjump_supported: bool,
}

/// What a window key does.
#[derive(Debug, Clone, Copy, PartialEq, Eq, Structural)]
pub enum WindowKeyEffect {
    Nothing,
    ExitSubmenu,
    CloseTray,
    MoveSelection { forward: bool },
    NavigateLeft,
    NavigateRight,
    /// Trigger the action of the selected row.
    TriggerSelected,
    /// Trigger the action of the row at this index.
    TriggerRow(usize),
    ToggleFavorite,
    ShowAggregated,
    ShowFavorites,
    /// Open the tray entry at this position.
    PressIcon(usize),
}

/// Whether a key description names a character, ignoring ASCII case.
pub open spec fn names_char(key: Seq<char>, ch: char) -> bool {
    has_infix(ascii_lower(key), character_form(lower_char(ch))) || has_infix(ascii_lower(key), quoted(lower_char(ch)))
}

/// What a menu key does with the tray open, with the quick-jump state it
/// leaves (active, input); nothing when the key is not a menu key. Escape
/// leaves a submenu or closes the tray and ends quick-jump; Down/Tab and
/// Up move the selection; Left leaves a submenu or moves left; Right
/// enters the selected submenu or moves right; Enter triggers the selected
/// row; `f` makes the selected row a favourite; `a` and `v` show the
/// aggregated and favourite views; `g` turns quick-jump on or off where
/// the view offers it.
pub open spec fn menu_key(key: Seq<char>, c: WindowKeyContext, active: bool, input: Seq<char>) -> Option<(WindowKeyEffect, bool, Seq<char>)> {
    if has_infix(key, "Escape"@) {
        Some((if c.keys.submenu_open { WindowKeyEffect::ExitSubmenu } else { WindowKeyEffect::CloseTray }, false, Seq::empty()))
    } else if has_infix(key, "ArrowDown"@) || has_infix(key, "Tab"@) {
        Some((WindowKeyEffect::MoveSelection { forward: true }, active, input))
    } else if has_infix(key, "ArrowUp"@) {
        Some((WindowKeyEffect::MoveSelection { forward: false }, active, input))
    } else if has_infix(key, "ArrowLeft"@) {
        Some((if c.keys.submenu_open { WindowKeyEffect::ExitSubmenu } else { WindowKeyEffect::NavigateLeft }, active, input))
    } else if has_infix(key, "ArrowRight"@) {
        Some((if c.keys.selected_action == Some(true) { WindowKeyEffect::TriggerSelected } else { WindowKeyEffect::NavigateRight }, active, input))
    } else if has_infix(key, "Enter"@) {
        Some((if c.keys.selected_action is Some { WindowKeyEffect::TriggerSelected } else { WindowKeyEffect::Nothing }, active, input))
    } else if names_char(key, 'f') {
        Some((if c.favorite_target { WindowKeyEffect::ToggleFavorite } else { WindowKeyEffect::Nothing }, active, input))
    } else if names_char(key, 'a') {
        Some((WindowKeyEffect::ShowAggregated, active, input))
    } else if names_char(key, 'v') {
        Some((WindowKeyEffect::ShowFavorites, active, input))
    } else if names_char(key, 'g') {
        Some(if c.quickjump_supported { (WindowKeyEffect::Nothing, !active, Seq::empty()) } else { (WindowKeyEffect::Nothing, active, input) })
    } else {
        None
    }
}

/// What a window key does: the effect, the shift state after it, and the
/// quick-jump state it leaves (active, typed input). A shift key sets the
/// shift state; releases do nothing else. With the tray open and
/// quick-jump on, Escape ends quick-jump, and a character is typed into it:
/// when it completes the label of a target, that target's row is
/// triggered and quick-jump ends. Other keys with the tray open are menu
/// keys. Otherwise, with shift held, a digit opens that tray entry.
pub open spec fn window_key_outcome(
    key: Seq<char>,
    pressed: bool,
    is_shift: bool,
    c: WindowKeyContext,
    active: bool,
    input: Seq<char>,
    alphabet: Seq<char>,
    labels: Seq<String>,
    targets: Seq<usize>,
) -> (WindowKeyEffect, bool, bool, Seq<char>) {
    let shift = if is_shift { pressed } else { c.keys.shift_held };
    if !pressed {
        (WindowKeyEffect::Nothing, shift, active, input)
    } else if c.keys.tray_open && active && has_infix(key, "Escape"@) {
        (WindowKeyEffect::Nothing, shift, false, Seq::empty())
    } else if c.keys.tray_open && active && key_char_of(key) is Some {
        let (o, typed) = quickjump_step(input, alphabet, labels, key_char_of(key)->0);
        match o {
            QuickjumpOutcome::Activate(p) => (
                if p < targets.len() { WindowKeyEffect::TriggerRow(targets[p as int]) } else { WindowKeyEffect::Nothing },
                shift,
                false,
                Seq::empty(),
            ),
            _ => (WindowKeyEffect::Nothing, shift, true, typed),
        }
    } else if c.keys.tray_open && menu_key(key, c, active, input) is Some {
        let (e, a, i) = menu_key(key, c, active, input)->0;
        (e, shift, a, i)
    } else if shift && key_digit_of(key) is Some && key_digit_of(key)->0 < c.keys.icon_count {
        (WindowKeyEffect::PressIcon(key_digit_of(key)->0), shift, active, input)
    } else {
        (WindowKeyEffect::Nothing, shift, active, input)
    }
}

fn menu_key_action(key: &str, c: WindowKeyContext, active: &mut bool, input: &mut String) -> (r: Option<WindowKeyEffect>)
    ensures
        match r {
            Some(e) => menu_key(key@, c, *old(active), old(input)@) == Some((e, *final(active), final(input)@)),
            None => menu_key(key@, c, *old(active), old(input)@) is None && *final(active) == *old(active)
                && final(input)@ == old(input)@,
        },
{
    if key_matches_named(key, "Escape") {
        *active = false;
        *input = String::new();
        return Some(if c.keys.submenu_open { WindowKeyEffect::ExitSubmenu } else { WindowKeyEffect::CloseTray });
    }
    if key_matches_named(key, "ArrowDown") || key_matches_named(key, "Tab") {
        return Some(WindowKeyEffect::MoveSelection { forward: true });
    }
    if key_matches_named(key, "ArrowUp") {
        return Some(WindowKeyEffect::MoveSelection { forward: false });
    }
    if key_matches_named(key, "ArrowLeft") {
        return Some(if c.keys.submenu_open { WindowKeyEffect::ExitSubmenu } else { WindowKeyEffect::NavigateLeft });
    }
    if key_matches_named(key, "ArrowRight") {
        return Some(match c.keys.selected_action {
            Some(true) => WindowKeyEffect::TriggerSelected,
            _ => WindowKeyEffect::NavigateRight,
        });
    }
    if key_matches_named(key, "Enter") {
        return Some(match c.keys.selected_action {
            Some(_) => WindowKeyEffect::TriggerSelected,
            None => WindowKeyEffect::Nothing,
        });
    }
    if key_matches_char(key, 'f') {
        return Some(if c.favorite_target { WindowKeyEffect::ToggleFavorite } else { WindowKeyEffect::Nothing });
    }
    if key_matches_char(key, 'a') {
        return Some(WindowKeyEffect::ShowAggregated);
    }
    if key_matches_char(key, 'v') {
        return Some(WindowKeyEffect::ShowFavorites);
    }
    if key_matches_char(key, 'g') {
        if c.quickjump_supported {
            *active = !*active;
            *input = String::new();
        }
        return Some(WindowKeyEffect::Nothing);
    }
    None
}

/// What a window key does. `shift_held` and the quick-jump state
/// (`active`, `input`) are updated; `alphabet` and `labels` are the hint
/// letters and the hint labels of `targets`, the selectable rows.
pub fn window_key(
    key: &str,
    pressed: bool,
    is_shift: bool,
    c: WindowKeyContext,
    shift_held: &mut bool,
    active: &mut bool,
    input: &mut String,
    alphabet: &str,
    labels: &Vec<String>,
    targets: &Vec<usize>,
) -> (r: WindowKeyEffect)
    requires
        *old(shift_held) == c.keys.shift_held,
    ensures
        (r, *final(shift_held), *final(active), final(input)@) == window_key_outcome(
            key@,
            pressed,
            is_shift,
            c,
            *old(active),
            old(input)@,
            alphabet@,
            labels@,
            targets@,
        ),
{
    if is_shift {
        *shift_held = pressed;
    }
    if !pressed {
        return WindowKeyEffect::Nothing;
    }
    if c.keys.tray_open {
        if *active {
            if key_matches_named(key, "Escape") {
                *active = false;
                *input = String::new();
                return WindowKeyEffect::Nothing;
            }
            match extract_key_char(key) {
                Some(ch) => {
                    let o = handle_quickjump_key(input, alphabet, labels, ch);
                    match o {
                        QuickjumpOutcome::Activate(p) => {
                            *active = false;
                            *input = String::new();
                            if p < targets.len() {
                                return WindowKeyEffect::TriggerRow(targets[p]);
                            }
                            return WindowKeyEffect::Nothing;
                        },
                        _ => {
                            return WindowKeyEffect::Nothing;
                        },
                    }
                },
                None => {},
            }
        }
        match menu_key_action(key, c, active, input) {
            Some(e) => {
                return e;
            },
            None => {},
        }
    }
    if *shift_held {
        match key_char_digit(key) {
            Some(i) => {
                if i < c.keys.icon_count {
                    return WindowKeyEffect::PressIcon(i);
                }
            },
            None => {},
        }
    }
    WindowKeyEffect::Nothing
}

/// The shift state after a raw key event: the left and right shift keys
/// set it, held for any value but a release.
pub fn global_shift_state(code: &str, value: i32, shift_held: bool) -> (r: bool)
    ensures
        r == if code@ == "KEY_LEFTSHIFT"@ || code@ == "KEY_RIGHTSHIFT"@ { value != 0 } else { shift_held },
{
    if crate::text::str_eq(code, "KEY_LEFTSHIFT") || crate::text::str_eq(code, "KEY_RIGHTSHIFT") {
        value != 0
    } else {
        shift_held
    }
}

} // verus!
