//! Keys that drive the tray from the keyboard: number-row shortcuts and the
//! textual key descriptions that the windowing layer reports.

use vstd::prelude::*;
use crate::text::{
    ascii_lower, chars_contain, chars_of, find_chars, first_at, lemma_first_at, matches_at, has_infix, lower_chars,
    lower_char, lower_of, str_eq,
};

verus! {

/// The number-row key that selects tray entry `i` (for `i` below nine).
pub open spec fn digit_key_code(i: nat) -> Seq<char> {
    "KEY_"@.push(((i + 1) + '0' as nat) as char)
}

/// The tray entry index of a number-row key reported by evdev: `KEY_1` to
/// `KEY_9` select entries 0 to 8; any other code selects nothing.
pub fn evdev_digit_index(code: &str) -> (r: Option<usize>)
    ensures
        match r {
            Some(i) => i < 9 && code@ == digit_key_code(i as nat),
            None => forall|i: nat| i < 9 ==> code@ != #[trigger] digit_key_code(i),
        },
{
    let cs = chars_of(code);
    proof {
        reveal_strlit("KEY_");
    }
    if cs.len() == 5 && cs[0] == 'K' && cs[1] == 'E' && cs[2] == 'Y' && cs[3] == '_' && '1' <= cs[4] && cs[4] <= '9' {
        let i: usize = (cs[4] as u32 - '1' as u32) as usize;
        assert(code@ =~= digit_key_code(i as nat));
        Some(i)
    } else {
        assert forall|i: nat| i < 9 implies code@ != #[trigger] digit_key_code(i) by {
            if code@ == digit_key_code(i) {
                assert(code@[4] == digit_key_code(i)[4]);
            }
        }
        None
    }
}

/// Whether a key description mentions the named key.
pub fn key_matches_named(key: &str, name: &str) -> (r: bool)
    ensures
        r == has_infix(key@, name@),
{
    let k = chars_of(key);
    let n = chars_of(name);
    chars_contain(&k, &n)
}

/// The quoted form of a lowercase character: `"c"`.
pub open spec fn quoted(c: char) -> Seq<char> {
    seq!['"', c, '"']
}

/// The character form of a lowercase character: `character("c")`.
pub open spec fn character_form(c: char) -> Seq<char> {
    "character("@ + quoted(c) + ")"@
}

/// Whether a key description, ignoring ASCII case, names the character `ch`.
pub fn key_matches_char(key: &str, ch: char) -> (r: bool)
    ensures
        r == (has_infix(ascii_lower(key@), character_form(lower_char(ch)))
            || has_infix(ascii_lower(key@), quoted(lower_char(ch)))),
{
    let k = chars_of(key);
    let lower = lower_chars(&k);
    let c = lower_of(ch);
    let mut q: Vec<char> = Vec::new();
    q.push('"');
    q.push(c);
    q.push('"');
    assert(q@ =~= quoted(c));
    let mut form = chars_of("character(");
    form.push('"');
    form.push(c);
    form.push('"');
    form.push(')');
    proof {
        reveal_strlit("character(");
        reveal_strlit(")");
    }
    assert(form@ =~= character_form(c));
    chars_contain(&lower, &form) || chars_contain(&lower, &q)
}

/// The marker that opens a character key description, in lowercase.
pub open spec fn char_marker() -> Seq<char> {
    "character(\""@
}

/// The character a key description names, in lowercase: what stands between
/// the first `character("` and the first `")` after it, if that is not empty.
pub open spec fn key_char_of(key: Seq<char>) -> Option<char> {
    let lower = ascii_lower(key);
    match first_at(lower, char_marker(), 0) {
        None => None,
        Some(p) => {
            let rest = lower.skip(p + char_marker().len());
            match first_at(rest, "\")"@, 0) {
                Some(e) => if e > 0 { Some(rest[0]) } else { None },
                None => None,
            }
        },
    }
}

/// The character that a key description names, in lowercase.
pub fn extract_key_char(key: &str) -> (r: Option<char>)
    ensures
        r == key_char_of(key@),
{
    let k = chars_of(key);
    let lower = lower_chars(&k);
    let marker = chars_of("character(\"");
    match find_chars(&lower, &marker, 0) {
        None => None,
        Some(p) => {
            proof {
                lemma_first_at(lower@, marker@, 0);
                assert(matches_at(lower@, marker@, p as int));
                assert(p + marker@.len() <= lower@.len());
                assert(marker@.len() == marker.len());
                assert(lower@.len() == lower.len());
            }
            let start = p + marker.len();
            let mut rest: Vec<char> = Vec::new();
            let mut i = start;
            while i < lower.len()
                invariant
                    start <= i <= lower.len(),
                    rest@ == lower@.subrange(start as int, i as int),
                decreases lower.len() - i,
            {
                rest.push(lower[i]);
                assert(lower@.subrange(start as int, i + 1) == lower@.subrange(start as int, i as int).push(lower@[i as int]));
                i = i + 1;
            }
            assert(rest@ =~= lower@.skip(start as int));
            let close = chars_of("\")");
            match find_chars(&rest, &close, 0) {
                Some(e) => {
                    proof {
                        lemma_first_at(rest@, close@, 0);
                    }
                    if e > 0 {
                        Some(rest[0])
                    } else {
                        None
                    }
                },
                None => None,
            }
        },
    }
}

/// The tray entry a pressed digit key selects: the character `1` to `9` of a
/// key description selects entries 0 to 8; anything else selects nothing.
pub open spec fn key_digit_of(key: Seq<char>) -> Option<usize> {
    match key_char_of(key) {
        Some(c) => if '1' <= c && c <= '9' { Some((c as nat - '1' as nat) as usize) } else { None },
        None => None,
    }
}

/// The tray entry a pressed digit key selects.
pub fn key_char_digit(key: &str) -> (r: Option<usize>)
    ensures
        r == key_digit_of(key@),
{
    match extract_key_char(key) {
        Some(c) => {
            if '1' <= c && c <= '9' {
                Some((c as u32 - '1' as u32) as usize)
            } else {
                None
            }
        },
        None => None,
    }
}

// == Raw key events while the tray is open ==

/// What a raw key event does to the tray.
#[derive(Debug, Clone, Copy, PartialEq, Eq, Structural)]
pub enum EvdevTrayOutcome {
    /// The event is not the tray's.
    NotHandled,
    /// The tray takes the event and does nothing with it.
    Handled,
    /// Leave the open submenu.
    ExitSubmenu,
    /// Close the tray.
    CloseTray,
    /// Move the keyboard selection forward or back.
    MoveSelection { forward: bool },
    NavigateLeft,
    NavigateRight,
    /// Trigger the action of the selected row.
    TriggerSelected,
    /// Open the tray entry at this position.
    PressIcon(usize),
}

/// What the tray looks like when a raw key event arrives.
#[derive(Debug, Clone, Copy, PartialEq, Eq, Structural)]
pub struct EvdevTrayContext {
    /// Whether the tray panel exists.
    pub tray_open: bool,
    /// Whether a submenu of an application is open.
    pub submenu_open: bool,
    /// The action of the selected row, when a row with an action is
    /// selected: whether it opens a submenu.
    pub selected_action: Option<bool>,
    /// Whether shift is held.
    pub shift_held: bool,
    /// How many tray entries there are.
    pub icon_count: usize,
}

/// Whether `code` is the number-row key of a tray entry that exists.
pub open spec fn icon_key(code: Seq<char>, c: EvdevTrayContext) -> bool {
    exists|i: nat| i < 9 && i < c.icon_count && code == #[trigger] digit_key_code(i)
}

/// What a raw key event does: releases do nothing; with the tray open,
/// Escape leaves a submenu or closes, Down/Tab and Up move the selection,
/// Left leaves a submenu or moves left, Right enters the selected submenu or
/// moves right, Enter triggers the selected action; otherwise shift and a
/// number key open that tray entry.
pub open spec fn evdev_tray_outcome(code: Seq<char>, value: i32, c: EvdevTrayContext) -> EvdevTrayOutcome {
    if value == 0 {
        EvdevTrayOutcome::NotHandled
    } else if c.tray_open && code == "KEY_ESC"@ {
        if c.submenu_open { EvdevTrayOutcome::ExitSubmenu } else { EvdevTrayOutcome::CloseTray }
    } else if c.tray_open && (code == "KEY_DOWN"@ || code == "KEY_TAB"@) {
        EvdevTrayOutcome::MoveSelection { forward: true }
    } else if c.tray_open && code == "KEY_UP"@ {
        EvdevTrayOutcome::MoveSelection { forward: false }
    } else if c.tray_open && code == "KEY_LEFT"@ {
        if c.submenu_open { EvdevTrayOutcome::ExitSubmenu } else { EvdevTrayOutcome::NavigateLeft }
    } else if c.tray_open && code == "KEY_RIGHT"@ {
        if c.selected_action == Some(true) { EvdevTrayOutcome::TriggerSelected } else { EvdevTrayOutcome::NavigateRight }
    } else if c.tray_open && (code == "KEY_ENTER"@ || code == "KEY_KPENTER"@) {
        if c.selected_action is Some { EvdevTrayOutcome::TriggerSelected } else { EvdevTrayOutcome::Handled }
    } else if c.shift_held && icon_key(code, c) {
        EvdevTrayOutcome::PressIcon((choose|i: nat| i < 9 && i < c.icon_count && code == #[trigger] digit_key_code(i)) as usize)
    } else {
        EvdevTrayOutcome::NotHandled
    }
}

proof fn lemma_digit_key_code_injective(i: nat, j: nat)
    requires
        i < 9,
        j < 9,
        digit_key_code(i) == digit_key_code(j),
    ensures
        i == j,
{
    reveal_strlit("KEY_");
    assert(digit_key_code(i)[4] == digit_key_code(j)[4]);
    assert(digit_key_code(i)[4] == ((i + 1) + '0' as nat) as char);
    assert(digit_key_code(j)[4] == ((j + 1) + '0' as nat) as char);
}

/// What a raw key event does to the tray.
pub fn evdev_tray_key(code: &str, value: i32, c: EvdevTrayContext) -> (r: EvdevTrayOutcome)
    ensures
        r == evdev_tray_outcome(code@, value, c),
{
    if value == 0 {
        return EvdevTrayOutcome::NotHandled;
    }
    if c.tray_open {
        if str_eq(code, "KEY_ESC") {
            return if c.submenu_open { EvdevTrayOutcome::ExitSubmenu } else { EvdevTrayOutcome::CloseTray };
        }
        if str_eq(code, "KEY_DOWN") || str_eq(code, "KEY_TAB") {
            return EvdevTrayOutcome::MoveSelection { forward: true };
        }
        if str_eq(code, "KEY_UP") {
            return EvdevTrayOutcome::MoveSelection { forward: false };
        }
        if str_eq(code, "KEY_LEFT") {
            return if c.submenu_open { EvdevTrayOutcome::ExitSubmenu } else { EvdevTrayOutcome::NavigateLeft };
        }
        if str_eq(code, "KEY_RIGHT") {
            return match c.selected_action {
                Some(true) => EvdevTrayOutcome::TriggerSelected,
                _ => EvdevTrayOutcome::NavigateRight,
            };
        }
        if str_eq(code, "KEY_ENTER") || str_eq(code, "KEY_KPENTER") {
            return match c.selected_action {
                Some(_) => EvdevTrayOutcome::TriggerSelected,
                None => EvdevTrayOutcome::Handled,
            };
        }
    }
    if c.shift_held {
        match evdev_digit_index(code) {
            Some(i) => {
                if i < c.icon_count {
                    proof {
                        let j = choose|j: nat| j < 9 && j < c.icon_count && code@ == #[trigger] digit_key_code(j);
                        assert(code@ == digit_key_code(i as nat));
                        lemma_digit_key_code_injective(i as nat, j);
                    }
                    return EvdevTrayOutcome::PressIcon(i);
                }
                proof {
                    assert forall|j: nat| j < 9 && j < c.icon_count implies code@ != #[trigger] digit_key_code(j) by {
                        if code@ == digit_key_code(j) {
                            lemma_digit_key_code_injective(i as nat, j);
                        }
                    }
                }
            },
            None => {},
        }
    }
    EvdevTrayOutcome::NotHandled
}

} // verus!
