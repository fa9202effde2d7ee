//! Quick-jump in tray menus: typing the hint label of a visible row
//! activates it.

use vstd::prelude::*;
use crate::text::{chars_eq, chars_eq_ignore_case, chars_of, chars_start_with, eq_ignore_ascii_case, has_prefix, owned, string_of};

verus! {

/// The letters that hint labels are made of, unless a custom menu sets its
/// own.
pub const DEFAULT_QUICKJUMP_ALPHABET: &'static str = "asdfjkl;ghqwertyuiopzxcvbnm";

/// The hint alphabet of a view: a custom menu's own alphabet when the view
/// shows one application that the custom menu is configured for (ids
/// compared ignoring ASCII case), else the default alphabet.
pub open spec fn alphabet_for(single_app_id: Option<Seq<char>>, custom_app_ids: Seq<String>, custom_alphabet: Seq<char>) -> Seq<char> {
    match single_app_id {
        Some(app) => if exists|i: int| 0 <= i < custom_app_ids.len() && eq_ignore_ascii_case(#[trigger] custom_app_ids[i]@, app) {
            custom_alphabet
        } else {
            DEFAULT_QUICKJUMP_ALPHABET@
        },
        None => DEFAULT_QUICKJUMP_ALPHABET@,
    }
}

/// The hint alphabet of a view; `single_app_id` is the application that a
/// single-application view shows.
pub fn quickjump_alphabet_for_view(single_app_id: Option<&str>, custom_app_ids: &Vec<String>, custom_alphabet: &str) -> (r: String)
    ensures
        r@ == alphabet_for(
            match single_app_id {
                Some(a) => Some(a@),
                None => None,
            },
            custom_app_ids@,
            custom_alphabet@,
        ),
{
    match single_app_id {
        Some(app) => {
            let a = chars_of(app);
            let mut i: usize = 0;
            while i < custom_app_ids.len()
                invariant
                    i <= custom_app_ids@.len(),
                    a@ == app@,
                    single_app_id matches Some(x) && x@ == app@,
                    forall|j: int| 0 <= j < i ==> !eq_ignore_ascii_case(#[trigger] custom_app_ids@[j]@, app@),
                decreases custom_app_ids.len() - i,
            {
                let c = chars_of(custom_app_ids[i].as_str());
                if chars_eq_ignore_case(&c, &a) {
                    assert(eq_ignore_ascii_case(custom_app_ids@[i as int]@, app@));
                    return owned(custom_alphabet);
                }
                i = i + 1;
            }
            owned(DEFAULT_QUICKJUMP_ALPHABET)
        },
        None => owned(DEFAULT_QUICKJUMP_ALPHABET),
    }
}

/// What a typed character does to quick-jump.
#[derive(Debug, Clone, Copy, PartialEq, Eq, Structural)]
pub enum QuickjumpOutcome {
    /// The character is not a hint letter.
    Ignored,
    /// The typed text begins some label; wait for more.
    Pending,
    /// The typed text is the label of this row.
    Activate(usize),
    /// The typed text begins no label; it was cleared.
    Reset,
}

/// The first position of `t` among the labels.
pub open spec fn label_position(labels: Seq<String>, t: Seq<char>) -> Option<int>
    decreases labels.len(),
{
    if labels.len() == 0 {
        None
    } else if labels[0]@ == t {
        Some(0)
    } else {
        match label_position(labels.drop_first(), t) {
            Some(p) => Some(p + 1),
            None => None,
        }
    }
}

proof fn lemma_label_position(labels: Seq<String>, t: Seq<char>, j: int)
    requires
        0 <= j <= labels.len(),
        forall|k: int| 0 <= k < j ==> (#[trigger] labels[k])@ != t,
    ensures
        j < labels.len() && labels[j]@ == t ==> label_position(labels, t) == Some(j),
        j == labels.len() ==> label_position(labels, t) is None,
    decreases j,
{
    if j > 0 {
        assert forall|k: int| 0 <= k < j - 1 implies (#[trigger] labels.drop_first()[k])@ != t by {
            assert(labels.drop_first()[k] == labels[k + 1]);
        }
        lemma_label_position(labels.drop_first(), t, j - 1);
    }
}

/// What typing `ch` does, with `input` typed so far and `labels` the hint
/// labels of the rows: a character outside the alphabet is ignored and
/// leaves the input; otherwise it is added, and the first row whose label
/// is the input is activated; if no label begins with the input it is
/// cleared; else more is awaited.
pub open spec fn quickjump_step(input: Seq<char>, alphabet: Seq<char>, labels: Seq<String>, ch: char) -> (QuickjumpOutcome, Seq<char>) {
    if !alphabet.contains(ch) {
        (QuickjumpOutcome::Ignored, input)
    } else {
        let typed = input.push(ch);
        match label_position(labels, typed) {
            Some(p) => (QuickjumpOutcome::Activate(p as usize), typed),
            None => if exists|i: int| 0 <= i < labels.len() && has_prefix(#[trigger] labels[i]@, typed) {
                (QuickjumpOutcome::Pending, typed)
            } else {
                (QuickjumpOutcome::Reset, Seq::empty())
            },
        }
    }
}

/// Handles a typed character during quick-jump.
pub fn handle_quickjump_key(input: &mut String, alphabet: &str, labels: &Vec<String>, ch: char) -> (r: QuickjumpOutcome)
    ensures
        (r, final(input)@) == quickjump_step(old(input)@, alphabet@, labels@, ch),
{
    let letters = chars_of(alphabet);
    let mut k: usize = 0;
    let mut found = false;
    while k < letters.len()
        invariant
            k <= letters@.len(),
            letters@ == alphabet@,
            found == (exists|j: int| 0 <= j < k && letters@[j] == ch),
        decreases letters.len() - k,
    {
        if letters[k] == ch {
            found = true;
        }
        k = k + 1;
    }
    if !found {
        assert(!alphabet@.contains(ch));
        return QuickjumpOutcome::Ignored;
    }
    assert(alphabet@.contains(ch));
    let mut typed = chars_of(input.as_str());
    typed.push(ch);
    let new_input = string_of(&typed);
    *input = new_input;
    let mut p: usize = 0;
    while p < labels.len()
        invariant
            p <= labels@.len(),
            typed@ == old(input)@.push(ch),
            input@ == typed@,
            alphabet@.contains(ch),
            forall|j: int| 0 <= j < p ==> (#[trigger] labels@[j])@ != typed@,
        decreases labels.len() - p,
    {
        let l = chars_of(labels[p].as_str());
        if chars_eq(&l, &typed) {
            proof {
                lemma_label_position(labels@, typed@, p as int);
            }
            return QuickjumpOutcome::Activate(p);
        }
        p = p + 1;
    }
    proof {
        lemma_label_position(labels@, typed@, p as int);
    }
    let mut q: usize = 0;
    while q < labels.len()
        invariant
            q <= labels@.len(),
            typed@ == old(input)@.push(ch),
            input@ == typed@,
            alphabet@.contains(ch),
            label_position(labels@, typed@) is None,
            forall|j: int| 0 <= j < q ==> !has_prefix(#[trigger] labels@[j]@, typed@),
        decreases labels.len() - q,
    {
        let l = chars_of(labels[q].as_str());
        if chars_start_with(&l, &typed) {
            assert(has_prefix(labels@[q as int]@, typed@));
            return QuickjumpOutcome::Pending;
        }
        q = q + 1;
    }
    *input = String::new();
    QuickjumpOutcome::Reset
}

} // verus!
