//! The agenda of the calendar menu: the fetched events in order of start
//! time and title, at most 48 of them, with a status line.

use vstd::prelude::*;
use crate::menu_order::{chars_le, lemma_seq_le_refl, lemma_seq_le_total, lemma_seq_le_trans, seq_le};
use crate::text::{chars_eq, chars_of, decimal, push_decimal, push_str, string_of};

verus! {

/// Most events that the agenda shows.
pub const MAX_AGENDA_ITEMS: usize = 48;

/// One fetched event.
#[derive(Debug, PartialEq, Eq)]
pub struct CalendarAgendaItem {
    pub account_id: String,
    pub title: String,
    /// Start time in RFC 3339, which orders as text.
    pub start_rfc3339: String,
    pub location: Option<String>,
}

impl CalendarAgendaItem {
    /// A copy of the item.
    pub fn duplicate(&self) -> (r: Self)
        ensures
            r == *self,
    {
        CalendarAgendaItem {
            account_id: self.account_id.clone(),
            title: self.title.clone(),
            start_rfc3339: self.start_rfc3339.clone(),
            location: match &self.location {
                Some(l) => Some(l.clone()),
                None => None,
            },
        }
    }
}

impl Clone for CalendarAgendaItem {
    fn clone(&self) -> (r: Self)
        ensures
            r == *self,
    {
        self.duplicate()
    }
}

/// An account whose events could not be fetched.
#[derive(Debug, Clone, PartialEq, Eq)]
pub struct CalendarAccountError {
    pub account_id: String,
    pub message: String,
}

/// What the calendar menu shows.
#[derive(Debug, Clone, PartialEq, Eq)]
pub struct CalendarMenuSnapshot {
    pub account_ids: Vec<String>,
    pub events: Vec<CalendarAgendaItem>,
    pub account_errors: Vec<CalendarAccountError>,
    /// Whether some account failed, so that the agenda may be incomplete.
    pub stale: bool,
    pub status: String,
}

/// Whether `a` may come before `b`: an earlier start, or the same start
/// and a title that is not greater.
pub open spec fn agenda_le(a: CalendarAgendaItem, b: CalendarAgendaItem) -> bool {
    if a.start_rfc3339@ == b.start_rfc3339@ {
        seq_le(a.title@, b.title@)
    } else {
        seq_le(a.start_rfc3339@, b.start_rfc3339@)
    }
}

/// How many items at the front of `s` may come before `x`.
pub open spec fn place_of(s: Seq<CalendarAgendaItem>, x: CalendarAgendaItem) -> nat
    decreases s.len(),
{
    if s.len() == 0 {
        0
    } else if agenda_le(s[0], x) {
        1 + place_of(s.drop_first(), x)
    } else {
        0
    }
}

/// `x` inserted into `s` after every item at the front that may come
/// before it.
pub open spec fn insert_item(s: Seq<CalendarAgendaItem>, x: CalendarAgendaItem) -> Seq<CalendarAgendaItem> {
    let p = place_of(s, x) as int;
    s.take(p).push(x) + s.skip(p)
}

/// The items in agenda order; items that tie keep their order (a stable
/// sort).
pub open spec fn agenda_order(s: Seq<CalendarAgendaItem>) -> Seq<CalendarAgendaItem>
    decreases s.len(),
{
    if s.len() == 0 {
        Seq::empty()
    } else {
        insert_item(agenda_order(s.drop_last()), s.last())
    }
}

/// Whether the items are in agenda order.
pub open spec fn agenda_sorted(s: Seq<CalendarAgendaItem>) -> bool {
    forall|i: int, j: int| 0 <= i < j < s.len() ==> agenda_le(#[trigger] s[i], #[trigger] s[j])
}

proof fn lemma_agenda_le_total(a: CalendarAgendaItem, b: CalendarAgendaItem)
    ensures
        agenda_le(a, b) || agenda_le(b, a),
{
    lemma_seq_le_total(a.title@, b.title@);
    lemma_seq_le_total(a.start_rfc3339@, b.start_rfc3339@);
}

proof fn lemma_seq_le_antisym(a: Seq<char>, b: Seq<char>)
    requires
        seq_le(a, b),
        seq_le(b, a),
    ensures
        a == b,
    decreases a.len(),
{
    if a.len() > 0 && b.len() > 0 {
        lemma_seq_le_antisym(a.drop_first(), b.drop_first());
        assert(a =~= seq![a[0]] + a.drop_first());
        assert(b =~= seq![b[0]] + b.drop_first());
    }
}

proof fn lemma_agenda_le_trans(a: CalendarAgendaItem, b: CalendarAgendaItem, c: CalendarAgendaItem)
    requires
        agenda_le(a, b),
        agenda_le(b, c),
    ensures
        agenda_le(a, c),
{
    let (sa, sb, sc) = (a.start_rfc3339@, b.start_rfc3339@, c.start_rfc3339@);
    if sa == sb && sb == sc {
        lemma_seq_le_trans(a.title@, b.title@, c.title@);
    } else if sa == sb {
        assert(seq_le(sb, sc));
    } else if sb == sc {
        assert(seq_le(sa, sb));
    } else {
        lemma_seq_le_trans(sa, sb, sc);
        if sa == sc {
            lemma_seq_le_antisym(sa, sb);
        }
    }
}

proof fn lemma_place_of(s: Seq<CalendarAgendaItem>, x: CalendarAgendaItem)
    requires
        agenda_sorted(s),
    ensures
        place_of(s, x) <= s.len(),
        forall|i: int| 0 <= i < place_of(s, x) ==> agenda_le(#[trigger] s[i], x),
        forall|i: int| place_of(s, x) <= i < s.len() ==> !agenda_le(#[trigger] s[i], x),
    decreases s.len(),
{
    if s.len() > 0 {
        let t = s.drop_first();
        assert forall|i: int, j: int| 0 <= i < j < t.len() implies agenda_le(#[trigger] t[i], #[trigger] t[j]) by {
            assert(t[i] == s[i + 1] && t[j] == s[j + 1]);
        }
        lemma_place_of(t, x);
        if agenda_le(s[0], x) {
            assert forall|i: int| 0 <= i < place_of(s, x) implies agenda_le(#[trigger] s[i], x) by {
                if i > 0 {
                    assert(s[i] == t[i - 1]);
                }
            }
            assert forall|i: int| place_of(s, x) <= i < s.len() implies !agenda_le(#[trigger] s[i], x) by {
                assert(s[i] == t[i - 1]);
            }
        } else {
            assert forall|i: int| 0 <= i < s.len() implies !agenda_le(#[trigger] s[i], x) by {
                if i > 0 && agenda_le(s[i], x) {
                    assert(agenda_le(s[0], s[i]));
                    lemma_agenda_le_trans(s[0], s[i], x);
                }
            }
        }
    }
}

/// Inserting into a sorted sequence keeps it sorted.
proof fn lemma_insert_sorted(s: Seq<CalendarAgendaItem>, x: CalendarAgendaItem)
    requires
        agenda_sorted(s),
    ensures
        agenda_sorted(insert_item(s, x)),
        insert_item(s, x).len() == s.len() + 1,
{
    lemma_place_of(s, x);
    let p = place_of(s, x) as int;
    let r = insert_item(s, x);
    assert(r.len() == s.len() + 1);
    assert forall|i: int| 0 <= i < r.len() implies #[trigger] r[i] == (if i < p {
        s[i]
    } else if i == p {
        x
    } else {
        s[i - 1]
    }) by {}
    assert forall|i: int, j: int| 0 <= i < j < r.len() implies agenda_le(#[trigger] r[i], #[trigger] r[j]) by {
        if j == p {
            assert(agenda_le(s[i], x));
        } else if i == p {
            assert(!agenda_le(s[j - 1], x));
            lemma_agenda_le_total(s[j - 1], x);
        } else {
            let a = if i < p { i } else { i - 1 };
            let b = if j < p { j } else { j - 1 };
            assert(a < b);
            assert(r[i] == s[a] && r[j] == s[b]);
        }
    }
}

/// The agenda order is sorted and keeps every item.
pub proof fn lemma_agenda_order_sorted(s: Seq<CalendarAgendaItem>)
    ensures
        agenda_sorted(agenda_order(s)),
        agenda_order(s).len() == s.len(),
    decreases s.len(),
{
    if s.len() > 0 {
        lemma_agenda_order_sorted(s.drop_last());
        lemma_insert_sorted(agenda_order(s.drop_last()), s.last());
    }
}

fn item_le(a: &CalendarAgendaItem, b: &CalendarAgendaItem) -> (r: bool)
    ensures
        r == agenda_le(*a, *b),
{
    let sa = chars_of(a.start_rfc3339.as_str());
    let sb = chars_of(b.start_rfc3339.as_str());
    if chars_eq(&sa, &sb) {
        chars_le(&chars_of(a.title.as_str()), &chars_of(b.title.as_str()))
    } else {
        chars_le(&sa, &sb)
    }
}

proof fn lemma_place_of_prefix(s: Seq<CalendarAgendaItem>, x: CalendarAgendaItem, p: int)
    requires
        0 <= p <= s.len(),
        forall|i: int| 0 <= i < p ==> agenda_le(#[trigger] s[i], x),
        p == s.len() || !agenda_le(s[p], x),
    ensures
        place_of(s, x) == p,
    decreases p,
{
    if p > 0 {
        let t = s.drop_first();
        assert forall|i: int| 0 <= i < p - 1 implies agenda_le(#[trigger] t[i], x) by {
            assert(t[i] == s[i + 1]);
        }
        if p < s.len() {
            assert(t[p - 1] == s[p]);
        }
        lemma_place_of_prefix(t, x, p - 1);
    }
}

/// The events in agenda order, at most `MAX_AGENDA_ITEMS` of them.
pub fn sort_agenda(items: Vec<CalendarAgendaItem>) -> (r: Vec<CalendarAgendaItem>)
    ensures
        r@ == if items@.len() > MAX_AGENDA_ITEMS {
            agenda_order(items@).take(MAX_AGENDA_ITEMS as int)
        } else {
            agenda_order(items@)
        },
        agenda_sorted(r@),
{
    let mut out: Vec<CalendarAgendaItem> = Vec::new();
    let mut k: usize = 0;
    assert(items@.take(0) =~= Seq::<CalendarAgendaItem>::empty());
    while k < items.len()
        invariant
            k <= items@.len(),
            out@ == agenda_order(items@.take(k as int)),
        decreases items.len() - k,
    {
        let x = items[k].duplicate();
        proof {
            assert(items@.take(k + 1).drop_last() =~= items@.take(k as int));
            assert(items@.take(k + 1).last() == items@[k as int]);
            lemma_agenda_order_sorted(items@.take(k as int));
        }
        let mut p: usize = 0;
        while p < out.len() && item_le(&out[p], &x)
            invariant
                p <= out@.len(),
                forall|i: int| 0 <= i < p ==> agenda_le(#[trigger] out@[i], x),
            decreases out.len() - p,
        {
            p = p + 1;
        }
        proof {
            lemma_place_of_prefix(out@, x, p as int);
        }
        let ghost before = out@;
        out.insert(p, x);
        assert(out@ =~= before.take(p as int).push(x) + before.skip(p as int));
        k = k + 1;
    }
    assert(items@.take(k as int) =~= items@);
    proof {
        lemma_agenda_order_sorted(items@);
    }
    if out.len() > MAX_AGENDA_ITEMS {
        out.truncate(MAX_AGENDA_ITEMS);
    }
    out
}

/// The status line of the agenda: how many events came from how many
/// accounts, or, when some accounts failed, how many events and failures.
pub open spec fn agenda_status(events: nat, accounts: nat, errors: nat) -> Seq<char> {
    if errors == 0 {
        "Synced "@ + decimal(events) + " event(s) from "@ + decimal(accounts) + " account(s)"@
    } else {
        "Partial sync: "@ + decimal(events) + " event(s), "@ + decimal(errors) + " account error(s)"@
    }
}

/// The status line of the agenda.
pub fn calendar_status(events: usize, accounts: usize, errors: usize) -> (r: String)
    ensures
        r@ == agenda_status(events as nat, accounts as nat, errors as nat),
{
    let mut v: Vec<char> = Vec::new();
    if errors == 0 {
        push_str(&mut v, "Synced ");
        push_decimal(&mut v, events as u128);
        push_str(&mut v, " event(s) from ");
        push_decimal(&mut v, accounts as u128);
        push_str(&mut v, " account(s)");
    } else {
        push_str(&mut v, "Partial sync: ");
        push_decimal(&mut v, events as u128);
        push_str(&mut v, " event(s), ");
        push_decimal(&mut v, errors as u128);
        push_str(&mut v, " account error(s)");
    }
    string_of(&v)
}

/// What the calendar menu shows after fetching every account: the agenda
/// of the fetched events, the failures, and the status line.
pub fn calendar_snapshot(
    account_ids: Vec<String>,
    items: Vec<CalendarAgendaItem>,
    account_errors: Vec<CalendarAccountError>,
) -> (r: CalendarMenuSnapshot)
    ensures
        r.account_ids@ == account_ids@,
        r.events@ == if items@.len() > MAX_AGENDA_ITEMS {
            agenda_order(items@).take(MAX_AGENDA_ITEMS as int)
        } else {
            agenda_order(items@)
        },
        r.account_errors@ == account_errors@,
        r.stale == (account_errors@.len() > 0),
        r.status@ == agenda_status(r.events@.len(), account_ids@.len(), account_errors@.len()),
{
    let events = sort_agenda(items);
    let status = calendar_status(events.len(), account_ids.len(), account_errors.len());
    let stale = account_errors.len() > 0;
    CalendarMenuSnapshot { account_ids, events, account_errors, stale, status }
}

} // verus!
