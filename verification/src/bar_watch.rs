//! Decisions of the headless bar's watch mode: what each tick reports of a
//! configuration reload, when the loop stops, and how long it sleeps.

use vstd::prelude::*;
use crate::text::{decimal, push_decimal, push_str, string_of};

verus! {

/// What checking the configuration file for changes did.
#[derive(Debug, Clone, Copy, PartialEq, Eq, Structural)]
pub enum BarReloadStatus {
    Reloaded,
    Failed,
    Unchanged,
}

/// The line a tick prints about the reload, if any: a reload is reported,
/// a failed one with the recorded error (or an unknown one), an error of
/// the check itself with that error, and an unchanged file not at all.
pub open spec fn reload_line(outcome: Result<BarReloadStatus, Seq<char>>, last_error: Option<Seq<char>>) -> Option<Seq<char>> {
    match outcome {
        Ok(BarReloadStatus::Reloaded) => Some("reload: reloaded"@),
        Ok(BarReloadStatus::Failed) => Some("reload: failed: "@ + match last_error {
            Some(e) => e,
            None => "unknown reload error"@,
        }),
        Ok(BarReloadStatus::Unchanged) => None,
        Err(e) => Some("reload: failed: "@ + e),
    }
}

/// The line a tick prints about the reload, if any.
pub fn reload_report(outcome: Result<BarReloadStatus, String>, last_error: Option<&str>) -> (r: Option<String>)
    ensures
        match r {
            Some(l) => reload_line(
                match outcome { Ok(s) => Ok(s), Err(e) => Err(e@) },
                match last_error { Some(e) => Some(e@), None => None },
            ) == Some(l@),
            None => reload_line(
                match outcome { Ok(s) => Ok(s), Err(e) => Err(e@) },
                match last_error { Some(e) => Some(e@), None => None },
            ) is None,
        },
{
    let mut v: Vec<char> = Vec::new();
    match outcome {
        Ok(BarReloadStatus::Reloaded) => {
            push_str(&mut v, "reload: reloaded");
        },
        Ok(BarReloadStatus::Failed) => {
            push_str(&mut v, "reload: failed: ");
            match last_error {
                Some(e) => push_str(&mut v, e),
                None => push_str(&mut v, "unknown reload error"),
            }
        },
        Ok(BarReloadStatus::Unchanged) => {
            return None;
        },
        Err(e) => {
            push_str(&mut v, "reload: failed: ");
            push_str(&mut v, e.as_str());
        },
    }
    Some(string_of(&v))
}

/// The header line of a tick.
pub fn tick_line(tick: u64) -> (r: String)
    ensures
        r@ == "tick "@ + decimal(tick as nat),
{
    let mut v: Vec<char> = Vec::new();
    push_str(&mut v, "tick ");
    push_decimal(&mut v, tick as u128);
    string_of(&v)
}

/// Whether the loop stops after this tick: only when a tick limit is given
/// and reached.
pub fn watch_should_stop(tick: u64, ticks: Option<u64>) -> (r: bool)
    ensures
        r == match ticks {
            Some(limit) => tick >= limit,
            None => false,
        },
{
    match ticks {
        Some(limit) => tick >= limit,
        None => false,
    }
}

/// How long the loop sleeps before the next tick: until the scheduler's
/// next due module when it names one, but never longer than the tick
/// interval.
pub fn watch_sleep(next_due: Option<u128>, interval: u128) -> (r: u128)
    ensures
        r == match next_due {
            Some(d) => if d < interval { d } else { interval },
            None => interval,
        },
        r <= interval,
{
    match next_due {
        Some(d) => if d < interval { d } else { interval },
        None => interval,
    }
}

} // verus!
