//! The runtime metrics of the bar as the metrics command prints them, one
//! `name=value` line per counter.

use vstd::prelude::*;
use crate::names::views;
use crate::text::{decimal, push_decimal, push_str, string_of};

verus! {

/// The counters the bar's runtime keeps.
#[derive(Debug, Clone, Copy, PartialEq, Eq, Structural)]
pub struct RuntimeMetricsSnapshot {
    pub active_tasks: usize,
    pub tasks_started: u64,
    pub tasks_completed: u64,
    pub tasks_cancelled: u64,
    pub tasks_panicked: u64,
    pub actions_started: u64,
    pub actions_completed: u64,
    pub actions_failed: u64,
    pub action_timeouts: u64,
    pub action_duration_ms_total: u64,
    pub action_duration_ms_max: u64,
    pub truncated_outputs: u64,
    pub truncated_bytes: u64,
    pub provider_refreshes_started: u64,
    pub provider_refreshes_completed: u64,
    pub provider_refreshes_coalesced: u64,
    pub provider_refreshes_saturated: u64,
    pub updates_coalesced: u64,
    pub updates_dropped: u64,
}

/// One printed counter.
pub open spec fn metric_line(name: Seq<char>, value: nat) -> Seq<char> {
    name + "="@ + decimal(value)
}

/// The printed counters, in this order.
pub open spec fn metric_lines(m: RuntimeMetricsSnapshot) -> Seq<Seq<char>> {
    seq![
        metric_line("active_tasks"@, m.active_tasks as nat),
        metric_line("tasks_started"@, m.tasks_started as nat),
        metric_line("tasks_completed"@, m.tasks_completed as nat),
        metric_line("tasks_cancelled"@, m.tasks_cancelled as nat),
        metric_line("tasks_panicked"@, m.tasks_panicked as nat),
        metric_line("actions_started"@, m.actions_started as nat),
        metric_line("actions_completed"@, m.actions_completed as nat),
        metric_line("actions_failed"@, m.actions_failed as nat),
        metric_line("action_timeouts"@, m.action_timeouts as nat),
        metric_line("action_duration_ms_total"@, m.action_duration_ms_total as nat),
        metric_line("action_duration_ms_max"@, m.action_duration_ms_max as nat),
        metric_line("truncated_outputs"@, m.truncated_outputs as nat),
        metric_line("truncated_bytes"@, m.truncated_bytes as nat),
        metric_line("provider_refreshes_started"@, m.provider_refreshes_started as nat),
        metric_line("provider_refreshes_completed"@, m.provider_refreshes_completed as nat),
        metric_line("provider_refreshes_coalesced"@, m.provider_refreshes_coalesced as nat),
        metric_line("provider_refreshes_saturated"@, m.provider_refreshes_saturated as nat),
        metric_line("updates_coalesced"@, m.updates_coalesced as nat),
        metric_line("updates_dropped"@, m.updates_dropped as nat),
    ]
}

fn push_metric(out: &mut Vec<String>, name: &str, value: u64)
    ensures
        views(final(out)@) == views(old(out)@).push(metric_line(name@, value as nat)),
{
    let mut v: Vec<char> = Vec::new();
    push_str(&mut v, name);
    push_str(&mut v, "=");
    push_decimal(&mut v, value as u128);
    let ghost before = views(out@);
    out.push(string_of(&v));
    assert(views(out@) =~= before.push(metric_line(name@, value as nat)));
}

/// The lines the metrics command prints, one `name=value` per counter.
pub fn runtime_metric_lines(m: &RuntimeMetricsSnapshot) -> (r: Vec<String>)
    ensures
        views(r@) == metric_lines(*m),
{
    let mut out: Vec<String> = Vec::new();
    push_metric(&mut out, "active_tasks", m.active_tasks as u64);
    push_metric(&mut out, "tasks_started", m.tasks_started);
    push_metric(&mut out, "tasks_completed", m.tasks_completed);
    push_metric(&mut out, "tasks_cancelled", m.tasks_cancelled);
    push_metric(&mut out, "tasks_panicked", m.tasks_panicked);
    push_metric(&mut out, "actions_started", m.actions_started);
    push_metric(&mut out, "actions_completed", m.actions_completed);
    push_metric(&mut out, "actions_failed", m.actions_failed);
    push_metric(&mut out, "action_timeouts", m.action_timeouts);
    push_metric(&mut out, "action_duration_ms_total", m.action_duration_ms_total);
    push_metric(&mut out, "action_duration_ms_max", m.action_duration_ms_max);
    push_metric(&mut out, "truncated_outputs", m.truncated_outputs);
    push_metric(&mut out, "truncated_bytes", m.truncated_bytes);
    push_metric(&mut out, "provider_refreshes_started", m.provider_refreshes_started);
    push_metric(&mut out, "provider_refreshes_completed", m.provider_refreshes_completed);
    push_metric(&mut out, "provider_refreshes_coalesced", m.provider_refreshes_coalesced);
    push_metric(&mut out, "provider_refreshes_saturated", m.provider_refreshes_saturated);
    push_metric(&mut out, "updates_coalesced", m.updates_coalesced);
    push_metric(&mut out, "updates_dropped", m.updates_dropped);
    assert(views(out@) =~= metric_lines(*m));
    out
}

} // verus!
