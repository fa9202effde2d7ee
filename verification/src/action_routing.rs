//! Routing of typed desktop actions between the action bus and the bar.

use vstd::prelude::*;
use crate::key_dry_run::{find_first, first_pos, slice};
use crate::hotkey_status::{RequestRead, MAX_CONTROL_REQUEST_BYTES};
use crate::text::{ascii_lower, chars_of, chars_eq, lower_chars, owned, str_eq, string_of, trim, trim_chars};

verus! {

/// A typed action sent to the desktop.
#[derive(Debug, Clone, PartialEq, Eq)]
pub enum DesktopAction {
    Bar(String),
    Tray(String),
    Widget(String),
    Shell(String),
    Menu(String),
}

/// An action that the bar queues for its update loop.
#[derive(Debug, Clone, PartialEq, Eq)]
pub enum KeybindingResult {
    BarAction(String),
    TrayAction(String),
    WidgetAction(String),
}

/// What the action bus does with a request.
#[derive(Debug, Clone, PartialEq, Eq)]
pub enum ActionBusRoute {
    /// Queue the action for the bar.
    Queue(KeybindingResult),
    /// Answer at once with the live runtime metrics.
    RespondWithMetrics,
}

pub const HOTKEYD_OWNED_ERROR: &'static str = "shell and managed-menu actions are executed by hotkeyd, not the bar";

/// How the bar takes a desktop action: bar, tray and widget actions become
/// the matching queued action with the same command; shell and menu
/// actions belong to the hotkey daemon and are refused.
pub open spec fn routed(action: DesktopAction) -> Result<KeybindingResult, Seq<char>> {
    match action {
        DesktopAction::Bar(c) => Ok(KeybindingResult::BarAction(c)),
        DesktopAction::Tray(c) => Ok(KeybindingResult::TrayAction(c)),
        DesktopAction::Widget(c) => Ok(KeybindingResult::WidgetAction(c)),
        _ => Err(HOTKEYD_OWNED_ERROR@),
    }
}

/// How the bar takes a desktop action.
pub fn route_desktop_action(action: DesktopAction) -> (r: Result<KeybindingResult, String>)
    ensures
        match r {
            Ok(k) => routed(action) == Ok::<KeybindingResult, Seq<char>>(k),
            Err(e) => routed(action) == Err::<KeybindingResult, Seq<char>>(e@),
        },
{
    match action {
        DesktopAction::Bar(command) => Ok(KeybindingResult::BarAction(command)),
        DesktopAction::Tray(command) => Ok(KeybindingResult::TrayAction(command)),
        DesktopAction::Widget(command) => Ok(KeybindingResult::WidgetAction(command)),
        DesktopAction::Shell(_) | DesktopAction::Menu(_) => Err(owned(HOTKEYD_OWNED_ERROR)),
    }
}

/// Whether the action asks for the live runtime metrics.
pub open spec fn asks_for_metrics(action: DesktopAction) -> bool {
    action matches DesktopAction::Bar(c) && (c@ == "runtime-metrics"@ || c@ == "diagnostics:runtime-metrics"@)
}

/// What the action bus does with a request: a request for the runtime
/// metrics is answered at once; any other is routed to the bar.
pub fn route_action_bus_request(action: DesktopAction) -> (r: Result<ActionBusRoute, String>)
    ensures
        asks_for_metrics(action) ==> r == Ok::<ActionBusRoute, String>(ActionBusRoute::RespondWithMetrics),
        !asks_for_metrics(action) ==> match r {
            Ok(ActionBusRoute::Queue(k)) => routed(action) == Ok::<KeybindingResult, Seq<char>>(k),
            Ok(ActionBusRoute::RespondWithMetrics) => false,
            Err(e) => routed(action) == Err::<KeybindingResult, Seq<char>>(e@),
        },
{
    let metrics = match &action {
        DesktopAction::Bar(command) => str_eq(command.as_str(), "runtime-metrics") || str_eq(
            command.as_str(),
            "diagnostics:runtime-metrics",
        ),
        _ => false,
    };
    if metrics {
        return Ok(ActionBusRoute::RespondWithMetrics);
    }
    match route_desktop_action(action) {
        Ok(k) => Ok(ActionBusRoute::Queue(k)),
        Err(e) => Err(e),
    }
}

// == Widget actions ==

/// Where a widget action of the form `<widget>:<action>` goes.
#[derive(Debug, Clone, PartialEq, Eq)]
pub enum WidgetRoute {
    Wifi(String),
    Audio(String),
    Video(String),
    Power(String),
    /// Refresh the system monitor's statistics.
    RefreshSystemMonitor,
    /// No widget of this name takes the action.
    UnknownTarget(String),
    /// The command has no `:`.
    Malformed,
}

/// Abstract value of a widget route.
pub enum WidgetPlan {
    Wifi(Seq<char>),
    Audio(Seq<char>),
    Video(Seq<char>),
    Power(Seq<char>),
    RefreshSystemMonitor,
    UnknownTarget(Seq<char>),
    Malformed,
}

/// The abstract value of a widget route.
pub open spec fn widget_plan(r: WidgetRoute) -> WidgetPlan {
    match r {
        WidgetRoute::Wifi(a) => WidgetPlan::Wifi(a@),
        WidgetRoute::Audio(a) => WidgetPlan::Audio(a@),
        WidgetRoute::Video(a) => WidgetPlan::Video(a@),
        WidgetRoute::Power(a) => WidgetPlan::Power(a@),
        WidgetRoute::RefreshSystemMonitor => WidgetPlan::RefreshSystemMonitor,
        WidgetRoute::UnknownTarget(t) => WidgetPlan::UnknownTarget(t@),
        WidgetRoute::Malformed => WidgetPlan::Malformed,
    }
}

/// Where a widget action goes: the widget named before the first `:`
/// (trimmed, ASCII case ignored) gets the text after it; `video` and
/// `display` name the same widget; the system monitor (`sysmonitor` or
/// `system`) only takes `refresh`.
pub open spec fn widget_route(command: Seq<char>) -> WidgetPlan {
    match first_pos(command, ':') {
        None => WidgetPlan::Malformed,
        Some(q) => {
            let target = ascii_lower(trim(command.take(q)));
            let action = command.skip(q + 1);
            if target == "wifi"@ {
                WidgetPlan::Wifi(action)
            } else if target == "audio"@ {
                WidgetPlan::Audio(action)
            } else if target == "video"@ || target == "display"@ {
                WidgetPlan::Video(action)
            } else if target == "power"@ {
                WidgetPlan::Power(action)
            } else if (target == "sysmonitor"@ || target == "system"@) && action == "refresh"@ {
                WidgetPlan::RefreshSystemMonitor
            } else {
                WidgetPlan::UnknownTarget(target)
            }
        },
    }
}

fn is_text(v: &Vec<char>, t: &str) -> (r: bool)
    ensures
        r == (v@ == t@),
{
    let w = crate::text::chars_of(t);
    chars_eq(v, &w)
}

/// Where a widget action goes.
pub fn route_widget_action(command: &str) -> (r: WidgetRoute)
    ensures
        widget_plan(r) == widget_route(command@),
{
    let cs = crate::text::chars_of(command);
    let q = match find_first(&cs, ':') {
        Some(q) => q,
        None => {
            return WidgetRoute::Malformed;
        },
    };
    assert(q < cs.len());
    let head = slice(&cs, 0, q);
    let action = slice(&cs, q + 1, cs.len());
    assert(head@ =~= command@.take(q as int));
    assert(action@ =~= command@.skip(q + 1));
    let target = lower_chars(&trim_chars(&head));
    if is_text(&target, "wifi") {
        WidgetRoute::Wifi(string_of(&action))
    } else if is_text(&target, "audio") {
        WidgetRoute::Audio(string_of(&action))
    } else if is_text(&target, "video") || is_text(&target, "display") {
        WidgetRoute::Video(string_of(&action))
    } else if is_text(&target, "power") {
        WidgetRoute::Power(string_of(&action))
    } else if (is_text(&target, "sysmonitor") || is_text(&target, "system")) && is_text(&action, "refresh") {
        WidgetRoute::RefreshSystemMonitor
    } else {
        WidgetRoute::UnknownTarget(string_of(&target))
    }
}

/// The request text a read of the action bus gives, or why it gives none:
/// a timeout, a read error, an empty read and a line over 64 KiB are
/// refused; otherwise the line without surrounding whitespace is the
/// request.
pub open spec fn action_request_text(read: RequestRead) -> Result<Seq<char>, Seq<char>> {
    match read {
        RequestRead::TimedOut => Err("timed out reading action request"@),
        RequestRead::Failed(e) => Err("read failed: "@ + e@),
        RequestRead::Read { bytes, line } => if bytes == 0 {
            Err("empty action request"@)
        } else if bytes > MAX_CONTROL_REQUEST_BYTES {
            Err("action request exceeds 64 KiB"@)
        } else {
            Ok(trim(line@))
        },
    }
}

/// The request text a read of the action bus gives, or why it gives none.
pub fn read_action_request(read: RequestRead) -> (r: Result<String, String>)
    ensures
        match r {
            Ok(t) => action_request_text(read) == Ok::<Seq<char>, Seq<char>>(t@),
            Err(e) => action_request_text(read) == Err::<Seq<char>, Seq<char>>(e@),
        },
{
    match read {
        RequestRead::TimedOut => Err(owned("timed out reading action request")),
        RequestRead::Failed(e) => {
            let mut v: Vec<char> = chars_of("read failed: ");
            let mut tail = chars_of(e.as_str());
            v.append(&mut tail);
            Err(string_of(&v))
        },
        RequestRead::Read { bytes, line } => {
            if bytes == 0 {
                Err(owned("empty action request"))
            } else if bytes > MAX_CONTROL_REQUEST_BYTES {
                Err(owned("action request exceeds 64 KiB"))
            } else {
                let t = crate::text::trimmed(line.as_str());
                Ok(string_of(&t))
            }
        },
    }
}

} // verus!
