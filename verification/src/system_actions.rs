//! The actions of the bar's system menu: what each one changes in the
//! menu's runtime state (busy action, status line, action awaiting
//! confirmation) and what it asks the bar to do.

use vstd::prelude::*;
use crate::action_runner::ActionOutcome;
use crate::hotkeys::{CommandType, KeyBinding};
use crate::system_menu::{
    first_extra, pending_action, pending_system_action, pending_view, system_command, system_command_for,
    PendingSystemAction, SystemCommands,
};
use crate::text::{decimal, owned, push_decimal, push_str, str_eq, string_of, trim, trimmed};

verus! {

/// The runtime state of the system menu.
#[derive(Debug, Clone, PartialEq, Eq)]
pub struct SystemMenuRuntime {
    /// The action running now, shown as busy.
    pub busy_action: Option<String>,
    /// The last status line.
    pub last_status: Option<String>,
    /// The action waiting for confirmation.
    pub pending_confirmation: Option<PendingSystemAction>,
}

/// An action of the system menu.
#[derive(Debug, Clone, PartialEq, Eq)]
pub enum SystemInternalAction {
    OpenWifi,
    RefreshWifi,
    ToggleWifi,
    RefreshDisplays,
    ApplyDisplayPreset(String),
    RefreshStats,
    RunConfigured(String),
    Shortcut(usize),
    Extra(String),
    Confirm(String),
    ConfirmExecute,
    ConfirmCancel,
}

/// What the bar does after a system menu action.
#[derive(Debug, Clone, PartialEq, Eq)]
pub enum SystemEffect {
    Nothing,
    /// Show the Wi-Fi view, loading, and read the network state (scanning
    /// when `force_scan` holds).
    OpenNetworkView { force_scan: bool },
    /// Switch the Wi-Fi radio on or off.
    SetWifi { enabled: bool },
    /// Read the display state again.
    RefreshDisplays,
    /// Read the system statistics again.
    RefreshStats,
    /// Run a shell command for the action, within the timeout.
    RunShell { action_id: String, title: String, command: String, timeout_ms: u64 },
    /// Run a managed menu action of a shortcut.
    RunMenuAction { name: String, command: String },
    /// Hand a shortcut's command to the tray.
    TrayAction(String),
    /// Hand a shortcut's command to the bar.
    BarAction(String),
}

/// How the open system menu is rebuilt afterwards.
#[derive(Debug, Clone, PartialEq, Eq)]
pub enum MenuRebuild {
    Keep,
    /// Rebuild it if it is open.
    IfOpen,
    /// Rebuild it at this submenu path.
    Path(Vec<String>),
}

/// The effect and rebuild of a system menu action.
#[derive(Debug, Clone, PartialEq, Eq)]
pub struct SystemStep {
    pub effect: SystemEffect,
    pub rebuild: MenuRebuild,
}

/// Abstract value of the runtime state.
pub struct RuntimeView {
    pub busy: Option<Seq<char>>,
    pub status: Option<Seq<char>>,
    pub pending: Option<(Seq<char>, Seq<char>, Seq<char>, Seq<char>)>,
}

/// Abstract value of an effect.
pub enum EffectView {
    Nothing,
    OpenNetworkView { force_scan: bool },
    SetWifi { enabled: bool },
    RefreshDisplays,
    RefreshStats,
    RunShell { action_id: Seq<char>, title: Seq<char>, command: Seq<char>, timeout_ms: u64 },
    RunMenuAction { name: Seq<char>, command: Seq<char> },
    TrayAction(Seq<char>),
    BarAction(Seq<char>),
}

/// Abstract value of a rebuild.
pub enum RebuildView {
    Keep,
    IfOpen,
    Path(Seq<Seq<char>>),
}

pub open spec fn text(o: Option<String>) -> Option<Seq<char>> {
    match o {
        Some(s) => Some(s@),
        None => None,
    }
}

pub open spec fn runtime_view(r: SystemMenuRuntime) -> RuntimeView {
    RuntimeView {
        busy: text(r.busy_action),
        status: text(r.last_status),
        pending: match r.pending_confirmation {
            Some(p) => Some(pending_view(p)),
            None => None,
        },
    }
}

pub open spec fn effect_view(e: SystemEffect) -> EffectView {
    match e {
        SystemEffect::Nothing => EffectView::Nothing,
        SystemEffect::OpenNetworkView { force_scan } => EffectView::OpenNetworkView { force_scan },
        SystemEffect::SetWifi { enabled } => EffectView::SetWifi { enabled },
        SystemEffect::RefreshDisplays => EffectView::RefreshDisplays,
        SystemEffect::RefreshStats => EffectView::RefreshStats,
        SystemEffect::RunShell { action_id, title, command, timeout_ms } => EffectView::RunShell {
            action_id: action_id@,
            title: title@,
            command: command@,
            timeout_ms,
        },
        SystemEffect::RunMenuAction { name, command } => EffectView::RunMenuAction { name: name@, command: command@ },
        SystemEffect::TrayAction(c) => EffectView::TrayAction(c@),
        SystemEffect::BarAction(c) => EffectView::BarAction(c@),
    }
}

pub open spec fn rebuild_view(r: MenuRebuild) -> RebuildView {
    match r {
        MenuRebuild::Keep => RebuildView::Keep,
        MenuRebuild::IfOpen => RebuildView::IfOpen,
        MenuRebuild::Path(p) => RebuildView::Path(p@.map_values(|s: String| s@)),
    }
}

/// Running a shell command for an action: a blank command only reports
/// that nothing is configured; otherwise the action shows as busy, the
/// status clears, and the command runs with the configured timeout (at
/// least 100 ms).
pub open spec fn shell_step(
    r: RuntimeView,
    action_id: Seq<char>,
    title: Seq<char>,
    command: Seq<char>,
    timeout_ms: u64,
) -> (RuntimeView, EffectView, RebuildView) {
    if trim(command).len() == 0 {
        (RuntimeView { status: Some(title + ": no command configured"@), ..r }, EffectView::Nothing, RebuildView::IfOpen)
    } else {
        (
            RuntimeView { busy: Some(title), status: None, ..r },
            EffectView::RunShell {
                action_id: action_id,
                title: title,
                command: command,
                timeout_ms: if timeout_ms < 100 { 100 } else { timeout_ms },
            },
            RebuildView::IfOpen,
        )
    }
}

/// A status line and a rebuild of the open menu, with nothing else done.
pub open spec fn status_step(r: RuntimeView, status: Seq<char>) -> (RuntimeView, EffectView, RebuildView) {
    (RuntimeView { status: Some(status), ..r }, EffectView::Nothing, RebuildView::IfOpen)
}

/// The first display preset with this key: its title and command.
pub open spec fn preset_for(presets: Seq<(String, String, String)>, key: Seq<char>) -> Option<(Seq<char>, Seq<char>)>
    decreases presets.len(),
{
    if presets.len() == 0 {
        None
    } else if presets[0].0@ == key {
        Some((presets[0].1@, presets[0].2@))
    } else {
        preset_for(presets.drop_first(), key)
    }
}

/// What a shortcut of the configuration does from the system menu: a shell
/// command runs (titled by the binding's name), a menu action is handed to
/// the menu manager, tray and bar commands go to the tray and the bar, and a
/// widget action is not available; an index past the shortcuts is reported.
pub open spec fn shortcut_step(
    r: RuntimeView,
    keybindings: Seq<KeyBinding>,
    index: usize,
    timeout_ms: u64,
) -> (RuntimeView, EffectView, RebuildView) {
    if index >= keybindings.len() {
        status_step(r, "Shortcut index "@ + decimal(index as nat) + " no longer exists"@)
    } else {
        let b = keybindings[index as int];
        match b.command_type {
            CommandType::Shell => shell_step(r, b.name@, b.name@, b.command@, timeout_ms),
            CommandType::Menu => (r, EffectView::RunMenuAction { name: b.name@, command: b.command@ }, RebuildView::Keep),
            CommandType::Tray => (r, EffectView::TrayAction(b.command@), RebuildView::Keep),
            CommandType::Bar => (r, EffectView::BarAction(b.command@), RebuildView::Keep),
            CommandType::Widget => status_step(r, b.name@ + ": widget actions are not available"@),
        }
    }
}

/// Abstract value of an action.
pub enum ActionView {
    OpenWifi,
    RefreshWifi,
    ToggleWifi,
    RefreshDisplays,
    ApplyDisplayPreset(Seq<char>),
    RefreshStats,
    RunConfigured(Seq<char>),
    Shortcut(usize),
    Extra(Seq<char>),
    Confirm(Seq<char>),
    ConfirmExecute,
    ConfirmCancel,
}

pub open spec fn action_view(a: SystemInternalAction) -> ActionView {
    match a {
        SystemInternalAction::OpenWifi => ActionView::OpenWifi,
        SystemInternalAction::RefreshWifi => ActionView::RefreshWifi,
        SystemInternalAction::ToggleWifi => ActionView::ToggleWifi,
        SystemInternalAction::RefreshDisplays => ActionView::RefreshDisplays,
        SystemInternalAction::ApplyDisplayPreset(k) => ActionView::ApplyDisplayPreset(k@),
        SystemInternalAction::RefreshStats => ActionView::RefreshStats,
        SystemInternalAction::RunConfigured(id) => ActionView::RunConfigured(id@),
        SystemInternalAction::Shortcut(i) => ActionView::Shortcut(i),
        SystemInternalAction::Extra(id) => ActionView::Extra(id@),
        SystemInternalAction::Confirm(id) => ActionView::Confirm(id@),
        SystemInternalAction::ConfirmExecute => ActionView::ConfirmExecute,
        SystemInternalAction::ConfirmCancel => ActionView::ConfirmCancel,
    }
}

/// What a system menu action changes and asks for; `wifi_enabled` is the
/// radio's current state, `presets` the display presets (key, title,
/// command), `keybindings` the configured shortcuts and `timeout_ms` the
/// configured command timeout.
pub open spec fn system_step(
    r: RuntimeView,
    action: ActionView,
    commands: SystemCommands,
    presets: Seq<(String, String, String)>,
    keybindings: Seq<KeyBinding>,
    wifi_enabled: bool,
    timeout_ms: u64,
) -> (RuntimeView, EffectView, RebuildView) {
    match action {
        ActionView::OpenWifi => (r, EffectView::OpenNetworkView { force_scan: false }, RebuildView::Keep),
        ActionView::RefreshWifi => (r, EffectView::OpenNetworkView { force_scan: true }, RebuildView::Keep),
        ActionView::ToggleWifi => (
            RuntimeView {
                busy: Some(if wifi_enabled { "Disable Wi-Fi"@ } else { "Enable Wi-Fi"@ }),
                ..r
            },
            EffectView::SetWifi { enabled: !wifi_enabled },
            RebuildView::Keep,
        ),
        ActionView::RefreshDisplays => (
            RuntimeView { status: Some("Display state refreshed"@), ..r },
            EffectView::RefreshDisplays,
            RebuildView::IfOpen,
        ),
        ActionView::ApplyDisplayPreset(key) => match preset_for(presets, key) {
            Some((title, command)) => shell_step(r, "display-preset:"@ + key, title, command, timeout_ms),
            None => status_step(r, "Unknown display preset: "@ + key),
        },
        ActionView::RefreshStats => (
            RuntimeView { status: Some("System statistics refreshed"@), ..r },
            EffectView::RefreshStats,
            RebuildView::IfOpen,
        ),
        ActionView::RunConfigured(id) => match system_command(commands, id) {
            Some((title, command)) => shell_step(r, id, title, command, timeout_ms),
            None => status_step(r, "No command configured for "@ + id),
        },
        ActionView::Shortcut(index) => shortcut_step(r, keybindings, index, timeout_ms),
        ActionView::Extra(id) => match first_extra(commands.extra_items@, id) {
            Some(p) => shell_step(
                r,
                "extra:"@ + id,
                commands.extra_items@[p].title@,
                commands.extra_items@[p].command@,
                timeout_ms,
            ),
            None => status_step(r, "Unknown extra action: "@ + id),
        },
        ActionView::Confirm(id) => (
            RuntimeView { pending: pending_action(commands, id), ..r },
            EffectView::Nothing,
            RebuildView::Path(Seq::empty()),
        ),
        ActionView::ConfirmExecute => match r.pending {
            None => (r, EffectView::Nothing, RebuildView::Keep),
            Some((id, title, command, _)) => shell_step(RuntimeView { pending: None, ..r }, id, title, command, timeout_ms),
        },
        ActionView::ConfirmCancel => (
            RuntimeView { pending: None, status: Some("Action cancelled"@), ..r },
            EffectView::Nothing,
            RebuildView::Path(seq![
                match r.pending {
                    Some((_, _, _, section)) => section,
                    None => "power"@,
                },
            ]),
        ),
    }
}

fn joined(a: &str, b: &str) -> (r: String)
    ensures
        r@ == a@ + b@,
{
    let mut v: Vec<char> = Vec::new();
    push_str(&mut v, a);
    push_str(&mut v, b);
    string_of(&v)
}

fn run_shell(runtime: &mut SystemMenuRuntime, action_id: String, title: String, command: String, timeout_ms: u64) -> (r:
    SystemStep)
    ensures
        (runtime_view(*final(runtime)), effect_view(r.effect), rebuild_view(r.rebuild)) == shell_step(
            runtime_view(*old(runtime)),
            action_id@,
            title@,
            command@,
            timeout_ms,
        ),
{
    if trimmed(command.as_str()).len() == 0 {
        runtime.last_status = Some(joined(title.as_str(), ": no command configured"));
        return SystemStep { effect: SystemEffect::Nothing, rebuild: MenuRebuild::IfOpen };
    }
    runtime.busy_action = Some(owned(title.as_str()));
    runtime.last_status = None;
    let timeout: u64 = if timeout_ms < 100 { 100 } else { timeout_ms };
    SystemStep {
        effect: SystemEffect::RunShell { action_id, title, command, timeout_ms: timeout },
        rebuild: MenuRebuild::IfOpen,
    }
}

fn report(runtime: &mut SystemMenuRuntime, status: String) -> (r: SystemStep)
    ensures
        (runtime_view(*final(runtime)), effect_view(r.effect), rebuild_view(r.rebuild)) == status_step(
            runtime_view(*old(runtime)),
            status@,
        ),
{
    runtime.last_status = Some(status);
    SystemStep { effect: SystemEffect::Nothing, rebuild: MenuRebuild::IfOpen }
}

fn find_preset(presets: &Vec<(String, String, String)>, key: &str) -> (r: Option<(String, String)>)
    ensures
        match r {
            Some((t, c)) => preset_for(presets@, key@) == Some((t@, c@)),
            None => preset_for(presets@, key@) is None,
        },
{
    let mut i: usize = 0;
    assert(presets@.skip(0) =~= presets@);
    while i < presets.len()
        invariant
            i <= presets@.len(),
            preset_for(presets@, key@) == preset_for(presets@.skip(i as int), key@),
        decreases presets.len() - i,
    {
        assert(presets@.skip(i as int).drop_first() =~= presets@.skip(i + 1));
        assert(presets@.skip(i as int)[0] == presets@[i as int]);
        let p = &presets[i];
        if str_eq(p.0.as_str(), key) {
            return Some((owned(p.1.as_str()), owned(p.2.as_str())));
        }
        i = i + 1;
    }
    None
}

fn find_extra(commands: &SystemCommands, id: &str) -> (r: Option<usize>)
    ensures
        match r {
            Some(p) => first_extra(commands.extra_items@, id@) == Some(p as int) && p < commands.extra_items@.len(),
            None => first_extra(commands.extra_items@, id@) is None,
        },
{
    let items = &commands.extra_items;
    let mut i: usize = 0;
    assert(items@.skip(0) =~= items@);
    while i < items.len()
        invariant
            i <= items@.len(),
            items@ == commands.extra_items@,
            first_extra(items@, id@) == match first_extra(items@.skip(i as int), id@) {
                Some(p) => Some(p + i),
                None => None,
            },
        decreases items.len() - i,
    {
        assert(items@.skip(i as int).drop_first() =~= items@.skip(i + 1));
        assert(items@.skip(i as int)[0] == items@[i as int]);
        if str_eq(items[i].id.as_str(), id) {
            assert(first_extra(items@.skip(i as int), id@) == Some(0int));
            return Some(i);
        }
        i = i + 1;
    }
    None
}

/// What a system menu action changes in the runtime state, and what the
/// bar does next.
pub fn handle_system_internal_action(
    runtime: &mut SystemMenuRuntime,
    action: SystemInternalAction,
    commands: &SystemCommands,
    presets: &Vec<(String, String, String)>,
    keybindings: &Vec<KeyBinding>,
    wifi_enabled: bool,
    timeout_ms: u64,
) -> (r: SystemStep)
    ensures
        (runtime_view(*final(runtime)), effect_view(r.effect), rebuild_view(r.rebuild)) == system_step(
            runtime_view(*old(runtime)),
            action_view(action),
            *commands,
            presets@,
            keybindings@,
            wifi_enabled,
            timeout_ms,
        ),
{
    match action {
        SystemInternalAction::OpenWifi => SystemStep {
            effect: SystemEffect::OpenNetworkView { force_scan: false },
            rebuild: MenuRebuild::Keep,
        },
        SystemInternalAction::RefreshWifi => SystemStep {
            effect: SystemEffect::OpenNetworkView { force_scan: true },
            rebuild: MenuRebuild::Keep,
        },
        SystemInternalAction::ToggleWifi => {
            runtime.busy_action = Some(owned(if wifi_enabled { "Disable Wi-Fi" } else { "Enable Wi-Fi" }));
            SystemStep { effect: SystemEffect::SetWifi { enabled: !wifi_enabled }, rebuild: MenuRebuild::Keep }
        },
        SystemInternalAction::RefreshDisplays => {
            runtime.last_status = Some(owned("Display state refreshed"));
            SystemStep { effect: SystemEffect::RefreshDisplays, rebuild: MenuRebuild::IfOpen }
        },
        SystemInternalAction::ApplyDisplayPreset(key) => match find_preset(presets, key.as_str()) {
            Some((title, command)) => run_shell(
                runtime,
                joined("display-preset:", key.as_str()),
                title,
                command,
                timeout_ms,
            ),
            None => report(runtime, joined("Unknown display preset: ", key.as_str())),
        },
        SystemInternalAction::RefreshStats => {
            runtime.last_status = Some(owned("System statistics refreshed"));
            SystemStep { effect: SystemEffect::RefreshStats, rebuild: MenuRebuild::IfOpen }
        },
        SystemInternalAction::RunConfigured(id) => match system_command_for(commands, id.as_str()) {
            Some((title, command)) => run_shell(runtime, id, title, command, timeout_ms),
            None => report(runtime, joined("No command configured for ", id.as_str())),
        },
        SystemInternalAction::Shortcut(index) => handle_system_shortcut(runtime, keybindings, index, timeout_ms),
        SystemInternalAction::Extra(id) => match find_extra(commands, id.as_str()) {
            Some(p) => {
                let item = &commands.extra_items[p];
                run_shell(
                    runtime,
                    joined("extra:", id.as_str()),
                    owned(item.title.as_str()),
                    owned(item.command.as_str()),
                    timeout_ms,
                )
            },
            None => report(runtime, joined("Unknown extra action: ", id.as_str())),
        },
        SystemInternalAction::Confirm(id) => {
            runtime.pending_confirmation = pending_system_action(commands, id.as_str());
            let path: Vec<String> = Vec::new();
            assert(path@.map_values(|s: String| s@) =~= Seq::<Seq<char>>::empty());
            SystemStep { effect: SystemEffect::Nothing, rebuild: MenuRebuild::Path(path) }
        },
        SystemInternalAction::ConfirmExecute => {
            let pending = runtime.pending_confirmation.take();
            match pending {
                None => SystemStep { effect: SystemEffect::Nothing, rebuild: MenuRebuild::Keep },
                Some(p) => run_shell(runtime, p.id, p.title, p.command, timeout_ms),
            }
        },
        SystemInternalAction::ConfirmCancel => {
            let pending = runtime.pending_confirmation.take();
            let section = match pending {
                Some(p) => p.return_section,
                None => owned("power"),
            };
            runtime.last_status = Some(owned("Action cancelled"));
            let path = vec![section];
            assert(path@.map_values(|s: String| s@) =~= seq![path@[0]@]);
            SystemStep { effect: SystemEffect::Nothing, rebuild: MenuRebuild::Path(path) }
        },
    }
}

/// What running a configured shortcut from the system menu does.
pub fn handle_system_shortcut(
    runtime: &mut SystemMenuRuntime,
    keybindings: &Vec<KeyBinding>,
    index: usize,
    timeout_ms: u64,
) -> (r: SystemStep)
    ensures
        (runtime_view(*final(runtime)), effect_view(r.effect), rebuild_view(r.rebuild)) == shortcut_step(
            runtime_view(*old(runtime)),
            keybindings@,
            index,
            timeout_ms,
        ),
{
    if index >= keybindings.len() {
        let mut v: Vec<char> = Vec::new();
        push_str(&mut v, "Shortcut index ");
        push_decimal(&mut v, index as u128);
        push_str(&mut v, " no longer exists");
        return report(runtime, string_of(&v));
    }
    let b = &keybindings[index];
    match b.command_type {
        CommandType::Shell => run_shell(
            runtime,
            owned(b.name.as_str()),
            owned(b.name.as_str()),
            owned(b.command.as_str()),
            timeout_ms,
        ),
        CommandType::Menu => SystemStep {
            effect: SystemEffect::RunMenuAction { name: owned(b.name.as_str()), command: owned(b.command.as_str()) },
            rebuild: MenuRebuild::Keep,
        },
        CommandType::Tray => SystemStep {
            effect: SystemEffect::TrayAction(owned(b.command.as_str())),
            rebuild: MenuRebuild::Keep,
        },
        CommandType::Bar => SystemStep {
            effect: SystemEffect::BarAction(owned(b.command.as_str())),
            rebuild: MenuRebuild::Keep,
        },
        CommandType::Widget => report(runtime, joined(b.name.as_str(), ": widget actions are not available")),
    }
}

/// The status line once a shortcut's menu action finished: its outcome, or
/// that it failed and why.
pub open spec fn menu_action_status(name: Seq<char>, result: Result<String, String>) -> Seq<char> {
    match result {
        Ok(o) => name + ": "@ + o@,
        Err(e) => name + " failed: "@ + e@,
    }
}

/// Records the end of a shortcut's menu action.
pub fn menu_action_done(runtime: &mut SystemMenuRuntime, name: &str, result: Result<String, String>) -> (r: MenuRebuild)
    ensures
        runtime_view(*final(runtime)) == (RuntimeView {
            status: Some(menu_action_status(name@, result)),
            ..runtime_view(*old(runtime))
        }),
        r == MenuRebuild::IfOpen,
{
    let status = match result {
        Ok(o) => {
            let mut v: Vec<char> = Vec::new();
            push_str(&mut v, name);
            push_str(&mut v, ": ");
            push_str(&mut v, o.as_str());
            string_of(&v)
        },
        Err(e) => {
            let mut v: Vec<char> = Vec::new();
            push_str(&mut v, name);
            push_str(&mut v, " failed: ");
            push_str(&mut v, e.as_str());
            string_of(&v)
        },
    };
    runtime.last_status = Some(status);
    MenuRebuild::IfOpen
}

/// What a finished system command reports: on success its trimmed output,
/// or that it completed when there is none; on failure its trimmed standard
/// error, or the runner's error when that is blank.
pub open spec fn command_report(title: Seq<char>, result: Result<(), String>, stdout: Seq<char>, stderr: Seq<char>) -> Result<
    Seq<char>,
    Seq<char>,
> {
    match result {
        Ok(()) => Ok(if trim(stdout).len() == 0 { title + " completed"@ } else { title + ": "@ + trim(stdout) }),
        Err(e) => Err(if trim(stderr).len() == 0 { e@ } else { trim(stderr) }),
    }
}

/// What a finished system command reports.
pub fn system_command_report(title: &str, outcome: ActionOutcome<()>) -> (r: Result<String, String>)
    ensures
        match r {
            Ok(m) => command_report(title@, outcome.result, outcome.stdout@, outcome.stderr@) == Ok::<
                Seq<char>,
                Seq<char>,
            >(m@),
            Err(m) => command_report(title@, outcome.result, outcome.stdout@, outcome.stderr@) == Err::<
                Seq<char>,
                Seq<char>,
            >(m@),
        },
{
    match outcome.result {
        Ok(()) => {
            let detail = trimmed(outcome.stdout.as_str());
            let mut v: Vec<char> = Vec::new();
            push_str(&mut v, title);
            if detail.len() == 0 {
                push_str(&mut v, " completed");
            } else {
                push_str(&mut v, ": ");
                let mut d = detail;
                v.append(&mut d);
            }
            Ok(string_of(&v))
        },
        Err(error) => {
            let stderr = trimmed(outcome.stderr.as_str());
            if stderr.len() == 0 {
                Err(error)
            } else {
                Err(string_of(&stderr))
            }
        },
    }
}

/// Confirming an action and then executing it runs exactly the confirmed
/// command (when it is not blank), and leaves nothing awaiting
/// confirmation.
pub proof fn confirm_then_execute_runs_the_confirmed_action(
    r: RuntimeView,
    id: Seq<char>,
    commands: SystemCommands,
    presets: Seq<(String, String, String)>,
    keybindings: Seq<KeyBinding>,
    wifi_enabled: bool,
    timeout_ms: u64,
)
    requires
        pending_action(commands, id) is Some,
        trim(pending_action(commands, id).unwrap().2).len() > 0,
    ensures
        ({
            let (r1, _, _) = system_step(r, ActionView::Confirm(id), commands, presets, keybindings, wifi_enabled, timeout_ms);
            let (r2, e2, _) = system_step(r1, ActionView::ConfirmExecute, commands, presets, keybindings, wifi_enabled, timeout_ms);
            let (pid, title, command, _) = pending_action(commands, id).unwrap();
            &&& e2 == EffectView::RunShell {
                action_id: pid,
                title: title,
                command: command,
                timeout_ms: if timeout_ms < 100 { 100 } else { timeout_ms },
            }
            &&& r2.pending is None
            &&& r2.busy == Some(title)
        }),
{
}

/// Cancelling a confirmed action goes back to the section it came from and
/// leaves nothing awaiting confirmation.
pub proof fn confirm_then_cancel_returns_to_its_section(
    r: RuntimeView,
    id: Seq<char>,
    commands: SystemCommands,
    presets: Seq<(String, String, String)>,
    keybindings: Seq<KeyBinding>,
    wifi_enabled: bool,
    timeout_ms: u64,
)
    requires
        pending_action(commands, id) is Some,
    ensures
        ({
            let (r1, _, _) = system_step(r, ActionView::Confirm(id), commands, presets, keybindings, wifi_enabled, timeout_ms);
            let (r2, e2, b2) = system_step(r1, ActionView::ConfirmCancel, commands, presets, keybindings, wifi_enabled, timeout_ms);
            &&& b2 == RebuildView::Path(seq![pending_action(commands, id).unwrap().3])
            &&& e2 == EffectView::Nothing
            &&& r2.pending is None
        }),
{
}

} // verus!
