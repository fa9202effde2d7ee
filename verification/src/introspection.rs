//! Records that the command line prints about the running bar: provider
//! refresh policies, active modules, actions and hotkeys.

use vstd::prelude::*;
use std::time::Duration;
use crate::hotkeys::{trigger_for_report, trigger_name, CommandType, KeyBinding};
use crate::stable_sort::{lemma_stable_by_key_map, sort_by_key_stable, sorted_by_key, stable_by_key};
use crate::system_menu::SystemExtraItem;
use crate::text::{chars_of, decimal, owned, push_decimal, push_str, str_eq, string_of, trim, trimmed};

verus! {

/// Refresh policy of a data provider, as printed.
#[derive(Debug, Clone, PartialEq, Eq)]
pub struct ProviderPolicyInfo {
    pub id: String,
    pub display_name: String,
    pub interval_ms: u128,
    pub timeout_ms: u128,
    pub stale_after_ms: u128,
    pub refresh_on_start: bool,
    pub shutdown_timeout_ms: u128,
    pub test_backend: String,
}

/// A module of the bar with the policy of the provider behind it.
#[derive(Debug, Clone, PartialEq, Eq)]
pub struct ModuleInfo {
    pub id: String,
    pub enabled: bool,
    pub position: String,
    pub configured_interval_ms: Option<u64>,
    pub provider: Option<ProviderPolicyInfo>,
}

/// An action that the bar can be asked to run.
#[derive(Debug, Clone, PartialEq, Eq)]
pub struct ActionInfo {
    pub id: String,
    pub title: String,
    pub kind: String,
    pub payload: String,
    pub source: String,
    pub enabled: bool,
}

/// A configured hotkey.
#[derive(Debug, Clone, PartialEq, Eq)]
pub struct HotkeyInfo {
    pub index: usize,
    pub name: String,
    pub keysym: String,
    pub trigger: String,
    pub kind: String,
    pub command: String,
    pub enabled: bool,
}

/// How often a provider refreshes, how long a refresh may take, when its
/// data goes stale and whether it refreshes at start.
#[derive(Debug, Clone, PartialEq, Eq)]
pub struct RefreshPolicy {
    pub interval: Duration,
    pub timeout: Duration,
    pub stale_after: Duration,
    pub refresh_on_start: bool,
}

/// How long a provider may take to shut down.
#[derive(Debug, Clone, PartialEq, Eq)]
pub struct ShutdownPolicy {
    pub graceful_timeout: Duration,
}

/// The declared contract of a data provider.
#[derive(Debug, Clone, PartialEq, Eq)]
pub struct ProviderContract {
    pub id: String,
    pub display_name: String,
    pub refresh: RefreshPolicy,
    pub shutdown: ShutdownPolicy,
    pub test_backend: String,
}

/// The whole milliseconds of a duration.
pub uninterp spec fn whole_millis(d: Duration) -> u128;

/// Trusted: calls `Duration::as_millis`; the claim is that the result is
/// `whole_millis(*d)`.
#[verifier::external_body]
fn millis_of(d: &Duration) -> (m: u128)
    ensures
        m == whole_millis(*d),
{
    d.as_millis()
}

/// The printed policy of a provider contract: its names and its durations in
/// whole milliseconds.
pub open spec fn policy_of(c: ProviderContract) -> ProviderPolicyInfo {
    ProviderPolicyInfo {
        id: c.id,
        display_name: c.display_name,
        interval_ms: whole_millis(c.refresh.interval),
        timeout_ms: whole_millis(c.refresh.timeout),
        stale_after_ms: whole_millis(c.refresh.stale_after),
        refresh_on_start: c.refresh.refresh_on_start,
        shutdown_timeout_ms: whole_millis(c.shutdown.graceful_timeout),
        test_backend: c.test_backend,
    }
}

impl From<ProviderContract> for ProviderPolicyInfo {
    fn from(contract: ProviderContract) -> (r: Self) {
        ProviderPolicyInfo {
            interval_ms: millis_of(&contract.refresh.interval),
            timeout_ms: millis_of(&contract.refresh.timeout),
            stale_after_ms: millis_of(&contract.refresh.stale_after),
            refresh_on_start: contract.refresh.refresh_on_start,
            shutdown_timeout_ms: millis_of(&contract.shutdown.graceful_timeout),
            id: contract.id,
            display_name: contract.display_name,
            test_backend: contract.test_backend,
        }
    }
}

impl vstd::std_specs::convert::FromSpecImpl<ProviderContract> for ProviderPolicyInfo {
    open spec fn obeys_from_spec() -> bool {
        true
    }

    open spec fn from_spec(v: ProviderContract) -> Self {
        policy_of(v)
    }
}

/// An action record with the given fields.
pub fn action(id: &str, title: &str, kind: &str, payload: &str, source: &str, enabled: bool) -> (a: ActionInfo)
    ensures
        a.id@ == id@,
        a.title@ == title@,
        a.kind@ == kind@,
        a.payload@ == payload@,
        a.source@ == source@,
        a.enabled == enabled,
{
    ActionInfo {
        id: owned(id),
        title: owned(title),
        kind: owned(kind),
        payload: owned(payload),
        source: owned(source),
        enabled,
    }
}

// == Catalog ==

/// A module of the bar configuration, as the catalog reads it.
#[derive(Debug, Clone, PartialEq, Eq)]
pub struct CatalogModule {
    pub name: String,
    pub enabled: bool,
    pub position: String,
    pub update_interval_ms: Option<u64>,
}

/// A custom launcher of the configuration: its id, title and its action as
/// the configuration prints it.
#[derive(Debug, Clone, PartialEq, Eq)]
pub struct CatalogCustomItem {
    pub id: String,
    pub title: String,
    pub action_text: String,
}

/// The parts of the bar configuration that the catalog reads.
#[derive(Debug, Clone)]
pub struct CatalogConfig {
    pub modules: Vec<CatalogModule>,
    pub keybindings: Vec<KeyBinding>,
    pub system_enabled: bool,
    pub custom_enabled: bool,
    pub calendar_account_count: usize,
    pub system_extra_items: Vec<SystemExtraItem>,
    pub custom_items: Vec<CatalogCustomItem>,
}

/// The name of a command type in the catalog.
pub open spec fn command_type_name(t: CommandType) -> Seq<char> {
    match t {
        CommandType::Shell => "shell"@,
        CommandType::Menu => "menu"@,
        CommandType::Bar => "bar"@,
        CommandType::Tray => "tray"@,
        CommandType::Widget => "widget"@,
    }
}

/// The name of a command type in the catalog.
pub fn command_type_label(t: CommandType) -> (r: &'static str)
    ensures
        r@ == command_type_name(t),
{
    match t {
        CommandType::Shell => "shell",
        CommandType::Menu => "menu",
        CommandType::Bar => "bar",
        CommandType::Tray => "tray",
        CommandType::Widget => "widget",
    }
}

/// The configured hotkeys with their positions, trigger and command type
/// names; every one is enabled.
pub fn hotkeys(keybindings: &Vec<KeyBinding>) -> (r: Vec<HotkeyInfo>)
    ensures
        r@.len() == keybindings@.len(),
        forall|i: int|
            0 <= i < r@.len() ==> {
                let h = #[trigger] r@[i];
                let b = keybindings@[i];
                &&& h.index == i
                &&& h.name@ == b.name@
                &&& h.keysym@ == b.keysym@
                &&& h.trigger@ == trigger_name(b.trigger)
                &&& h.kind@ == command_type_name(b.command_type)
                &&& h.command@ == b.command@
                &&& h.enabled
            },
{
    let mut out: Vec<HotkeyInfo> = Vec::new();
    let mut i: usize = 0;
    while i < keybindings.len()
        invariant
            i <= keybindings@.len(),
            out@.len() == i,
            forall|j: int|
                0 <= j < i ==> {
                    let h = #[trigger] out@[j];
                    let b = keybindings@[j];
                    &&& h.index == j
                    &&& h.name@ == b.name@
                    &&& h.keysym@ == b.keysym@
                    &&& h.trigger@ == trigger_name(b.trigger)
                    &&& h.kind@ == command_type_name(b.command_type)
                    &&& h.command@ == b.command@
                    &&& h.enabled
                },
        decreases keybindings.len() - i,
    {
        let b = &keybindings[i];
        out.push(
            HotkeyInfo {
                index: i,
                name: owned(b.name.as_str()),
                keysym: owned(b.keysym.as_str()),
                trigger: owned(trigger_for_report(b.trigger)),
                kind: owned(command_type_label(b.command_type)),
                command: owned(b.command.as_str()),
                enabled: true,
            },
        );
        i = i + 1;
    }
    out
}

/// Where a menu's entries come from.
#[derive(Debug, Clone, Copy, PartialEq, Eq, Structural)]
pub enum MenuSource {
    Tray,
    Widget,
    Custom,
    FilterTab,
    System,
}

/// Whether a menu is usable.
#[derive(Debug, Clone, PartialEq, Eq)]
pub enum MenuLifecycle {
    Fresh,
    Disabled { reason: String },
}

/// A menu of the bar in the catalog.
#[derive(Debug, Clone, PartialEq, Eq)]
pub struct MenuCatalogEntry {
    pub id: String,
    pub title: String,
    pub source: MenuSource,
    pub lifecycle: MenuLifecycle,
}

/// The menus of the bar: id, title, source and whether enabled; a
/// disabled one is disabled by configuration.
pub open spec fn menu_list(system_enabled: bool, custom_enabled: bool, calendar_accounts: nat) -> Seq<
    (Seq<char>, Seq<char>, MenuSource, bool),
> {
    seq![
        ("tray"@, "Tray menus"@, MenuSource::Tray, true),
        ("widget-network"@, "Network widget"@, MenuSource::Widget, true),
        ("widget-audio"@, "Audio widget"@, MenuSource::Widget, true),
        ("widget-system"@, "System widget"@, MenuSource::Widget, system_enabled),
        ("custom"@, "Custom launchers"@, MenuSource::Custom, custom_enabled),
        ("filter-tab"@, "Filter tab"@, MenuSource::FilterTab, true),
        ("system"@, "System actions"@, MenuSource::System, system_enabled),
        ("mount"@, "Mounts"@, MenuSource::System, true),
        ("calendar"@, "Calendar"@, MenuSource::System, calendar_accounts > 0),
    ]
}

/// The abstract value of a catalog menu.
pub open spec fn menu_view(m: MenuCatalogEntry) -> (Seq<char>, Seq<char>, MenuSource, bool) {
    (m.id@, m.title@, m.source, m.lifecycle is Fresh)
}

pub const DISABLED_REASON: &'static str = "disabled by configuration";

fn menu(id: &str, title: &str, source: MenuSource, enabled: bool) -> (r: MenuCatalogEntry)
    ensures
        menu_view(r) == (id@, title@, source, enabled),
        r.lifecycle matches MenuLifecycle::Disabled { reason } ==> reason@ == DISABLED_REASON@,
{
    MenuCatalogEntry {
        id: owned(id),
        title: owned(title),
        source,
        lifecycle: if enabled {
            MenuLifecycle::Fresh
        } else {
            MenuLifecycle::Disabled { reason: owned(DISABLED_REASON) }
        },
    }
}

/// The menus of the bar.
pub fn menus(config: &CatalogConfig) -> (r: Vec<MenuCatalogEntry>)
    ensures
        r@.map_values(|m: MenuCatalogEntry| menu_view(m)) == menu_list(
            config.system_enabled,
            config.custom_enabled,
            config.calendar_account_count as nat,
        ),
        forall|i: int|
            0 <= i < r@.len() ==> ((#[trigger] r@[i]).lifecycle matches MenuLifecycle::Disabled { reason }
                ==> reason@ == DISABLED_REASON@),
{
    let r = vec![
        menu("tray", "Tray menus", MenuSource::Tray, true),
        menu("widget-network", "Network widget", MenuSource::Widget, true),
        menu("widget-audio", "Audio widget", MenuSource::Widget, true),
        menu("widget-system", "System widget", MenuSource::Widget, config.system_enabled),
        menu("custom", "Custom launchers", MenuSource::Custom, config.custom_enabled),
        menu("filter-tab", "Filter tab", MenuSource::FilterTab, true),
        menu("system", "System actions", MenuSource::System, config.system_enabled),
        menu("mount", "Mounts", MenuSource::System, true),
        menu("calendar", "Calendar", MenuSource::System, config.calendar_account_count > 0),
    ];
    assert(r@.map_values(|m: MenuCatalogEntry| menu_view(m)) =~= menu_list(
        config.system_enabled,
        config.custom_enabled,
        config.calendar_account_count as nat,
    ));
    r
}

/// Abstract value of an action: id, title, kind, payload, source, enabled.
pub type ActionView = (Seq<char>, Seq<char>, Seq<char>, Seq<char>, Seq<char>, bool);

/// The abstract value of an action.
pub open spec fn action_view(a: ActionInfo) -> ActionView {
    (a.id@, a.title@, a.kind@, a.payload@, a.source@, a.enabled)
}

/// The abstract values of a list of actions.
pub open spec fn action_views(s: Seq<ActionInfo>) -> Seq<ActionView> {
    s.map_values(|a: ActionInfo| action_view(a))
}

/// The fixed actions of the bar.
pub open spec fn base_actions(system_enabled: bool) -> Seq<ActionView> {
    seq![
        ("tray:show-aggregated"@, "Show all tray actions"@, "tray"@, "show-aggregated"@, "tray"@, true),
        ("tray:show-favorites"@, "Show tray favorites"@, "tray"@, "show-favorites"@, "tray"@, true),
        ("bar:open-system"@, "Open system menu"@, "bar"@, "open-system-menu"@, "system"@, system_enabled),
        ("bar:runtime-metrics"@, "Query live runtime metrics"@, "bar"@, "runtime-metrics"@, "diagnostics"@, true),
        ("widget:wifi-refresh"@, "Refresh Wi-Fi"@, "widget"@, "wifi:refresh"@, "network"@, true),
        ("widget:audio-refresh"@, "Refresh audio"@, "widget"@, "audio:refresh"@, "audio"@, true),
    ]
}

/// One action per hotkey, numbered by position from `from`.
pub open spec fn hotkey_actions(bs: Seq<KeyBinding>, from: nat) -> Seq<ActionView>
    decreases bs.len(),
{
    if bs.len() == 0 {
        Seq::empty()
    } else {
        seq![(
            "hotkey:"@ + decimal(from),
            bs[0].name@,
            command_type_name(bs[0].command_type),
            bs[0].command@,
            "hotkey"@,
            true,
        )] + hotkey_actions(bs.drop_first(), from + 1)
    }
}

/// One action per extra entry of the system menu, enabled when its command
/// is not blank.
pub open spec fn extra_actions(items: Seq<SystemExtraItem>) -> Seq<ActionView>
    decreases items.len(),
{
    if items.len() == 0 {
        Seq::empty()
    } else {
        seq![(
            "system:extra:"@ + items[0].id@,
            items[0].title@,
            "bar"@,
            "system:extra:"@ + items[0].id@,
            "system"@,
            trim(items[0].command@).len() > 0,
        )] + extra_actions(items.drop_first())
    }
}

/// One action per custom launcher.
pub open spec fn custom_actions(items: Seq<CatalogCustomItem>) -> Seq<ActionView>
    decreases items.len(),
{
    if items.len() == 0 {
        Seq::empty()
    } else {
        seq![(
            "custom:"@ + items[0].id@,
            items[0].title@,
            "menu"@,
            items[0].action_text@,
            "custom"@,
            true,
        )] + custom_actions(items.drop_first())
    }
}

/// The key that actions are ordered by.
pub open spec fn action_id(a: ActionView) -> Seq<char> {
    a.0
}

/// The actions of the bar in ascending order of id (ties keep the order of
/// the fixed actions, the hotkeys, the extra entries, the custom launchers).
pub open spec fn action_catalog(config: CatalogConfig) -> Seq<ActionView> {
    stable_by_key(
        base_actions(config.system_enabled) + hotkey_actions(config.keybindings@, 0) + extra_actions(
            config.system_extra_items@,
        ) + custom_actions(config.custom_items@),
        |a: ActionView| action_id(a),
    )
}

fn prefixed(prefix: &str, rest: &str) -> (r: String)
    ensures
        r@ == prefix@ + rest@,
{
    let mut v: Vec<char> = Vec::new();
    push_str(&mut v, prefix);
    push_str(&mut v, rest);
    string_of(&v)
}

proof fn lemma_drop_first_from<A>(s: Seq<A>, k: int)
    requires
        0 <= k < s.len(),
    ensures
        s.skip(k).drop_first() =~= s.skip(k + 1),
        s.skip(k)[0] == s[k],
{
}

/// The actions of the bar, in ascending order of id.
pub fn actions(config: &CatalogConfig) -> (r: Vec<ActionInfo>)
    ensures
        action_views(r@) == action_catalog(*config),
        sorted_by_key(r@, |a: ActionInfo| a.id@),
{
    let mut all = vec![
        action("tray:show-aggregated", "Show all tray actions", "tray", "show-aggregated", "tray", true),
        action("tray:show-favorites", "Show tray favorites", "tray", "show-favorites", "tray", true),
        action("bar:open-system", "Open system menu", "bar", "open-system-menu", "system", config.system_enabled),
        action("bar:runtime-metrics", "Query live runtime metrics", "bar", "runtime-metrics", "diagnostics", true),
        action("widget:wifi-refresh", "Refresh Wi-Fi", "widget", "wifi:refresh", "network", true),
        action("widget:audio-refresh", "Refresh audio", "widget", "audio:refresh", "audio", true),
    ];
    assert(action_views(all@) =~= base_actions(config.system_enabled));
    let ghost base = action_views(all@);
    let kbs = &config.keybindings;
    let mut i: usize = 0;
    assert(kbs@.skip(0) =~= kbs@);
    while i < kbs.len()
        invariant
            i <= kbs@.len(),
            action_views(all@) + hotkey_actions(kbs@.skip(i as int), i as nat) == base + hotkey_actions(kbs@, 0),
        decreases kbs.len() - i,
    {
        let b = &kbs[i];
        let mut id: Vec<char> = Vec::new();
        push_str(&mut id, "hotkey:");
        push_decimal(&mut id, i as u128);
        let a = action(string_of(&id).as_str(), b.name.as_str(), command_type_label(b.command_type), b.command.as_str(), "hotkey", true);
        let ghost before = action_views(all@);
        all.push(a);
        proof {
            lemma_drop_first_from(kbs@, i as int);
            assert(action_views(all@) =~= before.push(action_view(a)));
            assert(before + hotkey_actions(kbs@.skip(i as int), i as nat) =~= before.push(action_view(a))
                + hotkey_actions(kbs@.skip(i + 1), (i + 1) as nat));
        }
        i = i + 1;
    }
    assert(kbs@.skip(i as int) =~= Seq::<KeyBinding>::empty());
    assert(action_views(all@) =~= base + hotkey_actions(kbs@, 0));
    let ghost with_hotkeys = action_views(all@);
    let extras = &config.system_extra_items;
    let mut k: usize = 0;
    assert(extras@.skip(0) =~= extras@);
    while k < extras.len()
        invariant
            k <= extras@.len(),
            action_views(all@) + extra_actions(extras@.skip(k as int)) == with_hotkeys + extra_actions(extras@),
        decreases extras.len() - k,
    {
        let item = &extras[k];
        let id = prefixed("system:extra:", item.id.as_str());
        let enabled = trimmed(item.command.as_str()).len() > 0;
        let a = action(id.as_str(), item.title.as_str(), "bar", id.as_str(), "system", enabled);
        let ghost before = action_views(all@);
        all.push(a);
        proof {
            lemma_drop_first_from(extras@, k as int);
            assert(action_views(all@) =~= before.push(action_view(a)));
            assert(before + extra_actions(extras@.skip(k as int)) =~= before.push(action_view(a)) + extra_actions(
                extras@.skip(k + 1),
            ));
        }
        k = k + 1;
    }
    assert(extras@.skip(k as int) =~= Seq::<SystemExtraItem>::empty());
    assert(action_views(all@) =~= with_hotkeys + extra_actions(extras@));
    let ghost with_extras = action_views(all@);
    let customs = &config.custom_items;
    let mut c: usize = 0;
    assert(customs@.skip(0) =~= customs@);
    while c < customs.len()
        invariant
            c <= customs@.len(),
            action_views(all@) + custom_actions(customs@.skip(c as int)) == with_extras + custom_actions(customs@),
        decreases customs.len() - c,
    {
        let item = &customs[c];
        let id = prefixed("custom:", item.id.as_str());
        let a = action(id.as_str(), item.title.as_str(), "menu", item.action_text.as_str(), "custom", true);
        let ghost before = action_views(all@);
        all.push(a);
        proof {
            lemma_drop_first_from(customs@, c as int);
            assert(action_views(all@) =~= before.push(action_view(a)));
            assert(before + custom_actions(customs@.skip(c as int)) =~= before.push(action_view(a))
                + custom_actions(customs@.skip(c + 1)));
        }
        c = c + 1;
    }
    assert(customs@.skip(c as int) =~= Seq::<CatalogCustomItem>::empty());
    assert(action_views(all@) =~= with_extras + custom_actions(customs@));
    let mut keys: Vec<Vec<char>> = Vec::new();
    let mut j: usize = 0;
    while j < all.len()
        invariant
            j <= all@.len(),
            keys@.len() == j,
            forall|m: int| 0 <= m < j ==> (#[trigger] keys@[m])@ == all@[m].id@,
        decreases all.len() - j,
    {
        keys.push(chars_of(all[j].id.as_str()));
        j = j + 1;
    }
    let ghost unsorted = all@;
    let sorted = sort_by_key_stable(all, keys, Ghost(|a: ActionInfo| a.id@));
    proof {
        lemma_stable_by_key_map(
            unsorted,
            |a: ActionInfo| action_view(a),
            |a: ActionInfo| a.id@,
            |a: ActionView| action_id(a),
        );
    }
    sorted
}

/// The provider that a module shows: the first contract with the module's
/// name as id, or the network provider for the Wi-Fi module, or the system
/// provider for the system monitor.
pub open spec fn provides(c: ProviderContract, module: Seq<char>) -> bool {
    c.id@ == module || (c.id@ == "network"@ && module == "wifi"@) || (c.id@ == "system"@ && module
        == "sysmonitor"@)
}

/// The position of the first contract that provides for the module.
pub open spec fn provider_index(contracts: Seq<ProviderContract>, module: Seq<char>) -> Option<int>
    decreases contracts.len(),
{
    if contracts.len() == 0 {
        None
    } else if provides(contracts[0], module) {
        Some(0)
    } else {
        match provider_index(contracts.drop_first(), module) {
            Some(p) => Some(p + 1),
            None => None,
        }
    }
}

proof fn lemma_provider_index(contracts: Seq<ProviderContract>, module: Seq<char>, j: int)
    requires
        0 <= j <= contracts.len(),
        forall|k: int| 0 <= k < j ==> !provides(#[trigger] contracts[k], module),
    ensures
        j < contracts.len() && provides(contracts[j], module) ==> provider_index(contracts, module) == Some(j),
        j == contracts.len() ==> provider_index(contracts, module) is None,
    decreases j,
{
    if j > 0 {
        assert forall|k: int| 0 <= k < j - 1 implies !provides(#[trigger] contracts.drop_first()[k], module) by {
            assert(contracts.drop_first()[k] == contracts[k + 1]);
        }
        lemma_provider_index(contracts.drop_first(), module, j - 1);
    }
}

/// The catalog record of a module.
pub open spec fn module_info(m: CatalogModule, contracts: Seq<ProviderContract>) -> ModuleInfo {
    ModuleInfo {
        id: m.name,
        enabled: m.enabled,
        position: m.position,
        configured_interval_ms: m.update_interval_ms,
        provider: match provider_index(contracts, m.name@) {
            Some(p) => Some(policy_of(contracts[p])),
            None => None,
        },
    }
}

/// The catalog records of the modules, in order.
pub open spec fn module_infos(ms: Seq<CatalogModule>, contracts: Seq<ProviderContract>) -> Seq<ModuleInfo> {
    ms.map_values(|m: CatalogModule| module_info(m, contracts))
}

impl ProviderContract {
    /// A copy of the contract.
    pub fn duplicate(&self) -> (r: Self)
        ensures
            r == *self,
    {
        ProviderContract {
            id: self.id.clone(),
            display_name: self.display_name.clone(),
            refresh: RefreshPolicy {
                interval: self.refresh.interval,
                timeout: self.refresh.timeout,
                stale_after: self.refresh.stale_after,
                refresh_on_start: self.refresh.refresh_on_start,
            },
            shutdown: ShutdownPolicy { graceful_timeout: self.shutdown.graceful_timeout },
            test_backend: self.test_backend.clone(),
        }
    }
}

fn find_provider(contracts: &Vec<ProviderContract>, name: &str) -> (r: Option<ProviderPolicyInfo>)
    ensures
        r == match provider_index(contracts@, name@) {
            Some(p) => Some(policy_of(contracts@[p])),
            None => None::<ProviderPolicyInfo>,
        },
{
    let mut k: usize = 0;
    while k < contracts.len()
        invariant
            k <= contracts@.len(),
            forall|j: int| 0 <= j < k ==> !provides(#[trigger] contracts@[j], name@),
        decreases contracts.len() - k,
    {
        let c = &contracts[k];
        let hit = str_eq(c.id.as_str(), name) || (str_eq(c.id.as_str(), "network") && str_eq(name, "wifi")) || (
        str_eq(c.id.as_str(), "system") && str_eq(name, "sysmonitor"));
        if hit {
            proof {
                lemma_provider_index(contracts@, name@, k as int);
            }
            return Some(ProviderPolicyInfo::from(c.duplicate()));
        }
        k = k + 1;
    }
    proof {
        lemma_provider_index(contracts@, name@, k as int);
    }
    None
}

/// The modules of the configuration with their providers' policies
/// (`contracts` being the providers' declared contracts), in ascending order
/// of id.
pub fn active_modules(modules: &Vec<CatalogModule>, contracts: &Vec<ProviderContract>) -> (r: Vec<ModuleInfo>)
    ensures
        r@ == stable_by_key(module_infos(modules@, contracts@), |m: ModuleInfo| m.id@),
        sorted_by_key(r@, |m: ModuleInfo| m.id@),
{
    let mut infos: Vec<ModuleInfo> = Vec::new();
    let mut keys: Vec<Vec<char>> = Vec::new();
    let mut i: usize = 0;
    while i < modules.len()
        invariant
            i <= modules@.len(),
            infos@ == module_infos(modules@, contracts@).take(i as int),
            keys@.len() == i,
            forall|m: int| 0 <= m < i ==> (#[trigger] keys@[m])@ == infos@[m].id@,
        decreases modules.len() - i,
    {
        let m = &modules[i];
        let info = ModuleInfo {
            id: m.name.clone(),
            enabled: m.enabled,
            position: m.position.clone(),
            configured_interval_ms: m.update_interval_ms,
            provider: find_provider(contracts, m.name.as_str()),
        };
        let ghost before = infos@;
        infos.push(info);
        keys.push(chars_of(m.name.as_str()));
        assert(infos@ =~= module_infos(modules@, contracts@).take(i + 1));
        i = i + 1;
    }
    assert(infos@ =~= module_infos(modules@, contracts@));
    sort_by_key_stable(infos, keys, Ghost(|m: ModuleInfo| m.id@))
}

} // verus!
