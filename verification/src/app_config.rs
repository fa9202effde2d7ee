//! Configuration of the bar's modules and of the application: defaults,
//! validation, and the module table built from the shared configuration's
//! `[[modules]]` entries.

use vstd::prelude::*;
use crate::text::{
    ascii_lower, chars_eq, chars_of, decimal, lower_chars, owned, push_str, string_of, trim,
    trimmed,
};

verus! {

/// Where a module sits on the bar.
#[derive(Debug, Clone, Copy, PartialEq, Eq)]
pub enum ModulePosition {
    Left,
    Center,
    Right,
}

/// Per-module theme overrides.
#[derive(Debug, Clone, PartialEq, Eq)]
pub struct ThemeOverrides {
    pub bg_color: Option<String>,
    pub fg_color: Option<String>,
    pub font_size: Option<u16>,
}

/// Settings of one module.
#[derive(Debug, Clone, PartialEq, Eq)]
pub struct ModuleConfig {
    pub enabled: bool,
    pub position: ModulePosition,
    pub update_interval_ms: Option<u64>,
    pub theme_overrides: Option<ThemeOverrides>,
}

/// A module's settings under its name.
#[derive(Debug, Clone, PartialEq, Eq)]
pub struct ModuleEntry {
    pub name: String,
    pub config: ModuleConfig,
}

/// Theme settings for the application.
#[derive(Debug, Clone, PartialEq, Eq)]
pub struct ThemeSettings {
    pub background_color: Option<String>,
    pub text_color: Option<String>,
    pub font_size: Option<u16>,
}

/// Application-level settings.
#[derive(Debug, Clone, PartialEq, Eq)]
pub struct ApplicationSettings {
    /// Refresh rate in milliseconds for the main UI loop.
    pub refresh_rate_ms: u64,
    /// Enable verbose logging.
    pub verbose: bool,
    /// Optional path to an xrandr preset YAML file used by the video widget.
    pub xrandr_presets_yaml: Option<String>,
    pub theme: ThemeSettings,
}

/// Main application configuration: the modules, each under a distinct name,
/// in the order they were declared, and the application settings.
#[derive(Debug, Clone, PartialEq, Eq)]
pub struct AppConfig {
    pub modules: Vec<ModuleEntry>,
    pub app: ApplicationSettings,
}

/// The modules as (name, settings) pairs, in order.
pub open spec fn module_list(entries: Seq<ModuleEntry>) -> Seq<(Seq<char>, ModuleConfig)> {
    entries.map_values(|e: ModuleEntry| (e.name@, e.config))
}

/// Whether no name occurs twice.
pub open spec fn distinct_module_names(list: Seq<(Seq<char>, ModuleConfig)>) -> bool {
    forall|i: int, j: int| 0 <= i < j < list.len() ==> (#[trigger] list[i]).0 != (#[trigger] list[j]).0
}

impl AppConfig {
    /// Module names are distinct.
    pub open spec fn wf(&self) -> bool {
        distinct_module_names(module_list(self.modules@))
    }

    /// The settings of the module with the given name, if there is one.
    pub fn module(&self, name: &str) -> (r: Option<&ModuleConfig>)
        ensures
            match r {
                Some(c) => exists|k: int| 0 <= k < self.modules@.len()
                    && (#[trigger] self.modules@[k]).name@ == name@ && self.modules@[k].config == *c,
                None => forall|k: int| 0 <= k < self.modules@.len() ==> (#[trigger] self.modules@[k]).name@ != name@,
            },
    {
        let wanted = chars_of(name);
        let mut i: usize = 0;
        while i < self.modules.len()
            invariant
                i <= self.modules@.len(),
                wanted@ == name@,
                forall|k: int| 0 <= k < i ==> (#[trigger] self.modules@[k]).name@ != name@,
            decreases self.modules.len() - i,
        {
            let candidate = chars_of(self.modules[i].name.as_str());
            if chars_eq(&candidate, &wanted) {
                return Some(&self.modules[i].config);
            }
            i = i + 1;
        }
        None
    }
}

impl Default for ThemeSettings {
    fn default() -> (t: Self)
        ensures
            t.background_color matches Some(c) && c@ == "#2c3e50"@,
            t.text_color matches Some(c) && c@ == "#ecf0f1"@,
            t.font_size == Some(14u16),
    {
        ThemeSettings {
            background_color: Some(owned("#2c3e50")),
            text_color: Some(owned("#ecf0f1")),
            font_size: Some(14),
        }
    }
}

/// The default theme.
pub open spec fn default_theme(t: ThemeSettings) -> bool {
    &&& t.background_color matches Some(c) && c@ == "#2c3e50"@
    &&& t.text_color matches Some(c) && c@ == "#ecf0f1"@
    &&& t.font_size == Some(14u16)
}

/// Whether `a` holds the default application settings, apart from the
/// xrandr preset path.
pub open spec fn default_settings_but_presets(a: ApplicationSettings) -> bool {
    &&& a.refresh_rate_ms == 50
    &&& !a.verbose
    &&& default_theme(a.theme)
}

impl Default for ApplicationSettings {
    fn default() -> (a: Self)
        ensures
            default_settings_but_presets(a),
            a.xrandr_presets_yaml is None,
    {
        ApplicationSettings {
            refresh_rate_ms: 50,
            verbose: false,
            xrandr_presets_yaml: None,
            theme: ThemeSettings::default(),
        }
    }
}

/// The default modules: a clock refreshed every second and a battery
/// refreshed every five seconds with a 12-point font, both on the right.
pub open spec fn default_modules(list: Seq<(Seq<char>, ModuleConfig)>) -> bool {
    &&& list.len() == 2
    &&& list[0].0 == "clock"@
    &&& list[0].1 == ModuleConfig {
        enabled: true,
        position: ModulePosition::Right,
        update_interval_ms: Some(1000u64),
        theme_overrides: None,
    }
    &&& list[1].0 == "battery"@
    &&& list[1].1 == ModuleConfig {
        enabled: true,
        position: ModulePosition::Right,
        update_interval_ms: Some(5000u64),
        theme_overrides: Some(ThemeOverrides { bg_color: None, fg_color: None, font_size: Some(12u16) }),
    }
}

impl Default for AppConfig {
    fn default() -> (c: Self)
        ensures
            c.wf(),
            default_modules(module_list(c.modules@)),
            default_settings_but_presets(c.app),
            c.app.xrandr_presets_yaml is None,
    {
        let mut modules: Vec<ModuleEntry> = Vec::new();
        modules.push(ModuleEntry {
            name: owned("clock"),
            config: ModuleConfig {
                enabled: true,
                position: ModulePosition::Right,
                update_interval_ms: Some(1000),
                theme_overrides: None,
            },
        });
        modules.push(ModuleEntry {
            name: owned("battery"),
            config: ModuleConfig {
                enabled: true,
                position: ModulePosition::Right,
                update_interval_ms: Some(5000),
                theme_overrides: Some(ThemeOverrides { bg_color: None, fg_color: None, font_size: Some(12) }),
            },
        });
        proof {
            reveal_strlit("clock");
            reveal_strlit("battery");
            let list = module_list(modules@);
            assert(list[0].0 == "clock"@);
            assert(list[1].0 == "battery"@);
            assert(list[0].0 != list[1].0);
        }
        AppConfig { modules, app: ApplicationSettings::default() }
    }
}

// == Validation ==

/// The first problem of one module's refresh interval, if any.
pub open spec fn module_problem(name: Seq<char>, interval: Option<u64>) -> Option<Seq<char>> {
    match interval {
        Some(i) => if i == 0 {
            Some("Module '"@ + name + "' has zero update interval"@)
        } else if i > 3600000 {
            Some("Module '"@ + name + "' update interval too high (max 1 hour)"@)
        } else {
            None
        },
        None => None,
    }
}

/// The first problem among the modules, in their order.
pub open spec fn first_module_problem(list: Seq<(Seq<char>, ModuleConfig)>) -> Option<Seq<char>>
    decreases list.len(),
{
    if list.len() == 0 {
        None
    } else {
        match module_problem(list[0].0, list[0].1.update_interval_ms) {
            Some(p) => Some(p),
            None => first_module_problem(list.drop_first()),
        }
    }
}

/// The first problem of a configuration: a refresh rate of zero or above ten
/// seconds, then the modules' refresh intervals (zero, or above one hour).
pub open spec fn config_problem(refresh_rate_ms: u64, list: Seq<(Seq<char>, ModuleConfig)>) -> Option<Seq<char>> {
    if refresh_rate_ms == 0 {
        Some("Refresh rate cannot be zero"@)
    } else if refresh_rate_ms > 10000 {
        Some("Refresh rate too high (max 10000ms)"@)
    } else {
        first_module_problem(list)
    }
}

fn quoted_module_message(name: &str, tail: &str) -> (m: String)
    ensures
        m@ == "Module '"@ + name@ + tail@,
{
    let mut v: Vec<char> = Vec::new();
    push_str(&mut v, "Module '");
    push_str(&mut v, name);
    push_str(&mut v, tail);
    string_of(&v)
}

/// The configuration to run with: a loaded configuration that passes the
/// checks is kept; one that fails them is replaced by the default
/// configuration, and the problem is returned for the warning.
pub fn validated_or_default(config: AppConfig) -> (r: (AppConfig, Option<String>))
    ensures
        match config_problem(config.app.refresh_rate_ms, module_list(config.modules@)) {
            Some(p) => {
                &&& r.1 is Some && r.1->Some_0@ == p
                &&& r.0.wf()
                &&& default_modules(module_list(r.0.modules@))
                &&& default_settings_but_presets(r.0.app)
                &&& r.0.app.xrandr_presets_yaml is None
            },
            None => r.0 == config && r.1 is None,
        },
{
    match validate_app_config(&config) {
        Ok(()) => (config, None),
        Err(problem) => (AppConfig::default(), Some(problem)),
    }
}

/// Checks the configuration for common mistakes, reporting the first one.
pub fn validate_app_config(config: &AppConfig) -> (r: Result<(), String>)
    ensures
        match config_problem(config.app.refresh_rate_ms, module_list(config.modules@)) {
            Some(p) => r is Err && r->Err_0@ == p,
            None => r is Ok,
        },
{
    if config.app.refresh_rate_ms == 0 {
        return Err(owned("Refresh rate cannot be zero"));
    }
    if config.app.refresh_rate_ms > 10000 {
        return Err(owned("Refresh rate too high (max 10000ms)"));
    }
    let ghost list = module_list(config.modules@);
    let mut i: usize = 0;
    assert(list.skip(0) =~= list);
    while i < config.modules.len()
        invariant
            i <= config.modules@.len(),
            list == module_list(config.modules@),
            0 < config.app.refresh_rate_ms <= 10000,
            first_module_problem(list.skip(i as int)) == first_module_problem(list),
        decreases config.modules.len() - i,
    {
        let entry = &config.modules[i];
        assert(list.skip(i as int)[0] == (entry.name@, entry.config));
        assert(list.skip(i as int).drop_first() =~= list.skip(i + 1));
        match entry.config.update_interval_ms {
            Some(interval) => {
                if interval == 0 {
                    return Err(quoted_module_message(entry.name.as_str(), "' has zero update interval"));
                }
                if interval > 3600000 {
                    return Err(quoted_module_message(entry.name.as_str(), "' update interval too high (max 1 hour)"));
                }
            },
            None => {},
        }
        i = i + 1;
    }
    assert(list.skip(i as int) =~= Seq::<(Seq<char>, ModuleConfig)>::empty());
    Ok(())
}

// == Modules from the shared configuration ==

/// One `[[modules]]` entry of the shared configuration.
#[derive(Debug, Clone, PartialEq, Eq)]
pub struct CoreModule {
    pub name: String,
    pub position: String,
    pub enabled: bool,
    pub update_interval_ms: Option<u64>,
}

/// What the module table is built from: the `[[modules]]` entries of the
/// shared configuration and the system menu's xrandr preset file.
#[derive(Debug, Clone, PartialEq, Eq)]
pub struct CoreConfig {
    pub modules: Vec<CoreModule>,
    pub xrandr_presets_yaml: Option<String>,
}

/// The position a configured position names: `left`, `center` or `right`,
/// ignoring surrounding whitespace and ASCII case.
pub open spec fn parsed_position(p: Seq<char>) -> Option<ModulePosition> {
    let t = ascii_lower(trim(p));
    if t == "left"@ {
        Some(ModulePosition::Left)
    } else if t == "center"@ {
        Some(ModulePosition::Center)
    } else if t == "right"@ {
        Some(ModulePosition::Right)
    } else {
        None
    }
}

/// The names of a module list.
pub open spec fn module_names(list: Seq<(Seq<char>, ModuleConfig)>) -> Seq<Seq<char>> {
    list.map_values(|p: (Seq<char>, ModuleConfig)| p.0)
}

/// The module table of the `[[modules]]` entries, read in order: each entry
/// needs a known position and a name that is not blank and not taken by an
/// earlier entry (names are trimmed); the first entry that fails gives the
/// error.
pub open spec fn core_modules(entries: Seq<CoreModule>) -> Result<Seq<(Seq<char>, ModuleConfig)>, Seq<char>>
    decreases entries.len(),
{
    if entries.len() == 0 {
        Ok(Seq::empty())
    } else {
        match core_modules(entries.drop_last()) {
            Err(e) => Err(e),
            Ok(list) => {
                let e = entries.last();
                match parsed_position(e.position@) {
                    None => Err("module '"@ + e.name@ + "' has unsupported position '"@
                        + ascii_lower(trim(e.position@)) + "'"@),
                    Some(position) => {
                        let name = trim(e.name@);
                        if name.len() == 0 {
                            Err("module names must not be empty"@)
                        } else if module_names(list).contains(name) {
                            Err("duplicate module name '"@ + name + "'"@)
                        } else {
                            Ok(list.push((name, ModuleConfig {
                                enabled: e.enabled,
                                position: position,
                                update_interval_ms: e.update_interval_ms,
                                theme_overrides: None,
                            })))
                        }
                    },
                }
            },
        }
    }
}

/// The module table of the shared configuration, when it also passes
/// validation under the default refresh rate.
pub open spec fn core_module_table(entries: Seq<CoreModule>) -> Result<Seq<(Seq<char>, ModuleConfig)>, Seq<char>> {
    match core_modules(entries) {
        Err(e) => Err(e),
        Ok(list) => match config_problem(50, list) {
            Some(p) => Err(p),
            None => Ok(list),
        },
    }
}

fn has_module(modules: &Vec<ModuleEntry>, name: &Vec<char>) -> (r: bool)
    ensures
        r == module_names(module_list(modules@)).contains(name@),
{
    let ghost names = module_names(module_list(modules@));
    let mut i: usize = 0;
    while i < modules.len()
        invariant
            i <= modules@.len(),
            names == module_names(module_list(modules@)),
            forall|k: int| 0 <= k < i ==> names[k] != name@,
        decreases modules.len() - i,
    {
        let candidate = chars_of(modules[i].name.as_str());
        assert(names[i as int] == modules@[i as int].name@);
        if chars_eq(&candidate, name) {
            return true;
        }
        i = i + 1;
    }
    false
}

fn position_named(position: &str) -> (r: Result<ModulePosition, Vec<char>>)
    ensures
        match r {
            Ok(p) => parsed_position(position@) == Some(p),
            Err(t) => parsed_position(position@) is None && t@ == ascii_lower(trim(position@)),
        },
{
    let t = trimmed(position);
    let lower = lower_chars(&t);
    if chars_eq(&lower, &chars_of("left")) {
        Ok(ModulePosition::Left)
    } else if chars_eq(&lower, &chars_of("center")) {
        Ok(ModulePosition::Center)
    } else if chars_eq(&lower, &chars_of("right")) {
        Ok(ModulePosition::Right)
    } else {
        Err(lower)
    }
}

/// Builds the module table from the shared configuration's `[[modules]]`
/// entries, keeping the xrandr preset path and the default settings.
pub fn app_config_from_core(config: &CoreConfig) -> (r: Result<AppConfig, String>)
    ensures
        match core_module_table(config.modules@) {
            Ok(list) => r is Ok
                && module_list(r->Ok_0.modules@) == list
                && r->Ok_0.wf()
                && default_settings_but_presets(r->Ok_0.app)
                && r->Ok_0.app.xrandr_presets_yaml == config.xrandr_presets_yaml,
            Err(e) => r is Err && r->Err_0@ == e,
        },
{
    let mut modules: Vec<ModuleEntry> = Vec::new();
    let mut i: usize = 0;
    assert(config.modules@.take(0) =~= Seq::<CoreModule>::empty());
    assert(module_list(modules@) =~= Seq::<(Seq<char>, ModuleConfig)>::empty());
    while i < config.modules.len()
        invariant
            i <= config.modules@.len(),
            core_modules(config.modules@.take(i as int)) == Ok::<Seq<(Seq<char>, ModuleConfig)>, Seq<char>>(module_list(modules@)),
            distinct_module_names(module_list(modules@)),
        decreases config.modules.len() - i,
    {
        let entry = &config.modules[i];
        proof {
            assert(config.modules@.take(i + 1).drop_last() =~= config.modules@.take(i as int));
            assert(config.modules@.take(i + 1).last() == config.modules@[i as int]);
        }
        let position = match position_named(entry.position.as_str()) {
            Ok(p) => p,
            Err(lower) => {
                let mut v: Vec<char> = Vec::new();
                push_str(&mut v, "module '");
                push_str(&mut v, entry.name.as_str());
                push_str(&mut v, "' has unsupported position '");
                let mut rest = lower;
                v.append(&mut rest);
                push_str(&mut v, "'");
                assert(core_modules(config.modules@) == core_modules(config.modules@.take(i + 1))) by {
                    lemma_core_modules_err_stays(config.modules@, i as int + 1);
                }
                return Err(string_of(&v));
            },
        };
        let name = trimmed(entry.name.as_str());
        if name.len() == 0 {
            proof {
                lemma_core_modules_err_stays(config.modules@, i as int + 1);
            }
            return Err(owned("module names must not be empty"));
        }
        if has_module(&modules, &name) {
            let mut v: Vec<char> = Vec::new();
            push_str(&mut v, "duplicate module name '");
            let mut n = name;
            v.append(&mut n);
            push_str(&mut v, "'");
            proof {
                lemma_core_modules_err_stays(config.modules@, i as int + 1);
            }
            return Err(string_of(&v));
        }
        let ghost before = module_list(modules@);
        modules.push(ModuleEntry {
            name: string_of(&name),
            config: ModuleConfig {
                enabled: entry.enabled,
                position,
                update_interval_ms: entry.update_interval_ms,
                theme_overrides: None,
            },
        });
        proof {
            assert(module_list(modules@) =~= before.push((name@, modules@.last().config)));
            assert forall|a: int, b: int| 0 <= a < b < module_list(modules@).len()
                implies (#[trigger] module_list(modules@)[a]).0 != (#[trigger] module_list(modules@)[b]).0 by {
                if b == module_list(modules@).len() - 1 {
                    assert(module_names(before)[a] == before[a].0);
                }
            }
        }
        i = i + 1;
    }
    assert(config.modules@.take(i as int) =~= config.modules@);
    let mut app = ApplicationSettings::default();
    app.xrandr_presets_yaml = match &config.xrandr_presets_yaml {
        Some(p) => Some(p.clone()),
        None => None,
    };
    let app_config = AppConfig { modules, app };
    match validate_app_config(&app_config) {
        Ok(()) => Ok(app_config),
        Err(e) => Err(e),
    }
}

/// An error among the first `n` entries is the error of the whole list.
proof fn lemma_core_modules_err_stays(entries: Seq<CoreModule>, n: int)
    requires
        0 <= n <= entries.len(),
        core_modules(entries.take(n)) is Err,
    ensures
        core_modules(entries) == core_modules(entries.take(n)),
    decreases entries.len() - n,
{
    if n < entries.len() {
        assert(entries.take(n + 1).drop_last() =~= entries.take(n));
        lemma_core_modules_err_stays(entries, n + 1);
    } else {
        assert(entries.take(n) =~= entries);
    }
}

} // verus!
