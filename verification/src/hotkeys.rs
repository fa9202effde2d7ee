//! The hotkey daemon's report on its bindings: normalised chords, the
//! recognised menu launchers, duplicate and shadowed chords, and the text of
//! the report.

use vstd::prelude::*;
use std::path::{Path, PathBuf};
use crate::menu_order::{chars_le, seq_le, sort_strings, sorted_strings};
use crate::names::views;
use crate::text::{
    decimal, push_decimal, push_signed, signed_decimal, ascii_lower, chars_eq, chars_of, join_strings, join_with, lower_chars, nonblank_trimmed,
    owned, push_str, split_pieces, split_trimmed_nonblank, split_whitespace, string_of, trim, trimmed, ws_tokens,
};

verus! {

// == Chords ==

/// When a binding fires.
#[derive(Debug, Clone, Copy, PartialEq, Eq, Structural)]
pub enum KeyTrigger {
    Press,
    Release,
    Modrelease,
    Repeat,
}

/// The name of a trigger in the report.
pub open spec fn trigger_name(t: KeyTrigger) -> Seq<char> {
    match t {
        KeyTrigger::Press => "press"@,
        KeyTrigger::Release => "release"@,
        KeyTrigger::Modrelease => "modrelease"@,
        KeyTrigger::Repeat => "repeat"@,
    }
}

/// The name of a trigger in the report.
pub fn trigger_for_report(trigger: KeyTrigger) -> (r: &'static str)
    ensures
        r@ == trigger_name(trigger),
{
    match trigger {
        KeyTrigger::Press => "press",
        KeyTrigger::Release => "release",
        KeyTrigger::Modrelease => "modrelease",
        KeyTrigger::Repeat => "repeat",
    }
}

/// A key name in the report's spelling: ASCII lowercase with `-` as `_`.
pub open spec fn report_key_part(p: Seq<char>) -> Seq<char> {
    ascii_lower(p).map_values(|c: char| if c == '-' { '_' } else { c })
}

/// A keysym in the report's spelling: its `+`-separated parts trimmed,
/// empty parts dropped, each part respelled, joined by `+`.
pub open spec fn normalized_keysym(keysym: Seq<char>) -> Seq<char> {
    join_with(respelled_parts(nonblank_trimmed(split_pieces(keysym, '+'))), "+"@)
}

/// Each part in the report's spelling.
pub open spec fn respelled_parts(ps: Seq<Seq<char>>) -> Seq<Seq<char>> {
    ps.map_values(|p: Seq<char>| report_key_part(p))
}

fn respelled(part: &str) -> (r: String)
    ensures
        r@ == report_key_part(part@),
{
    let cs = chars_of(part);
    let lower = lower_chars(&cs);
    let mut out: Vec<char> = Vec::new();
    let mut i: usize = 0;
    while i < lower.len()
        invariant
            i <= lower@.len(),
            lower@ == ascii_lower(part@),
            out@ == report_key_part(part@).take(i as int),
        decreases lower.len() - i,
    {
        let c = lower[i];
        out.push(if c == '-' { '_' } else { c });
        assert(out@ =~= report_key_part(part@).take(i + 1));
        i = i + 1;
    }
    assert(out@ =~= report_key_part(part@));
    string_of(&out)
}

/// A keysym in the report's spelling.
pub fn normalize_keysym_for_report(keysym: &str) -> (r: String)
    ensures
        r@ == normalized_keysym(keysym@),
{
    let parts = split_trimmed_nonblank(keysym, '+');
    let mut spelled: Vec<String> = Vec::new();
    let mut i: usize = 0;
    while i < parts.len()
        invariant
            i <= parts@.len(),
            views(spelled@) == respelled_parts(views(parts@).take(i as int)),
        decreases parts.len() - i,
    {
        let ghost before = spelled@;
        spelled.push(respelled(parts[i].as_str()));
        proof {
            let target = respelled_parts(views(parts@).take(i + 1));
            assert(views(before).len() == before.len());
            assert(respelled_parts(views(parts@).take(i as int)).len() == i);
            assert(spelled@ == before.push(spelled@.last()));
            assert(target.len() == i + 1);
            assert forall|k: int| 0 <= k < target.len() implies views(spelled@)[k] == target[k] by {
                if k < i {
                    assert(views(spelled@)[k] == spelled@[k]@);
                    assert(spelled@[k] == before[k]);
                    assert(views(before)[k] == respelled_parts(views(parts@).take(i as int))[k]);
                } else {
                    assert(views(spelled@)[k] == spelled@[k]@);
                }
            }
            assert(views(spelled@) =~= target);
        }
        i = i + 1;
    }
    assert(views(parts@).take(i as int) =~= views(parts@));
    join_strings(&spelled, "+")
}

/// The chord a binding is reported and grouped under.
pub open spec fn chord_key(keysym: Seq<char>, trigger: KeyTrigger) -> Seq<char> {
    normalized_keysym(keysym) + " trigger="@ + trigger_name(trigger)
}

/// The chord a binding is reported and grouped under.
pub fn report_key(keysym: &str, trigger: KeyTrigger) -> (r: String)
    ensures
        r@ == chord_key(keysym@, trigger),
{
    let k = normalize_keysym_for_report(keysym);
    let mut v = chars_of(k.as_str());
    push_str(&mut v, " trigger=");
    push_str(&mut v, trigger_for_report(trigger));
    string_of(&v)
}

// == Menu launchers ==

/// The last component of a path, if the path names one.
pub uninterp spec fn path_file_name(path: Seq<char>) -> Option<Seq<char>>;

/// Trusted: calls `Path::file_name` and converts the component back to a
/// string; the claim is that the result is `path_file_name(path)`.
#[verifier::external_body]
fn file_name_of(path: &str) -> (r: Option<String>)
    ensures
        match r {
            Some(n) => path_file_name(path@) == Some(n@),
            None => path_file_name(path@) is None,
        },
{
    Path::new(path).file_name().and_then(|name| name.to_str()).map(|name| name.to_string())
}

/// The menu toggle that a shell command launching one of the popups stands
/// for: the i3 visualizer or the filter tab with no arguments, or the
/// clipboard popup with no arguments or `--i3-shortcut`.
pub open spec fn known_menu_action(command: Seq<char>) -> Option<Seq<char>> {
    let parts = ws_tokens(command);
    if parts.len() == 0 {
        None
    } else {
        match path_file_name(parts[0]) {
            None => None,
            Some(exe) => {
                let rest = parts.skip(1);
                if (exe == "unilii-i3-vis"@ || exe == "deskhalloumi-i3-vis"@) && rest.len() == 0 {
                    Some("toggle:i3-vis"@)
                } else if (exe == "unilii-filter-tab"@ || exe == "deskhalloumi-filter-tab"@) && rest.len() == 0 {
                    Some("toggle:filter-tab"@)
                } else if (exe == "unilii-copyq"@ || exe == "deskhalloumi-copyq"@)
                    && (rest.len() == 0 || rest == seq!["--i3-shortcut"@]) {
                    Some("toggle:copyq"@)
                } else {
                    None
                }
            },
        }
    }
}

fn is(v: &Vec<char>, s: &str) -> (r: bool)
    ensures
        r == (v@ == s@),
{
    chars_eq(v, &chars_of(s))
}

/// The menu toggle that a launcher shell command stands for.
pub fn known_menu_action_for_shell_command(command: &str) -> (r: Option<String>)
    ensures
        match r {
            Some(a) => known_menu_action(command@) == Some(a@),
            None => known_menu_action(command@) is None,
        },
{
    let parts = split_whitespace(command);
    if parts.len() == 0 {
        return None;
    }
    assert(parts@.map_values(|t: Vec<char>| t@)[0] == parts@[0]@);
    let first = string_of(&parts[0]);
    let exe = match file_name_of(first.as_str()) {
        Some(e) => chars_of(e.as_str()),
        None => return None,
    };
    let rest = parts.len() - 1;
    proof {
        let toks = ws_tokens(command@);
        assert(toks.skip(1).len() == rest);
    }
    if (is(&exe, "unilii-i3-vis") || is(&exe, "deskhalloumi-i3-vis")) && rest == 0 {
        Some(owned("toggle:i3-vis"))
    } else if (is(&exe, "unilii-filter-tab") || is(&exe, "deskhalloumi-filter-tab")) && rest == 0 {
        Some(owned("toggle:filter-tab"))
    } else if (is(&exe, "unilii-copyq") || is(&exe, "deskhalloumi-copyq"))
        && (rest == 0 || (rest == 1 && is(&parts[1], "--i3-shortcut"))) {
        proof {
            let toks = ws_tokens(command@);
            if rest == 1 && parts@[1]@ == "--i3-shortcut"@ {
                assert(toks[1] == parts@[1]@);
                assert(toks.skip(1) =~= seq!["--i3-shortcut"@]);
            }
        }
        Some(owned("toggle:copyq"))
    } else {
        proof {
            let toks = ws_tokens(command@);
            if rest == 1 && toks.skip(1) == seq!["--i3-shortcut"@] {
                assert(toks.skip(1)[0] == toks[1]);
                assert(toks[1] == parts@[1]@);
            }
        }
        None
    }
}

// == Bindings ==

/// What kind of command a binding runs.
#[derive(Debug, Clone, Copy, PartialEq, Eq, Structural)]
pub enum CommandType {
    Shell,
    Menu,
    Bar,
    Tray,
    Widget,
}

/// A key binding of the hotkey daemon.
#[derive(Debug, PartialEq, Eq)]
pub struct KeyBinding {
    pub name: String,
    pub keysym: String,
    pub command: String,
    pub command_type: CommandType,
    pub release: bool,
    pub trigger: KeyTrigger,
    pub hold_ms: Option<u64>,
    pub cooldown_ms: Option<u64>,
    pub priority: i32,
    pub consume: bool,
}

impl KeyBinding {
    /// A copy of the binding.
    pub fn duplicate(&self) -> (r: Self)
        ensures
            r == *self,
    {
        KeyBinding {
            name: self.name.clone(),
            keysym: self.keysym.clone(),
            command: self.command.clone(),
            command_type: self.command_type,
            release: self.release,
            trigger: self.trigger,
            hold_ms: self.hold_ms,
            cooldown_ms: self.cooldown_ms,
            priority: self.priority,
            consume: self.consume,
        }
    }
}

impl Clone for KeyBinding {
    fn clone(&self) -> (r: Self)
        ensures
            r == *self,
    {
        self.duplicate()
    }
}

/// Whether `b` is the managed menu binding with the given name, keysym and
/// menu command: fired on press, with a 250 ms cooldown, priority 100, and
/// consuming the key.
pub open spec fn is_menu_binding(b: KeyBinding, name: Seq<char>, keysym: Seq<char>, command: Seq<char>) -> bool {
    &&& b.name@ == name
    &&& b.keysym@ == keysym
    &&& b.command@ == command
    &&& b.command_type == CommandType::Menu
    &&& !b.release
    &&& b.trigger == KeyTrigger::Press
    &&& b.hold_ms is None
    &&& b.cooldown_ms == Some(250u64)
    &&& b.priority == 100
    &&& b.consume
}

/// A managed menu binding.
pub fn menu_binding(name: &str, keysym: &str, command: &str) -> (b: KeyBinding)
    ensures
        is_menu_binding(b, name@, keysym@, command@),
{
    KeyBinding {
        name: owned(name),
        keysym: owned(keysym),
        command: owned(command),
        command_type: CommandType::Menu,
        release: false,
        trigger: KeyTrigger::Press,
        hold_ms: None,
        cooldown_ms: Some(250),
        priority: 100,
        consume: true,
    }
}

/// The bindings that open the three popups: `Super+i` the i3 visualizer,
/// `Super+u` the filter tab and `Super+c` the clipboard.
pub fn menu_launcher_default_bindings() -> (r: Vec<KeyBinding>)
    ensures
        r@.len() == 3,
        is_menu_binding(r@[0], "menu_i3_vis"@, "Super+i"@, "toggle:i3-vis"@),
        is_menu_binding(r@[1], "menu_filter_tab"@, "Super+u"@, "toggle:filter-tab"@),
        is_menu_binding(r@[2], "menu_copyq"@, "Super+c"@, "toggle:copyq"@),
{
    let mut r: Vec<KeyBinding> = Vec::new();
    r.push(menu_binding("menu_i3_vis", "Super+i", "toggle:i3-vis"));
    r.push(menu_binding("menu_filter_tab", "Super+u", "toggle:filter-tab"));
    r.push(menu_binding("menu_copyq", "Super+c", "toggle:copyq"));
    r
}

/// Turns shell bindings that launch a popup into managed menu bindings.
pub fn promote_known_menu_bindings(bindings: &mut Vec<KeyBinding>)
    ensures
        final(bindings)@.len() == old(bindings)@.len(),
        forall|k: int| 0 <= k < old(bindings)@.len() ==> {
            let b = #[trigger] old(bindings)@[k];
            let n = final(bindings)@[k];
            &&& n.command@ == match (b.command_type, known_menu_action(b.command@)) {
                (CommandType::Shell, Some(a)) => a,
                _ => b.command@,
            }
            &&& n.command_type == if b.command_type == CommandType::Shell && known_menu_action(b.command@) is Some {
                CommandType::Menu
            } else {
                b.command_type
            }
            &&& n.name == b.name && n.keysym == b.keysym && n.release == b.release
            &&& n.trigger == b.trigger && n.hold_ms == b.hold_ms && n.cooldown_ms == b.cooldown_ms
            &&& n.priority == b.priority && n.consume == b.consume
        },
{
    let ghost original = bindings@;
    let mut i: usize = 0;
    while i < bindings.len()
        invariant
            i <= bindings@.len(),
            bindings@.len() == original.len(),
            forall|k: int| i <= k < original.len() ==> bindings@[k] == original[k],
            forall|k: int| 0 <= k < i ==> {
                let b = #[trigger] original[k];
                let n = bindings@[k];
                &&& n.command@ == match (b.command_type, known_menu_action(b.command@)) {
                    (CommandType::Shell, Some(a)) => a,
                    _ => b.command@,
                }
                &&& n.command_type == if b.command_type == CommandType::Shell && known_menu_action(b.command@) is Some {
                    CommandType::Menu
                } else {
                    b.command_type
                }
                &&& n.name == b.name && n.keysym == b.keysym && n.release == b.release
                &&& n.trigger == b.trigger && n.hold_ms == b.hold_ms && n.cooldown_ms == b.cooldown_ms
                &&& n.priority == b.priority && n.consume == b.consume
            },
        decreases bindings.len() - i,
    {
        if bindings[i].command_type == CommandType::Shell {
            match known_menu_action_for_shell_command(bindings[i].command.as_str()) {
                Some(action) => {
                    let mut b = bindings[i].duplicate();
                    b.command_type = CommandType::Menu;
                    b.command = action;
                    bindings.set(i, b);
                },
                None => {},
            }
        }
        i = i + 1;
    }
}

// == The report ==

/// A line of an imported key configuration that could not be taken over.
#[derive(Debug, Clone, PartialEq, Eq)]
pub struct ImportWarning {
    pub line: usize,
    pub message: String,
}

/// What the daemon found in its bindings.
#[derive(Debug, Clone, PartialEq, Eq)]
pub struct HotkeyReport {
    pub binding_count: usize,
    pub managed_menu_count: usize,
    pub import_warnings: Vec<ImportWarning>,
    pub duplicate_chords: Vec<String>,
    pub shadowed_bindings: Vec<String>,
    pub invalid_bindings: Vec<String>,
}

impl HotkeyReport {
    /// Whether any list of problems is non-empty.
    pub fn has_issues(&self) -> (r: bool)
        ensures
            r == (self.import_warnings@.len() > 0 || self.duplicate_chords@.len() > 0
                || self.shadowed_bindings@.len() > 0 || self.invalid_bindings@.len() > 0),
    {
        self.import_warnings.len() > 0 || self.duplicate_chords.len() > 0
            || self.shadowed_bindings.len() > 0 || self.invalid_bindings.len() > 0
    }
}

/// The values, each indented by two spaces.
pub open spec fn indented(values: Seq<Seq<char>>) -> Seq<Seq<char>> {
    values.map_values(|v: Seq<char>| "  "@ + v)
}

/// A titled section of the report: the title with a colon, then the
/// indented values, or `<none>` when there are none.
pub open spec fn section(title: Seq<char>, values: Seq<Seq<char>>) -> Seq<Seq<char>> {
    seq![title + ":"@] + if values.len() == 0 { seq!["  <none>"@] } else { indented(values) }
}

/// Appends a titled section to the report's lines.
pub fn render_section(lines: &mut Vec<String>, title: &str, values: Vec<String>)
    ensures
        views(final(lines)@) == views(old(lines)@) + section(title@, views(values@)),
{
    let ghost start = views(lines@);
    let mut head = chars_of(title);
    push_str(&mut head, ":");
    lines.push(string_of(&head));
    assert(views(lines@) =~= start + seq![title@ + ":"@]);
    let ghost base = views(lines@);
    if values.len() == 0 {
        lines.push(owned("  <none>"));
        assert(views(lines@) =~= start + section(title@, views(values@)));
    } else {
        let mut i: usize = 0;
        while i < values.len()
            invariant
                i <= values@.len(),
                views(lines@) == base + indented(views(values@).take(i as int)),
            decreases values.len() - i,
        {
            let ghost before = lines@;
            let mut v = chars_of("  ");
            push_str(&mut v, values[i].as_str());
            lines.push(string_of(&v));
            proof {
                let t = indented(views(values@).take(i + 1));
                assert(views(before).len() == before.len());
                assert(indented(views(values@).take(i as int)).len() == i);
                assert(t.len() == i + 1);
                assert forall|k: int| 0 <= k < views(lines@).len() implies views(lines@)[k] == (base + t)[k] by {
                    assert(views(lines@)[k] == lines@[k]@);
                    if k < before.len() {
                        assert(lines@[k] == before[k]);
                        assert(views(before)[k] == before[k]@);
                        if k >= base.len() {
                            assert(indented(views(values@).take(i as int))[k - base.len()] == t[k - base.len()]);
                        }
                    }
                }
                assert(views(lines@) =~= base + t);
            }
            i = i + 1;
        }
        assert(views(values@).take(i as int) =~= views(values@));
    }
}

/// A migration warning as reported: its line number and message.
pub open spec fn warning_line(w: ImportWarning) -> Seq<char> {
    "line "@ + decimal(w.line as nat) + ": "@ + w.message@
}

/// The lines of the report: a heading, the binding counts, then the
/// sections for migration warnings, duplicate chords, shadowed bindings and
/// invalid bindings.
pub open spec fn report_lines(r: HotkeyReport) -> Seq<Seq<char>> {
    seq![
        "deskhalloumi-hotkeyd report"@,
        "bindings: "@ + decimal(r.binding_count as nat),
        "managed menu bindings: "@ + decimal(r.managed_menu_count as nat),
    ]
        + section("migration warnings"@, r.import_warnings@.map_values(|w: ImportWarning| warning_line(w)))
        + section("duplicate chords"@, views(r.duplicate_chords@))
        + section("shadowed bindings"@, views(r.shadowed_bindings@))
        + section("invalid bindings"@, views(r.invalid_bindings@))
}

fn labelled_count(label: &str, n: usize) -> (s: String)
    ensures
        s@ == label@ + decimal(n as nat),
{
    let mut v = chars_of(label);
    push_decimal(&mut v, n as u128);
    string_of(&v)
}

/// The report as text, one line per entry.
pub fn render_hotkey_report(report: &HotkeyReport) -> (s: String)
    ensures
        s@ == join_with(report_lines(*report), "\n"@),
{
    let mut lines: Vec<String> = Vec::new();
    lines.push(owned("deskhalloumi-hotkeyd report"));
    lines.push(labelled_count("bindings: ", report.binding_count));
    lines.push(labelled_count("managed menu bindings: ", report.managed_menu_count));
    let mut warnings: Vec<String> = Vec::new();
    let mut i: usize = 0;
    while i < report.import_warnings.len()
        invariant
            i <= report.import_warnings@.len(),
            views(warnings@) == report.import_warnings@.take(i as int).map_values(|w: ImportWarning| warning_line(w)),
        decreases report.import_warnings.len() - i,
    {
        let w = &report.import_warnings[i];
        let mut v = chars_of("line ");
        push_decimal(&mut v, w.line as u128);
        push_str(&mut v, ": ");
        push_str(&mut v, w.message.as_str());
        let ghost before = warnings@;
        warnings.push(string_of(&v));
        proof {
            let t = report.import_warnings@.take(i + 1).map_values(|w: ImportWarning| warning_line(w));
            assert(views(before).len() == before.len());
            assert(report.import_warnings@.take(i as int).map_values(|w: ImportWarning| warning_line(w)).len() == i);
            assert forall|k: int| 0 <= k < t.len() implies views(warnings@)[k] == t[k] by {
                assert(views(warnings@)[k] == warnings@[k]@);
                if k < i {
                    assert(warnings@[k] == before[k]);
                    assert(views(before)[k] == before[k]@);
                }
            }
            assert(views(warnings@) =~= t);
        }
        i = i + 1;
    }
    assert(report.import_warnings@.take(i as int) =~= report.import_warnings@);
    let ghost head = views(lines@);
    render_section(&mut lines, "migration warnings", warnings);
    render_section(&mut lines, "duplicate chords", report.duplicate_chords.clone());
    render_section(&mut lines, "shadowed bindings", report.shadowed_bindings.clone());
    render_section(&mut lines, "invalid bindings", report.invalid_bindings.clone());
    assert(views(lines@) =~= report_lines(*report));
    join_strings(&lines, "\n")
}

// == Binding sources ==

/// How a path is displayed.
pub uninterp spec fn path_text(p: PathBuf) -> Seq<char>;

/// Trusted: formats the path with `Path::display`; the claim is that the
/// text is `path_text(*p)`.
#[verifier::external_body]
fn display_path(p: &PathBuf) -> (s: String)
    ensures
        s@ == path_text(*p),
{
    p.display().to_string()
}

/// Where the daemon's bindings come from: a TOML file, an sxhkd file and the
/// built-in menu launcher defaults.
#[derive(Debug, Clone)]
pub struct BindingSources {
    pub config: Option<PathBuf>,
    pub sxhkd: Option<PathBuf>,
    pub menu_defaults: bool,
}

/// The labels of the sources in use, in that order.
pub open spec fn source_labels(s: BindingSources) -> Seq<Seq<char>> {
    (match s.config {
        Some(p) => seq!["toml:"@ + path_text(p)],
        None => Seq::empty(),
    }) + (match s.sxhkd {
        Some(p) => seq!["sxhkd:"@ + path_text(p)],
        None => Seq::empty(),
    }) + (if s.menu_defaults { seq!["builtin:menu-defaults"@] } else { Seq::empty() })
}

/// The files among the sources, in that order.
pub open spec fn source_files(s: BindingSources) -> Seq<PathBuf> {
    (match s.config {
        Some(p) => seq![p],
        None => Seq::empty(),
    }) + (match s.sxhkd {
        Some(p) => seq![p],
        None => Seq::empty(),
    })
}

fn prefixed(prefix: &str, p: &PathBuf) -> (s: String)
    ensures
        s@ == prefix@ + path_text(*p),
{
    let mut v = chars_of(prefix);
    let shown = display_path(p);
    push_str(&mut v, shown.as_str());
    string_of(&v)
}

impl BindingSources {
    /// The labels of the sources in use.
    pub fn labels(&self) -> (r: Vec<String>)
        ensures
            views(r@) == source_labels(*self),
    {
        let mut labels: Vec<String> = Vec::new();
        match &self.config {
            Some(path) => labels.push(prefixed("toml:", path)),
            None => {},
        }
        let ghost after_config = views(labels@);
        match &self.sxhkd {
            Some(path) => labels.push(prefixed("sxhkd:", path)),
            None => {},
        }
        let ghost after_sxhkd = views(labels@);
        if self.menu_defaults {
            labels.push(owned("builtin:menu-defaults"));
        }
        proof {
            let want = source_labels(*self);
            assert(views(labels@).len() == labels@.len());
            assert forall|k: int| 0 <= k < want.len() implies views(labels@)[k] == want[k] by {
                assert(views(labels@)[k] == labels@[k]@);
            }
            assert(views(labels@) =~= want);
        }
        labels
    }

    /// The files to watch for changes.
    pub fn watched_paths(&self) -> (r: Vec<PathBuf>)
        ensures
            r@ == source_files(*self),
    {
        let mut paths: Vec<PathBuf> = Vec::new();
        match &self.config {
            Some(path) => paths.push(path.clone()),
            None => {},
        }
        match &self.sxhkd {
            Some(path) => paths.push(path.clone()),
            None => {},
        }
        assert(paths@ =~= source_files(*self));
        paths
    }
}

// == Duplicate chords ==

/// The chord a binding is grouped under.
pub open spec fn chord_of(b: KeyBinding) -> Seq<char> {
    chord_key(b.keysym@, b.trigger)
}

/// The chords of the bindings, each once, in order of first use.
pub open spec fn chords_in_order(bs: Seq<KeyBinding>) -> Seq<Seq<char>>
    decreases bs.len(),
{
    if bs.len() == 0 {
        Seq::empty()
    } else {
        let c = chords_in_order(bs.drop_last());
        let k = chord_of(bs.last());
        if c.contains(k) { c } else { c.push(k) }
    }
}

/// The bindings on a chord, in order.
pub open spec fn on_chord(bs: Seq<KeyBinding>, key: Seq<char>) -> Seq<KeyBinding>
    decreases bs.len(),
{
    if bs.len() == 0 {
        Seq::empty()
    } else {
        let r = on_chord(bs.drop_last(), key);
        if chord_of(bs.last()) == key { r.push(bs.last()) } else { r }
    }
}

/// The names of bindings, in order.
pub open spec fn names_of(bs: Seq<KeyBinding>) -> Seq<Seq<char>> {
    bs.map_values(|b: KeyBinding| b.name@)
}

/// The report line of a chord: the chord and the names bound to it.
pub open spec fn duplicate_line(bs: Seq<KeyBinding>, key: Seq<char>) -> Seq<char> {
    key + ": "@ + join_with(names_of(on_chord(bs, key)), ", "@)
}

/// The lines of the chords among `keys` that more than one binding uses.
pub open spec fn duplicate_lines_for(bs: Seq<KeyBinding>, keys: Seq<Seq<char>>) -> Seq<Seq<char>>
    decreases keys.len(),
{
    if keys.len() == 0 {
        Seq::empty()
    } else {
        let r = duplicate_lines_for(bs, keys.drop_last());
        if on_chord(bs, keys.last()).len() > 1 { r.push(duplicate_line(bs, keys.last())) } else { r }
    }
}

/// A chord is among the chords in order exactly when some binding uses it.
proof fn lemma_chords_in_order(bs: Seq<KeyBinding>, k: Seq<char>)
    ensures
        chords_in_order(bs).contains(k) <==> exists|j: int| 0 <= j < bs.len() && #[trigger] chord_of(bs[j]) == k,
    decreases bs.len(),
{
    if bs.len() > 0 {
        let p = bs.drop_last();
        lemma_chords_in_order(p, k);
        let c = chords_in_order(p);
        let last = chord_of(bs.last());
        if exists|j: int| 0 <= j < bs.len() && #[trigger] chord_of(bs[j]) == k {
            let j = choose|j: int| 0 <= j < bs.len() && #[trigger] chord_of(bs[j]) == k;
            if j < bs.len() - 1 {
                assert(chord_of(p[j]) == k);
                if !c.contains(last) {
                    assert(c.push(last)[c.index_of(k)] == k);
                }
            } else {
                if !c.contains(last) {
                    assert(c.push(last)[c.len() as int] == k);
                }
            }
        }
        if chords_in_order(bs).contains(k) {
            if c.contains(k) {
                let j = choose|j: int| 0 <= j < p.len() && #[trigger] chord_of(p[j]) == k;
                assert(chord_of(bs[j]) == k);
            } else {
                let i = chords_in_order(bs).index_of(k);
                assert(k == last);
                assert(chord_of(bs[bs.len() - 1]) == k);
            }
        }
    }
}

fn chord_text(b: &KeyBinding) -> (v: Vec<char>)
    ensures
        v@ == chord_of(*b),
{
    let k = report_key(b.keysym.as_str(), b.trigger);
    chars_of(k.as_str())
}

/// The names of the bindings on a chord.
fn names_on_chord(bindings: &Vec<KeyBinding>, key: &Vec<char>) -> (r: Vec<String>)
    ensures
        views(r@) == names_of(on_chord(bindings@, key@)),
{
    let mut names: Vec<String> = Vec::new();
    let mut j: usize = 0;
    assert(bindings@.take(0) =~= Seq::<KeyBinding>::empty());
    while j < bindings.len()
        invariant
            j <= bindings@.len(),
            views(names@) == names_of(on_chord(bindings@.take(j as int), key@)),
        decreases bindings.len() - j,
    {
        let c = chord_text(&bindings[j]);
        let ghost before = names@;
        proof {
            assert(bindings@.take(j + 1).drop_last() =~= bindings@.take(j as int));
            assert(bindings@.take(j + 1).last() == bindings@[j as int]);
        }
        if chars_eq(&c, key) {
            names.push(bindings[j].name.clone());
            proof {
                let g = on_chord(bindings@.take(j as int), key@);
                assert(names_of(g.push(bindings@[j as int])) =~= names_of(g).push(bindings@[j as int].name@));
                assert(views(names@) =~= views(before).push(bindings@[j as int].name@));
            }
        }
        j = j + 1;
    }
    assert(bindings@.take(j as int) =~= bindings@);
    names
}

/// Whether the chord of binding `i` is used by an earlier binding.
fn used_before(keys: &Vec<Vec<char>>, i: usize) -> (r: bool)
    requires
        i < keys@.len(),
    ensures
        r == exists|j: int| 0 <= j < i && keys@[j]@ == keys@[i as int]@,
{
    let mut j: usize = 0;
    while j < i
        invariant
            j <= i < keys@.len(),
            forall|k: int| 0 <= k < j ==> keys@[k]@ != keys@[i as int]@,
        decreases i - j,
    {
        if chars_eq(&keys[j], &keys[i]) {
            return true;
        }
        j = j + 1;
    }
    false
}

/// The chords that more than one binding uses, each with the names bound to
/// it, in ascending order.
pub fn duplicate_chord_lines(bindings: &Vec<KeyBinding>) -> (r: Vec<String>)
    ensures
        sorted_strings(views(r@)),
        views(r@).to_multiset() == duplicate_lines_for(bindings@, chords_in_order(bindings@)).to_multiset(),
{
    let ghost bs = bindings@;
    let mut keys: Vec<Vec<char>> = Vec::new();
    let mut k: usize = 0;
    while k < bindings.len()
        invariant
            k <= bindings@.len(),
            keys@.len() == k,
            forall|j: int| 0 <= j < k ==> (#[trigger] keys@[j])@ == chord_of(bindings@[j]),
        decreases bindings.len() - k,
    {
        keys.push(chord_text(&bindings[k]));
        k = k + 1;
    }
    let mut lines: Vec<String> = Vec::new();
    let mut i: usize = 0;
    assert(bs.take(0) =~= Seq::<KeyBinding>::empty());
    while i < bindings.len()
        invariant
            i <= bindings@.len(),
            bs == bindings@,
            keys@.len() == bindings@.len(),
            forall|j: int| 0 <= j < bindings@.len() ==> (#[trigger] keys@[j])@ == chord_of(bindings@[j]),
            views(lines@) == duplicate_lines_for(bs, chords_in_order(bs.take(i as int))),
        decreases bindings.len() - i,
    {
        let seen = used_before(&keys, i);
        let ghost key = keys@[i as int]@;
        proof {
            let t = bs.take(i + 1);
            assert(t.drop_last() =~= bs.take(i as int));
            assert(t.last() == bs[i as int]);
            lemma_chords_in_order(bs.take(i as int), key);
            if seen {
                let j = choose|j: int| 0 <= j < i && keys@[j]@ == keys@[i as int]@;
                assert(chord_of(bs.take(i as int)[j]) == key);
            } else {
                assert forall|j: int| 0 <= j < bs.take(i as int).len() implies #[trigger] chord_of(bs.take(i as int)[j]) != key by {
                    assert(keys@[j]@ == chord_of(bs[j]));
                }
            }
        }
        if !seen {
            let names = names_on_chord(bindings, &keys[i]);
            if names.len() > 1 {
                let joined = join_strings(&names, ", ");
                let mut v: Vec<char> = Vec::new();
                let mut key_chars = keys[i].clone();
                v.append(&mut key_chars);
                push_str(&mut v, ": ");
                push_str(&mut v, joined.as_str());
                let ghost before = lines@;
                lines.push(string_of(&v));
                proof {
                    assert(views(lines@) =~= views(before).push(duplicate_line(bs, key)));
                    let c = chords_in_order(bs.take(i as int));
                    assert(c.push(key).drop_last() =~= c);
                }
            } else {
                proof {
                    let c = chords_in_order(bs.take(i as int));
                    assert(c.push(key).drop_last() =~= c);
                }
            }
        }
        i = i + 1;
    }
    assert(bs.take(i as int) =~= bs);
    sort_strings(lines)
}

// == Shadowed bindings ==

/// Whether `a` sorts before `b` among the bindings of one chord: higher
/// priority first, then consuming bindings, then by name.
pub open spec fn outranks(a: KeyBinding, b: KeyBinding) -> bool {
    a.priority > b.priority
        || (a.priority == b.priority && a.consume && !b.consume)
        || (a.priority == b.priority && a.consume == b.consume && seq_le(a.name@, b.name@) && a.name@ != b.name@)
}

/// The position of the binding that sorts first in a chord's group (the
/// earliest of equally ranked ones).
pub open spec fn best_index(g: Seq<KeyBinding>) -> int
    decreases g.len(),
{
    if g.len() <= 1 {
        0
    } else {
        let i = best_index(g.drop_last());
        if outranks(g.last(), g[i]) { g.len() - 1 } else { i }
    }
}

proof fn lemma_best_index(g: Seq<KeyBinding>)
    requires
        g.len() > 0,
    ensures
        0 <= best_index(g) < g.len(),
    decreases g.len(),
{
    if g.len() > 1 {
        lemma_best_index(g.drop_last());
    }
}

/// The report line of a binding shadowed by the chord's winner.
pub open spec fn shadow_line(b: KeyBinding, winner: KeyBinding, key: Seq<char>) -> Seq<char> {
    b.name@ + " is shadowed by "@ + winner.name@ + " on "@ + key + " (priority "@
        + signed_decimal(b.priority as int) + " <= "@ + signed_decimal(winner.priority as int) + ", consume=true)"@
}

/// The shadow lines of the bindings in `rest` (those not above the winner's
/// priority).
pub open spec fn shadow_lines_of(rest: Seq<KeyBinding>, winner: KeyBinding, key: Seq<char>) -> Seq<Seq<char>>
    decreases rest.len(),
{
    if rest.len() == 0 {
        Seq::empty()
    } else {
        let r = shadow_lines_of(rest.drop_last(), winner, key);
        if winner.priority >= rest.last().priority { r.push(shadow_line(rest.last(), winner, key)) } else { r }
    }
}

/// The shadow lines of one chord: when the binding that sorts first consumes
/// the key, every other binding on the chord is shadowed by it.
pub open spec fn chord_shadow_lines(bs: Seq<KeyBinding>, key: Seq<char>) -> Seq<Seq<char>> {
    let g = on_chord(bs, key);
    if g.len() == 0 {
        Seq::empty()
    } else {
        let w = g[best_index(g)];
        if w.consume { shadow_lines_of(g.remove(best_index(g)), w, key) } else { Seq::empty() }
    }
}

/// The shadow lines of the chords among `keys`, in order.
pub open spec fn shadow_lines_for(bs: Seq<KeyBinding>, keys: Seq<Seq<char>>) -> Seq<Seq<char>>
    decreases keys.len(),
{
    if keys.len() == 0 {
        Seq::empty()
    } else {
        shadow_lines_for(bs, keys.drop_last()) + chord_shadow_lines(bs, keys.last())
    }
}

fn outranks_exec(a: &KeyBinding, b: &KeyBinding) -> (r: bool)
    ensures
        r == outranks(*a, *b),
{
    if a.priority != b.priority {
        return a.priority > b.priority;
    }
    if a.consume != b.consume {
        return a.consume;
    }
    let x = chars_of(a.name.as_str());
    let y = chars_of(b.name.as_str());
    chars_le(&x, &y) && !chars_eq(&x, &y)
}

/// The bindings on a chord, in order.
fn bindings_on_chord(bindings: &Vec<KeyBinding>, key: &Vec<char>) -> (r: Vec<KeyBinding>)
    ensures
        r@ == on_chord(bindings@, key@),
{
    let mut group: Vec<KeyBinding> = Vec::new();
    let mut j: usize = 0;
    assert(bindings@.take(0) =~= Seq::<KeyBinding>::empty());
    while j < bindings.len()
        invariant
            j <= bindings@.len(),
            group@ == on_chord(bindings@.take(j as int), key@),
        decreases bindings.len() - j,
    {
        let c = chord_text(&bindings[j]);
        proof {
            assert(bindings@.take(j + 1).drop_last() =~= bindings@.take(j as int));
            assert(bindings@.take(j + 1).last() == bindings@[j as int]);
        }
        if chars_eq(&c, key) {
            group.push(bindings[j].duplicate());
        }
        j = j + 1;
    }
    assert(bindings@.take(j as int) =~= bindings@);
    group
}

/// The position of the binding that sorts first in a non-empty group.
fn best_position(group: &Vec<KeyBinding>) -> (m: usize)
    requires
        group@.len() > 0,
    ensures
        m as int == best_index(group@),
{
    let mut m: usize = 0;
    let mut i: usize = 1;
    assert(group@.take(1).len() == 1);
    while i < group.len()
        invariant
            1 <= i <= group@.len(),
            m as int == best_index(group@.take(i as int)),
            m < i,
        decreases group.len() - i,
    {
        proof {
            let t = group@.take(i + 1);
            assert(t.drop_last() =~= group@.take(i as int));
            assert(t.last() == group@[i as int]);
            lemma_best_index(group@.take(i as int));
            assert(t[m as int] == group@[m as int]);
        }
        if outranks_exec(&group[i], &group[m]) {
            m = i;
        }
        i = i + 1;
    }
    assert(group@.take(i as int) =~= group@);
    m
}

fn shadow_text(b: &KeyBinding, winner: &KeyBinding, key: &Vec<char>) -> (s: String)
    ensures
        s@ == shadow_line(*b, *winner, key@),
{
    let mut v = chars_of(b.name.as_str());
    push_str(&mut v, " is shadowed by ");
    push_str(&mut v, winner.name.as_str());
    push_str(&mut v, " on ");
    let mut k = key.clone();
    v.append(&mut k);
    push_str(&mut v, " (priority ");
    push_signed(&mut v, b.priority);
    push_str(&mut v, " <= ");
    push_signed(&mut v, winner.priority);
    push_str(&mut v, ", consume=true)");
    string_of(&v)
}

/// Appends the shadow lines of one chord.
fn push_chord_shadow_lines(lines: &mut Vec<String>, bindings: &Vec<KeyBinding>, key: &Vec<char>)
    ensures
        views(final(lines)@) == views(old(lines)@) + chord_shadow_lines(bindings@, key@),
{
    let mut group = bindings_on_chord(bindings, key);
    if group.len() == 0 {
        assert(views(lines@) =~= views(lines@) + chord_shadow_lines(bindings@, key@));
        return;
    }
    let m = best_position(&group);
    proof {
        lemma_best_index(group@);
    }
    let winner = group.remove(m);
    if !winner.consume {
        assert(views(lines@) =~= views(lines@) + chord_shadow_lines(bindings@, key@));
        return;
    }
    let ghost start = views(lines@);
    let ghost rest = group@;
    let mut i: usize = 0;
    assert(rest.take(0) =~= Seq::<KeyBinding>::empty());
    while i < group.len()
        invariant
            i <= group@.len(),
            rest == group@,
            views(lines@) == start + shadow_lines_of(rest.take(i as int), winner, key@),
        decreases group.len() - i,
    {
        proof {
            assert(rest.take(i + 1).drop_last() =~= rest.take(i as int));
            assert(rest.take(i + 1).last() == rest[i as int]);
        }
        if winner.priority >= group[i].priority {
            let ghost before = lines@;
            lines.push(shadow_text(&group[i], &winner, key));
            proof {
                assert(views(lines@) =~= views(before).push(shadow_line(rest[i as int], winner, key@)));
            }
        }
        i = i + 1;
    }
    assert(rest.take(i as int) =~= rest);
}

/// The bindings that a consuming binding with at least their priority hides
/// on the same chord, in ascending order of their report lines.
pub fn shadowed_binding_lines(bindings: &Vec<KeyBinding>) -> (r: Vec<String>)
    ensures
        sorted_strings(views(r@)),
        views(r@).to_multiset() == shadow_lines_for(bindings@, chords_in_order(bindings@)).to_multiset(),
{
    let ghost bs = bindings@;
    let mut keys: Vec<Vec<char>> = Vec::new();
    let mut k: usize = 0;
    while k < bindings.len()
        invariant
            k <= bindings@.len(),
            keys@.len() == k,
            forall|j: int| 0 <= j < k ==> (#[trigger] keys@[j])@ == chord_of(bindings@[j]),
        decreases bindings.len() - k,
    {
        keys.push(chord_text(&bindings[k]));
        k = k + 1;
    }
    let mut lines: Vec<String> = Vec::new();
    let mut i: usize = 0;
    assert(bs.take(0) =~= Seq::<KeyBinding>::empty());
    assert(views(lines@) =~= Seq::<Seq<char>>::empty());
    while i < bindings.len()
        invariant
            i <= bindings@.len(),
            bs == bindings@,
            keys@.len() == bindings@.len(),
            forall|j: int| 0 <= j < bindings@.len() ==> (#[trigger] keys@[j])@ == chord_of(bindings@[j]),
            views(lines@) == shadow_lines_for(bs, chords_in_order(bs.take(i as int))),
        decreases bindings.len() - i,
    {
        let seen = used_before(&keys, i);
        let ghost key = keys@[i as int]@;
        proof {
            let t = bs.take(i + 1);
            assert(t.drop_last() =~= bs.take(i as int));
            assert(t.last() == bs[i as int]);
            lemma_chords_in_order(bs.take(i as int), key);
            if seen {
                let j = choose|j: int| 0 <= j < i && keys@[j]@ == keys@[i as int]@;
                assert(chord_of(bs.take(i as int)[j]) == key);
            } else {
                assert forall|j: int| 0 <= j < bs.take(i as int).len() implies #[trigger] chord_of(bs.take(i as int)[j]) != key by {
                    assert(keys@[j]@ == chord_of(bs[j]));
                }
            }
        }
        if !seen {
            push_chord_shadow_lines(&mut lines, bindings, &keys[i]);
            proof {
                let c = chords_in_order(bs.take(i as int));
                assert(c.push(key).drop_last() =~= c);
            }
        }
        i = i + 1;
    }
    assert(bs.take(i as int) =~= bs);
    sort_strings(lines)
}

// == Invalid bindings and the report ==

/// What the keybinding library reports about one binding: the error of
/// validating its keysym, and for a menu binding the error of parsing its
/// menu action.
#[derive(Debug, Clone, Default)]
pub struct BindingChecks {
    pub keysym_error: Option<String>,
    pub menu_error: Option<String>,
}

/// The text of an optional error.
pub open spec fn error_text(e: Option<String>) -> Option<Seq<char>> {
    match e {
        Some(t) => Some(t@),
        None => None,
    }
}

/// The problems of one binding: an empty (blank) name, keysym or command,
/// a keysym that does not validate, and a menu command that is not a menu
/// action.
pub open spec fn binding_problems(b: KeyBinding, keysym_error: Option<Seq<char>>, menu_error: Option<Seq<char>>) -> Seq<
    Seq<char>,
> {
    let name = b.name@;
    (if trim(name).len() == 0 { seq!["binding has an empty name"@] } else { Seq::empty() })
        + (if trim(b.keysym@).len() == 0 { seq![name + " has an empty keysym"@] } else { Seq::empty() })
        + (if trim(b.command@).len() == 0 { seq![name + " has an empty command"@] } else { Seq::empty() })
        + (match keysym_error {
            Some(e) => seq![name + " has an invalid keysym: "@ + e],
            None => Seq::empty(),
        })
        + (match menu_error {
            Some(e) => if b.command_type == CommandType::Menu { seq![name + ": "@ + e] } else { Seq::empty() },
            None => Seq::empty(),
        })
}

/// The checks of binding `i`; bindings past the end of `checks` have none.
pub open spec fn checks_of(checks: Seq<BindingChecks>, i: int) -> (Option<Seq<char>>, Option<Seq<char>>) {
    if 0 <= i < checks.len() {
        (error_text(checks[i].keysym_error), error_text(checks[i].menu_error))
    } else {
        (None, None)
    }
}

/// The problems of the bindings, binding by binding.
pub open spec fn problems_of(bs: Seq<KeyBinding>, checks: Seq<BindingChecks>) -> Seq<Seq<char>>
    decreases bs.len(),
{
    if bs.len() == 0 {
        Seq::empty()
    } else {
        let (k, m) = checks_of(checks, bs.len() - 1);
        problems_of(bs.drop_last(), checks) + binding_problems(bs.last(), k, m)
    }
}

fn push_joined(lines: &mut Vec<String>, a: &str, b: &str, c: &str)
    ensures
        views(final(lines)@) == views(old(lines)@).push(a@ + b@ + c@),
{
    let mut v: Vec<char> = Vec::new();
    push_str(&mut v, a);
    push_str(&mut v, b);
    push_str(&mut v, c);
    let ghost before = old(lines)@;
    lines.push(string_of(&v));
    assert(views(lines@) =~= views(before).push(a@ + b@ + c@));
}

fn push_pair(lines: &mut Vec<String>, a: &str, b: &str)
    ensures
        views(final(lines)@) == views(old(lines)@).push(a@ + b@),
{
    let mut v: Vec<char> = Vec::new();
    push_str(&mut v, a);
    push_str(&mut v, b);
    let ghost before = old(lines)@;
    lines.push(string_of(&v));
    assert(views(lines@) =~= views(before).push(a@ + b@));
}

fn push_problems(lines: &mut Vec<String>, b: &KeyBinding, keysym_error: Option<&String>, menu_error: Option<&String>)
    ensures
        views(final(lines)@) == views(old(lines)@) + binding_problems(
            *b,
            match keysym_error {
                Some(e) => Some(e@),
                None => None,
            },
            match menu_error {
                Some(e) => Some(e@),
                None => None,
            },
        ),
{
    let ghost before = views(lines@);
    let name = b.name.as_str();
    if trimmed(name).len() == 0 {
        let ghost l = views(lines@);
        lines.push(owned("binding has an empty name"));
        assert(views(lines@) =~= l.push("binding has an empty name"@));
    }
    if trimmed(b.keysym.as_str()).len() == 0 {
        push_pair(lines, name, " has an empty keysym");
    }
    if trimmed(b.command.as_str()).len() == 0 {
        push_pair(lines, name, " has an empty command");
    }
    match keysym_error {
        Some(e) => push_joined(lines, name, " has an invalid keysym: ", e.as_str()),
        None => {},
    }
    if b.command_type == CommandType::Menu {
        match menu_error {
            Some(e) => push_joined(lines, name, ": ", e.as_str()),
            None => {},
        }
    }
    assert(views(lines@) =~= before + binding_problems(
        *b,
        match keysym_error {
            Some(e) => Some(e@),
            None => None,
        },
        match menu_error {
            Some(e) => Some(e@),
            None => None,
        },
    ));
}

/// The problems of the bindings, in ascending order; `checks` holds what
/// the keybinding library reports for each binding, in the same order.
pub fn invalid_binding_lines(bindings: &Vec<KeyBinding>, checks: &Vec<BindingChecks>) -> (r: Vec<String>)
    ensures
        sorted_strings(views(r@)),
        views(r@).to_multiset() == problems_of(bindings@, checks@).to_multiset(),
{
    let mut lines: Vec<String> = Vec::new();
    let mut i: usize = 0;
    assert(views(lines@) =~= Seq::<Seq<char>>::empty());
    assert(bindings@.take(0) =~= Seq::<KeyBinding>::empty());
    while i < bindings.len()
        invariant
            i <= bindings@.len(),
            views(lines@) == problems_of(bindings@.take(i as int), checks@),
        decreases bindings.len() - i,
    {
        let (keysym_error, menu_error) = if i < checks.len() {
            (checks[i].keysym_error.as_ref(), checks[i].menu_error.as_ref())
        } else {
            (None, None)
        };
        proof {
            let (k, m) = checks_of(checks@, i as int);
            assert(k == match keysym_error {
                Some(e) => Some(e@),
                None => None::<Seq<char>>,
            });
            assert(m == match menu_error {
                Some(e) => Some(e@),
                None => None::<Seq<char>>,
            });
            assert(bindings@.take(i + 1).drop_last() =~= bindings@.take(i as int));
            assert(bindings@.take(i + 1).last() == bindings@[i as int]);
        }
        push_problems(&mut lines, &bindings[i], keysym_error, menu_error);
        i = i + 1;
    }
    assert(bindings@.take(i as int) =~= bindings@);
    sort_strings(lines)
}

/// The number of menu bindings among `bs`.
pub open spec fn menu_count(bs: Seq<KeyBinding>) -> nat
    decreases bs.len(),
{
    if bs.len() == 0 {
        0
    } else {
        menu_count(bs.drop_last()) + if bs.last().command_type == CommandType::Menu { 1nat } else { 0nat }
    }
}

proof fn lemma_menu_count_bound(bs: Seq<KeyBinding>)
    ensures
        menu_count(bs) <= bs.len(),
    decreases bs.len(),
{
    if bs.len() > 0 {
        lemma_menu_count_bound(bs.drop_last());
    }
}

/// The report on a set of bindings: their number, how many are managed menu
/// bindings, the duplicate chords, the shadowed bindings and the problems of
/// each binding (`checks` holding what the keybinding library reports for
/// each), with the warnings of importing them.
pub fn analyze_hotkeys(bindings: &Vec<KeyBinding>, checks: &Vec<BindingChecks>, import_warnings: Vec<ImportWarning>) -> (r:
    HotkeyReport)
    ensures
        r.binding_count == bindings@.len(),
        r.managed_menu_count == menu_count(bindings@),
        r.import_warnings@ == import_warnings@,
        sorted_strings(views(r.duplicate_chords@)),
        views(r.duplicate_chords@).to_multiset() == duplicate_lines_for(bindings@, chords_in_order(bindings@)).to_multiset(),
        sorted_strings(views(r.shadowed_bindings@)),
        views(r.shadowed_bindings@).to_multiset() == shadow_lines_for(bindings@, chords_in_order(bindings@)).to_multiset(),
        sorted_strings(views(r.invalid_bindings@)),
        views(r.invalid_bindings@).to_multiset() == problems_of(bindings@, checks@).to_multiset(),
{
    let mut menus: usize = 0;
    let mut i: usize = 0;
    assert(bindings@.take(0) =~= Seq::<KeyBinding>::empty());
    while i < bindings.len()
        invariant
            i <= bindings@.len(),
            menus == menu_count(bindings@.take(i as int)),
        decreases bindings.len() - i,
    {
        proof {
            assert(bindings@.take(i + 1).drop_last() =~= bindings@.take(i as int));
            lemma_menu_count_bound(bindings@.take(i as int));
        }
        if bindings[i].command_type == CommandType::Menu {
            menus = menus + 1;
        }
        i = i + 1;
    }
    assert(bindings@.take(i as int) =~= bindings@);
    HotkeyReport {
        binding_count: bindings.len(),
        managed_menu_count: menus,
        duplicate_chords: duplicate_chord_lines(bindings),
        shadowed_bindings: shadowed_binding_lines(bindings),
        invalid_bindings: invalid_binding_lines(bindings, checks),
        import_warnings: import_warnings,
    }
}

// == Runtime validation ==

/// Backend that reads the keyboard.
#[derive(Debug, Clone, Copy, PartialEq, Eq, Structural)]
pub enum BackendArg {
    X11,
    Evdev,
}

/// The options of the daemon that decide whether it may start.
#[derive(Debug, Clone, Copy, PartialEq, Eq, Structural)]
pub struct RuntimeOptions {
    pub backend: BackendArg,
    pub strict: bool,
    pub grab: bool,
    pub allow_unsafe_evdev_grab: bool,
    pub shadow: bool,
}

pub const NO_BINDINGS_ERROR: &'static str = "no bindings loaded; use --config, --sxhkd, or --menu-defaults";
pub const STRICT_ERROR: &'static str = "strict mode rejected migration warnings or binding conflicts";
pub const X11_GRAB_ERROR: &'static str = "--grab is an evdev-only option; the X11 backend already uses selective passive grabs";
pub const EVDEV_GRAB_ERROR: &'static str = "refusing --grab without --allow-unsafe-evdev-grab: raw evdev grabbing suppresses every key because unmatched events are not re-injected";

/// Whether the report lists any problem.
pub open spec fn report_has_issues(r: HotkeyReport) -> bool {
    r.import_warnings@.len() > 0 || r.duplicate_chords@.len() > 0 || r.shadowed_bindings@.len() > 0
        || r.invalid_bindings@.len() > 0
}

/// Why the daemon refuses to start, checked in this order: no bindings;
/// invalid bindings (listed, joined by `; `); problems in strict mode;
/// `--grab` with the X11 backend; `--grab` with evdev, neither allowed as
/// unsafe nor in shadow mode.
pub open spec fn runtime_refusal(options: RuntimeOptions, binding_count: nat, report: HotkeyReport) -> Option<Seq<char>> {
    if binding_count == 0 {
        Some(NO_BINDINGS_ERROR@)
    } else if report.invalid_bindings@.len() > 0 {
        Some("invalid bindings: "@ + join_with(views(report.invalid_bindings@), "; "@))
    } else if options.strict && report_has_issues(report) {
        Some(STRICT_ERROR@)
    } else if options.backend == BackendArg::X11 && options.grab {
        Some(X11_GRAB_ERROR@)
    } else if options.backend == BackendArg::Evdev && options.grab && !options.allow_unsafe_evdev_grab
        && !options.shadow {
        Some(EVDEV_GRAB_ERROR@)
    } else {
        None
    }
}

/// Whether the daemon may start with these options, bindings and report.
pub fn runtime_validation_error(options: RuntimeOptions, bindings: &Vec<KeyBinding>, report: &HotkeyReport) -> (r: Result<
    (),
    String,
>)
    ensures
        match r {
            Ok(()) => runtime_refusal(options, bindings@.len(), *report) is None,
            Err(e) => runtime_refusal(options, bindings@.len(), *report) == Some(e@),
        },
{
    if bindings.len() == 0 {
        return Err(owned(NO_BINDINGS_ERROR));
    }
    if report.invalid_bindings.len() > 0 {
        let joined = join_strings(&report.invalid_bindings, "; ");
        let mut v: Vec<char> = Vec::new();
        push_str(&mut v, "invalid bindings: ");
        push_str(&mut v, joined.as_str());
        return Err(string_of(&v));
    }
    if options.strict && report.has_issues() {
        return Err(owned(STRICT_ERROR));
    }
    if options.backend == BackendArg::X11 && options.grab {
        return Err(owned(X11_GRAB_ERROR));
    }
    if options.backend == BackendArg::Evdev && options.grab && !options.allow_unsafe_evdev_grab && !options.shadow {
        return Err(owned(EVDEV_GRAB_ERROR));
    }
    Ok(())
}

// == Control requests ==

/// A request to a running daemon over its control socket.
#[derive(Debug, Clone, PartialEq, Eq)]
pub enum ControlRequest {
    Status,
    Ping,
    Reload,
    Shutdown,
    Menu { action: String },
}

/// The command-line flags that ask a running daemon for something.
#[derive(Debug, Clone, Default)]
pub struct ControlFlags {
    pub status: bool,
    pub ping: bool,
    pub reload: bool,
    pub shutdown: bool,
    pub menu_action: Option<String>,
}

pub const ONE_REQUEST_ERROR: &'static str = "choose only one of --status, --ping, --reload, --shutdown, or --menu-action";

/// How many of the request flags are given.
pub open spec fn flag_count(f: ControlFlags) -> nat {
    (if f.status { 1nat } else { 0nat }) + (if f.ping { 1nat } else { 0nat }) + (if f.reload { 1nat } else { 0nat })
        + (if f.shutdown { 1nat } else { 0nat }) + (if f.menu_action is Some { 1nat } else { 0nat })
}

/// The request that the flags ask for: more than one is an error; else the
/// one given, or none.
pub open spec fn requested(f: ControlFlags) -> Result<Option<ControlRequest>, Seq<char>> {
    if flag_count(f) > 1 {
        Err(ONE_REQUEST_ERROR@)
    } else if f.status {
        Ok(Some(ControlRequest::Status))
    } else if f.ping {
        Ok(Some(ControlRequest::Ping))
    } else if f.reload {
        Ok(Some(ControlRequest::Reload))
    } else if f.shutdown {
        Ok(Some(ControlRequest::Shutdown))
    } else {
        match f.menu_action {
            Some(a) => Ok(Some(ControlRequest::Menu { action: a })),
            None => Ok(None),
        }
    }
}

/// The request that the command-line flags ask a running daemon for.
pub fn client_request(flags: &ControlFlags) -> (r: Result<Option<ControlRequest>, String>)
    ensures
        match r {
            Ok(q) => requested(*flags) == Ok::<Option<ControlRequest>, Seq<char>>(q),
            Err(e) => requested(*flags) == Err::<Option<ControlRequest>, Seq<char>>(e@),
        },
{
    let mut count: usize = 0;
    if flags.status {
        count = count + 1;
    }
    if flags.ping {
        count = count + 1;
    }
    if flags.reload {
        count = count + 1;
    }
    if flags.shutdown {
        count = count + 1;
    }
    if flags.menu_action.is_some() {
        count = count + 1;
    }
    if count > 1 {
        return Err(owned(ONE_REQUEST_ERROR));
    }
    if flags.status {
        Ok(Some(ControlRequest::Status))
    } else if flags.ping {
        Ok(Some(ControlRequest::Ping))
    } else if flags.reload {
        Ok(Some(ControlRequest::Reload))
    } else if flags.shutdown {
        Ok(Some(ControlRequest::Shutdown))
    } else {
        match &flags.menu_action {
            Some(a) => Ok(Some(ControlRequest::Menu { action: a.clone() })),
            None => Ok(None),
        }
    }
}

// == i3 export ==

/// An export refusal: the message and the exit status.
#[derive(Debug, Clone, PartialEq, Eq)]
pub struct ExportRefusal {
    pub message: String,
    pub status: i32,
}

pub const RELOAD_NEEDS_WRITE_ERROR: &'static str = "--reload-i3 requires --write-i3-bindings FILE";
pub const STRICT_EXPORT_ERROR: &'static str = "strict mode rejected i3 export warnings or conflicts";
pub const NOTHING_EXPORTED_ERROR: &'static str = "no bindings could be represented safely by i3";

/// Why the export may not start, checked in this order: reloading i3
/// without a file to write, no bindings, invalid bindings (listed, joined by
/// `; `); all with status 2.
pub open spec fn export_precheck(reload_i3: bool, writes_file: bool, binding_count: nat, invalid: Seq<Seq<char>>) -> Option<
    (Seq<char>, i32),
> {
    if reload_i3 && !writes_file {
        Some((RELOAD_NEEDS_WRITE_ERROR@, 2))
    } else if binding_count == 0 {
        Some((NO_BINDINGS_ERROR@, 2))
    } else if invalid.len() > 0 {
        Some(("cannot export invalid bindings: "@ + join_with(invalid, "; "@), 2))
    } else {
        None
    }
}

/// Whether the export may start.
pub fn i3_export_precheck(reload_i3: bool, writes_file: bool, binding_count: usize, invalid_bindings: &Vec<String>) -> (r:
    Result<(), ExportRefusal>)
    ensures
        match r {
            Ok(()) => export_precheck(reload_i3, writes_file, binding_count as nat, views(invalid_bindings@)) is None,
            Err(e) => export_precheck(reload_i3, writes_file, binding_count as nat, views(invalid_bindings@)) == Some(
                (e.message@, e.status),
            ),
        },
{
    if reload_i3 && !writes_file {
        return Err(ExportRefusal { message: owned(RELOAD_NEEDS_WRITE_ERROR), status: 2 });
    }
    if binding_count == 0 {
        return Err(ExportRefusal { message: owned(NO_BINDINGS_ERROR), status: 2 });
    }
    if invalid_bindings.len() > 0 {
        let joined = join_strings(invalid_bindings, "; ");
        let mut v: Vec<char> = Vec::new();
        push_str(&mut v, "cannot export invalid bindings: ");
        push_str(&mut v, joined.as_str());
        return Err(ExportRefusal { message: string_of(&v), status: 2 });
    }
    Ok(())
}

/// Whether the rendered export may be used: in strict mode any problem of
/// the report, any export warning or any conflict or gap of the i3 audit
/// refuses it (status 3); an export that represents no binding is refused
/// (status 2).
pub open spec fn export_verdict(
    strict: bool,
    report_has_problems: bool,
    export_warning_count: nat,
    audit_has_problems: bool,
    exported_count: nat,
) -> Option<(Seq<char>, i32)> {
    if strict && (report_has_problems || export_warning_count > 0 || audit_has_problems) {
        Some((STRICT_EXPORT_ERROR@, 3))
    } else if exported_count == 0 {
        Some((NOTHING_EXPORTED_ERROR@, 2))
    } else {
        None
    }
}

/// Whether the rendered export may be used.
pub fn i3_export_verdict(
    strict: bool,
    report: &HotkeyReport,
    export_warning_count: usize,
    audit_has_problems: bool,
    exported_count: usize,
) -> (r: Result<(), ExportRefusal>)
    ensures
        match r {
            Ok(()) => export_verdict(
                strict,
                report_has_issues(*report),
                export_warning_count as nat,
                audit_has_problems,
                exported_count as nat,
            ) is None,
            Err(e) => export_verdict(
                strict,
                report_has_issues(*report),
                export_warning_count as nat,
                audit_has_problems,
                exported_count as nat,
            ) == Some((e.message@, e.status)),
        },
{
    if strict && (report.has_issues() || export_warning_count > 0 || audit_has_problems) {
        return Err(ExportRefusal { message: owned(STRICT_EXPORT_ERROR), status: 3 });
    }
    if exported_count == 0 {
        return Err(ExportRefusal { message: owned(NOTHING_EXPORTED_ERROR), status: 2 });
    }
    Ok(())
}

/// The warnings printed before an export: each import warning with its
/// sxhkd line, then the export's own warnings.
pub open spec fn export_warning_lines(imports: Seq<ImportWarning>, export_warnings: Seq<Seq<char>>) -> Seq<Seq<char>> {
    imports.map_values(|w: ImportWarning| "sxhkd line "@ + decimal(w.line as nat) + ": "@ + w.message@)
        + export_warnings
}

/// The warnings printed before an export.
pub fn i3_export_warnings(imports: &Vec<ImportWarning>, export_warnings: &Vec<String>) -> (r: Vec<String>)
    ensures
        views(r@) == export_warning_lines(imports@, views(export_warnings@)),
{
    let mut out: Vec<String> = Vec::new();
    let mut i: usize = 0;
    while i < imports.len()
        invariant
            i <= imports@.len(),
            views(out@) == imports@.take(i as int).map_values(
                |w: ImportWarning| "sxhkd line "@ + decimal(w.line as nat) + ": "@ + w.message@,
            ),
        decreases imports.len() - i,
    {
        let w = &imports[i];
        let mut v: Vec<char> = Vec::new();
        push_str(&mut v, "sxhkd line ");
        push_decimal(&mut v, w.line as u128);
        push_str(&mut v, ": ");
        push_str(&mut v, w.message.as_str());
        let ghost before = out@;
        let line = string_of(&v);
        out.push(line);
        assert(views(out@) =~= views(before).push(line@));
        assert(imports@.take(i + 1) =~= imports@.take(i as int).push(*w));
        assert(views(out@) =~= imports@.take(i + 1).map_values(
            |w: ImportWarning| "sxhkd line "@ + decimal(w.line as nat) + ": "@ + w.message@,
        ));
        i = i + 1;
    }
    assert(imports@.take(i as int) =~= imports@);
    let mut k: usize = 0;
    let ghost head = views(out@);
    while k < export_warnings.len()
        invariant
            k <= export_warnings@.len(),
            views(out@) == head + views(export_warnings@).take(k as int),
        decreases export_warnings.len() - k,
    {
        let ghost before = out@;
        let line = owned(export_warnings[k].as_str());
        out.push(line);
        assert(views(out@) =~= views(before).push(line@));
        assert(views(export_warnings@).take(k + 1) =~= views(export_warnings@).take(k as int).push(
            export_warnings@[k as int]@,
        ));
        assert(views(out@) =~= head + views(export_warnings@).take(k + 1));
        k = k + 1;
    }
    assert(views(export_warnings@).take(k as int) =~= views(export_warnings@));
    out
}

/// The name of the temporary file that an atomic write goes through:
/// hidden, after the target's file name (or `i3-bindings`), with the
/// process id.
pub open spec fn temporary_name(file_name: Option<Seq<char>>, pid: u32) -> Seq<char> {
    "."@ + match file_name {
        Some(n) => n,
        None => "i3-bindings"@,
    } + ".tmp-"@ + decimal(pid as nat)
}

/// The name of the temporary file that an atomic write goes through.
pub fn atomic_temporary_name(file_name: Option<&str>, pid: u32) -> (r: String)
    ensures
        r@ == temporary_name(
            match file_name {
                Some(n) => Some(n@),
                None => None,
            },
            pid,
        ),
{
    let mut v: Vec<char> = Vec::new();
    push_str(&mut v, ".");
    match file_name {
        Some(n) => push_str(&mut v, n),
        None => push_str(&mut v, "i3-bindings"),
    }
    push_str(&mut v, ".tmp-");
    push_decimal(&mut v, pid as u128);
    string_of(&v)
}

/// The clipboard picker's launchers are its menu toggle: a command whose
/// program is `unilii-copyq` or `deskhalloumi-copyq`, run bare or with the
/// single argument `--i3-shortcut`, stands for `toggle:copyq`.
pub proof fn copyq_launchers_toggle_copyq(command: Seq<char>, exe: Seq<char>)
    requires
        ws_tokens(command).len() == 1 || (ws_tokens(command).len() == 2 && ws_tokens(command)[1] == "--i3-shortcut"@),
        path_file_name(ws_tokens(command)[0]) == Some(exe),
        exe == "unilii-copyq"@ || exe == "deskhalloumi-copyq"@,
    ensures
        known_menu_action(command) == Some("toggle:copyq"@),
{
    reveal_strlit("unilii-copyq");
    reveal_strlit("deskhalloumi-copyq");
    reveal_strlit("unilii-i3-vis");
    reveal_strlit("deskhalloumi-i3-vis");
    reveal_strlit("unilii-filter-tab");
    reveal_strlit("deskhalloumi-filter-tab");
    assert(exe != "unilii-i3-vis"@ && exe != "deskhalloumi-i3-vis"@) by {
        assert(exe.len() == 12 || exe.len() == 18);
    }
    assert(exe != "unilii-filter-tab"@ && exe != "deskhalloumi-filter-tab"@) by {
        assert(exe.len() == 12 || exe.len() == 18);
    }
    let rest = ws_tokens(command).skip(1);
    if ws_tokens(command).len() == 2 {
        assert(rest =~= seq!["--i3-shortcut"@]);
    } else {
        assert(rest.len() == 0);
    }
}

/// The two names of each launcher are treated alike: two commands with the
/// same arguments whose programs are the `unilii-` and `deskhalloumi-` names
/// of the same popup stand for the same menu action.
pub proof fn launcher_names_are_alike(c1: Seq<char>, c2: Seq<char>, popup: Seq<char>)
    requires
        popup == "copyq"@ || popup == "i3-vis"@ || popup == "filter-tab"@,
        ws_tokens(c1).len() > 0,
        ws_tokens(c2).len() > 0,
        ws_tokens(c1).skip(1) == ws_tokens(c2).skip(1),
        path_file_name(ws_tokens(c1)[0]) == Some("unilii-"@ + popup),
        path_file_name(ws_tokens(c2)[0]) == Some("deskhalloumi-"@ + popup),
    ensures
        known_menu_action(c1) == known_menu_action(c2),
        known_menu_action(c1) is Some <==> (ws_tokens(c1).len() == 1
            || (popup == "copyq"@ && ws_tokens(c1).len() == 2 && ws_tokens(c1)[1] == "--i3-shortcut"@)),
{
    reveal_strlit("unilii-");
    reveal_strlit("deskhalloumi-");
    reveal_strlit("copyq");
    reveal_strlit("i3-vis");
    reveal_strlit("filter-tab");
    reveal_strlit("unilii-copyq");
    reveal_strlit("deskhalloumi-copyq");
    reveal_strlit("unilii-i3-vis");
    reveal_strlit("deskhalloumi-i3-vis");
    reveal_strlit("unilii-filter-tab");
    reveal_strlit("deskhalloumi-filter-tab");
    reveal_strlit("--i3-shortcut");
    assert("unilii-"@ + "copyq"@ =~= "unilii-copyq"@);
    assert("unilii-"@ + "i3-vis"@ =~= "unilii-i3-vis"@);
    assert("unilii-"@ + "filter-tab"@ =~= "unilii-filter-tab"@);
    assert("deskhalloumi-"@ + "copyq"@ =~= "deskhalloumi-copyq"@);
    assert("deskhalloumi-"@ + "i3-vis"@ =~= "deskhalloumi-i3-vis"@);
    assert("deskhalloumi-"@ + "filter-tab"@ =~= "deskhalloumi-filter-tab"@);
    let rest = ws_tokens(c1).skip(1);
    if ws_tokens(c1).len() == 2 {
        if ws_tokens(c1)[1] == "--i3-shortcut"@ {
            assert(rest =~= seq!["--i3-shortcut"@]);
        }
        if rest == seq!["--i3-shortcut"@] {
            assert(ws_tokens(c1)[1] == rest[0]);
        }
    }
    if rest == seq!["--i3-shortcut"@] {
        assert(rest.len() == 1);
    }
}

} // verus!
