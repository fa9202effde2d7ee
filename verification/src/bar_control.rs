//! Pure state transitions for runtime bar controls: hiding, focusing and
//! reloading modules.

use vstd::prelude::*;
use crate::names::{contains_name, distinct_names, lemma_views_push, lemma_views_remove, name_set, position_of, views};
use crate::text::{chars_eq_ignore_case, chars_of, decimal, eq_ignore_ascii_case, owned, push_decimal, push_str, str_eq, string_of, trim, trimmed};

verus! {

/// Runtime visibility, focus, status line and reload generation of the bar.
#[derive(Debug)]
pub struct BarControlState {
    hidden_modules: Vec<String>,
    focused_module: Option<String>,
    status: Option<String>,
    reload_generation: u64,
}

/// The character view of an optional string.
pub open spec fn opt_view(o: Option<String>) -> Option<Seq<char>> {
    match o {
        Some(s) => Some(s@),
        None => None,
    }
}

/// The hidden set after toggling `module`.
pub open spec fn toggled(hidden: Set<Seq<char>>, module: Seq<char>) -> Set<Seq<char>> {
    if hidden.contains(module) {
        hidden.remove(module)
    } else {
        hidden.insert(module)
    }
}

/// The generation that follows `g`: one more, wrapping past the maximum to one.
pub open spec fn next_generation(g: u64) -> u64 {
    if g == u64::MAX { 1 } else { (g + 1) as u64 }
}

/// Whether `name` names a module of `available` when case is ignored.
pub open spec fn names_module(available: Seq<String>, k: int, name: Seq<char>) -> bool {
    0 <= k < available.len() && eq_ignore_ascii_case(available[k]@, name)
}

/// The result of resolving a requested module name against the available ones:
/// the trimmed request must be non-empty, and the first available name equal
/// to it ignoring ASCII case is chosen.
pub open spec fn resolves_to(available: Seq<String>, requested: Seq<char>, r: Result<String, String>) -> bool {
    let wanted = trim(requested);
    match r {
        Ok(m) => wanted.len() > 0 && exists|k: int|
            #[trigger] names_module(available, k, wanted) && m@ == available[k]@
                && forall|j: int| 0 <= j < k ==> !names_module(available, j, wanted),
        Err(e) => if wanted.len() == 0 {
            e@ == "module name must not be empty"@
        } else {
            (forall|k: int| !#[trigger] names_module(available, k, wanted))
                && e@ == "unknown module '"@ + wanted + "'"@
        },
    }
}

impl BarControlState {
    /// The internal invariant: no module is recorded as hidden twice, and
    /// the focused module, if any, is not hidden.
    pub closed spec fn wf(&self) -> bool {
        &&& distinct_names(self.hidden_modules@)
        &&& match self.focused_module {
            Some(f) => !name_set(self.hidden_modules@).contains(f@),
            None => true,
        }
    }

    /// The hidden modules.
    pub closed spec fn hidden(&self) -> Set<Seq<char>> {
        name_set(self.hidden_modules@)
    }

    /// The focused module, if any.
    pub closed spec fn focused(&self) -> Option<Seq<char>> {
        opt_view(self.focused_module)
    }

    /// The status message, if any.
    pub closed spec fn status_view(&self) -> Option<Seq<char>> {
        opt_view(self.status)
    }

    /// The reload generation.
    pub closed spec fn generation(&self) -> u64 {
        self.reload_generation
    }

    /// A state with nothing hidden, nothing focused, no status and generation zero.
    pub fn new() -> (s: Self)
        ensures
            s.wf(),
            s.hidden() == Set::<Seq<char>>::empty(),
            s.focused() == None::<Seq<char>>,
            s.status_view() == None::<Seq<char>>,
            s.generation() == 0,
    {
        let s = BarControlState {
            hidden_modules: Vec::new(),
            focused_module: None,
            status: None,
            reload_generation: 0,
        };
        assert(name_set(s.hidden_modules@) =~= Set::<Seq<char>>::empty());
        s
    }

    pub fn is_hidden(&self, module: &str) -> (r: bool)
        ensures
            r == self.hidden().contains(module@),
    {
        contains_name(&self.hidden_modules, module)
    }

    pub fn is_focused(&self, module: &str) -> (r: bool)
        ensures
            r == (self.focused() == Some(module@)),
    {
        match &self.focused_module {
            Some(f) => str_eq(f.as_str(), module),
            None => false,
        }
    }

    pub fn status(&self) -> (r: Option<&str>)
        ensures
            match r {
                Some(s) => self.status_view() == Some(s@),
                None => self.status_view() is None,
            },
    {
        match &self.status {
            Some(s) => Some(s.as_str()),
            None => None,
        }
    }

    pub fn dismiss_status(&mut self)
        requires
            old(self).wf(),
        ensures
            final(self).wf(),
            final(self).status_view() is None,
            final(self).hidden() == old(self).hidden(),
            final(self).focused() == old(self).focused(),
            final(self).generation() == old(self).generation(),
    {
        self.status = None;
    }

    pub fn set_status(&mut self, message: String)
        requires
            old(self).wf(),
        ensures
            final(self).wf(),
            final(self).status_view() == Some(message@),
            final(self).hidden() == old(self).hidden(),
            final(self).focused() == old(self).focused(),
            final(self).generation() == old(self).generation(),
    {
        self.status = Some(message);
    }

    /// Starts a new reload and returns its generation, which is never zero.
    pub fn begin_reload(&mut self) -> (g: u64)
        requires
            old(self).wf(),
        ensures
            final(self).wf(),
            g == next_generation(old(self).generation()),
            final(self).generation() == g,
            g >= 1,
            final(self).hidden() == old(self).hidden(),
            final(self).focused() == old(self).focused(),
            final(self).status_view() == old(self).status_view(),
    {
        let next = if self.reload_generation == u64::MAX { 0 } else { self.reload_generation + 1 };
        self.reload_generation = if next < 1 { 1 } else { next };
        self.reload_generation
    }

    pub fn is_current_reload(&self, generation: u64) -> (r: bool)
        ensures
            r == (generation == self.generation()),
    {
        generation == self.reload_generation
    }

    /// Hides a visible module or shows a hidden one. Returns whether the module
    /// is visible afterwards; hiding the focused module clears the focus.
    /// An unknown or empty name is refused and leaves the state unchanged.
    pub fn toggle_module(&mut self, available: &Vec<String>, requested: &str) -> (r: Result<bool, String>)
        requires
            old(self).wf(),
        ensures
            final(self).wf(),
            final(self).generation() == old(self).generation(),
            match r {
                Ok(visible) => exists|m: String| {
                    &&& #[trigger] resolves_to(available@, requested@, Ok(m))
                    &&& visible == old(self).hidden().contains(m@)
                    &&& final(self).hidden() == toggled(old(self).hidden(), m@)
                    &&& final(self).focused() == if !visible && old(self).focused() == Some(m@) {
                        None
                    } else {
                        old(self).focused()
                    }
                    &&& final(self).status_view() == Some(
                        (if visible { "Shown "@ } else { "Hidden "@ }) + m@)
                },
                Err(e) => resolves_to(available@, requested@, Err(e))
                    && final(self).hidden() == old(self).hidden()
                    && final(self).focused() == old(self).focused()
                    && final(self).status_view() == old(self).status_view(),
            },
    {
        let module = match resolve_module_name(available, requested) {
            Ok(m) => m,
            Err(e) => return Err(e),
        };
        let ghost m = module;
        let pos = position_of(&self.hidden_modules, module.as_str());
        let visible = match pos {
            Some(i) => {
                proof {
                    lemma_views_remove(self.hidden_modules@, i as int);
                    assert(views(self.hidden_modules@)[i as int] == module@);
                }
                self.hidden_modules.remove(i);
                true
            },
            None => {
                proof {
                    assert forall|k: int| 0 <= k < views(self.hidden_modules@).len()
                        implies views(self.hidden_modules@)[k] != module@ by {
                        assert(views(self.hidden_modules@)[k] == self.hidden_modules@[k]@);
                    }
                    lemma_views_push(self.hidden_modules@, module);
                }
                let focused_here = match &self.focused_module {
                    Some(f) => str_eq(f.as_str(), module.as_str()),
                    None => false,
                };
                self.hidden_modules.push(module.clone());
                if focused_here {
                    self.focused_module = None;
                }
                false
            },
        };
        let mut msg: Vec<char> = Vec::new();
        if visible {
            push_str(&mut msg, "Shown ");
        } else {
            push_str(&mut msg, "Hidden ");
        }
        push_str(&mut msg, module.as_str());
        self.status = Some(string_of(&msg));
        Ok(visible)
    }

    /// Shows and focuses a module. Returns its canonical name.
    /// An unknown or empty name is refused and leaves the state unchanged.
    pub fn focus_module(&mut self, available: &Vec<String>, requested: &str) -> (r: Result<String, String>)
        requires
            old(self).wf(),
        ensures
            final(self).wf(),
            final(self).generation() == old(self).generation(),
            match r {
                Ok(m) => resolves_to(available@, requested@, Ok(m))
                    && final(self).hidden() == old(self).hidden().remove(m@)
                    && final(self).focused() == Some(m@)
                    && final(self).status_view() == Some("Focused "@ + m@),
                Err(e) => resolves_to(available@, requested@, Err(e))
                    && final(self).hidden() == old(self).hidden()
                    && final(self).focused() == old(self).focused()
                    && final(self).status_view() == old(self).status_view(),
            },
    {
        let module = match resolve_module_name(available, requested) {
            Ok(m) => m,
            Err(e) => return Err(e),
        };
        let pos = position_of(&self.hidden_modules, module.as_str());
        match pos {
            Some(i) => {
                proof {
                    lemma_views_remove(self.hidden_modules@, i as int);
                }
                self.hidden_modules.remove(i);
            },
            None => {
                proof {
                    assert(name_set(self.hidden_modules@) =~= name_set(self.hidden_modules@).remove(module@)) by {
                        if name_set(self.hidden_modules@).contains(module@) {
                            let k = choose|k: int| 0 <= k < views(self.hidden_modules@).len()
                                && views(self.hidden_modules@)[k] == module@;
                            assert(self.hidden_modules@[k]@ == module@);
                        }
                    }
                }
            },
        }
        self.focused_module = Some(module.clone());
        let mut msg: Vec<char> = Vec::new();
        push_str(&mut msg, "Focused ");
        push_str(&mut msg, module.as_str());
        self.status = Some(string_of(&msg));
        Ok(module)
    }

    /// Shows every hidden module and returns how many were hidden.
    pub fn show_all_modules(&mut self) -> (n: usize)
        requires
            old(self).wf(),
        ensures
            final(self).wf(),
            n == old(self).hidden().len(),
            final(self).hidden() == Set::<Seq<char>>::empty(),
            final(self).focused() == old(self).focused(),
            final(self).generation() == old(self).generation(),
            final(self).status_view() == Some(if n == 0 {
                "All modules are already visible"@
            } else {
                "Shown "@ + decimal(n as nat) + " hidden module(s)"@
            }),
    {
        let shown = self.hidden_modules.len();
        proof {
            views(self.hidden_modules@).unique_seq_to_set();
        }
        self.hidden_modules = Vec::new();
        proof {
            assert(name_set(self.hidden_modules@) =~= Set::<Seq<char>>::empty());
        }
        if shown == 0 {
            self.status = Some(owned("All modules are already visible"));
        } else {
            let mut msg: Vec<char> = Vec::new();
            push_str(&mut msg, "Shown ");
            push_decimal(&mut msg, shown as u128);
            push_str(&mut msg, " hidden module(s)");
            self.status = Some(string_of(&msg));
        }
        shown
    }

    /// Clears the module focus; returns whether a module was focused.
    pub fn clear_module_focus(&mut self) -> (cleared: bool)
        requires
            old(self).wf(),
        ensures
            final(self).wf(),
            cleared == (old(self).focused() is Some),
            final(self).focused() is None,
            final(self).hidden() == old(self).hidden(),
            final(self).generation() == old(self).generation(),
            final(self).status_view() == Some(if cleared {
                "Cleared module focus"@
            } else {
                "No module is focused"@
            }),
    {
        let cleared = self.focused_module.is_some();
        self.focused_module = None;
        self.status = Some(if cleared {
            owned("Cleared module focus")
        } else {
            owned("No module is focused")
        });
        cleared
    }
}

impl Default for BarControlState {
    fn default() -> (s: Self)
        ensures
            s.wf(),
            s.hidden() == Set::<Seq<char>>::empty(),
            s.focused() == None::<Seq<char>>,
            s.status_view() == None::<Seq<char>>,
            s.generation() == 0,
    {
        BarControlState::new()
    }
}

/// Resolves a requested module name: the request is trimmed, must not be
/// empty, and is matched against the available names ignoring ASCII case.
pub fn resolve_module_name(available: &Vec<String>, requested: &str) -> (r: Result<String, String>)
    ensures
        resolves_to(available@, requested@, r),
{
    let wanted = trimmed(requested);
    if wanted.len() == 0 {
        return Err(owned("module name must not be empty"));
    }
    let mut k: usize = 0;
    while k < available.len()
        invariant
            k <= available.len(),
            wanted@ == trim(requested@),
            wanted@.len() > 0,
            forall|j: int| 0 <= j < k ==> !names_module(available@, j, wanted@),
        decreases available.len() - k,
    {
        let candidate = chars_of(available[k].as_str());
        if chars_eq_ignore_case(&candidate, &wanted) {
            let found = available[k].clone();
            assert(names_module(available@, k as int, wanted@));
            return Ok(found);
        }
        k = k + 1;
    }
    let mut msg: Vec<char> = Vec::new();
    push_str(&mut msg, "unknown module '");
    let mut rest = wanted;
    msg.append(&mut rest);
    push_str(&mut msg, "'");
    Err(string_of(&msg))
}

/// Toggling the same module twice leaves the hidden set as it was.
pub proof fn toggle_twice_restores(hidden: Set<Seq<char>>, module: Seq<char>)
    ensures
        toggled(toggled(hidden, module), module) == hidden,
{
    if hidden.contains(module) {
        assert(toggled(toggled(hidden, module), module) =~= hidden);
    } else {
        assert(toggled(toggled(hidden, module), module) =~= hidden);
    }
}

/// A focused module is never hidden: every state reached from a new or
/// default state through the control methods keeps the focused module
/// visible.
pub proof fn focused_module_is_never_hidden(s: BarControlState, m: Seq<char>)
    requires
        s.wf(),
        s.focused() == Some(m),
    ensures
        !s.hidden().contains(m),
{
}

/// A new reload generation always differs from the one before it, so an
/// older reload result is never taken for the current one.
pub proof fn newer_generation_supersedes(g: u64)
    ensures
        next_generation(g) != g,
        next_generation(g) >= 1,
{
}

// == Live reload ==

/// The parts of a reloaded configuration that only take effect after a
/// restart, in this order: panel geometry, module topology, embedded
/// hotkeys, each when it changed.
pub open spec fn restart_reasons(panels_changed: bool, modules_changed: bool, keybindings_changed: bool) -> Seq<Seq<char>> {
    (if panels_changed { seq!["panel geometry"@] } else { Seq::empty() }) + (if modules_changed {
        seq!["module topology"@]
    } else {
        Seq::empty()
    }) + (if keybindings_changed { seq!["embedded hotkeys"@] } else { Seq::empty() })
}

/// The parts of a reloaded configuration that need a restart.
pub fn restart_required(panels_changed: bool, modules_changed: bool, keybindings_changed: bool) -> (r: Vec<&'static str>)
    ensures
        r@.map_values(|t: &'static str| t@) == restart_reasons(panels_changed, modules_changed, keybindings_changed),
{
    let mut r: Vec<&'static str> = Vec::new();
    if panels_changed {
        r.push("panel geometry");
    }
    let ghost a = r@;
    if modules_changed {
        r.push("module topology");
    }
    let ghost b = r@;
    if keybindings_changed {
        r.push("embedded hotkeys");
    }
    assert(r@.map_values(|t: &'static str| t@) =~= restart_reasons(panels_changed, modules_changed, keybindings_changed));
    r
}

/// Whether two parts of a configuration differ, judged by their
/// serializations: when either could not be serialized, they are taken to
/// differ.
pub open spec fn serializations_differ<E>(left: Result<String, E>, right: Result<String, E>) -> bool {
    match (left, right) {
        (Ok(l), Ok(r)) => l@ != r@,
        _ => true,
    }
}

/// Whether two parts of a configuration differ, by their serializations.
pub fn serialized_changed<E>(left: &Result<String, E>, right: &Result<String, E>) -> (r: bool)
    ensures
        r == serializations_differ(*left, *right),
{
    match (left, right) {
        (Ok(l), Ok(r)) => !str_eq(l.as_str(), r.as_str()),
        _ => true,
    }
}

} // verus!
