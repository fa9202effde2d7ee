//! The confirmable actions of the bar's system menu: the commands behind
//! its power and session entries, and the configured extra entries.

use vstd::prelude::*;
use crate::text::{chars_of, has_prefix, owned, push_str, str_eq, str_starts_with, string_of, trim, trimmed};

verus! {

/// An extra entry of the system menu.
#[derive(Debug, Clone)]
pub struct SystemExtraItem {
    pub id: String,
    pub title: String,
    pub command: String,
}

/// The commands that the system menu runs, as configured.
#[derive(Debug, Clone)]
pub struct SystemCommands {
    pub wifi_settings_command: String,
    pub stats_command: String,
    pub lock_command: String,
    pub suspend_command: String,
    pub logout_command: String,
    pub reboot_command: String,
    pub poweroff_command: String,
    pub idle_disable_command: String,
    pub idle_enable_command: String,
    pub extra_items: Vec<SystemExtraItem>,
    /// Whether the session currently sleeps when idle.
    pub idle_sleep_enabled: bool,
}

/// An action of the system menu waiting for confirmation.
#[derive(Debug, Clone, PartialEq, Eq)]
pub struct PendingSystemAction {
    pub id: String,
    pub title: String,
    pub command: String,
    /// The section of the menu to go back to.
    pub return_section: String,
}

/// The title and command of a built-in entry, before the check that the
/// command is configured; the idle toggle offers the opposite of the
/// current setting.
pub open spec fn builtin_entry(c: SystemCommands, id: Seq<char>) -> Option<(Seq<char>, Seq<char>)> {
    if id == "wifi-settings"@ {
        Some(("Network settings"@, c.wifi_settings_command@))
    } else if id == "stats"@ {
        Some(("System monitor"@, c.stats_command@))
    } else if id == "lock"@ {
        Some(("Lock session"@, c.lock_command@))
    } else if id == "suspend"@ {
        Some(("Suspend"@, c.suspend_command@))
    } else if id == "logout"@ {
        Some(("Log out"@, c.logout_command@))
    } else if id == "reboot"@ {
        Some(("Restart computer"@, c.reboot_command@))
    } else if id == "poweroff"@ {
        Some(("Shut down computer"@, c.poweroff_command@))
    } else if id == "idle-toggle"@ {
        if c.idle_sleep_enabled {
            Some(("Disable inactivity sleep"@, c.idle_disable_command@))
        } else {
            Some(("Enable inactivity sleep"@, c.idle_enable_command@))
        }
    } else {
        None
    }
}

/// The title and command of a built-in entry whose command is configured
/// (not blank).
pub open spec fn system_command(c: SystemCommands, id: Seq<char>) -> Option<(Seq<char>, Seq<char>)> {
    match builtin_entry(c, id) {
        Some((title, command)) => if trim(command).len() > 0 {
            Some((title, command))
        } else {
            None
        },
        None => None,
    }
}

fn entry(title: &str, command: &String) -> (r: Option<(String, String)>)
    ensures
        match r {
            Some((t, c)) => trim(command@).len() > 0 && t@ == title@ && c@ == command@,
            None => trim(command@).len() == 0,
        },
{
    if trimmed(command.as_str()).len() == 0 {
        None
    } else {
        Some((owned(title), owned(command.as_str())))
    }
}

/// The title and command of a built-in entry whose command is configured.
pub fn system_command_for(c: &SystemCommands, id: &str) -> (r: Option<(String, String)>)
    ensures
        match r {
            Some((t, cmd)) => system_command(*c, id@) == Some((t@, cmd@)),
            None => system_command(*c, id@) is None,
        },
{
    if str_eq(id, "wifi-settings") {
        entry("Network settings", &c.wifi_settings_command)
    } else if str_eq(id, "stats") {
        entry("System monitor", &c.stats_command)
    } else if str_eq(id, "lock") {
        entry("Lock session", &c.lock_command)
    } else if str_eq(id, "suspend") {
        entry("Suspend", &c.suspend_command)
    } else if str_eq(id, "logout") {
        entry("Log out", &c.logout_command)
    } else if str_eq(id, "reboot") {
        entry("Restart computer", &c.reboot_command)
    } else if str_eq(id, "poweroff") {
        entry("Shut down computer", &c.poweroff_command)
    } else if str_eq(id, "idle-toggle") {
        if c.idle_sleep_enabled {
            entry("Disable inactivity sleep", &c.idle_disable_command)
        } else {
            entry("Enable inactivity sleep", &c.idle_enable_command)
        }
    } else {
        None
    }
}

/// The position of the first extra entry whose id is `id`.
pub open spec fn first_extra(items: Seq<SystemExtraItem>, id: Seq<char>) -> Option<int>
    decreases items.len(),
{
    if items.len() == 0 {
        None
    } else if items[0].id@ == id {
        Some(0)
    } else {
        match first_extra(items.drop_first(), id) {
            Some(p) => Some(p + 1),
            None => None,
        }
    }
}

proof fn lemma_first_extra(items: Seq<SystemExtraItem>, id: Seq<char>, j: int)
    requires
        0 <= j <= items.len(),
        forall|k: int| 0 <= k < j ==> (#[trigger] items[k]).id@ != id,
    ensures
        j < items.len() && items[j].id@ == id ==> first_extra(items, id) == Some(j),
        j == items.len() ==> first_extra(items, id) is None,
    decreases j,
{
    if j > 0 {
        assert forall|k: int| 0 <= k < j - 1 implies (#[trigger] items.drop_first()[k]).id@ != id by {
            assert(items.drop_first()[k] == items[k + 1]);
        }
        lemma_first_extra(items.drop_first(), id, j - 1);
    }
}

/// Abstract value of a pending action: id, title, command, return section.
pub open spec fn pending_view(p: PendingSystemAction) -> (Seq<char>, Seq<char>, Seq<char>, Seq<char>) {
    (p.id@, p.title@, p.command@, p.return_section@)
}

/// The action that choosing entry `id` asks to confirm: for `extra:` and an
/// extra entry's id, the first such extra entry (going back to the extra
/// section); otherwise a built-in entry whose command is configured (going
/// back to the power section).
pub open spec fn pending_action(c: SystemCommands, id: Seq<char>) -> Option<(Seq<char>, Seq<char>, Seq<char>, Seq<char>)> {
    if has_prefix(id, "extra:"@) {
        let extra = id.skip(6);
        match first_extra(c.extra_items@, extra) {
            Some(p) => Some((
                "extra:"@ + extra,
                c.extra_items@[p].title@,
                c.extra_items@[p].command@,
                "extra"@,
            )),
            None => None,
        }
    } else {
        match system_command(c, id) {
            Some((title, command)) => Some((id, title, command, "power"@)),
            None => None,
        }
    }
}

/// The action that choosing entry `id` asks to confirm.
pub fn pending_system_action(c: &SystemCommands, id: &str) -> (r: Option<PendingSystemAction>)
    ensures
        match r {
            Some(p) => pending_action(*c, id@) == Some(pending_view(p)),
            None => pending_action(*c, id@) is None,
        },
{
    proof {
        reveal_strlit("extra:");
    }
    if str_starts_with(id, "extra:") {
        let cs = chars_of(id);
        let mut extra: Vec<char> = Vec::new();
        let mut i: usize = 6;
        while i < cs.len()
            invariant
                6 <= i <= cs.len(),
                cs@ == id@,
                extra@ == cs@.subrange(6, i as int),
            decreases cs.len() - i,
        {
            extra.push(cs[i]);
            i = i + 1;
            assert(extra@ =~= cs@.subrange(6, i as int));
        }
        assert(extra@ =~= id@.skip(6));
        let extra_id = string_of(&extra);
        let mut k: usize = 0;
        while k < c.extra_items.len()
            invariant
                k <= c.extra_items@.len(),
                extra_id@ == id@.skip(6),
                has_prefix(id@, "extra:"@),
                forall|j: int| 0 <= j < k ==> (#[trigger] c.extra_items@[j]).id@ != extra_id@,
            decreases c.extra_items.len() - k,
        {
            let item = &c.extra_items[k];
            if str_eq(item.id.as_str(), extra_id.as_str()) {
                proof {
                    lemma_first_extra(c.extra_items@, extra_id@, k as int);
                }
                let mut full: Vec<char> = Vec::new();
                push_str(&mut full, "extra:");
                push_str(&mut full, extra_id.as_str());
                return Some(
                    PendingSystemAction {
                        id: string_of(&full),
                        title: owned(item.title.as_str()),
                        command: owned(item.command.as_str()),
                        return_section: owned("extra"),
                    },
                );
            }
            k = k + 1;
        }
        proof {
            lemma_first_extra(c.extra_items@, extra_id@, k as int);
        }
        return None;
    }
    match system_command_for(c, id) {
        Some((title, command)) => Some(
            PendingSystemAction { id: owned(id), title: title, command: command, return_section: owned("power") },
        ),
        None => None,
    }
}

} // verus!
