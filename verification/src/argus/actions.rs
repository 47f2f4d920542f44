//! What the UI's actions on instances, worlds, servers, crash reports and
//! updates decide and report, around the file and process work that the
//! caller does.

use vstd::prelude::*;
use crate::argus::backend::BackendBridge;
use crate::argus::mod_files::{strip_prefix_all, strip_prefix_all_exec};
use crate::argus::state::{AppState, LogLevel, PendingInstall, RuntimeState};
use crate::keyed::has_key;
use crate::servers::PingInfo;
use crate::text::{chars_of, extend_str, parse_unsigned, parse_usize, starts_with, starts_with_chars, str_eq, string_from_chars};

verus! {

/// The text `a`, then `b`.
fn concat(a: &str, b: &str) -> (r: String)
    ensures
        r@ == a@ + b@,
{
    let mut v = chars_of(a);
    extend_str(&mut v, b);
    string_from_chars(&v)
}

/// The text `a`, then `b`, then `c`.
fn concat3(a: &str, b: &str, c: &str) -> (r: String)
    ensures
        r@ == a@ + b@ + c@,
{
    let mut v = chars_of(a);
    extend_str(&mut v, b);
    extend_str(&mut v, c);
    string_from_chars(&v)
}

impl AppState {
    /// Deletes the selected instance from the back end. The result says
    /// whether it was deleted, so the caller removes its files and reloads.
    pub fn delete_selected_instance(&mut self, bridge: &mut BackendBridge) -> (deleted: bool)
        ensures
            match old(self).selected_instance {
                None => !deleted && *final(bridge) == *old(bridge) && (final(self).status_message matches Some(t)
                    && t@ == "No instance selected \u{2014} \u{2191}\u{2193} to pick one"@),
                Some(sel) => {
                    &&& deleted == has_key(old(bridge).manager.instances@, sel.id@)
                    &&& deleted ==> final(self).selected_instance is None && (final(self).status_message matches Some(t)
                        && t@ == "Deleted '"@ + sel.name@ + "'"@) && final(self).logs@.last().message@
                        == "Deleted instance '"@ + sel.name@ + "' (persisted)"@
                    &&& !deleted ==> (final(self).error_message matches Some(e) && e@ == "Failed to delete instance '"@
                        + sel.name@ + "'"@)
                },
            },
    {
        let (id, name) = match &self.selected_instance {
            None => {
                proof {
                    reveal_strlit("No instance selected \u{2014} \u{2191}\u{2193} to pick one");
                }
                self.set_status(string_from_chars(&chars_of("No instance selected \u{2014} \u{2191}\u{2193} to pick one")));
                return false;
            },
            Some(sel) => (sel.id.clone(), sel.name.clone()),
        };
        proof {
            reveal_strlit("Deleted instance '");
            reveal_strlit("' (persisted)");
            reveal_strlit("Deleted '");
            reveal_strlit("'");
            reveal_strlit("Failed to delete instance '");
        }
        if bridge.delete_instance(id.as_str()) {
            let line = concat3("Deleted instance '", name.as_str(), "' (persisted)");
            self.log(LogLevel::Info, "BACKEND", line.as_str());
            self.set_status(concat3("Deleted '", name.as_str(), "'"));
            self.selected_instance = None;
            true
        } else {
            self.set_error(concat3("Failed to delete instance '", name.as_str(), "'"));
            false
        }
    }

    /// The start of a stop: the game is marked as stopping. The caller
    /// stops the process when `running` (there is one), then reports with
    /// [`finish_stop`](Self::finish_stop).
    pub fn begin_stop(&mut self, running: bool)
        ensures
            final(self).runtime_state == RuntimeState::Stopping,
            final(self).logs@.last().message@ == if running {
                "Stopping Minecraft..."@
            } else {
                "Minecraft is not running"@
            },
    {
        self.runtime_state = RuntimeState::Stopping;
        self.log(LogLevel::Info, "ARGUS", "Stopping Minecraft...");
        if running {
            self.log(LogLevel::Info, "BACKEND", "Stopping Minecraft...");
        } else {
            self.log(LogLevel::Warn, "BACKEND", "Minecraft is not running");
        }
    }

    /// The end of a stop: stopped, or (with no process, or one that did not
    /// stop) an error.
    pub fn finish_stop(&mut self, stopped: bool)
        ensures
            stopped ==> final(self).runtime_state == RuntimeState::Stopped && final(self).logs@.last().message@
                == "Minecraft stopped"@,
            !stopped ==> (final(self).runtime_state matches RuntimeState::Error(m) && m@ == "Failed to stop process"@)
                && (final(self).error_message matches Some(e) && e@ == "Failed to stop Minecraft process"@),
    {
        if stopped {
            self.log(LogLevel::Info, "BACKEND", "Minecraft stopped");
            self.runtime_state = RuntimeState::Stopped;
            self.log(LogLevel::Info, "BACKEND", "Minecraft stopped");
        } else {
            proof {
                reveal_strlit("Failed to stop process");
                reveal_strlit("Failed to stop Minecraft process");
            }
            self.runtime_state = RuntimeState::Error(string_from_chars(&chars_of("Failed to stop process")));
            self.set_error(string_from_chars(&chars_of("Failed to stop Minecraft process")));
        }
    }
}

/// The world a focus id names: ids that start with `world_` give the row
/// after the prefix (every leading `world_` removed), when it parses and
/// there is such a world.
pub open spec fn world_of(worlds: Seq<String>, id: Seq<char>) -> Option<Seq<char>> {
    if !starts_with(id, "world_"@) {
        None
    } else {
        match parse_unsigned(strip_prefix_all(id, "world_"@), usize::MAX as int) {
            Some(i) => if i < worlds.len() {
                Some(worlds[i as int]@)
            } else {
                None
            },
            None => None,
        }
    }
}

impl AppState {
    /// The world the focused target names, if any.
    pub fn focused_world(&self, focused: &str) -> (r: Option<String>)
        ensures
            match world_of(self.worlds@, focused@) {
                Some(w) => r matches Some(s) && s@ == w,
                None => r is None,
            },
    {
        proof {
            reveal_strlit("world_");
        }
        let cs = chars_of(focused);
        let prefix = chars_of("world_");
        if !starts_with_chars(&cs, &prefix) {
            return None;
        }
        let rest = strip_prefix_all_exec(&cs, &prefix);
        match parse_usize(&rest) {
            Some(i) => if i < self.worlds.len() {
                Some(self.worlds[i].clone())
            } else {
                None
            },
            None => None,
        }
    }

    /// Where a world backup goes: the selected instance and the focused
    /// world, or a message saying which is missing.
    pub fn backup_target(&mut self, focused: &str) -> (r: Option<(String, String)>)
        ensures
            match old(self).selected_instance {
                None => r is None && (final(self).status_message matches Some(t) && t@
                    == "Select an instance first (\u{2191}\u{2193} on INSTANCES)"@),
                Some(inst) => match world_of(old(self).worlds@, focused@) {
                    None => r is None && (final(self).status_message matches Some(t) && t@ == "No world focused"@),
                    Some(w) => (r matches Some((i, name)) && i@ == inst.id@ && name@ == w) && *final(self) == *old(self),
                },
            },
    {
        let inst_id = match &self.selected_instance {
            None => {
                proof {
                    reveal_strlit("Select an instance first (\u{2191}\u{2193} on INSTANCES)");
                }
                self.set_status(string_from_chars(&chars_of("Select an instance first (\u{2191}\u{2193} on INSTANCES)")));
                return None;
            },
            Some(inst) => inst.id.clone(),
        };
        match self.focused_world(focused) {
            None => {
                proof {
                    reveal_strlit("No world focused");
                }
                self.set_status(string_from_chars(&chars_of("No world focused")));
                None
            },
            Some(w) => Some((inst_id, w)),
        }
    }

    /// Reports a world backup: where it was written, or why it failed.
    pub fn backup_finished(&mut self, world: &str, result: Result<String, String>)
        ensures
            match result {
                Ok(path) => final(self).logs@.last().message@ == "Backed up '"@ + world@ + "' to "@ + path@ && (
                final(self).status_message matches Some(t) && t@ == "Backed up to "@ + path@),
                Err(e) => final(self).error_message matches Some(m) && m@ == "Backup failed: "@ + e@,
            },
    {
        proof {
            reveal_strlit("Backed up '");
            reveal_strlit("' to ");
            reveal_strlit("Backed up to ");
            reveal_strlit("Backup failed: ");
        }
        match result {
            Ok(path) => {
                let mut line = chars_of("Backed up '");
                extend_str(&mut line, world);
                extend_str(&mut line, "' to ");
                extend_str(&mut line, path.as_str());
                let text = string_from_chars(&line);
                self.log(LogLevel::Info, "WORLDS", text.as_str());
                self.set_status(concat("Backed up to ", path.as_str()));
            },
            Err(e) => self.set_error(concat("Backup failed: ", e.as_str())),
        }
    }

    /// Reports a world deletion.
    pub fn world_deleted(&mut self, world: &str, result: Result<(), String>)
        ensures
            match result {
                Ok(()) => final(self).logs@.last().message@ == "Deleted '"@ + world@ + "'"@,
                Err(e) => final(self).error_message matches Some(m) && m@ == "Delete failed: "@ + e@,
            },
    {
        proof {
            reveal_strlit("Deleted '");
            reveal_strlit("'");
            reveal_strlit("Delete failed: ");
        }
        match result {
            Ok(()) => {
                let line = concat3("Deleted '", world, "'");
                self.log(LogLevel::Info, "WORLDS", line.as_str());
            },
            Err(e) => self.set_error(concat("Delete failed: ", e.as_str())),
        }
    }

    /// Reports opening a folder in the file manager.
    pub fn folder_opened(&mut self, target: &str, exists: bool, opened: bool)
        ensures
            !exists ==> (final(self).error_message matches Some(e) && e@ == "Folder not found: "@ + target@),
            exists && opened ==> (final(self).status_message matches Some(t) && t@ == "Opened folder: "@ + target@)
                && final(self).logs@.last().message@ == "Opened folder: "@ + target@,
            exists && !opened ==> (final(self).error_message matches Some(e) && e@ == "Failed to open folder: "@
                + target@),
    {
        proof {
            reveal_strlit("Folder not found: ");
            reveal_strlit("Opened folder: ");
            reveal_strlit("Failed to open folder: ");
        }
        if !exists {
            self.set_error(concat("Folder not found: ", target));
        } else if opened {
            let line = concat("Opened folder: ", target);
            self.set_status(concat("Opened folder: ", target));
            self.log(LogLevel::Info, "ARGUS", line.as_str());
        } else {
            self.set_error(concat("Failed to open folder: ", target));
        }
    }
}

/// The latest ping of the server with this id.
pub open spec fn ping_of(pings: Seq<(String, PingInfo)>, id: Seq<char>) -> Option<PingInfo>
    decreases pings.len(),
{
    if pings.len() == 0 {
        None
    } else if pings.last().0@ == id {
        Some(pings.last().1)
    } else {
        ping_of(pings.drop_last(), id)
    }
}

impl AppState {
    /// The start of a ping of server `idx`: its address, unless there is no
    /// such server or a ping is already under way.
    pub fn begin_ping(&mut self, idx: usize) -> (r: Option<(String, String)>)
        ensures
            idx >= old(self).servers@.len() || old(self).server_pinging ==> r is None && *final(self) == *old(self),
            idx < old(self).servers@.len() && !old(self).server_pinging ==> (r matches Some((id, addr)) && id@
                == old(self).servers@[idx as int].id@ && addr@ == old(self).servers@[idx as int].address@)
                && final(self).server_pinging && final(self).logs@.last().message@ == "Pinging "@ + old(
                self,
            ).servers@[idx as int].address@ + "..."@,
    {
        if idx >= self.servers.len() || self.server_pinging {
            return None;
        }
        let id = self.servers[idx].id.clone();
        let addr = self.servers[idx].address.clone();
        self.server_pinging = true;
        proof {
            reveal_strlit("Pinging ");
            reveal_strlit("...");
        }
        let line = concat3("Pinging ", addr.as_str(), "...");
        self.log(LogLevel::Info, "SERVERS", line.as_str());
        Some((id, addr))
    }

    /// Takes in a ping result: kept as the server's latest, or reported.
    pub fn finish_ping(&mut self, id: String, result: Result<PingInfo, String>)
        ensures
            !final(self).server_pinging,
            match result {
                Ok(info) => ping_of(final(self).server_pings@, id@) == Some(info),
                Err(e) => (final(self).error_message matches Some(m) && m@ == "Ping failed: "@ + e@)
                    && final(self).server_pings == old(self).server_pings,
            },
    {
        match result {
            Ok(info) => {
                self.server_pings.push((id, info));
            },
            Err(e) => {
                proof {
                    reveal_strlit("Ping failed: ");
                }
                self.set_error(concat("Ping failed: ", e.as_str()));
            },
        }
        self.server_pinging = false;
    }

    /// Opens the add-server form, empty.
    pub fn open_server_add(&mut self)
        ensures
            final(self).server_add_open,
            final(self).server_add_name@.len() == 0,
            final(self).server_add_address@.len() == 0,
    {
        self.server_add_open = true;
        self.server_add_name = String::new();
        self.server_add_address = String::new();
    }

    /// Reports copying the newest crash report: to the clipboard, or to the
    /// fallback file when there is no clipboard.
    pub fn crash_copied(&mut self, copied: bool, fallback: &str)
        ensures
            copied ==> (final(self).status_message matches Some(t) && t@ == "Copied crash report to clipboard"@)
                && final(self).logs@.last().message@ == "Copied selected crash report to clipboard"@,
            !copied ==> (final(self).status_message matches Some(t) && t@ == "Clipboard unavailable \u{2014} wrote to "@
                + fallback@),
    {
        if copied {
            proof {
                reveal_strlit("Copied crash report to clipboard");
            }
            self.set_status(string_from_chars(&chars_of("Copied crash report to clipboard")));
            self.log(LogLevel::Info, "CRASHES", "Copied selected crash report to clipboard");
        } else {
            proof {
                reveal_strlit("Clipboard unavailable \u{2014} wrote to ");
            }
            self.set_status(concat("Clipboard unavailable \u{2014} wrote to ", fallback));
        }
    }

    /// Reports deleting a crash report.
    pub fn crash_deleted(&mut self, path: &str, deleted: bool)
        ensures
            deleted ==> final(self).logs@.last().message@ == "Deleted "@ + path@,
            !deleted ==> (final(self).error_message matches Some(e) && e@ == "Failed to delete "@ + path@),
    {
        proof {
            reveal_strlit("Deleted ");
            reveal_strlit("Failed to delete ");
        }
        if deleted {
            let line = concat("Deleted ", path);
            self.log(LogLevel::Info, "CRASHES", line.as_str());
        } else {
            self.set_error(concat("Failed to delete ", path));
        }
    }

    /// The install that updates mod `idx` to its latest version, pinned to
    /// that version; without an instance only a message.
    pub fn update_mod_at_index(&mut self, idx: usize) -> (r: Option<(PendingInstall, String)>)
        ensures
            idx >= old(self).updatable_mods@.len() ==> r is None && *final(self) == *old(self),
            idx < old(self).updatable_mods@.len() ==> ({
                let u = old(self).updatable_mods@[idx as int];
                match old(self).selected_instance {
                    None => r is None && (final(self).status_message matches Some(t) && t@ == "No instance selected"@),
                    Some(inst) => (r matches Some((pi, vid)) && pi.project_id == u.project_id && pi.title == u.title
                        && pi.content_type@ == update_content_type(u.content_type@) && pi.instance_id == Some(inst.id)
                        && pi.rows@.len() == 1 && pi.rows@[0].0 == u.latest_version_id && pi.rows@[0].1
                        == u.latest_version && vid == u.latest_version_id) && final(self).loading && (
                    final(self).loading_message matches Some(t) && t@ == "Updating "@ + u.title@ + "..."@),
                }
            }),
    {
        if idx >= self.updatable_mods.len() {
            return None;
        }
        let inst_id = match &self.selected_instance {
            None => {
                proof {
                    reveal_strlit("No instance selected");
                }
                self.set_status(string_from_chars(&chars_of("No instance selected")));
                return None;
            },
            Some(inst) => inst.id.clone(),
        };
        let u = &self.updatable_mods[idx];
        let project_id = u.project_id.clone();
        let title = u.title.clone();
        let kind = update_content_type_str(u.content_type.as_str());
        let vid = u.latest_version_id.clone();
        let row = (u.latest_version_id.clone(), u.latest_version.clone());
        proof {
            reveal_strlit("Updating ");
            reveal_strlit("...");
        }
        let msg = concat3("Updating ", title.as_str(), "...");
        self.set_loading(true, Some(msg));
        Some((
            PendingInstall {
                project_id,
                title,
                content_type: kind.to_owned(),
                instance_id: Some(inst_id),
                rows: vec![row],
            },
            vid,
        ))
    }
}

/// The content type an update installs as: modpacks, resource packs and
/// shaders keep theirs, anything else is a mod.
pub open spec fn update_content_type(t: Seq<char>) -> Seq<char> {
    if t == "modpack"@ {
        "modpack"@
    } else if t == "resourcepack"@ {
        "resourcepack"@
    } else if t == "shader"@ {
        "shader"@
    } else {
        "mod"@
    }
}

fn update_content_type_str(t: &str) -> (r: &'static str)
    ensures
        r@ == update_content_type(t@),
{
    proof {
        reveal_strlit("modpack");
        reveal_strlit("resourcepack");
        reveal_strlit("shader");
        reveal_strlit("mod");
    }
    if str_eq(t, "modpack") {
        "modpack"
    } else if str_eq(t, "resourcepack") {
        "resourcepack"
    } else if str_eq(t, "shader") {
        "shader"
    } else {
        "mod"
    }
}

} // verus!
