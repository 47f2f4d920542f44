//! Installing content from Discover: the per-project version chooser (which
//! versions a project has for the selected instance, how each row reads,
//! moving through them), and what an install or an update leaves behind.

use vstd::prelude::*;
use crate::argus::backend::{InstallRecord, tab_content_type};
use crate::argus::discover::needs_loader;
use crate::argus::events::KeyCode;
use crate::argus::navigation::truncated;
use crate::argus::state::{AppState, LogLevel, PendingInstall};
use crate::modrinth::Version;
use crate::text::{chars_of, extend_chars, extend_str, str_eq, string_from_chars};

verus! {

/// `n` spaces.
pub open spec fn spaces(n: nat) -> Seq<char>
    decreases n,
{
    if n == 0 {
        Seq::empty()
    } else {
        spaces((n - 1) as nat).push(' ')
    }
}

/// `s` left-aligned in a field of `w` characters (`{:<w}`).
pub open spec fn pad_right(s: Seq<char>, w: nat) -> Seq<char> {
    if s.len() >= w {
        s
    } else {
        s + spaces((w - s.len()) as nat)
    }
}

/// `s` centred in a field of `w` characters (`{:^w}`): the odd space of
/// padding goes to the right.
pub open spec fn centered(s: Seq<char>, w: nat) -> Seq<char> {
    if s.len() >= w {
        s
    } else {
        let p = (w - s.len()) as nat;
        spaces(p / 2) + s + spaces((p - p / 2) as nat)
    }
}

/// The label of a version row: its version number shortened and padded to
/// 34 characters, then its release type (`?` when unknown) centred in six
/// characters between brackets.
pub open spec fn version_row_label(number: Seq<char>, kind: Seq<char>) -> Seq<char> {
    pad_right(truncated(number, 34), 34) + " ["@ + centered(
        if kind.len() == 0 {
            "?"@
        } else {
            kind
        },
        6,
    ) + "]"@
}

fn push_spaces(v: &mut Vec<char>, n: usize)
    ensures
        final(v)@ == old(v)@ + spaces(n as nat),
{
    let mut i: usize = 0;
    while i < n
        invariant
            i <= n,
            v@ == old(v)@ + spaces(i as nat),
        decreases n - i,
    {
        v.push(' ');
        i = i + 1;
        assert(v@ =~= old(v)@ + spaces(i as nat));
    }
}

/// The label of a version row of the chooser.
pub fn version_label(number: &str, kind: &str) -> (r: String)
    ensures
        r@ == version_row_label(number@, kind@),
{
    let head = crate::argus::navigation::truncate_label(number, 34);
    let mut v = chars_of(head.as_str());
    let hl = v.len();
    if hl < 34 {
        push_spaces(&mut v, 34 - hl);
    }
    extend_str(&mut v, " [");
    let k: &str = if kind.unicode_len() == 0 {
        "?"
    } else {
        kind
    };
    let kl = k.unicode_len();
    if kl < 6 {
        let p = 6 - kl;
        push_spaces(&mut v, p / 2);
        extend_str(&mut v, k);
        push_spaces(&mut v, p - p / 2);
    } else {
        extend_str(&mut v, k);
    }
    extend_str(&mut v, "]");
    proof {
        reveal_strlit(" [");
        reveal_strlit("?");
        reveal_strlit("]");
        assert(v@ =~= version_row_label(number@, kind@));
    }
    string_from_chars(&v)
}

/// What the chooser asks the version listing for, and what it opens on.
pub struct VersionQuery {
    pub project_id: String,
    pub title: String,
    pub content_type: String,
    pub instance_id: String,
    pub game_version: String,
    /// The instance's loader, for mods and modpacks.
    pub loader: Option<String>,
}

impl AppState {
    /// Opening the version chooser on result `idx`: the listing it needs
    /// (the project's versions for the selected instance's game version,
    /// and for mods and modpacks its loader). Out-of-range results do
    /// nothing; without an instance, or for mods and modpacks on a vanilla
    /// instance, a message explains why there is no listing.
    pub fn begin_install_chooser(&mut self, idx: usize) -> (q: Option<VersionQuery>)
        ensures
            idx >= old(self).modrinth_results@.len() ==> q is None && *final(self) == *old(self),
            idx < old(self).modrinth_results@.len() ==> ({
                let p = old(self).modrinth_results@[idx as int];
                match old(self).selected_instance {
                    None => q is None && (final(self).status_message matches Some(t) && t@
                        == "No instances yet \u{2014} create one on HOME first"@),
                    Some(inst) => if needs_loader(old(self).discover_tab) && inst.loader@ == "vanilla"@ {
                        q is None && (final(self).error_message matches Some(e) && e@ == "'"@ + p.title@
                            + "' needs a Fabric/Quilt instance \u{2014} '"@ + inst.name@ + "' is vanilla"@)
                    } else {
                        &&& q matches Some(v) && v.project_id == p.id && v.title == p.title
                            && v.content_type@ == tab_content_type(old(self).discover_tab)
                            && v.instance_id == inst.id && v.game_version == inst.game_version
                            && v.loader == if needs_loader(old(self).discover_tab) {
                            Some(inst.loader)
                        } else {
                            None
                        }
                        &&& final(self).loading
                        &&& (final(self).loading_message matches Some(t) && t@ == "Fetching "@ + p.title@
                            + " versions..."@)
                    },
                }
            }),
            final(self).modrinth_results == old(self).modrinth_results,
            final(self).pending_install == old(self).pending_install,
    {
        if idx >= self.modrinth_results.len() {
            return None;
        }
        let project_id = self.modrinth_results[idx].id.clone();
        let title = self.modrinth_results[idx].title.clone();
        let tab = self.discover_tab;
        let (inst_id, inst_name, inst_loader, inst_gv) = match &self.selected_instance {
            None => {
                proof {
                    reveal_strlit("No instances yet \u{2014} create one on HOME first");
                }
                self.set_status(string_from_chars(&chars_of("No instances yet \u{2014} create one on HOME first")));
                return None;
            },
            Some(inst) => (inst.id.clone(), inst.name.clone(), inst.loader.clone(), inst.game_version.clone()),
        };
        let needs = match tab {
            crate::argus::state::DiscoverTab::Mods | crate::argus::state::DiscoverTab::Modpacks => true,
            _ => false,
        };
        proof {
            reveal_strlit("vanilla");
        }
        if needs && str_eq(inst_loader.as_str(), "vanilla") {
            let mut msg = chars_of("'");
            extend_str(&mut msg, title.as_str());
            extend_str(&mut msg, "' needs a Fabric/Quilt instance \u{2014} '");
            extend_str(&mut msg, inst_name.as_str());
            extend_str(&mut msg, "' is vanilla");
            proof {
                reveal_strlit("'");
                reveal_strlit("' needs a Fabric/Quilt instance \u{2014} '");
                reveal_strlit("' is vanilla");
            }
            self.set_error(string_from_chars(&msg));
            return None;
        }
        let mut msg = chars_of("Fetching ");
        extend_str(&mut msg, title.as_str());
        extend_str(&mut msg, " versions...");
        proof {
            reveal_strlit("Fetching ");
            reveal_strlit(" versions...");
        }
        self.set_loading(true, Some(string_from_chars(&msg)));
        Some(VersionQuery {
            project_id,
            title,
            content_type: crate::argus::backend::BackendBridge::discover_content_type(tab).to_owned(),
            instance_id: inst_id,
            game_version: inst_gv,
            loader: if needs {
                Some(inst_loader)
            } else {
                None
            },
        })
    }
}

/// The chooser rows of a version listing: each version's id and label.
pub open spec fn rows_of(list: Seq<Version>, rows: Seq<(String, String)>) -> bool {
    &&& rows.len() == list.len()
    &&& forall|i: int|
        0 <= i < list.len() ==> (#[trigger] rows[i]).0@ == list[i].id@ && rows[i].1@ == version_row_label(
            list[i].version_number@,
            list[i].version_type@,
        )
}

/// The message when a project has no build for the instance.
pub open spec fn no_builds_message(q: VersionQuery) -> Seq<char> {
    "No builds of '"@ + q.title@ + "' for MC "@ + q.game_version@ + " "@ + match q.loader {
        Some(l) => "("@ + l@ + ") "@,
        None => Seq::empty(),
    }
}

impl AppState {
    /// Takes in the version listing of a chooser query: a non-empty list
    /// opens the chooser on its first row; an empty one or a failed
    /// listing is reported as an error.
    pub fn finish_install_chooser(&mut self, q: VersionQuery, listing: Result<Vec<Version>, String>)
        ensures
            !final(self).loading,
            final(self).loading_message is None,
            match listing {
                Ok(list) => if list@.len() > 0 {
                    (final(self).pending_install matches Some(pi) && pi.project_id == q.project_id && pi.title
                        == q.title && pi.content_type == q.content_type && pi.instance_id == Some(
                        q.instance_id,
                    ) && rows_of(list@, pi.rows@)) && final(self).install_version_index == 0
                } else {
                    final(self).error_message matches Some(e) && e@ == no_builds_message(q)
                },
                Err(e) => final(self).error_message == Some(e),
            },
    {
        self.set_loading(false, None);
        let ghost q0 = q;
        match listing {
            Ok(list) => {
                if list.len() == 0 {
                    let mut msg = chars_of("No builds of '");
                    extend_str(&mut msg, q.title.as_str());
                    extend_str(&mut msg, "' for MC ");
                    extend_str(&mut msg, q.game_version.as_str());
                    extend_str(&mut msg, " ");
                    match &q.loader {
                        Some(l) => {
                            extend_str(&mut msg, "(");
                            extend_str(&mut msg, l.as_str());
                            extend_str(&mut msg, ") ");
                            proof {
                                reveal_strlit("(");
                                reveal_strlit(") ");
                            }
                        },
                        None => {},
                    }
                    proof {
                        reveal_strlit("No builds of '");
                        reveal_strlit("' for MC ");
                        reveal_strlit(" ");
                        assert(msg@ =~= no_builds_message(q0));
                    }
                    self.set_error(string_from_chars(&msg));
                    return;
                }
                let mut rows: Vec<(String, String)> = Vec::new();
                let mut i: usize = 0;
                while i < list.len()
                    invariant
                        i <= list@.len(),
                        rows@.len() == i,
                        forall|k: int|
                            0 <= k < i ==> (#[trigger] rows@[k]).0@ == list@[k].id@ && rows@[k].1@
                                == version_row_label(list@[k].version_number@, list@[k].version_type@),
                    decreases list@.len() - i,
                {
                    let v = &list[i];
                    rows.push((v.id.clone(), version_label(v.version_number.as_str(), v.version_type.as_str())));
                    i = i + 1;
                }
                self.pending_install = Some(PendingInstall {
                    project_id: q.project_id,
                    title: q.title,
                    content_type: q.content_type,
                    instance_id: Some(q.instance_id),
                    rows,
                });
                self.install_version_index = 0;
            },
            Err(e) => {
                self.set_error(e);
            },
        }
    }
}

/// Where the chooser's highlight goes on an arrow, page, Home or End key
/// among `n` rows.
pub open spec fn chooser_step(idx: int, n: int, code: KeyCode) -> int {
    match code {
        KeyCode::Up => if idx > 0 {
            idx - 1
        } else {
            idx
        },
        KeyCode::Down => if idx + 1 < n {
            idx + 1
        } else {
            idx
        },
        KeyCode::PageUp => if idx >= 10 {
            idx - 10
        } else {
            0
        },
        KeyCode::PageDown => if n == 0 {
            idx
        } else if idx + 10 < n - 1 {
            idx + 10
        } else {
            n - 1
        },
        KeyCode::Home => 0,
        KeyCode::End => if n > 0 {
            n - 1
        } else {
            idx
        },
        _ => idx,
    }
}

/// The number of rows of the open chooser.
pub open spec fn chooser_rows(st: AppState) -> int {
    match st.pending_install {
        Some(pi) => pi.rows@.len() as int,
        None => 0,
    }
}

impl AppState {
    /// A key inside the version chooser: ESC closes it, the arrows, page
    /// keys, Home and End move the highlight, ENTER closes it and hands back
    /// the pending install with the chosen version's id.
    pub fn handle_install_version_input(&mut self, code: KeyCode) -> (chosen: Option<(PendingInstall, String)>)
        ensures
            code is Esc ==> chosen is None && final(self).pending_install is None,
            code is Enter ==> match old(self).pending_install {
                Some(pi) => if (old(self).install_version_index as int) < pi.rows@.len() {
                    (chosen matches Some(c) && c.0 == pi && c.1 == pi.rows@[old(self).install_version_index as int].0)
                        && final(self).pending_install is None
                } else {
                    chosen is None && *final(self) == *old(self)
                },
                None => chosen is None && *final(self) == *old(self),
            },
            !(code is Esc || code is Enter) ==> chosen is None && *final(self) == (AppState {
                install_version_index: chooser_step(
                    old(self).install_version_index as int,
                    chooser_rows(*old(self)),
                    code,
                ) as usize,
                ..*old(self)
            }),
    {
        let n: usize = match &self.pending_install {
            Some(pi) => pi.rows.len(),
            None => 0,
        };
        let idx = self.install_version_index;
        match code {
            KeyCode::Esc => {
                self.pending_install = None;
                None
            },
            KeyCode::Enter => {
                let vid = match &self.pending_install {
                    Some(pi) => if idx < pi.rows.len() {
                        pi.rows[idx].0.clone()
                    } else {
                        return None;
                    },
                    None => return None,
                };
                match self.pending_install.take() {
                    Some(pi) => Some((pi, vid)),
                    None => None,
                }
            },
            _ => {
                let next: usize = match code {
                    KeyCode::Up => if idx > 0 {
                        idx - 1
                    } else {
                        idx
                    },
                    KeyCode::Down => if idx < n && idx + 1 < n {
                        idx + 1
                    } else {
                        idx
                    },
                    KeyCode::PageUp => if idx >= 10 {
                        idx - 10
                    } else {
                        0
                    },
                    KeyCode::PageDown => if n == 0 {
                        idx
                    } else if idx < n - 1 && n - 1 - idx > 10 {
                        idx + 10
                    } else {
                        n - 1
                    },
                    KeyCode::Home => 0,
                    KeyCode::End => if n > 0 {
                        n - 1
                    } else {
                        idx
                    },
                    _ => idx,
                };
                self.install_version_index = next;
                None
            },
        }
    }

    /// The start of an install: the loading message.
    pub fn begin_install(&mut self, pi: &PendingInstall)
        ensures
            final(self).loading,
            final(self).loading_message matches Some(t) && t@ == "Installing "@ + pi.title@ + "..."@,
    {
        let mut msg = chars_of("Installing ");
        extend_str(&mut msg, pi.title.as_str());
        extend_str(&mut msg, "...");
        proof {
            reveal_strlit("Installing ");
            reveal_strlit("...");
        }
        self.set_loading(true, Some(string_from_chars(&msg)));
    }

    /// Takes in how an install went: the installed file name and version id,
    /// or why it failed. A success is reported and gives the record to keep
    /// for the instance (when the install had one), so Discover hides the
    /// project from then on.
    pub fn finish_install(&mut self, pi: &PendingInstall, outcome: Result<(String, Option<String>), String>) -> (record: Option<(String, InstallRecord)>)
        ensures
            !final(self).loading,
            final(self).loading_message is None,
            match outcome {
                Ok((filename, version_id)) => {
                    &&& (final(self).status_message matches Some(t) && t@ == "Installed: "@ + filename@)
                    &&& final(self).logs@.last().message@ == "Installed '"@ + pi.title@ + "' ("@ + pi.content_type@
                        + ") \u{2192} "@ + filename@
                    &&& match pi.instance_id {
                        Some(iid) => record matches Some(r) && r.0 == iid && r.1.project_id == pi.project_id
                            && r.1.version_id == version_id && r.1.filename == filename && r.1.content_type
                            == pi.content_type,
                        None => record is None,
                    }
                },
                Err(e) => record is None && (final(self).error_message matches Some(m) && m@ == "Install failed: "@
                    + e@),
            },
    {
        self.set_loading(false, None);
        match outcome {
            Ok((filename, version_id)) => {
                let record = match &pi.instance_id {
                    Some(iid) => Some((
                        iid.clone(),
                        InstallRecord {
                            project_id: pi.project_id.clone(),
                            version_id: version_id.clone(),
                            filename: filename.clone(),
                            content_type: pi.content_type.clone(),
                        },
                    )),
                    None => None,
                };
                let mut msg = chars_of("Installed: ");
                extend_str(&mut msg, filename.as_str());
                let mut line = chars_of("Installed '");
                extend_str(&mut line, pi.title.as_str());
                extend_str(&mut line, "' (");
                extend_str(&mut line, pi.content_type.as_str());
                extend_str(&mut line, ") \u{2192} ");
                extend_str(&mut line, filename.as_str());
                proof {
                    reveal_strlit("Installed: ");
                    reveal_strlit("Installed '");
                    reveal_strlit("' (");
                    reveal_strlit(") \u{2192} ");
                }
                self.set_status(string_from_chars(&msg));
                let text = string_from_chars(&line);
                self.log(LogLevel::Info, "BACKEND", text.as_str());
                record
            },
            Err(e) => {
                let mut msg = chars_of("Install failed: ");
                extend_str(&mut msg, e.as_str());
                proof {
                    reveal_strlit("Install failed: ");
                }
                self.set_error(string_from_chars(&msg));
                None
            },
        }
    }
}

/// The chooser's highlight stays on a row: from a row, every key leaves it
/// on a row.
pub proof fn law_chooser_highlight_stays_on_a_row(idx: int, n: int, code: KeyCode)
    requires
        0 <= idx < n,
    ensures
        0 <= chooser_step(idx, n, code) < n,
{
}

} // verus!
