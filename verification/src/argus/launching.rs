//! Starting an instance from the UI: when a launch may begin, and what each
//! event of a running launch does to the state.

use vstd::prelude::*;
use crate::argus::state::{AppState, LogEntry, LogLevel, RuntimeState, LOG_CAPACITY, concat2, keep_last};
use crate::instances::{InstanceConfig, same_instance};
use crate::text::{chars_of, decimal, decimal_chars, extend_chars, extend_str, str_eq, string_from_chars};

verus! {

/// Whether the game is starting, running or stopping.
pub open spec fn busy(r: RuntimeState) -> bool {
    r is Starting || r is Running || r is Stopping
}

impl AppState {
    /// The row of the selected instance among the instances (the first with
    /// its id), else the first row.
    pub fn selected_instance_row(&self) -> (r: usize)
        ensures
            match self.selected_instance {
                Some(sel) => (exists|i: int| 0 <= i < self.instances@.len() && self.instances@[i].id@ == sel.id@)
                    ==> r < self.instances@.len() && self.instances@[r as int].id@ == sel.id@ && forall|j: int|
                    0 <= j < r ==> self.instances@[j].id@ != sel.id@,
                None => r == 0,
            },
            match self.selected_instance {
                Some(sel) => !(exists|i: int| 0 <= i < self.instances@.len() && self.instances@[i].id@ == sel.id@)
                    ==> r == 0,
                None => true,
            },
    {
        if self.selected_instance.is_none() {
            return 0;
        }
        let sel_id = self.selected_instance.as_ref().unwrap().id.clone();
        let mut i: usize = 0;
        while i < self.instances.len()
            invariant
                i <= self.instances@.len(),
                self.selected_instance matches Some(s) && s.id@ == sel_id@,
                forall|j: int| 0 <= j < i ==> self.instances@[j].id@ != sel_id@,
            decreases self.instances@.len() - i,
        {
            if str_eq(self.instances[i].id.as_str(), sel_id.as_str()) {
                return i;
            }
            i = i + 1;
        }
        0
    }

    /// The start of a launch of the instance at `index`: refused when there
    /// is no such instance, while another launch is under way, or while the
    /// game is starting, running or stopping; otherwise the game is marked
    /// as starting and the instance to launch is handed back.
    pub fn begin_launch(&mut self, index: usize, launch_in_progress: bool) -> (inst: Option<InstanceConfig>)
        ensures
            index >= old(self).instances@.len() ==> inst is None && (final(self).error_message matches Some(e)
                && e@ == "No instances available"@) && final(self).runtime_state == old(self).runtime_state,
            index < old(self).instances@.len() && launch_in_progress ==> inst is None && (
            final(self).status_message matches Some(t) && t@
                == "A launch is already in progress \u{2014} watch the bar below"@) && final(self).runtime_state
                == old(self).runtime_state,
            index < old(self).instances@.len() && !launch_in_progress && busy(old(self).runtime_state) ==> inst is None
                && (final(self).status_message matches Some(t) && t@
                == "Minecraft is already starting/running \u{2014} wait or press Stop"@) && final(self).runtime_state
                == old(self).runtime_state,
            index < old(self).instances@.len() && !launch_in_progress && !busy(old(self).runtime_state) ==> (
            inst matches Some(i) && same_instance(i, old(self).instances@[index as int]))
                && final(self).runtime_state == RuntimeState::Starting && final(self).loading && (
            final(self).loading_message matches Some(t) && t@ == "Preparing launch..."@)
                && final(self).logs@.last().message@ == "Launching instance: "@ + old(
                self,
            ).instances@[index as int].name@,
            final(self).instances == old(self).instances,
    {
        if index >= self.instances.len() {
            proof {
                reveal_strlit("No instances available");
            }
            self.set_error(string_from_chars(&chars_of("No instances available")));
            return None;
        }
        if launch_in_progress {
            proof {
                reveal_strlit("A launch is already in progress \u{2014} watch the bar below");
            }
            self.set_status(string_from_chars(&chars_of("A launch is already in progress \u{2014} watch the bar below")));
            return None;
        }
        let is_busy = match self.runtime_state {
            RuntimeState::Starting | RuntimeState::Running | RuntimeState::Stopping => true,
            _ => false,
        };
        if is_busy {
            proof {
                reveal_strlit("Minecraft is already starting/running \u{2014} wait or press Stop");
            }
            self.set_status(string_from_chars(&chars_of("Minecraft is already starting/running \u{2014} wait or press Stop")));
            return None;
        }
        let instance = self.instances[index].clone();
        self.runtime_state = RuntimeState::Starting;
        let mut line = chars_of("Launching instance: ");
        extend_str(&mut line, instance.name.as_str());
        proof {
            reveal_strlit("Launching instance: ");
            reveal_strlit("Preparing launch...");
        }
        let text = string_from_chars(&line);
        self.log(LogLevel::Info, "ARGUS", text.as_str());
        self.set_loading(true, Some(string_from_chars(&chars_of("Preparing launch..."))));
        Some(instance)
    }
}

/// What a running launch reports.
pub enum LaunchUpdate {
    /// A new loading-bar message.
    Progress(String),
    /// A line for the log.
    Log(LogLevel, String),
    /// The game process started, with this process id.
    Launched(u32),
    /// The launch failed.
    Failed(String),
}

impl AppState {
    /// Applies one launch report. The result says whether the launch is
    /// over (started or failed).
    pub fn apply_launch_update(&mut self, ev: LaunchUpdate) -> (finished: bool)
        ensures
            match ev {
                LaunchUpdate::Progress(m) => !finished && final(self).loading && final(self).loading_message == Some(m)
                    && final(self).runtime_state == old(self).runtime_state,
                LaunchUpdate::Log(level, m) => !finished && final(self).logs@.last().level == level
                    && final(self).logs@.last().source@ == "BACKEND"@ && final(self).logs@.last().message@ == m@
                    && final(self).runtime_state == old(self).runtime_state,
                LaunchUpdate::Launched(pid) => {
                    &&& finished
                    &&& final(self).runtime_state == RuntimeState::Running
                    &&& !final(self).loading
                    &&& (final(self).status_message matches Some(t) && t@ == "Launched (PID "@ + decimal(pid as nat)
                        + ") \u{2014} see LOGS for output"@)
                    &&& final(self).logs@ == keep_last(old(self).logs@.push(final(self).logs@.last()), LOG_CAPACITY as nat)
                    &&& final(self).logs@.last().level == LogLevel::Info
                    &&& final(self).logs@.last().source@ == "BACKEND"@
                    &&& final(self).logs@.last().message@ == "Minecraft launched (PID: "@ + decimal(pid as nat)
                        + ") \u{2014} window may take a minute on first run"@
                },
                LaunchUpdate::Failed(e) => {
                    &&& finished
                    &&& final(self).runtime_state == RuntimeState::Error(e)
                    &&& !final(self).loading
                    &&& (final(self).error_message matches Some(m) && m@ == "Launch failed: "@ + e@)
                },
            },
    {
        match ev {
            LaunchUpdate::Progress(m) => {
                self.set_loading(true, Some(m));
                false
            },
            LaunchUpdate::Log(level, m) => {
                self.log(level, "BACKEND", m.as_str());
                false
            },
            LaunchUpdate::Launched(pid) => {
                self.runtime_state = RuntimeState::Running;
                self.set_loading(false, None);
                let digits = decimal_chars(pid as u64);
                let mut line = chars_of("Minecraft launched (PID: ");
                extend_chars(&mut line, &digits);
                extend_str(&mut line, ") \u{2014} window may take a minute on first run");
                let text = string_from_chars(&line);
                proof {
                    reveal_strlit("Minecraft launched (PID: ");
                    reveal_strlit(") \u{2014} window may take a minute on first run");
                }
                self.log(LogLevel::Info, "BACKEND", text.as_str());
                let mut msg = chars_of("Launched (PID ");
                extend_chars(&mut msg, &digits);
                extend_str(&mut msg, ") \u{2014} see LOGS for output");
                proof {
                    reveal_strlit("Launched (PID ");
                    reveal_strlit(") \u{2014} see LOGS for output");
                }
                self.set_status(string_from_chars(&msg));
                true
            },
            LaunchUpdate::Failed(e) => {
                self.set_loading(false, None);
                let mut msg = chars_of("Launch failed: ");
                extend_str(&mut msg, e.as_str());
                proof {
                    reveal_strlit("Launch failed: ");
                }
                self.runtime_state = RuntimeState::Error(e);
                self.set_error(string_from_chars(&msg));
                true
            },
        }
    }
}

/// How the game process ended, as the launcher saw it.
pub enum GameExit {
    /// It exited, with this code when it had one.
    Code(Option<i32>),
    /// Waiting for it failed with this error.
    WaitFailed(String),
}

/// At most this many of the game's last output lines are replayed into the
/// log when the game ends.
pub const GAME_OUTPUT_REPLAY: usize = 2000;

/// An integer in decimal, with a leading `-` when negative.
pub open spec fn signed_decimal(i: int) -> Seq<char> {
    if i < 0 {
        "-"@ + decimal((-i) as nat)
    } else {
        decimal(i as nat)
    }
}

/// What the launcher says of how the game ended.
pub open spec fn exit_text(e: GameExit) -> Seq<char> {
    match e {
        GameExit::Code(None) => "Minecraft closed cleanly"@,
        GameExit::Code(Some(c)) => if c == 0 {
            "Minecraft closed cleanly"@
        } else {
            "Minecraft exited with code "@ + signed_decimal(c as int)
        },
        GameExit::WaitFailed(err) => "Failed to wait for Minecraft: "@ + err@,
    }
}

/// A log entry without its time stamp.
pub open spec fn entry_text(e: LogEntry) -> (LogLevel, Seq<char>, Seq<char>) {
    (e.level, e.source@, e.message@)
}

/// The log without time stamps.
pub open spec fn log_texts(s: Seq<LogEntry>) -> Seq<(LogLevel, Seq<char>, Seq<char>)> {
    s.map_values(|e: LogEntry| entry_text(e))
}

/// The log entries that replay the game's output: its last
/// [`GAME_OUTPUT_REPLAY`] lines, from the game.
pub open spec fn replayed(lines: Seq<String>) -> Seq<(LogLevel, Seq<char>, Seq<char>)> {
    keep_last(lines, GAME_OUTPUT_REPLAY as nat).map_values(|l: String| (LogLevel::Info, "Minecraft"@, l@))
}

proof fn lemma_keep_last_push<T>(a: Seq<T>, x: T, n: nat)
    requires
        n > 0,
    ensures
        keep_last(keep_last(a, n).push(x), n) == keep_last(a.push(x), n),
{
    if a.len() > n {
        assert(keep_last(a, n).push(x).subrange(1, (n + 1) as int) =~= a.push(x).subrange(a.len() + 1 - n, (a.len() + 1) as int));
    }
}

proof fn lemma_texts_keep_last(s: Seq<LogEntry>, n: nat)
    ensures
        log_texts(keep_last(s, n)) == keep_last(log_texts(s), n),
{
    if s.len() > n {
        assert(log_texts(keep_last(s, n)) =~= keep_last(log_texts(s), n));
    }
}

proof fn lemma_log_step(before: Seq<LogEntry>, after: Seq<LogEntry>, texts: Seq<(LogLevel, Seq<char>, Seq<char>)>, added: Seq<(LogLevel, Seq<char>, Seq<char>)>, t: (LogLevel, Seq<char>, Seq<char>))
    requires
        after == keep_last(before.push(after.last()), LOG_CAPACITY as nat),
        entry_text(after.last()) == t,
        keep_last(log_texts(before), LOG_CAPACITY as nat) == keep_last(texts + added, LOG_CAPACITY as nat),
    ensures
        log_texts(after) == keep_last(texts + added.push(t), LOG_CAPACITY as nat),
{
    let n = LOG_CAPACITY as nat;
    lemma_texts_keep_last(before.push(after.last()), n);
    assert(log_texts(before.push(after.last())) =~= log_texts(before).push(t));
    lemma_keep_last_push(log_texts(before), t, n);
    lemma_keep_last_push(texts + added, t, n);
    assert((texts + added).push(t) =~= texts + added.push(t));
}

impl AppState {
    /// The launcher's side of a game that has ended: the game's last output
    /// lines are replayed into the log, the game is stopped, loading ends,
    /// the live log file is remembered, and how the game ended becomes the
    /// status and is logged. Returns that status text.
    pub fn finish_game_mode(&mut self, captured: &Vec<String>, exit: GameExit, live_log_path: Option<String>) -> (msg: String)
        ensures
            msg@ == exit_text(exit),
            log_texts(final(self).logs@) == keep_last(
                log_texts(old(self).logs@) + replayed(captured@).push(
                    (LogLevel::Info, "ARGUS"@, exit_text(exit) + " — launcher restored"@),
                ),
                LOG_CAPACITY as nat,
            ),
            *final(self) == (AppState {
                logs: final(self).logs,
                runtime_state: RuntimeState::Stopped,
                loading: false,
                loading_message: None,
                live_log_path,
                status_message: Some(msg),
                ..*old(self)
            }),
    {
        self.replay_output(captured);
        let ghost texts = log_texts(old(self).logs@);
        let ghost all = replayed(captured@);
        let msg = exit_message(&exit);
        self.runtime_state = RuntimeState::Stopped;
        self.set_loading(false, None);
        self.live_log_path = live_log_path;
        self.set_status(msg.clone());
        let line = concat2(msg.as_str(), " — launcher restored");
        let ghost before = self.logs@;
        self.log(LogLevel::Info, "ARGUS", line.as_str());
        proof {
            lemma_log_step(before, self.logs@, texts, all, (LogLevel::Info, "ARGUS"@, exit_text(exit) + " — launcher restored"@));
        }
        msg
    }

    fn replay_output(&mut self, captured: &Vec<String>)
        ensures
            keep_last(log_texts(final(self).logs@), LOG_CAPACITY as nat)
                == keep_last(log_texts(old(self).logs@) + replayed(captured@), LOG_CAPACITY as nat),
            *final(self) == (AppState { logs: final(self).logs, ..*old(self) }),
    {
        let n = captured.len();
        let start: usize = if n > GAME_OUTPUT_REPLAY {
            n - GAME_OUTPUT_REPLAY
        } else {
            0
        };
        let ghost texts = log_texts(old(self).logs@);
        let ghost all = replayed(captured@);
        proof {
            assert(keep_last(captured@, GAME_OUTPUT_REPLAY as nat) =~= captured@.subrange(start as int, n as int));
            assert(texts + all.subrange(0, 0) =~= texts);
        }
        let mut i: usize = start;
        while i < n
            invariant
                start <= i <= n,
                n == captured@.len(),
                all.len() == n - start,
                texts == log_texts(old(self).logs@),
                all == replayed(captured@),
                keep_last(captured@, GAME_OUTPUT_REPLAY as nat) == captured@.subrange(start as int, n as int),
                keep_last(log_texts(self.logs@), LOG_CAPACITY as nat) == keep_last(texts + all.subrange(0, i - start), LOG_CAPACITY as nat),
                *self == (AppState { logs: self.logs, ..*old(self) }),
            decreases n - i,
        {
            let ghost before = self.logs@;
            self.log(LogLevel::Info, "Minecraft", captured[i].as_str());
            proof {
                let t = (LogLevel::Info, "Minecraft"@, captured@[i as int]@);
                assert(all[i - start] == t);
                lemma_log_step(before, self.logs@, texts, all.subrange(0, i - start), t);
                assert(all.subrange(0, i - start).push(t) =~= all.subrange(0, i + 1 - start));
            }
            i = i + 1;
        }
        proof {
            assert(all.subrange(0, n - start) =~= all);
        }
    }
}

/// What the launcher says of how the game ended.
fn exit_message(exit: &GameExit) -> (r: String)
    ensures
        r@ == exit_text(*exit),
{
    proof {
        reveal_strlit("Minecraft closed cleanly");
        reveal_strlit("Minecraft exited with code ");
    }
    match exit {
        GameExit::Code(None) => "Minecraft closed cleanly".to_owned(),
        GameExit::Code(Some(c)) => {
            if *c == 0 {
                "Minecraft closed cleanly".to_owned()
            } else {
                let mut t = chars_of("Minecraft exited with code ");
                let v: i64 = *c as i64;
                if v < 0 {
                    t.push('-');
                    proof {
                        reveal_strlit("-");
                        assert(seq!['-'] =~= "-"@);
                    }
                    extend_chars(&mut t, &decimal_chars((0 - v) as u64));
                } else {
                    extend_chars(&mut t, &decimal_chars(v as u64));
                }
                string_from_chars(&t)
            }
        },
        GameExit::WaitFailed(e) => concat2("Failed to wait for Minecraft: ", e.as_str()),
    }
}

} // verus!
