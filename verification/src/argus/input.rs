//! Keys while an overlay or a text field owns the keyboard: the account
//! picker and its name field, the loader and game-version pickers of the
//! create flow, the Discover search bar, the command prompt and the custom
//! JVM arguments editor.

use vstd::prelude::*;
use crate::argus::backend::{
    BackendBridge, has_account_id, invalid_name_message, name_taken, new_instance_name,
    supported_loader, unsupported_loader_message,
};
use crate::argus::navigation::{filtered_versions, string_views};
use crate::instances::same_instance;
use crate::argus::events::{KeyCode, KeyModifiers};
use crate::argus::state::{AppState, LogLevel, SettingsEditMode, back_position, concat2, history_entry, keep_last, HISTORY_CAPACITY};
use crate::minecraft::optimization::OptimizationProfile;
use crate::auth::{Account, valid_username};
use crate::keyed::{has_key, without_key};
use crate::text::{chars_of, decimal, decimal_chars, extend_chars, extend_str, lowercase, words, push_char, string_from_chars, sub_chars, trim, trim_chars};

verus! {

/// Bytes of a character's UTF-8 encoding.
pub open spec fn utf8_width(c: char) -> nat {
    if (c as u32) < 0x80 {
        1
    } else if (c as u32) < 0x800 {
        2
    } else if (c as u32) < 0x10000 {
        3
    } else {
        4
    }
}

/// Bytes of a text's UTF-8 encoding, which `str::len` counts.
pub open spec fn utf8_len(s: Seq<char>) -> nat
    decreases s.len(),
{
    if s.len() == 0 {
        0
    } else {
        utf8_len(s.drop_last()) + utf8_width(s.last())
    }
}

proof fn lemma_utf8_len_prefix(s: Seq<char>, j: int, k: int)
    requires
        0 <= j <= k <= s.len(),
    ensures
        utf8_len(s.take(j)) <= utf8_len(s.take(k)),
    decreases k - j,
{
    if j < k {
        lemma_utf8_len_prefix(s, j, k - 1);
        assert(s.take(k).drop_last() =~= s.take(k - 1));
    }
}

fn char_width(c: char) -> (w: usize)
    ensures
        w == utf8_width(c),
{
    let u = c as u32;
    if u < 0x80 {
        1
    } else if u < 0x800 {
        2
    } else if u < 0x10000 {
        3
    } else {
        4
    }
}

/// Whether a text's UTF-8 encoding is shorter than `max` bytes.
pub fn utf8_shorter_than(s: &str, max: usize) -> (r: bool)
    ensures
        r == (utf8_len(s@) < max),
{
    if max == 0 {
        return false;
    }
    let cs = chars_of(s);
    let mut acc: usize = 0;
    let mut i: usize = 0;
    while i < cs.len()
        invariant
            cs@ == s@,
            i <= cs@.len(),
            acc == utf8_len(cs@.take(i as int)),
            acc < max,
        decreases cs@.len() - i,
    {
        assert(cs@.take(i + 1).drop_last() =~= cs@.take(i as int));
        let w = char_width(cs[i]);
        if w >= max - acc {
            proof {
                lemma_utf8_len_prefix(cs@, i + 1, cs@.len() as int);
                assert(cs@.take(cs@.len() as int) =~= cs@);
            }
            return false;
        }
        acc = acc + w;
        i = i + 1;
    }
    assert(cs@.take(i as int) =~= cs@);
    true
}

/// A control character, Unicode category Cc (`char::is_control`).
pub open spec fn is_control(c: char) -> bool {
    (c as u32) <= 0x1f || (0x7f <= (c as u32) && (c as u32) <= 0x9f)
}

fn char_is_control(c: char) -> (r: bool)
    ensures
        r == is_control(c),
{
    let u = c as u32;
    u <= 0x1f || (0x7f <= u && u <= 0x9f)
}

/// A text without its last character (`String::pop`); an empty text stays.
pub open spec fn without_last(s: Seq<char>) -> Seq<char> {
    if s.len() == 0 {
        s
    } else {
        s.drop_last()
    }
}

/// Removes the last character of a text, if any.
pub fn pop_char(s: &mut String)
    ensures
        final(s)@ == without_last(old(s)@),
{
    let cs = chars_of(s.as_str());
    if cs.len() > 0 {
        let kept = sub_chars(&cs, 0, cs.len() - 1);
        assert(kept@ =~= cs@.drop_last());
        *s = string_from_chars(&kept);
    }
}

/// The text with surrounding whitespace removed, as a `String`.
fn trimmed(s: &str) -> (r: String)
    ensures
        r@ == trim(s@),
{
    string_from_chars(&trim_chars(&chars_of(s)))
}

/// `a`, then `b`, then `c`, as one `String`.
fn join3(a: &str, b: &str, c: &str) -> (r: String)
    ensures
        r@ == a@ + b@ + c@,
{
    let mut v = chars_of(a);
    extend_str(&mut v, b);
    extend_str(&mut v, c);
    string_from_chars(&v)
}

/// The account rows the UI shows are the back end's accounts, as
/// (id, name) pairs in the same order.
pub open spec fn shows_accounts(rows: Seq<(String, String)>, accounts: Seq<Account>) -> bool {
    &&& rows.len() == accounts.len()
    &&& forall|i: int|
        0 <= i < rows.len() ==> (#[trigger] rows[i]).0@ == accounts[i].id@ && rows[i].1@
            == accounts[i].name@
}

impl AppState {
    /// Reloads the account rows from the back end.
    pub fn sync_accounts(&mut self, bridge: &BackendBridge)
        ensures
            shows_accounts(final(self).accounts@, bridge.config.accounts@),
            *final(self) == (AppState { accounts: final(self).accounts, ..*old(self) }),
    {
        let mut rows: Vec<(String, String)> = Vec::new();
        let mut i: usize = 0;
        while i < bridge.config.accounts.len()
            invariant
                i <= bridge.config.accounts@.len(),
                rows@.len() == i,
                forall|k: int|
                    0 <= k < i ==> (#[trigger] rows@[k]).0@ == bridge.config.accounts@[k].id@
                        && rows@[k].1@ == bridge.config.accounts@[k].name@,
            decreases bridge.config.accounts@.len() - i,
        {
            let a = &bridge.config.accounts[i];
            rows.push((a.id.clone(), a.name.clone()));
            i = i + 1;
        }
        self.accounts = rows;
    }

    /// Opens the account picker on the active account's row, or on the
    /// create row when no account is active.
    pub fn open_account_selector(&mut self, bridge: &BackendBridge)
        ensures
            shows_accounts(final(self).accounts@, bridge.config.accounts@),
            final(self).account_selector_open,
            final(self).account_selector_index == selector_start(bridge.config.accounts@, bridge.config.default_account),
    {
        self.sync_accounts(bridge);
        let n = self.accounts.len();
        let mut idx = n;
        if let Some(active) = &bridge.config.default_account {
            idx = first_row_with_id(&self.accounts, active.as_str());
            proof {
                assert forall|k: int| 0 <= k < idx implies bridge.config.accounts@[k].id@ != active@ by {
                    assert(self.accounts@[k].0@ == bridge.config.accounts@[k].id@);
                }
                if idx < self.accounts@.len() {
                    assert(self.accounts@[idx as int].0@ == bridge.config.accounts@[idx as int].id@);
                }
                lemma_first_id_index(bridge.config.accounts@, active@, idx as int);
            }
        }
        self.account_selector_index = idx;
        self.account_selector_open = true;
    }
}

/// The first row whose id is `id`, or the number of rows when none is.
fn first_row_with_id(rows: &Vec<(String, String)>, id: &str) -> (r: usize)
    ensures
        r <= rows@.len(),
        forall|k: int| 0 <= k < r ==> rows@[k].0@ != id@,
        r < rows@.len() ==> rows@[r as int].0@ == id@,
{
    let mut i: usize = 0;
    while i < rows.len()
        invariant
            i <= rows@.len(),
            forall|k: int| 0 <= k < i ==> rows@[k].0@ != id@,
        decreases rows@.len() - i,
    {
        if crate::text::str_eq(rows[i].0.as_str(), id) {
            return i;
        }
        i = i + 1;
    }
    i
}

/// The account picker moved `idx` one row down, within the accounts and
/// the create row after them.
pub open spec fn row_down(idx: int, accounts: nat) -> int {
    if idx < accounts {
        idx + 1
    } else {
        idx
    }
}

/// One row up, never above the first.
pub open spec fn row_up(idx: int) -> int {
    if idx > 0 {
        idx - 1
    } else {
        idx
    }
}

/// What a key does to a name field capped at 16 bytes: Backspace removes
/// the last character, a character is appended while the text is shorter
/// than 16 bytes; with Control held neither happens.
pub open spec fn edit_name(s: Seq<char>, code: KeyCode, m: KeyModifiers) -> Seq<char> {
    match code {
        KeyCode::Backspace => if m.control {
            s
        } else {
            without_last(s)
        },
        KeyCode::Char(c) => if !m.control && utf8_len(s) < 16 {
            s.push(c)
        } else {
            s
        },
        _ => s,
    }
}

/// The effect of a key on the new-account name field: ENTER creates an
/// offline account with the trimmed name and makes it the active one, ESC
/// leaves the field, other keys edit it.
pub open spec fn name_field_key(
    s0: AppState,
    s1: AppState,
    b0: BackendBridge,
    b1: BackendBridge,
    code: KeyCode,
    m: KeyModifiers,
    refresh: bool,
) -> bool {
    match code {
        KeyCode::Enter => {
            let name = trim(s0.account_input@);
            &&& !valid_username(name) ==> !refresh && (s1.error_message matches Some(e) && e@
                == invalid_name_message())
            &&& valid_username(name) && name_taken(b0.config.accounts@, name) ==> !refresh && (
            s1.error_message matches Some(e) && e@ == "Account '"@ + name + "' already exists"@)
            &&& !refresh ==> s1.account_input_mode && s1.account_input == s0.account_input
            &&& refresh ==> {
                let accs = b1.config.accounts@;
                &&& !s1.account_input_mode
                &&& !s1.account_selector_open
                &&& accs == b0.config.accounts@.push(accs.last())
                &&& accs.last().name@ == name
                &&& (b1.config.default_account matches Some(d) && d@ == accs.last().id@)
                &&& (s1.status_message matches Some(t) && t@ == "Offline account '"@ + name
                    + "' created and selected"@)
                &&& shows_accounts(s1.accounts@, accs)
            }
            &&& b1.config.instances == b0.config.instances
        },
        KeyCode::Esc => !refresh && !s1.account_input_mode && s1.account_input@.len() == 0 && b1 == b0,
        _ => !refresh && s1.account_input_mode && s1.account_input@ == edit_name(s0.account_input@, code, m)
            && b1 == b0,
    }
}

/// The effect of a key on the account list: arrows move the highlight,
/// ENTER activates the highlighted account (or opens the name field on the
/// create row), `x` deletes it, `n` opens the name field, ESC closes.
pub open spec fn account_list_key(
    s0: AppState,
    s1: AppState,
    b0: BackendBridge,
    b1: BackendBridge,
    code: KeyCode,
    refresh: bool,
) -> bool {
    let n = s0.accounts@.len();
    let idx = s0.account_selector_index as int;
    match code {
        KeyCode::Esc => !refresh && !s1.account_selector_open && b1 == b0,
        KeyCode::Up => !refresh && s1.account_selector_index == row_up(idx) && b1 == b0,
        KeyCode::Down => !refresh && s1.account_selector_index == row_down(idx, n) && b1 == b0,
        KeyCode::Enter => if idx >= n {
            !refresh && s1.account_input_mode && s1.account_input@.len() == 0 && b1 == b0
        } else {
            let id = s0.accounts@[idx].0@;
            let name = s0.accounts@[idx].1@;
            &&& has_account_id(b0.config.accounts@, id) ==> refresh && !s1.account_selector_open && (
            b1.config.default_account matches Some(d) && d@ == id) && (s1.status_message matches Some(
                t,
            ) && t@ == "Launch account set to '"@ + name + "'"@) && shows_accounts(s1.accounts@, b1.config.accounts@)
            &&& !has_account_id(b0.config.accounts@, id) ==> !refresh && (s1.error_message matches Some(e)
                && e@ == "Account not found"@) && b1.config.default_account == b0.config.default_account
            &&& b1.config.accounts == b0.config.accounts
            &&& b1.config.instances == b0.config.instances
        },
        KeyCode::Char(c) => if (c == 'x' || c == 'X') && idx < n {
            let id = s0.accounts@[idx].0@;
            let name = s0.accounts@[idx].1@;
            &&& b1.config.accounts@ == without_key(b0.config.accounts@, id)
            &&& b1.config.instances == b0.config.instances
            &&& has_key(b0.config.accounts@, id) ==> refresh && (s1.status_message matches Some(t) && t@
                == "Deleted account '"@ + name + "'"@) && shows_accounts(s1.accounts@, b1.config.accounts@)
                && s1.account_selector_index == if idx > s1.accounts@.len() {
                s1.accounts@.len() as int
            } else {
                idx
            }
            &&& !has_key(b0.config.accounts@, id) ==> !refresh && (s1.error_message matches Some(e) && e@
                == "Account not found"@)
        } else if c == 'n' || c == 'N' {
            !refresh && s1.account_input_mode && s1.account_input@.len() == 0 && b1 == b0
        } else {
            !refresh && b1 == b0 && s1.account_selector_index == s0.account_selector_index
        },
        _ => !refresh && b1 == b0 && s1.account_selector_index == s0.account_selector_index,
    }
}

impl AppState {
    /// A key while the account picker is open: in its name field or in its
    /// list. The result says whether the accounts changed, so the caller
    /// reloads what depends on them.
    pub fn handle_account_input(&mut self, bridge: &mut BackendBridge, code: KeyCode, m: KeyModifiers) -> (refresh: bool)
        ensures
            old(self).account_input_mode ==> name_field_key(*old(self), *final(self), *old(bridge), *final(bridge), code, m, refresh),
            !old(self).account_input_mode ==> account_list_key(*old(self), *final(self), *old(bridge), *final(bridge), code, refresh),
    {
        if self.account_input_mode {
            self.name_field_input(bridge, code, m)
        } else {
            self.account_list_input(bridge, code)
        }
    }

    fn name_field_input(&mut self, bridge: &mut BackendBridge, code: KeyCode, m: KeyModifiers) -> (refresh: bool)
        requires
            old(self).account_input_mode,
        ensures
            name_field_key(*old(self), *final(self), *old(bridge), *final(bridge), code, m, refresh),
    {
        match code {
            KeyCode::Enter => {
                match bridge.create_offline_account(self.account_input.as_str()) {
                    Ok(acc) => {
                        proof {
                            assert(bridge.config.accounts@.last() == acc);
                            assert(has_account_id(bridge.config.accounts@, acc.id@)) by {
                                assert(bridge.config.accounts@[bridge.config.accounts@.len() - 1].id@ == acc.id@);
                            }
                        }
                        let _ = bridge.set_active_account(acc.id.as_str());
                        self.account_input_mode = false;
                        self.account_selector_open = false;
                        self.set_status(join3("Offline account '", acc.name.as_str(), "' created and selected"));
                        let mut msg = chars_of("Offline account '");
                        extend_str(&mut msg, acc.name.as_str());
                        extend_str(&mut msg, "' created (uuid ");
                        extend_str(&mut msg, acc.uuid.as_str());
                        extend_str(&mut msg, ") \u{2014} persisted");
                        let text = string_from_chars(&msg);
                        self.log(LogLevel::Info, "BACKEND", text.as_str());
                        self.sync_accounts(bridge);
                        true
                    },
                    Err(e) => {
                        self.set_error(e);
                        false
                    },
                }
            },
            KeyCode::Esc => {
                self.account_input_mode = false;
                self.account_input = String::new();
                false
            },
            KeyCode::Backspace => {
                if !m.control {
                    pop_char(&mut self.account_input);
                }
                false
            },
            KeyCode::Char(c) => {
                if !m.control && utf8_shorter_than(self.account_input.as_str(), 16) {
                    push_char(&mut self.account_input, c);
                }
                false
            },
            _ => false,
        }
    }

    fn account_list_input(&mut self, bridge: &mut BackendBridge, code: KeyCode) -> (refresh: bool)
        requires
            !old(self).account_input_mode,
        ensures
            account_list_key(*old(self), *final(self), *old(bridge), *final(bridge), code, refresh),
    {
        let n = self.accounts.len();
        let idx = self.account_selector_index;
        match code {
            KeyCode::Esc => {
                self.account_selector_open = false;
                false
            },
            KeyCode::Up => {
                if idx > 0 {
                    self.account_selector_index = idx - 1;
                }
                false
            },
            KeyCode::Down => {
                if idx < n {
                    self.account_selector_index = idx + 1;
                }
                false
            },
            KeyCode::Enter => {
                if idx >= n {
                    self.account_input_mode = true;
                    self.account_input = String::new();
                    return false;
                }
                let id = self.accounts[idx].0.clone();
                let name = self.accounts[idx].1.clone();
                match bridge.set_active_account(id.as_str()) {
                    Ok(()) => {
                        self.account_selector_open = false;
                        self.set_status(join3("Launch account set to '", name.as_str(), "'"));
                        self.sync_accounts(bridge);
                        true
                    },
                    Err(e) => {
                        self.set_error(e);
                        false
                    },
                }
            },
            KeyCode::Char(c) => {
                if (c == 'x' || c == 'X') && idx < n {
                    let id = self.accounts[idx].0.clone();
                    let name = self.accounts[idx].1.clone();
                    match bridge.delete_account(id.as_str()) {
                        Ok(()) => {
                            self.set_status(join3("Deleted account '", name.as_str(), "'"));
                            self.sync_accounts(bridge);
                            let max = self.accounts.len();
                            if self.account_selector_index > max {
                                self.account_selector_index = max;
                            }
                            true
                        },
                        Err(e) => {
                            self.set_error(e);
                            false
                        },
                    }
                } else if c == 'n' || c == 'N' {
                    self.account_input_mode = true;
                    self.account_input = String::new();
                    false
                } else {
                    false
                }
            },
            _ => false,
        }
    }
}

/// The loader id of a row of the create flow's loader picker.
pub open spec fn create_loader(idx: int) -> Seq<char> {
    if idx == 0 {
        "vanilla"@
    } else if idx == 1 {
        "fabric"@
    } else if idx == 2 {
        "quilt"@
    } else {
        "forge"@
    }
}

/// The message that refuses Forge in the create flow.
pub open spec fn forge_refusal() -> Seq<char> {
    "Forge is not supported by the terminal launcher yet \u{2014} pick vanilla, fabric or quilt"@
}

fn loader_row_id(idx: usize) -> (r: &'static str)
    requires
        idx < 4,
    ensures
        r@ == create_loader(idx as int),
{
    proof {
        reveal_strlit("vanilla");
        reveal_strlit("fabric");
        reveal_strlit("quilt");
        reveal_strlit("forge");
    }
    if idx == 0 {
        "vanilla"
    } else if idx == 1 {
        "fabric"
    } else if idx == 2 {
        "quilt"
    } else {
        "forge"
    }
}

/// Choosing row `idx` of the loader picker: out-of-range rows do nothing,
/// Forge closes the picker with an error, the other loaders open the
/// game-version picker with an empty filter on its first row. `fetch` says
/// the release list has fewer than ten versions and is to be fetched first.
pub open spec fn version_picker_opened(s0: AppState, s1: AppState, idx: int, fetch: bool) -> bool {
    if idx < 0 || idx >= 4 {
        !fetch && s1 == s0
    } else if idx == 3 {
        &&& !fetch
        &&& !s1.loader_selector_open
        &&& (s1.error_message matches Some(e) && e@ == forge_refusal())
        &&& s1.version_selector_open == s0.version_selector_open
    } else {
        &&& fetch == (s0.versions@.len() < 10)
        &&& (s1.pending_version_loader matches Some(l) && l@ == create_loader(idx))
        &&& !s1.loader_selector_open
        &&& s1.version_filter@.len() == 0
        &&& s1.version_selector_index == 0
        &&& s1.version_selector_open
        &&& s1.versions == s0.versions
    }
}

impl AppState {
    /// Step two of the create flow: the loader in row `idx` was chosen.
    pub fn open_version_picker(&mut self, idx: usize) -> (fetch: bool)
        ensures
            version_picker_opened(*old(self), *final(self), idx as int, fetch),
    {
        if idx >= 4 {
            return false;
        }
        if idx == 3 {
            self.loader_selector_open = false;
            self.set_error(string_from_chars(&chars_of(
                "Forge is not supported by the terminal launcher yet \u{2014} pick vanilla, fabric or quilt",
            )));
            proof {
                reveal_strlit("Forge is not supported by the terminal launcher yet \u{2014} pick vanilla, fabric or quilt");
            }
            return false;
        }
        self.pending_version_loader = Some(loader_row_id(idx).to_owned());
        let fetch = self.versions.len() < 10;
        self.loader_selector_open = false;
        self.version_filter = String::new();
        self.version_selector_index = 0;
        self.version_selector_open = true;
        fetch
    }

    /// A key while the loader picker is open: arrows move, ENTER or the
    /// row's number (1 to 4) chooses, ESC cancels the create flow.
    #[verifier::rlimit(40)]
    pub fn handle_loader_input(&mut self, code: KeyCode, m: KeyModifiers) -> (fetch: bool)
        ensures
            match code {
                KeyCode::Esc => !fetch && !final(self).loader_selector_open && (final(self).status_message matches Some(t)
                    && t@ == "Instance creation cancelled"@),
                KeyCode::Up => !fetch && final(self).loader_selector_index == row_up(old(self).loader_selector_index as int)
                    && *final(self) == (AppState { loader_selector_index: final(self).loader_selector_index, ..*old(self) }),
                KeyCode::Down => !fetch && final(self).loader_selector_index == row_down(old(self).loader_selector_index as int, 3)
                    && *final(self) == (AppState { loader_selector_index: final(self).loader_selector_index, ..*old(self) }),
                KeyCode::Enter => version_picker_opened(*old(self), *final(self), old(self).loader_selector_index as int, fetch),
                KeyCode::Char(c) => if !m.control && '1' <= c <= '4' {
                    version_picker_opened(*old(self), *final(self), c as int - '1' as int, fetch)
                } else {
                    !fetch && *final(self) == *old(self)
                },
                _ => !fetch && *final(self) == *old(self),
            },
    {
        match code {
            KeyCode::Esc => {
                self.loader_selector_open = false;
                self.set_status(string_from_chars(&chars_of("Instance creation cancelled")));
                proof {
                    reveal_strlit("Instance creation cancelled");
                }
                false
            },
            KeyCode::Up => {
                if self.loader_selector_index > 0 {
                    self.loader_selector_index = self.loader_selector_index - 1;
                }
                false
            },
            KeyCode::Down => {
                if self.loader_selector_index < 3 {
                    self.loader_selector_index = self.loader_selector_index + 1;
                }
                false
            },
            KeyCode::Enter => {
                let idx = self.loader_selector_index;
                self.open_version_picker(idx)
            },
            KeyCode::Char(c) => {
                if !m.control && '1' <= c && c <= '4' {
                    let idx = (c as u32 - '1' as u32) as usize;
                    self.open_version_picker(idx)
                } else {
                    false
                }
            },
            _ => false,
        }
    }
}

/// The game versions the picker lists for its current filter.
pub open spec fn picker_versions(st: AppState) -> Seq<Seq<char>> {
    filtered_versions(string_views(st.versions@), st.version_filter@)
}

/// Where the version picker's highlight goes on an arrow or page key, in a
/// list of `n` versions.
pub open spec fn version_step(idx: int, n: int, code: KeyCode) -> int {
    match code {
        KeyCode::Up => row_up(idx),
        KeyCode::Down => if idx + 1 < n {
            idx + 1
        } else {
            idx
        },
        KeyCode::PageUp => if idx >= 10 {
            idx - 10
        } else {
            0
        },
        KeyCode::PageDown => if n == 0 {
            idx
        } else if idx + 10 < n - 1 {
            idx + 10
        } else {
            n - 1
        },
        _ => idx,
    }
}

/// The version filter after Backspace or a character: Backspace removes
/// the last character, a printable character is appended while the filter
/// is shorter than 16 bytes; with Control held neither happens.
pub open spec fn version_filter_edit(f: Seq<char>, code: KeyCode, m: KeyModifiers) -> Option<Seq<char>> {
    match code {
        KeyCode::Backspace => if m.control {
            None
        } else {
            Some(without_last(f))
        },
        KeyCode::Char(c) => if !m.control && !is_control(c) && utf8_len(f) < 16 {
            Some(f.push(c))
        } else {
            None
        },
        _ => None,
    }
}

/// A key that browses the version picker.
pub open spec fn is_browse_key(code: KeyCode) -> bool {
    code is Up || code is Down || code is PageUp || code is PageDown
}

impl AppState {
    fn move_version_highlight(&mut self, code: KeyCode, n: usize)
        requires
            n == picker_versions(*old(self)).len(),
        ensures
            version_moved(*old(self), *final(self), code),
    {
        let idx = self.version_selector_index;
        let next: usize = match code {
            KeyCode::Up => if idx > 0 {
                idx - 1
            } else {
                idx
            },
            KeyCode::Down => if idx < n && idx + 1 < n {
                idx + 1
            } else {
                idx
            },
            KeyCode::PageUp => if idx >= 10 {
                idx - 10
            } else {
                0
            },
            KeyCode::PageDown => if n == 0 {
                idx
            } else if idx < n - 1 && n - 1 - idx > 10 {
                idx + 10
            } else {
                n - 1
            },
            _ => idx,
        };
        self.version_selector_index = next;
    }

    fn edit_version_filter(&mut self, code: KeyCode, m: KeyModifiers)
        ensures
            version_filtered(*old(self), *final(self), code, m),
    {
        match code {
            KeyCode::Backspace => {
                if !m.control {
                    pop_char(&mut self.version_filter);
                    self.version_selector_index = 0;
                }
            },
            KeyCode::Char(c) => {
                if !m.control && !char_is_control(c) && utf8_shorter_than(self.version_filter.as_str(), 16) {
                    push_char(&mut self.version_filter, c);
                    self.version_selector_index = 0;
                }
            },
            _ => {},
        }
    }

    /// The number of versions the picker lists.
    fn picker_len(&self) -> (n: usize)
        ensures
            n == picker_versions(*self).len(),
    {
        let list = self.filtered_game_versions();
        assert(string_views(list@).len() == list@.len());
        list.len()
    }
}

/// ENTER in the version picker: the highlighted version is created with the
/// chosen loader (vanilla when none was chosen) and becomes the selected
/// instance; the picker closes either way. With no version listed only a
/// status message appears.
pub open spec fn version_chosen(s0: AppState, s1: AppState, b0: BackendBridge, b1: BackendBridge, refresh: bool) -> bool {
    let list = picker_versions(s0);
    let idx = s0.version_selector_index as int;
    if idx >= list.len() {
        !refresh && b1 == b0 && (s1.status_message matches Some(t) && t@ == "No version matches the filter"@)
    } else {
        let version = list[idx];
        let loader = match s0.pending_version_loader {
            Some(l) => l@,
            None => "vanilla"@,
        };
        &&& !s1.version_selector_open
        &&& s1.pending_version_loader is None
        &&& s1.version_filter@.len() == 0
        &&& !supported_loader(lowercase(loader)) ==> !refresh && (s1.error_message matches Some(e) && e@
            == unsupported_loader_message(loader))
        &&& supported_loader(lowercase(loader)) && trim(version).len() == 0 ==> !refresh && (
        s1.error_message matches Some(e) && e@ == "Game version must not be empty"@)
        &&& supported_loader(lowercase(loader)) && trim(version).len() > 0 ==> refresh && (
        s1.selected_instance matches Some(i) && same_instance(i, b1.manager.instances@.last())
            && i.loader@ == lowercase(loader) && i.game_version@ == trim(version) && i.name@
            == new_instance_name(s0.instances@.len()) && (s1.status_message matches Some(t) && t@
            == "Created "@ + i.loader@ + " instance '"@ + i.name@ + "' on Minecraft "@ + i.game_version@))
        &&& !refresh ==> b1.manager == b0.manager && b1.config.instances == b0.config.instances
    }
}

/// What a key does in the game-version picker.
pub open spec fn version_key(
    s0: AppState,
    s1: AppState,
    b0: BackendBridge,
    b1: BackendBridge,
    code: KeyCode,
    m: KeyModifiers,
    refresh: bool,
) -> bool {
    if is_browse_key(code) {
        !refresh && b1 == b0 && version_moved(s0, s1, code)
    } else if code is Backspace || code is Char {
        !refresh && b1 == b0 && version_filtered(s0, s1, code, m)
    } else if code is Esc {
        &&& !refresh
        &&& b1 == b0
        &&& !s1.version_selector_open
        &&& s1.pending_version_loader is None
        &&& s1.version_filter@.len() == 0
        &&& s1.loader_selector_open
    } else if code is Enter {
        version_chosen(s0, s1, b0, b1, refresh)
    } else {
        !refresh && b1 == b0 && s1 == s0
    }
}

/// The highlight moved by an arrow or page key; nothing else changed.
pub open spec fn version_moved(s0: AppState, s1: AppState, code: KeyCode) -> bool {
    s1 == (AppState {
        version_selector_index: version_step(s0.version_selector_index as int, picker_versions(s0).len() as int, code) as usize,
        ..s0
    })
}

/// The filter was edited (and the highlight went back to the first row),
/// or nothing changed when the key does not edit it.
pub open spec fn version_filtered(s0: AppState, s1: AppState, code: KeyCode, m: KeyModifiers) -> bool {
    match version_filter_edit(s0.version_filter@, code, m) {
        None => s1 == s0,
        Some(f) => s1.version_filter@ == f && s1 == (AppState {
            version_filter: s1.version_filter,
            version_selector_index: 0,
            ..s0
        }),
    }
}

impl AppState {
    /// A key while the game-version picker is open: arrows and page keys
    /// browse, typing filters, ESC goes back to the loader picker and ENTER
    /// creates the instance. The result says whether an instance was
    /// created, so the caller reloads what depends on the instances.
    pub fn handle_version_input(&mut self, bridge: &mut BackendBridge, code: KeyCode, m: KeyModifiers) -> (refresh: bool)
        requires
            old(self).instances@.len() < u64::MAX - 3,
        ensures
            version_key(*old(self), *final(self), *old(bridge), *final(bridge), code, m, refresh),
    {
        match code {
            KeyCode::Up | KeyCode::Down | KeyCode::PageUp | KeyCode::PageDown => {
                let n = self.picker_len();
                self.move_version_highlight(code, n);
                false
            },
            KeyCode::Backspace | KeyCode::Char(_) => {
                self.edit_version_filter(code, m);
                false
            },
            KeyCode::Esc => {
                self.version_selector_open = false;
                self.pending_version_loader = None;
                self.version_filter = String::new();
                self.loader_selector_open = true;
                false
            },
            KeyCode::Enter => self.create_from_version_picker(bridge),
            _ => false,
        }
    }

    fn create_from_version_picker(&mut self, bridge: &mut BackendBridge) -> (refresh: bool)
        requires
            old(self).instances@.len() < u64::MAX - 3,
        ensures
            version_chosen(*old(self), *final(self), *old(bridge), *final(bridge), refresh),
    {
        let list = self.filtered_game_versions();
        let idx = self.version_selector_index;
        if idx >= list.len() {
            proof {
                reveal_strlit("No version matches the filter");
            }
            self.set_status(string_from_chars(&chars_of("No version matches the filter")));
            return false;
        }
        let version = list[idx].clone();
        proof {
            reveal_strlit("vanilla");
            assert(version@ == picker_versions(*old(self))[idx as int]);
        }
        let loader = match &self.pending_version_loader {
            Some(l) => l.clone(),
            None => "vanilla".to_owned(),
        };
        self.version_selector_open = false;
        self.pending_version_loader = None;
        self.version_filter = String::new();
        match bridge.create_instance_full(&*self, loader.as_str(), version.as_str()) {
            Ok(instance) => {
                let mut msg = chars_of("Created ");
                extend_str(&mut msg, instance.loader.as_str());
                extend_str(&mut msg, " instance '");
                extend_str(&mut msg, instance.name.as_str());
                extend_str(&mut msg, "' on Minecraft ");
                extend_str(&mut msg, instance.game_version.as_str());
                let mut line = chars_of("Created instance '");
                extend_str(&mut line, instance.name.as_str());
                extend_str(&mut line, "' \u{2014} loader=");
                extend_str(&mut line, instance.loader.as_str());
                extend_str(&mut line, " version=");
                extend_str(&mut line, instance.game_version.as_str());
                extend_str(&mut line, " persisted");
                self.selected_instance = Some(instance);
                self.set_status(string_from_chars(&msg));
                let text = string_from_chars(&line);
                self.log(LogLevel::Info, "BACKEND", text.as_str());
                true
            },
            Err(e) => {
                self.set_error(e);
                false
            },
        }
    }
}

/// A text field's content after Backspace or a character; `None` for other
/// keys. With `ctrl_guard` set, Control held turns both into no-ops.
pub open spec fn field_edit(f: Seq<char>, code: KeyCode, m: KeyModifiers, ctrl_guard: bool) -> Option<Seq<char>> {
    match code {
        KeyCode::Backspace => if ctrl_guard && m.control {
            None
        } else {
            Some(without_last(f))
        },
        KeyCode::Char(c) => if ctrl_guard && m.control {
            None
        } else {
            Some(f.push(c))
        },
        _ => None,
    }
}

/// What a key does in the Discover search bar: ENTER ends the search and
/// hands back the trimmed query to run, ESC ends it, Backspace and
/// characters edit the query.
pub open spec fn search_key(s0: AppState, s1: AppState, code: KeyCode, m: KeyModifiers, query: Option<String>) -> bool {
    match code {
        KeyCode::Enter => (query matches Some(q) && q@ == trim(s0.discover_search@)) && s1 == (AppState {
            search_mode: false,
            ..s0
        }),
        KeyCode::Esc => query is None && s1 == (AppState { search_mode: false, ..s0 }),
        _ => query is None && match field_edit(s0.discover_search@, code, m, true) {
            None => s1 == s0,
            Some(f) => s1.discover_search@ == f && s1 == (AppState { discover_search: s1.discover_search, ..s0 }),
        },
    }
}

impl AppState {
    /// A key while the Discover search bar takes the keyboard. The result is
    /// the query to run when ENTER ended the search.
    pub fn handle_search_input(&mut self, code: KeyCode, m: KeyModifiers) -> (query: Option<String>)
        ensures
            search_key(*old(self), *final(self), code, m, query),
    {
        match code {
            KeyCode::Enter => {
                let q = trimmed(self.discover_search.as_str());
                self.search_mode = false;
                Some(q)
            },
            KeyCode::Esc => {
                self.search_mode = false;
                None
            },
            KeyCode::Backspace => {
                if !m.control {
                    pop_char(&mut self.discover_search);
                }
                None
            },
            KeyCode::Char(c) => {
                if !m.control {
                    push_char(&mut self.discover_search, c);
                }
                None
            },
            _ => None,
        }
    }
}

/// The history after recording `command`: unchanged for a blank command,
/// else the trimmed command appended and only the newest entries kept.
pub open spec fn history_after(h: Seq<String>, h1: Seq<String>, command: Seq<char>) -> bool {
    if trim(command).len() == 0 {
        h1 == h
    } else {
        h1.last()@ == trim(command) && h1 == keep_last(h.push(h1.last()), HISTORY_CAPACITY as nat)
    }
}

/// ENTER at the command prompt: the line is recorded in the history and
/// handed back to run; the prompt closes.
pub open spec fn command_submitted(s0: AppState, s1: AppState, cmd: Option<String>) -> bool {
    &&& (cmd matches Some(c) && c@ == s0.command_input@)
    &&& history_after(s0.command_history@, s1.command_history@, s0.command_input@)
    &&& s1.history_position == 0
    &&& s1.command_input@.len() == 0
    &&& !s1.command_prompt_active
}

/// ESC at the command prompt: the line is cleared and the prompt closes.
pub open spec fn command_cancelled(s0: AppState, s1: AppState) -> bool {
    &&& s1 == (AppState {
        command_input: s1.command_input,
        command_prompt_active: false,
        history_position: 0,
        ..s0
    })
    &&& s1.command_input@.len() == 0
}

/// The up arrow: one entry back in the history, shown in the prompt.
pub open spec fn history_back(s0: AppState, s1: AppState) -> bool {
    let n = s0.command_history@.len();
    let p = s0.history_position as nat;
    &&& s1 == (AppState { history_position: s1.history_position, command_input: s1.command_input, ..s0 })
    &&& n == 0 ==> s1.history_position == s0.history_position && s1.command_input == s0.command_input
    &&& n > 0 ==> s1.history_position == back_position(n, p) && s1.command_input@ == history_entry(
        s0.command_history@,
        s1.history_position as nat,
    )
}

/// The down arrow: one entry forward in the history; past the newest the
/// prompt is empty.
pub open spec fn history_forward(s0: AppState, s1: AppState) -> bool {
    let n = s0.command_history@.len();
    let p = s0.history_position as nat;
    &&& s1 == (AppState { history_position: s1.history_position, command_input: s1.command_input, ..s0 })
    &&& p == 0 ==> s1.history_position == 0 && s1.command_input == s0.command_input
    &&& p > 0 ==> s1.history_position == p - 1
    &&& p == 1 ==> s1.command_input@.len() == 0
    &&& p > 1 && p - 1 <= n ==> s1.command_input@ == history_entry(s0.command_history@, (p - 1) as nat)
    &&& p - 1 > n ==> s1.command_input == s0.command_input
}

/// Backspace and characters edit the command line.
pub open spec fn command_edited(s0: AppState, s1: AppState, code: KeyCode, m: KeyModifiers) -> bool {
    match field_edit(s0.command_input@, code, m, true) {
        None => s1 == s0,
        Some(f) => s1.command_input@ == f && s1 == (AppState { command_input: s1.command_input, ..s0 }),
    }
}

/// What a key does at the command prompt.
pub open spec fn command_key(s0: AppState, s1: AppState, code: KeyCode, m: KeyModifiers, cmd: Option<String>) -> bool {
    match code {
        KeyCode::Enter => command_submitted(s0, s1, cmd),
        KeyCode::Esc => cmd is None && command_cancelled(s0, s1),
        KeyCode::Up => cmd is None && history_back(s0, s1),
        KeyCode::Down => cmd is None && history_forward(s0, s1),
        _ => cmd is None && command_edited(s0, s1, code, m),
    }
}

impl AppState {
    /// A key while the command prompt is open. The result is the line to
    /// run when ENTER submitted it.
    pub fn handle_command_input(&mut self, code: KeyCode, m: KeyModifiers) -> (cmd: Option<String>)
        ensures
            command_key(*old(self), *final(self), code, m, cmd),
    {
        match code {
            KeyCode::Enter => self.submit_command(),
            KeyCode::Esc => {
                self.cancel_command();
                None
            },
            KeyCode::Up => {
                self.previous_command();
                None
            },
            KeyCode::Down => {
                self.next_command();
                None
            },
            _ => {
                self.edit_command_line(code, m);
                None
            },
        }
    }

    fn submit_command(&mut self) -> (cmd: Option<String>)
        ensures
            command_submitted(*old(self), *final(self), cmd),
    {
        let input = self.command_input.clone();
        self.add_to_history(input.as_str());
        self.command_prompt_active = false;
        Some(input)
    }

    fn cancel_command(&mut self)
        ensures
            command_cancelled(*old(self), *final(self)),
    {
        self.command_input = String::new();
        self.command_prompt_active = false;
        self.history_position = 0;
    }

    fn edit_command_line(&mut self, code: KeyCode, m: KeyModifiers)
        ensures
            command_edited(*old(self), *final(self), code, m),
    {
        match code {
            KeyCode::Backspace => {
                if !m.control {
                    pop_char(&mut self.command_input);
                }
            },
            KeyCode::Char(c) => {
                if !m.control {
                    push_char(&mut self.command_input, c);
                }
            },
            _ => {},
        }
    }
}

/// The message logged when custom JVM arguments were saved.
pub open spec fn jvm_saved_message(args: Seq<char>) -> Seq<char> {
    "Custom JVM args saved ("@ + decimal(words(args).len()) + " args)"@
}

/// ENTER in the custom JVM arguments editor: the custom profile with the
/// trimmed line's words as arguments; the editor closes.
pub open spec fn custom_jvm_applied(s0: AppState, s1: AppState, b0: BackendBridge, b1: BackendBridge) -> bool {
    let args = trim(s0.custom_jvm_input@);
    &&& b1.config.settings.optimization_profile == OptimizationProfile::Custom
    &&& crate::argus::backend::string_views(b1.config.settings.custom_jvm_args@) == words(args)
    &&& b1.config.instances == b0.config.instances
    &&& b1.config.settings.default_memory == b0.config.settings.default_memory
    &&& s1.settings_edit_mode == SettingsEditMode::Inactive
    &&& s1.custom_jvm_input@.len() == 0
    &&& s1.logs@.last().message@ == jvm_saved_message(args)
}

/// ESC in the custom JVM arguments editor: the line is discarded.
pub open spec fn custom_jvm_cancelled(s1: AppState) -> bool {
    &&& s1.settings_edit_mode == SettingsEditMode::Inactive
    &&& s1.custom_jvm_input@.len() == 0
    &&& s1.logs@.last().message@ == "Custom JVM edit cancelled"@
}

/// Backspace and characters edit the custom JVM line (Control or not).
pub open spec fn custom_jvm_edited(s0: AppState, s1: AppState, code: KeyCode) -> bool {
    match field_edit(s0.custom_jvm_input@, code, KeyModifiers { control: false, shift: false, alt: false }, false) {
        None => s1 == s0,
        Some(f) => s1.custom_jvm_input@ == f && s1 == (AppState { custom_jvm_input: s1.custom_jvm_input, ..s0 }),
    }
}

/// What a key does in the custom JVM arguments editor; only ENTER asks the
/// caller to save the settings.
pub open spec fn custom_jvm_key(s0: AppState, s1: AppState, b0: BackendBridge, b1: BackendBridge, code: KeyCode, save: bool) -> bool {
    match code {
        KeyCode::Enter => save && custom_jvm_applied(s0, s1, b0, b1),
        KeyCode::Esc => !save && b1 == b0 && custom_jvm_cancelled(s1),
        _ => !save && b1 == b0 && custom_jvm_edited(s0, s1, code),
    }
}

impl AppState {
    /// A key while the custom JVM arguments editor is open.
    pub fn handle_custom_jvm_input(&mut self, bridge: &mut BackendBridge, code: KeyCode) -> (save: bool)
        ensures
            custom_jvm_key(*old(self), *final(self), *old(bridge), *final(bridge), code, save),
    {
        match code {
            KeyCode::Enter => {
                self.apply_custom_jvm(bridge);
                true
            },
            KeyCode::Esc => {
                self.custom_jvm_input = String::new();
                self.settings_edit_mode = SettingsEditMode::Inactive;
                self.log(LogLevel::Info, "ARGUS", "Custom JVM edit cancelled");
                false
            },
            _ => {
                self.edit_custom_jvm(code);
                false
            },
        }
    }

    fn apply_custom_jvm(&mut self, bridge: &mut BackendBridge)
        ensures
            custom_jvm_applied(*old(self), *final(self), *old(bridge), *final(bridge)),
    {
        let input = trimmed(self.custom_jvm_input.as_str());
        bridge.set_optimization_profile(OptimizationProfile::Custom);
        bridge.set_custom_jvm_args(input.as_str());
        let words_vec = crate::text::split_words(input.as_str());
        let count = words_vec.len();
        assert(count == words(input@).len()) by {
            assert(words_vec@.map_values(|w: String| w@).len() == words_vec@.len());
        }
        let mut msg = chars_of("Custom JVM args saved (");
        extend_chars(&mut msg, &decimal_chars(count as u64));
        extend_str(&mut msg, " args)");
        let text = string_from_chars(&msg);
        self.log(LogLevel::Info, "BACKEND", text.as_str());
        self.settings_edit_mode = SettingsEditMode::Inactive;
        self.custom_jvm_input = String::new();
        proof {
            reveal_strlit("Custom JVM args saved (");
            reveal_strlit(" args)");
        }
    }

    fn edit_custom_jvm(&mut self, code: KeyCode)
        ensures
            custom_jvm_edited(*old(self), *final(self), code),
    {
        match code {
            KeyCode::Backspace => pop_char(&mut self.custom_jvm_input),
            KeyCode::Char(c) => push_char(&mut self.custom_jvm_input, c),
            _ => {},
        }
    }
}

/// The row the account picker opens on: the first account with the active
/// id, else the create row after the accounts.
pub open spec fn selector_start(accounts: Seq<Account>, active: Option<String>) -> usize {
    match active {
        Some(id) => first_id_index(accounts, id@) as usize,
        None => accounts.len() as usize,
    }
}

/// Index of the first account with this id, or the number of accounts when
/// none has it.
pub open spec fn first_id_index(accounts: Seq<Account>, id: Seq<char>) -> int
    decreases accounts.len(),
{
    if accounts.len() == 0 {
        0
    } else if accounts[0].id@ == id {
        0
    } else {
        first_id_index(accounts.drop_first(), id) + 1
    }
}

proof fn lemma_first_id_index(accounts: Seq<Account>, id: Seq<char>, i: int)
    requires
        0 <= i <= accounts.len(),
        forall|k: int| 0 <= k < i ==> accounts[k].id@ != id,
        i < accounts.len() ==> accounts[i].id@ == id,
    ensures
        first_id_index(accounts, id) == i,
    decreases i,
{
    if i > 0 {
        let t = accounts.drop_first();
        assert forall|k: int| 0 <= k < i - 1 implies t[k].id@ != id by {
            assert(t[k] == accounts[k + 1]);
        }
        if i - 1 < t.len() {
            assert(t[i - 1] == accounts[i]);
        }
        lemma_first_id_index(t, id, i - 1);
    }
}

/// Which handler a key press goes to: the open text field or overlay, in
/// this order of precedence, else the main key map.
#[derive(Debug, Clone, Copy, PartialEq, Eq, Structural)]
pub enum KeyOwner {
    Search,
    LoaderPicker,
    VersionPicker,
    InstallChooser,
    Accounts,
    CustomJvm,
    CommandPrompt,
    Main,
}

/// The handler that owns the keyboard in a state.
pub open spec fn owner_of(st: AppState) -> KeyOwner {
    if st.search_mode {
        KeyOwner::Search
    } else if st.loader_selector_open {
        KeyOwner::LoaderPicker
    } else if st.version_selector_open {
        KeyOwner::VersionPicker
    } else if st.pending_install is Some {
        KeyOwner::InstallChooser
    } else if st.account_selector_open || st.account_input_mode {
        KeyOwner::Accounts
    } else if st.settings_edit_mode == SettingsEditMode::CustomJvmEditor {
        KeyOwner::CustomJvm
    } else if st.command_prompt_active {
        KeyOwner::CommandPrompt
    } else {
        KeyOwner::Main
    }
}

impl AppState {
    /// The handler the next key press goes to.
    pub fn key_owner(&self) -> (r: KeyOwner)
        ensures
            r == owner_of(*self),
    {
        if self.search_mode {
            KeyOwner::Search
        } else if self.loader_selector_open {
            KeyOwner::LoaderPicker
        } else if self.version_selector_open {
            KeyOwner::VersionPicker
        } else if self.pending_install.is_some() {
            KeyOwner::InstallChooser
        } else if self.account_selector_open || self.account_input_mode {
            KeyOwner::Accounts
        } else if self.settings_edit_mode == SettingsEditMode::CustomJvmEditor {
            KeyOwner::CustomJvm
        } else if self.command_prompt_active {
            KeyOwner::CommandPrompt
        } else {
            KeyOwner::Main
        }
    }
}

/// A command submitted at the prompt comes back with the up arrow: after
/// ENTER on a non-blank line, the next up arrow shows the trimmed line.
pub proof fn law_submitted_command_is_recalled(
    s0: AppState,
    s1: AppState,
    s2: AppState,
    m0: KeyModifiers,
    m1: KeyModifiers,
    cmd: Option<String>,
    none: Option<String>,
)
    requires
        command_key(s0, s1, KeyCode::Enter, m0, cmd),
        command_key(s1, s2, KeyCode::Up, m1, none),
        trim(s0.command_input@).len() > 0,
    ensures
        s2.command_input@ == trim(s0.command_input@),
{
    let h = s1.command_history@;
    assert(h.len() >= 1) by {
        let full = s0.command_history@.push(h.last());
        if full.len() <= HISTORY_CAPACITY {
            assert(h == full);
        } else {
            assert(h == full.subrange(full.len() - HISTORY_CAPACITY as int, full.len() as int));
        }
    }
    assert(back_position(h.len(), 0) == 1);
    assert(history_entry(h, 1) == h[h.len() - 1]@);
}

} // verus!
