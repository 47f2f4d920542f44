//! Offline player accounts.

use vstd::prelude::*;
use crate::keyed::Keyed;
use crate::digest::{hex_encode, hex_lower, md5_of_text, md5_text};
use crate::text::{chars_of, extend_chars, extend_str, is_ascii_alnum, string_from_chars, sub_chars};

verus! {

/// A saved offline player profile.
pub struct Account {
    pub id: String,
    pub name: String,
    pub uuid: String,
}

impl Clone for Account {
    fn clone(&self) -> (r: Self)
        ensures
            r == *self,
    {
        Account { id: self.id.clone(), name: self.name.clone(), uuid: self.uuid.clone() }
    }
}

impl Keyed for Account {
    open spec fn key(&self) -> Seq<char> {
        self.uuid@
    }

    fn key_str(&self) -> (r: &str) {
        self.uuid.as_str()
    }
}

/// A valid player name: 3 to 16 characters, each an ASCII letter, digit
/// or underscore.
pub open spec fn valid_username(s: Seq<char>) -> bool {
    &&& 3 <= s.len() <= 16
    &&& forall|i: int| 0 <= i < s.len() ==> is_ascii_alnum(#[trigger] s[i]) || s[i] == '_'
}

/// Whether `name` is a valid player name.
pub fn is_valid_username(name: &str) -> (r: bool)
    ensures
        r == valid_username(name@),
{
    let n = name.unicode_len();
    if n < 3 || n > 16 {
        return false;
    }
    let mut i: usize = 0;
    while i < n
        invariant
            n == name@.len(),
            i <= n,
            forall|k: int| 0 <= k < i ==> is_ascii_alnum(#[trigger] name@[k]) || name@[k] == '_',
        decreases n - i,
    {
        let c = name.get_char(i);
        if !(crate::text::is_alnum(c) || c == '_') {
            return false;
        }
        i = i + 1;
    }
    true
}

impl Account {
    /// A new offline account for `name`, with a fresh random identity that
    /// serves as both its id and its player uuid.
    pub fn new_offline(name: String) -> (r: Account)
        ensures
            r.name == name,
            r.id@ == r.uuid@,
            r.id@.len() == 36,
    {
        let id = crate::ids::new_uuid_v4();
        Account { uuid: id.clone(), id, name }
    }
}

/// The digest with the version (3) and variant bits of a name-based UUID
/// set: byte 6 keeps its low nibble under `3`, byte 8 its low six bits
/// under `10`.
pub open spec fn name_uuid_bits(d: Seq<u8>) -> Seq<u8> {
    d.update(6, (d[6] % 16 + 48) as u8).update(8, (d[8] % 64 + 128) as u8)
}

/// 32 hexadecimal digits in the 8-4-4-4-12 form.
pub open spec fn hyphenated(h: Seq<char>) -> Seq<char> {
    h.subrange(0, 8) + "-"@ + h.subrange(8, 12) + "-"@ + h.subrange(12, 16) + "-"@ + h.subrange(16, 20) + "-"@
        + h.subrange(20, 32)
}

/// The offline player uuid of `name`: the name-based (MD5) UUID of
/// `OfflinePlayer:` followed by the name, as the game computes it.
pub open spec fn offline_uuid_of(name: Seq<char>) -> Seq<char> {
    hyphenated(hex_lower(name_uuid_bits(md5_of_text("OfflinePlayer:"@ + name))))
}

proof fn lemma_hex_lower_len(b: Seq<u8>)
    ensures
        hex_lower(b).len() == 2 * b.len(),
    decreases b.len(),
{
    if b.len() > 0 {
        lemma_hex_lower_len(b.drop_last());
    }
}

/// The stable offline player uuid of a name, which servers and skins see.
pub fn offline_uuid(name: &str) -> (r: String)
    ensures
        r@ == offline_uuid_of(name@),
        r@.len() == 36,
{
    proof {
        reveal_strlit("OfflinePlayer:");
        reveal_strlit("-");
    }
    let mut text = chars_of("OfflinePlayer:");
    extend_str(&mut text, name);
    let t = string_from_chars(&text);
    let mut d = md5_text(t.as_str());
    let b6 = d[6] % 16 + 48;
    let b8 = d[8] % 64 + 128;
    d.set(6, b6);
    d.set(8, b8);
    let hex = hex_encode(d.as_slice());
    proof {
        lemma_hex_lower_len(d@);
    }
    let h = chars_of(hex.as_str());
    let mut out = sub_chars(&h, 0, 8);
    extend_str(&mut out, "-");
    extend_chars(&mut out, &sub_chars(&h, 8, 12));
    extend_str(&mut out, "-");
    extend_chars(&mut out, &sub_chars(&h, 12, 16));
    extend_str(&mut out, "-");
    extend_chars(&mut out, &sub_chars(&h, 16, 20));
    extend_str(&mut out, "-");
    extend_chars(&mut out, &sub_chars(&h, 20, 32));
    proof {
        assert(d@ == name_uuid_bits(md5_of_text("OfflinePlayer:"@ + name@)));
    }
    string_from_chars(&out)
}

} // verus!
