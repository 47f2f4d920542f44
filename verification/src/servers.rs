//! Favourite multiplayer servers and the Server List Ping (SLP) wire format.
//!
//! The server list itself is a plain vector owned by the caller (the
//! application persists it); this module holds the operations on it, the
//! `host:port` parser, and the VarInt framing used by the SLP handshake.

use vstd::prelude::*;
use vstd::string::StringSliceAdditionalSpecFns;
use crate::errors::LauncherError;
use crate::text::{
    chars_of, concat3, last_index, parse_u16, parse_unsigned, rfind_char, string_from_chars,
    strip_leading, strip_leading_chars, strip_trailing, strip_trailing_chars, sub_chars, trim,
    trim_chars,
};

verus! {

/// A user-added server entry. `id` is a uuid v4 string so each row is
/// stable across renames.
pub struct ServerEntry {
    pub id: String,
    pub name: String,
    /// `host:port`.
    pub address: String,
    /// Optional instance id that "Join" launches when selected.
    pub instance_id: Option<String>,
}

impl Clone for ServerEntry {
    fn clone(&self) -> (r: Self)
        ensures
            r == *self,
    {
        ServerEntry {
            id: self.id.clone(),
            name: self.name.clone(),
            address: self.address.clone(),
            instance_id: self.instance_id.clone(),
        }
    }
}

impl ServerEntry {
    /// A new entry with a fresh random id and no bound instance.
    pub fn new(name: String, address: String) -> (r: Self)
        ensures
            r.name == name,
            r.address == address,
            r.instance_id is None,
            r.id@.len() == 36,
    {
        ServerEntry { id: crate::ids::new_uuid_v4(), name, address, instance_id: None }
    }
}

/// Snapshot of the most recent ping result.
pub struct PingInfo {
    pub description: String,
    pub players_online: u32,
    pub players_max: u32,
    pub version_name: String,
    pub latency_ms: u128,
}

// ===================== server list =====================

/// The entries of `s` whose id differs from `id`, in order.
pub open spec fn without_id(s: Seq<ServerEntry>, id: Seq<char>) -> Seq<ServerEntry>
    decreases s.len(),
{
    if s.len() == 0 {
        s
    } else {
        let p = without_id(s.drop_last(), id);
        if s.last().id@ == id {
            p
        } else {
            p.push(s.last())
        }
    }
}

pub open spec fn has_id(s: Seq<ServerEntry>, id: Seq<char>) -> bool {
    exists|i: int| 0 <= i < s.len() && s[i].id@ == id
}

/// Index of the first entry with the given id, or -1.
pub open spec fn first_with_id(s: Seq<ServerEntry>, id: Seq<char>) -> int
    decreases s.len(),
{
    if s.len() == 0 {
        -1
    } else if s[0].id@ == id {
        0
    } else {
        let r = first_with_id(s.drop_first(), id);
        if r < 0 {
            -1
        } else {
            r + 1
        }
    }
}

pub proof fn lemma_first_with_id(s: Seq<ServerEntry>, id: Seq<char>)
    ensures
        -1 <= first_with_id(s, id) < s.len(),
        first_with_id(s, id) >= 0 ==> s[first_with_id(s, id)].id@ == id,
        first_with_id(s, id) >= 0 <==> has_id(s, id),
        forall|k: int| 0 <= k < first_with_id(s, id) ==> s[k].id@ != id,
        first_with_id(s, id) < 0 ==> forall|k: int| 0 <= k < s.len() ==> s[k].id@ != id,
    decreases s.len(),
{
    if s.len() > 0 && s[0].id@ != id {
        lemma_first_with_id(s.drop_first(), id);
        if has_id(s, id) {
            let i = choose|i: int| 0 <= i < s.len() && s[i].id@ == id;
            assert(s.drop_first()[i - 1].id@ == id);
        }
        assert forall|k: int| 0 <= k < first_with_id(s, id) implies s[k].id@ != id by {
            if k > 0 {
                assert(s[k] == s.drop_first()[k - 1]);
            }
        }
        if first_with_id(s, id) < 0 {
            assert forall|k: int| 0 <= k < s.len() implies s[k].id@ != id by {
                if k > 0 {
                    assert(s[k] == s.drop_first()[k - 1]);
                }
            }
        }
    }
}

proof fn lemma_without_id_props(s: Seq<ServerEntry>, id: Seq<char>)
    ensures
        without_id(s, id).len() <= s.len(),
        without_id(s, id).len() == s.len() <==> !has_id(s, id),
        forall|k: int| 0 <= k < without_id(s, id).len() ==> without_id(s, id)[k].id@ != id,
    decreases s.len(),
{
    if s.len() > 0 {
        let t = s.drop_last();
        lemma_without_id_props(t, id);
        if has_id(t, id) {
            let i = choose|i: int| 0 <= i < t.len() && t[i].id@ == id;
            assert(s[i].id@ == id);
        }
        if has_id(s, id) && !has_id(t, id) {
            let i = choose|i: int| 0 <= i < s.len() && s[i].id@ == id;
            if i < t.len() {
                assert(t[i].id@ == id);
            }
        }
    }
}

/// A copy of the whole server list.
pub fn list_servers(store: &Vec<ServerEntry>) -> (r: Vec<ServerEntry>)
    ensures
        r@ == store@,
{
    store.clone()
}

/// Appends `entry` to the list.
pub fn add_server(store: &mut Vec<ServerEntry>, entry: ServerEntry)
    ensures
        final(store)@ == old(store)@.push(entry),
{
    store.push(entry);
}

/// Removes every entry with the given id; true when one was removed.
pub fn remove_server(store: &mut Vec<ServerEntry>, id: &str) -> (removed: bool)
    ensures
        final(store)@ == without_id(old(store)@, id@),
        removed == has_id(old(store)@, id@),
{
    let ghost orig = store@;
    let key = id.to_owned();
    let mut kept: Vec<ServerEntry> = Vec::new();
    let n = store.len();
    let mut i: usize = 0;
    while i < n
        invariant
            n == orig.len(),
            store@ == orig,
            key@ == id@,
            i <= n,
            kept@ == without_id(orig.subrange(0, i as int), id@),
        decreases n - i,
    {
        let e = store[i].clone();
        proof {
            assert(orig.subrange(0, i + 1).drop_last() == orig.subrange(0, i as int));
        }
        if e.id != key {
            kept.push(e);
        }
        i = i + 1;
    }
    proof {
        assert(orig.subrange(0, n as int) == orig);
        lemma_without_id_props(orig, id@);
    }
    let removed = kept.len() != n;
    *store = kept;
    removed
}

/// Replaces the first entry whose id matches `entry.id`; true when one did.
pub fn update_server(store: &mut Vec<ServerEntry>, entry: ServerEntry) -> (updated: bool)
    ensures
        updated == has_id(old(store)@, entry.id@),
        updated ==> final(store)@ == old(store)@.update(
            first_with_id(old(store)@, entry.id@),
            entry,
        ),
        !updated ==> final(store)@ == old(store)@,
{
    proof {
        lemma_first_with_id(store@, entry.id@);
    }
    let n = store.len();
    let mut i: usize = 0;
    while i < n
        invariant
            n == store@.len(),
            store@ == old(store)@,
            i <= n,
            forall|k: int| 0 <= k < i ==> store@[k].id@ != entry.id@,
        decreases n - i,
    {
        if store[i].id == entry.id {
            proof {
                lemma_first_with_id(store@, entry.id@);
                assert(has_id(store@, entry.id@));
                assert(first_with_id(store@, entry.id@) == i);
            }
            store.set(i, entry);
            return true;
        }
        i = i + 1;
    }
    assert(!has_id(store@, entry.id@));
    false
}

// ===================== host:port =====================

/// The outcome of parsing a `host:port` address: the host (without IPv6
/// brackets) and the port, or the error message.
pub open spec fn parse_address_spec(input: Seq<char>) -> Result<(Seq<char>, u16), Seq<char>> {
    let s = trim(input);
    let k = last_index(s, ':');
    if k < 0 {
        Err("address must be host:port — got '"@ + s + "'"@)
    } else {
        let host = s.subrange(0, k);
        let port = s.subrange(k + 1, s.len() as int);
        match parse_unsigned(port, u16::MAX as int) {
            None => Err("invalid port in '"@ + s + "'"@),
            Some(p) => {
                let h = strip_trailing(strip_leading(trim(host), '['), ']');
                if h.len() == 0 {
                    Err("missing host in '"@ + s + "'"@)
                } else {
                    Ok((h, p as u16))
                }
            },
        }
    }
}

/// Parses `host:port`, trimming surrounding whitespace and the brackets of
/// an IPv6 host. A host that is empty once trimmed and unbracketed (`:5`,
/// ` :5`, `[]:5`) is missing.
pub fn parse_address(input: &str) -> (r: Result<(String, u16), LauncherError>)
    ensures
        match r {
            Ok((h, p)) => parse_address_spec(input@) == Ok::<(Seq<char>, u16), Seq<char>>((h@, p)),
            Err(LauncherError::Instance(m)) => parse_address_spec(input@) == Err::<
                (Seq<char>, u16),
                Seq<char>,
            >(m@),
            Err(_) => false,
        },
{
    let raw = chars_of(input);
    let s = trim_chars(&raw);
    match rfind_char(&s, ':') {
        None => Err(
            LauncherError::Instance(concat3("address must be host:port — got '", &s, "'")),
        ),
        Some(k) => {
            let host = sub_chars(&s, 0, k);
            let port = sub_chars(&s, k + 1, s.len());
            match parse_u16(&port) {
                None => Err(LauncherError::Instance(concat3("invalid port in '", &s, "'"))),
                Some(p) => {
                    let t = trim_chars(&host);
                    let a = strip_leading_chars(&t, '[');
                    let b = strip_trailing_chars(&a, ']');
                    if b.len() == 0 {
                        Err(LauncherError::Instance(concat3("missing host in '", &s, "'")))
                    } else {
                        Ok((string_from_chars(&b), p))
                    }
                },
            }
        },
    }
}

// ===================== VarInt framing =====================

/// The VarInt encoding of a non-negative number: seven bits per byte,
/// least significant group first, high bit set on every byte but the last.
pub open spec fn varint(v: nat) -> Seq<u8>
    decreases v,
{
    if v < 128 {
        seq![v as u8]
    } else {
        seq![(v % 128 + 128) as u8] + varint(v / 128)
    }
}

pub open spec fn p128(n: nat) -> nat
    decreases n,
{
    if n == 0 {
        1
    } else {
        128 * p128((n - 1) as nat)
    }
}

/// The number carried by the seven-bit groups of `s`, first group lowest.
pub open spec fn vi_val(s: Seq<u8>) -> nat
    decreases s.len(),
{
    if s.len() == 0 {
        0
    } else {
        (s[0] % 128 + 128 * vi_val(s.drop_first())) as nat
    }
}

/// Two's-complement reading of the low 32 bits of `x`.
pub open spec fn wrap_i32(x: int) -> int {
    let m = x % 0x1_0000_0000;
    if m >= 0x8000_0000 {
        m - 0x1_0000_0000
    } else {
        m
    }
}

/// Why a VarInt could not be read.
#[derive(PartialEq, Eq, Structural)]
pub enum VarIntError {
    /// The input ended before the last byte of the VarInt.
    UnexpectedEof,
    /// Five bytes all had their continuation bit set.
    TooLong,
}

/// How many bytes the VarInt at the start of `s` takes, reading from index `i`.
pub open spec fn varint_frame_from(s: Seq<u8>, i: nat) -> Result<nat, VarIntError>
    decreases 5 - i,
{
    if i >= s.len() {
        Err(VarIntError::UnexpectedEof)
    } else if s[i as int] < 128 {
        Ok(i + 1)
    } else if i >= 4 {
        Err(VarIntError::TooLong)
    } else {
        varint_frame_from(s, i + 1)
    }
}

pub open spec fn varint_frame(s: Seq<u8>) -> Result<nat, VarIntError> {
    varint_frame_from(s, 0)
}

proof fn lemma_frame_bound(s: Seq<u8>, i: nat)
    requires
        i <= 4,
    ensures
        varint_frame_from(s, i) matches Ok(n) ==> i < n <= s.len() && n <= 5,
    decreases 5 - i,
{
    if i < s.len() && s[i as int] >= 128 && i < 4 {
        lemma_frame_bound(s, i + 1);
    }
}

proof fn lemma_low_bits(v: i32)
    requires
        v >= 0,
    ensures
        (v & 0x7f) as int == v % 128,
        (v >> 7) as int == v / 128,
        (v & 0x7f) < 128,
{
    assert((v & 0x7f) as int == v % 128 && (v >> 7) as int == v / 128 && (v & 0x7f) < 128)
        by (bit_vector)
        requires
            v >= 0,
    ;
}

proof fn lemma_set_high(b: u8)
    requires
        b < 128,
    ensures
        (b | 0x80) == b + 128,
{
    assert((b | 0x80) == b + 128) by (bit_vector)
        requires
            b < 128,
    ;
}

/// VarInt encoding of a non-negative `i32`.
pub fn encode_vi(value: i32) -> (r: Vec<u8>)
    requires
        value >= 0,
    ensures
        r@ == varint(value as nat),
{
    let ghost v0 = value as nat;
    let mut out: Vec<u8> = Vec::new();
    let mut cur = value;
    loop
        invariant
            cur >= 0,
            v0 == value as nat,
            out@ + varint(cur as nat) == varint(v0),
        decreases cur,
    {
        proof {
            lemma_low_bits(cur);
        }
        let b = (cur & 0x7f) as u8;
        let ghost old_v = cur as nat;
        cur = cur >> 7;
        if cur == 0 {
            proof {
                assert(old_v < 128);
                assert(b as nat == old_v);
                assert(varint(old_v) == seq![b]);
                assert(out@.push(b) =~= out@ + varint(old_v));
            }
            out.push(b);
            return out;
        }
        proof {
            lemma_set_high(b);
            assert(b as nat == old_v % 128);
            assert(varint(old_v) == seq![(old_v % 128 + 128) as u8] + varint(cur as nat));
            assert(out@.push(b | 0x80) + varint(cur as nat) =~= out@ + varint(old_v));
        }
        out.push(b | 0x80);
    }
}

/// A payload prefixed by its length as a VarInt.
pub fn encode_with_length(payload: &[u8]) -> (r: Vec<u8>)
    requires
        payload@.len() <= i32::MAX,
    ensures
        r@ == varint(payload@.len()) + payload@,
{
    let mut out = encode_vi(payload.len() as i32);
    let mut i: usize = 0;
    let ghost head = out@;
    while i < payload.len()
        invariant
            i <= payload@.len(),
            out@ == head + payload@.subrange(0, i as int),
        decreases payload@.len() - i,
    {
        out.push(payload[i]);
        i = i + 1;
    }
    assert(payload@.subrange(0, payload@.len() as int) == payload@);
    out
}

proof fn lemma_vi_val_push(t: Seq<u8>, b: u8)
    ensures
        vi_val(t.push(b)) == vi_val(t) + (b % 128) * p128(t.len()),
    decreases t.len(),
{
    let x = (b % 128) as int;
    if t.len() > 0 {
        let d = t.drop_first();
        lemma_vi_val_push(d, b);
        assert(t.push(b).drop_first() == d.push(b));
        assert(t.push(b)[0] == t[0]);
        let q = p128(d.len()) as int;
        assert(p128(t.len()) == 128 * q);
        let a = vi_val(d) as int;
        assert(vi_val(d.push(b)) == a + x * q);
        assert(vi_val(t.push(b)) == t[0] % 128 + 128 * (a + x * q));
        assert(vi_val(t) == t[0] % 128 + 128 * a);
        assert(128 * (x * q) == x * (128 * q)) by (nonlinear_arith);
    } else {
        assert(t.push(b).drop_first() =~= Seq::<u8>::empty());
        assert(vi_val(Seq::<u8>::empty()) == 0);
        assert(p128(0) == 1);
        assert(vi_val(t.push(b)) == x);
    }
}

proof fn lemma_or_shift(value: i32, x: i32, k: nat)
    requires
        k <= 3,
        0 <= value < p128(k),
        0 <= x < 128,
    ensures
        (value | (x << (7 * k) as i32)) as int == value + x * p128(k),
        (value | (x << (7 * k) as i32)) < p128(k + 1),
{
    reveal_with_fuel(p128, 5);
    if k == 0 {
        assert((value | (x << 0i32)) == value + x && value + x < 128) by (bit_vector)
            requires
                value < 1,
                0 <= value,
                0 <= x < 128,
        ;
    } else if k == 1 {
        assert((value | (x << 7i32)) == value + x * 128 && value + x * 128 < 16384)
            by (bit_vector)
            requires
                0 <= value < 128,
                0 <= x < 128,
        ;
    } else if k == 2 {
        assert((value | (x << 14i32)) == value + x * 16384 && value + x * 16384 < 2097152)
            by (bit_vector)
            requires
                0 <= value < 16384,
                0 <= x < 128,
        ;
    } else {
        assert((value | (x << 21i32)) == value + x * 2097152 && value + x * 2097152
            < 268435456) by (bit_vector)
            requires
                0 <= value < 2097152,
                0 <= x < 128,
        ;
    }
}

proof fn lemma_or_last(value: i32, x: i32)
    requires
        0 <= value < 268435456,
        0 <= x < 128,
    ensures
        (value | (x << 28i32)) as int == wrap_i32(value + x * 268435456),
{
    let lo = x % 16;
    assert((value | (x << 28i32)) as int == value + lo * 268435456 - (if lo >= 8 {
        4294967296int
    } else {
        0int
    })) by (bit_vector)
        requires
            0 <= value < 268435456,
            0 <= x < 128,
            lo == x % 16,
    ;
    let t = value + x * 268435456;
    assert(t == value + lo * 268435456 + (x / 16) * 4294967296);
    assert(t % 4294967296 == value + lo * 268435456) by {
        vstd::arithmetic::div_mod::lemma_fundamental_div_mod_converse(
            t,
            4294967296,
            x / 16,
            value + lo * 268435456,
        );
    }
}

/// Reads the VarInt at the start of `bytes`, as a blocking reader would
/// byte by byte: the value and how many bytes it took.
pub fn read_vi(bytes: &[u8]) -> (r: Result<(i32, usize), VarIntError>)
    ensures
        match r {
            Ok((v, n)) => varint_frame(bytes@) == Ok::<nat, VarIntError>(n as nat) && v as int
                == wrap_i32(vi_val(bytes@.subrange(0, n as int)) as int),
            Err(e) => varint_frame(bytes@) == Err::<nat, VarIntError>(e),
        },
{
    let mut value: i32 = 0;
    let mut i: usize = 0;
    proof {
        assert(bytes@.subrange(0, 0) =~= Seq::<u8>::empty());
    }
    loop
        invariant
            i <= 4,
            0 <= value,
            value as int == vi_val(bytes@.subrange(0, i as int)),
            (value as int) < p128(i as nat),
            varint_frame(bytes@) == varint_frame_from(bytes@, i as nat),
        decreases 4 - i,
    {
        if i >= bytes.len() {
            return Err(VarIntError::UnexpectedEof);
        }
        let b = bytes[i];
        proof {
            assert((b & 0x7f) as int == b % 128 && (b & 0x80 == 0) == (b < 128)) by (bit_vector);
            assert(bytes@.subrange(0, i + 1) == bytes@.subrange(0, i as int).push(b));
            lemma_vi_val_push(bytes@.subrange(0, i as int), b);
        }
        let x = (b & 0x7f) as i32;
        if i < 4 {
            let sh: i32 = (7 * i) as i32;
            proof {
                lemma_or_shift(value, x, i as nat);
            }
            value = value | (x << sh);
            if b & 0x80 == 0 {
                return Ok((value, i + 1));
            }
            i = i + 1;
        } else {
            proof {
                reveal_with_fuel(p128, 5);
                assert(p128(4) == 268435456);
                lemma_or_last(value, x);
            }
            let last = value | (x << 28i32);
            if b & 0x80 == 0 {
                return Ok((last, i + 1));
            }
            return Err(VarIntError::TooLong);
        }
    }
}


// ===================== VarInt laws =====================

proof fn lemma_varint_value(v: nat)
    ensures
        vi_val(varint(v)) == v,
    decreases v,
{
    let s = varint(v);
    if v >= 128 {
        lemma_varint_value(v / 128);
        assert(s[0] == (v % 128 + 128) as u8);
        assert(s.drop_first() =~= varint(v / 128));
        assert(s[0] % 128 == v % 128);
        assert(v == v % 128 + 128 * (v / 128));
        assert(vi_val(s) == (s[0] % 128 + 128 * vi_val(s.drop_first())) as nat);
    } else {
        assert(s.drop_first() =~= Seq::<u8>::empty());
        assert(s[0] == v);
        assert(vi_val(s) == (s[0] % 128 + 128 * vi_val(s.drop_first())) as nat);
        assert(vi_val(s.drop_first()) == 0);
    }
}

proof fn lemma_varint_len(v: nat, k: nat)
    requires
        k >= 1,
        v < p128(k),
    ensures
        1 <= varint(v).len() <= k,
    decreases v,
{
    if v >= 128 {
        assert(k >= 2) by {
            if k == 1 {
                assert(p128(1) == 128 * p128(0));
            }
        }
        assert(p128(k) == 128 * p128((k - 1) as nat));
        assert(v / 128 < p128((k - 1) as nat));
        lemma_varint_len(v / 128, (k - 1) as nat);
    }
}

proof fn lemma_varint_frame(pre: Seq<u8>, v: nat, rest: Seq<u8>)
    requires
        pre.len() + varint(v).len() <= 5,
        forall|i: int| 0 <= i < pre.len() ==> pre[i] >= 128,
    ensures
        varint_frame_from(pre + varint(v) + rest, pre.len()) == Ok::<nat, VarIntError>(
            pre.len() + varint(v).len(),
        ),
    decreases v,
{
    let s = pre + varint(v) + rest;
    assert(s[pre.len() as int] == varint(v)[0]);
    if v >= 128 {
        let b = (v % 128 + 128) as u8;
        let pre2 = pre.push(b);
        assert(varint(v) == seq![b] + varint(v / 128));
        assert(s =~= pre2 + varint(v / 128) + rest);
        lemma_varint_frame(pre2, v / 128, rest);
    }
}

/// Reading back the VarInt encoding of any non-negative `i32` frames
/// exactly the bytes of the encoding, whatever follows them, and yields the
/// number that was encoded.
pub proof fn law_varint_roundtrip(v: int, rest: Seq<u8>)
    requires
        0 <= v <= i32::MAX,
    ensures
        varint_frame(varint(v as nat) + rest) == Ok::<nat, VarIntError>(varint(v as nat).len()),
        (varint(v as nat) + rest).subrange(0, varint(v as nat).len() as int) == varint(v as nat),
        wrap_i32(vi_val(varint(v as nat)) as int) == v,
        varint(v as nat).len() <= 5,
{
    reveal_with_fuel(p128, 6);
    assert(p128(5) == 34359738368);
    lemma_varint_len(v as nat, 5);
    lemma_varint_frame(Seq::<u8>::empty(), v as nat, rest);
    assert(Seq::<u8>::empty() + varint(v as nat) + rest =~= varint(v as nat) + rest);
    assert((varint(v as nat) + rest).subrange(0, varint(v as nat).len() as int) =~= varint(
        v as nat,
    ));
    lemma_varint_value(v as nat);
    assert(v % 0x1_0000_0000 == v);
}

// ===================== Server List Ping packets =====================

/// The body of the modern handshake packet: id 0x00, protocol version 0,
/// the host as a length-prefixed string, the port big-endian, next state 1.
pub open spec fn handshake_body(host: Seq<u8>, port: u16) -> Seq<u8> {
    seq![0u8] + varint(0) + varint(host.len()) + host + seq![
        (port / 256) as u8,
        (port % 256) as u8,
    ] + varint(1)
}

/// Everything sent to ask a server for its status: the length-prefixed
/// handshake, then the length-prefixed status request (packet 0x00).
pub open spec fn status_request(host: Seq<u8>, port: u16) -> Seq<u8> {
    let body = handshake_body(host, port);
    varint(body.len()) + body + varint(1) + seq![0u8]
}

fn append_bytes(v: &mut Vec<u8>, t: &[u8])
    ensures
        final(v)@ == old(v)@ + t@,
{
    let mut i: usize = 0;
    while i < t.len()
        invariant
            i <= t@.len(),
            v@ == old(v)@ + t@.subrange(0, i as int),
        decreases t@.len() - i,
    {
        v.push(t[i]);
        i = i + 1;
    }
}

/// The bytes that open a Server List Ping to `host:port`.
pub fn status_request_packets(host: &str, port: u16) -> (r: Vec<u8>)
    requires
        host.spec_bytes().len() <= i32::MAX - 16,
    ensures
        r@ == status_request(host.spec_bytes(), port),
{
    let host_bytes = host.as_bytes();
    let mut body: Vec<u8> = Vec::new();
    body.push(0x00u8);
    let e0 = encode_vi(0);
    append_bytes(&mut body, &e0);
    let el = encode_vi(host_bytes.len() as i32);
    append_bytes(&mut body, &el);
    append_bytes(&mut body, host_bytes);
    let hi = (port >> 8) as u8;
    let lo = (port & 0xff) as u8;
    proof {
        assert(hi == (port / 256) as u8 && lo == (port % 256) as u8) by (bit_vector)
            requires
                hi == (port >> 8) as u8,
                lo == (port & 0xff) as u8,
        ;
    }
    body.push(hi);
    body.push(lo);
    let e1 = encode_vi(1);
    append_bytes(&mut body, &e1);
    proof {
        reveal_with_fuel(varint, 2);
        assert(body@ =~= handshake_body(host.spec_bytes(), port));
        reveal_with_fuel(p128, 6);
        assert(p128(5) == 34359738368);
        lemma_varint_len(host_bytes@.len() as nat, 5);
        assert(body@.len() <= host_bytes@.len() + 10);
    }
    let mut out = encode_with_length(&body);
    let mut status: Vec<u8> = Vec::new();
    status.push(0x00u8);
    let framed = encode_with_length(&status);
    append_bytes(&mut out, &framed);
    proof {
        assert(status@ =~= seq![0u8]);
        assert(out@ =~= status_request(host.spec_bytes(), port));
    }
    out
}

/// Why the start of a status reply could not be read.
pub enum PingFrameError {
    /// The reply ended early.
    UnexpectedEof,
    /// The first byte was not packet id 0x00.
    UnexpectedPacketId(u8),
    /// The payload length was not a valid VarInt.
    BadLength(VarIntError),
}

/// Reads the head of a status reply: one packet-id byte that must be 0x00,
/// then the payload length as a VarInt. Returns that length and how many
/// bytes the head took.
pub fn read_status_header(bytes: &[u8]) -> (r: Result<(i32, usize), PingFrameError>)
    ensures
        bytes@.len() == 0 ==> r matches Err(PingFrameError::UnexpectedEof),
        bytes@.len() > 0 && bytes@[0] != 0 ==> (r matches Err(
            PingFrameError::UnexpectedPacketId(b),
        ) && b == bytes@[0]),
        bytes@.len() > 0 && bytes@[0] == 0 ==> match r {
            Ok((len, n)) => varint_frame(bytes@.skip(1)) == Ok::<nat, VarIntError>(
                (n - 1) as nat,
            ) && len as int == wrap_i32(vi_val(bytes@.subrange(1, n as int)) as int),
            Err(PingFrameError::BadLength(e)) => varint_frame(bytes@.skip(1)) == Err::<
                nat,
                VarIntError,
            >(e),
            Err(_) => false,
        },
{
    if bytes.len() == 0 {
        return Err(PingFrameError::UnexpectedEof);
    }
    if bytes[0] != 0 {
        return Err(PingFrameError::UnexpectedPacketId(bytes[0]));
    }
    let mut rest: Vec<u8> = Vec::new();
    let mut i: usize = 1;
    while i < bytes.len()
        invariant
            1 <= i <= bytes@.len(),
            rest@ == bytes@.subrange(1, i as int),
        decreases bytes@.len() - i,
    {
        rest.push(bytes[i]);
        i = i + 1;
    }
    assert(rest@ == bytes@.skip(1));
    match read_vi(&rest) {
        Ok((len, n)) => {
            proof {
                lemma_frame_bound(rest@, 0);
            }
            assert(rest@.subrange(0, n as int) =~= bytes@.subrange(1, n + 1));
            Ok((len, n + 1))
        },
        Err(e) => Err(PingFrameError::BadLength(e)),
    }
}

/// Where the JSON text of a status payload starts: at its first `{`, or at
/// 0 when there is none (some servers prefix a chat-formatting marker).
pub fn json_start(body: &[u8]) -> (r: usize)
    ensures
        r <= body@.len(),
        (exists|i: int| 0 <= i < body@.len() && body@[i] == 0x7b) ==> body@[r as int] == 0x7b
            && forall|k: int| 0 <= k < r ==> body@[k] != 0x7b,
        (forall|i: int| 0 <= i < body@.len() ==> body@[i] != 0x7b) ==> r == 0,
{
    let mut i: usize = 0;
    while i < body.len()
        invariant
            i <= body@.len(),
            forall|k: int| 0 <= k < i ==> body@[k] != 0x7b,
        decreases body@.len() - i,
    {
        if body[i] == 0x7b {
            return i;
        }
        i = i + 1;
    }
    0
}

} // verus!
