//! Lists of records identified by a string key (instances, accounts):
//! removal of every record with a key, replacement of the first one, and
//! lookup, each stated over the sequence of records.

use vstd::prelude::*;

verus! {

/// A record with a string key.
pub trait Keyed {
    spec fn key(&self) -> Seq<char>;

    fn key_str(&self) -> (r: &str)
        ensures
            r@ == self.key(),
    ;
}

/// The records of `s` whose key differs from `k`, in order.
pub open spec fn without_key<T: Keyed>(s: Seq<T>, k: Seq<char>) -> Seq<T>
    decreases s.len(),
{
    if s.len() == 0 {
        s
    } else {
        let p = without_key(s.drop_last(), k);
        if s.last().key() == k {
            p
        } else {
            p.push(s.last())
        }
    }
}

pub open spec fn has_key<T: Keyed>(s: Seq<T>, k: Seq<char>) -> bool {
    exists|i: int| 0 <= i < s.len() && #[trigger] s[i].key() == k
}

/// Index of the first record with key `k`, or -1.
pub open spec fn first_with_key<T: Keyed>(s: Seq<T>, k: Seq<char>) -> int
    decreases s.len(),
{
    if s.len() == 0 {
        -1
    } else if s[0].key() == k {
        0
    } else {
        let r = first_with_key(s.drop_first(), k);
        if r < 0 {
            -1
        } else {
            r + 1
        }
    }
}

pub proof fn lemma_first_with_key<T: Keyed>(s: Seq<T>, k: Seq<char>)
    ensures
        -1 <= first_with_key(s, k) < s.len(),
        first_with_key(s, k) >= 0 ==> s[first_with_key(s, k)].key() == k,
        first_with_key(s, k) >= 0 <==> has_key(s, k),
        forall|j: int| 0 <= j < first_with_key(s, k) ==> s[j].key() != k,
        first_with_key(s, k) < 0 ==> forall|j: int| 0 <= j < s.len() ==> s[j].key() != k,
    decreases s.len(),
{
    if s.len() > 0 && s[0].key() != k {
        lemma_first_with_key(s.drop_first(), k);
        if has_key(s, k) {
            let i = choose|i: int| 0 <= i < s.len() && #[trigger] s[i].key() == k;
            assert(s.drop_first()[i - 1].key() == k);
        }
        assert forall|j: int| 0 <= j < first_with_key(s, k) implies s[j].key() != k by {
            if j > 0 {
                assert(s[j] == s.drop_first()[j - 1]);
            }
        }
        if first_with_key(s, k) < 0 {
            assert forall|j: int| 0 <= j < s.len() implies s[j].key() != k by {
                if j > 0 {
                    assert(s[j] == s.drop_first()[j - 1]);
                }
            }
        }
    }
}

pub proof fn lemma_without_key<T: Keyed>(s: Seq<T>, k: Seq<char>)
    ensures
        without_key(s, k).len() <= s.len(),
        without_key(s, k).len() == s.len() <==> !has_key(s, k),
        forall|j: int| 0 <= j < without_key(s, k).len() ==> without_key(s, k)[j].key() != k,
        !has_key(s, k) ==> without_key(s, k) == s,
    decreases s.len(),
{
    if s.len() > 0 {
        let t = s.drop_last();
        lemma_without_key(t, k);
        if has_key(t, k) {
            let i = choose|i: int| 0 <= i < t.len() && #[trigger] t[i].key() == k;
            assert(s[i].key() == k);
        }
        if has_key(s, k) && !has_key(t, k) {
            let i = choose|i: int| 0 <= i < s.len() && #[trigger] s[i].key() == k;
            if i < t.len() {
                assert(t[i].key() == k);
            }
        }
        if !has_key(s, k) {
            assert forall|j: int| 0 <= j < t.len() implies t[j].key() != k by {
                assert(t[j] == s[j]);
            }
            assert(s.last().key() != k) by {
                assert(s[s.len() - 1].key() != k);
            }
            assert(t.push(s.last()) =~= s);
        }
    } else {
        assert(!has_key(s, k));
    }
}

/// Two lists whose records have the same keys, position by position, have
/// their first record with any key at the same place.
pub proof fn lemma_same_keys_first<T: Keyed>(s: Seq<T>, t: Seq<T>, k: Seq<char>)
    requires
        s.len() == t.len(),
        forall|i: int| 0 <= i < s.len() ==> #[trigger] s[i].key() == t[i].key(),
    ensures
        first_with_key(s, k) == first_with_key(t, k),
    decreases s.len(),
{
    if s.len() > 0 {
        assert(s[0].key() == t[0].key());
        if s[0].key() != k {
            assert forall|i: int| 0 <= i < s.drop_first().len() implies #[trigger] s.drop_first()[i].key() == t.drop_first()[i].key() by {
                assert(s[i + 1].key() == t[i + 1].key());
            }
            lemma_same_keys_first(s.drop_first(), t.drop_first(), k);
        }
    }
}

proof fn lemma_without_key_append<T: Keyed>(s: Seq<T>, x: T, k: Seq<char>)
    ensures
        without_key(s.push(x), k) == (if x.key() == k {
            without_key(s, k)
        } else {
            without_key(s, k).push(x)
        }),
{
    assert(s.push(x).drop_last() =~= s);
}

/// Index of the first record with key `k`.
pub fn position_by_key<T: Keyed>(v: &[T], k: &str) -> (r: Option<usize>)
    ensures
        r matches Some(i) ==> i as int == first_with_key(v@, k@),
        r is None <==> !has_key(v@, k@),
{
    proof {
        lemma_first_with_key(v@, k@);
    }
    let mut i: usize = 0;
    while i < v.len()
        invariant
            i <= v@.len(),
            forall|j: int| 0 <= j < i ==> v@[j].key() != k@,
        decreases v@.len() - i,
    {
        if crate::text::str_eq(v[i].key_str(), k) {
            proof {
                lemma_first_with_key(v@, k@);
                assert(has_key(v@, k@));
            }
            return Some(i);
        }
        i = i + 1;
    }
    proof {
        if has_key(v@, k@) {
            let j = choose|j: int| 0 <= j < v@.len() && #[trigger] v@[j].key() == k@;
            assert(v@[j].key() != k@);
        }
    }
    None
}

/// Removes every record with key `k`; true when one was removed.
pub fn remove_by_key<T: Keyed>(v: &mut Vec<T>, k: &str) -> (removed: bool)
    ensures
        final(v)@ == without_key(old(v)@, k@),
        removed == has_key(old(v)@, k@),
{
    let ghost orig = v@;
    let n = v.len();
    let mut i: usize = 0;
    let ghost mut j: int = 0;
    while i < v.len()
        invariant
            orig == old(v)@,
            n == orig.len(),
            0 <= i <= j <= orig.len(),
            i <= v@.len(),
            v@.subrange(0, i as int) == without_key(orig.subrange(0, j), k@),
            v@.subrange(i as int, v@.len() as int) == orig.subrange(j, orig.len() as int),
        decreases v@.len() - i,
    {
        proof {
            assert(v@.subrange(i as int, v@.len() as int).len() == orig.subrange(
                j,
                orig.len() as int,
            ).len());
            assert(v@.subrange(i as int, v@.len() as int)[0] == orig.subrange(
                j,
                orig.len() as int,
            )[0]);
            assert(v@[i as int] == orig[j]);
            lemma_without_key_append(orig.subrange(0, j), orig[j], k@);
            assert(orig.subrange(0, j + 1) =~= orig.subrange(0, j).push(orig[j]));
        }
        if crate::text::str_eq(v[i].key_str(), k) {
            let ghost before = v@;
            v.remove(i);
            proof {
                let tb = before.subrange(i as int, before.len() as int);
                let to = orig.subrange(j, orig.len() as int);
                assert(v@.subrange(0, i as int) =~= before.subrange(0, i as int));
                assert(v@.subrange(i as int, v@.len() as int) =~= tb.drop_first());
                assert(orig.subrange(j + 1, orig.len() as int) =~= to.drop_first());
                j = j + 1;
            }
        } else {
            let ghost before = v@;
            proof {
                let tb = before.subrange(i as int, before.len() as int);
                let to = orig.subrange(j, orig.len() as int);
                assert(v@.subrange(0, i + 1) =~= before.subrange(0, i as int).push(v@[i as int]));
                assert(v@.subrange(i + 1, v@.len() as int) =~= tb.drop_first());
                assert(orig.subrange(j + 1, orig.len() as int) =~= to.drop_first());
                j = j + 1;
            }
            i = i + 1;
        }
    }
    proof {
        assert(v@.subrange(0, i as int) =~= v@);
        assert(orig.subrange(j, orig.len() as int).len() == 0);
        assert(j == orig.len());
        assert(orig.subrange(0, j) =~= orig);
        lemma_without_key(orig, k@);
    }
    v.len() != n
}

/// Replaces the first record whose key is `item`'s key; true when one did.
pub fn replace_by_key<T: Keyed>(v: &mut Vec<T>, item: T) -> (replaced: bool)
    ensures
        replaced == has_key(old(v)@, item.key()),
        replaced ==> final(v)@ == old(v)@.update(first_with_key(old(v)@, item.key()), item),
        !replaced ==> final(v)@ == old(v)@,
{
    match position_by_key(v.as_slice(), item.key_str()) {
        Some(i) => {
            proof {
                lemma_first_with_key(v@, item.key());
            }
            v.set(i, item);
            true
        },
        None => false,
    }
}

} // verus!
