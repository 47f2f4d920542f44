//! The single focus registry of the terminal UI.
//!
//! TAB moves exactly one target forward, SHIFT+TAB exactly one backward,
//! both wrapping around; no id is ever registered twice. Lookups by id are
//! linear scans over the ordered target list, whose ids are kept distinct.

use vstd::prelude::*;

verus! {

/// A focusable target, identified by a unique string key.
pub struct FocusTarget {
    pub id: String,
    pub label: String,
}

impl Clone for FocusTarget {
    fn clone(&self) -> (r: Self)
        ensures
            r == *self,
    {
        FocusTarget { id: self.id.clone(), label: self.label.clone() }
    }
}

impl FocusTarget {
    pub fn new(id: &str, label: &str) -> (r: Self)
        ensures
            r.id@ == id@,
            r.label@ == label@,
    {
        FocusTarget { id: id.to_owned(), label: label.to_owned() }
    }
}

/// The ids of a sequence of targets, in order.
pub open spec fn target_ids(t: Seq<FocusTarget>) -> Seq<Seq<char>> {
    t.map_values(|x: FocusTarget| x.id@)
}

/// No id occurs twice.
pub open spec fn distinct_ids(ids: Seq<Seq<char>>) -> bool {
    forall|i: int, j: int| 0 <= i < ids.len() && 0 <= j < ids.len() && i != j ==> ids[i] != ids[j]
}

/// Where TAB moves the focus from `c` among `len` targets.
pub open spec fn step_next(c: nat, len: nat) -> nat {
    if len == 0 {
        c
    } else {
        ((c + 1) % len) as nat
    }
}

/// Where SHIFT+TAB moves the focus from `c` among `len` targets.
pub open spec fn step_previous(c: nat, len: nat) -> nat {
    if len == 0 {
        c
    } else if c == 0 {
        (len - 1) as nat
    } else {
        (c - 1) as nat
    }
}

/// Single canonical focus system: one focus index over all registered
/// targets, shared by keyboard and mouse navigation.
pub struct FocusManager {
    targets: Vec<FocusTarget>,
    current_index: usize,
}

impl FocusManager {
    /// The registered targets, in registration order.
    pub closed spec fn items(&self) -> Seq<FocusTarget> {
        self.targets@
    }

    /// The ids of the registered targets, in registration order.
    pub open spec fn ids(&self) -> Seq<Seq<char>> {
        target_ids(self.items())
    }

    /// The focus index.
    pub closed spec fn cursor(&self) -> nat {
        self.current_index as nat
    }

    /// Ids are distinct, and the focus index names a target (or is 0 when
    /// there is none).
    pub open spec fn wf(&self) -> bool {
        &&& distinct_ids(self.ids())
        &&& (self.items().len() == 0 ==> self.cursor() == 0)
        &&& (self.items().len() > 0 ==> self.cursor() < self.items().len())
    }

    pub fn new() -> (r: Self)
        ensures
            r.wf(),
            r.items().len() == 0,
            r.cursor() == 0,
    {
        FocusManager { targets: Vec::new(), current_index: 0 }
    }

    /// Whether a target with this id is registered (a linear scan).
    fn index_of(&self, id: &str) -> (r: Option<usize>)
        requires
            self.wf(),
        ensures
            r matches Some(i) ==> i < self.items().len() && self.ids()[i as int] == id@,
            r is None ==> !self.ids().contains(id@),
    {
        let key = id.to_owned();
        let mut i: usize = 0;
        while i < self.targets.len()
            invariant
                i <= self.targets@.len(),
                key@ == id@,
                forall|k: int| 0 <= k < i ==> self.targets@[k].id@ != id@,
            decreases self.targets@.len() - i,
        {
            if self.targets[i].id == key {
                return Some(i);
            }
            i = i + 1;
        }
        proof {
            if self.ids().contains(id@) {
                let k = choose|k: int| 0 <= k < self.ids().len() && self.ids()[k] == id@;
                assert(self.targets@[k].id@ == id@);
            }
        }
        None
    }

    /// Registers a focusable target and returns its index. An id may be
    /// registered only once.
    pub fn register(&mut self, id: &str, label: &str) -> (r: usize)
        requires
            old(self).wf(),
            !old(self).ids().contains(id@),
        ensures
            final(self).wf(),
            r == old(self).items().len(),
            final(self).ids() == old(self).ids().push(id@),
            final(self).items().len() == old(self).items().len() + 1,
            final(self).items()[r as int].label@ == label@,
            forall|k: int| 0 <= k < r ==> final(self).items()[k] == old(self).items()[k],
            final(self).cursor() == old(self).cursor(),
    {
        let index = self.targets.len();
        self.targets.push(FocusTarget::new(id, label));
        proof {
            assert(self.ids() =~= old(self).ids().push(id@));
        }
        index
    }

    /// Registers several targets, in order.
    pub fn register_all(&mut self, targets: &[(&str, &str)])
        requires
            old(self).wf(),
            distinct_ids(old(self).ids() + pair_ids(targets@)),
            old(self).items().len() + targets@.len() <= usize::MAX,
        ensures
            final(self).wf(),
            final(self).ids() == old(self).ids() + pair_ids(targets@),
            final(self).items().len() == old(self).items().len() + targets@.len(),
            forall|k: int|
                0 <= k < targets@.len() ==> #[trigger] final(self).items()[old(self).items().len()
                    + k].label@ == targets@[k].1@,
            forall|k: int|
                0 <= k < old(self).items().len() ==> #[trigger] final(self).items()[k] == old(
                    self,
                ).items()[k],
            final(self).cursor() == old(self).cursor(),
    {
        let ghost n0 = self.items().len();
        let mut i: usize = 0;
        while i < targets.len()
            invariant
                i <= targets@.len(),
                self.wf(),
                n0 == old(self).items().len(),
                n0 + targets@.len() <= usize::MAX,
                distinct_ids(old(self).ids() + pair_ids(targets@)),
                self.ids() == old(self).ids() + pair_ids(targets@.subrange(0, i as int)),
                self.items().len() == n0 + i,
                forall|k: int|
                    0 <= k < i ==> #[trigger] self.items()[n0 + k].label@ == targets@[k].1@,
                forall|k: int| 0 <= k < n0 ==> #[trigger] self.items()[k] == old(self).items()[k],
                self.cursor() == old(self).cursor(),
            decreases targets@.len() - i,
        {
            let (id, label) = targets[i];
            proof {
                let all = old(self).ids() + pair_ids(targets@);
                assert(pair_ids(targets@.subrange(0, i + 1)) =~= pair_ids(
                    targets@.subrange(0, i as int),
                ).push(id@));
                assert(all[n0 + i] == id@);
                if self.ids().contains(id@) {
                    let k = choose|k: int| 0 <= k < self.ids().len() && self.ids()[k] == id@;
                    assert(self.ids()[k] == all[k]);
                    assert(false);
                }
            }
            self.register(id, label);
            i = i + 1;
        }
        proof {
            assert(targets@.subrange(0, targets@.len() as int) =~= targets@);
        }
    }

    /// Moves focus exactly one step forward, wrapping around.
    pub fn next(&mut self)
        requires
            old(self).wf(),
        ensures
            final(self).wf(),
            final(self).items() == old(self).items(),
            final(self).cursor() == step_next(old(self).cursor(), old(self).items().len()),
    {
        if self.targets.len() == 0 {
            return;
        }
        self.current_index = (self.current_index + 1) % self.targets.len();
    }

    /// Moves focus exactly one step backward, wrapping around.
    pub fn previous(&mut self)
        requires
            old(self).wf(),
        ensures
            final(self).wf(),
            final(self).items() == old(self).items(),
            final(self).cursor() == step_previous(old(self).cursor(), old(self).items().len()),
    {
        if self.targets.len() == 0 {
            return;
        }
        if self.current_index == 0 {
            self.current_index = self.targets.len() - 1;
        } else {
            self.current_index = self.current_index - 1;
        }
    }

    /// Sets focus to `index`, clamped to the last target; no effect when
    /// nothing is registered.
    pub fn set(&mut self, index: usize)
        requires
            old(self).wf(),
        ensures
            final(self).wf(),
            final(self).items() == old(self).items(),
            old(self).items().len() == 0 ==> final(self).cursor() == old(self).cursor(),
            old(self).items().len() > 0 ==> final(self).cursor() == (if index
                < old(self).items().len() {
                index as nat
            } else {
                (old(self).items().len() - 1) as nat
            }),
    {
        if self.targets.len() > 0 {
            let last = self.targets.len() - 1;
            self.current_index = if index < last {
                index
            } else {
                last
            };
        }
    }

    /// Sets focus to the first target.
    pub fn first(&mut self)
        requires
            old(self).wf(),
        ensures
            final(self).wf(),
            final(self).items() == old(self).items(),
            final(self).cursor() == 0,
    {
        self.current_index = 0;
    }

    /// Sets focus to the target with this id; false (and no change) when
    /// there is none.
    pub fn set_by_id(&mut self, id: &str) -> (r: bool)
        requires
            old(self).wf(),
        ensures
            final(self).wf(),
            final(self).items() == old(self).items(),
            r == old(self).ids().contains(id@),
            r ==> final(self).ids()[final(self).cursor() as int] == id@,
            !r ==> final(self).cursor() == old(self).cursor(),
    {
        match self.index_of(id) {
            Some(i) => {
                self.current_index = i;
                proof {
                    assert(self.ids()[i as int] == id@);
                }
                true
            },
            None => false,
        }
    }

    /// The focused target, if any.
    pub fn current(&self) -> (r: Option<&FocusTarget>)
        requires
            self.wf(),
        ensures
            self.items().len() == 0 ==> r is None,
            self.items().len() > 0 ==> r == Some(&self.items()[self.cursor() as int]),
    {
        if self.current_index < self.targets.len() {
            Some(&self.targets[self.current_index])
        } else {
            None
        }
    }

    pub fn current_index(&self) -> (r: usize)
        ensures
            r == self.cursor(),
    {
        self.current_index
    }

    pub fn len(&self) -> (r: usize)
        ensures
            r == self.items().len(),
    {
        self.targets.len()
    }

    pub fn is_empty(&self) -> (r: bool)
        ensures
            r == (self.items().len() == 0),
    {
        self.targets.len() == 0
    }

    /// All targets, in registration order.
    pub fn targets(&self) -> (r: &[FocusTarget])
        ensures
            r@ == self.items(),
    {
        self.targets.as_slice()
    }

    /// The index of the target with this id.
    pub fn find(&self, id: &str) -> (r: Option<usize>)
        requires
            self.wf(),
        ensures
            r matches Some(i) ==> i < self.items().len() && self.ids()[i as int] == id@,
            r is None <==> !self.ids().contains(id@),
    {
        let r = self.index_of(id);
        proof {
            if let Some(i) = r {
                assert(self.ids()[i as int] == id@);
            }
        }
        r
    }

    /// Removes all targets and resets the focus.
    pub fn clear(&mut self)
        ensures
            final(self).wf(),
            final(self).items().len() == 0,
            final(self).cursor() == 0,
    {
        self.targets = Vec::new();
        self.current_index = 0;
    }

    /// Replaces all targets by `targets`, focusing the first.
    pub fn rebuild(&mut self, targets: &[(&str, &str)])
        requires
            distinct_ids(pair_ids(targets@)),
            targets@.len() <= usize::MAX,
        ensures
            final(self).wf(),
            final(self).ids() == pair_ids(targets@),
            forall|k: int|
                0 <= k < targets@.len() ==> #[trigger] final(self).items()[k].label@
                    == targets@[k].1@,
            final(self).cursor() == 0,
    {
        self.clear();
        proof {
            assert(self.ids() + pair_ids(targets@) =~= pair_ids(targets@));
        }
        let ghost n = self.items().len();
        self.register_all(targets);
        proof {
            assert(self.ids() =~= pair_ids(targets@));
            assert forall|k: int| 0 <= k < targets@.len() implies #[trigger] self.items()[k].label@
                == targets@[k].1@ by {
                assert(self.items()[n + k].label@ == targets@[k].1@);
            }
        }
    }
}

/// The ids of a list of `(id, label)` pairs.
pub open spec fn pair_ids(t: Seq<(&str, &str)>) -> Seq<Seq<char>> {
    t.map_values(|p: (&str, &str)| p.0@)
}

// ===================== laws =====================

/// TAB then SHIFT+TAB, or SHIFT+TAB then TAB, leaves the focus where it was.
pub proof fn law_next_previous_inverse(c: nat, len: nat)
    requires
        c < len,
    ensures
        step_previous(step_next(c, len), len) == c,
        step_next(step_previous(c, len), len) == c,
{
    if c + 1 == len {
        assert((c + 1) % len == 0) by {
            vstd::arithmetic::div_mod::lemma_mod_self_0(len as int);
        }
    } else {
        vstd::arithmetic::div_mod::lemma_small_mod((c + 1) as nat, len);
    }
    if c == 0 {
        vstd::arithmetic::div_mod::lemma_mod_self_0(len as int);
    } else {
        vstd::arithmetic::div_mod::lemma_small_mod(c, len);
    }
}

/// TAB and SHIFT+TAB keep the focus on a registered target.
pub proof fn law_step_stays_in_range(c: nat, len: nat)
    requires
        c < len,
    ensures
        step_next(c, len) < len,
        step_previous(c, len) < len,
{
}

} // verus!
