//! Small association maps over string keys: a borrowed read-only map and
//! a fixed-capacity owned map, as the command catalog and the decoded
//! parameter sets use them.
use vstd::prelude::*;
use vstd::std_specs::cmp::PartialEqSpec;

verus! {

/// Relies on str's `PartialEq`: two string slices are equal exactly when
/// their character sequences are.
#[verifier::external_body]
pub(crate) fn str_eq(a: &str, b: &str) -> (r: bool)
    ensures
        r == (a@ == b@),
{
    a == b
}

/// Index of the first pair whose key reads `key`, or -1.
pub open spec fn assoc_idx<V>(entries: Seq<(&'static str, V)>, key: Seq<char>) -> int
    decreases entries.len(),
{
    if entries.len() == 0 {
        -1
    } else if entries[0].0@ == key {
        0
    } else {
        let rest = assoc_idx(entries.drop_first(), key);
        if rest < 0 {
            -1
        } else {
            rest + 1
        }
    }
}

/// What `assoc_idx` finds: either a first match, or no match at all.
pub proof fn lemma_assoc_idx<V>(entries: Seq<(&'static str, V)>, key: Seq<char>)
    ensures
        assoc_idx(entries, key) >= 0 ==> 0 <= assoc_idx(entries, key) < entries.len() && entries[
            assoc_idx(entries, key)
        ].0@ == key && forall|j: int| 0 <= j < assoc_idx(entries, key) ==> entries[j].0@ != key,
        assoc_idx(entries, key) < 0 ==> forall|j: int|
            0 <= j < entries.len() ==> entries[j].0@ != key,
    decreases entries.len(),
{
    if entries.len() > 0 && entries[0].0@ != key {
        lemma_assoc_idx(entries.drop_first(), key);
        assert(forall|j: int|
            1 <= j < entries.len() ==> entries[j] == entries.drop_first()[j - 1]);
    }
}

/// The value the first matching pair carries, if any.
pub open spec fn spec_assoc<V>(entries: Seq<(&'static str, V)>, key: Seq<char>) -> Option<V> {
    if assoc_idx(entries, key) >= 0 {
        Some(entries[assoc_idx(entries, key)].1)
    } else {
        None
    }
}

/// A read-only map over a borrowed slice of key/value pairs; lookups
/// take the first pair with the asked-for key.
#[derive(Debug, PartialEq)]
pub struct SliceMap<V: 'static>(pub &'static [(&'static str, V)]);

impl<V: PartialEq + 'static> SliceMap<V> {
    pub open spec fn entries(self) -> Seq<(&'static str, V)> {
        self.0@
    }

    pub fn new(map: &'static [(&'static str, V)]) -> (r: SliceMap<V>)
        ensures
            r.entries() == map@,
    {
        SliceMap(map)
    }

    /// The value stored under `key`, if any.
    pub fn get(&self, key: &str) -> (r: Option<&V>)
        ensures
            r matches Some(v) ==> spec_assoc(self.entries(), key@) == Some(*v),
            r is None ==> spec_assoc(self.entries(), key@) is None,
    {
        proof {
            lemma_assoc_idx(self.entries(), key@);
        }
        let mut i: usize = 0;
        while i < self.0.len()
            invariant
                i <= self.entries().len(),
                forall|j: int| 0 <= j < i ==> self.entries()[j].0@ != key@,
            decreases self.entries().len() - i,
        {
            let pair = vstd::slice::slice_index_get(self.0, i);
            if str_eq(pair.0, key) {
                proof {
                    lemma_assoc_idx(self.entries(), key@);
                }
                return Some(&pair.1);
            }
            i = i + 1;
        }
        None
    }

    /// Is some pair stored under `key`?
    pub fn contains_key(&self, key: &str) -> (r: bool)
        ensures
            r <==> spec_assoc(self.entries(), key@) is Some,
    {
        self.get(key).is_some()
    }

    /// Is `value` stored under some key? Exact whenever `V`'s equality
    /// obeys its specification.
    pub fn contains_value(&self, value: &V) -> (r: bool)
        ensures
            V::obeys_eq_spec() ==> (r <==> exists|j: int|
                0 <= j < self.entries().len() && (#[trigger] self.entries()[j].1).eq_spec(value)),
    {
        let mut i: usize = 0;
        while i < self.0.len()
            invariant
                i <= self.entries().len(),
                V::obeys_eq_spec() ==> forall|j: int|
                    0 <= j < i ==> !(#[trigger] self.entries()[j].1).eq_spec(value),
            decreases self.entries().len() - i,
        {
            let pair = vstd::slice::slice_index_get(self.0, i);
            if pair.1 == *value {
                return true;
            }
            i = i + 1;
        }
        false
    }
}

} // verus!

verus! {

/// Inserting into a full map fails.
#[derive(Debug, Clone, Copy, PartialEq, Eq, Structural)]
pub enum MapError {
    Full,
}

/// Index of the first occupied slot whose key reads `key`, or -1.
pub open spec fn first_key_idx<V>(slots: Seq<Option<(&'static str, V)>>, key: Seq<char>) -> int
    decreases slots.len(),
{
    if slots.len() == 0 {
        -1
    } else if slots[0] matches Some(kv) && kv.0@ == key {
        0
    } else {
        let rest = first_key_idx(slots.drop_first(), key);
        if rest < 0 {
            -1
        } else {
            rest + 1
        }
    }
}

/// Index of the first empty slot, or -1.
pub open spec fn first_none_idx<V>(slots: Seq<Option<(&'static str, V)>>) -> int
    decreases slots.len(),
{
    if slots.len() == 0 {
        -1
    } else if slots[0] is None {
        0
    } else {
        let rest = first_none_idx(slots.drop_first());
        if rest < 0 {
            -1
        } else {
            rest + 1
        }
    }
}

pub open spec fn slot_has_key<V>(slot: Option<(&'static str, V)>, key: Seq<char>) -> bool {
    slot matches Some(kv) && kv.0@ == key
}

/// What `first_key_idx` finds: either the first slot under `key`, or
/// that no slot carries it.
pub proof fn lemma_first_key_idx<V>(slots: Seq<Option<(&'static str, V)>>, key: Seq<char>)
    ensures
        first_key_idx(slots, key) >= 0 ==> 0 <= first_key_idx(slots, key) < slots.len()
            && slot_has_key(slots[first_key_idx(slots, key)], key) && forall|j: int|
            0 <= j < first_key_idx(slots, key) ==> !slot_has_key(slots[j], key),
        first_key_idx(slots, key) < 0 ==> forall|j: int|
            0 <= j < slots.len() ==> !slot_has_key(slots[j], key),
    decreases slots.len(),
{
    if slots.len() > 0 && !slot_has_key(slots[0], key) {
        lemma_first_key_idx(slots.drop_first(), key);
        assert(forall|j: int| 1 <= j < slots.len() ==> slots[j] == slots.drop_first()[j - 1]);
    }
}

/// What `first_none_idx` finds: either the first empty slot, or that
/// every slot is occupied.
pub proof fn lemma_first_none_idx<V>(slots: Seq<Option<(&'static str, V)>>)
    ensures
        first_none_idx(slots) >= 0 ==> 0 <= first_none_idx(slots) < slots.len() && slots[
            first_none_idx(slots)
        ] is None && forall|j: int| 0 <= j < first_none_idx(slots) ==> slots[j] is Some,
        first_none_idx(slots) < 0 ==> forall|j: int| 0 <= j < slots.len() ==> slots[j] is Some,
    decreases slots.len(),
{
    if slots.len() > 0 && slots[0] is Some {
        lemma_first_none_idx(slots.drop_first());
        assert(forall|j: int| 1 <= j < slots.len() ==> slots[j] == slots.drop_first()[j - 1]);
    }
}

/// The value the first slot under `key` carries, if any.
pub open spec fn spec_slot_get<V>(slots: Seq<Option<(&'static str, V)>>, key: Seq<char>) -> Option<
    V,
> {
    if first_key_idx(slots, key) >= 0 {
        Some(slots[first_key_idx(slots, key)]->Some_0.1)
    } else {
        None
    }
}

/// The occupied slots as pairs, in slot order.
pub open spec fn spec_present<V>(slots: Seq<Option<(&'static str, V)>>) -> Seq<(&'static str, V)>
    decreases slots.len(),
{
    if slots.len() == 0 {
        Seq::empty()
    } else {
        let rest = spec_present(slots.drop_last());
        match slots.last() {
            Some(kv) => rest.push(kv),
            None => rest,
        }
    }
}

/// A map of at most `N` entries held in fixed slots: an occupied slot is
/// a key/value pair, lookups take the first slot under the key, inserts
/// reuse the key's slot or take the first empty one.
#[derive(Debug, PartialEq)]
pub struct StaticMap<const N: usize, V> {
    pub slots: Vec<Option<(&'static str, V)>>,
}

impl<const N: usize, V: Copy + PartialEq> StaticMap<N, V> {
    pub open spec fn wf(self) -> bool {
        self.slots@.len() == N
    }

    pub open spec fn spec_get(self, key: Seq<char>) -> Option<V> {
        spec_slot_get(self.slots@, key)
    }

    /// An empty map: all `N` slots free.
    pub fn empty() -> (r: StaticMap<N, V>)
        ensures
            r.wf(),
            forall|j: int| 0 <= j < N ==> r.slots@[j] is None,
    {
        let mut slots: Vec<Option<(&'static str, V)>> = Vec::new();
        let mut i: usize = 0;
        while i < N
            invariant
                i <= N,
                slots@.len() == i,
                forall|j: int| 0 <= j < i ==> slots@[j] is None,
            decreases N - i,
        {
            slots.push(None);
            i = i + 1;
        }
        StaticMap { slots }
    }

    /// A map seeded from a slice of pairs; the remaining slots are free.
    pub fn new(map: &[(&'static str, V)]) -> (r: StaticMap<N, V>)
        requires
            map@.len() <= N,
        ensures
            r.wf(),
            forall|j: int| 0 <= j < map@.len() ==> r.slots@[j] == Some(map@[j]),
            forall|j: int| map@.len() <= j < N ==> r.slots@[j] is None,
    {
        let mut slots: Vec<Option<(&'static str, V)>> = Vec::new();
        let mut i: usize = 0;
        while i < map.len()
            invariant
                i <= map@.len(),
                map@.len() <= N,
                slots@.len() == i,
                forall|j: int| 0 <= j < i ==> slots@[j] == Some(map@[j]),
            decreases map@.len() - i,
        {
            let pair = *vstd::slice::slice_index_get(map, i);
            slots.push(Some(pair));
            i = i + 1;
        }
        while i < N
            invariant
                map@.len() <= i <= N,
                slots@.len() == i,
                forall|j: int| 0 <= j < map@.len() ==> slots@[j] == Some(map@[j]),
                forall|j: int| map@.len() <= j < i ==> slots@[j] is None,
            decreases N - i,
        {
            slots.push(None);
            i = i + 1;
        }
        StaticMap { slots }
    }

    /// The value stored under `key`, if any.
    pub fn get(&self, key: &str) -> (r: Option<&V>)
        ensures
            r matches Some(v) ==> self.spec_get(key@) == Some(*v),
            r is None ==> self.spec_get(key@) is None,
    {
        proof {
            lemma_first_key_idx(self.slots@, key@);
        }
        let mut i: usize = 0;
        while i < self.slots.len()
            invariant
                i <= self.slots@.len(),
                forall|j: int| 0 <= j < i ==> !slot_has_key(self.slots@[j], key@),
            decreases self.slots@.len() - i,
        {
            match &self.slots[i] {
                Some(kv) => {
                    if str_eq(kv.0, key) {
                        proof {
                            lemma_first_key_idx(self.slots@, key@);
                        }
                        return Some(&kv.1);
                    }
                },
                None => {},
            }
            i = i + 1;
        }
        None
    }

    /// Is some value stored under `key`?
    pub fn contains_key(&self, key: &str) -> (r: bool)
        ensures
            r <==> self.spec_get(key@) is Some,
    {
        self.get(key).is_some()
    }

    /// Is `value` stored in some occupied slot? Exact whenever `V`'s
    /// equality obeys its specification.
    pub fn contains_value(&self, value: &V) -> (r: bool)
        ensures
            V::obeys_eq_spec() ==> (r <==> exists|j: int|
                0 <= j < self.slots@.len() && ((#[trigger] self.slots@[j]) matches Some(kv)
                    && kv.1.eq_spec(value))),
    {
        let mut i: usize = 0;
        while i < self.slots.len()
            invariant
                i <= self.slots@.len(),
                V::obeys_eq_spec() ==> forall|j: int|
                    0 <= j < i ==> !((#[trigger] self.slots@[j]) matches Some(kv) && kv.1.eq_spec(
                        value,
                    )),
            decreases self.slots@.len() - i,
        {
            match &self.slots[i] {
                Some(kv) => {
                    if kv.1 == *value {
                        return true;
                    }
                },
                None => {},
            }
            i = i + 1;
        }
        false
    }

    /// The occupied slots as pairs, in slot order.
    pub fn iter(&self) -> (r: Vec<(&'static str, V)>)
        ensures
            r@ == spec_present(self.slots@),
    {
        let mut out: Vec<(&'static str, V)> = Vec::new();
        let mut i: usize = 0;
        proof {
            assert(self.slots@.subrange(0, 0) =~= Seq::<Option<(&'static str, V)>>::empty());
        }
        while i < self.slots.len()
            invariant
                i <= self.slots@.len(),
                out@ == spec_present(self.slots@.subrange(0, i as int)),
            decreases self.slots@.len() - i,
        {
            proof {
                let pre = self.slots@.subrange(0, i as int);
                assert(self.slots@.subrange(0, i + 1).drop_last() =~= pre);
                assert(self.slots@.subrange(0, i + 1).last() == self.slots@[i as int]);
            }
            match &self.slots[i] {
                Some(kv) => {
                    out.push((kv.0, kv.1));
                    proof {
                        assert(out@ =~= spec_present(self.slots@.subrange(0, i + 1)));
                    }
                },
                None => {
                    proof {
                        assert(out@ =~= spec_present(self.slots@.subrange(0, i + 1)));
                    }
                },
            }
            i = i + 1;
        }
        proof {
            assert(self.slots@.subrange(0, self.slots@.len() as int) =~= self.slots@);
        }
        out
    }

    /// Stores `value` under `key`: in the key's slot when the key is
    /// already present (returning the displaced value), else in the
    /// first free slot; fails when all slots are taken.
    pub fn insert(&mut self, key: &'static str, value: V) -> (r: Result<Option<V>, MapError>)
        requires
            old(self).wf(),
        ensures
            final(self).wf(),
            first_key_idx(old(self).slots@, key@) >= 0 ==> {
                let idx = first_key_idx(old(self).slots@, key@);
                &&& final(self).slots@ == old(self).slots@.update(idx, Some((key, value)))
                &&& r == Ok::<Option<V>, MapError>(Some(old(self).slots@[idx]->Some_0.1))
            },
            first_key_idx(old(self).slots@, key@) < 0 && first_none_idx(old(self).slots@) >= 0
                ==> {
                let idx = first_none_idx(old(self).slots@);
                &&& final(self).slots@ == old(self).slots@.update(idx, Some((key, value)))
                &&& r == Ok::<Option<V>, MapError>(None)
            },
            first_key_idx(old(self).slots@, key@) < 0 && first_none_idx(old(self).slots@) < 0
                ==> final(self).slots@ == old(self).slots@ && r == Err::<Option<V>, MapError>(
                MapError::Full,
            ),
    {
        proof {
            lemma_first_key_idx(old(self).slots@, key@);
            lemma_first_none_idx(old(self).slots@);
        }
        let n = self.slots.len();
        let mut i: usize = 0;
        while i < n
            invariant
                n == self.slots@.len(),
                n == N,
                i <= n,
                *self == *old(self),
                forall|j: int| 0 <= j < i ==> !slot_has_key(self.slots@[j], key@),
            decreases n - i,
        {
            let hit = match &self.slots[i] {
                Some(kv) => str_eq(kv.0, key),
                None => false,
            };
            if hit {
                proof {
                    lemma_first_key_idx(old(self).slots@, key@);
                }
                let old_v = match &self.slots[i] {
                    Some(kv) => Some(kv.1),
                    None => None,
                };
                self.slots.set(i, Some((key, value)));
                return Ok(old_v);
            }
            i = i + 1;
        }
        let mut k: usize = 0;
        while k < n
            invariant
                n == self.slots@.len(),
                n == N,
                k <= n,
                *self == *old(self),
                forall|j: int| 0 <= j < n ==> !slot_has_key(self.slots@[j], key@),
                forall|j: int| 0 <= j < k ==> self.slots@[j] is Some,
            decreases n - k,
        {
            let free = match &self.slots[k] {
                Some(_) => false,
                None => true,
            };
            if free {
                proof {
                    lemma_first_key_idx(old(self).slots@, key@);
                    lemma_first_none_idx(old(self).slots@);
                }
                self.slots.set(k, Some((key, value)));
                return Ok(None);
            }
            k = k + 1;
        }
        proof {
            lemma_first_key_idx(old(self).slots@, key@);
            lemma_first_none_idx(old(self).slots@);
        }
        Err(MapError::Full)
    }
}

} // verus!

verus! {

/// A key that first occurs at position `k` is found there.
pub proof fn lemma_assoc_at<V>(entries: Seq<(&'static str, V)>, k: int)
    requires
        0 <= k < entries.len(),
        forall|j: int| 0 <= j < k ==> entries[j].0@ != entries[k].0@,
    ensures
        spec_assoc(entries, entries[k].0@) == Some(entries[k].1),
{
    lemma_assoc_idx(entries, entries[k].0@);
    let idx = assoc_idx(entries, entries[k].0@);
    if idx < 0 {
        assert(entries[k].0@ == entries[k].0@);
        assert(false);
    }
}

} // verus!
