//! Keyed view sequences: items paired with stable keys, and the plan by which a new
//! sequence is reconciled with the previous one by key identity.
use vstd::prelude::*;

verus! {

/// An individual view item paired with a stable, unique key for dynamic sequence reconciliation.
#[derive(Clone, Copy, Debug, PartialEq, Eq)]
pub struct Keyed<K, V> {
    /// Stable key identifying this item across frames.
    pub key: K,
    /// The inner view instance.
    pub view: V,
}

/// Constructs a new [`Keyed`] item pairing a stable key with a view.
pub fn keyed<K, V>(key: K, view: V) -> (r: Keyed<K, V>)
    ensures
        r.key == key,
        r.view == view,
{
    Keyed { key, view }
}

impl<K, V> From<(K, V)> for Keyed<K, V> {
    fn from(pair: (K, V)) -> (r: Self) {
        Keyed { key: pair.0, view: pair.1 }
    }
}

impl<K, V> vstd::std_specs::convert::FromSpecImpl<(K, V)> for Keyed<K, V> {
    open spec fn obeys_from_spec() -> bool {
        true
    }

    open spec fn from_spec(pair: (K, V)) -> Self {
        Keyed { key: pair.0, view: pair.1 }
    }
}

/// Creates a new [`KeyedViewSequence`] from a list of [`Keyed`] items.
pub fn keyed_sequence<K, V>(items: Vec<Keyed<K, V>>) -> (r: KeyedViewSequence<K, V>)
    ensures
        r.items == items,
{
    KeyedViewSequence { items }
}

/// A dynamic sequence of keyed views reconciled by stable key identity across frames.
///
/// Unlike positional sequences, which diff children by index, a `KeyedViewSequence`
/// tracks items by key, so that an item keeps its state when items are inserted,
/// deleted or reordered around it.
pub struct KeyedViewSequence<K, V> {
    /// Ordered list of keyed child items.
    pub items: Vec<Keyed<K, V>>,
}

/// The keys of a list of keyed items, in order.
pub open spec fn keys_of<K, V>(items: Seq<Keyed<K, V>>) -> Seq<K> {
    items.map_values(|item: Keyed<K, V>| item.key)
}

/// The first `k` keys of `a` and `b` agree.
pub open spec fn same_key_prefix<K>(a: Seq<K>, b: Seq<K>, k: int) -> bool {
    k <= a.len() && k <= b.len() && forall|i: int| 0 <= i < k ==> #[trigger] a[i] == b[i]
}

/// `j` is the last position at which its key occurs in `s`.
pub open spec fn is_last_occurrence<K>(s: Seq<K>, j: int) -> bool {
    0 <= j < s.len() && forall|j2: int| j < j2 < s.len() ==> #[trigger] s[j2] != s[j]
}

/// `i` is the first position at which its key occurs in `s`.
pub open spec fn is_first_occurrence<K>(s: Seq<K>, i: int) -> bool {
    0 <= i < s.len() && forall|i2: int| 0 <= i2 < i ==> #[trigger] s[i2] != s[i]
}

/// `sources` and `removed` reconcile the previous keys `old_keys` with the new keys
/// `new_keys`: new item `i` reuses previous item `sources[i]` exactly when it is the
/// first occurrence of a key that the previous sequence has, and then reuses the last
/// previous item with that key; `removed` lists, ascending, the last previous items of
/// the keys that the new sequence no longer has.
pub open spec fn reconciles<K>(
    new_keys: Seq<K>,
    old_keys: Seq<K>,
    sources: Seq<Option<usize>>,
    removed: Seq<usize>,
) -> bool {
    let n = new_keys.len() as int;
    let m = old_keys.len() as int;
    &&& sources.len() == n
    &&& forall|i: int|
        0 <= i < n ==> ((#[trigger] sources[i]) is Some <==> (is_first_occurrence(new_keys, i)
            && old_keys.contains(new_keys[i])))
    &&& forall|i: int|
        0 <= i < n ==> ((#[trigger] sources[i]) matches Some(j) ==> j < m && old_keys[j as int]
            == new_keys[i] && is_last_occurrence(old_keys, j as int))
    &&& forall|k: int|
        0 <= k < removed.len() ==> (#[trigger] removed[k]) < m && is_last_occurrence(
            old_keys,
            removed[k] as int,
        ) && !new_keys.contains(old_keys[removed[k] as int])
    &&& forall|j: int|
        0 <= j < m && is_last_occurrence(old_keys, j) && !new_keys.contains(old_keys[j])
            ==> removed.contains(j as usize)
    &&& forall|a: int, b: int| 0 <= a < b < removed.len() ==> #[trigger] removed[a] < #[trigger] removed[b]
}

/// How a new keyed sequence is reconciled with the previous one.
#[derive(Debug, PartialEq, Eq)]
pub enum KeyedRebuild {
    /// The keys are unchanged: item `i` is rebuilt from previous item `i`.
    InPlace,
    /// The previous keys are an unchanged prefix: they are rebuilt in place and the
    /// remaining new items are built and appended.
    Append,
    /// The new keys are an unchanged prefix: they are rebuilt in place and the remaining
    /// previous items are torn down.
    Truncate,
    /// General case. New item `i` reuses the element of previous item `sources[i]`, or is
    /// built when that is `None`; the previous items listed in `removed` (ascending) are
    /// torn down. Previous items whose key occurs again later in the previous sequence
    /// are neither reused nor torn down.
    Reconcile { sources: Vec<Option<usize>>, removed: Vec<usize> },
}

impl<K, V> KeyedViewSequence<K, V> {
    /// Creates a new `KeyedViewSequence` from a vector of [`Keyed`] items.
    pub fn new(items: Vec<Keyed<K, V>>) -> (r: Self)
        ensures
            r.items == items,
    {
        Self { items }
    }

    /// Returns the number of keyed items in the sequence.
    pub fn len(&self) -> (r: usize)
        ensures
            r == self.items@.len(),
    {
        self.items.len()
    }

    /// Returns `true` if the sequence contains no items.
    pub fn is_empty(&self) -> (r: bool)
        ensures
            r == (self.items@.len() == 0),
    {
        self.items.is_empty()
    }
}

impl<K: PartialEq, V> KeyedViewSequence<K, V> {
    /// Compares the keys of item `i` of `self` and item `j` of `other` with `==`.
    fn key_eq(&self, i: usize, other: &Self, j: usize) -> (r: bool)
        requires
            i < self.items@.len(),
            j < other.items@.len(),
        ensures
            vstd::laws_eq::obeys_concrete_eq::<K>() ==> r == (self.items@[i as int].key
                == other.items@[j as int].key),
    {
        proof {
            reveal(vstd::laws_eq::obeys_concrete_eq);
        }
        self.items[i].key == other.items[j].key
    }

    /// Whether the first `k` keys of `self` and `other` agree.
    fn keys_agree_up_to(&self, other: &Self, k: usize) -> (r: bool)
        requires
            k <= self.items@.len(),
            k <= other.items@.len(),
        ensures
            vstd::laws_eq::obeys_concrete_eq::<K>() ==> r == same_key_prefix(
                keys_of(self.items@),
                keys_of(other.items@),
                k as int,
            ),
    {
        let ghost law = vstd::laws_eq::obeys_concrete_eq::<K>();
        let mut i: usize = 0;
        while i < k
            invariant
                law == vstd::laws_eq::obeys_concrete_eq::<K>(),
                i <= k <= self.items@.len(),
                k <= other.items@.len(),
                law ==> same_key_prefix(keys_of(self.items@), keys_of(other.items@), i as int),
            decreases k - i,
        {
            if !self.key_eq(i, other, i) {
                proof {
                    if law {
                        assert(keys_of(self.items@)[i as int] != keys_of(other.items@)[i as int]);
                    }
                }
                return false;
            }
            i += 1;
        }
        true
    }

    /// Plans how this sequence is reconciled with the previous sequence `prev`: the fast
    /// paths for unchanged keys, a pure append and a pure truncation, or a reconciliation
    /// by key that reuses the element of the last previous item with each key. Keys are
    /// compared with `==`; where that `==` is equality, the plan is exactly the one below.
    /// Whatever `==` does, a reconciliation lists one source per new item and names only
    /// previous items.
    pub fn plan_rebuild(&self, prev: &Self) -> (r: KeyedRebuild)
        ensures
            r matches KeyedRebuild::Reconcile { sources, removed } ==> {
                &&& sources@.len() == self.items@.len()
                &&& forall|i: int| 0 <= i < sources@.len() ==> (#[trigger] sources@[i] matches Some(j)
                    ==> j < prev.items@.len())
                &&& forall|k: int| 0 <= k < removed@.len() ==> #[trigger] removed@[k] < prev.items@.len()
            },
            vstd::laws_eq::obeys_concrete_eq::<K>() ==> ({
                let new_keys = keys_of(self.items@);
                let old_keys = keys_of(prev.items@);
                let n = new_keys.len() as int;
                let m = old_keys.len() as int;
                if n == m && same_key_prefix(new_keys, old_keys, n) {
                    r is InPlace
                } else if n > m && same_key_prefix(new_keys, old_keys, m) {
                    r is Append
                } else if n < m && same_key_prefix(new_keys, old_keys, n) {
                    r is Truncate
                } else {
                    &&& r matches KeyedRebuild::Reconcile { sources, removed }
                    &&& reconciles(new_keys, old_keys, sources@, removed@)
                }
            }),
    {
        let ghost law = vstd::laws_eq::obeys_concrete_eq::<K>();
        let n = self.items.len();
        let m = prev.items.len();
        if n == m && self.keys_agree_up_to(prev, n) {
            return KeyedRebuild::InPlace;
        }
        if n > m && self.keys_agree_up_to(prev, m) {
            return KeyedRebuild::Append;
        }
        if n < m && self.keys_agree_up_to(prev, n) {
            return KeyedRebuild::Truncate;
        }
        let ghost new_keys = keys_of(self.items@);
        let ghost old_keys = keys_of(prev.items@);
        // taken[j]: the element of previous item j has been handed to a new item.
        let mut taken: Vec<bool> = Vec::new();
        let mut t: usize = 0;
        while t < m
            invariant
                t <= m,
                m == prev.items@.len(),
                taken@.len() == t,
                forall|j: int| 0 <= j < t ==> !(#[trigger] taken@[j]),
            decreases m - t,
        {
            taken.push(false);
            t += 1;
        }
        let mut sources: Vec<Option<usize>> = Vec::new();
        let mut i: usize = 0;
        while i < n
            invariant
                law == vstd::laws_eq::obeys_concrete_eq::<K>(),
                i <= n,
                n == self.items@.len(),
                m == prev.items@.len(),
                new_keys == keys_of(self.items@),
                old_keys == keys_of(prev.items@),
                taken@.len() == m,
                sources@.len() == i,
                forall|i1: int| 0 <= i1 < i ==> ((#[trigger] sources@[i1]) matches Some(j) ==> j < m),
                law ==> forall|j: int|
                    0 <= j < m ==> (#[trigger] taken@[j] <==> (is_last_occurrence(old_keys, j)
                        && exists|i2: int| 0 <= i2 < i && new_keys[i2] == old_keys[j])),
                law ==> forall|i1: int|
                    0 <= i1 < i ==> ((#[trigger] sources@[i1]) is Some <==> (is_first_occurrence(
                        new_keys,
                        i1,
                    ) && old_keys.contains(new_keys[i1]))),
                law ==> forall|i1: int|
                    0 <= i1 < i ==> ((#[trigger] sources@[i1]) matches Some(j) ==> j < m
                        && old_keys[j as int] == new_keys[i1] && is_last_occurrence(
                        old_keys,
                        j as int,
                    )),
            decreases n - i,
        {
            // Find the last previous item with this key.
            let mut j = m;
            let mut found: Option<usize> = None;
            while j > 0
                invariant_except_break
                    found is None,
                    law ==> forall|j2: int| j <= j2 < m ==> #[trigger] old_keys[j2] != new_keys[i as int],
                invariant
                    law == vstd::laws_eq::obeys_concrete_eq::<K>(),
                    j <= m,
                    i < n,
                    n == self.items@.len(),
                    m == prev.items@.len(),
                    new_keys == keys_of(self.items@),
                    old_keys == keys_of(prev.items@),
                ensures
                    found matches Some(jf) ==> jf < m && (law ==> old_keys[jf as int] == new_keys[i as int]
                        && forall|j2: int| jf < j2 < m ==> #[trigger] old_keys[j2] != new_keys[i as int]),
                    found is None ==> (law ==> forall|j2: int| 0 <= j2 < m ==> #[trigger] old_keys[j2] != new_keys[i as int]),
                decreases j,
            {
                j -= 1;
                if self.key_eq(i, prev, j) {
                    found = Some(j);
                    proof {
                        if law {
                            assert(old_keys[j as int] == new_keys[i as int]);
                        }
                    }
                    break;
                }
                proof {
                    if law {
                        assert(old_keys[j as int] != new_keys[i as int]);
                    }
                }
            }
            proof {
                if law && found is None {
                    assert(!old_keys.contains(new_keys[i as int]));
                }
            }
            match found {
                Some(j) => {
                    proof {
                        if law {
                            assert(old_keys[j as int] == new_keys[i as int]);
                            assert(old_keys.contains(new_keys[i as int]));
                            assert(is_last_occurrence(old_keys, j as int));
                        }
                    }
                    if !taken[j] {
                        proof {
                            if law {
                                assert forall|i2: int| 0 <= i2 < i implies new_keys[i2] != new_keys[i as int] by {
                                    if new_keys[i2] == new_keys[i as int] {
                                        assert(new_keys[i2] == old_keys[j as int]);
                                    }
                                }
                            }
                        }
                        taken.set(j, true);
                        sources.push(Some(j));
                    } else {
                        proof {
                            if law {
                                let i2 = choose|i2: int| 0 <= i2 < i && new_keys[i2] == old_keys[j as int];
                                assert(!is_first_occurrence(new_keys, i as int)) by {
                                    assert(new_keys[i2] == new_keys[i as int]);
                                }
                            }
                        }
                        sources.push(None);
                    }
                },
                None => {
                    sources.push(None);
                },
            }
            proof {
                if law {
                    assert forall|j1: int| 0 <= j1 < m implies (#[trigger] taken@[j1] <==> (
                    is_last_occurrence(old_keys, j1) && exists|i2: int|
                        0 <= i2 < i + 1 && new_keys[i2] == old_keys[j1])) by {
                        if taken@[j1] && !(found == Some(j1 as usize)) {
                            let i3 = choose|i2: int| 0 <= i2 < i && new_keys[i2] == old_keys[j1];
                            assert(0 <= i3 < i + 1 && new_keys[i3] == old_keys[j1]);
                        }
                        if is_last_occurrence(old_keys, j1) && exists|i2: int|
                            0 <= i2 < i + 1 && new_keys[i2] == old_keys[j1] {
                            let i3 = choose|i2: int| 0 <= i2 < i + 1 && new_keys[i2] == old_keys[j1];
                            if i3 == i {
                                if found is None {
                                    assert(old_keys.contains(new_keys[i as int]));
                                } else {
                                    let jf = found.unwrap() as int;
                                    if jf != j1 {
                                        if jf < j1 {
                                            assert(old_keys[j1] == old_keys[jf]);
                                        } else {
                                            assert(old_keys[jf] == old_keys[j1]);
                                        }
                                    }
                                }
                            }
                        }
                    }
                }
            }
            i += 1;
        }
        let mut removed: Vec<usize> = Vec::new();
        let mut j: usize = 0;
        while j < m
            invariant
                law == vstd::laws_eq::obeys_concrete_eq::<K>(),
                j <= m,
                n == self.items@.len(),
                m == prev.items@.len(),
                new_keys == keys_of(self.items@),
                old_keys == keys_of(prev.items@),
                taken@.len() == m,
                forall|k: int| 0 <= k < removed@.len() ==> (#[trigger] removed@[k]) < j,
                law ==> forall|j1: int|
                    0 <= j1 < m ==> (#[trigger] taken@[j1] <==> (is_last_occurrence(old_keys, j1)
                        && exists|i2: int| 0 <= i2 < n && new_keys[i2] == old_keys[j1])),
                law ==> forall|k: int|
                    0 <= k < removed@.len() ==> is_last_occurrence(old_keys, #[trigger] removed@[k] as int)
                        && !new_keys.contains(old_keys[removed@[k] as int]),
                law ==> forall|j1: int|
                    0 <= j1 < j && is_last_occurrence(old_keys, j1) && !new_keys.contains(
                        old_keys[j1],
                    ) ==> removed@.contains(j1 as usize),
                forall|a: int, b: int|
                    0 <= a < b < removed@.len() ==> #[trigger] removed@[a] < #[trigger] removed@[b],
            decreases m - j,
        {
            let ghost old_removed = removed@;
            if !taken[j] {
                // Is `j` the last previous item with its key?
                let mut last = true;
                let mut j2 = j + 1;
                while j2 < m
                    invariant
                        law == vstd::laws_eq::obeys_concrete_eq::<K>(),
                        j < j2 <= m,
                        m == prev.items@.len(),
                        old_keys == keys_of(prev.items@),
                        law ==> (last == forall|j3: int| j < j3 < j2 ==> #[trigger] old_keys[j3] != old_keys[j as int]),
                    decreases m - j2,
                {
                    if prev.key_eq(j2, prev, j) {
                        last = false;
                    }
                    proof {
                        if law && !last {
                            assert(!(forall|j3: int| j < j3 < j2 + 1 ==> #[trigger] old_keys[j3] != old_keys[j as int])) by {
                                if prev.items@[j2 as int].key == prev.items@[j as int].key {
                                    assert(old_keys[j2 as int] == old_keys[j as int]);
                                }
                            }
                        }
                    }
                    j2 += 1;
                }
                if last {
                    proof {
                        if law {
                            assert(is_last_occurrence(old_keys, j as int));
                            if new_keys.contains(old_keys[j as int]) {
                                let i2 = choose|i2: int| 0 <= i2 < new_keys.len() && new_keys[i2] == old_keys[j as int];
                                assert(taken@[j as int]);
                            }
                        }
                    }
                    removed.push(j);
                }
            } else {
                proof {
                    if law {
                        let i2 = choose|i2: int| 0 <= i2 < n && new_keys[i2] == old_keys[j as int];
                        assert(new_keys.contains(old_keys[j as int]));
                    }
                }
            }
            proof {
                if law {
                    assert forall|j1: int|
                        0 <= j1 < j + 1 && is_last_occurrence(old_keys, j1) && !new_keys.contains(
                            old_keys[j1],
                        ) implies removed@.contains(j1 as usize) by {
                        if j1 == j {
                            if taken@[j as int] {
                                let i2 = choose|i2: int| 0 <= i2 < n && new_keys[i2] == old_keys[j1];
                                assert(new_keys.contains(old_keys[j1]));
                            }
                            assert(removed@[removed@.len() - 1] == j);
                        } else {
                            assert(old_removed.contains(j1 as usize));
                            let k = choose|k: int| 0 <= k < old_removed.len() && old_removed[k] == j1 as usize;
                            assert(removed@[k] == j1 as usize);
                        }
                    }
                }
            }
            j += 1;
        }
        KeyedRebuild::Reconcile { sources, removed }
    }
}

/// A reconciliation hands each previous element to at most one new item.
pub proof fn law_reconcile_reuses_each_element_once<K>(
    new_keys: Seq<K>,
    old_keys: Seq<K>,
    sources: Seq<Option<usize>>,
    removed: Seq<usize>,
    i1: int,
    i2: int,
)
    requires
        reconciles(new_keys, old_keys, sources, removed),
        0 <= i1 < new_keys.len(),
        0 <= i2 < new_keys.len(),
        sources[i1] is Some,
        sources[i1] == sources[i2],
    ensures
        i1 == i2,
{
    assert(sources[i2] is Some);
    if i1 < i2 {
        assert(new_keys[i1] == new_keys[i2]);
    } else if i2 < i1 {
        assert(new_keys[i1] == new_keys[i2]);
    }
}

/// A reconciliation never both reuses and tears down the same previous element.
pub proof fn law_reconcile_reused_not_removed<K>(
    new_keys: Seq<K>,
    old_keys: Seq<K>,
    sources: Seq<Option<usize>>,
    removed: Seq<usize>,
    i: int,
    k: int,
)
    requires
        reconciles(new_keys, old_keys, sources, removed),
        0 <= i < new_keys.len(),
        0 <= k < removed.len(),
    ensures
        sources[i] != Some(removed[k]),
{
    if sources[i] == Some(removed[k]) {
        assert(new_keys.contains(old_keys[removed[k] as int]));
    }
}

/// A reconciliation accounts for the last previous item of every key: it is either
/// reused by the new item with that key or torn down.
pub proof fn law_reconcile_accounts_for_every_key<K>(
    new_keys: Seq<K>,
    old_keys: Seq<K>,
    sources: Seq<Option<usize>>,
    removed: Seq<usize>,
    j: int,
)
    requires
        reconciles(new_keys, old_keys, sources, removed),
        is_last_occurrence(old_keys, j),
    ensures
        removed.contains(j as usize) || exists|i: int|
            0 <= i < new_keys.len() && #[trigger] sources[i] == Some(j as usize),
{
    if new_keys.contains(old_keys[j]) {
        let i0 = choose|i: int| 0 <= i < new_keys.len() && new_keys[i] == old_keys[j];
        let i = lemma_first_occurrence(new_keys, i0);
        assert(old_keys.contains(new_keys[i]));
        assert(sources[i] is Some);
        let j2 = sources[i]->0 as int;
        if j2 < j {
            assert(old_keys[j] == old_keys[j2]);
        } else if j < j2 {
            assert(old_keys[j2] == old_keys[j]);
        }
        assert(sources[i] == Some(j as usize));
    }
}

/// Some position at or before `i` is the first occurrence of the key at `i`.
proof fn lemma_first_occurrence<K>(s: Seq<K>, i: int) -> (f: int)
    requires
        0 <= i < s.len(),
    ensures
        0 <= f <= i,
        s[f] == s[i],
        is_first_occurrence(s, f),
    decreases i,
{
    if exists|i2: int| 0 <= i2 < i && s[i2] == s[i] {
        let i2 = choose|i2: int| 0 <= i2 < i && s[i2] == s[i];
        lemma_first_occurrence(s, i2)
    } else {
        i
    }
}

/// Unchanged keys are always rebuilt in place, whatever the views.
pub proof fn law_same_keys_rebuild_in_place<K>(new_keys: Seq<K>, old_keys: Seq<K>)
    requires
        new_keys == old_keys,
    ensures
        same_key_prefix(new_keys, old_keys, new_keys.len() as int),
{
}

} // verus!
