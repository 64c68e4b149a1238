//! The aggregation walk policy: the ten named orderings over snapshotted
//! aggregation buckets.  Each ordering is a two-level sort (a primary key and
//! a tie-break); the four reversed variants replay the corresponding sorted
//! order backwards.  The engine exposes one entry point per ordering; the
//! wrapper selects the entry point and this module states exactly which
//! bucket sequence each ordering denotes for a fixed snapshot.

use vstd::prelude::*;
use crate::types::dtrace_aggwalk_order;

verus! {

/// One aggregation bucket of a snapshot, as the walk policy sees it.  The
/// engine orders buckets by the aggregation variable's name, its id, the
/// packed key, and the current value; the name is carried here as its rank
/// `name_ord` in the engine's name order, so every sort key is a plain
/// integer.
#[derive(Clone, Copy, PartialEq, Eq, Structural, Debug)]
pub struct AggBucket {
    /// Rank of the aggregation variable's name in the engine's name order.
    pub name_ord: u64,
    /// The aggregation (variable) id.
    pub agg_id: u64,
    /// The packed key of the bucket.
    pub key: u64,
    /// The bucket's current value.
    pub value: i64,
}

/// The two-level comparison a sorted walk uses: a primary field and a
/// tie-break field.
#[derive(Clone, Copy, PartialEq, Eq, Structural, Debug)]
pub enum AggSortKey {
    /// By variable name, then by ascending value.
    NameThenValue,
    /// By variable name, then by key.
    NameThenKey,
    /// By key, then by variable (aggregation id).
    KeyThenVar,
    /// By value, then by variable (aggregation id).
    ValueThenVar,
}

/// Whether `a` sorts at or before `b` under the two-level comparison `c`.
pub open spec fn bucket_le(c: AggSortKey, a: AggBucket, b: AggBucket) -> bool {
    match c {
        AggSortKey::NameThenValue => a.name_ord < b.name_ord || (a.name_ord == b.name_ord
            && a.value <= b.value),
        AggSortKey::NameThenKey => a.name_ord < b.name_ord || (a.name_ord == b.name_ord && a.key
            <= b.key),
        AggSortKey::KeyThenVar => a.key < b.key || (a.key == b.key && a.agg_id <= b.agg_id),
        AggSortKey::ValueThenVar => a.value < b.value || (a.value == b.value && a.agg_id
            <= b.agg_id),
    }
}

/// Executable form of `bucket_le`.
pub fn bucket_le_exec(c: AggSortKey, a: &AggBucket, b: &AggBucket) -> (r: bool)
    ensures
        r == bucket_le(c, *a, *b),
{
    match c {
        AggSortKey::NameThenValue => a.name_ord < b.name_ord || (a.name_ord == b.name_ord
            && a.value <= b.value),
        AggSortKey::NameThenKey => a.name_ord < b.name_ord || (a.name_ord == b.name_ord && a.key
            <= b.key),
        AggSortKey::KeyThenVar => a.key < b.key || (a.key == b.key && a.agg_id <= b.agg_id),
        AggSortKey::ValueThenVar => a.value < b.value || (a.value == b.value && a.agg_id
            <= b.agg_id),
    }
}

/// Whether `s` is sorted ascending under `c`.
pub open spec fn sorted_le(c: AggSortKey, s: Seq<AggBucket>) -> bool {
    forall|i: int, j: int| 0 <= i < j < s.len() ==> bucket_le(c, s[i], s[j])
}

/// `s` with `x` inserted before the first element that does not sort at or
/// before `x`; on a sorted sequence this keeps earlier equal elements
/// earlier.
pub open spec fn insert_sorted(c: AggSortKey, s: Seq<AggBucket>, x: AggBucket) -> Seq<AggBucket>
    decreases s.len(),
{
    if s.len() == 0 {
        seq![x]
    } else if bucket_le(c, s[0], x) {
        seq![s[0]] + insert_sorted(c, s.skip(1), x)
    } else {
        seq![x] + s
    }
}

/// Inserting into a sorted sequence keeps it sorted and adds exactly the
/// inserted element.
pub proof fn lemma_insert_sorted(c: AggSortKey, s: Seq<AggBucket>, x: AggBucket)
    requires
        sorted_le(c, s),
    ensures
        sorted_le(c, insert_sorted(c, s, x)),
        insert_sorted(c, s, x).to_multiset() == s.to_multiset().insert(x),
        insert_sorted(c, s, x).len() == s.len() + 1,
    decreases s.len(),
{
    broadcast use vstd::seq_lib::group_to_multiset_ensures;

    let r = insert_sorted(c, s, x);
    if s.len() == 0 {
        assert(seq![x] =~= Seq::<AggBucket>::empty().push(x));
        assert(r.to_multiset() =~= s.to_multiset().insert(x));
    } else if bucket_le(c, s[0], x) {
        let tail = s.skip(1);
        let rest = insert_sorted(c, tail, x);
        assert(sorted_le(c, tail));
        lemma_insert_sorted(c, tail, x);
        assert forall|i: int, j: int| 0 <= i < j < r.len() implies bucket_le(c, r[i], r[j]) by {
            if i == 0 {
                let e = rest[j - 1];
                assert(rest.contains(e));
                assert(rest.to_multiset().count(e) > 0);
                if e == x {
                    assert(bucket_le(c, s[0], e));
                } else {
                    assert(tail.to_multiset().count(e) > 0);
                    assert(tail.contains(e));
                    let k = choose|k: int| 0 <= k < tail.len() && tail[k] == e;
                    assert(s[k + 1] == e);
                    assert(bucket_le(c, s[0], e));
                }
            } else {
                assert(bucket_le(c, rest[i - 1], rest[j - 1]));
            }
        }
        assert(s =~= seq![s[0]] + tail);
        vstd::seq_lib::lemma_multiset_commutative(seq![s[0]], tail);
        vstd::seq_lib::lemma_multiset_commutative(seq![s[0]], rest);
        assert(r.to_multiset() =~= s.to_multiset().insert(x));
    } else {
        assert(r =~= seq![x] + s);
        assert forall|i: int, j: int| 0 <= i < j < r.len() implies bucket_le(c, r[i], r[j]) by {
            if i == 0 {
                assert(bucket_le(c, x, s[0]));
                if j > 1 {
                    assert(bucket_le(c, s[0], s[j - 1]));
                }
            }
        }
        vstd::seq_lib::lemma_multiset_commutative(seq![x], s);
        assert(seq![x] =~= Seq::<AggBucket>::empty().push(x));
        assert(r.to_multiset() =~= s.to_multiset().insert(x));
    }
}

/// The buckets of `s` in ascending order under `c`: an insertion sort that
/// keeps equal buckets in snapshot order.
pub open spec fn sort_spec(c: AggSortKey, s: Seq<AggBucket>) -> Seq<AggBucket>
    decreases s.len(),
{
    if s.len() == 0 {
        Seq::empty()
    } else {
        insert_sorted(c, sort_spec(c, s.drop_last()), s.last())
    }
}

/// The sorted sequence is sorted and is a permutation of the snapshot.
pub proof fn lemma_sort_spec(c: AggSortKey, s: Seq<AggBucket>)
    ensures
        sorted_le(c, sort_spec(c, s)),
        sort_spec(c, s).to_multiset() == s.to_multiset(),
        sort_spec(c, s).len() == s.len(),
    decreases s.len(),
{
    broadcast use vstd::seq_lib::group_to_multiset_ensures;

    if s.len() > 0 {
        lemma_sort_spec(c, s.drop_last());
        lemma_insert_sorted(c, sort_spec(c, s.drop_last()), s.last());
        assert(s =~= s.drop_last().push(s.last()));
        assert(s.to_multiset() =~= s.drop_last().to_multiset().insert(s.last()));
    }
}

/// When the first `p` elements of `s` sort at or before `x` and the one at
/// `p` (if any) does not, inserting `x` splits `s` exactly at `p`.
proof fn lemma_insert_sorted_split(c: AggSortKey, s: Seq<AggBucket>, x: AggBucket, p: int)
    requires
        0 <= p <= s.len(),
        forall|i: int| 0 <= i < p ==> bucket_le(c, s[i], x),
        p == s.len() || !bucket_le(c, s[p], x),
    ensures
        insert_sorted(c, s, x) == s.take(p) + seq![x] + s.skip(p),
    decreases p,
{
    if s.len() == 0 {
        assert(insert_sorted(c, s, x) =~= s.take(p) + seq![x] + s.skip(p));
    } else if p == 0 {
        assert(insert_sorted(c, s, x) =~= s.take(0) + seq![x] + s.skip(0));
    } else {
        lemma_insert_sorted_split(c, s.skip(1), x, p - 1);
        assert(s.skip(1).take(p - 1) =~= s.take(p).skip(1));
        assert(s.skip(1).skip(p - 1) =~= s.skip(p));
        assert(insert_sorted(c, s, x) =~= s.take(p) + seq![x] + s.skip(p));
    }
}

/// Inserts `x` into the sorted vector `v`, keeping it sorted.
fn insert_bucket(c: AggSortKey, v: &Vec<AggBucket>, x: AggBucket) -> (r: Vec<AggBucket>)
    ensures
        r@ == insert_sorted(c, v@, x),
{
    let n = v.len();
    let mut p: usize = 0;
    while p < n && bucket_le_exec(c, &v[p], &x)
        invariant
            p <= n,
            n == v.len(),
            forall|i: int| 0 <= i < p ==> bucket_le(c, v@[i], x),
        decreases n - p,
    {
        p = p + 1;
    }
    proof {
        lemma_insert_sorted_split(c, v@, x, p as int);
    }
    let mut r: Vec<AggBucket> = Vec::new();
    let mut i: usize = 0;
    while i < p
        invariant
            i <= p <= n,
            n == v.len(),
            r@ =~= v@.take(i as int),
        decreases p - i,
    {
        r.push(v[i]);
        i = i + 1;
    }
    r.push(x);
    let mut j: usize = p;
    while j < n
        invariant
            p <= j <= n,
            n == v.len(),
            r@ =~= v@.take(p as int) + seq![x] + v@.subrange(p as int, j as int),
        decreases n - j,
    {
        r.push(v[j]);
        j = j + 1;
    }
    assert(v@.subrange(p as int, n as int) =~= v@.skip(p as int));
    r
}

/// Sorts a snapshot's buckets ascending under `c`.
pub fn sort_buckets(c: AggSortKey, v: &Vec<AggBucket>) -> (r: Vec<AggBucket>)
    ensures
        r@ == sort_spec(c, v@),
        sorted_le(c, r@),
        r@.to_multiset() == v@.to_multiset(),
{
    let n = v.len();
    let mut r: Vec<AggBucket> = Vec::new();
    let mut i: usize = 0;
    while i < n
        invariant
            i <= n,
            n == v.len(),
            r@ == sort_spec(c, v@.take(i as int)),
        decreases n - i,
    {
        proof {
            assert(v@.take(i + 1).drop_last() =~= v@.take(i as int));
            assert(v@.take(i + 1).last() == v@[i as int]);
        }
        r = insert_bucket(c, &r, v[i]);
        i = i + 1;
    }
    proof {
        assert(v@.take(n as int) =~= v@);
        lemma_sort_spec(c, v@);
    }
    r
}

/// The buckets of `v` in reverse order.
pub fn reverse_buckets(v: &Vec<AggBucket>) -> (r: Vec<AggBucket>)
    ensures
        r@ == v@.reverse(),
{
    let n = v.len();
    let mut r: Vec<AggBucket> = Vec::new();
    let mut i: usize = 0;
    while i < n
        invariant
            i <= n,
            n == v.len(),
            r@.len() == i,
            forall|k: int| 0 <= k < i ==> r@[k] == v@[n - 1 - k],
        decreases n - i,
    {
        r.push(v[n - 1 - i]);
        i = i + 1;
    }
    assert(r@ =~= v@.reverse());
    r
}

/// The two-level comparison behind `order`, or `None` for the engine's
/// default (unsorted) walk.
pub open spec fn sort_key_of(order: dtrace_aggwalk_order) -> Option<AggSortKey> {
    match order {
        dtrace_aggwalk_order::Unsorted => Option::None,
        dtrace_aggwalk_order::Sorted => Option::Some(AggSortKey::NameThenValue),
        dtrace_aggwalk_order::ValSorted => Option::Some(AggSortKey::NameThenValue),
        dtrace_aggwalk_order::KeySorted => Option::Some(AggSortKey::NameThenKey),
        dtrace_aggwalk_order::KeyVarSorted => Option::Some(AggSortKey::KeyThenVar),
        dtrace_aggwalk_order::ValVarSorted => Option::Some(AggSortKey::ValueThenVar),
        dtrace_aggwalk_order::KeyRevSorted => Option::Some(AggSortKey::NameThenKey),
        dtrace_aggwalk_order::ValRevSorted => Option::Some(AggSortKey::NameThenValue),
        dtrace_aggwalk_order::KeyVarRevSorted => Option::Some(AggSortKey::KeyThenVar),
        dtrace_aggwalk_order::ValVarRevSorted => Option::Some(AggSortKey::ValueThenVar),
    }
}

/// Whether `order` replays its sorted order backwards.
pub open spec fn is_reversed(order: dtrace_aggwalk_order) -> bool {
    match order {
        dtrace_aggwalk_order::KeyRevSorted => true,
        dtrace_aggwalk_order::ValRevSorted => true,
        dtrace_aggwalk_order::KeyVarRevSorted => true,
        dtrace_aggwalk_order::ValVarRevSorted => true,
        _ => false,
    }
}

/// The exact bucket sequence a walk with `order` replays for the fixed
/// snapshot `snap`.
pub open spec fn walk_order_model(order: dtrace_aggwalk_order, snap: Seq<AggBucket>) -> Seq<
    AggBucket,
> {
    let base = match sort_key_of(order) {
        Option::None => snap,
        Option::Some(c) => sort_spec(c, snap),
    };
    if is_reversed(order) {
        base.reverse()
    } else {
        base
    }
}

/// Replays a snapshot in the order `order` selects.
pub fn walk_ordered(order: dtrace_aggwalk_order, snap: &Vec<AggBucket>) -> (r: Vec<AggBucket>)
    ensures
        r@ == walk_order_model(order, snap@),
{
    let base = match order {
        dtrace_aggwalk_order::Unsorted => {
            let mut copy: Vec<AggBucket> = Vec::new();
            let mut i: usize = 0;
            while i < snap.len()
                invariant
                    i <= snap.len(),
                    copy@ =~= snap@.take(i as int),
                decreases snap.len() - i,
            {
                copy.push(snap[i]);
                i = i + 1;
            }
            assert(copy@ =~= snap@);
            copy
        },
        dtrace_aggwalk_order::Sorted | dtrace_aggwalk_order::ValSorted
        | dtrace_aggwalk_order::ValRevSorted => sort_buckets(AggSortKey::NameThenValue, snap),
        dtrace_aggwalk_order::KeySorted | dtrace_aggwalk_order::KeyRevSorted => sort_buckets(
            AggSortKey::NameThenKey,
            snap,
        ),
        dtrace_aggwalk_order::KeyVarSorted | dtrace_aggwalk_order::KeyVarRevSorted => sort_buckets(
            AggSortKey::KeyThenVar,
            snap,
        ),
        dtrace_aggwalk_order::ValVarSorted | dtrace_aggwalk_order::ValVarRevSorted => sort_buckets(
            AggSortKey::ValueThenVar,
            snap,
        ),
    };
    let reversed = match order {
        dtrace_aggwalk_order::KeyRevSorted | dtrace_aggwalk_order::ValRevSorted
        | dtrace_aggwalk_order::KeyVarRevSorted | dtrace_aggwalk_order::ValVarRevSorted => true,
        _ => false,
    };
    if reversed {
        reverse_buckets(&base)
    } else {
        base
    }
}

/// The engine entry points that implement the walk orderings, one per
/// ordering with `Sorted` and `ValSorted` sharing the sorted entry point.
#[derive(Clone, Copy, PartialEq, Eq, Structural, Debug)]
pub enum WalkEntry {
    /// The plain walk in the engine's default order.
    Unordered,
    /// The walk sorted by name, then value.
    Sorted,
    /// The walk sorted by name, then key.
    KeySorted,
    /// The walk sorted by key, then aggregation id.
    KeyVarSorted,
    /// The walk sorted by value, then aggregation id.
    ValVarSorted,
    /// The reversed key-sorted walk.
    KeyRevSorted,
    /// The reversed value-sorted walk.
    ValRevSorted,
    /// The reversed key-then-id walk.
    KeyVarRevSorted,
    /// The reversed value-then-id walk.
    ValVarRevSorted,
}

/// The entry point that implements `order`.
pub open spec fn spec_walk_entry(order: dtrace_aggwalk_order) -> WalkEntry {
    match order {
        dtrace_aggwalk_order::Unsorted => WalkEntry::Unordered,
        dtrace_aggwalk_order::Sorted => WalkEntry::Sorted,
        dtrace_aggwalk_order::ValSorted => WalkEntry::Sorted,
        dtrace_aggwalk_order::KeySorted => WalkEntry::KeySorted,
        dtrace_aggwalk_order::KeyVarSorted => WalkEntry::KeyVarSorted,
        dtrace_aggwalk_order::ValVarSorted => WalkEntry::ValVarSorted,
        dtrace_aggwalk_order::KeyRevSorted => WalkEntry::KeyRevSorted,
        dtrace_aggwalk_order::ValRevSorted => WalkEntry::ValRevSorted,
        dtrace_aggwalk_order::KeyVarRevSorted => WalkEntry::KeyVarRevSorted,
        dtrace_aggwalk_order::ValVarRevSorted => WalkEntry::ValVarRevSorted,
    }
}

/// Selects the engine entry point for `order`: `Sorted` and `ValSorted`
/// share the sorted entry point, every other ordering has its own.
pub fn walk_entry(order: dtrace_aggwalk_order) -> (e: WalkEntry)
    ensures
        e == spec_walk_entry(order),
{
    match order {
        dtrace_aggwalk_order::Unsorted => WalkEntry::Unordered,
        dtrace_aggwalk_order::Sorted | dtrace_aggwalk_order::ValSorted => WalkEntry::Sorted,
        dtrace_aggwalk_order::KeySorted => WalkEntry::KeySorted,
        dtrace_aggwalk_order::KeyVarSorted => WalkEntry::KeyVarSorted,
        dtrace_aggwalk_order::ValVarSorted => WalkEntry::ValVarSorted,
        dtrace_aggwalk_order::KeyRevSorted => WalkEntry::KeyRevSorted,
        dtrace_aggwalk_order::ValRevSorted => WalkEntry::ValRevSorted,
        dtrace_aggwalk_order::KeyVarRevSorted => WalkEntry::KeyVarRevSorted,
        dtrace_aggwalk_order::ValVarRevSorted => WalkEntry::ValVarRevSorted,
    }
}

/// For a fixed snapshot, the key-reverse-sorted walk replays exactly the
/// reverse sequence of the key-sorted walk.
pub proof fn lemma_key_rev_sorted_reverses(snap: Seq<AggBucket>)
    ensures
        walk_order_model(dtrace_aggwalk_order::KeyRevSorted, snap) == walk_order_model(
            dtrace_aggwalk_order::KeySorted,
            snap,
        ).reverse(),
{
}

/// What every sorted walk guarantees: ascending order under its comparison
/// (descending for the reversed variants), the same buckets as the
/// snapshot, and the snapshot's own order for the default walk.
pub proof fn lemma_walk_order_model_sound(order: dtrace_aggwalk_order, snap: Seq<AggBucket>)
    ensures
        walk_order_model(order, snap).to_multiset() == snap.to_multiset(),
        walk_order_model(order, snap).len() == snap.len(),
        sort_key_of(order) is None ==> walk_order_model(order, snap) == snap,
        sort_key_of(order) is Some && !is_reversed(order) ==> sorted_le(
            sort_key_of(order)->Some_0,
            walk_order_model(order, snap),
        ),
        sort_key_of(order) is Some && is_reversed(order) ==> forall|i: int, j: int|
            0 <= i < j < snap.len() ==> bucket_le(
                sort_key_of(order)->Some_0,
                walk_order_model(order, snap)[j],
                walk_order_model(order, snap)[i],
            ),
{
    let m = walk_order_model(order, snap);
    match sort_key_of(order) {
        Option::None => {
            assert(m == snap);
        },
        Option::Some(c) => {
            lemma_sort_spec(c, snap);
            if is_reversed(order) {
                sort_spec(c, snap).lemma_reverse_to_multiset();
                assert forall|i: int, j: int| 0 <= i < j < snap.len() implies bucket_le(
                    c,
                    m[j],
                    m[i],
                ) by {
                    let b = sort_spec(c, snap);
                    assert(m[i] == b[b.len() - 1 - i]);
                    assert(m[j] == b[b.len() - 1 - j]);
                    assert(bucket_le(c, b[b.len() - 1 - j], b[b.len() - 1 - i]));
                }
            }
        },
    }
}

} // verus!
