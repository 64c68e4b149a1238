//! Aggregation walk policy tests: the ten orderings over a fixed snapshot,
//! the entry-point selection, and the snapshot/walk path on a session.

use libdtrace_rs::aggregate::{sort_buckets, walk_entry, walk_ordered, AggBucket, AggSortKey, WalkEntry};
use libdtrace_rs::types::{dtrace_aggwalk_order, dtrace_probespec};
use libdtrace_rs::wrapper::{dtrace_hdl, EngineReply};
use libdtrace_rs::DTRACE_VERSION;

fn ok() -> EngineReply {
    EngineReply { ok: true, errno: 0, message: String::new() }
}

fn bucket(name_ord: u64, agg_id: u64, key: u64, value: i64) -> AggBucket {
    AggBucket { name_ord, agg_id, key, value }
}

fn snapshot() -> Vec<AggBucket> {
    vec![
        bucket(2, 1, 30, 5),
        bucket(1, 2, 20, 9),
        bucket(1, 3, 10, 7),
        bucket(2, 4, 10, 1),
    ]
}

#[test]
fn key_sorted_orders_by_name_then_key() {
    let out = walk_ordered(dtrace_aggwalk_order::KeySorted, &snapshot());
    assert_eq!(
        out,
        vec![bucket(1, 3, 10, 7), bucket(1, 2, 20, 9), bucket(2, 4, 10, 1), bucket(2, 1, 30, 5)]
    );
}

#[test]
fn key_rev_sorted_is_exact_reverse_of_key_sorted() {
    let snap = snapshot();
    let sorted = walk_ordered(dtrace_aggwalk_order::KeySorted, &snap);
    let reversed = walk_ordered(dtrace_aggwalk_order::KeyRevSorted, &snap);
    let mut expected = sorted.clone();
    expected.reverse();
    assert_eq!(reversed, expected);
}

#[test]
fn sorted_orders_by_name_then_value() {
    let out = walk_ordered(dtrace_aggwalk_order::Sorted, &snapshot());
    assert_eq!(
        out,
        vec![bucket(1, 3, 10, 7), bucket(1, 2, 20, 9), bucket(2, 4, 10, 1), bucket(2, 1, 30, 5)]
    );
    // val_sorted is the same ordering under another name
    let same = walk_ordered(dtrace_aggwalk_order::ValSorted, &snapshot());
    assert_eq!(out, same);
}

#[test]
fn key_var_sorted_orders_by_key_then_id() {
    let out = walk_ordered(dtrace_aggwalk_order::KeyVarSorted, &snapshot());
    assert_eq!(
        out,
        vec![bucket(1, 3, 10, 7), bucket(2, 4, 10, 1), bucket(1, 2, 20, 9), bucket(2, 1, 30, 5)]
    );
}

#[test]
fn val_var_sorted_orders_by_value_then_id() {
    let out = walk_ordered(dtrace_aggwalk_order::ValVarSorted, &snapshot());
    assert_eq!(
        out,
        vec![bucket(2, 4, 10, 1), bucket(2, 1, 30, 5), bucket(1, 3, 10, 7), bucket(1, 2, 20, 9)]
    );
}

#[test]
fn rev_variants_reverse_their_base_ordering() {
    let snap = snapshot();
    for (fwd, rev) in [
        (dtrace_aggwalk_order::ValSorted, dtrace_aggwalk_order::ValRevSorted),
        (dtrace_aggwalk_order::KeyVarSorted, dtrace_aggwalk_order::KeyVarRevSorted),
        (dtrace_aggwalk_order::ValVarSorted, dtrace_aggwalk_order::ValVarRevSorted),
    ] {
        let mut expected = walk_ordered(fwd, &snap);
        expected.reverse();
        assert_eq!(walk_ordered(rev, &snap), expected);
    }
}

#[test]
fn unsorted_keeps_snapshot_order() {
    let snap = snapshot();
    assert_eq!(walk_ordered(dtrace_aggwalk_order::Unsorted, &snap), snap);
}

#[test]
fn equal_buckets_keep_snapshot_order() {
    // two buckets equal under the comparison stay in snapshot order
    let snap = vec![bucket(1, 7, 5, 3), bucket(1, 8, 5, 3)];
    let out = sort_buckets(AggSortKey::NameThenKey, &snap);
    assert_eq!(out, vec![bucket(1, 7, 5, 3), bucket(1, 8, 5, 3)]);
}

#[test]
fn walk_entry_selection_is_exact() {
    assert_eq!(walk_entry(dtrace_aggwalk_order::Unsorted), WalkEntry::Unordered);
    assert_eq!(walk_entry(dtrace_aggwalk_order::Sorted), WalkEntry::Sorted);
    assert_eq!(walk_entry(dtrace_aggwalk_order::ValSorted), WalkEntry::Sorted);
    assert_eq!(walk_entry(dtrace_aggwalk_order::KeySorted), WalkEntry::KeySorted);
    assert_eq!(walk_entry(dtrace_aggwalk_order::KeyVarSorted), WalkEntry::KeyVarSorted);
    assert_eq!(walk_entry(dtrace_aggwalk_order::ValVarSorted), WalkEntry::ValVarSorted);
    assert_eq!(walk_entry(dtrace_aggwalk_order::KeyRevSorted), WalkEntry::KeyRevSorted);
    assert_eq!(walk_entry(dtrace_aggwalk_order::ValRevSorted), WalkEntry::ValRevSorted);
    assert_eq!(walk_entry(dtrace_aggwalk_order::KeyVarRevSorted), WalkEntry::KeyVarRevSorted);
    assert_eq!(walk_entry(dtrace_aggwalk_order::ValVarRevSorted), WalkEntry::ValVarRevSorted);
}

#[test]
fn snapshot_then_walk_replays_ordered_buckets() {
    let mut h = dtrace_hdl::dtrace_open(DTRACE_VERSION, 0, ok()).unwrap();
    let prog = h
        .dtrace_program_strcompile(
            "syscall:::entry { @num[execname] = count(); }",
            dtrace_probespec::DTRACE_PROBESPEC_NAME,
            0,
            None,
            ok(),
        )
        .unwrap();
    h.dtrace_program_exec(prog, ok()).unwrap();
    h.dtrace_go(ok()).unwrap();
    h.dtrace_aggregate_snap(&snapshot(), ok()).unwrap();
    let walked = h.dtrace_aggregate_walk(dtrace_aggwalk_order::KeySorted, ok()).unwrap();
    assert_eq!(walked, walk_ordered(dtrace_aggwalk_order::KeySorted, &snapshot()));
    // the default print path replays the name-then-value order
    let printed = h.dtrace_aggregate_print(ok()).unwrap();
    assert_eq!(printed, walk_ordered(dtrace_aggwalk_order::Sorted, &snapshot()));
}
