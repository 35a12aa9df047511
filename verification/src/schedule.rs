//! Scheduling of planned Parquet work: the order in which the planned
//! `(table, part)` entries run, and the progress total registered for each
//! table before any work starts.
//!
//! Entries with the most row groups run first, which keeps every thread busy
//! while the trailing row groups of each table are encoded. A table split
//! across `--parts` registers one progress total: its row groups summed
//! across all its parts.
use crate::tpcds_cli::dedup;
use crate::tpcds_table::Table;
use vstd::prelude::*;

verus! {

/// Whether entry `a` runs before entry `b`: it has more row groups, or as
/// many and comes later in the plan (the plan is sorted by row group count
/// and then taken from the back).
pub open spec fn runs_before(sizes: Seq<usize>, a: int, b: int) -> bool {
    sizes[a] > sizes[b] || (sizes[a] == sizes[b] && a > b)
}

/// `order` lists every entry index of `sizes` exactly once, in running order.
pub open spec fn is_running_order(sizes: Seq<usize>, order: Seq<usize>) -> bool {
    &&& order.len() == sizes.len()
    &&& forall|i: int| 0 <= i < order.len() ==> #[trigger] order[i] < sizes.len()
    &&& forall|k: int| 0 <= k < sizes.len() ==> #[trigger] order.contains(k as usize)
    &&& forall|i: int, j: int|
        0 <= i < j < order.len() ==> runs_before(sizes, #[trigger] order[i] as int, #[trigger] order[j] as int)
}

/// The order in which the entries with the given row group counts run:
/// most row groups first; among equal counts, later entries first.
pub fn largest_first_order(sizes: &Vec<usize>) -> (order: Vec<usize>)
    ensures
        is_running_order(sizes@, order@),
{
    let mut order: Vec<usize> = Vec::new();
    let mut idx: usize = 0;
    while idx < sizes.len()
        invariant
            idx <= sizes.len(),
            order.len() == idx,
            forall|i: int| 0 <= i < order.len() ==> #[trigger] order@[i] < idx,
            forall|k: int| 0 <= k < idx ==> #[trigger] order@.contains(k as usize),
            forall|i: int, j: int|
                0 <= i < j < order.len() ==> runs_before(
                    sizes@,
                    #[trigger] order@[i] as int,
                    #[trigger] order@[j] as int,
                ),
        decreases sizes.len() - idx,
    {
        let s = sizes[idx];
        // insert before the first entry with at most as many row groups
        let mut p: usize = 0;
        while p < order.len() && sizes[order[p]] > s
            invariant
                p <= order.len(),
                idx < sizes.len(),
                s == sizes@[idx as int],
                forall|i: int| 0 <= i < order.len() ==> #[trigger] order@[i] < idx,
                forall|i: int| 0 <= i < p ==> sizes@[#[trigger] order@[i] as int] > s,
            decreases order.len() - p,
        {
            p = p + 1;
        }
        proof {
            // entries from `p` on have at most `s` row groups
            assert forall|j: int| p <= j < order.len() implies sizes@[#[trigger] order@[j] as int]
                <= s by {
                if p < order.len() {
                    assert(sizes@[order@[p as int] as int] <= s);
                    if j > p {
                        assert(runs_before(sizes@, order@[p as int] as int, order@[j] as int));
                    }
                }
            }
        }
        let ghost before = order@;
        order.insert(p, idx);
        assert(order@ == before.insert(p as int, idx));
        assert forall|k: int| 0 <= k < idx + 1 implies #[trigger] order@.contains(k as usize) by {
            if k == idx {
                assert(order@[p as int] == idx);
            } else {
                assert(before.contains(k as usize));
                let m = choose|m: int| 0 <= m < before.len() && before[m] == k as usize;
                if m < p {
                    assert(order@[m] == k as usize);
                } else {
                    assert(order@[m + 1] == k as usize);
                }
            }
        }
        assert forall|i: int, j: int| 0 <= i < j < order.len() implies runs_before(
            sizes@,
            #[trigger] order@[i] as int,
            #[trigger] order@[j] as int,
        ) by {
            if i < p && j < p {
                assert(order@[i] == before[i] && order@[j] == before[j]);
            } else if i < p && j == p {
                assert(order@[i] == before[i]);
            } else if i < p && j > p {
                assert(order@[i] == before[i] && order@[j] == before[j - 1]);
            } else if i == p {
                assert(order@[j] == before[j - 1]);
                assert(before[j - 1] < idx);
            } else {
                assert(order@[i] == before[i - 1] && order@[j] == before[j - 1]);
            }
        }
        idx = idx + 1;
    }
    order
}

/// The progress total registered for one table: its row groups summed
/// across the planned parts, and the number of parts sharing the bar.
#[derive(Clone, Copy, Debug, PartialEq, Eq, Structural)]
pub struct TableTotal {
    pub table: Table,
    pub total: u64,
    pub parts: usize,
}

/// The row groups of the entries for table `t`.
pub open spec fn row_groups_for(tables: Seq<Table>, sizes: Seq<usize>, t: Table) -> int
    decreases tables.len(),
{
    if tables.len() == 0 {
        0
    } else {
        row_groups_for(tables.drop_last(), sizes, t) + if tables.last() == t {
            sizes[tables.len() - 1] as int
        } else {
            0
        }
    }
}

/// The number of entries for table `t`.
pub open spec fn entries_for(tables: Seq<Table>, t: Table) -> int
    decreases tables.len(),
{
    if tables.len() == 0 {
        0
    } else {
        entries_for(tables.drop_last(), t) + if tables.last() == t {
            1int
        } else {
            0
        }
    }
}

/// A prefix sum stays below the whole sum, and the number of entries below
/// the number of all entries.
proof fn lemma_counts_monotone(tables: Seq<Table>, sizes: Seq<usize>, t: Table, n: int)
    requires
        0 <= n <= tables.len(),
    ensures
        row_groups_for(tables.subrange(0, n), sizes, t) <= row_groups_for(tables, sizes, t),
        0 <= entries_for(tables.subrange(0, n), t) <= entries_for(tables, t) <= tables.len(),
        row_groups_for(tables.subrange(0, n), sizes, t) >= 0,
    decreases tables.len(),
{
    if tables.len() > 0 {
        if n == tables.len() {
            assert(tables.subrange(0, n) =~= tables);
            lemma_counts_monotone(tables.drop_last(), sizes, t, n - 1);
            assert(tables.drop_last().subrange(0, n - 1) =~= tables.drop_last());
        } else {
            lemma_counts_monotone(tables.drop_last(), sizes, t, n);
            assert(tables.drop_last().subrange(0, n) =~= tables.subrange(0, n));
        }
    }
}

/// The progress totals of the planned entries, one per table in first-seen
/// order: `tables[i]` is the table of entry `i` and `sizes[i]` its number of
/// row groups.
pub fn progress_totals(tables: &Vec<Table>, sizes: &Vec<usize>) -> (totals: Vec<TableTotal>)
    requires
        tables.len() == sizes.len(),
        forall|t: Table| row_groups_for(tables@, sizes@, t) <= u64::MAX,
    ensures
        totals@.len() == dedup(tables@).len(),
        forall|i: int|
            0 <= i < totals@.len() ==> {
                let e = #[trigger] totals@[i];
                &&& e.table == dedup(tables@)[i]
                &&& e.total == row_groups_for(tables@, sizes@, e.table)
                &&& e.parts == entries_for(tables@, e.table)
            },
{
    let distinct = crate::tpcds_cli::dedup_tables(tables);
    let mut totals: Vec<TableTotal> = Vec::new();
    let mut d: usize = 0;
    while d < distinct.len()
        invariant
            d <= distinct.len(),
            distinct@ == dedup(tables@),
            tables.len() == sizes.len(),
            forall|t: Table| row_groups_for(tables@, sizes@, t) <= u64::MAX,
            totals@.len() == d,
            forall|i: int|
                0 <= i < d ==> {
                    let e = #[trigger] totals@[i];
                    &&& e.table == distinct@[i]
                    &&& e.total == row_groups_for(tables@, sizes@, e.table)
                    &&& e.parts == entries_for(tables@, e.table)
                },
        decreases distinct.len() - d,
    {
        let t = distinct[d];
        let mut total: u64 = 0;
        let mut parts: usize = 0;
        let mut i: usize = 0;
        while i < tables.len()
            invariant
                i <= tables.len(),
                tables.len() == sizes.len(),
                forall|t: Table| row_groups_for(tables@, sizes@, t) <= u64::MAX,
                total == row_groups_for(tables@.subrange(0, i as int), sizes@, t),
                parts == entries_for(tables@.subrange(0, i as int), t),
            decreases tables.len() - i,
        {
            proof {
                lemma_counts_monotone(tables@, sizes@, t, i + 1);
                assert(tables@.subrange(0, i + 1).drop_last() =~= tables@.subrange(0, i as int));
            }
            if tables[i] == t {
                total = total + sizes[i] as u64;
                parts = parts + 1;
            }
            i = i + 1;
        }
        assert(tables@.subrange(0, tables.len() as int) =~= tables@);
        totals.push(TableTotal { table: t, total, parts });
        d = d + 1;
    }
    totals
}

} // verus!
