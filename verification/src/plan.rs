//! Row group layout for TPC-DS Parquet files.
//!
//! A table (or one `--parts` chunk of it) is generated as a list of
//! contiguous source row ranges, each of which becomes one Parquet row group.
//! The number of row groups follows from the number of source rows, an
//! estimate of the Parquet bytes per source row, and the target row group
//! size, and is capped at Parquet's row group limit.
//!
//! The ranges are over *source* rows: the sales generators emit several output
//! rows per source row, and the returns tables are generated from their paired
//! sales generator, so their ranges are over the sales source rows.
use crate::tpcds_table::Table;
use vstd::prelude::*;

verus! {

/// Parquet files can have at most this many row groups.
pub const MAX_ROW_GROUPS: i64 = 32767;

/// An inclusive range `start..=end` of 1-based source row numbers; empty when
/// `end < start`.
#[derive(Clone, Copy, Debug, PartialEq, Eq, Structural)]
pub struct RowRange {
    pub start: i64,
    pub end: i64,
}

impl RowRange {
    /// The range `start..=end`.
    pub fn new(start: i64, end: i64) -> (r: RowRange)
        ensures
            r.start == start,
            r.end == end,
    {
        RowRange { start, end }
    }

    /// Whether the range holds no row.
    pub fn is_empty(&self) -> (r: bool)
        ensures
            r == (self.end < self.start),
    {
        self.end < self.start
    }
}

/// Estimated (uncompressed) Parquet bytes written per source row of `t`,
/// measured on files generated at scale factor 1.
pub open spec fn bytes_per_source_row(t: Table) -> int {
    match t {
        Table::CallCenter => 423,
        Table::CatalogPage => 113,
        Table::CatalogReturns => 195,
        Table::CatalogSales => 2391,
        Table::Customer => 92,
        Table::CustomerAddress => 46,
        Table::CustomerDemographics => 9,
        Table::DateDim => 57,
        Table::DbgenVersion => 358,
        Table::HouseholdDemographics => 10,
        Table::IncomeBand => 20,
        Table::Inventory => 3,
        Table::Item => 197,
        Table::Promotion => 120,
        Table::Reason => 54,
        Table::ShipMode => 76,
        Table::Store => 265,
        Table::StoreReturns => 220,
        Table::StoreSales => 2366,
        Table::TimeDim => 38,
        Table::Warehouse => 206,
        Table::WebPage => 50,
        Table::WebReturns => 261,
        Table::WebSales => 3119,
        Table::WebSite => 218,
    }
}

/// The number of rows in `r` (zero for an empty range).
pub open spec fn range_len(r: RowRange) -> int {
    if r.end - r.start + 1 > 0 {
        r.end - r.start + 1
    } else {
        0
    }
}

/// Estimated bytes of `len` source rows of `t`, saturating at `i64::MAX`.
pub open spec fn estimated_bytes(t: Table, len: int) -> int {
    if len * bytes_per_source_row(t) > i64::MAX {
        i64::MAX as int
    } else {
        len * bytes_per_source_row(t)
    }
}

/// The target row group size, with non-positive sizes read as one byte.
pub open spec fn effective_row_group_bytes(row_group_bytes: i64) -> int {
    if row_group_bytes > 1 {
        row_group_bytes as int
    } else {
        1
    }
}

/// The number of row groups aimed for: one more than the estimated bytes
/// divided by the target size, capped at [`MAX_ROW_GROUPS`] and at the
/// number of rows, and at least one.
pub open spec fn target_row_groups(t: Table, row_group_bytes: i64, r: RowRange) -> int {
    let len = range_len(r);
    let a = estimated_bytes(t, len) / effective_row_group_bytes(row_group_bytes) + 1;
    let b = if a < MAX_ROW_GROUPS { a } else { MAX_ROW_GROUPS as int };
    let c = if b < len { b } else { len };
    if c > 1 {
        c
    } else {
        1
    }
}

/// Rows per row group: the number of rows divided by the target number of
/// row groups, rounded up, and at least one.
pub open spec fn rows_per_group(t: Table, row_group_bytes: i64, r: RowRange) -> int {
    let len = range_len(r);
    let n = target_row_groups(t, row_group_bytes, r);
    let q = (len + n - 1) / n;
    if q > 1 {
        q
    } else {
        1
    }
}

/// `a` divided by `b`, rounded up.
pub open spec fn ceil_div(a: int, b: int) -> int {
    (a + b - 1) / b
}

/// The number of ranges in the plan: the rows divided into groups of
/// [`rows_per_group`] rows, or a single (empty) range when there are no rows.
pub open spec fn group_count(t: Table, row_group_bytes: i64, r: RowRange) -> int {
    let len = range_len(r);
    if len == 0 {
        1
    } else {
        ceil_div(len, rows_per_group(t, row_group_bytes, r))
    }
}

/// The `i`-th group of `rpg` rows of `r`; the last one is cut at `r.end`.
pub open spec fn group_range(r: RowRange, rpg: int, i: int) -> RowRange {
    let start = r.start + i * rpg;
    let end = r.start + (i + 1) * rpg - 1;
    RowRange { start: start as i64, end: (if end < r.end { end } else { r.end as int }) as i64 }
}

/// The `i`-th range of the plan for `t`, `row_group_bytes` and `r`.
pub open spec fn plan_range(t: Table, row_group_bytes: i64, r: RowRange, i: int) -> RowRange {
    if range_len(r) == 0 {
        RowRange { start: r.start, end: (r.start - 1) as i64 }
    } else {
        group_range(r, rows_per_group(t, row_group_bytes, r), i)
    }
}

/// The ranges of the plan for `t`, `row_group_bytes` and `r`, in order.
pub open spec fn plan_ranges(t: Table, row_group_bytes: i64, r: RowRange) -> Seq<RowRange> {
    Seq::new(group_count(t, row_group_bytes, r) as nat, |i: int| plan_range(t, row_group_bytes, r, i))
}

/// The computation of the plan stays within `i64`: the row count, the byte
/// estimate plus one, the rounding-up of rows per group, and every range
/// bound (including the row after the last range) fit, intermediate sums
/// included.
pub open spec fn plan_fits_i64(t: Table, row_group_bytes: i64, r: RowRange) -> bool {
    let len = range_len(r);
    let n = target_row_groups(t, row_group_bytes, r);
    let rpg = rows_per_group(t, row_group_bytes, r);
    &&& i64::MIN <= r.end - r.start
    &&& r.end - r.start + 1 <= i64::MAX
    &&& estimated_bytes(t, len) / effective_row_group_bytes(row_group_bytes) + 1 <= i64::MAX
    &&& len + n <= i64::MAX
    &&& (len == 0 ==> r.start > i64::MIN)
    &&& (len > 0 ==> r.start + group_count(t, row_group_bytes, r) * rpg <= i64::MAX)
    &&& (len > 0 ==> r.end < i64::MAX)
}

/// How to generate a TPC-DS table as a Parquet file: contiguous source row
/// ranges, each generated (and encoded) independently as one row group.
#[derive(Clone, Debug, PartialEq, Eq)]
pub struct TpcdsGenerationPlan {
    /// Inclusive 1-based source row ranges, one per row group
    ranges: Vec<RowRange>,
}

impl View for TpcdsGenerationPlan {
    type V = Seq<RowRange>;

    closed spec fn view(&self) -> Seq<RowRange> {
        self.ranges@
    }
}

/// `ceil_div(len, rpg)` is the unique `k` with `(k - 1) * rpg < len <= k * rpg`.
proof fn lemma_ceil_div_unique(len: int, rpg: int, k: int)
    requires
        rpg >= 1,
        len >= 1,
        k >= 0,
        len <= k * rpg,
        k * rpg < len + rpg,
    ensures
        ceil_div(len, rpg) == k,
{
    assert((len + rpg - 1) / rpg == k) by (nonlinear_arith)
        requires
            rpg >= 1,
            len <= k * rpg,
            k * rpg < len + rpg,
    {
        let q = (len + rpg - 1) / rpg;
        let m = (len + rpg - 1) % rpg;
        assert(len + rpg - 1 == q * rpg + m);
        assert(0 <= m < rpg);
        if q < k {
            assert(q + 1 <= k);
            assert((q + 1) * rpg <= k * rpg);
        } else if q > k {
            assert(k + 1 <= q);
            assert((k + 1) * rpg <= q * rpg);
        }
    }
}

/// A group that starts before the end of `len` rows has index below `ceil_div(len, rpg)`.
proof fn lemma_index_below_count(len: int, rpg: int, k: int)
    requires
        rpg >= 1,
        k >= 0,
        k * rpg < len,
    ensures
        k + 1 <= ceil_div(len, rpg),
        (k + 1) * rpg == k * rpg + rpg,
{
    assert((k + 1) * rpg == k * rpg + rpg) by (nonlinear_arith);
    assert(k + 1 <= (len + rpg - 1) / rpg) by (nonlinear_arith)
        requires
            rpg >= 1,
            k >= 0,
            (k + 1) * rpg <= len + rpg - 1,
    {
        let q = (len + rpg - 1) / rpg;
        let m = (len + rpg - 1) % rpg;
        assert(len + rpg - 1 == q * rpg + m);
        if q < k + 1 {
            assert(q + 1 <= k + 1);
            assert((q + 1) * rpg <= (k + 1) * rpg);
        }
    }
}

/// `(a * b) <= (c * b)` for `a <= c` and positive `b`.
proof fn lemma_mul_le(a: int, c: int, b: int)
    requires
        a <= c,
        b >= 1,
    ensures
        a * b <= c * b,
{
    assert(a * b <= c * b) by (nonlinear_arith)
        requires
            a <= c,
            b >= 1,
    ;
}

/// The number of ranges is at most the target number of row groups.
proof fn lemma_group_count_le_target(len: int, n: int, rpg: int)
    requires
        len >= 1,
        1 <= n,
        rpg >= 1,
        rpg >= (len + n - 1) / n,
    ensures
        ceil_div(len, rpg) <= n,
{
    assert(len <= n * rpg) by (nonlinear_arith)
        requires
            len >= 1,
            1 <= n,
            rpg >= (len + n - 1) / n,
    {
        let q = (len + n - 1) / n;
        let m = (len + n - 1) % n;
        assert(len + n - 1 == q * n + m);
        assert(m < n);
        assert(q * n <= rpg * n);
    }
    assert((len + rpg - 1) / rpg <= n) by (nonlinear_arith)
        requires
            rpg >= 1,
            len <= n * rpg,
            n >= 1,
    {
        let q = (len + rpg - 1) / rpg;
        let m = (len + rpg - 1) % rpg;
        assert(len + rpg - 1 == q * rpg + m);
        assert(m >= 0);
        if q > n {
            assert((n + 1) * rpg <= q * rpg);
        }
    }
}

/// For `k = ceil_div(len, rpg)`: `(k - 1) * rpg < len <= k * rpg`, and every
/// `i < k` has `i * rpg < len`.
proof fn lemma_ceil_div_bounds(len: int, rpg: int)
    requires
        len >= 1,
        rpg >= 1,
    ensures
        ceil_div(len, rpg) >= 1,
        (ceil_div(len, rpg) - 1) * rpg < len,
        len <= ceil_div(len, rpg) * rpg,
        forall|i: int| 0 <= i < ceil_div(len, rpg) ==> #[trigger] (i * rpg) < len,
{
    let k = ceil_div(len, rpg);
    assert(k >= 1 && (k - 1) * rpg < len && len <= k * rpg) by (nonlinear_arith)
        requires
            len >= 1,
            rpg >= 1,
            k == (len + rpg - 1) / rpg,
    {
        let m = (len + rpg - 1) % rpg;
        assert(len + rpg - 1 == k * rpg + m);
        assert(0 <= m < rpg);
        assert((k - 1) * rpg == k * rpg - rpg);
    }
    assert forall|i: int| 0 <= i < k implies #[trigger] (i * rpg) < len by {
        lemma_mul_le(i, k - 1, rpg);
    }
}

/// The plan's ranges cover exactly the requested rows: the first range starts
/// at `row_range.start`, the last ends at `row_range.end`, each range starts
/// right after the previous one ends, and no range is empty.
pub proof fn lemma_plan_covers_range(table: Table, row_group_bytes: i64, row_range: RowRange)
    requires
        plan_fits_i64(table, row_group_bytes, row_range),
        range_len(row_range) > 0,
    ensures
        ({
            let p = plan_ranges(table, row_group_bytes, row_range);
            &&& p.len() >= 1
            &&& p[0].start == row_range.start
            &&& p[p.len() - 1].end == row_range.end
            &&& forall|i: int| 0 <= i < p.len() - 1 ==> #[trigger] p[i + 1].start == p[i].end + 1
            &&& forall|i: int| 0 <= i < p.len() ==> #[trigger] p[i].start <= p[i].end
        }),
{
    let p = plan_ranges(table, row_group_bytes, row_range);
    let len = range_len(row_range);
    let rpg = rows_per_group(table, row_group_bytes, row_range);
    let k = group_count(table, row_group_bytes, row_range);
    lemma_ceil_div_bounds(len, rpg);
    assert(0 * rpg == 0);
    assert(p[0].start == row_range.start);
    assert((k - 1 + 1) * rpg == k * rpg);
    assert(p[p.len() - 1].end == row_range.end);
    assert forall|i: int| 0 <= i < p.len() - 1 implies #[trigger] p[i + 1].start == p[i].end
        + 1 by {
        assert(((i + 1) * rpg) < len);
        assert((i + 1) * rpg == i * rpg + rpg) by (nonlinear_arith);
    }
    assert forall|i: int| 0 <= i < p.len() implies #[trigger] p[i].start <= p[i].end by {
        assert((i * rpg) < len);
        assert((i + 1) * rpg == i * rpg + rpg) by (nonlinear_arith);
    }
}

/// An empty row range is planned as one empty range starting at its start,
/// so that a file holding the table schema is still written.
pub proof fn lemma_plan_empty_range(table: Table, row_group_bytes: i64, row_range: RowRange)
    requires
        plan_fits_i64(table, row_group_bytes, row_range),
        range_len(row_range) == 0,
    ensures
        plan_ranges(table, row_group_bytes, row_range) == seq![
            RowRange { start: row_range.start, end: (row_range.start - 1) as i64 },
        ],
{
    assert(plan_ranges(table, row_group_bytes, row_range) =~= seq![
        RowRange { start: row_range.start, end: (row_range.start - 1) as i64 },
    ]);
}

/// The number of row groups is at least one, never exceeds Parquet's limit,
/// and never exceeds the number of rows when there are rows.
pub proof fn lemma_plan_row_group_count(table: Table, row_group_bytes: i64, row_range: RowRange)
    requires
        plan_fits_i64(table, row_group_bytes, row_range),
    ensures
        1 <= plan_ranges(table, row_group_bytes, row_range).len() <= MAX_ROW_GROUPS,
        range_len(row_range) > 0 ==> plan_ranges(table, row_group_bytes, row_range).len()
            <= range_len(row_range),
{
    let len = range_len(row_range);
    if len > 0 {
        let n = target_row_groups(table, row_group_bytes, row_range);
        let rpg = rows_per_group(table, row_group_bytes, row_range);
        lemma_ceil_div_bounds(len, rpg);
        lemma_group_count_le_target(len, n, rpg);
    }
}

/// Every range but the last holds exactly `rows_per_group` rows; the last
/// holds at least one and at most that many.
pub proof fn lemma_plan_range_sizes(table: Table, row_group_bytes: i64, row_range: RowRange)
    requires
        plan_fits_i64(table, row_group_bytes, row_range),
        range_len(row_range) > 0,
    ensures
        ({
            let p = plan_ranges(table, row_group_bytes, row_range);
            let rpg = rows_per_group(table, row_group_bytes, row_range);
            &&& forall|i: int| 0 <= i < p.len() - 1 ==> #[trigger] p[i].end - p[i].start + 1 == rpg
            &&& 1 <= p[p.len() - 1].end - p[p.len() - 1].start + 1 <= rpg
        }),
{
    let p = plan_ranges(table, row_group_bytes, row_range);
    let len = range_len(row_range);
    let rpg = rows_per_group(table, row_group_bytes, row_range);
    let k = group_count(table, row_group_bytes, row_range);
    lemma_ceil_div_bounds(len, rpg);
    assert forall|i: int| 0 <= i < p.len() - 1 implies #[trigger] p[i].end - p[i].start + 1
        == rpg by {
        assert(((i + 1) * rpg) < len);
        assert((i + 1) * rpg == i * rpg + rpg) by (nonlinear_arith);
    }
    assert(((k - 1) * rpg) < len);
    assert((k - 1 + 1) * rpg == (k - 1) * rpg + rpg) by (nonlinear_arith);
}

/// The estimated bytes per source row of `table`.
pub fn estimated_bytes_per_source_row(table: Table) -> (r: i64)
    ensures
        r == bytes_per_source_row(table),
{
    match table {
        Table::CallCenter => 423,
        Table::CatalogPage => 113,
        Table::CatalogReturns => 195,
        Table::CatalogSales => 2391,
        Table::Customer => 92,
        Table::CustomerAddress => 46,
        Table::CustomerDemographics => 9,
        Table::DateDim => 57,
        Table::DbgenVersion => 358,
        Table::HouseholdDemographics => 10,
        Table::IncomeBand => 20,
        Table::Inventory => 3,
        Table::Item => 197,
        Table::Promotion => 120,
        Table::Reason => 54,
        Table::ShipMode => 76,
        Table::Store => 265,
        Table::StoreReturns => 220,
        Table::StoreSales => 2366,
        Table::TimeDim => 38,
        Table::Warehouse => 206,
        Table::WebPage => 50,
        Table::WebReturns => 261,
        Table::WebSales => 3119,
        Table::WebSite => 218,
    }
}

impl TpcdsGenerationPlan {
    /// Computes the row group layout for `table` given the target
    /// `row_group_bytes`, restricted to `row_range` of the table's source rows.
    ///
    /// `row_range` is typically a whole table (`1..=source_rows`) or one
    /// `--parts`/`--part` chunk; the ranges produced cover exactly `row_range`.
    pub fn new_for_range(table: Table, row_group_bytes: i64, row_range: RowRange) -> (plan: Self)
        requires
            plan_fits_i64(table, row_group_bytes, row_range),
        ensures
            plan@ == plan_ranges(table, row_group_bytes, row_range),
    {
        let range_start = row_range.start;
        let range_end = row_range.end;
        let diff = range_end - range_start + 1;
        let row_count: i64 = if diff > 0 {
            diff
        } else {
            0
        };
        let per_row = estimated_bytes_per_source_row(table);
        let estimated: i64 = match row_count.checked_mul(per_row) {
            Some(p) => p,
            None => i64::MAX,
        };
        let divisor: i64 = if row_group_bytes > 1 {
            row_group_bytes
        } else {
            1
        };
        let a: i64 = estimated / divisor + 1;
        let b: i64 = if a < MAX_ROW_GROUPS {
            a
        } else {
            MAX_ROW_GROUPS
        };
        let c: i64 = if b < row_count {
            b
        } else {
            row_count
        };
        let num_row_groups: i64 = if c > 1 {
            c
        } else {
            1
        };
        assert(row_count == range_len(row_range));
        assert(estimated == estimated_bytes(table, row_count as int));
        assert(num_row_groups == target_row_groups(table, row_group_bytes, row_range));
        // ceiling division so the last row group is the one that comes up short
        let q: i64 = (row_count + num_row_groups - 1) / num_row_groups;
        let rpg: i64 = if q > 1 {
            q
        } else {
            1
        };
        let ghost len = row_count as int;
        let ghost count = group_count(table, row_group_bytes, row_range);
        assert(len == range_len(row_range));
        assert(estimated == estimated_bytes(table, len));
        assert(num_row_groups == target_row_groups(table, row_group_bytes, row_range));
        assert(rpg == rows_per_group(table, row_group_bytes, row_range));

        let mut ranges: Vec<RowRange> = Vec::new();
        let mut start = range_start;
        assert(0 * rpg == 0);
        while start <= range_end
            invariant
                range_start == row_range.start,
                range_end == row_range.end,
                len == range_len(row_range),
                rpg == rows_per_group(table, row_group_bytes, row_range),
                rpg >= 1,
                count == group_count(table, row_group_bytes, row_range),
                plan_fits_i64(table, row_group_bytes, row_range),
                range_start + ranges.len() * rpg <= range_end ==> start == range_start
                    + ranges.len() * rpg,
                range_start + ranges.len() * rpg > range_end ==> start > range_end,
                ranges.len() * rpg < len + rpg,
                forall|i: int|
                    0 <= i < ranges.len() ==> #[trigger] ranges@[i] == group_range(
                        row_range,
                        rpg as int,
                        i,
                    ),
            decreases range_end - start + 1,
        {
            let ghost k = ranges.len() as int;
            assert(range_start + k * rpg <= range_end);
            assert(len > 0);
            proof {
                lemma_index_below_count(len, rpg as int, k);
                lemma_mul_le(k + 1, count, rpg as int);
            }
            let end_candidate = start + rpg - 1;
            let end = if end_candidate < range_end {
                end_candidate
            } else {
                range_end
            };
            assert(end >= start);
            ranges.push(RowRange { start, end });
            start = end + 1;
            assert(ranges@[k] == group_range(row_range, rpg as int, k));
            assert(ranges.len() * rpg == k * rpg + rpg);
        }
        let ghost k = ranges.len() as int;
        if ranges.len() == 0 {
            assert(len == 0) by {
                if len > 0 {
                    assert(range_start <= range_end);
                }
            }
            ranges.push(RowRange { start: range_start, end: range_start - 1 });
            assert(ranges@ =~= plan_ranges(table, row_group_bytes, row_range));
        } else {
            assert(len > 0) by {
                if len == 0 {
                    assert(range_start + 0 * rpg > range_end);
                    assert(k * rpg >= 0) by (nonlinear_arith)
                        requires
                            k >= 0,
                            rpg >= 1,
                    ;
                }
            }
            assert(len <= k * rpg);
            proof {
                lemma_ceil_div_unique(len, rpg as int, k);
            }
            assert(ranges@ =~= plan_ranges(table, row_group_bytes, row_range));
        }
        TpcdsGenerationPlan { ranges }
    }

    /// The number of row groups this plan will generate.
    pub fn row_group_count(&self) -> (r: usize)
        ensures
            r == self@.len(),
    {
        self.ranges.len()
    }

    /// The planned source row ranges, one per row group, in order.
    pub fn ranges(&self) -> (r: &Vec<RowRange>)
        ensures
            r@ == self@,
    {
        &self.ranges
    }

    /// Consumes the plan, returning its source row ranges in order.
    pub fn into_ranges(self) -> (r: Vec<RowRange>)
        ensures
            r@ == self@,
    {
        self.ranges
    }
}

} // verus!
