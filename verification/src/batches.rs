//! Cutting the rows of one TPC-DS table into batches of a fixed size, as
//! they come out of a row cursor.
use vstd::prelude::*;

use crate::csv::GeneratedRow;
use crate::plan::RowRange;
use crate::row_iter::{finishes_rows, lemma_take_one_more_call, rows_for, Calls, RowIter, RowStep};
use crate::tpcds_table::Table;

verus! {

/// Default number of rows per batch.
pub const DEFAULT_BATCH_SIZE: usize = 8000;

/// Whether every row in `rows` belongs to `table`.
pub open spec fn all_of_table(rows: Seq<GeneratedRow>, table: Table) -> bool {
    forall|i: int| 0 <= i < rows.len() ==> (#[trigger] rows[i]).spec_table() == table
}

/// The rows of `rows` that belong to `table`, in order.
pub open spec fn rows_of_table(rows: Seq<GeneratedRow>, table: Table) -> Seq<GeneratedRow>
    decreases rows.len(),
{
    if rows.len() == 0 {
        Seq::empty()
    } else {
        let p = rows_of_table(rows.drop_last(), table);
        if rows.last().spec_table() == table {
            p.push(rows.last())
        } else {
            p
        }
    }
}

/// The rows kept of `rows` all belong to `table`.
pub proof fn lemma_rows_of_table_belong(rows: Seq<GeneratedRow>, table: Table)
    ensures
        all_of_table(rows_of_table(rows, table), table),
    decreases rows.len(),
{
    if rows.len() > 0 {
        lemma_rows_of_table_belong(rows.drop_last(), table);
    }
}

/// Keeping the rows of `table` keeps all of `rows` when they all belong to it.
pub proof fn lemma_rows_of_table_keeps_all(rows: Seq<GeneratedRow>, table: Table)
    requires
        all_of_table(rows, table),
    ensures
        rows_of_table(rows, table) == rows,
    decreases rows.len(),
{
    if rows.len() > 0 {
        let t = rows.drop_last();
        assert(all_of_table(t, table)) by {
            assert forall|i: int| 0 <= i < t.len() implies (#[trigger] t[i]).spec_table() == table by {
                assert(t[i] == rows[i]);
            }
        }
        lemma_rows_of_table_keeps_all(t, table);
        assert(rows[rows.len() - 1].spec_table() == table);
        assert(t.push(rows.last()) =~= rows);
    }
}

/// What `gen` makes for `table`: the rows of `table` of every call.
pub open spec fn table_calls(gen: Calls, table: Table) -> Calls {
    |n: i64| gen(n).map_values(|c: Seq<GeneratedRow>| rows_of_table(c, table))
}

/// The rows of one table: a cursor over its source rows and the size of
/// the batches its rows are cut into.
#[derive(Debug)]
pub struct TableRows {
    table: Table,
    inner: RowIter,
    batch_size: usize,
}

impl TableRows {
    /// The table whose rows these are.
    pub closed spec fn spec_table(&self) -> Table {
        self.table
    }

    /// The largest number of rows in one batch.
    pub closed spec fn spec_batch_size(&self) -> int {
        self.batch_size as int
    }

    /// The next source row to generate.
    pub closed spec fn spec_current_row(&self) -> i64 {
        self.inner.spec_current_row()
    }

    /// The last source row to generate.
    pub closed spec fn spec_row_count(&self) -> i64 {
        self.inner.spec_row_count()
    }

    /// Generated rows not yet handed out, oldest first.
    pub closed spec fn spec_pending(&self) -> Seq<GeneratedRow> {
        self.inner.spec_pending()
    }

    /// Every pending row belongs to the table.
    pub open spec fn wf(&self) -> bool {
        all_of_table(self.spec_pending(), self.spec_table())
    }

    /// Whether `other` is this walk with the same table and batch size.
    pub open spec fn same_settings(&self, other: &TableRows) -> bool {
        &&& other.spec_table() == self.spec_table()
        &&& other.spec_batch_size() == self.spec_batch_size()
    }

    /// Whether `other` is this walk, unchanged.
    pub open spec fn same_walk(&self, other: &TableRows) -> bool {
        &&& self.same_settings(other)
        &&& other.spec_current_row() == self.spec_current_row()
        &&& other.spec_row_count() == self.spec_row_count()
        &&& other.spec_pending() == self.spec_pending()
    }

    /// How many more rows fit in a batch that already holds `filled`.
    pub open spec fn batch_room(&self, filled: int) -> int {
        if filled < self.spec_batch_size() {
            self.spec_batch_size() - filled
        } else {
            0
        }
    }

    /// How many pending rows go into a batch that already holds `filled`.
    pub open spec fn batch_take(&self, filled: int) -> int {
        if self.batch_room(filled) < self.spec_pending().len() {
            self.batch_room(filled)
        } else {
            self.spec_pending().len() as int
        }
    }

    /// What filling a batch that already holds `filled` asks of the
    /// generator: nothing once the batch is full or the walk is over, else
    /// the current source row.
    pub open spec fn batch_request(&self, filled: int) -> Option<i64> {
        if self.batch_take(filled) == self.batch_room(filled) {
            None
        } else if self.spec_current_row() > self.spec_row_count() {
            None
        } else {
            Some(self.spec_current_row())
        }
    }

    /// Whether `r` is the fresh walk over source rows `1..=row_count` of
    /// `table`, in batches of the default size.
    pub open spec fn is_fresh(r: &TableRows, table: Table, row_count: i64) -> bool {
        &&& r.spec_table() == table
        &&& r.spec_batch_size() == DEFAULT_BATCH_SIZE
        &&& r.spec_current_row() == 1
        &&& r.spec_row_count() == row_count
        &&& r.spec_pending() == Seq::<GeneratedRow>::empty()
    }

    /// Whether `r` is this walk restarted at source row `start`.
    pub open spec fn restarted(&self, r: &TableRows, start: i64) -> bool {
        &&& self.same_settings(r)
        &&& r.spec_current_row() == start
        &&& r.spec_row_count() == self.spec_row_count()
        &&& r.spec_pending() == Seq::<GeneratedRow>::empty()
    }

    /// Whether `r` is this walk restricted to source rows `start..=end`,
    /// the end clamped to the row count.
    pub open spec fn ranged(&self, r: &TableRows, start: i64, end: i64) -> bool {
        &&& self.same_settings(r)
        &&& r.spec_current_row() == start
        &&& r.spec_row_count() == (if end < self.spec_row_count() {
            end
        } else {
            self.spec_row_count()
        })
        &&& r.spec_pending() == Seq::<GeneratedRow>::empty()
    }

    /// Whether `r` is this walk with batches of at most `batch_size` rows.
    pub open spec fn rebatched(&self, r: &TableRows, batch_size: usize) -> bool {
        &&& r.spec_table() == self.spec_table()
        &&& r.spec_batch_size() == batch_size
        &&& r.spec_current_row() == self.spec_current_row()
        &&& r.spec_row_count() == self.spec_row_count()
        &&& r.spec_pending() == self.spec_pending()
    }

    /// Whether filling a batch that held `before` left this walk as `r`,
    /// the batch as `after`, and asked for `request`.
    pub open spec fn filled(
        &self,
        r: &TableRows,
        before: Seq<GeneratedRow>,
        after: Seq<GeneratedRow>,
        request: Option<i64>,
    ) -> bool {
        let k = self.batch_take(before.len() as int);
        &&& after == before + self.spec_pending().take(k)
        &&& r.spec_pending() == self.spec_pending().skip(k)
        &&& self.same_settings(r)
        &&& r.spec_current_row() == self.spec_current_row()
        &&& r.spec_row_count() == self.spec_row_count()
        &&& request == self.batch_request(before.len() as int)
    }

    /// Whether `r` is this walk after taking the generator's `rows` for the
    /// current source row (keeping those of its table), `should_end_row`
    /// saying whether the source row is finished.
    pub open spec fn accepted(&self, r: &TableRows, rows: Seq<GeneratedRow>, should_end_row: bool) -> bool {
        &&& self.same_settings(r)
        &&& r.spec_pending() == self.spec_pending() + rows_of_table(rows, self.spec_table())
        &&& r.spec_current_row() == self.spec_current_row() + (if should_end_row {
            1int
        } else {
            0int
        })
        &&& r.spec_row_count() == self.spec_row_count()
    }

    /// The rows of `table`, source rows `1..=row_count`, in batches of the
    /// default size.
    pub fn new(table: Table, row_count: i64) -> (r: TableRows)
        ensures
            TableRows::is_fresh(&r, table, row_count),
            r.wf(),
    {
        TableRows { table, inner: RowIter::new(row_count), batch_size: DEFAULT_BATCH_SIZE }
    }

    /// The table whose rows these are.
    pub fn table(&self) -> (t: Table)
        ensures
            t == self.spec_table(),
    {
        self.table
    }

    /// The largest number of rows in one batch.
    pub fn batch_size(&self) -> (n: usize)
        ensures
            n == self.spec_batch_size(),
    {
        self.batch_size
    }

    /// Restarts at source row `starting_row_number`, dropping the rows not
    /// yet handed out.
    pub fn skip_rows_until_starting_row_number(&mut self, starting_row_number: i64)
        ensures
            old(self).restarted(final(self), starting_row_number),
            final(self).wf(),
    {
        self.inner.skip_rows_until_starting_row_number(starting_row_number);
    }

    /// Only source rows `starting_row_number..=ending_row_number`; the
    /// ending row is clamped to the row count.
    pub fn with_source_row_range(self, starting_row_number: i64, ending_row_number: i64) -> (r:
        TableRows)
        ensures
            self.ranged(&r, starting_row_number, ending_row_number),
            r.wf(),
    {
        let mut r = self;
        r.inner.set_source_row_range(starting_row_number, ending_row_number);
        r
    }

    /// Batches of at most `batch_size` rows.
    pub fn with_batch_size(self, batch_size: usize) -> (r: TableRows)
        ensures
            self.rebatched(&r, batch_size),
            r.wf() == self.wf(),
    {
        TableRows { table: self.table, inner: self.inner, batch_size }
    }

    /// Moves pending rows into `rows` until it holds a full batch or
    /// nothing is pending. Returns the source row the generator must
    /// produce next for the batch to go on filling, or `None` when the
    /// batch is complete: full, or the last of the table.
    pub fn fill_batch(&mut self, rows: &mut Vec<GeneratedRow>) -> (r: Option<i64>)
        requires
            old(self).wf(),
        ensures
            old(self).filled(final(self), old(rows)@, final(rows)@, r),
            final(self).wf(),
    {
        let ghost start = self.spec_pending();
        let ghost filled = rows.len() as int;
        let ghost k = self.batch_take(filled);
        let mut j: usize = 0;
        loop
            invariant
                old(self).same_settings(self),
                self.spec_current_row() == old(self).spec_current_row(),
                self.spec_row_count() == old(self).spec_row_count(),
                start == old(self).spec_pending(),
                k == old(self).batch_take(filled),
                all_of_table(start, old(self).spec_table()),
                filled == old(rows).len(),
                0 <= j <= k,
                rows@ == old(rows)@ + start.take(j as int),
                self.spec_pending() == start.skip(j as int),
            decreases start.len() - j,
        {
            assert(rows@.len() == filled + j);
            if rows.len() >= self.batch_size {
                assert(j == k);
                return None;
            }
            assert(start.skip(j as int).len() == start.len() - j);
            match self.inner.next_step() {
                RowStep::Row(row) => {
                    assert(start.take(j + 1) =~= start.take(j as int).push(row));
                    assert(start.skip(j + 1) =~= start.skip(j as int).drop_first());
                    rows.push(row);
                    j = j + 1;
                },
                RowStep::Generate(n) => {
                    assert(j == k);
                    return Some(n);
                },
                RowStep::Done => {
                    assert(j == k);
                    return None;
                },
            }
        }
    }

    /// Takes what the generator produced for the current source row: its
    /// rows of the table join the pending rows in order (a paired generator
    /// also makes rows of its other table, which are dropped), and the walk
    /// moves to the next source row when the generator says this one is
    /// finished.
    pub fn accept_rows(&mut self, rows: Vec<GeneratedRow>, should_end_row: bool)
        requires
            old(self).wf(),
            should_end_row ==> old(self).spec_current_row() < i64::MAX,
        ensures
            old(self).accepted(final(self), rows@, should_end_row),
            final(self).wf(),
    {
        let ghost all = rows@;
        let mut kept: Vec<GeneratedRow> = Vec::new();
        for row in it: rows
            invariant
                it.seq() == all,
                kept@ == rows_of_table(all.take(it.index()), self.table),
        {
            let ghost i = it.index();
            assert(all.take(i + 1).drop_last() =~= all.take(i));
            if row.table() == self.table {
                kept.push(row);
            }
        }
        assert(all.take(all.len() as int) =~= all);
        proof {
            lemma_rows_of_table_belong(all, self.table);
        }
        self.inner.accept_rows(kept, should_end_row);
        assert(all_of_table(self.spec_pending(), self.table));
    }
}

impl TableRows {
    /// Whether the walk is still inside source rows `first..=last`: it has
    /// not gone back before `first`, and it ends at `last`.
    pub open spec fn within(&self, first: int, last: int) -> bool {
        &&& first <= self.spec_current_row()
        &&& self.spec_row_count() == last
    }
}

/// Restricting a walk to `start..=end` keeps it inside
/// `start..=min(end, row_count)`.
pub proof fn lemma_range_bounds_walk(w: TableRows, r: TableRows, start: i64, end: i64)
    requires
        w.ranged(&r, start, end),
    ensures
        r.within(
            start as int,
            if end < w.spec_row_count() {
                end as int
            } else {
                w.spec_row_count() as int
            },
        ),
{
}

/// Filling a batch never takes a walk out of its range, and every source
/// row it asks the generator for lies in the range.
pub proof fn lemma_fill_stays_within(
    w: TableRows,
    r: TableRows,
    first: int,
    last: int,
    before: Seq<GeneratedRow>,
    after: Seq<GeneratedRow>,
    request: Option<i64>,
)
    requires
        w.within(first, last),
        w.filled(&r, before, after, request),
    ensures
        r.within(first, last),
        request matches Some(n) ==> first <= n <= last,
{
}

/// Taking the generator's rows never takes a walk out of its range.
pub proof fn lemma_accept_stays_within(
    w: TableRows,
    r: TableRows,
    first: int,
    last: int,
    rows: Seq<GeneratedRow>,
    should_end_row: bool,
)
    requires
        w.within(first, last),
        w.accepted(&r, rows, should_end_row),
    ensures
        r.within(first, last),
{
}

/// Filling a batch loses, repeats and reorders no row: the batch after,
/// followed by the rows still pending, is the batch before followed by the
/// rows that were pending.
pub proof fn lemma_fill_keeps_rows(
    w: TableRows,
    r: TableRows,
    before: Seq<GeneratedRow>,
    after: Seq<GeneratedRow>,
    request: Option<i64>,
)
    requires
        w.filled(&r, before, after, request),
    ensures
        after + r.spec_pending() == before + w.spec_pending(),
{
    let k = w.batch_take(before.len() as int);
    assert(w.spec_pending().take(k) + w.spec_pending().skip(k) =~= w.spec_pending());
    assert(after + r.spec_pending() =~= before + (w.spec_pending().take(k) + w.spec_pending().skip(k)));
}

/// A walk whose range holds no source row fills no batch and asks the
/// generator for nothing.
pub proof fn lemma_empty_range_gives_nothing(
    w: TableRows,
    r: TableRows,
    start: i64,
    end: i64,
    r2: TableRows,
    after: Seq<GeneratedRow>,
    request: Option<i64>,
)
    requires
        w.ranged(&r, start, end),
        start > end || start > w.spec_row_count(),
        r.filled(&r2, Seq::<GeneratedRow>::empty(), after, request),
    ensures
        after == Seq::<GeneratedRow>::empty(),
        request is None,
{
    assert(Seq::<GeneratedRow>::empty() + r.spec_pending().take(0) =~= Seq::<GeneratedRow>::empty());
}

impl TableRows {
    /// Whether the walk is over: nothing pending and no source row left.
    pub open spec fn is_done(&self) -> bool {
        self.spec_pending().len() == 0 && self.spec_current_row() > self.spec_row_count()
    }

    /// Whether a walk begun at source row `first` has handed out `out` to
    /// its batches, so far, of the rows `gen` makes, having taken the first
    /// `taken` calls of the current source row: `out` followed by the
    /// pending rows is everything made for the source rows before the
    /// current one and by those calls; the current row has not passed the
    /// end, and once it has, no call of it was taken.
    pub open spec fn accounts_for(&self, out: Seq<GeneratedRow>, gen: Calls, first: int, taken: int) -> bool {
        &&& out + self.spec_pending() == rows_for(gen, first, self.spec_current_row() as int) + gen(
            self.spec_current_row(),
        ).take(taken).flatten()
        &&& first <= self.spec_current_row()
        &&& (self.spec_current_row() <= self.spec_row_count() + 1 || self.spec_current_row()
            == first)
        &&& 0 <= taken
        &&& self.spec_current_row() <= self.spec_row_count() ==> taken < gen(
            self.spec_current_row(),
        ).len()
        &&& self.spec_current_row() > self.spec_row_count() ==> taken == 0
    }
}

/// Keeping one table's rows keeps every source row's calls.
pub proof fn lemma_table_calls_finish_rows(gen: Calls, table: Table)
    requires
        finishes_rows(gen),
    ensures
        finishes_rows(table_calls(gen, table)),
        forall|n: i64| #[trigger] table_calls(gen, table)(n).len() == gen(n).len(),
{
    assert forall|n: i64| #[trigger] table_calls(gen, table)(n).len() == gen(n).len() by {}
    assert forall|n: i64| (#[trigger] table_calls(gen, table)(n)).len() >= 1 by {
        assert(gen(n).len() >= 1);
    }
}

/// A walk just restricted to `start..=end` has handed out nothing and taken
/// no call, of the rows `gen` makes for its table.
pub proof fn lemma_range_walk_accounts(
    w: TableRows,
    r: TableRows,
    start: i64,
    end: i64,
    gen: Calls,
)
    requires
        w.ranged(&r, start, end),
        finishes_rows(gen),
    ensures
        r.accounts_for(Seq::empty(), table_calls(gen, r.spec_table()), start as int, 0),
{
    let g = table_calls(gen, r.spec_table());
    lemma_table_calls_finish_rows(gen, r.spec_table());
    assert(g(start).take(0) =~= Seq::<Seq<GeneratedRow>>::empty());
    assert(g(start).take(0).flatten() =~= Seq::<GeneratedRow>::empty());
    assert(rows_for(g, start as int, start as int) == Seq::<GeneratedRow>::empty());
    assert(Seq::<GeneratedRow>::empty() + r.spec_pending() =~= Seq::<GeneratedRow>::empty());
    if start <= r.spec_row_count() {
        assert(g(start).len() >= 1);
    }
}

/// Filling a batch hands out exactly the rows it moves into the batch.
pub proof fn lemma_fill_accounts(
    w: TableRows,
    r: TableRows,
    out: Seq<GeneratedRow>,
    gen: Calls,
    first: int,
    taken: int,
    before: Seq<GeneratedRow>,
    after: Seq<GeneratedRow>,
    request: Option<i64>,
)
    requires
        w.accounts_for(out, gen, first, taken),
        w.filled(&r, before, after, request),
    ensures
        after.len() >= before.len(),
        after.subrange(0, before.len() as int) == before,
        r.accounts_for(out + after.skip(before.len() as int), gen, first, taken),
{
    let k = w.batch_take(before.len() as int);
    let p = w.spec_pending();
    assert(after.skip(before.len() as int) =~= p.take(k));
    assert(after.subrange(0, before.len() as int) =~= before);
    assert(p.take(k) + p.skip(k) =~= p);
    assert(out + after.skip(before.len() as int) + r.spec_pending() =~= out + (p.take(k) + p.skip(
        k,
    )));
}

/// Taking the rows of the next call of the source row the walk asked for,
/// of all the rows `gen` makes, accounts for its rows of the walk's table:
/// after a call that leaves the row unfinished one more call is taken;
/// after the last call, which finishes it, the walk is at the next row
/// with none of its calls taken.
pub proof fn lemma_accept_accounts(
    w: TableRows,
    r: TableRows,
    out: Seq<GeneratedRow>,
    gen: Calls,
    first: int,
    taken: int,
    should_end_row: bool,
)
    requires
        finishes_rows(gen),
        w.accounts_for(out, table_calls(gen, w.spec_table()), first, taken),
        w.spec_current_row() <= w.spec_row_count(),
        should_end_row == (taken + 1 == gen(w.spec_current_row()).len()),
        w.accepted(&r, gen(w.spec_current_row())[taken], should_end_row),
    ensures
        r.accounts_for(out, table_calls(gen, w.spec_table()), first, if should_end_row {
            0
        } else {
            taken + 1
        }),
{
    let table = w.spec_table();
    let g = table_calls(gen, table);
    lemma_table_calls_finish_rows(gen, table);
    let c = w.spec_current_row();
    let calls = g(c);
    assert(calls.len() == gen(c).len());
    assert(calls[taken] == rows_of_table(gen(c)[taken], table));
    lemma_take_one_more_call(calls, taken);
    assert(out + r.spec_pending() =~= (out + w.spec_pending()) + calls[taken]);
    if should_end_row {
        assert(calls.take(taken + 1) =~= calls);
        assert(rows_for(g, first, c + 1) == rows_for(g, first, c as int) + calls.flatten());
        let n = r.spec_current_row();
        assert(g(n).take(0) =~= Seq::<Seq<GeneratedRow>>::empty());
        assert(g(n).take(0).flatten() =~= Seq::<GeneratedRow>::empty());
        assert(out + r.spec_pending() =~= rows_for(g, first, n as int) + g(n).take(0).flatten());
        if n <= r.spec_row_count() {
            assert(g(n).len() >= 1);
        }
    } else {
        assert(out + r.spec_pending() =~= rows_for(g, first, c as int) + calls.take(taken
            + 1).flatten());
    }
}

/// A batch that filling leaves short of full, with nothing asked of the
/// generator, is the last: the walk is over.
pub proof fn lemma_short_batch_is_last(
    w: TableRows,
    r: TableRows,
    before: Seq<GeneratedRow>,
    after: Seq<GeneratedRow>,
)
    requires
        w.filled(&r, before, after, None),
        after.len() < w.spec_batch_size(),
    ensures
        r.is_done(),
{
}

/// When a walk begun at `first` is over, it has handed out exactly the rows
/// `gen` makes for source rows `first..=row_count`, every call of every row
/// in order.
pub proof fn lemma_done_walk_handed_out_its_range(
    w: TableRows,
    out: Seq<GeneratedRow>,
    gen: Calls,
    first: int,
    taken: int,
)
    requires
        w.accounts_for(out, gen, first, taken),
        w.is_done(),
    ensures
        out == rows_for(
            gen,
            first,
            if w.spec_row_count() + 1 > first {
                w.spec_row_count() + 1
            } else {
                first
            },
        ),
{
    let c = w.spec_current_row();
    assert(gen(c).take(0) =~= Seq::<Seq<GeneratedRow>>::empty());
    assert(gen(c).take(0).flatten() =~= Seq::<GeneratedRow>::empty());
    assert(out + w.spec_pending() =~= out);
    assert(rows_for(gen, first, c as int) + gen(c).take(0).flatten() =~= rows_for(gen, first, c as int));
}

/// The batch size only moves batch boundaries: two walks begun at the same
/// source row with the same last row, once over, have handed out the same
/// rows in the same order, whatever their batch sizes.
pub proof fn lemma_batch_size_keeps_rows(
    w1: TableRows,
    w2: TableRows,
    out1: Seq<GeneratedRow>,
    out2: Seq<GeneratedRow>,
    gen: Calls,
    first: int,
    taken1: int,
    taken2: int,
)
    requires
        w1.accounts_for(out1, gen, first, taken1),
        w2.accounts_for(out2, gen, first, taken2),
        w1.is_done(),
        w2.is_done(),
        w1.spec_row_count() == w2.spec_row_count(),
    ensures
        out1 == out2,
{
    lemma_done_walk_handed_out_its_range(w1, out1, gen, first, taken1);
    lemma_done_walk_handed_out_its_range(w2, out2, gen, first, taken2);
}

/// Whether `r` walks source rows `start..=end` of `table` (the end clamped
/// to `row_count`), in batches of the default size, with nothing pending.
pub open spec fn is_range_walk(r: TableRows, table: Table, row_count: i64, start: i64, end: i64) -> bool {
    &&& r.spec_table() == table
    &&& r.spec_batch_size() == DEFAULT_BATCH_SIZE
    &&& r.spec_current_row() == start
    &&& r.spec_row_count() == (if end < row_count {
        end as int
    } else {
        row_count as int
    })
    &&& r.spec_pending() == Seq::<GeneratedRow>::empty()
    &&& r.wf()
}

/// One walk per planned row group of a table with `row_count` source rows:
/// walk `i` covers the source rows of `ranges[i]`, and its batches make
/// row group `i`.
pub fn range_walks(table: Table, row_count: i64, ranges: &Vec<RowRange>) -> (r: Vec<TableRows>)
    ensures
        r.len() == ranges.len(),
        forall|i: int|
            0 <= i < ranges.len() ==> is_range_walk(
                #[trigger] r@[i],
                table,
                row_count,
                ranges@[i].start,
                ranges@[i].end,
            ),
{
    let mut out: Vec<TableRows> = Vec::with_capacity(ranges.len());
    let mut i: usize = 0;
    while i < ranges.len()
        invariant
            i <= ranges.len(),
            out.len() == i,
            forall|j: int|
                0 <= j < i ==> is_range_walk(
                    #[trigger] out@[j],
                    table,
                    row_count,
                    ranges@[j].start,
                    ranges@[j].end,
                ),
        decreases ranges.len() - i,
    {
        let walk = TableRows::new(table, row_count).with_source_row_range(
            ranges[i].start,
            ranges[i].end,
        );
        out.push(walk);
        i = i + 1;
    }
    out
}

} // verus!
