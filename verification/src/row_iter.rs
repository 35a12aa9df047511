//! Walking the source rows of a table and handing out the rows a row
//! generator produces for them, in order.
//!
//! A row generator turns one source row number into zero or more generated
//! rows and says whether that source row is finished (a fact-table
//! generator may need several calls for one source row). The cursor here
//! makes every decision of that walk; the caller makes the generator calls
//! the cursor asks for and hands their results back.
use std::collections::VecDeque;
use vstd::prelude::*;

use crate::csv::GeneratedRow;

verus! {

/// What a row cursor needs next.
#[derive(Debug)]
pub enum RowStep {
    /// The next generated row, in the order the generator produced it.
    Row(GeneratedRow),
    /// The generator must produce source row `n`; its result goes to
    /// [`RowIter::accept_rows`].
    Generate(i64),
    /// Every source row in range has been produced and its rows handed out.
    Done,
}

/// The state of a walk over source rows `current_row..=row_count`
/// (1-based), with the generated rows not yet handed out.
#[derive(Debug)]
pub struct RowIter {
    current_row: i64,
    row_count: i64,
    pending: VecDeque<GeneratedRow>,
}

impl RowIter {
    /// The next source row to generate.
    pub closed spec fn spec_current_row(&self) -> i64 {
        self.current_row
    }

    /// The last source row to generate.
    pub closed spec fn spec_row_count(&self) -> i64 {
        self.row_count
    }

    /// Generated rows not yet handed out, oldest first.
    pub closed spec fn spec_pending(&self) -> Seq<GeneratedRow> {
        self.pending@
    }

    /// Whether the walk is over: nothing pending and no source row left.
    pub open spec fn spec_done(&self) -> bool {
        self.spec_pending().len() == 0 && self.spec_current_row() > self.spec_row_count()
    }

    /// A walk over source rows `1..=row_count`.
    pub fn new(row_count: i64) -> (r: RowIter)
        ensures
            r.spec_current_row() == 1,
            r.spec_row_count() == row_count,
            r.spec_pending() == Seq::<GeneratedRow>::empty(),
    {
        RowIter { current_row: 1, row_count, pending: VecDeque::new() }
    }

    /// Restarts the walk at source row `starting_row_number`, dropping the
    /// rows not yet handed out. The generator is skipped to the same row by
    /// the caller.
    pub fn skip_rows_until_starting_row_number(&mut self, starting_row_number: i64)
        ensures
            final(self).spec_current_row() == starting_row_number,
            final(self).spec_row_count() == old(self).spec_row_count(),
            final(self).spec_pending() == Seq::<GeneratedRow>::empty(),
    {
        self.current_row = starting_row_number;
        self.pending.clear();
    }

    /// Restricts the walk to source rows
    /// `starting_row_number..=ending_row_number`; the ending row is clamped
    /// to the row count.
    pub fn set_source_row_range(&mut self, starting_row_number: i64, ending_row_number: i64)
        ensures
            final(self).spec_current_row() == starting_row_number,
            final(self).spec_row_count() == (if ending_row_number < old(self).spec_row_count() {
                ending_row_number
            } else {
                old(self).spec_row_count()
            }),
            final(self).spec_pending() == Seq::<GeneratedRow>::empty(),
    {
        self.skip_rows_until_starting_row_number(starting_row_number);
        if ending_row_number < self.row_count {
            self.row_count = ending_row_number;
        }
    }

    /// The next step of the walk: hand out the oldest pending row, ask for
    /// the current source row, or report the end.
    pub fn next_step(&mut self) -> (s: RowStep)
        ensures
            old(self).spec_pending().len() > 0 ==> {
                &&& s == RowStep::Row(old(self).spec_pending()[0])
                &&& final(self).spec_pending() == old(self).spec_pending().drop_first()
                &&& final(self).spec_current_row() == old(self).spec_current_row()
                &&& final(self).spec_row_count() == old(self).spec_row_count()
            },
            old(self).spec_pending().len() == 0 ==> {
                &&& final(self).spec_pending() == old(self).spec_pending()
                &&& final(self).spec_current_row() == old(self).spec_current_row()
                &&& final(self).spec_row_count() == old(self).spec_row_count()
            },
            old(self).spec_done() ==> s is Done,
            old(self).spec_pending().len() == 0 && !old(self).spec_done() ==> s == RowStep::Generate(
                old(self).spec_current_row(),
            ),
            old(self).stepped(final(self), s),
    {
        match self.pending.pop_front() {
            Some(row) => RowStep::Row(row),
            None => {
                if self.current_row > self.row_count {
                    RowStep::Done
                } else {
                    RowStep::Generate(self.current_row)
                }
            },
        }
    }

    /// Takes what the generator produced for the current source row: its
    /// rows join the pending rows in order, and the walk moves to the next
    /// source row when the generator says this one is finished.
    pub fn accept_rows(&mut self, rows: Vec<GeneratedRow>, should_end_row: bool)
        requires
            should_end_row ==> old(self).spec_current_row() < i64::MAX,
        ensures
            final(self).spec_pending() == old(self).spec_pending() + rows@,
            final(self).spec_current_row() == old(self).spec_current_row() + (if should_end_row {
                1int
            } else {
                0int
            }),
            final(self).spec_row_count() == old(self).spec_row_count(),
    {
        let ghost before = self.pending@;
        for row in it: rows
            invariant
                self.pending@ == before + it.seq().take(it.index()),
                self.current_row == old(self).current_row,
                self.row_count == old(self).row_count,
        {
            self.pending.push_back(row);
        }
        if should_end_row {
            self.current_row = self.current_row + 1;
        }
    }
}

/// What a row generator makes, as a function of the source row: the rows
/// of each call it takes for that row, in call order. Every call but the
/// last leaves the row unfinished; the last finishes it.
pub type Calls = spec_fn(i64) -> Seq<Seq<GeneratedRow>>;

/// Whether every source row takes at least one call.
pub open spec fn finishes_rows(gen: Calls) -> bool {
    forall|n: i64| (#[trigger] gen(n)).len() >= 1
}

/// The rows `gen` makes for source rows `first..next`: every call's rows,
/// row by row and call by call, in order.
pub open spec fn rows_for(gen: Calls, first: int, next: int) -> Seq<GeneratedRow>
    decreases next - first,
{
    if next <= first {
        Seq::empty()
    } else {
        rows_for(gen, first, next - 1) + gen((next - 1) as i64).flatten()
    }
}

impl RowIter {
    /// Whether stepping this walk gave `s` and left the walk as `r`.
    pub open spec fn stepped(&self, r: &RowIter, s: RowStep) -> bool {
        &&& r.spec_row_count() == self.spec_row_count()
        &&& r.spec_current_row() == self.spec_current_row()
        &&& if self.spec_pending().len() > 0 {
            &&& s == RowStep::Row(self.spec_pending()[0])
            &&& r.spec_pending() == self.spec_pending().drop_first()
        } else {
            &&& r.spec_pending() == self.spec_pending()
            &&& s == (if self.spec_done() {
                RowStep::Done
            } else {
                RowStep::Generate(self.spec_current_row())
            })
        }
    }

    /// Whether a walk begun at source row `first` has handed out `out`, so
    /// far, of the rows `gen` makes, having taken the first `taken` calls
    /// of the current source row: `out` followed by the pending rows is
    /// everything made for the source rows before the current one and by
    /// those calls; the current row has not passed the end, and once it has,
    /// no call of it was taken.
    pub open spec fn accounts_for(&self, out: Seq<GeneratedRow>, gen: Calls, first: int, taken: int) -> bool {
        &&& out + self.spec_pending() == rows_for(gen, first, self.spec_current_row() as int) + gen(
            self.spec_current_row(),
        ).take(taken).flatten()
        &&& first <= self.spec_current_row()
        &&& (self.spec_current_row() <= self.spec_row_count() + 1 || self.spec_current_row()
            == first)
        &&& 0 <= taken
        &&& self.spec_current_row() <= self.spec_row_count() ==> taken < gen(
            self.spec_current_row(),
        ).len()
        &&& self.spec_current_row() > self.spec_row_count() ==> taken == 0
    }
}

/// A walk just started, or just restricted to a range, with nothing pending,
/// has handed out nothing and taken no call.
pub proof fn lemma_cursor_start_accounts(w: RowIter, gen: Calls)
    requires
        w.spec_pending() == Seq::<GeneratedRow>::empty(),
        finishes_rows(gen),
    ensures
        w.accounts_for(Seq::empty(), gen, w.spec_current_row() as int, 0),
{
    let c = w.spec_current_row();
    assert(gen(c).take(0) =~= Seq::<Seq<GeneratedRow>>::empty());
    assert(gen(c).take(0).flatten() =~= Seq::<GeneratedRow>::empty());
    assert(Seq::<GeneratedRow>::empty() + w.spec_pending() =~= rows_for(gen, c as int, c as int)
        + gen(c).take(0).flatten());
}

/// A step hands out exactly the row it returns, and nothing when it asks
/// for a call or reports the end.
pub proof fn lemma_step_accounts(
    w: RowIter,
    r: RowIter,
    s: RowStep,
    out: Seq<GeneratedRow>,
    gen: Calls,
    first: int,
    taken: int,
)
    requires
        w.accounts_for(out, gen, first, taken),
        w.stepped(&r, s),
    ensures
        s matches RowStep::Row(row) ==> r.accounts_for(out.push(row), gen, first, taken),
        !(s is Row) ==> r.accounts_for(out, gen, first, taken),
{
    if w.spec_pending().len() > 0 {
        let p = w.spec_pending();
        assert(out.push(p[0]) + p.drop_first() =~= out + p);
    }
}

/// The rows of the first `k + 1` calls are those of the first `k` followed
/// by the rows of call `k`.
pub proof fn lemma_take_one_more_call(calls: Seq<Seq<GeneratedRow>>, k: int)
    requires
        0 <= k < calls.len(),
    ensures
        calls.take(k + 1).flatten() == calls.take(k).flatten() + calls[k],
{
    assert(calls.take(k + 1) =~= calls.take(k).push(calls[k]));
    calls.take(k).lemma_flatten_push(calls[k]);
}

/// Taking the rows of the next call `gen` makes for the source row the
/// walk asked for accounts for them: after a call that leaves the row
/// unfinished, one more call of it is taken; after the last call, which
/// finishes it, the walk is at the next row with none of its calls taken.
pub proof fn lemma_cursor_accept_accounts(
    w: RowIter,
    r: RowIter,
    out: Seq<GeneratedRow>,
    gen: Calls,
    first: int,
    taken: int,
    should_end_row: bool,
)
    requires
        finishes_rows(gen),
        w.accounts_for(out, gen, first, taken),
        w.spec_current_row() <= w.spec_row_count(),
        should_end_row == (taken + 1 == gen(w.spec_current_row()).len()),
        r.spec_pending() == w.spec_pending() + gen(w.spec_current_row())[taken],
        r.spec_current_row() == w.spec_current_row() + (if should_end_row {
            1int
        } else {
            0int
        }),
        r.spec_row_count() == w.spec_row_count(),
    ensures
        r.accounts_for(out, gen, first, if should_end_row {
            0
        } else {
            taken + 1
        }),
{
    let c = w.spec_current_row();
    let calls = gen(c);
    lemma_take_one_more_call(calls, taken);
    assert(out + r.spec_pending() =~= (out + w.spec_pending()) + calls[taken]);
    if should_end_row {
        assert(calls.take(taken + 1) =~= calls);
        assert(rows_for(gen, first, c + 1) == rows_for(gen, first, c as int) + calls.flatten());
        let n = r.spec_current_row();
        assert(gen(n).take(0) =~= Seq::<Seq<GeneratedRow>>::empty());
        assert(gen(n).take(0).flatten() =~= Seq::<GeneratedRow>::empty());
        assert(out + r.spec_pending() =~= rows_for(gen, first, n as int) + gen(n).take(0).flatten());
    } else {
        assert(out + r.spec_pending() =~= rows_for(gen, first, c as int) + calls.take(taken
            + 1).flatten());
    }
}

/// When a walk begun at `first` reports its end, it has handed out exactly
/// the rows `gen` makes for source rows `first..=row_count`, every call of
/// every row in order, and every later step reports the end again.
pub proof fn lemma_cursor_done(
    w: RowIter,
    r: RowIter,
    out: Seq<GeneratedRow>,
    gen: Calls,
    first: int,
    taken: int,
)
    requires
        w.accounts_for(out, gen, first, taken),
        w.stepped(&r, RowStep::Done),
    ensures
        out == rows_for(
            gen,
            first,
            if w.spec_row_count() + 1 > first {
                w.spec_row_count() + 1
            } else {
                first
            },
        ),
        r.stepped(&r, RowStep::Done),
        r.spec_done(),
{
    let c = w.spec_current_row();
    assert(gen(c).take(0) =~= Seq::<Seq<GeneratedRow>>::empty());
    assert(gen(c).take(0).flatten() =~= Seq::<GeneratedRow>::empty());
    assert(out + w.spec_pending() =~= out);
    assert(rows_for(gen, first, c as int) + gen(c).take(0).flatten() =~= rows_for(gen, first, c as int));
}

/// Ranges can be generated independently: the rows of source rows
/// `a..m` followed by those of `m..b` are the rows of `a..b`.
pub proof fn lemma_rows_for_split(gen: Calls, a: int, m: int, b: int)
    requires
        a <= m <= b,
    ensures
        rows_for(gen, a, m) + rows_for(gen, m, b) == rows_for(gen, a, b),
    decreases b - m,
{
    if m == b {
        assert(rows_for(gen, m, b) == Seq::<GeneratedRow>::empty());
        assert(rows_for(gen, a, m) + Seq::<GeneratedRow>::empty() =~= rows_for(gen, a, m));
    } else {
        lemma_rows_for_split(gen, a, m, b - 1);
        assert(rows_for(gen, a, m) + (rows_for(gen, m, b - 1) + gen((b - 1) as i64).flatten()) =~= (
        rows_for(gen, a, m) + rows_for(gen, m, b - 1)) + gen((b - 1) as i64).flatten());
    }
}

} // verus!
