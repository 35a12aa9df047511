//! Completion counting for a progress bar shared by the parts of one table.
//!
//! A table split across several `--parts` gets one bar for all its
//! parts. Each part finishes independently and signals completion on its
//! own; it forwards that signal only once every part has completed,
//! not after the first one.
//!
//! The DAT and CSV outputs drive the row generators directly and pair each
//! sales table with its returns table, so a requested table registers the
//! bars chosen here.
use vstd::prelude::*;

use crate::tpcds_cli::{generating_table, is_returns_table};
use crate::tpcds_table::{table_name, Table};

verus! {

/// Counts down the parts of one table that have yet to complete.
#[derive(Debug)]
pub struct SharedCompletion {
    remaining: usize,
}

/// The number of handles a bar is shared into for `num_parts` parts (at least one).
pub open spec fn shared_handle_count(num_parts: usize) -> int {
    if num_parts > 1 {
        num_parts as int
    } else {
        1
    }
}

/// Whether the `k`-th completion signal (counting from 1) of a counter made for
/// `num_parts` parts is forwarded.
pub open spec fn completion_forwarded(num_parts: usize, k: int) -> bool {
    shared_handle_count(num_parts) - (k - 1) == 1
}

impl SharedCompletion {
    /// A counter for `num_parts` parts (zero parts count as one).
    pub fn new(num_parts: usize) -> (c: Self)
        ensures
            c.spec_remaining() == shared_handle_count(num_parts),
    {
        let remaining = if num_parts > 1 {
            num_parts
        } else {
            1
        };
        SharedCompletion { remaining }
    }

    /// The number of parts that have yet to complete.
    pub closed spec fn spec_remaining(&self) -> int {
        self.remaining as int
    }

    /// The number of parts that have yet to complete.
    pub fn remaining(&self) -> (r: usize)
        ensures
            r == self.spec_remaining(),
    {
        self.remaining
    }

    /// Records that one part completed; `true` exactly when it was the last
    /// one, so the shared bar completes now. Signals beyond the number of
    /// parts wrap the count around, as an atomic subtraction does, and are
    /// not forwarded.
    pub fn part_completed(&mut self) -> (complete: bool)
        ensures
            complete == (old(self).spec_remaining() == 1),
            final(self).spec_remaining() == (if old(self).spec_remaining() == 0 {
                usize::MAX as int
            } else {
                old(self).spec_remaining() - 1
            }),
    {
        let previous = self.remaining;
        self.remaining = if previous == 0 {
            usize::MAX
        } else {
            previous - 1
        };
        previous == 1
    }
}

/// Of the completion signals of the parts, only the one from the last part
/// to complete is forwarded: after `k` signals the counter holds
/// `shared_handle_count(num_parts) - k`, and signal `k` is forwarded exactly
/// when `k` equals the number of parts.
pub proof fn lemma_only_last_completion_forwarded(num_parts: usize, k: int)
    requires
        1 <= k <= shared_handle_count(num_parts),
    ensures
        completion_forwarded(num_parts, k) <==> k == shared_handle_count(num_parts),
{
}

/// The progress bars one requested table registers: a sales table is
/// generated together with its returns table and registers a bar for each;
/// a returns table registers none (its sales table covers it); any other
/// table registers its own.
#[derive(Debug, Clone, Copy, PartialEq, Eq, Structural)]
pub enum TableProgress {
    Nothing,
    Single(Table),
    Paired { sales: Table, returns: Table },
}

/// The bars that table `t` registers.
pub open spec fn table_progress(t: Table) -> TableProgress {
    match t {
        Table::StoreSales => TableProgress::Paired {
            sales: Table::StoreSales,
            returns: Table::StoreReturns,
        },
        Table::CatalogSales => TableProgress::Paired {
            sales: Table::CatalogSales,
            returns: Table::CatalogReturns,
        },
        Table::WebSales => TableProgress::Paired { sales: Table::WebSales, returns: Table::WebReturns },
        Table::StoreReturns | Table::CatalogReturns | Table::WebReturns => TableProgress::Nothing,
        _ => TableProgress::Single(t),
    }
}

/// The bars that `table` registers, each sized by its table's full row
/// count (see [`progress_total`]).
pub fn register_table(table: Table) -> (r: TableProgress)
    ensures
        r == table_progress(table),
{
    match table {
        Table::StoreSales => TableProgress::Paired {
            sales: Table::StoreSales,
            returns: Table::StoreReturns,
        },
        Table::CatalogSales => TableProgress::Paired {
            sales: Table::CatalogSales,
            returns: Table::CatalogReturns,
        },
        Table::WebSales => TableProgress::Paired { sales: Table::WebSales, returns: Table::WebReturns },
        Table::StoreReturns | Table::CatalogReturns | Table::WebReturns => TableProgress::Nothing,
        _ => TableProgress::Single(table),
    }
}

/// The total of a bar for a table of `row_count` rows: the row count, or
/// zero for a negative one (a wrong total must not stop generation).
pub fn progress_total(row_count: i64) -> (r: u64)
    ensures
        r == (if row_count >= 0 {
            row_count as int
        } else {
            0
        }),
{
    if row_count >= 0 {
        row_count as u64
    } else {
        0
    }
}

/// A progress bar as the parts of its table report to it: the table it
/// counts, its registered total, the units reported so far, and how many
/// times it was completed.
#[derive(Debug, Clone, Copy, PartialEq, Eq, Structural)]
pub struct Bar {
    table: Table,
    total: u64,
    units: u64,
    completions: u64,
}

impl Bar {
    /// The table the bar counts; the bar is named after it.
    pub closed spec fn spec_table(&self) -> Table {
        self.table
    }

    /// The registered total.
    pub closed spec fn spec_total(&self) -> u64 {
        self.total
    }

    /// The units reported so far.
    pub closed spec fn spec_units(&self) -> u64 {
        self.units
    }

    /// How many times the bar was completed.
    pub closed spec fn spec_completions(&self) -> u64 {
        self.completions
    }

    /// Registers the bar of `table`, sized by the table's full row count
    /// (the whole table's, whichever part a run generates): no units
    /// reported, not completed.
    pub fn register(table: Table, full_row_count: i64) -> (b: Bar)
        ensures
            b.spec_table() == table,
            b.spec_total() == (if full_row_count >= 0 {
                full_row_count as int
            } else {
                0
            }),
            b.spec_units() == 0,
            b.spec_completions() == 0,
    {
        Bar { table, total: progress_total(full_row_count), units: 0, completions: 0 }
    }

    /// The bar's name: its table's name.
    pub fn name(&self) -> (r: &'static str)
        ensures
            r@ == table_name(self.spec_table()),
    {
        self.table.get_name()
    }

    /// The registered total.
    pub fn total(&self) -> (r: u64)
        ensures
            r == self.spec_total(),
    {
        self.total
    }

    /// The units reported so far.
    pub fn units(&self) -> (r: u64)
        ensures
            r == self.spec_units(),
    {
        self.units
    }

    /// How many times the bar was completed.
    pub fn completions(&self) -> (r: u64)
        ensures
            r == self.spec_completions(),
    {
        self.completions
    }
}

/// The bars one requested table registers.
#[derive(Debug, Clone, Copy, PartialEq, Eq, Structural)]
pub enum RegisteredProgress {
    Nothing,
    Single(Bar),
    Paired { sales: Bar, returns: Bar },
}

/// Registers the bars of `table` (see [`table_progress`]): each bar is
/// named after its table and sized by that table's full row count, which
/// `full_row_count` gives for the table itself and `returns_full_row_count`
/// for the returns table of a sales table.
pub fn register_table_bars(table: Table, full_row_count: i64, returns_full_row_count: i64) -> (r:
    RegisteredProgress)
    ensures
        match (r, table_progress(table)) {
            (RegisteredProgress::Nothing, TableProgress::Nothing) => true,
            (RegisteredProgress::Single(b), TableProgress::Single(t)) => b == Bar::register_spec(
                t,
                full_row_count,
            ),
            (
                RegisteredProgress::Paired { sales, returns: ret },
                TableProgress::Paired { sales: s, returns: rt },
            ) => sales == Bar::register_spec(s, full_row_count) && ret == Bar::register_spec(
                rt,
                returns_full_row_count,
            ),
            _ => false,
        },
{
    match register_table(table) {
        TableProgress::Nothing => RegisteredProgress::Nothing,
        TableProgress::Single(t) => RegisteredProgress::Single(Bar::register(t, full_row_count)),
        TableProgress::Paired { sales, returns: ret } => RegisteredProgress::Paired {
            sales: Bar::register(sales, full_row_count),
            returns: Bar::register(ret, returns_full_row_count),
        },
    }
}

impl Bar {
    /// The bar [`Bar::register`] makes.
    pub closed spec fn register_spec(table: Table, full_row_count: i64) -> Bar {
        Bar {
            table,
            total: (if full_row_count >= 0 {
                full_row_count
            } else {
                0
            }) as u64,
            units: 0,
            completions: 0,
        }
    }
}

/// A bar shared by the parts of its table, with the counter of parts that
/// have yet to complete.
#[derive(Debug)]
pub struct SharedBar {
    bar: Bar,
    completion: SharedCompletion,
}

/// One part's handle to a shared bar.
#[derive(Debug, Clone, Copy, PartialEq, Eq, Structural)]
pub struct PartHandle {
    part: usize,
}

impl PartHandle {
    /// The part (0-based) the handle belongs to.
    pub closed spec fn spec_part(&self) -> usize {
        self.part
    }

    /// The part (0-based) the handle belongs to.
    pub fn part(&self) -> (r: usize)
        ensures
            r == self.spec_part(),
    {
        self.part
    }
}

impl SharedBar {
    /// The bar.
    pub closed spec fn spec_bar(&self) -> Bar {
        self.bar
    }

    /// The number of parts that have yet to complete.
    pub closed spec fn spec_remaining(&self) -> int {
        self.completion.spec_remaining()
    }

    /// The bar.
    pub fn bar(&self) -> (r: Bar)
        ensures
            r == self.spec_bar(),
    {
        self.bar
    }

    /// A part adds `units` to the bar: every increment reaches it.
    pub fn increment(&mut self, handle: &PartHandle, units: u64)
        requires
            old(self).spec_bar().spec_units() + units <= u64::MAX,
        ensures
            final(self).spec_bar().spec_units() == old(self).spec_bar().spec_units() + units,
            final(self).spec_bar().spec_table() == old(self).spec_bar().spec_table(),
            final(self).spec_bar().spec_total() == old(self).spec_bar().spec_total(),
            final(self).spec_bar().spec_completions() == old(self).spec_bar().spec_completions(),
            final(self).spec_remaining() == old(self).spec_remaining(),
    {
        self.bar.units = self.bar.units + units;
    }

    /// A part completes; the bar completes (and `true` comes back) exactly
    /// when it was the last part to complete.
    pub fn complete(&mut self, handle: &PartHandle) -> (forwarded: bool)
        requires
            old(self).spec_bar().spec_completions() < u64::MAX,
        ensures
            forwarded == (old(self).spec_remaining() == 1),
            final(self).spec_bar().spec_completions() == old(self).spec_bar().spec_completions() + (
            if forwarded {
                1int
            } else {
                0int
            }),
            final(self).spec_bar().spec_units() == old(self).spec_bar().spec_units(),
            final(self).spec_bar().spec_table() == old(self).spec_bar().spec_table(),
            final(self).spec_bar().spec_total() == old(self).spec_bar().spec_total(),
            final(self).spec_remaining() == (if old(self).spec_remaining() == 0 {
                usize::MAX as int
            } else {
                old(self).spec_remaining() - 1
            }),
    {
        let forwarded = self.completion.part_completed();
        if forwarded {
            self.bar.completions = self.bar.completions + 1;
        }
        forwarded
    }
}

/// Whether `handles` are the handles of parts `0..shared_handle_count(num_parts)`, in order.
pub open spec fn part_handles(handles: Seq<PartHandle>, num_parts: usize) -> bool {
    &&& handles.len() == shared_handle_count(num_parts)
    &&& forall|i: int| 0 <= i < handles.len() ==> (#[trigger] handles[i]).spec_part() == i
}

/// Shares `bar` among `num_parts` parts (at least one): the shared bar, with
/// every part yet to complete, and one handle per part.
pub fn share_handle_across_parts(bar: Bar, num_parts: usize) -> (r: (SharedBar, Vec<PartHandle>))
    ensures
        r.0.spec_bar() == bar,
        r.0.spec_remaining() == shared_handle_count(num_parts),
        part_handles(r.1@, num_parts),
{
    let completion = SharedCompletion::new(num_parts);
    let count = completion.remaining();
    let mut handles: Vec<PartHandle> = Vec::new();
    let mut i: usize = 0;
    while i < count
        invariant
            i <= count,
            count == shared_handle_count(num_parts),
            handles.len() == i,
            forall|j: int| 0 <= j < i ==> (#[trigger] handles@[j]).spec_part() == j,
        decreases count - i,
    {
        handles.push(PartHandle { part: i });
        i = i + 1;
    }
    (SharedBar { bar, completion }, handles)
}

/// The shared bars of one requested table.
#[derive(Debug)]
pub enum SharedProgress {
    Nothing,
    Single(SharedBar),
    Paired { sales: SharedBar, returns: SharedBar },
}

/// One part's handles to the shared bars of its table.
#[derive(Debug, Clone, Copy, PartialEq, Eq, Structural)]
pub enum PartProgress {
    Nothing,
    Single(PartHandle),
    Paired { sales: PartHandle, returns: PartHandle },
}

/// Whether part `i`'s progress has the shape of `progress`, with handles of
/// part `i`.
pub open spec fn is_part_of(p: PartProgress, progress: RegisteredProgress, i: int) -> bool {
    match (p, progress) {
        (PartProgress::Nothing, RegisteredProgress::Nothing) => true,
        (PartProgress::Single(h), RegisteredProgress::Single(_)) => h.spec_part() == i,
        (PartProgress::Paired { sales, returns: ret }, RegisteredProgress::Paired { .. }) => sales.spec_part()
            == i && ret.spec_part() == i,
        _ => false,
    }
}

/// Whether `shared` holds the bars of `progress`, each shared by
/// `shared_handle_count(num_parts)` parts yet to complete.
pub open spec fn shares(shared: SharedProgress, progress: RegisteredProgress, num_parts: usize) -> bool {
    match (shared, progress) {
        (SharedProgress::Nothing, RegisteredProgress::Nothing) => true,
        (SharedProgress::Single(s), RegisteredProgress::Single(b)) => s.spec_bar() == b
            && s.spec_remaining() == shared_handle_count(num_parts),
        (
            SharedProgress::Paired { sales, returns: ret },
            RegisteredProgress::Paired { sales: bs, returns: br },
        ) => {
            &&& sales.spec_bar() == bs
            &&& ret.spec_bar() == br
            &&& sales.spec_remaining() == shared_handle_count(num_parts)
            &&& ret.spec_remaining() == shared_handle_count(num_parts)
        },
        _ => false,
    }
}

/// Shares every bar of `progress` among `num_parts` parts (at least one):
/// the shared bars, sales and returns counted independently, and for each
/// part a progress of the same kind holding that part's handles.
pub fn share_across_parts(progress: RegisteredProgress, num_parts: usize) -> (r: (
    SharedProgress,
    Vec<PartProgress>,
))
    ensures
        shares(r.0, progress, num_parts),
        r.1.len() == shared_handle_count(num_parts),
        forall|i: int| 0 <= i < r.1.len() ==> is_part_of(#[trigger] r.1@[i], progress, i),
{
    let count: usize = if num_parts > 1 {
        num_parts
    } else {
        1
    };
    let mut parts: Vec<PartProgress> = Vec::new();
    let shared = match progress {
        RegisteredProgress::Nothing => SharedProgress::Nothing,
        RegisteredProgress::Single(b) => SharedProgress::Single(share_handle_across_parts(b, num_parts).0),
        RegisteredProgress::Paired { sales, returns: ret } => SharedProgress::Paired {
            sales: share_handle_across_parts(sales, num_parts).0,
            returns: share_handle_across_parts(ret, num_parts).0,
        },
    };
    let mut i: usize = 0;
    while i < count
        invariant
            i <= count,
            count == shared_handle_count(num_parts),
            parts.len() == i,
            forall|j: int| 0 <= j < i ==> is_part_of(#[trigger] parts@[j], progress, j),
        decreases count - i,
    {
        let h = PartHandle { part: i };
        let p = match progress {
            RegisteredProgress::Nothing => PartProgress::Nothing,
            RegisteredProgress::Single(_) => PartProgress::Single(h),
            RegisteredProgress::Paired { .. } => PartProgress::Paired { sales: h, returns: h },
        };
        parts.push(p);
        i = i + 1;
    }
    (shared, parts)
}

/// A paired table registers its own bar first and another table's second;
/// a single table registers its own; exactly the returns tables register
/// none.
pub proof fn lemma_table_progress_shape(t: Table)
    ensures
        table_progress(t) matches TableProgress::Paired { sales, returns } ==> sales == t
            && returns != t,
        table_progress(t) matches TableProgress::Single(u) ==> u == t,
        table_progress(t) is Nothing <==> (t == Table::StoreReturns || t == Table::CatalogReturns || t
            == Table::WebReturns),
{
}

/// A sales table registers its own bar and its returns table's bar: the
/// bars of `t` pair it with `r` exactly when `r` is a returns table that
/// `t` generates. A returns table registers no bar, and any other table
/// registers its own bar alone.
pub proof fn lemma_sales_tables_pair_with_their_returns(t: Table, r: Table)
    ensures
        table_progress(t) == (TableProgress::Paired { sales: t, returns: r }) <==> (
        is_returns_table(r) && generating_table(r) == t),
        table_progress(t) is Nothing <==> is_returns_table(t),
        table_progress(t) matches TableProgress::Single(u) ==> u == t,
        table_progress(t) is Single <==> (!is_returns_table(t) && forall|u: Table|
            is_returns_table(u) ==> generating_table(u) != t),
{
    if !is_returns_table(t) && (forall|u: Table| is_returns_table(u) ==> generating_table(u) != t) {
        assert(generating_table(Table::StoreReturns) == Table::StoreSales);
        assert(generating_table(Table::CatalogReturns) == Table::CatalogSales);
        assert(generating_table(Table::WebReturns) == Table::WebSales);
    }
}

} // verus!
