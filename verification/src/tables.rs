//! Batches of generated rows, one type per TPC-DS table whose rows are cut
//! into record batches. Each type walks its table's source rows with a row
//! cursor; the caller runs the table's row generator on the source rows the
//! type asks for, and turns each complete batch into columns.
use vstd::prelude::*;

use crate::batches::{all_of_table, lemma_rows_of_table_keeps_all, TableRows};
use crate::conversions::{null_bit_set, opt};
use crate::csv::GeneratedRow;
use crate::rows::IncomeBandRow;
use crate::tpcds_table::Table;

verus! {

/// Batches of the catalog_page table's rows.
pub struct CatalogPageArrow {
    rows: TableRows,
}

impl View for CatalogPageArrow {
    type V = TableRows;

    closed spec fn view(&self) -> TableRows {
        self.rows
    }
}

impl CatalogPageArrow {
    /// Every pending row is a catalog_page row.
    pub open spec fn wf(&self) -> bool {
        self@.wf() && self@.spec_table() == Table::CatalogPage
    }

    /// Source rows `1..=row_count` of the table, in batches of the default
    /// size.
    pub fn new(row_count: i64) -> (r: Self)
        ensures
            TableRows::is_fresh(&r@, Table::CatalogPage, row_count),
            r.wf(),
    {
        CatalogPageArrow { rows: TableRows::new(Table::CatalogPage, row_count) }
    }

    /// Restarts at source row `starting_row_number`, dropping the rows not
    /// yet handed out; the generator is skipped to the same row by the
    /// caller.
    pub fn skip_rows_until_starting_row_number(&mut self, starting_row_number: i64)
        requires
            old(self).wf(),
        ensures
            old(self)@.restarted(&final(self)@, starting_row_number),
            final(self).wf(),
    {
        self.rows.skip_rows_until_starting_row_number(starting_row_number);
    }

    /// Generate only source rows `starting_row_number..=ending_row_number`
    /// (1-based, inclusive). The ending row number is clamped to the
    /// table's row count.
    pub fn with_source_row_range(self, starting_row_number: i64, ending_row_number: i64) -> (r:
        Self)
        requires
            self.wf(),
        ensures
            self@.ranged(&r@, starting_row_number, ending_row_number),
            r.wf(),
    {
        CatalogPageArrow { rows: self.rows.with_source_row_range(starting_row_number, ending_row_number) }
    }

    /// Batches of at most `batch_size` rows.
    pub fn with_batch_size(self, batch_size: usize) -> (r: Self)
        requires
            self.wf(),
        ensures
            self@.rebatched(&r@, batch_size),
            r.wf(),
    {
        CatalogPageArrow { rows: self.rows.with_batch_size(batch_size) }
    }

    /// Moves pending rows into `rows` up to a full batch; returns the
    /// source row the generator must produce for the batch to go on
    /// filling, or `None` once the batch is complete.
    pub fn fill_batch(&mut self, rows: &mut Vec<GeneratedRow>) -> (r: Option<i64>)
        requires
            old(self).wf(),
        ensures
            old(self)@.filled(&final(self)@, old(rows)@, final(rows)@, r),
            final(self).wf(),
    {
        self.rows.fill_batch(rows)
    }

    /// Takes the catalog_page rows the generator produced for the current source
    /// row, and whether that source row is finished.
    pub fn accept_rows(&mut self, rows: Vec<GeneratedRow>, should_end_row: bool)
        requires
            old(self).wf(),
            all_of_table(rows@, Table::CatalogPage),
            should_end_row ==> old(self)@.spec_current_row() < i64::MAX,
        ensures
            old(self)@.accepted(&final(self)@, rows@, should_end_row),
            final(self)@.spec_pending() == old(self)@.spec_pending() + rows@,
            final(self).wf(),
    {
        proof {
            lemma_rows_of_table_keeps_all(rows@, self@.spec_table());
        }
        self.rows.accept_rows(rows, should_end_row);
    }
}

/// Batches of the customer_address table's rows.
pub struct CustomerAddressArrow {
    rows: TableRows,
}

impl View for CustomerAddressArrow {
    type V = TableRows;

    closed spec fn view(&self) -> TableRows {
        self.rows
    }
}

impl CustomerAddressArrow {
    /// Every pending row is a customer_address row.
    pub open spec fn wf(&self) -> bool {
        self@.wf() && self@.spec_table() == Table::CustomerAddress
    }

    /// Source rows `1..=row_count` of the table, in batches of the default
    /// size.
    pub fn new(row_count: i64) -> (r: Self)
        ensures
            TableRows::is_fresh(&r@, Table::CustomerAddress, row_count),
            r.wf(),
    {
        CustomerAddressArrow { rows: TableRows::new(Table::CustomerAddress, row_count) }
    }

    /// Restarts at source row `starting_row_number`, dropping the rows not
    /// yet handed out; the generator is skipped to the same row by the
    /// caller.
    pub fn skip_rows_until_starting_row_number(&mut self, starting_row_number: i64)
        requires
            old(self).wf(),
        ensures
            old(self)@.restarted(&final(self)@, starting_row_number),
            final(self).wf(),
    {
        self.rows.skip_rows_until_starting_row_number(starting_row_number);
    }

    /// Generate only source rows `starting_row_number..=ending_row_number`
    /// (1-based, inclusive). The ending row number is clamped to the
    /// table's row count.
    pub fn with_source_row_range(self, starting_row_number: i64, ending_row_number: i64) -> (r:
        Self)
        requires
            self.wf(),
        ensures
            self@.ranged(&r@, starting_row_number, ending_row_number),
            r.wf(),
    {
        CustomerAddressArrow { rows: self.rows.with_source_row_range(starting_row_number, ending_row_number) }
    }

    /// Batches of at most `batch_size` rows.
    pub fn with_batch_size(self, batch_size: usize) -> (r: Self)
        requires
            self.wf(),
        ensures
            self@.rebatched(&r@, batch_size),
            r.wf(),
    {
        CustomerAddressArrow { rows: self.rows.with_batch_size(batch_size) }
    }

    /// Moves pending rows into `rows` up to a full batch; returns the
    /// source row the generator must produce for the batch to go on
    /// filling, or `None` once the batch is complete.
    pub fn fill_batch(&mut self, rows: &mut Vec<GeneratedRow>) -> (r: Option<i64>)
        requires
            old(self).wf(),
        ensures
            old(self)@.filled(&final(self)@, old(rows)@, final(rows)@, r),
            final(self).wf(),
    {
        self.rows.fill_batch(rows)
    }

    /// Takes the customer_address rows the generator produced for the current source
    /// row, and whether that source row is finished.
    pub fn accept_rows(&mut self, rows: Vec<GeneratedRow>, should_end_row: bool)
        requires
            old(self).wf(),
            all_of_table(rows@, Table::CustomerAddress),
            should_end_row ==> old(self)@.spec_current_row() < i64::MAX,
        ensures
            old(self)@.accepted(&final(self)@, rows@, should_end_row),
            final(self)@.spec_pending() == old(self)@.spec_pending() + rows@,
            final(self).wf(),
    {
        proof {
            lemma_rows_of_table_keeps_all(rows@, self@.spec_table());
        }
        self.rows.accept_rows(rows, should_end_row);
    }
}

/// Batches of the customer_demographics table's rows.
pub struct CustomerDemographicsArrow {
    rows: TableRows,
}

impl View for CustomerDemographicsArrow {
    type V = TableRows;

    closed spec fn view(&self) -> TableRows {
        self.rows
    }
}

impl CustomerDemographicsArrow {
    /// Every pending row is a customer_demographics row.
    pub open spec fn wf(&self) -> bool {
        self@.wf() && self@.spec_table() == Table::CustomerDemographics
    }

    /// Source rows `1..=row_count` of the table, in batches of the default
    /// size.
    pub fn new(row_count: i64) -> (r: Self)
        ensures
            TableRows::is_fresh(&r@, Table::CustomerDemographics, row_count),
            r.wf(),
    {
        CustomerDemographicsArrow { rows: TableRows::new(Table::CustomerDemographics, row_count) }
    }

    /// Restarts at source row `starting_row_number`, dropping the rows not
    /// yet handed out; the generator is skipped to the same row by the
    /// caller.
    pub fn skip_rows_until_starting_row_number(&mut self, starting_row_number: i64)
        requires
            old(self).wf(),
        ensures
            old(self)@.restarted(&final(self)@, starting_row_number),
            final(self).wf(),
    {
        self.rows.skip_rows_until_starting_row_number(starting_row_number);
    }

    /// Generate only source rows `starting_row_number..=ending_row_number`
    /// (1-based, inclusive). The ending row number is clamped to the
    /// table's row count.
    pub fn with_source_row_range(self, starting_row_number: i64, ending_row_number: i64) -> (r:
        Self)
        requires
            self.wf(),
        ensures
            self@.ranged(&r@, starting_row_number, ending_row_number),
            r.wf(),
    {
        CustomerDemographicsArrow { rows: self.rows.with_source_row_range(starting_row_number, ending_row_number) }
    }

    /// Batches of at most `batch_size` rows.
    pub fn with_batch_size(self, batch_size: usize) -> (r: Self)
        requires
            self.wf(),
        ensures
            self@.rebatched(&r@, batch_size),
            r.wf(),
    {
        CustomerDemographicsArrow { rows: self.rows.with_batch_size(batch_size) }
    }

    /// Moves pending rows into `rows` up to a full batch; returns the
    /// source row the generator must produce for the batch to go on
    /// filling, or `None` once the batch is complete.
    pub fn fill_batch(&mut self, rows: &mut Vec<GeneratedRow>) -> (r: Option<i64>)
        requires
            old(self).wf(),
        ensures
            old(self)@.filled(&final(self)@, old(rows)@, final(rows)@, r),
            final(self).wf(),
    {
        self.rows.fill_batch(rows)
    }

    /// Takes the customer_demographics rows the generator produced for the current source
    /// row, and whether that source row is finished.
    pub fn accept_rows(&mut self, rows: Vec<GeneratedRow>, should_end_row: bool)
        requires
            old(self).wf(),
            all_of_table(rows@, Table::CustomerDemographics),
            should_end_row ==> old(self)@.spec_current_row() < i64::MAX,
        ensures
            old(self)@.accepted(&final(self)@, rows@, should_end_row),
            final(self)@.spec_pending() == old(self)@.spec_pending() + rows@,
            final(self).wf(),
    {
        proof {
            lemma_rows_of_table_keeps_all(rows@, self@.spec_table());
        }
        self.rows.accept_rows(rows, should_end_row);
    }
}

/// Batches of the household_demographics table's rows.
pub struct HouseholdDemographicsArrow {
    rows: TableRows,
}

impl View for HouseholdDemographicsArrow {
    type V = TableRows;

    closed spec fn view(&self) -> TableRows {
        self.rows
    }
}

impl HouseholdDemographicsArrow {
    /// Every pending row is a household_demographics row.
    pub open spec fn wf(&self) -> bool {
        self@.wf() && self@.spec_table() == Table::HouseholdDemographics
    }

    /// Source rows `1..=row_count` of the table, in batches of the default
    /// size.
    pub fn new(row_count: i64) -> (r: Self)
        ensures
            TableRows::is_fresh(&r@, Table::HouseholdDemographics, row_count),
            r.wf(),
    {
        HouseholdDemographicsArrow { rows: TableRows::new(Table::HouseholdDemographics, row_count) }
    }

    /// Restarts at source row `starting_row_number`, dropping the rows not
    /// yet handed out; the generator is skipped to the same row by the
    /// caller.
    pub fn skip_rows_until_starting_row_number(&mut self, starting_row_number: i64)
        requires
            old(self).wf(),
        ensures
            old(self)@.restarted(&final(self)@, starting_row_number),
            final(self).wf(),
    {
        self.rows.skip_rows_until_starting_row_number(starting_row_number);
    }

    /// Generate only source rows `starting_row_number..=ending_row_number`
    /// (1-based, inclusive). The ending row number is clamped to the
    /// table's row count.
    pub fn with_source_row_range(self, starting_row_number: i64, ending_row_number: i64) -> (r:
        Self)
        requires
            self.wf(),
        ensures
            self@.ranged(&r@, starting_row_number, ending_row_number),
            r.wf(),
    {
        HouseholdDemographicsArrow { rows: self.rows.with_source_row_range(starting_row_number, ending_row_number) }
    }

    /// Batches of at most `batch_size` rows.
    pub fn with_batch_size(self, batch_size: usize) -> (r: Self)
        requires
            self.wf(),
        ensures
            self@.rebatched(&r@, batch_size),
            r.wf(),
    {
        HouseholdDemographicsArrow { rows: self.rows.with_batch_size(batch_size) }
    }

    /// Moves pending rows into `rows` up to a full batch; returns the
    /// source row the generator must produce for the batch to go on
    /// filling, or `None` once the batch is complete.
    pub fn fill_batch(&mut self, rows: &mut Vec<GeneratedRow>) -> (r: Option<i64>)
        requires
            old(self).wf(),
        ensures
            old(self)@.filled(&final(self)@, old(rows)@, final(rows)@, r),
            final(self).wf(),
    {
        self.rows.fill_batch(rows)
    }

    /// Takes the household_demographics rows the generator produced for the current source
    /// row, and whether that source row is finished.
    pub fn accept_rows(&mut self, rows: Vec<GeneratedRow>, should_end_row: bool)
        requires
            old(self).wf(),
            all_of_table(rows@, Table::HouseholdDemographics),
            should_end_row ==> old(self)@.spec_current_row() < i64::MAX,
        ensures
            old(self)@.accepted(&final(self)@, rows@, should_end_row),
            final(self)@.spec_pending() == old(self)@.spec_pending() + rows@,
            final(self).wf(),
    {
        proof {
            lemma_rows_of_table_keeps_all(rows@, self@.spec_table());
        }
        self.rows.accept_rows(rows, should_end_row);
    }
}

/// Batches of the income_band table's rows.
pub struct IncomeBandArrow {
    rows: TableRows,
}

impl View for IncomeBandArrow {
    type V = TableRows;

    closed spec fn view(&self) -> TableRows {
        self.rows
    }
}

impl IncomeBandArrow {
    /// Every pending row is a income_band row.
    pub open spec fn wf(&self) -> bool {
        self@.wf() && self@.spec_table() == Table::IncomeBand
    }

    /// Source rows `1..=row_count` of the table, in batches of the default
    /// size.
    pub fn new(row_count: i64) -> (r: Self)
        ensures
            TableRows::is_fresh(&r@, Table::IncomeBand, row_count),
            r.wf(),
    {
        IncomeBandArrow { rows: TableRows::new(Table::IncomeBand, row_count) }
    }

    /// Restarts at source row `starting_row_number`, dropping the rows not
    /// yet handed out; the generator is skipped to the same row by the
    /// caller.
    pub fn skip_rows_until_starting_row_number(&mut self, starting_row_number: i64)
        requires
            old(self).wf(),
        ensures
            old(self)@.restarted(&final(self)@, starting_row_number),
            final(self).wf(),
    {
        self.rows.skip_rows_until_starting_row_number(starting_row_number);
    }

    /// Generate only source rows `starting_row_number..=ending_row_number`
    /// (1-based, inclusive). The ending row number is clamped to the
    /// table's row count.
    pub fn with_source_row_range(self, starting_row_number: i64, ending_row_number: i64) -> (r:
        Self)
        requires
            self.wf(),
        ensures
            self@.ranged(&r@, starting_row_number, ending_row_number),
            r.wf(),
    {
        IncomeBandArrow { rows: self.rows.with_source_row_range(starting_row_number, ending_row_number) }
    }

    /// Batches of at most `batch_size` rows.
    pub fn with_batch_size(self, batch_size: usize) -> (r: Self)
        requires
            self.wf(),
        ensures
            self@.rebatched(&r@, batch_size),
            r.wf(),
    {
        IncomeBandArrow { rows: self.rows.with_batch_size(batch_size) }
    }

    /// Moves pending rows into `rows` up to a full batch; returns the
    /// source row the generator must produce for the batch to go on
    /// filling, or `None` once the batch is complete.
    pub fn fill_batch(&mut self, rows: &mut Vec<GeneratedRow>) -> (r: Option<i64>)
        requires
            old(self).wf(),
        ensures
            old(self)@.filled(&final(self)@, old(rows)@, final(rows)@, r),
            final(self).wf(),
    {
        self.rows.fill_batch(rows)
    }

    /// Takes the income_band rows the generator produced for the current source
    /// row, and whether that source row is finished.
    pub fn accept_rows(&mut self, rows: Vec<GeneratedRow>, should_end_row: bool)
        requires
            old(self).wf(),
            all_of_table(rows@, Table::IncomeBand),
            should_end_row ==> old(self)@.spec_current_row() < i64::MAX,
        ensures
            old(self)@.accepted(&final(self)@, rows@, should_end_row),
            final(self)@.spec_pending() == old(self)@.spec_pending() + rows@,
            final(self).wf(),
    {
        proof {
            lemma_rows_of_table_keeps_all(rows@, self@.spec_table());
        }
        self.rows.accept_rows(rows, should_end_row);
    }

    /// The value of one income_band column of `row`, NULL where the row's
    /// null bitmap marks column `pos`.
    pub open spec fn column_value(row: IncomeBandRow, pos: u32, value: i32) -> Option<i32> {
        if null_bit_set(row.spec_null_bit_map(), pos) {
            None
        } else {
            Some(value)
        }
    }

    /// The three columns of a batch of income_band rows, in row order:
    /// `ib_income_band_sk`, `ib_lower_bound` and `ib_upper_bound`.
    pub fn columns(rows: &Vec<GeneratedRow>) -> (r: (
        Vec<Option<i32>>,
        Vec<Option<i32>>,
        Vec<Option<i32>>,
    ))
        requires
            all_of_table(rows@, Table::IncomeBand),
        ensures
            r.0.len() == rows.len(),
            r.1.len() == rows.len(),
            r.2.len() == rows.len(),
            forall|i: int|
                0 <= i < rows.len() ==> (#[trigger] rows@[i] matches GeneratedRow::IncomeBand(row)
                    && r.0@[i] == Self::column_value(row, 0, row.spec_income_band_sk())
                    && r.1@[i] == Self::column_value(row, 1, row.spec_lower_bound())
                    && r.2@[i] == Self::column_value(row, 2, row.spec_upper_bound())),
    {
        let mut band_sk: Vec<Option<i32>> = Vec::with_capacity(rows.len());
        let mut lower: Vec<Option<i32>> = Vec::with_capacity(rows.len());
        let mut upper: Vec<Option<i32>> = Vec::with_capacity(rows.len());
        let mut i: usize = 0;
        while i < rows.len()
            invariant
                i <= rows.len(),
                all_of_table(rows@, Table::IncomeBand),
                band_sk.len() == i,
                lower.len() == i,
                upper.len() == i,
                forall|j: int|
                    0 <= j < i ==> (#[trigger] rows@[j] matches GeneratedRow::IncomeBand(row)
                        && band_sk@[j] == Self::column_value(row, 0, row.spec_income_band_sk())
                        && lower@[j] == Self::column_value(row, 1, row.spec_lower_bound())
                        && upper@[j] == Self::column_value(row, 2, row.spec_upper_bound())),
            decreases rows.len() - i,
        {
            assert(rows@[i as int].spec_table() == Table::IncomeBand);
            match &rows[i] {
                GeneratedRow::IncomeBand(r) => {
                    let nbm = r.null_bit_map();
                    band_sk.push(opt(nbm, 0, r.get_ib_income_band_sk()));
                    lower.push(opt(nbm, 1, r.get_ib_lower_bound()));
                    upper.push(opt(nbm, 2, r.get_ib_upper_bound()));
                },
                _ => {
                    assert(false);
                },
            }
            i = i + 1;
        }
        (band_sk, lower, upper)
    }
}

/// Batches of the inventory table's rows.
pub struct InventoryArrow {
    rows: TableRows,
}

impl View for InventoryArrow {
    type V = TableRows;

    closed spec fn view(&self) -> TableRows {
        self.rows
    }
}

impl InventoryArrow {
    /// Every pending row is a inventory row.
    pub open spec fn wf(&self) -> bool {
        self@.wf() && self@.spec_table() == Table::Inventory
    }

    /// Source rows `1..=row_count` of the table, in batches of the default
    /// size.
    pub fn new(row_count: i64) -> (r: Self)
        ensures
            TableRows::is_fresh(&r@, Table::Inventory, row_count),
            r.wf(),
    {
        InventoryArrow { rows: TableRows::new(Table::Inventory, row_count) }
    }

    /// Restarts at source row `starting_row_number`, dropping the rows not
    /// yet handed out; the generator is skipped to the same row by the
    /// caller.
    pub fn skip_rows_until_starting_row_number(&mut self, starting_row_number: i64)
        requires
            old(self).wf(),
        ensures
            old(self)@.restarted(&final(self)@, starting_row_number),
            final(self).wf(),
    {
        self.rows.skip_rows_until_starting_row_number(starting_row_number);
    }

    /// Generate only source rows `starting_row_number..=ending_row_number`
    /// (1-based, inclusive). The ending row number is clamped to the
    /// table's row count.
    pub fn with_source_row_range(self, starting_row_number: i64, ending_row_number: i64) -> (r:
        Self)
        requires
            self.wf(),
        ensures
            self@.ranged(&r@, starting_row_number, ending_row_number),
            r.wf(),
    {
        InventoryArrow { rows: self.rows.with_source_row_range(starting_row_number, ending_row_number) }
    }

    /// Batches of at most `batch_size` rows.
    pub fn with_batch_size(self, batch_size: usize) -> (r: Self)
        requires
            self.wf(),
        ensures
            self@.rebatched(&r@, batch_size),
            r.wf(),
    {
        InventoryArrow { rows: self.rows.with_batch_size(batch_size) }
    }

    /// Moves pending rows into `rows` up to a full batch; returns the
    /// source row the generator must produce for the batch to go on
    /// filling, or `None` once the batch is complete.
    pub fn fill_batch(&mut self, rows: &mut Vec<GeneratedRow>) -> (r: Option<i64>)
        requires
            old(self).wf(),
        ensures
            old(self)@.filled(&final(self)@, old(rows)@, final(rows)@, r),
            final(self).wf(),
    {
        self.rows.fill_batch(rows)
    }

    /// Takes the inventory rows the generator produced for the current source
    /// row, and whether that source row is finished.
    pub fn accept_rows(&mut self, rows: Vec<GeneratedRow>, should_end_row: bool)
        requires
            old(self).wf(),
            all_of_table(rows@, Table::Inventory),
            should_end_row ==> old(self)@.spec_current_row() < i64::MAX,
        ensures
            old(self)@.accepted(&final(self)@, rows@, should_end_row),
            final(self)@.spec_pending() == old(self)@.spec_pending() + rows@,
            final(self).wf(),
    {
        proof {
            lemma_rows_of_table_keeps_all(rows@, self@.spec_table());
        }
        self.rows.accept_rows(rows, should_end_row);
    }
}

/// Batches of the time_dim table's rows.
pub struct TimeDimArrow {
    rows: TableRows,
}

impl View for TimeDimArrow {
    type V = TableRows;

    closed spec fn view(&self) -> TableRows {
        self.rows
    }
}

impl TimeDimArrow {
    /// Every pending row is a time_dim row.
    pub open spec fn wf(&self) -> bool {
        self@.wf() && self@.spec_table() == Table::TimeDim
    }

    /// Source rows `1..=row_count` of the table, in batches of the default
    /// size.
    pub fn new(row_count: i64) -> (r: Self)
        ensures
            TableRows::is_fresh(&r@, Table::TimeDim, row_count),
            r.wf(),
    {
        TimeDimArrow { rows: TableRows::new(Table::TimeDim, row_count) }
    }

    /// Restarts at source row `starting_row_number`, dropping the rows not
    /// yet handed out; the generator is skipped to the same row by the
    /// caller.
    pub fn skip_rows_until_starting_row_number(&mut self, starting_row_number: i64)
        requires
            old(self).wf(),
        ensures
            old(self)@.restarted(&final(self)@, starting_row_number),
            final(self).wf(),
    {
        self.rows.skip_rows_until_starting_row_number(starting_row_number);
    }

    /// Generate only source rows `starting_row_number..=ending_row_number`
    /// (1-based, inclusive). The ending row number is clamped to the
    /// table's row count.
    pub fn with_source_row_range(self, starting_row_number: i64, ending_row_number: i64) -> (r:
        Self)
        requires
            self.wf(),
        ensures
            self@.ranged(&r@, starting_row_number, ending_row_number),
            r.wf(),
    {
        TimeDimArrow { rows: self.rows.with_source_row_range(starting_row_number, ending_row_number) }
    }

    /// Batches of at most `batch_size` rows.
    pub fn with_batch_size(self, batch_size: usize) -> (r: Self)
        requires
            self.wf(),
        ensures
            self@.rebatched(&r@, batch_size),
            r.wf(),
    {
        TimeDimArrow { rows: self.rows.with_batch_size(batch_size) }
    }

    /// Moves pending rows into `rows` up to a full batch; returns the
    /// source row the generator must produce for the batch to go on
    /// filling, or `None` once the batch is complete.
    pub fn fill_batch(&mut self, rows: &mut Vec<GeneratedRow>) -> (r: Option<i64>)
        requires
            old(self).wf(),
        ensures
            old(self)@.filled(&final(self)@, old(rows)@, final(rows)@, r),
            final(self).wf(),
    {
        self.rows.fill_batch(rows)
    }

    /// Takes the time_dim rows the generator produced for the current source
    /// row, and whether that source row is finished.
    pub fn accept_rows(&mut self, rows: Vec<GeneratedRow>, should_end_row: bool)
        requires
            old(self).wf(),
            all_of_table(rows@, Table::TimeDim),
            should_end_row ==> old(self)@.spec_current_row() < i64::MAX,
        ensures
            old(self)@.accepted(&final(self)@, rows@, should_end_row),
            final(self)@.spec_pending() == old(self)@.spec_pending() + rows@,
            final(self).wf(),
    {
        proof {
            lemma_rows_of_table_keeps_all(rows@, self@.spec_table());
        }
        self.rows.accept_rows(rows, should_end_row);
    }
}

} // verus!
