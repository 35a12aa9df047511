use tpcgen::plan::{RowRange, TpcdsGenerationPlan, MAX_ROW_GROUPS};
use tpcgen::tpcds_table::Table;

const DEFAULT_ROW_GROUP_BYTES: i64 = 7 * 1024 * 1024;

/// Source rows at scale factor 1 (reason: 35; store sales tickets: 240,000,
/// which the store returns are generated from).
const REASON_ROWS_SF1: i64 = 35;
const STORE_SALES_ROWS_SF1: i64 = 240_000;
/// Store sales tickets at scale factor 3000.
const STORE_SALES_ROWS_SF3000: i64 = 720_000_000;

fn plan(table: Table, source_rows: i64, row_group_bytes: i64) -> TpcdsGenerationPlan {
    TpcdsGenerationPlan::new_for_range(table, row_group_bytes, RowRange::new(1, source_rows))
}

/// Assert the ranges cover `1..=expected_source_rows` contiguously
fn assert_covers(plan: &TpcdsGenerationPlan, expected_source_rows: i64) {
    let mut next_row = 1;
    for range in plan.ranges() {
        assert_eq!(range.start, next_row);
        assert!(range.end >= range.start);
        next_row = range.end + 1;
    }
    assert_eq!(next_row, expected_source_rows + 1);
}

#[test]
fn small_table_single_row_group() {
    let plan = plan(Table::Reason, REASON_ROWS_SF1, DEFAULT_ROW_GROUP_BYTES);
    assert_eq!(*plan.ranges(), vec![RowRange::new(1, 35)]);
}

#[test]
fn store_sales_sf1_default() {
    let plan = plan(Table::StoreSales, STORE_SALES_ROWS_SF1, DEFAULT_ROW_GROUP_BYTES);
    // ~568 MB estimated output in 7 MB row groups over 240k source rows
    assert_eq!(plan.row_group_count(), 78);
    assert_covers(&plan, 240_000);
}

#[test]
fn store_returns_ranges_use_sales_source_rows() {
    let plan = plan(Table::StoreReturns, STORE_SALES_ROWS_SF1, DEFAULT_ROW_GROUP_BYTES);
    // store_returns is generated from the 240k store_sales source rows
    assert_eq!(plan.row_group_count(), 8);
    assert_covers(&plan, 240_000);
}

#[test]
fn smaller_row_groups_make_more_row_groups() {
    let default = plan(Table::StoreSales, STORE_SALES_ROWS_SF1, DEFAULT_ROW_GROUP_BYTES);
    let small = plan(Table::StoreSales, STORE_SALES_ROWS_SF1, 1024 * 1024);
    assert!(small.row_group_count() > default.row_group_count());
    assert_covers(&small, 240_000);
}

#[test]
fn row_group_count_is_capped() {
    let plan = plan(Table::StoreSales, STORE_SALES_ROWS_SF3000, 1024);
    // ceiling division can leave the count just under the cap
    assert!(plan.row_group_count() <= MAX_ROW_GROUPS as usize);
    assert!(plan.row_group_count() > (MAX_ROW_GROUPS - 2) as usize);
    assert_covers(&plan, STORE_SALES_ROWS_SF3000);
}

#[test]
fn row_groups_never_exceed_source_rows() {
    // 35 source rows in 1 byte row groups still yields at most 35 groups
    let plan = plan(Table::Reason, REASON_ROWS_SF1, 1);
    assert_eq!(plan.row_group_count(), 35);
    assert_covers(&plan, 35);
}

#[test]
fn empty_table_gets_one_empty_range() {
    let plan = plan(Table::Reason, 0, DEFAULT_ROW_GROUP_BYTES);
    assert_eq!(plan.row_group_count(), 1);
    assert!(plan.ranges()[0].is_empty());
}

#[test]
fn covers_exactly_the_given_sub_range() {
    let source_rows = STORE_SALES_ROWS_SF1;
    let quarter = source_rows / 4;
    let sub_range = RowRange::new(quarter + 1, 2 * quarter);

    let plan =
        TpcdsGenerationPlan::new_for_range(Table::StoreSales, DEFAULT_ROW_GROUP_BYTES, sub_range);

    let mut next_row = sub_range.start;
    for range in plan.ranges() {
        assert_eq!(range.start, next_row);
        assert!(range.end >= range.start);
        next_row = range.end + 1;
    }
    assert_eq!(next_row, sub_range.end + 1);
}

#[test]
fn shrinks_row_group_count_proportionally() {
    let source_rows = STORE_SALES_ROWS_SF1;
    let full = TpcdsGenerationPlan::new_for_range(
        Table::StoreSales,
        DEFAULT_ROW_GROUP_BYTES,
        RowRange::new(1, source_rows),
    );
    let quarter = TpcdsGenerationPlan::new_for_range(
        Table::StoreSales,
        DEFAULT_ROW_GROUP_BYTES,
        RowRange::new(1, source_rows / 4),
    );

    assert!(quarter.row_group_count() < full.row_group_count());
}

#[test]
fn empty_input_range_gets_one_empty_row_group_at_its_start() {
    // Matches a `--parts` chunk that is given zero rows (`first_row..=(first_row - 1)`).
    let plan = TpcdsGenerationPlan::new_for_range(
        Table::StoreSales,
        DEFAULT_ROW_GROUP_BYTES,
        RowRange::new(1, 0),
    );
    assert_eq!(plan.row_group_count(), 1);
    assert!(plan.ranges()[0].is_empty());
    assert_eq!(plan.ranges()[0].start, 1);
}

#[test]
fn last_row_group_is_the_short_one() {
    let plan = plan(Table::StoreSales, STORE_SALES_ROWS_SF1, DEFAULT_ROW_GROUP_BYTES);
    let ranges = plan.into_ranges();
    // 240,000 rows in 78 groups: 3077 rows each, the last 2771
    for range in &ranges[..ranges.len() - 1] {
        assert_eq!(range.end - range.start + 1, 3077);
    }
    let last = ranges[ranges.len() - 1];
    assert_eq!(last, RowRange::new(77 * 3077 + 1, 240_000));
}

#[test]
fn non_positive_row_group_bytes_count_as_one_byte() {
    let zero = plan(Table::Reason, REASON_ROWS_SF1, 0);
    let negative = plan(Table::Reason, REASON_ROWS_SF1, -10);
    let one = plan(Table::Reason, REASON_ROWS_SF1, 1);
    assert_eq!(zero, one);
    assert_eq!(negative, one);
}

#[test]
fn empty_range_far_from_the_start() {
    let plan = TpcdsGenerationPlan::new_for_range(
        Table::Inventory,
        DEFAULT_ROW_GROUP_BYTES,
        RowRange::new(1001, 900),
    );
    assert_eq!(*plan.ranges(), vec![RowRange::new(1001, 1000)]);
}
