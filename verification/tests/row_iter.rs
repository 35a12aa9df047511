use tpcgen::batches::{range_walks, TableRows};
use tpcgen::csv::{CsvRecord, GeneratedRow};
use tpcgen::plan::RowRange;
use tpcgen::row_iter::{RowIter, RowStep};
use tpcgen::rows::IncomeBandRow;
use tpcgen::tables::{IncomeBandArrow, InventoryArrow, TimeDimArrow};
use tpcgen::tpcds_table::Table;

fn band(sk: i32) -> GeneratedRow {
    GeneratedRow::IncomeBand(IncomeBandRow::new(0, sk, sk * 10, sk * 10 + 9))
}

fn band_sk(row: &GeneratedRow) -> i32 {
    match row {
        GeneratedRow::IncomeBand(r) => r.get_ib_income_band_sk(),
        other => panic!("not an income_band row: {other:?}"),
    }
}

fn inventory(item: &str) -> GeneratedRow {
    GeneratedRow::Inventory(CsvRecord::new(vec![
        "2450815".to_string(),
        item.to_string(),
        "1".to_string(),
        "235".to_string(),
    ]))
}

#[test]
fn cursor_hands_out_rows_in_order_then_finishes() {
    let mut it = RowIter::new(2);
    assert!(matches!(it.next_step(), RowStep::Generate(1)));
    // A source row that is not finished yet: its rows come out, then the
    // same source row is asked for again.
    it.accept_rows(vec![band(1), band(2)], false);
    assert!(matches!(it.next_step(), RowStep::Row(ref r) if band_sk(r) == 1));
    assert!(matches!(it.next_step(), RowStep::Row(ref r) if band_sk(r) == 2));
    assert!(matches!(it.next_step(), RowStep::Generate(1)));
    it.accept_rows(vec![], true);
    assert!(matches!(it.next_step(), RowStep::Generate(2)));
    it.accept_rows(vec![band(3)], true);
    assert!(matches!(it.next_step(), RowStep::Row(ref r) if band_sk(r) == 3));
    assert!(matches!(it.next_step(), RowStep::Done));
    assert!(matches!(it.next_step(), RowStep::Done));
}

#[test]
fn cursor_range_is_clamped_to_the_row_count() {
    let mut it = RowIter::new(20);
    it.set_source_row_range(19, 100);
    assert!(matches!(it.next_step(), RowStep::Generate(19)));
    it.accept_rows(vec![band(19)], true);
    assert!(matches!(it.next_step(), RowStep::Row(_)));
    assert!(matches!(it.next_step(), RowStep::Generate(20)));
    it.accept_rows(vec![band(20)], true);
    assert!(matches!(it.next_step(), RowStep::Row(_)));
    assert!(matches!(it.next_step(), RowStep::Done));

    let mut empty = RowIter::new(20);
    empty.set_source_row_range(6, 5);
    assert!(matches!(empty.next_step(), RowStep::Done));
}

#[test]
fn cursor_skip_drops_pending_rows() {
    let mut it = RowIter::new(50);
    it.accept_rows(vec![band(1), band(2)], true);
    it.skip_rows_until_starting_row_number(10);
    assert!(matches!(it.next_step(), RowStep::Generate(10)));
}

/// Runs the walk the way a reader does, with a generator that makes one
/// income_band row per source row; returns the batches' band keys.
fn drain(mut arrow: IncomeBandArrow) -> Vec<Vec<i32>> {
    let mut batches = Vec::new();
    loop {
        let mut rows = Vec::new();
        while let Some(n) = arrow.fill_batch(&mut rows) {
            arrow.accept_rows(vec![band(n as i32)], true);
        }
        if rows.is_empty() {
            return batches;
        }
        batches.push(rows.iter().map(band_sk).collect());
    }
}

#[test]
fn source_row_range_is_cut_into_batches() {
    let arrow = IncomeBandArrow::new(20).with_source_row_range(3, 7).with_batch_size(2);
    assert_eq!(drain(arrow), vec![vec![3, 4], vec![5, 6], vec![7]]);
    let all = IncomeBandArrow::new(5);
    assert_eq!(drain(all), vec![vec![1, 2, 3, 4, 5]]);
    let clamped = IncomeBandArrow::new(20).with_source_row_range(18, 400).with_batch_size(8000);
    assert_eq!(drain(clamped), vec![vec![18, 19, 20]]);
}

#[test]
fn zero_batch_size_gives_no_batch() {
    let mut arrow = IncomeBandArrow::new(20).with_batch_size(0);
    let mut rows = Vec::new();
    assert_eq!(arrow.fill_batch(&mut rows), None);
    assert!(rows.is_empty());
}

#[test]
fn skipped_walk_restarts_at_the_given_row() {
    let mut arrow = InventoryArrow::new(100).with_batch_size(3);
    let mut rows = Vec::new();
    assert_eq!(arrow.fill_batch(&mut rows), Some(1));
    arrow.accept_rows(vec![inventory("1"), inventory("2")], false);
    arrow.skip_rows_until_starting_row_number(40);
    assert_eq!(arrow.fill_batch(&mut rows), Some(40));
    assert!(rows.is_empty());
}

#[test]
fn a_fact_row_may_take_several_generator_calls() {
    let mut arrow = InventoryArrow::new(2).with_batch_size(10);
    let mut rows = Vec::new();
    assert_eq!(arrow.fill_batch(&mut rows), Some(1));
    arrow.accept_rows(vec![inventory("1"), inventory("2")], false);
    assert_eq!(arrow.fill_batch(&mut rows), Some(1));
    arrow.accept_rows(vec![inventory("3")], true);
    assert_eq!(arrow.fill_batch(&mut rows), Some(2));
    arrow.accept_rows(vec![], true);
    assert_eq!(arrow.fill_batch(&mut rows), None);
    assert_eq!(rows.len(), 3);
}

#[test]
fn income_band_columns_follow_the_null_bitmap() {
    let rows = vec![
        GeneratedRow::IncomeBand(IncomeBandRow::new(0, 1, 0, 10000)),
        GeneratedRow::IncomeBand(IncomeBandRow::new(0b010, 2, 10001, 20000)),
        GeneratedRow::IncomeBand(IncomeBandRow::new(0b101, 3, 20001, 30000)),
    ];
    let (sk, lower, upper) = IncomeBandArrow::columns(&rows);
    assert_eq!(sk, vec![Some(1), Some(2), None]);
    assert_eq!(lower, vec![Some(0), None, Some(20001)]);
    assert_eq!(upper, vec![Some(10000), Some(20000), None]);
}

#[test]
fn plan_ranges_become_walks() {
    let ranges = vec![RowRange::new(1, 10), RowRange::new(11, 20)];
    let mut walks = range_walks(Table::TimeDim, 15, &ranges);
    assert_eq!(walks.len(), 2);
    assert!(walks.iter().all(|w| w.table() == Table::TimeDim && w.batch_size() == 8000));
    let mut second = walks.pop().unwrap();
    let mut rows = Vec::new();
    let mut asked = Vec::new();
    while let Some(n) = second.fill_batch(&mut rows) {
        asked.push(n);
        second.accept_rows(vec![], true);
    }
    assert_eq!(asked, vec![11, 12, 13, 14, 15]);
    let fresh = TableRows::new(Table::Reason, 3);
    assert_eq!(fresh.table(), Table::Reason);
    let _ = TimeDimArrow::new(3).with_source_row_range(1, 1);
}

#[test]
fn batch_size_only_moves_batch_boundaries() {
    let flat = |batches: Vec<Vec<i32>>| batches.into_iter().flatten().collect::<Vec<_>>();
    let whole = flat(drain(IncomeBandArrow::new(20)));
    for size in [1usize, 3, 7, 20, 8000] {
        assert_eq!(flat(drain(IncomeBandArrow::new(20).with_batch_size(size))), whole);
    }
    // independent ranges make the whole table
    let mut parts = flat(drain(IncomeBandArrow::new(20).with_source_row_range(1, 8)));
    parts.extend(flat(drain(IncomeBandArrow::new(20).with_source_row_range(9, 20))));
    assert_eq!(parts, whole);
}

fn record(t: fn(CsvRecord) -> GeneratedRow, id: &str) -> GeneratedRow {
    t(CsvRecord::new(vec![id.to_string()]))
}

#[test]
fn a_paired_generator_hands_out_only_the_walks_table() {
    // catalog_returns rows come from the catalog_sales generator, which
    // needs several calls for an order and makes sales rows too
    let mut walk = TableRows::new(Table::CatalogReturns, 2).with_batch_size(10);
    let mut rows = Vec::new();
    assert_eq!(walk.fill_batch(&mut rows), Some(1));
    walk.accept_rows(
        vec![
            record(GeneratedRow::CatalogSales, "s1"),
            record(GeneratedRow::CatalogReturns, "r1"),
        ],
        false,
    );
    assert_eq!(walk.fill_batch(&mut rows), Some(1));
    walk.accept_rows(vec![record(GeneratedRow::CatalogSales, "s2")], true);
    assert_eq!(walk.fill_batch(&mut rows), Some(2));
    walk.accept_rows(
        vec![
            record(GeneratedRow::CatalogReturns, "r2"),
            record(GeneratedRow::CatalogSales, "s3"),
            record(GeneratedRow::CatalogReturns, "r3"),
        ],
        true,
    );
    assert_eq!(walk.fill_batch(&mut rows), None);
    let ids: Vec<String> = rows
        .iter()
        .map(|r| match r {
            GeneratedRow::CatalogReturns(c) => c.fields[0].clone(),
            other => panic!("not a catalog_returns row: {other:?}"),
        })
        .collect();
    assert_eq!(ids, vec!["r1", "r2", "r3"]);
}
