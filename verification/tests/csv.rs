use tpcgen::csv::{
    csv_header, join_header, CallCenterCsv, CatalogPageCsv, CsvRecord, GeneratedRow,
    GeneratedRowCsv, IncomeBandCsv, InventoryCsv, ReasonCsv, ShipModeCsv,
};
use tpcgen::rows::{IncomeBandRow, ReasonRow};
use tpcgen::tpcds_table::Table;

#[test]
fn income_band_csv_lines() {
    let rows = [
        IncomeBandRow::new(0, 1, 0, 10000),
        IncomeBandRow::new(0, 2, 10001, 20000),
        IncomeBandRow::new(0, 3, 20001, 30000),
    ];
    let mut csv = String::new();
    csv.push_str(IncomeBandCsv::header());
    csv.push('\n');
    for row in &rows {
        csv.push_str(&IncomeBandCsv::new(row).to_string());
        csv.push('\n');
    }
    assert_eq!(
        csv,
        "ib_income_band_sk,ib_lower_bound,ib_upper_bound\n\
         1,0,10000\n\
         2,10001,20000\n\
         3,20001,30000\n"
    );
}

#[test]
fn reason_csv_lines() {
    let rows = [
        ReasonRow::new(0, 1, "AAAAAAAABAAAAAAA".to_string(), "Package was damaged".to_string()),
        ReasonRow::new(0, 2, "AAAAAAAACAAAAAAA".to_string(), "Stopped working".to_string()),
        ReasonRow::new(0, 3, "AAAAAAAADAAAAAAA".to_string(), "Did not get it on time".to_string()),
    ];
    let mut csv = String::new();
    csv.push_str(ReasonCsv::header());
    csv.push('\n');
    for row in &rows {
        csv.push_str(&ReasonCsv::new(row).to_string());
        csv.push('\n');
    }
    assert_eq!(
        csv,
        "r_reason_sk,r_reason_id,r_reason_desc\n\
         1,AAAAAAAABAAAAAAA,Package was damaged\n\
         2,AAAAAAAACAAAAAAA,Stopped working\n\
         3,AAAAAAAADAAAAAAA,Did not get it on time\n"
    );
}

#[test]
fn csv_null_columns_are_empty_and_delimiter_is_used() {
    // bit 1 set: ib_lower_bound is NULL
    let row = IncomeBandRow::new(0b010, 7, 60001, 70000);
    assert_eq!(IncomeBandCsv::new(&row).to_string(), "7,,70000");
    assert_eq!(IncomeBandCsv::with_delimiter(&row, '|').to_string(), "7||70000");
    let reason = ReasonRow::new(0b100, -3, "AAAAAAAAEAAAAAAA".to_string(), "x".to_string());
    assert_eq!(ReasonCsv::with_delimiter(&reason, '\t').to_string(), "-3\tAAAAAAAAEAAAAAAA\t");
}

#[test]
fn dat_lines_have_a_trailing_separator() {
    let row = IncomeBandRow::new(0, 1, 0, 10000);
    assert_eq!(row.to_dat_line(), "1|0|10000|");
    let row = IncomeBandRow::new(0b111, 1, 0, 10000);
    assert_eq!(row.to_dat_line(), "|||");
    let reason = ReasonRow::new(0b001, 9, "AAAAAAAAJAAAAAAA".to_string(), "Not the product that was ordred".to_string());
    assert_eq!(reason.to_dat_line(), "|AAAAAAAAJAAAAAAA|Not the product that was ordred|");
    assert!(reason.should_be_null(0));
    assert!(!reason.should_be_null(1));
    assert_eq!(reason.get_r_reason_sk(), 9);
    assert_eq!(reason.get_r_reason_id(), "AAAAAAAAJAAAAAAA");
    assert_eq!(reason.null_bit_map(), 1);
}

#[test]
fn income_band_row_getters() {
    let row = IncomeBandRow::new(4, 2, 10001, 20000);
    assert_eq!(row.null_bit_map(), 4);
    assert_eq!(row.get_ib_income_band_sk(), 2);
    assert_eq!(row.get_ib_lower_bound(), 10001);
    assert_eq!(row.get_ib_upper_bound(), 20000);
    assert!(row.should_be_null(2));
    assert!(!row.should_be_null(0));
}

#[test]
fn record_rows_join_their_fields() {
    let record = CsvRecord::new(vec![
        "2450815".to_string(),
        "1".to_string(),
        "1".to_string(),
        "211".to_string(),
    ]);
    assert_eq!(InventoryCsv::new(&record).to_string(), "2450815,1,1,211");
    assert_eq!(InventoryCsv::with_delimiter(&record, ';').to_string(), "2450815;1;1;211");
    let quoted = CsvRecord::new(vec![
        "1".to_string(),
        "AAAAAAAABAAAAAAA".to_string(),
        "\"In general basic characters welcome.\"".to_string(),
    ]);
    assert_eq!(
        CatalogPageCsv::new(&quoted).to_string(),
        "1,AAAAAAAABAAAAAAA,\"In general basic characters welcome.\""
    );
    assert_eq!(ShipModeCsv::new(&CsvRecord::new(vec![])).to_string(), "");
}

#[test]
fn headers_with_comma_are_unchanged() {
    assert_eq!(CallCenterCsv::header_with_delimiter(','), CallCenterCsv::header());
    assert_eq!(
        csv_header(Table::Reason, ','),
        Some("r_reason_sk,r_reason_id,r_reason_desc".to_string())
    );
    for table in Table::main_tables() {
        assert!(csv_header(table, ',').is_some());
    }
}

#[test]
fn headers_use_the_delimiter_and_quote_names_that_contain_it() {
    assert_eq!(
        ReasonCsv::header_with_delimiter('|'),
        "r_reason_sk|r_reason_id|r_reason_desc"
    );
    assert_eq!(
        IncomeBandCsv::header_with_delimiter('_'),
        "\"ib_income_band_sk\"_\"ib_lower_bound\"_\"ib_upper_bound\""
    );
    assert_eq!(
        csv_header(Table::Inventory, 'q'),
        Some("inv_date_skqinv_item_skqinv_warehouse_skq\"inv_quantity_on_hand\"".to_string())
    );
}

#[test]
fn join_header_splits_on_every_comma() {
    assert_eq!(join_header("", ';'), "");
    assert_eq!(join_header("a,,b", ';'), "a;;b");
    assert_eq!(join_header("a;b,c", ';'), "\"a;b\";c");
    assert_eq!(join_header(",", '\t'), "\t");
}

#[test]
fn generated_rows_format_by_their_table() {
    let reason = GeneratedRow::Reason(ReasonRow::new(
        0,
        2,
        "AAAAAAAACAAAAAAA".to_string(),
        "Stopped working".to_string(),
    ));
    assert_eq!(reason.table(), Table::Reason);
    assert_eq!(
        GeneratedRowCsv::new(&reason).to_string(),
        "2,AAAAAAAACAAAAAAA,Stopped working"
    );
    let inventory = GeneratedRow::Inventory(CsvRecord::new(vec![
        "2450815".to_string(),
        "2".to_string(),
        "1".to_string(),
        "235".to_string(),
    ]));
    assert_eq!(inventory.table(), Table::Inventory);
    assert_eq!(
        GeneratedRowCsv::with_delimiter(&inventory, '|').to_string(),
        "2450815|2|1|235"
    );
    let band = GeneratedRow::IncomeBand(IncomeBandRow::new(0, 3, 20001, 30000));
    assert_eq!(GeneratedRowCsv::with_delimiter(&band, ';').to_string(), "3;20001;30000");
}
