use tpcgen::parquet_options::Encoding;
use tpcgen::tpcds_cli::{
    column_encodings_for_table, expected_table_names, parse_delimiter, parse_table, part_list, Dat,
    row_generator_tables, selected_tables, uses_column_type_config, validate_column_encodings,
};
use tpcgen::tpcds_table::{table_help, Table};

#[test]
fn every_main_table_has_help_text() {
    for table in Table::main_tables() {
        assert!(
            !table_help(table).is_empty(),
            "{table:?} is missing a --help description"
        );
    }
}

#[test]
fn tables_deduplicates_repeated_selections_in_first_seen_order() {
    let tables = selected_tables(Some(vec![
        Table::Reason,
        Table::Reason,
        Table::ShipMode,
        Table::Reason,
        Table::ShipMode,
    ]));

    assert_eq!(tables, vec![Table::Reason, Table::ShipMode]);
}

#[test]
fn row_generator_tables_collapses_sales_returns_pairs_in_both_orders() {
    for (sales, returns) in [
        (Table::CatalogSales, Table::CatalogReturns),
        (Table::StoreSales, Table::StoreReturns),
        (Table::WebSales, Table::WebReturns),
    ] {
        assert_eq!(row_generator_tables(Some(vec![sales, returns])), vec![sales]);
        assert_eq!(row_generator_tables(Some(vec![returns, sales])), vec![sales]);
        assert_eq!(row_generator_tables(Some(vec![sales])), vec![sales]);
        assert_eq!(row_generator_tables(Some(vec![returns])), vec![sales]);
    }
}

#[test]
fn row_generator_tables_normalizes_mixed_pairs_and_duplicates() {
    let tables = row_generator_tables(Some(vec![
        Table::StoreReturns,
        Table::Reason,
        Table::StoreSales,
        Table::StoreReturns,
        Table::CatalogSales,
        Table::CatalogReturns,
        Table::WebReturns,
        Table::WebSales,
        Table::Reason,
    ]));

    assert_eq!(
        tables,
        vec![
            Table::StoreSales,
            Table::Reason,
            Table::CatalogSales,
            Table::WebSales,
        ]
    );
}

#[test]
fn no_selection_means_every_table() {
    assert_eq!(selected_tables(None), Table::main_tables());
    let generated = row_generator_tables(None);
    assert_eq!(generated.len(), 22);
    assert!(!generated.contains(&Table::StoreReturns));
    assert!(!generated.contains(&Table::CatalogReturns));
    assert!(!generated.contains(&Table::WebReturns));
}

#[test]
fn part_list_defaults_to_single_unnumbered_file() {
    assert_eq!(part_list(None, None).unwrap(), vec![None]);
}

#[test]
fn part_list_expands_parts_alone_into_every_part() {
    assert_eq!(
        part_list(None, Some(3)).unwrap(),
        vec![Some(1), Some(2), Some(3)]
    );
}

#[test]
fn part_list_with_part_and_parts_generates_just_that_part() {
    assert_eq!(part_list(Some(2), Some(3)).unwrap(), vec![Some(2)]);
}

#[test]
fn part_list_rejects_a_part_outside_the_parts() {
    assert_eq!(
        part_list(Some(42), Some(10)).unwrap_err(),
        "Invalid --part. Expected at most the value of --parts (10), got 42"
    );
    assert_eq!(
        part_list(Some(0), Some(10)).unwrap_err(),
        "Invalid --part. Expected a number greater than zero, got 0"
    );
    assert_eq!(
        part_list(Some(0), Some(0)).unwrap_err(),
        "Invalid --part. Expected a number greater than zero, got 0"
    );
    assert_eq!(
        part_list(Some(-3), Some(10)).unwrap_err(),
        "Invalid --part. Expected a number greater than zero, got -3"
    );
    assert_eq!(part_list(Some(10), Some(10)).unwrap(), vec![Some(10)]);
}

#[test]
fn part_list_rejects_part_without_parts() {
    let err = part_list(Some(2), None).unwrap_err();
    assert_eq!(
        err.to_string(),
        "The --part option requires the --parts option to be set"
    );
}

#[test]
fn part_list_rejects_non_positive_parts() {
    assert!(part_list(None, Some(0)).is_err());
    assert!(part_list(None, Some(-1)).is_err());
    assert_eq!(
        part_list(None, Some(-12)).unwrap_err(),
        "Invalid --parts value '-12'. Expected a number greater than zero"
    );
}

#[test]
fn parse_delimiter_accepts_escapes_and_single_ascii_characters() {
    assert_eq!(parse_delimiter("\\t"), Ok('\t'));
    assert_eq!(parse_delimiter("\\n"), Ok('\n'));
    assert_eq!(parse_delimiter("\\r"), Ok('\r'));
    assert_eq!(parse_delimiter("\\\\"), Ok('\\'));
    assert_eq!(parse_delimiter(";"), Ok(';'));
    assert_eq!(
        parse_delimiter("ab"),
        Err("Delimiter must be a single character or escape sequence (\\t, \\n, \\r, \\\\), got: 'ab'".to_string())
    );
    assert_eq!(
        parse_delimiter("é"),
        Err("Delimiter must be an ASCII character, got: 'é'".to_string())
    );
    assert!(parse_delimiter("").is_err());
}

#[test]
fn parse_table_ignores_ascii_case() {
    assert_eq!(parse_table("Ship_Mode"), Ok(Table::ShipMode));
    assert_eq!(parse_table("REASON"), Ok(Table::Reason));
    assert_eq!(parse_table("dbgen_version"), Ok(Table::DbgenVersion));
    for table in Table::main_tables() {
        assert_eq!(parse_table(table.get_name()), Ok(table));
    }
    let err = parse_table("reasons").unwrap_err();
    assert_eq!(
        err,
        format!("unknown table 'reasons'. Expected one of: {}", expected_table_names())
    );
    assert!(expected_table_names().starts_with("call_center, catalog_page, "));
    assert!(expected_table_names().ends_with(", web_site, dbgen_version"));
}

fn settings(pairs: &[(&str, Encoding)]) -> Vec<(String, Encoding)> {
    pairs.iter().map(|(c, e)| (c.to_string(), *e)).collect()
}

#[test]
fn parquet_validate_column_encodings_accepts_a_column_present_on_just_one_table() {
    // r_reason_desc exists only on reason, not item.
    let tables = vec![Table::Reason, Table::Item];
    let encodings = settings(&[("r_reason_desc", Encoding::PLAIN)]);
    assert!(validate_column_encodings(&tables, &encodings).is_ok());
}

#[test]
fn parquet_validate_column_encodings_rejects_a_typo() {
    let tables = vec![Table::Reason];
    let encodings = settings(&[("r_reason_desc_typo", Encoding::PLAIN)]);
    let err = validate_column_encodings(&tables, &encodings).unwrap_err();
    assert!(
        err.to_string().contains("column 'r_reason_desc_typo'"),
        "{err}"
    );
}

#[test]
fn parquet_validate_column_encodings_rejects_dictionary_encoding() {
    // The column is real, so the only reason to fail is the encoding.
    let tables = vec![Table::Reason];
    let encodings = settings(&[("r_reason_desc", Encoding::PLAIN_DICTIONARY)]);
    let err = validate_column_encodings(&tables, &encodings).unwrap_err();
    assert!(err.to_string().contains("dictionary encoding"), "{err}");
}

#[test]
fn parquet_column_encodings_for_table_keeps_only_matching_columns() {
    let encodings = settings(&[
        ("r_reason_desc", Encoding::PLAIN),
        ("i_item_desc", Encoding::PLAIN),
    ]);
    assert_eq!(
        column_encodings_for_table(Table::Reason, &encodings),
        vec![("r_reason_desc".to_string(), Encoding::PLAIN)]
    );
    assert_eq!(
        column_encodings_for_table(Table::CallCenter, &encodings),
        Vec::new()
    );
}

#[test]
fn validation_reports_the_first_failing_setting() {
    let tables = vec![Table::Reason, Table::Item];
    let encodings = settings(&[
        ("i_item_desc", Encoding::DELTA_LENGTH_BYTE_ARRAY),
        ("nope", Encoding::PLAIN),
        ("r_reason_desc", Encoding::BIT_PACKED),
    ]);
    assert_eq!(
        validate_column_encodings(&tables, &encodings),
        Err("column 'nope' for --column-encoding not found in any selected table".to_string())
    );
    assert!(validate_column_encodings(&vec![], &vec![]).is_ok());
}

#[test]
fn dat_output_needs_a_directory() {
    let err = Dat::new(String::new()).unwrap_err();
    assert_eq!(err.option, "directory");
    assert_eq!(err.value, "");
    assert_eq!(err.message, "Directory cannot be empty");
    let dat = Dat::new("out".to_string()).unwrap();
    assert_eq!(dat.output_dir(), "out");
}

#[test]
fn only_tables_with_decimals_or_dates_take_column_types() {
    assert!(uses_column_type_config(Table::StoreSales));
    assert!(uses_column_type_config(Table::WebReturns));
    assert!(uses_column_type_config(Table::DateDim));
    assert!(!uses_column_type_config(Table::Reason));
    assert!(!uses_column_type_config(Table::CustomerAddress));
    assert!(!uses_column_type_config(Table::Inventory));
}
