use tpcgen::tpcds_cli::parse_table;
use tpcgen::parquet_options::Encoding;
use tpcgen::tpch::{
    column_encodings_for_table, tables_to_generate, validate_column_encodings, ColumnTypeConfig,
    OutputFormat, Table,
};
use tpcgen::column_types::{DateColumnType, DecimalColumnType, KeyColumnType};

fn settings(pairs: &[(&str, Encoding)]) -> Vec<(String, Encoding)> {
    pairs.iter().map(|(c, e)| (c.to_string(), *e)).collect()
}

#[test]
fn generator_validate_column_encodings_accepts_a_column_present_on_just_one_table() {
    // l_comment exists only on lineitem, not orders.
    let tables = vec![Table::Lineitem, Table::Orders];
    let encodings = settings(&[("l_comment", Encoding::PLAIN)]);
    assert!(validate_column_encodings(&tables, &encodings).is_ok());
}

#[test]
fn generator_validate_column_encodings_rejects_a_typo() {
    let tables = vec![Table::Lineitem, Table::Orders];
    let encodings = settings(&[("l_comment_typo", Encoding::PLAIN)]);
    let err = validate_column_encodings(&tables, &encodings).unwrap_err();
    assert!(err.to_string().contains("column 'l_comment_typo'"), "{err}");
}

#[test]
fn generator_validate_column_encodings_rejects_dictionary_encoding() {
    let tables = vec![Table::Lineitem];
    let encodings = settings(&[("l_comment", Encoding::PLAIN_DICTIONARY)]);
    assert!(validate_column_encodings(&tables, &encodings).is_err());
}

#[test]
fn generator_column_encodings_for_table_keeps_only_matching_columns() {
    let encodings = settings(&[
        ("l_comment", Encoding::PLAIN),
        ("o_comment", Encoding::PLAIN),
    ]);
    assert_eq!(
        column_encodings_for_table(Table::Lineitem, &encodings),
        vec![("l_comment".to_string(), Encoding::PLAIN)]
    );
    assert_eq!(
        column_encodings_for_table(Table::Nation, &encodings),
        Vec::new()
    );
}

#[test]
fn tpch_table_aliases_are_case_sensitive_and_names_are_not() {
    for (alias, table) in [
        ("n", Table::Nation),
        ("r", Table::Region),
        ("s", Table::Supplier),
        ("P", Table::Part),
        ("S", Table::Partsupp),
        ("c", Table::Customer),
        ("O", Table::Orders),
        ("L", Table::Lineitem),
    ] {
        assert_eq!(Table::parse(alias), Ok(table), "{alias}");
        assert_eq!(Table::parse(table.name()), Ok(table));
        assert_eq!(Table::parse(&table.name().to_ascii_uppercase()), Ok(table));
    }
    assert_eq!(Table::parse("PartSupp"), Ok(Table::Partsupp));
    assert_eq!(Table::parse("LineItem"), Ok(Table::Lineitem));
    for alias in ["N", "R", "p", "C", "o", "l", "ps"] {
        assert_eq!(
            Table::parse(alias),
            Err(format!("Invalid table name {alias}")),
            "{alias}"
        );
    }
}

#[test]
fn output_formats_parse_by_name() {
    assert_eq!(OutputFormat::parse("tbl"), Ok(OutputFormat::Tbl));
    assert_eq!(OutputFormat::parse("CSV"), Ok(OutputFormat::Csv));
    assert_eq!(OutputFormat::parse("Parquet"), Ok(OutputFormat::Parquet));
    assert_eq!(
        OutputFormat::parse("json"),
        Err("Invalid output format: json. Valid formats are: tbl, csv, parquet".to_string())
    );
    for f in [OutputFormat::Tbl, OutputFormat::Csv, OutputFormat::Parquet] {
        assert_eq!(OutputFormat::parse(f.name()), Ok(f));
    }
}

#[test]
fn tpch_default_column_types() {
    let config = ColumnTypeConfig::default();
    assert_eq!(config.decimal_type, DecimalColumnType::Decimal128);
    assert_eq!(config.date_type, DateColumnType::Date32);
    assert_eq!(config.nationkey_type, KeyColumnType::I64);
    assert_eq!(config.regionkey_type, KeyColumnType::I64);
}

#[test]
fn tpch_values_parse_through_from_str() {
    assert_eq!("lineitem".parse::<Table>(), Ok(Table::Lineitem));
    assert_eq!("parquet".parse::<OutputFormat>(), Ok(OutputFormat::Parquet));
    assert_eq!("f64".parse::<DecimalColumnType>(), Ok(DecimalColumnType::F64));
}

#[test]
fn all_tables_are_generated_when_none_are_selected() {
    assert_eq!(
        tables_to_generate(None),
        vec![
            Table::Nation,
            Table::Region,
            Table::Part,
            Table::Supplier,
            Table::Partsupp,
            Table::Customer,
            Table::Orders,
            Table::Lineitem,
        ]
    );
    assert_eq!(tables_to_generate(Some(vec![Table::Orders])), vec![Table::Orders]);
}

#[test]
fn full_table_names_are_case_insensitive() {
    for name in ["Nation", "Region", "Supplier", "Part", "PartSupp", "Customer", "Orders", "LineItem"] {
        for name in [name.to_ascii_lowercase(), name.to_ascii_uppercase(), name.to_string()] {
            Table::parse(&name).unwrap();
        }
    }
    for name in ["Reason", "Ship_Mode"] {
        for name in [name.to_ascii_lowercase(), name.to_ascii_uppercase(), name.to_string()] {
            parse_table(&name).unwrap();
        }
    }
}

#[test]
fn tpch_table_aliases_remain_case_sensitive() {
    for (alias, table) in [
        ("n", Table::Nation),
        ("r", Table::Region),
        ("s", Table::Supplier),
        ("P", Table::Part),
        ("S", Table::Partsupp),
        ("c", Table::Customer),
        ("O", Table::Orders),
        ("L", Table::Lineitem),
    ] {
        assert_eq!(Table::parse(alias), Ok(table), "{alias}");
    }
    for alias in ["N", "R", "p", "C", "o", "l"] {
        assert!(Table::parse(alias).is_err(), "{alias}");
    }
}
