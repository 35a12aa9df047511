use tpcgen::column_types::{ColumnTypeConfig, DateColumnType, DecimalColumnType, KeyColumnType};
use tpcgen::parquet_options::{
    find_column, parse_column_encoding_pair, reject_unsupported_encoding, resolve_column_encodings,
    Encoding, ParquetVersion,
};

#[test]
fn reject_unsupported_encoding_rejects_dictionary_and_bit_packed() {
    assert!(reject_unsupported_encoding(Encoding::PLAIN_DICTIONARY).is_err());
    assert!(reject_unsupported_encoding(Encoding::RLE_DICTIONARY).is_err());
    assert!(reject_unsupported_encoding(Encoding::BIT_PACKED).is_err());
    assert!(reject_unsupported_encoding(Encoding::PLAIN).is_ok());
}

#[test]
fn rejected_encodings_explain_why() {
    assert_eq!(
        reject_unsupported_encoding(Encoding::RLE_DICTIONARY).unwrap_err(),
        "encoding RLE_DICTIONARY cannot be set with --column-encoding; dictionary encoding is the writer default. Use a non-dictionary encoding such as PLAIN or DELTA_LENGTH_BYTE_ARRAY"
    );
    assert_eq!(
        reject_unsupported_encoding(Encoding::BIT_PACKED).unwrap_err(),
        "encoding BIT_PACKED is not supported for Parquet writing"
    );
    assert!(reject_unsupported_encoding(Encoding::DELTA_BYTE_ARRAY).is_ok());
}

#[test]
fn column_encoding_pairs_are_trimmed_and_named() {
    assert_eq!(
        parse_column_encoding_pair("r_reason_desc=DELTA_LENGTH_BYTE_ARRAY"),
        Ok(("r_reason_desc".to_string(), Encoding::DELTA_LENGTH_BYTE_ARRAY))
    );
    assert_eq!(
        parse_column_encoding_pair("  l_comment =\tplain "),
        Ok(("l_comment".to_string(), Encoding::PLAIN))
    );
    assert_eq!(
        parse_column_encoding_pair("a=rle=x"),
        Err("Parquet error: unknown encoding: rle=x".to_string())
    );
    assert_eq!(
        parse_column_encoding_pair("l_comment=Plain"),
        Err("Parquet error: unknown encoding: Plain".to_string())
    );
    assert_eq!(
        parse_column_encoding_pair("l_comment"),
        Err("expected COLUMN=ENCODING, got: 'l_comment'".to_string())
    );
    assert_eq!(
        parse_column_encoding_pair(" =PLAIN"),
        Err("expected COLUMN=ENCODING, got: ' =PLAIN'".to_string())
    );
    assert_eq!(
        parse_column_encoding_pair("c= "),
        Err("expected COLUMN=ENCODING, got: 'c= '".to_string())
    );
    assert_eq!(
        parse_column_encoding_pair("c=byte_stream_split"),
        Ok(("c".to_string(), Encoding::BYTE_STREAM_SPLIT))
    );
}

#[test]
fn encoding_codes_match_parquet() {
    assert_eq!(Encoding::from_code(0), Some(Encoding::PLAIN));
    assert_eq!(Encoding::from_code(1), None);
    assert_eq!(Encoding::from_code(8), Some(Encoding::RLE_DICTIONARY));
    assert_eq!(Encoding::from_code(10), Some(Encoding::ALP));
    assert_eq!(Encoding::DELTA_BINARY_PACKED.name(), "DELTA_BINARY_PACKED");
}

#[test]
fn parquet_versions_parse_and_print() {
    assert_eq!(ParquetVersion::default(), ParquetVersion::V1);
    for s in ["v1", "V1", "1", "1.0"] {
        assert_eq!(ParquetVersion::parse(s), Ok(ParquetVersion::V1));
    }
    for s in ["v2", "V2", "2", "2.0"] {
        assert_eq!(ParquetVersion::parse(s), Ok(ParquetVersion::V2));
    }
    assert_eq!(
        ParquetVersion::parse("3"),
        Err("Invalid parquet version: 3. Valid versions are: v1, v2".to_string())
    );
    assert_eq!(ParquetVersion::V2.name(), "v2");
}

#[test]
fn column_types_parse_and_print() {
    assert_eq!(DecimalColumnType::parse("DECIMAL128"), Ok(DecimalColumnType::Decimal128));
    assert_eq!(DecimalColumnType::parse("f64"), Ok(DecimalColumnType::F64));
    assert_eq!(
        DecimalColumnType::parse("f32"),
        Err("Invalid decimal column type: 'f32'. Valid values are: decimal128, f64".to_string())
    );
    assert_eq!(DateColumnType::parse("Timestamp_MS"), Ok(DateColumnType::TimestampMs));
    assert_eq!(
        DateColumnType::parse("date64"),
        Err("Invalid date column type: 'date64'. Valid values are: date32, timestamp_ms".to_string())
    );
    assert_eq!(KeyColumnType::parse("I32"), Ok(KeyColumnType::I32));
    assert_eq!(
        KeyColumnType::parse("u32"),
        Err("Invalid key column type: 'u32'. Valid values are: i64, i32".to_string())
    );
    assert_eq!(DateColumnType::TimestampMs.name(), "timestamp_ms");
    assert_eq!(KeyColumnType::default(), KeyColumnType::I64);
    let config = ColumnTypeConfig::default();
    assert_eq!(config.decimal_type, DecimalColumnType::Decimal128);
    assert_eq!(config.date_type, DateColumnType::Date32);
}

fn names(v: &[&str]) -> Vec<String> {
    v.iter().map(|s| s.to_string()).collect()
}

#[test]
fn resolved_encodings_give_schema_positions() {
    let columns = names(&["r_reason_sk", "r_reason_id", "r_reason_desc"]);
    let settings = vec![
        ("r_reason_desc".to_string(), Encoding::DELTA_LENGTH_BYTE_ARRAY),
        ("r_reason_sk".to_string(), Encoding::PLAIN),
    ];
    assert_eq!(
        resolve_column_encodings(&columns, &settings),
        Ok(vec![(2, Encoding::DELTA_LENGTH_BYTE_ARRAY), (0, Encoding::PLAIN)])
    );
    assert_eq!(find_column(&columns, &"r_reason_id".to_string()), Some(1));
    assert_eq!(find_column(&columns, &"nope".to_string()), None);
}

#[test]
fn resolving_an_unknown_column_fails() {
    let columns = names(&["r_reason_sk"]);
    let settings = vec![("not_a_column".to_string(), Encoding::PLAIN)];
    assert_eq!(
        resolve_column_encodings(&columns, &settings),
        Err("unknown column 'not_a_column' for --column-encoding".to_string())
    );
}

#[test]
fn resolving_a_dictionary_encoding_fails_first() {
    let columns = names(&["r_reason_sk"]);
    let settings = vec![
        ("r_reason_sk".to_string(), Encoding::PLAIN_DICTIONARY),
        ("not_a_column".to_string(), Encoding::PLAIN),
    ];
    assert_eq!(
        resolve_column_encodings(&columns, &settings),
        Err("encoding PLAIN_DICTIONARY cannot be set with --column-encoding; dictionary encoding is the writer default. Use a non-dictionary encoding such as PLAIN or DELTA_LENGTH_BYTE_ARRAY".to_string())
    );
    assert_eq!(resolve_column_encodings(&columns, &vec![]), Ok(vec![]));
}
