use tpcgen::args::parse_row_group_bytes;

#[test]
fn row_group_bytes_enforces_i64_range() {
    assert_eq!(parse_row_group_bytes("1"), Ok(1));
    assert_eq!(parse_row_group_bytes(&i64::MAX.to_string()), Ok(i64::MAX));
    assert!(parse_row_group_bytes("9223372036854775808").is_err());
}

#[test]
fn row_group_bytes_must_be_positive_decimal() {
    assert_eq!(
        parse_row_group_bytes("0"),
        Err("must be greater than zero".to_string())
    );
    assert_eq!(
        parse_row_group_bytes("-5"),
        Err("must be greater than zero".to_string())
    );
    assert_eq!(parse_row_group_bytes("+7340032"), Ok(7340032));
    assert!(parse_row_group_bytes("").is_err());
    assert!(parse_row_group_bytes(" 1").is_err());
    assert!(parse_row_group_bytes("1MB").is_err());
    assert!(parse_row_group_bytes("-").is_err());
}
