use tpcgen::conversions::{
    bool_to_yn, date32_to_timestamp_ms, date_to_date32, decimal_to_i128, is_null, julian_to_date32, opt, sk_opt, Date,
    Decimal,
};

#[test]
fn test_decimal_to_i128() {
    let d = Decimal::new(12345, 2).unwrap();
    assert_eq!(decimal_to_i128(d), 12345);
}

#[test]
fn test_julian_to_date32_epoch() {
    // Julian day 2440588 = 1970-01-01, so offset should be 0
    assert_eq!(julian_to_date32(2440588), Some(0));
}

#[test]
fn test_julian_to_date32_negative() {
    assert_eq!(julian_to_date32(-1), None);
}

#[test]
fn test_bool_to_yn() {
    assert_eq!(bool_to_yn(true), "Y");
    assert_eq!(bool_to_yn(false), "N");
}

#[test]
fn decimal_refuses_negative_precision() {
    let err = Decimal::new(1, -1).unwrap_err();
    assert_eq!(err, "precision must be greater than or equal to zero");
    let d = Decimal::new(-250, 0).unwrap();
    assert_eq!(d.get_number(), -250);
    assert_eq!(d.get_precision(), 0);
    assert_eq!(decimal_to_i128(d), -250);
}

#[test]
fn date_to_date32_counts_days_from_the_unix_epoch() {
    assert_eq!(date_to_date32(&Date::from_julian_days(2440588)), 0);
    assert_eq!(date_to_date32(&Date::from_julian_days(2450815)), 10227);
    assert_eq!(date_to_date32(&Date::from_julian_days(2440587)), -1);
    assert_eq!(julian_to_date32(2450815), Some(10227));
    assert_eq!(julian_to_date32(0), Some(-2440588));
}

#[test]
fn null_bitmap_bits_select_nulls() {
    let nbm: i64 = 0b1010;
    assert!(!is_null(nbm, 0));
    assert!(is_null(nbm, 1));
    assert!(!is_null(nbm, 2));
    assert!(is_null(nbm, 3));
    assert!(is_null(i64::MIN, 63));
    assert_eq!(opt(nbm, 0, "x"), Some("x"));
    assert_eq!(opt(nbm, 1, "x"), None);
}

#[test]
fn sk_opt_treats_negative_keys_as_absent() {
    assert_eq!(sk_opt(0, 0, 17), Some(17));
    assert_eq!(sk_opt(0, 0, 0), Some(0));
    assert_eq!(sk_opt(0, 0, -1), None);
    assert_eq!(sk_opt(1, 0, 17), None);
    assert_eq!(sk_opt(2, 0, 17), Some(17));
}

#[test]
fn date32_days_become_midnight_timestamps() {
    assert_eq!(date32_to_timestamp_ms(0), 0);
    assert_eq!(date32_to_timestamp_ms(1), 86_400_000);
    assert_eq!(date32_to_timestamp_ms(8035), 694_224_000_000);
    assert_eq!(date32_to_timestamp_ms(-1), -86_400_000);
    assert_eq!(date32_to_timestamp_ms(i32::MIN), i32::MIN as i64 * 86_400_000);
}
