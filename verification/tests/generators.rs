use tpcgen::generators::{create_null_bit_map, IncomeBandRowGenerator, ReasonRowGenerator};

#[test]
fn null_bitmap_only_below_the_basis_points() {
    // Below the basis points: the drawn bitmap with the never-NULL columns
    // (here the first) cleared.
    assert_eq!(create_null_bit_map(10, 0b1011, 100, 0b0001), 0b1010);
    // At or above: no NULLs at all.
    assert_eq!(create_null_bit_map(100, 0b1011, 100, 0b0001), 0);
    assert_eq!(create_null_bit_map(9999, -1, 100, 0), 0);
}

#[test]
fn income_band_rows_take_the_row_number_as_key() {
    let gen = IncomeBandRowGenerator::new();
    let row = gen.generate_income_band_row(3, 5000, 0b110, 0, 0b001, 20001, 30000);
    assert_eq!(row.get_ib_income_band_sk(), 3);
    assert_eq!(row.get_ib_lower_bound(), 20001);
    assert_eq!(row.get_ib_upper_bound(), 30000);
    assert_eq!(row.null_bit_map(), 0);
    assert_eq!(row.to_dat_line(), "3|20001|30000|");

    let nulls = IncomeBandRowGenerator::default().generate_income_band_row(
        1, 0, 0b110, 1, 0b001, 0, 10000,
    );
    assert_eq!(nulls.null_bit_map(), 0b110);
    assert_eq!(nulls.to_dat_line(), "1|||");
}

#[test]
fn reason_rows_take_the_business_key_and_description() {
    let row = ReasonRowGenerator::new().generate_reason_row(
        2,
        9000,
        7,
        10,
        0b001,
        "AAAAAAAACAAAAAAA".to_string(),
        "Stopped working".to_string(),
    );
    assert_eq!(row.get_r_reason_sk(), 2);
    assert_eq!(row.get_r_reason_id(), "AAAAAAAACAAAAAAA");
    assert_eq!(row.get_r_reason_desc(), "Stopped working");
    assert_eq!(row.null_bit_map(), 0);
    let with_null = ReasonRowGenerator::default().generate_reason_row(
        2,
        5,
        0b111,
        10,
        0b001,
        "AAAAAAAACAAAAAAA".to_string(),
        "Stopped working".to_string(),
    );
    assert_eq!(with_null.null_bit_map(), 0b110);
}
