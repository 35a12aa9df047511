//! Conversions from TPC-DS values to the values stored in Arrow columns, and
//! the null bitmap tests used when filling nullable columns.
use vstd::prelude::*;

verus! {

/// Julian day number of the Unix epoch (1970-01-01).
pub const UNIX_EPOCH_JULIAN: i32 = 2440588;

/// A TPC-DS decimal: an unscaled integer `number` with `precision` digits
/// after the decimal point (`1234` with precision 2 is `12.34`).
#[derive(Clone, Copy, Debug, PartialEq, Eq, Structural)]
pub struct Decimal {
    number: i64,
    precision: i32,
}

impl Decimal {
    /// The decimal `number / 10^precision`; a negative precision is refused.
    pub fn new(number: i64, precision: i32) -> (r: Result<Decimal, String>)
        ensures
            precision >= 0 <==> r is Ok,
            r matches Ok(d) ==> d.spec_number() == number && d.spec_precision() == precision,
            r matches Err(msg) ==> msg@ == "precision must be greater than or equal to zero"@,
    {
        if precision < 0 {
            Err(String::from_str("precision must be greater than or equal to zero"))
        } else {
            Ok(Decimal { number, precision })
        }
    }

    /// The unscaled integer.
    pub closed spec fn spec_number(&self) -> i64 {
        self.number
    }

    /// The number of digits after the decimal point.
    pub closed spec fn spec_precision(&self) -> i32 {
        self.precision
    }

    /// The unscaled integer.
    pub fn get_number(&self) -> (r: i64)
        ensures
            r == self.spec_number(),
    {
        self.number
    }

    /// The number of digits after the decimal point.
    pub fn get_precision(&self) -> (r: i32)
        ensures
            r == self.spec_precision(),
    {
        self.precision
    }
}

/// A TPC-DS date, held as its Julian day number.
#[derive(Clone, Copy, Debug, PartialEq, Eq, Structural)]
pub struct Date {
    julian_days: i32,
}

impl Date {
    /// The date with Julian day number `julian_days`.
    pub fn from_julian_days(julian_days: i32) -> (r: Date)
        ensures
            r.spec_julian_days() == julian_days,
    {
        Date { julian_days }
    }

    /// The Julian day number.
    pub closed spec fn spec_julian_days(&self) -> i32 {
        self.julian_days
    }

    /// The Julian day number.
    pub fn to_julian_days(&self) -> (r: i32)
        ensures
            r == self.spec_julian_days(),
    {
        self.julian_days
    }
}

/// Whether bit `pos` of the null bitmap `nbm` is set (the column is NULL).
pub open spec fn null_bit_set(nbm: i64, pos: u32) -> bool {
    (nbm >> pos) & 1 != 0
}

/// Converts a decimal to the unscaled `i128` stored in a `Decimal128` column
/// (Arrow decimals are unscaled integers too).
pub fn decimal_to_i128(d: Decimal) -> (r: i128)
    ensures
        r == d.spec_number(),
{
    d.get_number() as i128
}

/// Converts a date to an Arrow `Date32`: days since 1970-01-01.
pub fn date_to_date32(d: &Date) -> (r: i32)
    requires
        d.spec_julian_days() - UNIX_EPOCH_JULIAN >= i32::MIN,
    ensures
        r == d.spec_julian_days() - UNIX_EPOCH_JULIAN,
{
    d.to_julian_days() - UNIX_EPOCH_JULIAN
}

/// Converts a Julian day number to an Arrow `Date32`; `None` for a negative
/// day number (the marker of an absent date). The day number is taken as an
/// `i32`.
pub fn julian_to_date32(julian_days: i64) -> (r: Option<i32>)
    requires
        julian_days >= 0 ==> (julian_days as i32) - UNIX_EPOCH_JULIAN >= i32::MIN,
    ensures
        julian_days < 0 <==> r is None,
        julian_days >= 0 ==> r == Some(((julian_days as i32) - UNIX_EPOCH_JULIAN) as i32),
{
    if julian_days < 0 {
        None
    } else {
        Some(julian_days as i32 - UNIX_EPOCH_JULIAN)
    }
}

/// `"Y"` for true, `"N"` for false.
pub fn bool_to_yn(b: bool) -> (r: &'static str)
    ensures
        r@ == (if b {
            "Y"@
        } else {
            "N"@
        }),
{
    if b {
        "Y"
    } else {
        "N"
    }
}

/// Milliseconds in one day.
pub const MILLIS_PER_DAY: i64 = 86_400_000;

/// Converts an Arrow `Date32` (days since the Unix epoch) to the timestamp
/// in milliseconds at midnight UTC of that day.
pub fn date32_to_timestamp_ms(days: i32) -> (r: i64)
    ensures
        r == days * MILLIS_PER_DAY,
{
    assert(-2147483648 * 86_400_000 <= days * 86_400_000 <= 2147483647 * 86_400_000)
        by (nonlinear_arith)
        requires
            -2147483648 <= days <= 2147483647,
    ;
    days as i64 * MILLIS_PER_DAY
}

/// Whether bit `pos` of the null bitmap is set, marking a NULL value.
pub fn is_null(nbm: i64, pos: u32) -> (r: bool)
    requires
        pos < 64,
    ensures
        r == null_bit_set(nbm, pos),
{
    (nbm >> pos) & 1 != 0
}

/// `Some(val)` unless bit `pos` of the null bitmap is set.
pub fn opt<T>(nbm: i64, pos: u32, val: T) -> (r: Option<T>)
    requires
        pos < 64,
    ensures
        r == (if null_bit_set(nbm, pos) {
            None
        } else {
            Some(val)
        }),
{
    if is_null(nbm, pos) {
        None
    } else {
        Some(val)
    }
}

/// `Some(sk)` unless bit `pos` of the null bitmap is set or `sk` is negative
/// (the marker of an absent foreign key).
pub fn sk_opt(nbm: i64, pos: u32, sk: i64) -> (r: Option<i64>)
    requires
        pos < 64,
    ensures
        r == (if null_bit_set(nbm, pos) || sk < 0 {
            None
        } else {
            Some(sk)
        }),
{
    if is_null(nbm, pos) || sk < 0 {
        None
    } else {
        Some(sk)
    }
}

} // verus!
