//! Command line values shared by the TPC-H and TPC-DS commands.
use vstd::prelude::*;

verus! {

/// Whether `c` is an ASCII decimal digit.
pub open spec fn is_digit(c: char) -> bool {
    '0' <= c && c <= '9'
}

/// The value of a sequence of decimal digits.
pub open spec fn digits_value(s: Seq<char>) -> int
    decreases s.len(),
{
    if s.len() == 0 {
        0
    } else {
        digits_value(s.drop_last()) * 10 + ((s.last() as int) - ('0' as int))
    }
}

/// The `i64` that `s` denotes: an optional `+` or `-` sign followed by at
/// least one decimal digit and nothing else, with the value in range.
pub open spec fn decimal_i64(s: Seq<char>) -> Option<i64> {
    let (neg, digits) = if s.len() > 0 && s[0] == '-' {
        (true, s.subrange(1, s.len() as int))
    } else if s.len() > 0 && s[0] == '+' {
        (false, s.subrange(1, s.len() as int))
    } else {
        (false, s)
    };
    let v = if neg {
        -digits_value(digits)
    } else {
        digits_value(digits)
    };
    if digits.len() > 0 && (forall|i: int| 0 <= i < digits.len() ==> is_digit(#[trigger] digits[i]))
        && i64::MIN <= v <= i64::MAX {
        Some(v as i64)
    } else {
        None
    }
}

/// Reads a decimal `i64` with `str::parse::<i64>`.
///
/// Trusted: the standard library accepts an optional `+` or `-` followed by
/// digits only, in range, and refuses everything else (white space
/// included). The text of the error it reports is not stated.
#[verifier::external_body]
fn parse_i64(s: &str) -> (r: Result<i64, String>)
    ensures
        r matches Ok(v) ==> decimal_i64(s@) == Some(v),
        r is Err ==> decimal_i64(s@) is None,
{
    match s.parse::<i64>() {
        Ok(v) => Ok(v),
        Err(e) => Err(e.to_string()),
    }
}

/// Reads a Parquet row group size in bytes: a decimal `i64` greater than zero.
pub fn parse_row_group_bytes(value: &str) -> (r: Result<i64, String>)
    ensures
        r matches Ok(b) ==> decimal_i64(value@) == Some(b) && b > 0,
        r is Err <==> (match decimal_i64(value@) {
            Some(b) => b <= 0,
            None => true,
        }),
        r matches Err(m) ==> (decimal_i64(value@) matches Some(b) && b <= 0) ==> m@
            == "must be greater than zero"@,
{
    let bytes = match parse_i64(value) {
        Ok(b) => b,
        Err(m) => {
            return Err(m);
        },
    };
    if bytes <= 0 {
        return Err(String::from_str("must be greater than zero"));
    }
    Ok(bytes)
}

} // verus!
