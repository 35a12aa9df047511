//! Arrow column type options: the type used for monetary (decimal) columns,
//! for date columns, and for the TPC-H nation and region key columns.
//!
//! Values are parsed by name without regard to ASCII case and written by
//! their lower-case name.
use crate::text::{concat3, eq_ignore_ascii_case, eq_ignoring_ascii_case};
use vstd::prelude::*;

verus! {

/// Type to use for decimal/monetary columns.
///
/// Generated values fit exactly in `f64`, but the default `Decimal128`
/// declared precision exceeds what `f64` represents exactly.
#[derive(Clone, Copy, Debug, PartialEq, Eq, Structural)]
pub enum DecimalColumnType {
    Decimal128,
    F64,
}

/// Type to use for date columns.
#[derive(Clone, Copy, Debug, PartialEq, Eq, Structural)]
pub enum DateColumnType {
    /// Days since the Unix epoch
    Date32,
    /// Milliseconds since the Unix epoch, at midnight UTC
    TimestampMs,
}

/// Type to use for the TPC-H nation and region key columns, which do not
/// grow with the scale factor and so fit in an `i32`.
#[derive(Clone, Copy, Debug, PartialEq, Eq, Structural)]
pub enum KeyColumnType {
    I64,
    I32,
}

/// Configuration for column types in generated TPC-DS Arrow data.
#[derive(Clone, Copy, Debug, PartialEq, Eq, Structural)]
pub struct ColumnTypeConfig {
    pub decimal_type: DecimalColumnType,
    pub date_type: DateColumnType,
}

/// The name of a decimal column type.
pub open spec fn decimal_type_name(t: DecimalColumnType) -> Seq<char> {
    match t {
        DecimalColumnType::Decimal128 => "decimal128"@,
        DecimalColumnType::F64 => "f64"@,
    }
}

/// The name of a date column type.
pub open spec fn date_type_name(t: DateColumnType) -> Seq<char> {
    match t {
        DateColumnType::Date32 => "date32"@,
        DateColumnType::TimestampMs => "timestamp_ms"@,
    }
}

/// The name of a key column type.
pub open spec fn key_type_name(t: KeyColumnType) -> Seq<char> {
    match t {
        KeyColumnType::I64 => "i64"@,
        KeyColumnType::I32 => "i32"@,
    }
}

/// The result of parsing `s` as a decimal column type.
pub open spec fn parse_decimal_type(s: Seq<char>) -> Result<DecimalColumnType, Seq<char>> {
    if eq_ignoring_ascii_case(s, "decimal128"@) {
        Ok(DecimalColumnType::Decimal128)
    } else if eq_ignoring_ascii_case(s, "f64"@) {
        Ok(DecimalColumnType::F64)
    } else {
        Err("Invalid decimal column type: '"@ + s + "'. Valid values are: decimal128, f64"@)
    }
}

/// The result of parsing `s` as a date column type.
pub open spec fn parse_date_type(s: Seq<char>) -> Result<DateColumnType, Seq<char>> {
    if eq_ignoring_ascii_case(s, "date32"@) {
        Ok(DateColumnType::Date32)
    } else if eq_ignoring_ascii_case(s, "timestamp_ms"@) {
        Ok(DateColumnType::TimestampMs)
    } else {
        Err("Invalid date column type: '"@ + s + "'. Valid values are: date32, timestamp_ms"@)
    }
}

/// The result of parsing `s` as a key column type.
pub open spec fn parse_key_type(s: Seq<char>) -> Result<KeyColumnType, Seq<char>> {
    if eq_ignoring_ascii_case(s, "i64"@) {
        Ok(KeyColumnType::I64)
    } else if eq_ignoring_ascii_case(s, "i32"@) {
        Ok(KeyColumnType::I32)
    } else {
        Err("Invalid key column type: '"@ + s + "'. Valid values are: i64, i32"@)
    }
}

impl std::str::FromStr for DecimalColumnType {
    type Err = String;

    /// Parses a type by name, without regard to ASCII case.
    fn from_str(s: &str) -> (r: Result<Self, String>)
        ensures
            r matches Ok(t) ==> parse_decimal_type(s@) == Ok::<DecimalColumnType, Seq<char>>(t),
            r matches Err(m) ==> parse_decimal_type(s@) == Err::<DecimalColumnType, Seq<char>>(m@),
    {
        Self::parse(s)
    }
}

impl Default for DecimalColumnType {
    /// The default: `Decimal128`.
    fn default() -> (r: Self)
        ensures
            r == DecimalColumnType::Decimal128,
    {
        DecimalColumnType::Decimal128
    }
}

impl DecimalColumnType {
    /// The type's name (`decimal128` or `f64`).
    pub fn name(&self) -> (r: &'static str)
        ensures
            r@ == decimal_type_name(*self),
    {
        match self {
            DecimalColumnType::Decimal128 => "decimal128",
            DecimalColumnType::F64 => "f64",
        }
    }

    /// Parses a type by name, without regard to ASCII case.
    pub fn parse(s: &str) -> (r: Result<Self, String>)
        ensures
            r matches Ok(v) ==> parse_decimal_type(s@) == Ok::<DecimalColumnType, Seq<char>>(v),
            r matches Err(m) ==> parse_decimal_type(s@) == Err::<DecimalColumnType, Seq<char>>(m@),
    {
        if eq_ignore_ascii_case(s, "decimal128") {
            Ok(DecimalColumnType::Decimal128)
        } else if eq_ignore_ascii_case(s, "f64") {
            Ok(DecimalColumnType::F64)
        } else {
            Err(concat3("Invalid decimal column type: '", s, "'. Valid values are: decimal128, f64"))
        }
    }
}

impl std::str::FromStr for DateColumnType {
    type Err = String;

    /// Parses a type by name, without regard to ASCII case.
    fn from_str(s: &str) -> (r: Result<Self, String>)
        ensures
            r matches Ok(v) ==> parse_date_type(s@) == Ok::<DateColumnType, Seq<char>>(v),
            r matches Err(m) ==> parse_date_type(s@) == Err::<DateColumnType, Seq<char>>(m@),
    {
        Self::parse(s)
    }
}

impl Default for DateColumnType {
    /// The default: `Date32`.
    fn default() -> (r: Self)
        ensures
            r == DateColumnType::Date32,
    {
        DateColumnType::Date32
    }
}

impl DateColumnType {
    /// The type's name (`date32` or `timestamp_ms`).
    pub fn name(&self) -> (r: &'static str)
        ensures
            r@ == date_type_name(*self),
    {
        match self {
            DateColumnType::Date32 => "date32",
            DateColumnType::TimestampMs => "timestamp_ms",
        }
    }

    /// Parses a type by name, without regard to ASCII case.
    pub fn parse(s: &str) -> (r: Result<Self, String>)
        ensures
            r matches Ok(v) ==> parse_date_type(s@) == Ok::<DateColumnType, Seq<char>>(v),
            r matches Err(m) ==> parse_date_type(s@) == Err::<DateColumnType, Seq<char>>(m@),
    {
        if eq_ignore_ascii_case(s, "date32") {
            Ok(DateColumnType::Date32)
        } else if eq_ignore_ascii_case(s, "timestamp_ms") {
            Ok(DateColumnType::TimestampMs)
        } else {
            Err(concat3("Invalid date column type: '", s, "'. Valid values are: date32, timestamp_ms"))
        }
    }
}

impl std::str::FromStr for KeyColumnType {
    type Err = String;

    /// Parses a type by name, without regard to ASCII case.
    fn from_str(s: &str) -> (r: Result<Self, String>)
        ensures
            r matches Ok(v) ==> parse_key_type(s@) == Ok::<KeyColumnType, Seq<char>>(v),
            r matches Err(m) ==> parse_key_type(s@) == Err::<KeyColumnType, Seq<char>>(m@),
    {
        Self::parse(s)
    }
}

impl Default for KeyColumnType {
    /// The default: `I64`.
    fn default() -> (r: Self)
        ensures
            r == KeyColumnType::I64,
    {
        KeyColumnType::I64
    }
}

impl KeyColumnType {
    /// The type's name (`i64` or `i32`).
    pub fn name(&self) -> (r: &'static str)
        ensures
            r@ == key_type_name(*self),
    {
        match self {
            KeyColumnType::I64 => "i64",
            KeyColumnType::I32 => "i32",
        }
    }

    /// Parses a type by name, without regard to ASCII case.
    pub fn parse(s: &str) -> (r: Result<Self, String>)
        ensures
            r matches Ok(v) ==> parse_key_type(s@) == Ok::<KeyColumnType, Seq<char>>(v),
            r matches Err(m) ==> parse_key_type(s@) == Err::<KeyColumnType, Seq<char>>(m@),
    {
        if eq_ignore_ascii_case(s, "i64") {
            Ok(KeyColumnType::I64)
        } else if eq_ignore_ascii_case(s, "i32") {
            Ok(KeyColumnType::I32)
        } else {
            Err(concat3("Invalid key column type: '", s, "'. Valid values are: i64, i32"))
        }
    }
}

impl Default for ColumnTypeConfig {
    /// The default configuration: `Decimal128` decimals and `Date32` dates.
    fn default() -> (r: Self)
        ensures
            r.decimal_type == DecimalColumnType::Decimal128,
            r.date_type == DateColumnType::Date32,
    {
        ColumnTypeConfig {
            decimal_type: DecimalColumnType::Decimal128,
            date_type: DateColumnType::Date32,
        }
    }
}

/// Parsing the name of a column type gives that type back.
pub proof fn lemma_column_type_names_round_trip(
    d: DecimalColumnType,
    t: DateColumnType,
    k: KeyColumnType,
)
    ensures
        parse_decimal_type(decimal_type_name(d)) == Ok::<DecimalColumnType, Seq<char>>(d),
        parse_date_type(date_type_name(t)) == Ok::<DateColumnType, Seq<char>>(t),
        parse_key_type(key_type_name(k)) == Ok::<KeyColumnType, Seq<char>>(k),
{
    reveal_strlit("decimal128");
    reveal_strlit("f64");
    reveal_strlit("date32");
    reveal_strlit("timestamp_ms");
    reveal_strlit("i64");
    reveal_strlit("i32");
    assert(crate::text::ascii_lower("decimal128"@) =~= "decimal128"@);
    assert(crate::text::ascii_lower("f64"@) =~= "f64"@);
    assert(crate::text::ascii_lower("date32"@) =~= "date32"@);
    assert(crate::text::ascii_lower("timestamp_ms"@) =~= "timestamp_ms"@);
    assert(crate::text::ascii_lower("i64"@) =~= "i64"@);
    assert(crate::text::ascii_lower("i32"@) =~= "i32"@);
    assert("i32"@[1] != "i64"@[1]);
}

} // verus!
