//! Rows of the TPC-DS `income_band` and `reason` tables and their DAT lines.
//!
//! A DAT line holds the row's fields, each followed by `|` (so the line ends
//! with a trailing separator); a NULL column is written as an empty field.
use crate::conversions::null_bit_set;
use crate::text::{int_decimal, push_all, push_int_decimal, push_str_chars, string_from_chars};
use vstd::prelude::*;

verus! {

/// The text of one field: the value, or nothing when the column is NULL.
pub open spec fn field_text(value: Seq<char>, null: bool) -> Seq<char> {
    if null {
        seq![]
    } else {
        value
    }
}

/// A DAT line: every field followed by `|`.
pub open spec fn dat_line(fields: Seq<Seq<char>>) -> Seq<char>
    decreases fields.len(),
{
    if fields.len() == 0 {
        seq![]
    } else {
        dat_line(fields.drop_last()) + fields.last() + seq!['|']
    }
}

/// A row's CSV line holds the same field values as its DAT line: the DAT
/// line is the CSV line written with `|` as delimiter, plus a trailing `|`.
pub proof fn lemma_dat_line_is_csv_line_with_trailing_pipe(fields: Seq<Seq<char>>)
    requires
        fields.len() >= 1,
    ensures
        dat_line(fields) == crate::csv::join_with(fields, '|') + seq!['|'],
    decreases fields.len(),
{
    if fields.len() == 1 {
        assert(fields.drop_last() =~= Seq::<Seq<char>>::empty());
        assert(dat_line(fields.drop_last()) =~= Seq::<char>::empty());
        assert(dat_line(fields) =~= fields[0] + seq!['|']);
    } else {
        lemma_dat_line_is_csv_line_with_trailing_pipe(fields.drop_last());
        assert(dat_line(fields) =~= crate::csv::join_with(fields, '|') + seq!['|']);
    }
}

/// The texts of a list of character vectors.
pub open spec fn field_views(v: Seq<Vec<char>>) -> Seq<Seq<char>> {
    v.map_values(|f: Vec<char>| f@)
}

/// The DAT line of `fields`: every field followed by `|`.
pub fn dat_join(fields: &Vec<Vec<char>>) -> (r: Vec<char>)
    ensures
        r@ == dat_line(field_views(fields@)),
{
    let ghost views = field_views(fields@);
    let mut out: Vec<char> = Vec::new();
    let mut i: usize = 0;
    while i < fields.len()
        invariant
            i <= fields.len(),
            views == field_views(fields@),
            out@ == dat_line(views.subrange(0, i as int)),
        decreases fields.len() - i,
    {
        push_all(&mut out, &fields[i]);
        out.push('|');
        assert(views.subrange(0, i + 1).drop_last() =~= views.subrange(0, i as int));
        assert(out@ =~= dat_line(views.subrange(0, i + 1)));
        i = i + 1;
    }
    assert(views.subrange(0, fields.len() as int) =~= views);
    out
}

/// Whether the null bitmap marks column `column_position` as NULL.
pub open spec fn column_is_null(null_bit_map: i64, column_position: i32) -> bool {
    null_bit_set(null_bit_map, column_position as u32)
}

/// Appends one field (the decimal value, or nothing when `null`) to `out`.
fn push_int_field(out: &mut Vec<char>, value: i64, null: bool)
    ensures
        final(out)@ == old(out)@ + field_text(int_decimal(value as int), null),
{
    if !null {
        push_int_decimal(out, value);
    } else {
        assert(old(out)@ + seq![] =~= old(out)@);
    }
}

/// Appends one field (the text, or nothing when `null`) to `out`.
fn push_str_field(out: &mut Vec<char>, value: &str, null: bool)
    ensures
        final(out)@ == old(out)@ + field_text(value@, null),
{
    if !null {
        push_str_chars(out, value);
    } else {
        assert(old(out)@ + seq![] =~= old(out)@);
    }
}

/// Tests bit `column_position` of `null_bit_map`.
fn null_bit(null_bit_map: i64, column_position: i32) -> (r: bool)
    requires
        0 <= column_position < 64,
    ensures
        r == column_is_null(null_bit_map, column_position),
{
    let shifted: i64 = null_bit_map >> (column_position as u32);
    assert(((shifted & 1) == 1) == ((shifted & 1) != 0)) by (bit_vector);
    (shifted & 1) == 1
}

/// Income band table row.
#[derive(Clone, Debug)]
pub struct IncomeBandRow {
    null_bit_map: i64,
    ib_income_band_sk: i32,
    ib_lower_bound: i32,
    ib_upper_bound: i32,
}

impl IncomeBandRow {
    /// A row with the given null bitmap and column values.
    pub fn new(
        null_bit_map: i64,
        ib_income_band_sk: i32,
        ib_lower_bound: i32,
        ib_upper_bound: i32,
    ) -> (r: Self)
        ensures
            r.spec_null_bit_map() == null_bit_map,
            r.spec_income_band_sk() == ib_income_band_sk,
            r.spec_lower_bound() == ib_lower_bound,
            r.spec_upper_bound() == ib_upper_bound,
    {
        IncomeBandRow { null_bit_map, ib_income_band_sk, ib_lower_bound, ib_upper_bound }
    }

    /// The null bitmap: bit `i` set means column `i` is NULL.
    pub closed spec fn spec_null_bit_map(&self) -> i64 {
        self.null_bit_map
    }

    /// `ib_income_band_sk`.
    pub closed spec fn spec_income_band_sk(&self) -> i32 {
        self.ib_income_band_sk
    }

    /// `ib_lower_bound`.
    pub closed spec fn spec_lower_bound(&self) -> i32 {
        self.ib_lower_bound
    }

    /// `ib_upper_bound`.
    pub closed spec fn spec_upper_bound(&self) -> i32 {
        self.ib_upper_bound
    }

    /// The field texts of the row, in column order.
    pub open spec fn spec_fields(&self) -> Seq<Seq<char>> {
        seq![
            field_text(
                int_decimal(self.spec_income_band_sk() as int),
                column_is_null(self.spec_null_bit_map(), 0),
            ),
            field_text(
                int_decimal(self.spec_lower_bound() as int),
                column_is_null(self.spec_null_bit_map(), 1),
            ),
            field_text(
                int_decimal(self.spec_upper_bound() as int),
                column_is_null(self.spec_null_bit_map(), 2),
            ),
        ]
    }

    /// Whether the null bitmap marks column `column_position` as NULL.
    pub fn should_be_null(&self, column_position: i32) -> (r: bool)
        requires
            0 <= column_position < 64,
        ensures
            r == column_is_null(self.spec_null_bit_map(), column_position),
    {
        null_bit(self.null_bit_map, column_position)
    }

    /// The null bitmap.
    pub fn null_bit_map(&self) -> (r: i64)
        ensures
            r == self.spec_null_bit_map(),
    {
        self.null_bit_map
    }

    /// `ib_income_band_sk`.
    pub fn get_ib_income_band_sk(&self) -> (r: i32)
        ensures
            r == self.spec_income_band_sk(),
    {
        self.ib_income_band_sk
    }

    /// `ib_lower_bound`.
    pub fn get_ib_lower_bound(&self) -> (r: i32)
        ensures
            r == self.spec_lower_bound(),
    {
        self.ib_lower_bound
    }

    /// `ib_upper_bound`.
    pub fn get_ib_upper_bound(&self) -> (r: i32)
        ensures
            r == self.spec_upper_bound(),
    {
        self.ib_upper_bound
    }

    /// The field texts of the row, in column order.
    pub fn field_texts(&self) -> (v: Vec<Vec<char>>)
        ensures
            field_views(v@) == self.spec_fields(),
    {
        let mut f0: Vec<char> = Vec::new();
        push_int_field(&mut f0, self.ib_income_band_sk as i64, null_bit(self.null_bit_map, 0));
        let mut f1: Vec<char> = Vec::new();
        push_int_field(&mut f1, self.ib_lower_bound as i64, null_bit(self.null_bit_map, 1));
        let mut f2: Vec<char> = Vec::new();
        push_int_field(&mut f2, self.ib_upper_bound as i64, null_bit(self.null_bit_map, 2));
        let v = vec![f0, f1, f2];
        assert(field_views(v@) =~= self.spec_fields());
        v
    }

    /// The row as a DAT line: `|`-separated fields with a trailing `|` and
    /// empty fields for NULL columns (no newline).
    pub fn to_dat_line(&self) -> (r: String)
        ensures
            r@ == dat_line(self.spec_fields()),
    {
        let out = dat_join(&self.field_texts());
        string_from_chars(&out)
    }
}

/// Reason table row.
#[derive(Clone, Debug)]
pub struct ReasonRow {
    null_bit_map: i64,
    r_reason_sk: i64,
    r_reason_id: String,
    r_reason_desc: String,
}

impl ReasonRow {
    /// A row with the given null bitmap and column values.
    pub fn new(null_bit_map: i64, r_reason_sk: i64, r_reason_id: String, r_reason_desc: String) -> (r:
        Self)
        ensures
            r.spec_null_bit_map() == null_bit_map,
            r.spec_reason_sk() == r_reason_sk,
            r.spec_reason_id() == r_reason_id@,
            r.spec_reason_desc() == r_reason_desc@,
    {
        ReasonRow { null_bit_map, r_reason_sk, r_reason_id, r_reason_desc }
    }

    /// The null bitmap: bit `i` set means column `i` is NULL.
    pub closed spec fn spec_null_bit_map(&self) -> i64 {
        self.null_bit_map
    }

    /// `r_reason_sk`.
    pub closed spec fn spec_reason_sk(&self) -> i64 {
        self.r_reason_sk
    }

    /// `r_reason_id`.
    pub closed spec fn spec_reason_id(&self) -> Seq<char> {
        self.r_reason_id@
    }

    /// `r_reason_desc`.
    pub closed spec fn spec_reason_desc(&self) -> Seq<char> {
        self.r_reason_desc@
    }

    /// The field texts of the row, in column order.
    pub open spec fn spec_fields(&self) -> Seq<Seq<char>> {
        seq![
            field_text(
                int_decimal(self.spec_reason_sk() as int),
                column_is_null(self.spec_null_bit_map(), 0),
            ),
            field_text(self.spec_reason_id(), column_is_null(self.spec_null_bit_map(), 1)),
            field_text(self.spec_reason_desc(), column_is_null(self.spec_null_bit_map(), 2)),
        ]
    }

    /// Whether the null bitmap marks column `column_position` as NULL.
    pub fn should_be_null(&self, column_position: i32) -> (r: bool)
        requires
            0 <= column_position < 64,
        ensures
            r == column_is_null(self.spec_null_bit_map(), column_position),
    {
        null_bit(self.null_bit_map, column_position)
    }

    /// The null bitmap.
    pub fn null_bit_map(&self) -> (r: i64)
        ensures
            r == self.spec_null_bit_map(),
    {
        self.null_bit_map
    }

    /// `r_reason_sk`.
    pub fn get_r_reason_sk(&self) -> (r: i64)
        ensures
            r == self.spec_reason_sk(),
    {
        self.r_reason_sk
    }

    /// `r_reason_id`.
    pub fn get_r_reason_id(&self) -> (r: &str)
        ensures
            r@ == self.spec_reason_id(),
    {
        self.r_reason_id.as_str()
    }

    /// `r_reason_desc`.
    pub fn get_r_reason_desc(&self) -> (r: &str)
        ensures
            r@ == self.spec_reason_desc(),
    {
        self.r_reason_desc.as_str()
    }

    /// The field texts of the row, in column order.
    pub fn field_texts(&self) -> (v: Vec<Vec<char>>)
        ensures
            field_views(v@) == self.spec_fields(),
    {
        let mut f0: Vec<char> = Vec::new();
        push_int_field(&mut f0, self.r_reason_sk, null_bit(self.null_bit_map, 0));
        let mut f1: Vec<char> = Vec::new();
        push_str_field(&mut f1, self.r_reason_id.as_str(), null_bit(self.null_bit_map, 1));
        let mut f2: Vec<char> = Vec::new();
        push_str_field(&mut f2, self.r_reason_desc.as_str(), null_bit(self.null_bit_map, 2));
        let v = vec![f0, f1, f2];
        assert(field_views(v@) =~= self.spec_fields());
        v
    }

    /// The row as a DAT line: `|`-separated fields with a trailing `|` and
    /// empty fields for NULL columns (no newline).
    pub fn to_dat_line(&self) -> (r: String)
        ensures
            r@ == dat_line(self.spec_fields()),
    {
        let out = dat_join(&self.field_texts());
        string_from_chars(&out)
    }
}

} // verus!
