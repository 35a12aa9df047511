//! Parquet writer options chosen on the command line: the format version,
//! and per-column encodings given as `COLUMN=ENCODING`.
use crate::text::{
    concat3, eq_ignore_ascii_case, eq_ignoring_ascii_case, push_all, str_chars, string_from_chars,
};
use vstd::prelude::*;

verus! {

/// Parquet format version to write.
#[derive(Clone, Copy, Debug, PartialEq, Eq, Structural)]
pub enum ParquetVersion {
    /// Parquet format version 1 (default, broader compatibility)
    V1,
    /// Parquet format version 2 (Data Page V2)
    V2,
}

/// A Parquet column encoding, named as Parquet names it.
#[allow(non_camel_case_types)]
#[derive(Clone, Copy, Debug, PartialEq, Eq, Structural, Hash)]
pub enum Encoding {
    PLAIN,
    PLAIN_DICTIONARY,
    RLE,
    BIT_PACKED,
    DELTA_BINARY_PACKED,
    DELTA_LENGTH_BYTE_ARRAY,
    DELTA_BYTE_ARRAY,
    RLE_DICTIONARY,
    BYTE_STREAM_SPLIT,
    ALP,
}

/// The name of a format version.
pub open spec fn parquet_version_name(v: ParquetVersion) -> Seq<char> {
    match v {
        ParquetVersion::V1 => "v1"@,
        ParquetVersion::V2 => "v2"@,
    }
}

/// The result of parsing `s` as a format version: `v1`, `1` or `1.0` for
/// version 1 and `v2`, `2` or `2.0` for version 2, without regard to ASCII case.
pub open spec fn parse_parquet_version(s: Seq<char>) -> Result<ParquetVersion, Seq<char>> {
    if eq_ignoring_ascii_case(s, "v1"@) || eq_ignoring_ascii_case(s, "1"@)
        || eq_ignoring_ascii_case(s, "1.0"@) {
        Ok(ParquetVersion::V1)
    } else if eq_ignoring_ascii_case(s, "v2"@) || eq_ignoring_ascii_case(s, "2"@)
        || eq_ignoring_ascii_case(s, "2.0"@) {
        Ok(ParquetVersion::V2)
    } else {
        Err("Invalid parquet version: "@ + s + ". Valid versions are: v1, v2"@)
    }
}

impl Default for ParquetVersion {
    /// The default: version 1.
    fn default() -> (r: Self)
        ensures
            r == ParquetVersion::V1,
    {
        ParquetVersion::V1
    }
}

impl std::str::FromStr for ParquetVersion {
    type Err = String;

    /// Parses a format version.
    fn from_str(s: &str) -> (r: Result<Self, String>)
        ensures
            r matches Ok(v) ==> parse_parquet_version(s@) == Ok::<ParquetVersion, Seq<char>>(v),
            r matches Err(m) ==> parse_parquet_version(s@) == Err::<ParquetVersion, Seq<char>>(m@),
    {
        Self::parse(s)
    }
}

impl ParquetVersion {
    /// The version's name (`v1` or `v2`).
    pub fn name(&self) -> (r: &'static str)
        ensures
            r@ == parquet_version_name(*self),
    {
        match self {
            ParquetVersion::V1 => "v1",
            ParquetVersion::V2 => "v2",
        }
    }

    /// Parses a format version.
    pub fn parse(s: &str) -> (r: Result<Self, String>)
        ensures
            r matches Ok(v) ==> parse_parquet_version(s@) == Ok::<ParquetVersion, Seq<char>>(v),
            r matches Err(m) ==> parse_parquet_version(s@) == Err::<ParquetVersion, Seq<char>>(
                m@,
            ),
    {
        if eq_ignore_ascii_case(s, "v1") || eq_ignore_ascii_case(s, "1") || eq_ignore_ascii_case(
            s,
            "1.0",
        ) {
            Ok(ParquetVersion::V1)
        } else if eq_ignore_ascii_case(s, "v2") || eq_ignore_ascii_case(s, "2")
            || eq_ignore_ascii_case(s, "2.0") {
            Ok(ParquetVersion::V2)
        } else {
            Err(concat3("Invalid parquet version: ", s, ". Valid versions are: v1, v2"))
        }
    }
}

/// Parsing the name of a format version gives that version back.
pub proof fn lemma_parquet_version_round_trip(v: ParquetVersion)
    ensures
        parse_parquet_version(parquet_version_name(v)) == Ok::<ParquetVersion, Seq<char>>(v),
{
    reveal_strlit("v1");
    reveal_strlit("v2");
    reveal_strlit("1");
    reveal_strlit("1.0");
    reveal_strlit("2");
    reveal_strlit("2.0");
    assert(crate::text::ascii_lower("v1"@) =~= "v1"@);
    assert(crate::text::ascii_lower("v2"@) =~= "v2"@);
    assert(crate::text::ascii_lower("v2"@)[1] != crate::text::ascii_lower("v1"@)[1]);
}

/// The name of an encoding, in upper case.
pub open spec fn encoding_name(e: Encoding) -> Seq<char> {
    match e {
        Encoding::PLAIN => "PLAIN"@,
        Encoding::PLAIN_DICTIONARY => "PLAIN_DICTIONARY"@,
        Encoding::RLE => "RLE"@,
        Encoding::BIT_PACKED => "BIT_PACKED"@,
        Encoding::DELTA_BINARY_PACKED => "DELTA_BINARY_PACKED"@,
        Encoding::DELTA_LENGTH_BYTE_ARRAY => "DELTA_LENGTH_BYTE_ARRAY"@,
        Encoding::DELTA_BYTE_ARRAY => "DELTA_BYTE_ARRAY"@,
        Encoding::RLE_DICTIONARY => "RLE_DICTIONARY"@,
        Encoding::BYTE_STREAM_SPLIT => "BYTE_STREAM_SPLIT"@,
        Encoding::ALP => "ALP"@,
    }
}

/// The encoding that Parquet reads from `s`: its name written all in upper
/// case or all in lower case.
pub open spec fn encoding_named(s: Seq<char>) -> Option<Encoding> {
    if s == "PLAIN"@ || s == "plain"@ {
        Some(Encoding::PLAIN)
    } else if s == "PLAIN_DICTIONARY"@ || s == "plain_dictionary"@ {
        Some(Encoding::PLAIN_DICTIONARY)
    } else if s == "RLE"@ || s == "rle"@ {
        Some(Encoding::RLE)
    } else if s == "BIT_PACKED"@ || s == "bit_packed"@ {
        Some(Encoding::BIT_PACKED)
    } else if s == "DELTA_BINARY_PACKED"@ || s == "delta_binary_packed"@ {
        Some(Encoding::DELTA_BINARY_PACKED)
    } else if s == "DELTA_LENGTH_BYTE_ARRAY"@ || s == "delta_length_byte_array"@ {
        Some(Encoding::DELTA_LENGTH_BYTE_ARRAY)
    } else if s == "DELTA_BYTE_ARRAY"@ || s == "delta_byte_array"@ {
        Some(Encoding::DELTA_BYTE_ARRAY)
    } else if s == "RLE_DICTIONARY"@ || s == "rle_dictionary"@ {
        Some(Encoding::RLE_DICTIONARY)
    } else if s == "BYTE_STREAM_SPLIT"@ || s == "byte_stream_split"@ {
        Some(Encoding::BYTE_STREAM_SPLIT)
    } else if s == "ALP"@ || s == "alp"@ {
        Some(Encoding::ALP)
    } else {
        None
    }
}

impl Encoding {
    /// The encoding's name, in upper case.
    pub fn name(&self) -> (r: &'static str)
        ensures
            r@ == encoding_name(*self),
    {
        match self {
            Encoding::PLAIN => "PLAIN",
            Encoding::PLAIN_DICTIONARY => "PLAIN_DICTIONARY",
            Encoding::RLE => "RLE",
            Encoding::BIT_PACKED => "BIT_PACKED",
            Encoding::DELTA_BINARY_PACKED => "DELTA_BINARY_PACKED",
            Encoding::DELTA_LENGTH_BYTE_ARRAY => "DELTA_LENGTH_BYTE_ARRAY",
            Encoding::DELTA_BYTE_ARRAY => "DELTA_BYTE_ARRAY",
            Encoding::RLE_DICTIONARY => "RLE_DICTIONARY",
            Encoding::BYTE_STREAM_SPLIT => "BYTE_STREAM_SPLIT",
            Encoding::ALP => "ALP",
        }
    }
}

/// The number Parquet assigns to an encoding in its file format.
pub open spec fn encoding_code(e: Encoding) -> i32 {
    match e {
        Encoding::PLAIN => 0,
        Encoding::PLAIN_DICTIONARY => 2,
        Encoding::RLE => 3,
        Encoding::BIT_PACKED => 4,
        Encoding::DELTA_BINARY_PACKED => 5,
        Encoding::DELTA_LENGTH_BYTE_ARRAY => 6,
        Encoding::DELTA_BYTE_ARRAY => 7,
        Encoding::RLE_DICTIONARY => 8,
        Encoding::BYTE_STREAM_SPLIT => 9,
        Encoding::ALP => 10,
    }
}

impl Encoding {
    /// The encoding with Parquet's number `code`, if any.
    pub fn from_code(code: i32) -> (r: Option<Encoding>)
        ensures
            r matches Some(e) ==> encoding_code(e) == code,
            r is None ==> forall|e: Encoding| encoding_code(e) != code,
    {
        match code {
            0 => Some(Encoding::PLAIN),
            2 => Some(Encoding::PLAIN_DICTIONARY),
            3 => Some(Encoding::RLE),
            4 => Some(Encoding::BIT_PACKED),
            5 => Some(Encoding::DELTA_BINARY_PACKED),
            6 => Some(Encoding::DELTA_LENGTH_BYTE_ARRAY),
            7 => Some(Encoding::DELTA_BYTE_ARRAY),
            8 => Some(Encoding::RLE_DICTIONARY),
            9 => Some(Encoding::BYTE_STREAM_SPLIT),
            10 => Some(Encoding::ALP),
            _ => None,
        }
    }
}

/// Reads an encoding name with `parquet::basic::Encoding::from_str`, giving
/// the encoding's number in the Parquet format.
///
/// Trusted: the parquet crate matches the name written all in upper case or
/// all in lower case, and otherwise fails with the general error
/// `unknown encoding: <s>`, which it displays after `Parquet error: `.
#[verifier::external_body]
fn parquet_encoding_code(s: &str) -> (r: Result<i32, String>)
    ensures
        r matches Ok(c) ==> encoding_named(s@) matches Some(e) && encoding_code(e) == c,
        r matches Err(m) ==> encoding_named(s@) is None && m@ == "Parquet error: unknown encoding: "@
            + s@,
{
    match <parquet::basic::Encoding as std::str::FromStr>::from_str(s) {
        Ok(e) => Ok(e as i32),
        Err(e) => Err(e.to_string()),
    }
}

/// Why `--column-encoding` cannot use `e`, if it cannot: dictionary encoding
/// is a writer setting rather than a column encoding, and `BIT_PACKED` is not
/// supported for writing.
pub open spec fn unsupported_encoding_error(e: Encoding) -> Option<Seq<char>> {
    match e {
        Encoding::PLAIN_DICTIONARY | Encoding::RLE_DICTIONARY => Some(
            "encoding "@ + encoding_name(e)
                + " cannot be set with --column-encoding; dictionary encoding is the writer default. Use a non-dictionary encoding such as PLAIN or DELTA_LENGTH_BYTE_ARRAY"@,
        ),
        Encoding::BIT_PACKED => Some("encoding BIT_PACKED is not supported for Parquet writing"@),
        _ => None,
    }
}

/// Rejects an encoding `--column-encoding` cannot use.
pub fn reject_unsupported_encoding(encoding: Encoding) -> (r: Result<(), String>)
    ensures
        r is Ok <==> unsupported_encoding_error(encoding) is None,
        r matches Err(m) ==> unsupported_encoding_error(encoding) == Some(m@),
{
    match encoding {
        Encoding::PLAIN_DICTIONARY | Encoding::RLE_DICTIONARY => Err(
            concat3(
                "encoding ",
                encoding.name(),
                " cannot be set with --column-encoding; dictionary encoding is the writer default. Use a non-dictionary encoding such as PLAIN or DELTA_LENGTH_BYTE_ARRAY",
            ),
        ),
        Encoding::BIT_PACKED => Err(
            String::from_str("encoding BIT_PACKED is not supported for Parquet writing"),
        ),
        _ => Ok(()),
    }
}

/// Whether `c` is white space (the Unicode `White_Space` property, as
/// `char::is_whitespace` decides it).
pub open spec fn is_white_space(c: char) -> bool {
    ||| ('\u{9}' <= c && c <= '\u{d}')
    ||| c == ' '
    ||| c == '\u{85}'
    ||| c == '\u{a0}'
    ||| c == '\u{1680}'
    ||| ('\u{2000}' <= c && c <= '\u{200a}')
    ||| c == '\u{2028}'
    ||| c == '\u{2029}'
    ||| c == '\u{202f}'
    ||| c == '\u{205f}'
    ||| c == '\u{3000}'
}

/// `s` without its leading white space.
pub open spec fn trim_start(s: Seq<char>) -> Seq<char>
    decreases s.len(),
{
    if s.len() > 0 && is_white_space(s[0]) {
        trim_start(s.subrange(1, s.len() as int))
    } else {
        s
    }
}

/// `s` without its trailing white space.
pub open spec fn trim_end(s: Seq<char>) -> Seq<char>
    decreases s.len(),
{
    if s.len() > 0 && is_white_space(s.last()) {
        trim_end(s.drop_last())
    } else {
        s
    }
}

/// `s` without leading and trailing white space.
pub open spec fn trimmed(s: Seq<char>) -> Seq<char> {
    trim_end(trim_start(s))
}

/// The position of the first `c` in `s`, if any.
pub open spec fn find_char(s: Seq<char>, c: char) -> Option<int>
    decreases s.len(),
{
    if s.len() == 0 {
        None
    } else if s[0] == c {
        Some(0)
    } else {
        match find_char(s.subrange(1, s.len() as int), c) {
            Some(i) => Some(i + 1),
            None => None,
        }
    }
}

/// The message for a `--column-encoding` value that is not `COLUMN=ENCODING`.
pub open spec fn expected_pair_message(s: Seq<char>) -> Seq<char> {
    "expected COLUMN=ENCODING, got: '"@ + s + "'"@
}

/// The result of reading `s` as `COLUMN=ENCODING`: split at the first `=`,
/// both sides trimmed and non-empty, the encoding named as Parquet names it.
pub open spec fn parse_encoding_pair(s: Seq<char>) -> Result<(Seq<char>, Encoding), Seq<char>> {
    match find_char(s, '=') {
        None => Err(expected_pair_message(s)),
        Some(k) => {
            let name = trimmed(s.subrange(0, k));
            let enc = trimmed(s.subrange(k + 1, s.len() as int));
            if name.len() == 0 || enc.len() == 0 {
                Err(expected_pair_message(s))
            } else {
                match encoding_named(enc) {
                    Some(e) => Ok((name, e)),
                    None => Err("Parquet error: unknown encoding: "@ + enc),
                }
            }
        }
    }
}

/// Whether `c` is white space.
fn is_white_space_char(c: char) -> (r: bool)
    ensures
        r == is_white_space(c),
{
    ('\u{9}' <= c && c <= '\u{d}') || c == ' ' || c == '\u{85}' || c == '\u{a0}' || c
        == '\u{1680}' || ('\u{2000}' <= c && c <= '\u{200a}') || c == '\u{2028}' || c
        == '\u{2029}' || c == '\u{202f}' || c == '\u{205f}' || c == '\u{3000}'
}

/// The characters `v[from..to]` without leading and trailing white space.
fn trim_range(v: &Vec<char>, from: usize, to: usize) -> (r: Vec<char>)
    requires
        from <= to <= v.len(),
    ensures
        r@ == trimmed(v@.subrange(from as int, to as int)),
{
    let ghost s = v@.subrange(from as int, to as int);
    let mut i = from;
    while i < to && is_white_space_char(v[i])
        invariant
            from <= i <= to <= v.len(),
            s == v@.subrange(from as int, to as int),
            trim_start(s) == trim_start(v@.subrange(i as int, to as int)),
        decreases to - i,
    {
        assert(v@.subrange(i as int, to as int).subrange(1, to - i) =~= v@.subrange(
            i + 1,
            to as int,
        ));
        i = i + 1;
    }
    let ghost t = v@.subrange(i as int, to as int);
    assert(trim_start(s) == t);
    let mut j = to;
    while j > i && is_white_space_char(v[j - 1])
        invariant
            from <= i <= j <= to <= v.len(),
            t == v@.subrange(i as int, to as int),
            trim_end(t) == trim_end(v@.subrange(i as int, j as int)),
        decreases j - i,
    {
        assert(v@.subrange(i as int, j as int).drop_last() =~= v@.subrange(i as int, j - 1));
        j = j - 1;
    }
    let mut out: Vec<char> = Vec::new();
    let mut k = i;
    while k < j
        invariant
            i <= k <= j <= v.len(),
            out@ == v@.subrange(i as int, k as int),
        decreases j - k,
    {
        out.push(v[k]);
        k = k + 1;
        assert(out@ =~= v@.subrange(i as int, k as int));
    }
    out
}

/// Reads `s` as `COLUMN=ENCODING`.
pub fn parse_column_encoding_pair(s: &str) -> (r: Result<(String, Encoding), String>)
    ensures
        r matches Ok(p) ==> parse_encoding_pair(s@) == Ok::<(Seq<char>, Encoding), Seq<char>>(
            (p.0@, p.1),
        ),
        r matches Err(m) ==> parse_encoding_pair(s@) == Err::<(Seq<char>, Encoding), Seq<char>>(
            m@,
        ),
{
    let chars = str_chars(s);
    let mut k: usize = 0;
    assert(s@.subrange(0, s@.len() as int) =~= s@);
    while k < chars.len() && chars[k] != '='
        invariant
            chars@ == s@,
            k <= chars.len(),
            forall|j: int| 0 <= j < k ==> s@[j] != '=',
            find_char(s@, '=') == (match find_char(s@.subrange(k as int, s@.len() as int), '=') {
                Some(i) => Some(i + k),
                None => None,
            }),
        decreases chars.len() - k,
    {
        assert(s@.subrange(k as int, s@.len() as int).subrange(1, s@.len() - k) =~= s@.subrange(
            k + 1,
            s@.len() as int,
        ));
        k = k + 1;
    }
    if k == chars.len() {
        assert(s@.subrange(k as int, s@.len() as int) =~= Seq::<char>::empty());
        return Err(concat3("expected COLUMN=ENCODING, got: '", s, "'"));
    }
    assert(find_char(s@, '=') == Some(k as int));
    let name = trim_range(&chars, 0, k);
    let enc = trim_range(&chars, k + 1, chars.len());
    if name.len() == 0 || enc.len() == 0 {
        return Err(concat3("expected COLUMN=ENCODING, got: '", s, "'"));
    }
    let enc_text = string_from_chars(&enc);
    match parquet_encoding_code(enc_text.as_str()) {
        Ok(code) => {
            let e = Encoding::from_code(code).unwrap();
            Ok((string_from_chars(&name), e))
        },
        Err(m) => Err(m),
    }
}

/// The column names and encodings of a list of `COLUMN=ENCODING` settings.
pub open spec fn encoding_settings(v: Seq<(String, Encoding)>) -> Seq<(Seq<char>, Encoding)> {
    v.map_values(|p: (String, Encoding)| (p.0@, p.1))
}

/// The names of a list of column names.
pub open spec fn column_names(v: Seq<String>) -> Seq<Seq<char>> {
    v.map_values(|c: String| c@)
}

/// The settings whose column is one of `columns`, in their given order.
pub open spec fn settings_for_columns(
    settings: Seq<(Seq<char>, Encoding)>,
    columns: Seq<Seq<char>>,
) -> Seq<(Seq<char>, Encoding)>
    decreases settings.len(),
{
    if settings.len() == 0 {
        seq![]
    } else if columns.contains(settings.last().0) {
        settings_for_columns(settings.drop_last(), columns).push(settings.last())
    } else {
        settings_for_columns(settings.drop_last(), columns)
    }
}

/// Whether some table of `tables` (each given by its column names) has the column `c`.
pub open spec fn in_any_table(tables: Seq<Seq<Seq<char>>>, c: Seq<char>) -> bool {
    exists|t: int| 0 <= t < tables.len() && #[trigger] tables[t].contains(c)
}

/// The message for a `--column-encoding` column that no selected table has.
pub open spec fn column_not_found_message(c: Seq<char>) -> Seq<char> {
    "column '"@ + c + "' for --column-encoding not found in any selected table"@
}

/// The settings measured against the selected tables: the first setting
/// (in order) that names an unsupported encoding, or a column that no table
/// has, gives the error.
pub open spec fn check_settings(
    settings: Seq<(Seq<char>, Encoding)>,
    tables: Seq<Seq<Seq<char>>>,
) -> Result<(), Seq<char>>
    decreases settings.len(),
{
    if settings.len() == 0 {
        Ok(())
    } else {
        match unsupported_encoding_error(settings[0].1) {
            Some(m) => Err(m),
            None => if in_any_table(tables, settings[0].0) {
                check_settings(settings.subrange(1, settings.len() as int), tables)
            } else {
                Err(column_not_found_message(settings[0].0))
            },
        }
    }
}

/// Whether `name` is one of `columns`.
pub fn has_column(columns: &Vec<String>, name: &String) -> (r: bool)
    ensures
        r == column_names(columns@).contains(name@),
{
    let ghost names = column_names(columns@);
    let mut i: usize = 0;
    while i < columns.len()
        invariant
            i <= columns.len(),
            names == column_names(columns@),
            forall|j: int| 0 <= j < i ==> names[j] != name@,
        decreases columns.len() - i,
    {
        if columns[i] == *name {
            assert(names[i as int] == name@);
            return true;
        }
        i = i + 1;
    }
    false
}

/// Keeps only the settings whose column is one of `columns`.
pub fn encodings_for_columns(columns: &Vec<String>, encodings: &Vec<(String, Encoding)>) -> (r: Vec<
    (String, Encoding),
>)
    ensures
        encoding_settings(r@) == settings_for_columns(
            encoding_settings(encodings@),
            column_names(columns@),
        ),
{
    let ghost all = encoding_settings(encodings@);
    let mut out: Vec<(String, Encoding)> = Vec::new();
    let mut i: usize = 0;
    while i < encodings.len()
        invariant
            i <= encodings.len(),
            all == encoding_settings(encodings@),
            encoding_settings(out@) == settings_for_columns(
                all.subrange(0, i as int),
                column_names(columns@),
            ),
        decreases encodings.len() - i,
    {
        assert(all.subrange(0, i + 1).drop_last() =~= all.subrange(0, i as int));
        if has_column(columns, &encodings[i].0) {
            out.push((encodings[i].0.clone(), encodings[i].1));
            assert(encoding_settings(out@) =~= encoding_settings(out@.drop_last()).push(all[i as int]));
        }
        i = i + 1;
    }
    assert(all.subrange(0, encodings.len() as int) =~= all);
    out
}

/// Checks each setting against the selected tables (each given by its
/// column names): its encoding must be one `--column-encoding` can use and
/// its column must exist in at least one table. A column that only some
/// tables have is accepted.
pub fn validate_encodings_for_tables(
    tables: &Vec<Vec<String>>,
    encodings: &Vec<(String, Encoding)>,
) -> (r: Result<(), String>)
    ensures
        r is Ok <==> check_settings(
            encoding_settings(encodings@),
            tables@.map_values(|t: Vec<String>| column_names(t@)),
        ) is Ok,
        r matches Err(m) ==> check_settings(
            encoding_settings(encodings@),
            tables@.map_values(|t: Vec<String>| column_names(t@)),
        ) == Err::<(), Seq<char>>(m@),
{
    let ghost all = encoding_settings(encodings@);
    let ghost cols = tables@.map_values(|t: Vec<String>| column_names(t@));
    let mut i: usize = 0;
    assert(all.subrange(0, all.len() as int) =~= all);
    while i < encodings.len()
        invariant
            i <= encodings.len(),
            all == encoding_settings(encodings@),
            cols == tables@.map_values(|t: Vec<String>| column_names(t@)),
            check_settings(all, cols) == check_settings(
                all.subrange(i as int, all.len() as int),
                cols,
            ),
        decreases encodings.len() - i,
    {
        let ghost rest = all.subrange(i as int, all.len() as int);
        assert(rest[0] == all[i as int]);
        assert(rest.subrange(1, rest.len() as int) =~= all.subrange(i + 1, all.len() as int));
        match reject_unsupported_encoding(encodings[i].1) {
            Err(m) => {
                return Err(m);
            },
            Ok(()) => {},
        }
        let mut found = false;
        let mut t: usize = 0;
        while t < tables.len()
            invariant
                t <= tables.len(),
                i < encodings.len(),
                cols == tables@.map_values(|t: Vec<String>| column_names(t@)),
                all == encoding_settings(encodings@),
                found == exists|u: int| 0 <= u < t && #[trigger] cols[u].contains(all[i as int].0),
            decreases tables.len() - t,
        {
            if has_column(&tables[t], &encodings[i].0) {
                assert(cols[t as int].contains(all[i as int].0));
                found = true;
            }
            t = t + 1;
        }
        if !found {
            return Err(concat3(
                "column '",
                encodings[i].0.as_str(),
                "' for --column-encoding not found in any selected table",
            ));
        }
        i = i + 1;
    }
    assert(all.subrange(all.len() as int, all.len() as int) =~= Seq::<(Seq<char>, Encoding)>::empty());
    Ok(())
}

/// The position of the first column named `name` in `columns`, if any.
pub open spec fn column_position(columns: Seq<Seq<char>>, name: Seq<char>) -> Option<int>
    decreases columns.len(),
{
    if columns.len() == 0 {
        None
    } else if columns[0] == name {
        Some(0)
    } else {
        match column_position(columns.subrange(1, columns.len() as int), name) {
            Some(i) => Some(i + 1),
            None => None,
        }
    }
}

/// The message for a `--column-encoding` column that the file's schema lacks.
pub open spec fn unknown_column_message(c: Seq<char>) -> Seq<char> {
    "unknown column '"@ + c + "' for --column-encoding"@
}

/// The settings resolved against the columns of one file's schema: for
/// each setting in order, its column's position and its encoding; the first
/// setting with an unsupported encoding, or a column the schema lacks,
/// gives the error instead.
pub open spec fn resolve_settings(
    settings: Seq<(Seq<char>, Encoding)>,
    columns: Seq<Seq<char>>,
) -> Result<Seq<(int, Encoding)>, Seq<char>>
    decreases settings.len(),
{
    if settings.len() == 0 {
        Ok(seq![])
    } else {
        match unsupported_encoding_error(settings[0].1) {
            Some(m) => Err(m),
            None => match column_position(columns, settings[0].0) {
                None => Err(unknown_column_message(settings[0].0)),
                Some(pos) => match resolve_settings(
                    settings.subrange(1, settings.len() as int),
                    columns,
                ) {
                    Ok(rest) => Ok(seq![(pos, settings[0].1)] + rest),
                    Err(m) => Err(m),
                },
            },
        }
    }
}

/// The position of the first column named `name`, if any.
pub fn find_column(columns: &Vec<String>, name: &String) -> (r: Option<usize>)
    ensures
        r matches Some(i) ==> column_position(column_names(columns@), name@) == Some(i as int),
        r is None ==> column_position(column_names(columns@), name@) is None,
{
    let ghost names = column_names(columns@);
    let mut i: usize = 0;
    assert(names.subrange(0, names.len() as int) =~= names);
    while i < columns.len()
        invariant
            i <= columns.len(),
            names == column_names(columns@),
            column_position(names, name@) == (match column_position(
                names.subrange(i as int, names.len() as int),
                name@,
            ) {
                Some(k) => Some(k + i),
                None => None,
            }),
        decreases columns.len() - i,
    {
        let ghost rest = names.subrange(i as int, names.len() as int);
        assert(rest[0] == names[i as int]);
        if columns[i] == *name {
            return Some(i);
        }
        assert(rest.subrange(1, rest.len() as int) =~= names.subrange(i + 1, names.len() as int));
        i = i + 1;
    }
    assert(names.subrange(i as int, names.len() as int) =~= Seq::<Seq<char>>::empty());
    None
}

/// The column positions of the settings in one file's schema, given by its
/// column names; an encoding `--column-encoding` cannot use, or a column the
/// schema lacks, is an error.
pub fn resolve_column_encodings(columns: &Vec<String>, encodings: &Vec<(String, Encoding)>) -> (r:
    Result<Vec<(usize, Encoding)>, String>)
    ensures
        r matches Ok(v) ==> resolve_settings(encoding_settings(encodings@), column_names(columns@))
            == Ok::<Seq<(int, Encoding)>, Seq<char>>(
            v@.map_values(|p: (usize, Encoding)| (p.0 as int, p.1)),
        ),
        r matches Err(m) ==> resolve_settings(
            encoding_settings(encodings@),
            column_names(columns@),
        ) == Err::<Seq<(int, Encoding)>, Seq<char>>(m@),
{
    let ghost all = encoding_settings(encodings@);
    let ghost cols = column_names(columns@);
    let mut out: Vec<(usize, Encoding)> = Vec::new();
    let mut i: usize = 0;
    assert(all.subrange(0, all.len() as int) =~= all);
    while i < encodings.len()
        invariant
            i <= encodings.len(),
            all == encoding_settings(encodings@),
            cols == column_names(columns@),
            resolve_settings(all, cols) == (match resolve_settings(
                all.subrange(i as int, all.len() as int),
                cols,
            ) {
                Ok(rest) => Ok(out@.map_values(|p: (usize, Encoding)| (p.0 as int, p.1)) + rest),
                Err(m) => Err(m),
            }),
        decreases encodings.len() - i,
    {
        let ghost rest = all.subrange(i as int, all.len() as int);
        assert(rest[0] == all[i as int]);
        assert(rest.subrange(1, rest.len() as int) =~= all.subrange(i + 1, all.len() as int));
        match reject_unsupported_encoding(encodings[i].1) {
            Err(m) => {
                return Err(m);
            },
            Ok(()) => {},
        }
        match find_column(columns, &encodings[i].0) {
            None => {
                return Err(concat3(
                    "unknown column '",
                    encodings[i].0.as_str(),
                    "' for --column-encoding",
                ));
            },
            Some(pos) => {
                let ghost before = out@;
                out.push((pos, encodings[i].1));
                proof {
                    let f = |p: (usize, Encoding)| (p.0 as int, p.1);
                    assert(out@.map_values(f) =~= before.map_values(f).push((pos as int, all[i as int].1)));
                    match resolve_settings(all.subrange(i + 1, all.len() as int), cols) {
                        Ok(r2) => {
                            assert(before.map_values(f) + (seq![(pos as int, all[i as int].1)] + r2)
                                =~= out@.map_values(f) + r2);
                        },
                        Err(_) => {},
                    }
                }
            },
        }
        i = i + 1;
    }
    assert(all.subrange(all.len() as int, all.len() as int) =~= Seq::<(Seq<char>, Encoding)>::empty());
    assert(out@.map_values(|p: (usize, Encoding)| (p.0 as int, p.1)) + Seq::<(int, Encoding)>::empty()
        =~= out@.map_values(|p: (usize, Encoding)| (p.0 as int, p.1)));
    Ok(out)
}

} // verus!
