//! Command line option handling for TPC-DS generation: table selection,
//! `--part`/`--parts`, the CSV delimiter, and the `--column-encoding` checks
//! against the selected tables.
use crate::csv::{header_columns, header_for, split_commas, table_header};
use crate::parquet_options::{
    check_settings, column_names, encoding_settings, encodings_for_columns,
    settings_for_columns, validate_encodings_for_tables, Encoding,
};
use crate::text::{int_decimal, push_int_decimal, push_str_chars, str_chars, string_from_chars};
use crate::schema::{schema_at_hand, typed_columns};
use crate::tpcds_table::{lemma_table_names_distinct, main_table_seq, table_name, Table};
use crate::text::{eq_ignore_ascii_case, eq_ignoring_ascii_case};
use vstd::prelude::*;

verus! {

/// `s` with every repeated element after its first occurrence removed.
pub open spec fn dedup(s: Seq<Table>) -> Seq<Table>
    decreases s.len(),
{
    if s.len() == 0 {
        seq![]
    } else if dedup(s.drop_last()).contains(s.last()) {
        dedup(s.drop_last())
    } else {
        dedup(s.drop_last()).push(s.last())
    }
}

/// Whether no element occurs twice in `s`.
pub open spec fn no_duplicates(s: Seq<Table>) -> bool {
    forall|i: int, j: int| 0 <= i < j < s.len() ==> s[i] != s[j]
}

/// The table whose generator produces `t`: returns tables are produced
/// with their sales table.
pub open spec fn generating_table(t: Table) -> Table {
    match t {
        Table::CatalogReturns => Table::CatalogSales,
        Table::StoreReturns => Table::StoreSales,
        Table::WebReturns => Table::WebSales,
        _ => t,
    }
}

/// Whether `t` is one of the returns tables.
pub open spec fn is_returns_table(t: Table) -> bool {
    t == Table::CatalogReturns || t == Table::StoreReturns || t == Table::WebReturns
}

/// The tables to generate: the selection (or every table when none was
/// given), each once, in first-seen order.
pub open spec fn selected_tables_spec(selection: Option<Seq<Table>>) -> Seq<Table> {
    match selection {
        Some(s) => dedup(s),
        None => dedup(main_table_seq()),
    }
}

/// The tables whose row generators run for the DAT and CSV outputs: the
/// selected tables with each returns table replaced by its sales table, each
/// once, in first-seen order.
pub open spec fn row_generator_tables_spec(selection: Option<Seq<Table>>) -> Seq<Table> {
    dedup(selected_tables_spec(selection).map_values(|t: Table| generating_table(t)))
}

/// The deduplicated sequence holds no element twice, holds exactly the
/// elements of the input, and is no longer than the input.
pub proof fn lemma_dedup(s: Seq<Table>)
    ensures
        no_duplicates(dedup(s)),
        forall|t: Table| dedup(s).contains(t) <==> s.contains(t),
        dedup(s).len() <= s.len(),
    decreases s.len(),
{
    if s.len() > 0 {
        let t = s.drop_last();
        lemma_dedup(t);
        assert forall|x: Table| dedup(s).contains(x) <==> s.contains(x) by {
            if s.contains(x) && x != s.last() {
                let k = choose|k: int| 0 <= k < s.len() && s[k] == x;
                assert(t[k] == x);
            }
            if t.contains(x) {
                let k = choose|k: int| 0 <= k < t.len() && t[k] == x;
                assert(s[k] == x);
            }
            if dedup(s).contains(x) && !dedup(t).contains(x) {
                let k = choose|k: int| 0 <= k < dedup(s).len() && dedup(s)[k] == x;
                if k < dedup(t).len() {
                    assert(dedup(t)[k] == x);
                }
                assert(s[s.len() - 1] == x);
            }
            if s.contains(x) && x == s.last() && !dedup(t).contains(x) {
                assert(dedup(s)[dedup(s).len() - 1] == x);
            }
            if dedup(t).contains(x) {
                let k = choose|k: int| 0 <= k < dedup(t).len() && dedup(t)[k] == x;
                assert(dedup(s)[k] == x);
            }
        }
    }
}

/// The selected tables, as a sequence.
pub open spec fn selection_view(selection: Option<Vec<Table>>) -> Option<Seq<Table>> {
    match selection {
        Some(v) => Some(v@),
        None => None,
    }
}

/// The tables to generate for the selection: each selected table once, in
/// first-seen order (every table when there is no selection).
pub fn selected_tables(selection: Option<Vec<Table>>) -> (r: Vec<Table>)
    ensures
        r@ == selected_tables_spec(selection_view(selection)),
{
    let tables = match selection {
        Some(v) => v,
        None => Table::main_tables(),
    };
    dedup_tables(&tables)
}

/// Each element of `tables` once, in first-seen order.
pub fn dedup_tables(tables: &Vec<Table>) -> (r: Vec<Table>)
    ensures
        r@ == dedup(tables@),
{
    let mut out: Vec<Table> = Vec::new();
    let mut i: usize = 0;
    assert(tables@.subrange(0, 0) =~= Seq::<Table>::empty());
    while i < tables.len()
        invariant
            i <= tables.len(),
            out@ == dedup(tables@.subrange(0, i as int)),
        decreases tables.len() - i,
    {
        assert(tables@.subrange(0, i + 1).drop_last() =~= tables@.subrange(0, i as int));
        let t = tables[i];
        let mut seen = false;
        let mut j: usize = 0;
        while j < out.len()
            invariant
                j <= out.len(),
                seen == exists|k: int| 0 <= k < j && out@[k] == t,
            decreases out.len() - j,
        {
            if out[j] == t {
                seen = true;
            }
            j = j + 1;
        }
        if !seen {
            out.push(t);
        }
        i = i + 1;
    }
    assert(tables@.subrange(0, tables.len() as int) =~= tables@);
    out
}

/// The tables whose row generators run for the DAT and CSV outputs:
/// returns tables are produced as a side effect of their sales table.
pub fn row_generator_tables(selection: Option<Vec<Table>>) -> (r: Vec<Table>)
    ensures
        r@ == row_generator_tables_spec(selection_view(selection)),
{
    let ghost sel = selection_view(selection);
    let selected = selected_tables(selection);
    let mut mapped: Vec<Table> = Vec::new();
    let mut i: usize = 0;
    while i < selected.len()
        invariant
            i <= selected.len(),
            selected@ == selected_tables_spec(sel),
            mapped@ == selected@.subrange(0, i as int).map_values(|t: Table| generating_table(t)),
        decreases selected.len() - i,
    {
        let t = match selected[i] {
            Table::CatalogReturns => Table::CatalogSales,
            Table::StoreReturns => Table::StoreSales,
            Table::WebReturns => Table::WebSales,
            other => other,
        };
        mapped.push(t);
        i = i + 1;
        assert(mapped@ =~= selected@.subrange(0, i as int).map_values(
            |t: Table| generating_table(t),
        ));
    }
    assert(selected@.subrange(0, selected.len() as int) =~= selected@);
    dedup_tables(&mapped)
}

/// The row generator tables hold no returns table and no table twice, and
/// hold the generating table of every selected table.
pub proof fn lemma_row_generator_tables(selection: Option<Seq<Table>>)
    ensures
        no_duplicates(row_generator_tables_spec(selection)),
        forall|i: int|
            0 <= i < row_generator_tables_spec(selection).len() ==> !is_returns_table(
                #[trigger] row_generator_tables_spec(selection)[i],
            ),
        forall|t: Table|
            selected_tables_spec(selection).contains(t) ==> row_generator_tables_spec(
                selection,
            ).contains(#[trigger] generating_table(t)),
{
    let sel = selected_tables_spec(selection);
    let mapped = sel.map_values(|t: Table| generating_table(t));
    lemma_dedup(mapped);
    assert forall|i: int|
        0 <= i < row_generator_tables_spec(selection).len() implies !is_returns_table(
        #[trigger] row_generator_tables_spec(selection)[i],
    ) by {
        let x = row_generator_tables_spec(selection)[i];
        assert(row_generator_tables_spec(selection).contains(x));
        assert(mapped.contains(x));
        let k = choose|k: int| 0 <= k < mapped.len() && mapped[k] == x;
        assert(x == generating_table(sel[k]));
    }
    assert forall|t: Table| sel.contains(t) implies row_generator_tables_spec(selection).contains(
        #[trigger] generating_table(t),
    ) by {
        let k = choose|k: int| 0 <= k < sel.len() && sel[k] == t;
        assert(mapped[k] == generating_table(t));
        assert(mapped.contains(generating_table(t)));
    }
}

/// The part numbers asked for by `--part` and `--parts`.
pub open spec fn part_list_spec(part: Option<i32>, parts: Option<i32>) -> Result<
    Seq<Option<i32>>,
    Seq<char>,
> {
    match (part, parts) {
        (Some(_), None) => Err("The --part option requires the --parts option to be set"@),
        (None, Some(n)) => if n < 1 {
            Err(
                "Invalid --parts value '"@ + int_decimal(n as int)
                    + "'. Expected a number greater than zero"@,
            )
        } else {
            Ok(Seq::new(n as nat, |i: int| Some((i + 1) as i32)))
        },
        (Some(k), Some(n)) => if k < 1 {
            Err(
                "Invalid --part. Expected a number greater than zero, got "@ + int_decimal(
                    k as int,
                ),
            )
        } else if k > n {
            Err(
                "Invalid --part. Expected at most the value of --parts ("@ + int_decimal(n as int)
                    + "), got "@ + int_decimal(k as int),
            )
        } else {
            Ok(seq![Some(k)])
        },
        (None, None) => Ok(seq![None]),
    }
}

/// The list of 1-based part numbers to generate, or `[None]` when neither
/// `--part` nor `--parts` was given (a single, unnumbered file per table).
///
/// `--parts` alone generates every part as a separate file; `--part`
/// requires `--parts` alongside it and restricts generation to that part,
/// which must lie in `1..=parts`.
pub fn part_list(part: Option<i32>, parts: Option<i32>) -> (r: Result<Vec<Option<i32>>, String>)
    ensures
        r is Err <==> (match (part, parts) {
            (Some(_), None) => true,
            (None, Some(n)) => n < 1,
            (Some(k), Some(n)) => k < 1 || k > n,
            (None, None) => false,
        }),
        r matches Ok(v) ==> part_list_spec(part, parts) == Ok::<Seq<Option<i32>>, Seq<char>>(v@),
        r matches Err(m) ==> part_list_spec(part, parts) == Err::<Seq<Option<i32>>, Seq<char>>(
            m@,
        ),
{
    match (part, parts) {
        (Some(_), None) => Err(
            String::from_str("The --part option requires the --parts option to be set"),
        ),
        (None, Some(n)) => {
            if n < 1 {
                let mut out: Vec<char> = Vec::new();
                push_str_chars(&mut out, "Invalid --parts value '");
                push_int_decimal(&mut out, n as i64);
                push_str_chars(&mut out, "'. Expected a number greater than zero");
                assert(out@ =~= "Invalid --parts value '"@ + int_decimal(n as int)
                    + "'. Expected a number greater than zero"@);
                Err(string_from_chars(&out))
            } else {
                let mut v: Vec<Option<i32>> = Vec::new();
                let mut i: i64 = 1;
                while i <= n as i64
                    invariant
                        1 <= i <= n + 1,
                        v@ == Seq::new((i - 1) as nat, |k: int| Some((k + 1) as i32)),
                    decreases n - i + 1,
                {
                    v.push(Some(i as i32));
                    assert(v@ =~= Seq::new(i as nat, |k: int| Some((k + 1) as i32)));
                    i = i + 1;
                }
                assert(part_list_spec(part, parts) == Ok::<Seq<Option<i32>>, Seq<char>>(v@));
                Ok(v)
            }
        },
        (Some(k), Some(n)) => {
            if k < 1 {
                let mut out: Vec<char> = Vec::new();
                push_str_chars(&mut out, "Invalid --part. Expected a number greater than zero, got ");
                push_int_decimal(&mut out, k as i64);
                return Err(string_from_chars(&out));
            }
            if k > n {
                let mut out: Vec<char> = Vec::new();
                push_str_chars(&mut out, "Invalid --part. Expected at most the value of --parts (");
                push_int_decimal(&mut out, n as i64);
                push_str_chars(&mut out, "), got ");
                push_int_decimal(&mut out, k as i64);
                assert(out@ =~= "Invalid --part. Expected at most the value of --parts ("@
                    + int_decimal(n as int) + "), got "@ + int_decimal(k as int));
                return Err(string_from_chars(&out));
            }
            let v = vec![Some(k)];
            assert(v@ =~= seq![Some(k)]);
            Ok(v)
        },
        (None, None) => {
            let v: Vec<Option<i32>> = vec![None];
            assert(v@ =~= seq![None]);
            Ok(v)
        },
    }
}

/// The delimiter given on the command line: an escape sequence (`\t`, `\n`,
/// `\r`, `\\`) or a single character, which must be ASCII.
pub open spec fn parse_delimiter_spec(s: Seq<char>) -> Result<char, Seq<char>> {
    let c = if s == "\\t"@ {
        Some('\t')
    } else if s == "\\n"@ {
        Some('\n')
    } else if s == "\\r"@ {
        Some('\r')
    } else if s == "\\\\"@ {
        Some('\\')
    } else if s.len() == 1 {
        Some(s[0])
    } else {
        None
    };
    match c {
        None => Err(
            "Delimiter must be a single character or escape sequence (\\t, \\n, \\r, \\\\), got: '"@
                + s + "'"@,
        ),
        Some(c) => if (c as u32) < 128 {
            Ok(c)
        } else {
            Err("Delimiter must be an ASCII character, got: '"@ + seq![c] + "'"@)
        },
    }
}

/// Reads a CSV delimiter.
pub fn parse_delimiter(s: &str) -> (r: Result<char, String>)
    ensures
        r matches Ok(c) ==> parse_delimiter_spec(s@) == Ok::<char, Seq<char>>(c),
        r matches Err(m) ==> parse_delimiter_spec(s@) == Err::<char, Seq<char>>(m@),
{
    let chars = str_chars(s);
    let tab = str_chars("\\t");
    let newline = str_chars("\\n");
    let ret = str_chars("\\r");
    let backslash = str_chars("\\\\");
    let parsed: char = if chars_eq(&chars, &tab) {
        '\t'
    } else if chars_eq(&chars, &newline) {
        '\n'
    } else if chars_eq(&chars, &ret) {
        '\r'
    } else if chars_eq(&chars, &backslash) {
        '\\'
    } else if chars.len() == 1 {
        chars[0]
    } else {
        let mut out: Vec<char> = Vec::new();
        push_str_chars(
            &mut out,
            "Delimiter must be a single character or escape sequence (\\t, \\n, \\r, \\\\), got: '",
        );
        push_str_chars(&mut out, s);
        push_str_chars(&mut out, "'");
        return Err(string_from_chars(&out));
    };
    if (parsed as u32) < 128 {
        Ok(parsed)
    } else {
        let mut out: Vec<char> = Vec::new();
        push_str_chars(&mut out, "Delimiter must be an ASCII character, got: '");
        out.push(parsed);
        push_str_chars(&mut out, "'");
        assert(out@ =~= "Delimiter must be an ASCII character, got: '"@ + seq![parsed] + "'"@);
        Err(string_from_chars(&out))
    }
}

/// Whether two character vectors are equal.
fn chars_eq(a: &Vec<char>, b: &Vec<char>) -> (r: bool)
    ensures
        r == (a@ == b@),
{
    if a.len() != b.len() {
        return false;
    }
    let mut i: usize = 0;
    while i < a.len()
        invariant
            a.len() == b.len(),
            i <= a.len(),
            forall|j: int| 0 <= j < i ==> a@[j] == b@[j],
        decreases a.len() - i,
    {
        if a[i] != b[i] {
            return false;
        }
        i = i + 1;
    }
    assert(a@ =~= b@);
    true
}

/// The table names joined by `", "`.
pub open spec fn join_names(names: Seq<Seq<char>>) -> Seq<char>
    decreases names.len(),
{
    if names.len() == 0 {
        seq![]
    } else if names.len() == 1 {
        names[0]
    } else {
        join_names(names.drop_last()) + ", "@ + names.last()
    }
}

/// The names of every table, in catalogue order.
pub open spec fn all_table_names() -> Seq<Seq<char>> {
    main_table_seq().map_values(|t: Table| table_name(t))
}

/// The names of every table, joined by `", "`.
pub fn expected_table_names() -> (r: String)
    ensures
        r@ == join_names(all_table_names()),
{
    let tables = Table::main_tables();
    let ghost names = all_table_names();
    let mut out: Vec<char> = Vec::new();
    let mut i: usize = 0;
    while i < tables.len()
        invariant
            i <= tables.len(),
            tables@ == main_table_seq(),
            names == all_table_names(),
            out@ == join_names(names.subrange(0, i as int)),
        decreases tables.len() - i,
    {
        if i > 0 {
            push_str_chars(&mut out, ", ");
        }
        push_str_chars(&mut out, tables[i].get_name());
        assert(names.subrange(0, i + 1).drop_last() =~= names.subrange(0, i as int));
        proof {
            if i == 0 {
                assert(out@ =~= join_names(names.subrange(0, i + 1)));
            } else {
                assert(out@ =~= join_names(names.subrange(0, i + 1)));
            }
        }
        i = i + 1;
    }
    assert(names.subrange(0, tables.len() as int) =~= names);
    string_from_chars(&out)
}

/// The message for a table name that names no table.
pub open spec fn unknown_table_message(s: Seq<char>) -> Seq<char> {
    "unknown table '"@ + s + "'. Expected one of: "@ + join_names(all_table_names())
}

/// The result of reading `s` as a table name, without regard to ASCII case.
pub open spec fn parse_table_spec(s: Seq<char>) -> Result<Table, Seq<char>> {
    if exists|t: Table| eq_ignoring_ascii_case(s, #[trigger] table_name(t)) {
        Ok(choose|t: Table| eq_ignoring_ascii_case(s, #[trigger] table_name(t)))
    } else {
        Err(unknown_table_message(s))
    }
}

/// Reading a table's name gives the table back.
pub proof fn lemma_parse_table_name(t: Table)
    ensures
        parse_table_spec(table_name(t)) == Ok::<Table, Seq<char>>(t),
{
    assert(eq_ignoring_ascii_case(table_name(t), table_name(t)));
    let u = choose|u: Table| eq_ignoring_ascii_case(table_name(t), #[trigger] table_name(u));
    lemma_table_names_distinct(t, u);
}

/// Reads a table name, without regard to ASCII case.
pub fn parse_table(table: &str) -> (r: Result<Table, String>)
    ensures
        r matches Ok(t) ==> parse_table_spec(table@) == Ok::<Table, Seq<char>>(t),
        r matches Err(m) ==> parse_table_spec(table@) == Err::<Table, Seq<char>>(m@),
{
    let tables = Table::main_tables();
    let mut i: usize = 0;
    while i < tables.len()
        invariant
            i <= tables.len(),
            tables@ == main_table_seq(),
            forall|j: int| 0 <= j < i ==> !eq_ignoring_ascii_case(table@, table_name(#[trigger] tables@[j])),
        decreases tables.len() - i,
    {
        if eq_ignore_ascii_case(table, tables[i].get_name()) {
            proof {
                let t = tables@[i as int];
                let u = choose|u: Table| eq_ignoring_ascii_case(table@, #[trigger] table_name(u));
                lemma_table_names_distinct(t, u);
                assert(crate::text::ascii_lower(table_name(t)) == crate::text::ascii_lower(
                    table_name(u),
                ));
            }
            return Ok(tables[i]);
        }
        i = i + 1;
    }
    assert forall|t: Table| !eq_ignoring_ascii_case(table@, #[trigger] table_name(t)) by {
        crate::tpcds_table::lemma_main_table_seq_index(t);
        let k = crate::tpcds_table::table_index(t);
        assert(tables@[k] == t);
    }
    let mut out: Vec<char> = Vec::new();
    push_str_chars(&mut out, "unknown table '");
    push_str_chars(&mut out, table);
    push_str_chars(&mut out, "'. Expected one of: ");
    let names = expected_table_names();
    push_str_chars(&mut out, names.as_str());
    assert(out@ =~= unknown_table_message(table@));
    Err(string_from_chars(&out))
}

/// The column names of each table of `tables`.
pub open spec fn tables_columns(tables: Seq<Table>) -> Seq<Seq<Seq<char>>> {
    tables.map_values(|t: Table| split_commas(table_header(t)))
}

/// The column names of `table`'s output.
pub fn table_columns(table: Table) -> (r: Vec<String>)
    ensures
        column_names(r@) == split_commas(table_header(table)),
{
    let r = header_columns(header_for(table));
    assert(column_names(r@) =~= r@.map_values(|c: String| c@));
    r
}

/// Checks each `--column-encoding` setting against every selected table:
/// an encoding `--column-encoding` cannot use, or a column that matches no
/// table (almost always a typo), is an error. A column that matches only
/// some tables is fine: [`column_encodings_for_table`] applies it there and
/// skips it elsewhere.
pub fn validate_column_encodings(tables: &Vec<Table>, encodings: &Vec<(String, Encoding)>) -> (r:
    Result<(), String>)
    ensures
        r is Ok <==> check_settings(encoding_settings(encodings@), tables_columns(tables@)) is Ok,
        r matches Err(m) ==> check_settings(encoding_settings(encodings@), tables_columns(tables@))
            == Err::<(), Seq<char>>(m@),
{
    let mut cols: Vec<Vec<String>> = Vec::new();
    let mut i: usize = 0;
    while i < tables.len()
        invariant
            i <= tables.len(),
            cols.len() == i,
            cols@.map_values(|t: Vec<String>| column_names(t@)) == tables_columns(
                tables@.subrange(0, i as int),
            ),
        decreases tables.len() - i,
    {
        let c = table_columns(tables[i]);
        let ghost before = cols@;
        cols.push(c);
        assert(cols@.map_values(|t: Vec<String>| column_names(t@)) =~= tables_columns(
            tables@.subrange(0, i + 1),
        )) by {
            assert(cols@ == before.push(c));
            assert forall|j: int| 0 <= j <= i implies cols@.map_values(
                |t: Vec<String>| column_names(t@),
            )[j] == #[trigger] tables_columns(tables@.subrange(0, i + 1))[j] by {
                if j < i {
                    assert(cols@[j] == before[j]);
                    assert(before.map_values(|t: Vec<String>| column_names(t@))[j]
                        == tables_columns(tables@.subrange(0, i as int))[j]);
                }
            }
        }
        i = i + 1;
    }
    assert(tables@.subrange(0, tables.len() as int) =~= tables@);
    validate_encodings_for_tables(&cols, encodings)
}

/// Keeps only the `--column-encoding` settings whose column exists in `table`.
pub fn column_encodings_for_table(table: Table, encodings: &Vec<(String, Encoding)>) -> (r: Vec<
    (String, Encoding),
>)
    ensures
        encoding_settings(r@) == settings_for_columns(
            encoding_settings(encodings@),
            split_commas(table_header(table)),
        ),
{
    let cols = table_columns(table);
    encodings_for_columns(&cols, encodings)
}

/// A command line option that was refused: the option, the value given for
/// it, and why it was refused.
#[derive(Clone, Debug, PartialEq, Eq)]
pub struct InvalidOptionError {
    pub option: String,
    pub value: String,
    pub message: String,
}

/// DAT output settings: the directory the `<table>.dat` files go to.
#[derive(Clone, Debug)]
pub struct Dat {
    output_dir: String,
}

impl Dat {
    /// The directory the files go to.
    pub closed spec fn spec_output_dir(&self) -> Seq<char> {
        self.output_dir@
    }

    /// DAT output into `output_dir`, which must not be empty.
    pub fn new(output_dir: String) -> (r: Result<Dat, InvalidOptionError>)
        ensures
            r is Ok <==> output_dir@.len() > 0,
            r matches Ok(d) ==> d.spec_output_dir() == output_dir@,
            r matches Err(e) ==> e.option@ == "directory"@ && e.value@ == Seq::<char>::empty()
                && e.message@ == "Directory cannot be empty"@,
    {
        if output_dir.as_str().is_empty() {
            return Err(
                InvalidOptionError {
                    option: String::from_str("directory"),
                    value: String::new(),
                    message: String::from_str("Directory cannot be empty"),
                },
            );
        }
        Ok(Dat { output_dir })
    }

    /// The directory the files go to.
    pub fn output_dir(&self) -> (r: &str)
        ensures
            r@ == self.spec_output_dir(),
    {
        self.output_dir.as_str()
    }
}

/// Whether the Parquet reader of `t` takes the column type settings: the
/// tables with decimal or date columns do.
pub open spec fn takes_column_types(t: Table) -> bool {
    match t {
        Table::CallCenter | Table::CatalogReturns | Table::CatalogSales | Table::DateDim
        | Table::DbgenVersion | Table::Item | Table::Promotion | Table::Store | Table::StoreReturns
        | Table::StoreSales | Table::WebPage | Table::WebReturns | Table::WebSales
        | Table::WebSite => true,
        _ => false,
    }
}

/// Whether the Parquet reader of `table` takes the column type settings.
pub fn uses_column_type_config(table: Table) -> (r: bool)
    ensures
        r == takes_column_types(table),
{
    match table {
        Table::CallCenter | Table::CatalogReturns | Table::CatalogSales | Table::DateDim
        | Table::DbgenVersion | Table::Item | Table::Promotion | Table::Store | Table::StoreReturns
        | Table::StoreSales | Table::WebPage | Table::WebReturns | Table::WebSales
        | Table::WebSite => true,
        _ => false,
    }
}

/// A table takes the column type settings whenever its schema has a
/// decimal or date column, and, among the tables whose schema is at hand,
/// only then; a returns table takes them exactly when the sales table whose
/// generator makes its rows does.
pub proof fn lemma_typed_tables_take_column_types(t: Table)
    ensures
        typed_columns(t).len() > 0 ==> takes_column_types(t),
        schema_at_hand(t) ==> (takes_column_types(t) <==> typed_columns(t).len() > 0),
        takes_column_types(t) == takes_column_types(generating_table(t)),
{
}

} // verus!
