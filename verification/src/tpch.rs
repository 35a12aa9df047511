//! TPC-H tables, output formats, column type options, and the
//! `--column-encoding` checks against the selected tables.
use crate::column_types::{DateColumnType, DecimalColumnType, KeyColumnType};
use crate::csv::{header_columns, split_commas};
use crate::parquet_options::{
    check_settings, column_names, encoding_settings, encodings_for_columns,
    settings_for_columns, validate_encodings_for_tables, Encoding,
};
use crate::text::{concat3, eq_ignore_ascii_case, eq_ignoring_ascii_case, str_chars};
use vstd::prelude::*;

verus! {

/// The tables of the TPC-H schema, ordered by size (smallest to largest at
/// scale factor 1).
#[derive(Debug, Copy, Clone, PartialEq, Eq, PartialOrd, Ord, Hash, Structural)]
pub enum Table {
    /// Nation table (25 rows)
    Nation,
    /// Region table (5 rows)
    Region,
    /// Part table (200,000 rows at SF=1)
    Part,
    /// Supplier table (10,000 rows at SF=1)
    Supplier,
    /// Part-Supplier relationship table (800,000 rows at SF=1)
    Partsupp,
    /// Customer table (150,000 rows at SF=1)
    Customer,
    /// Orders table (1,500,000 rows at SF=1)
    Orders,
    /// Line item table (6,000,000 rows at SF=1)
    Lineitem,
}

/// The lower-case name of a table.
pub open spec fn tpch_table_name(t: Table) -> Seq<char> {
    match t {
        Table::Nation => "nation"@,
        Table::Region => "region"@,
        Table::Part => "part"@,
        Table::Supplier => "supplier"@,
        Table::Partsupp => "partsupp"@,
        Table::Customer => "customer"@,
        Table::Orders => "orders"@,
        Table::Lineitem => "lineitem"@,
    }
}

/// The comma-separated column names of a table.
pub open spec fn tpch_table_header(t: Table) -> Seq<char> {
    match t {
        Table::Nation => "n_nationkey,n_name,n_regionkey,n_comment"@,
        Table::Region => "r_regionkey,r_name,r_comment"@,
        Table::Part => "p_partkey,p_name,p_mfgr,p_brand,p_type,p_size,p_container,p_retailprice,p_comment"@,
        Table::Supplier => "s_suppkey,s_name,s_address,s_nationkey,s_phone,s_acctbal,s_comment"@,
        Table::Partsupp => "ps_partkey,ps_suppkey,ps_availqty,ps_supplycost,ps_comment"@,
        Table::Customer => "c_custkey,c_name,c_address,c_nationkey,c_phone,c_acctbal,c_mktsegment,c_comment"@,
        Table::Orders => "o_orderkey,o_custkey,o_orderstatus,o_totalprice,o_orderdate,o_orderpriority,o_clerk,o_shippriority,o_comment"@,
        Table::Lineitem => "l_orderkey,l_partkey,l_suppkey,l_linenumber,l_quantity,l_extendedprice,l_discount,l_tax,l_returnflag,l_linestatus,l_shipdate,l_commitdate,l_receiptdate,l_shipinstruct,l_shipmode,l_comment"@,
    }
}

/// The table named by `s`: a one-letter abbreviation (`n`, `r`, `s`, `P`,
/// `S`, `c`, `O`, `L`, compared exactly) or the full name (compared without
/// regard to ASCII case), tried in that order table by table. Abbreviations
/// that dbgen gives to two tables (such as `p`) are not accepted.
pub open spec fn parse_tpch_table(s: Seq<char>) -> Result<Table, Seq<char>> {
    if s == "n"@ || eq_ignoring_ascii_case(s, "nation"@) {
        Ok(Table::Nation)
    } else if s == "r"@ || eq_ignoring_ascii_case(s, "region"@) {
        Ok(Table::Region)
    } else if s == "s"@ || eq_ignoring_ascii_case(s, "supplier"@) {
        Ok(Table::Supplier)
    } else if s == "P"@ || eq_ignoring_ascii_case(s, "part"@) {
        Ok(Table::Part)
    } else if s == "S"@ || eq_ignoring_ascii_case(s, "partsupp"@) {
        Ok(Table::Partsupp)
    } else if s == "c"@ || eq_ignoring_ascii_case(s, "customer"@) {
        Ok(Table::Customer)
    } else if s == "O"@ || eq_ignoring_ascii_case(s, "orders"@) {
        Ok(Table::Orders)
    } else if s == "L"@ || eq_ignoring_ascii_case(s, "lineitem"@) {
        Ok(Table::Lineitem)
    } else {
        Err("Invalid table name "@ + s)
    }
}

/// Reading a table's name gives the table back.
pub proof fn lemma_parse_tpch_table_name(t: Table)
    ensures
        parse_tpch_table(tpch_table_name(t)) == Ok::<Table, Seq<char>>(t),
{
    reveal_strlit("nation");
    reveal_strlit("region");
    reveal_strlit("part");
    reveal_strlit("supplier");
    reveal_strlit("partsupp");
    reveal_strlit("customer");
    reveal_strlit("orders");
    reveal_strlit("lineitem");
    reveal_strlit("n");
    reveal_strlit("r");
    reveal_strlit("s");
    reveal_strlit("P");
    reveal_strlit("S");
    reveal_strlit("c");
    reveal_strlit("O");
    reveal_strlit("L");
    assert(crate::text::ascii_lower("nation"@)[0] == "nation"@[0]);
    assert(crate::text::ascii_lower("nation"@) =~= "nation"@);
    assert(crate::text::ascii_lower("region"@)[0] == "region"@[0]);
    assert(crate::text::ascii_lower("region"@) =~= "region"@);
    assert(crate::text::ascii_lower("part"@)[0] == "part"@[0]);
    assert(crate::text::ascii_lower("part"@) =~= "part"@);
    assert(crate::text::ascii_lower("supplier"@)[0] == "supplier"@[0]);
    assert(crate::text::ascii_lower("supplier"@) =~= "supplier"@);
    assert(crate::text::ascii_lower("partsupp"@)[0] == "partsupp"@[0]);
    assert(crate::text::ascii_lower("partsupp"@) =~= "partsupp"@);
    assert(crate::text::ascii_lower("customer"@)[0] == "customer"@[0]);
    assert(crate::text::ascii_lower("customer"@) =~= "customer"@);
    assert(crate::text::ascii_lower("orders"@)[0] == "orders"@[0]);
    assert(crate::text::ascii_lower("orders"@) =~= "orders"@);
    assert(crate::text::ascii_lower("lineitem"@)[0] == "lineitem"@[0]);
    assert(crate::text::ascii_lower("lineitem"@) =~= "lineitem"@);
}

impl std::str::FromStr for Table {
    type Err = String;

    /// Reads a table name or abbreviation.
    fn from_str(s: &str) -> (r: Result<Self, String>)
        ensures
            r matches Ok(v) ==> parse_tpch_table(s@) == Ok::<Table, Seq<char>>(v),
            r matches Err(m) ==> parse_tpch_table(s@) == Err::<Table, Seq<char>>(m@),
    {
        Self::parse(s)
    }
}

impl Table {
    /// The table's name (for example `lineitem`).
    pub fn name(&self) -> (r: &'static str)
        ensures
            r@ == tpch_table_name(*self),
    {
        match self {
            Table::Nation => "nation",
            Table::Region => "region",
            Table::Part => "part",
            Table::Supplier => "supplier",
            Table::Partsupp => "partsupp",
            Table::Customer => "customer",
            Table::Orders => "orders",
            Table::Lineitem => "lineitem",
        }
    }

    /// Reads a table name or abbreviation.
    pub fn parse(s: &str) -> (r: Result<Table, String>)
        ensures
            r matches Ok(t) ==> parse_tpch_table(s@) == Ok::<Table, Seq<char>>(t),
            r matches Err(m) ==> parse_tpch_table(s@) == Err::<Table, Seq<char>>(m@),
    {
        if str_eq(s, "n") || eq_ignore_ascii_case(s, "nation") {
            Ok(Table::Nation)
        } else if str_eq(s, "r") || eq_ignore_ascii_case(s, "region") {
            Ok(Table::Region)
        } else if str_eq(s, "s") || eq_ignore_ascii_case(s, "supplier") {
            Ok(Table::Supplier)
        } else if str_eq(s, "P") || eq_ignore_ascii_case(s, "part") {
            Ok(Table::Part)
        } else if str_eq(s, "S") || eq_ignore_ascii_case(s, "partsupp") {
            Ok(Table::Partsupp)
        } else if str_eq(s, "c") || eq_ignore_ascii_case(s, "customer") {
            Ok(Table::Customer)
        } else if str_eq(s, "O") || eq_ignore_ascii_case(s, "orders") {
            Ok(Table::Orders)
        } else if str_eq(s, "L") || eq_ignore_ascii_case(s, "lineitem") {
            Ok(Table::Lineitem)
        } else {
            proof {
                reveal_strlit("");
            }
            let m = concat3("Invalid table name ", s, "");
            assert(m@ =~= "Invalid table name "@ + s@);
            Err(m)
        }
    }

    /// The comma-separated column names of the table's Arrow schema.
    pub fn header(&self) -> (r: &'static str)
        ensures
            r@ == tpch_table_header(*self),
    {
        match self {
            Table::Nation => "n_nationkey,n_name,n_regionkey,n_comment",
            Table::Region => "r_regionkey,r_name,r_comment",
            Table::Part => "p_partkey,p_name,p_mfgr,p_brand,p_type,p_size,p_container,p_retailprice,p_comment",
            Table::Supplier => "s_suppkey,s_name,s_address,s_nationkey,s_phone,s_acctbal,s_comment",
            Table::Partsupp => "ps_partkey,ps_suppkey,ps_availqty,ps_supplycost,ps_comment",
            Table::Customer => "c_custkey,c_name,c_address,c_nationkey,c_phone,c_acctbal,c_mktsegment,c_comment",
            Table::Orders => "o_orderkey,o_custkey,o_orderstatus,o_totalprice,o_orderdate,o_orderpriority,o_clerk,o_shippriority,o_comment",
            Table::Lineitem => "l_orderkey,l_partkey,l_suppkey,l_linenumber,l_quantity,l_extendedprice,l_discount,l_tax,l_returnflag,l_linestatus,l_shipdate,l_commitdate,l_receiptdate,l_shipinstruct,l_shipmode,l_comment",
        }
    }
}

/// Whether two texts are equal.
fn str_eq(a: &str, b: &str) -> (r: bool)
    ensures
        r == (a@ == b@),
{
    let va = str_chars(a);
    let vb = str_chars(b);
    if va.len() != vb.len() {
        return false;
    }
    let mut i: usize = 0;
    while i < va.len()
        invariant
            va@ == a@,
            vb@ == b@,
            va.len() == vb.len(),
            i <= va.len(),
            forall|j: int| 0 <= j < i ==> a@[j] == b@[j],
        decreases va.len() - i,
    {
        if va[i] != vb[i] {
            return false;
        }
        i = i + 1;
    }
    assert(a@ =~= b@);
    true
}

/// Output format for generated data.
#[derive(Debug, Copy, Clone, PartialEq, Eq, PartialOrd, Ord, Structural)]
pub enum OutputFormat {
    /// TBL format (pipe-delimited, dbgen-compatible)
    Tbl,
    /// CSV format (comma-separated values)
    Csv,
    /// Apache Parquet format (columnar, compressed)
    Parquet,
}

/// The name of an output format.
pub open spec fn output_format_name(f: OutputFormat) -> Seq<char> {
    match f {
        OutputFormat::Tbl => "tbl"@,
        OutputFormat::Csv => "csv"@,
        OutputFormat::Parquet => "parquet"@,
    }
}

/// The result of reading `s` as an output format, without regard to ASCII case.
pub open spec fn parse_output_format(s: Seq<char>) -> Result<OutputFormat, Seq<char>> {
    if eq_ignoring_ascii_case(s, "tbl"@) {
        Ok(OutputFormat::Tbl)
    } else if eq_ignoring_ascii_case(s, "csv"@) {
        Ok(OutputFormat::Csv)
    } else if eq_ignoring_ascii_case(s, "parquet"@) {
        Ok(OutputFormat::Parquet)
    } else {
        Err("Invalid output format: "@ + s + ". Valid formats are: tbl, csv, parquet"@)
    }
}

/// Reading an output format's name gives the format back.
pub proof fn lemma_output_format_round_trip(f: OutputFormat)
    ensures
        parse_output_format(output_format_name(f)) == Ok::<OutputFormat, Seq<char>>(f),
{
    reveal_strlit("tbl");
    reveal_strlit("csv");
    reveal_strlit("parquet");
    assert(crate::text::ascii_lower("tbl"@) =~= "tbl"@);
    assert(crate::text::ascii_lower("csv"@) =~= "csv"@);
    assert(crate::text::ascii_lower("parquet"@) =~= "parquet"@);
    assert("tbl"@[0] != "csv"@[0]);
}

impl std::str::FromStr for OutputFormat {
    type Err = String;

    /// Reads an output format.
    fn from_str(s: &str) -> (r: Result<Self, String>)
        ensures
            r matches Ok(v) ==> parse_output_format(s@) == Ok::<OutputFormat, Seq<char>>(v),
            r matches Err(m) ==> parse_output_format(s@) == Err::<OutputFormat, Seq<char>>(m@),
    {
        Self::parse(s)
    }
}

impl OutputFormat {
    /// The format's name (`tbl`, `csv` or `parquet`).
    pub fn name(&self) -> (r: &'static str)
        ensures
            r@ == output_format_name(*self),
    {
        match self {
            OutputFormat::Tbl => "tbl",
            OutputFormat::Csv => "csv",
            OutputFormat::Parquet => "parquet",
        }
    }

    /// Reads an output format.
    pub fn parse(s: &str) -> (r: Result<OutputFormat, String>)
        ensures
            r matches Ok(f) ==> parse_output_format(s@) == Ok::<OutputFormat, Seq<char>>(f),
            r matches Err(m) ==> parse_output_format(s@) == Err::<OutputFormat, Seq<char>>(m@),
    {
        if eq_ignore_ascii_case(s, "tbl") {
            Ok(OutputFormat::Tbl)
        } else if eq_ignore_ascii_case(s, "csv") {
            Ok(OutputFormat::Csv)
        } else if eq_ignore_ascii_case(s, "parquet") {
            Ok(OutputFormat::Parquet)
        } else {
            Err(concat3("Invalid output format: ", s, ". Valid formats are: tbl, csv, parquet"))
        }
    }
}

/// Configuration for column types in generated TPC-H Arrow data.
#[derive(Clone, Copy, Debug, PartialEq, Eq, Structural)]
pub struct ColumnTypeConfig {
    /// Type for decimal/monetary columns
    pub decimal_type: DecimalColumnType,
    /// Type for date columns (l_shipdate, l_commitdate, l_receiptdate, o_orderdate)
    pub date_type: DateColumnType,
    /// Type for nationkey columns (c_nationkey, n_nationkey, s_nationkey)
    pub nationkey_type: KeyColumnType,
    /// Type for regionkey columns (n_regionkey, r_regionkey)
    pub regionkey_type: KeyColumnType,
}

impl Default for ColumnTypeConfig {
    /// `Decimal128` decimals, `Date32` dates and `I64` keys.
    fn default() -> (r: Self)
        ensures
            r.decimal_type == DecimalColumnType::Decimal128,
            r.date_type == DateColumnType::Date32,
            r.nationkey_type == KeyColumnType::I64,
            r.regionkey_type == KeyColumnType::I64,
    {
        ColumnTypeConfig {
            decimal_type: DecimalColumnType::Decimal128,
            date_type: DateColumnType::Date32,
            nationkey_type: KeyColumnType::I64,
            regionkey_type: KeyColumnType::I64,
        }
    }
}

/// The column names of each table of `tables`.
pub open spec fn tpch_tables_columns(tables: Seq<Table>) -> Seq<Seq<Seq<char>>> {
    tables.map_values(|t: Table| split_commas(tpch_table_header(t)))
}

/// The column names of `table`'s Arrow schema.
pub fn table_columns(table: Table) -> (r: Vec<String>)
    ensures
        column_names(r@) == split_commas(tpch_table_header(table)),
{
    let r = header_columns(table.header());
    assert(column_names(r@) =~= r@.map_values(|c: String| c@));
    r
}

/// Checks each `--column-encoding` setting against every selected table:
/// an encoding `--column-encoding` cannot use, or a column that matches no
/// table (almost always a typo), is an error. A column that matches only
/// some tables is fine: [`column_encodings_for_table`] applies it there and
/// skips it elsewhere.
pub fn validate_column_encodings(tables: &Vec<Table>, encodings: &Vec<(String, Encoding)>) -> (r:
    Result<(), String>)
    ensures
        r is Ok <==> check_settings(encoding_settings(encodings@), tpch_tables_columns(tables@))
            is Ok,
        r matches Err(m) ==> check_settings(
            encoding_settings(encodings@),
            tpch_tables_columns(tables@),
        ) == Err::<(), Seq<char>>(m@),
{
    let mut cols: Vec<Vec<String>> = Vec::new();
    let mut i: usize = 0;
    while i < tables.len()
        invariant
            i <= tables.len(),
            cols.len() == i,
            cols@.map_values(|t: Vec<String>| column_names(t@)) == tpch_tables_columns(
                tables@.subrange(0, i as int),
            ),
        decreases tables.len() - i,
    {
        let c = table_columns(tables[i]);
        let ghost before = cols@;
        cols.push(c);
        assert(cols@.map_values(|t: Vec<String>| column_names(t@)) =~= tpch_tables_columns(
            tables@.subrange(0, i + 1),
        )) by {
            assert(cols@ == before.push(c));
            assert forall|j: int| 0 <= j <= i implies cols@.map_values(
                |t: Vec<String>| column_names(t@),
            )[j] == #[trigger] tpch_tables_columns(tables@.subrange(0, i + 1))[j] by {
                if j < i {
                    assert(cols@[j] == before[j]);
                    assert(before.map_values(|t: Vec<String>| column_names(t@))[j]
                        == tpch_tables_columns(tables@.subrange(0, i as int))[j]);
                }
            }
        }
        i = i + 1;
    }
    assert(tables@.subrange(0, tables.len() as int) =~= tables@);
    validate_encodings_for_tables(&cols, encodings)
}

/// Keeps only the `--column-encoding` settings whose column exists in `table`.
pub fn column_encodings_for_table(table: Table, encodings: &Vec<(String, Encoding)>) -> (r: Vec<
    (String, Encoding),
>)
    ensures
        encoding_settings(r@) == settings_for_columns(
            encoding_settings(encodings@),
            split_commas(tpch_table_header(table)),
        ),
{
    let cols = table_columns(table);
    encodings_for_columns(&cols, encodings)
}

/// Every TPC-H table, in schema order.
pub open spec fn all_tpch_tables() -> Seq<Table> {
    seq![
        Table::Nation,
        Table::Region,
        Table::Part,
        Table::Supplier,
        Table::Partsupp,
        Table::Customer,
        Table::Orders,
        Table::Lineitem,
    ]
}

/// The tables a run generates: the selected ones as given, or every table
/// in schema order when none was selected.
pub fn tables_to_generate(tables: Option<Vec<Table>>) -> (r: Vec<Table>)
    ensures
        r@ == (match tables {
            Some(v) => v@,
            None => all_tpch_tables(),
        }),
{
    match tables {
        Some(v) => v,
        None => {
            let v = vec![
                Table::Nation,
                Table::Region,
                Table::Part,
                Table::Supplier,
                Table::Partsupp,
                Table::Customer,
                Table::Orders,
                Table::Lineitem,
            ];
            assert(v@ =~= all_tpch_tables());
            v
        },
    }
}

} // verus!
