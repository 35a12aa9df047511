//! The columns of record batches of the TPC-DS tables: for each table, the
//! values of a row as the row generator gives them, and the columns a batch
//! of such rows makes. A value is NULL where the row's null bitmap marks its
//! column; a key is also NULL where it is negative (an absent reference).
use vstd::prelude::*;

use crate::conversions::{
    date_to_date32, decimal_to_i128, is_null, julian_to_date32, null_bit_set, opt, sk_opt, Date,
    Decimal, UNIX_EPOCH_JULIAN,
};
use crate::text::{nat_decimal, push_all, push_nat_decimal, string_from_chars};

verus! {

/// `Some(v)` unless bit `pos` of the null bitmap is set.
pub open spec fn nullable<T>(nbm: i64, pos: u32, v: T) -> Option<T> {
    if null_bit_set(nbm, pos) {
        None
    } else {
        Some(v)
    }
}

/// `Some(sk)` unless bit `pos` of the null bitmap is set or `sk` is negative.
pub open spec fn nullable_key(nbm: i64, pos: u32, sk: i64) -> Option<i64> {
    if null_bit_set(nbm, pos) || sk < 0 {
        None
    } else {
        Some(sk)
    }
}

/// The text of an optional string.
pub open spec fn text_view(o: Option<String>) -> Option<Seq<char>> {
    match o {
        Some(s) => Some(s@),
        None => None,
    }
}

/// `Y` for true, `N` for false.
pub open spec fn yn_text(b: bool) -> Seq<char> {
    if b {
        seq!['Y']
    } else {
        seq!['N']
    }
}

/// A text, or NULL when it is empty.
pub open spec fn nonempty_text(s: Seq<char>) -> Option<Seq<char>> {
    if s.len() == 0 {
        None
    } else {
        Some(s)
    }
}

/// The `Date32` of a Julian day number taken as an `i32`; NULL for a
/// negative day number (an absent date).
pub open spec fn julian_date32(j: i64) -> Option<i32> {
    if j < 0 {
        None
    } else {
        Some(((j as i32) - UNIX_EPOCH_JULIAN) as i32)
    }
}

/// `s` preceded by as many `0`s as it takes to make it `w` long.
pub open spec fn pad_zeros(s: Seq<char>, w: int) -> Seq<char> {
    Seq::new((if w > s.len() {
        w - s.len()
    } else {
        0
    }) as nat, |i: int| '0') + s
}

/// A zip code as written: its decimal digits, zero-padded to five
/// characters, a `-` sign counting as one of them.
pub open spec fn zip_text(z: i32) -> Seq<char> {
    if z < 0 {
        seq!['-'] + pad_zeros(nat_decimal((-z) as nat), 4)
    } else {
        pad_zeros(nat_decimal(z as nat), 5)
    }
}

/// The zip code text of `z`.
pub fn zip_string(z: i32) -> (r: String)
    ensures
        r@ == zip_text(z),
{
    let mut digits: Vec<char> = Vec::new();
    let magnitude: u64 = if z < 0 {
        (-(z as i64)) as u64
    } else {
        z as u64
    };
    push_nat_decimal(&mut digits, magnitude);
    assert(digits@ =~= nat_decimal(magnitude as nat));
    let mut out: Vec<char> = Vec::new();
    let width: usize = if z < 0 {
        out.push('-');
        4
    } else {
        5
    };
    let ghost start = out@;
    let mut k: usize = 0;
    let zeros: usize = if width > digits.len() {
        width - digits.len()
    } else {
        0
    };
    while k < zeros
        invariant
            k <= zeros,
            out@ == start + Seq::new(k as nat, |i: int| '0'),
        decreases zeros - k,
    {
        out.push('0');
        k = k + 1;
        assert(out@ =~= start + Seq::new(k as nat, |i: int| '0'));
    }
    push_all(&mut out, &digits);
    proof {
        if z < 0 {
            assert((-z) as nat == magnitude as nat);
            assert(out@ =~= zip_text(z));
        } else {
            assert(out@ =~= zip_text(z));
        }
    }
    string_from_chars(&out)
}

/// The address of a row that its ten address columns are made of.
#[derive(Clone, Debug)]
pub struct AddressValues {
    pub street_number: i32,
    pub street_name: String,
    pub street_type: String,
    pub suite_number: String,
    pub city: String,
    pub county: Option<String>,
    pub state: String,
    pub zip: i32,
    pub country: String,
    pub gmt_offset: i32,
}

/// The ten address columns of a batch: street number, street name, street
/// type, suite number, city, county, state, zip, country and GMT offset.
#[derive(Clone, Debug)]
pub struct AddressColumns {
    pub street_number: Vec<Option<i32>>,
    pub street_name: Vec<Option<String>>,
    pub street_type: Vec<Option<String>>,
    pub suite_number: Vec<Option<String>>,
    pub city: Vec<Option<String>>,
    pub county: Vec<Option<String>>,
    pub state: Vec<Option<String>>,
    pub zip: Vec<Option<String>>,
    pub country: Vec<Option<String>>,
    pub gmt_offset: Vec<Option<i32>>,
}

/// Whether every address column of `c` has `n` values.
pub open spec fn address_lengths(c: AddressColumns, n: int) -> bool {
    &&& c.street_number@.len() == n
    &&& c.street_name@.len() == n
    &&& c.street_type@.len() == n
    &&& c.suite_number@.len() == n
    &&& c.city@.len() == n
    &&& c.county@.len() == n
    &&& c.state@.len() == n
    &&& c.zip@.len() == n
    &&& c.country@.len() == n
    &&& c.gmt_offset@.len() == n
}

/// Whether row `i` of `c` holds address `a`, whose ten columns have their
/// null bits at `base..base + 10` of `nbm`; a county the address lacks is
/// NULL too.
pub open spec fn address_row(c: AddressColumns, i: int, a: AddressValues, nbm: i64, base: u32) -> bool {
    &&& c.street_number@[i] == nullable(nbm, base, a.street_number)
    &&& text_view(c.street_name@[i]) == nullable(nbm, (base + 1) as u32, a.street_name@)
    &&& text_view(c.street_type@[i]) == nullable(nbm, (base + 2) as u32, a.street_type@)
    &&& text_view(c.suite_number@[i]) == nullable(nbm, (base + 3) as u32, a.suite_number@)
    &&& text_view(c.city@[i]) == nullable(nbm, (base + 4) as u32, a.city@)
    &&& text_view(c.county@[i]) == (if null_bit_set(nbm, (base + 5) as u32) {
        None
    } else {
        text_view(a.county)
    })
    &&& text_view(c.state@[i]) == nullable(nbm, (base + 6) as u32, a.state@)
    &&& text_view(c.zip@[i]) == nullable(nbm, (base + 7) as u32, zip_text(a.zip))
    &&& text_view(c.country@[i]) == nullable(nbm, (base + 8) as u32, a.country@)
    &&& c.gmt_offset@[i] == nullable(nbm, (base + 9) as u32, a.gmt_offset)
}

/// Each address column reads its own field of the address: NULL where its
/// null bit (`base` plus its position) is set, otherwise the field's value;
/// the zip code is written zero-padded, and a county the address lacks is
/// NULL.
pub proof fn lemma_address_columns_read_their_fields(
    c: AddressColumns,
    i: int,
    a: AddressValues,
    nbm: i64,
    base: u32,
)
    requires
        address_row(c, i, a, nbm, base),
        base + 9 < 64,
    ensures
        null_bit_set(nbm, base) ==> c.street_number@[i] is None,
        !null_bit_set(nbm, base) ==> c.street_number@[i] == Some(a.street_number),
        !null_bit_set(nbm, (base + 1) as u32) ==> (c.street_name@[i] matches Some(x) && x@
            == a.street_name@),
        !null_bit_set(nbm, (base + 2) as u32) ==> (c.street_type@[i] matches Some(x) && x@
            == a.street_type@),
        !null_bit_set(nbm, (base + 3) as u32) ==> (c.suite_number@[i] matches Some(x) && x@
            == a.suite_number@),
        !null_bit_set(nbm, (base + 4) as u32) ==> (c.city@[i] matches Some(x) && x@ == a.city@),
        null_bit_set(nbm, (base + 5) as u32) || a.county is None ==> c.county@[i] is None,
        !null_bit_set(nbm, (base + 5) as u32) && a.county is Some ==> (c.county@[i] matches Some(
            x,
        ) && x@ == a.county->0@),
        !null_bit_set(nbm, (base + 6) as u32) ==> (c.state@[i] matches Some(x) && x@ == a.state@),
        !null_bit_set(nbm, (base + 7) as u32) ==> (c.zip@[i] matches Some(x) && x@ == zip_text(a.zip)),
        a.zip >= 0 ==> zip_text(a.zip).len() >= 5,
        !null_bit_set(nbm, (base + 8) as u32) ==> (c.country@[i] matches Some(x) && x@
            == a.country@),
        !null_bit_set(nbm, (base + 9) as u32) ==> c.gmt_offset@[i] == Some(a.gmt_offset),
{
}

/// Empty address columns.
pub fn address_columns_with_capacity(n: usize) -> (r: AddressColumns)
    ensures
        address_lengths(r, 0),
{
    AddressColumns {
        street_number: Vec::with_capacity(n),
        street_name: Vec::with_capacity(n),
        street_type: Vec::with_capacity(n),
        suite_number: Vec::with_capacity(n),
        city: Vec::with_capacity(n),
        county: Vec::with_capacity(n),
        state: Vec::with_capacity(n),
        zip: Vec::with_capacity(n),
        country: Vec::with_capacity(n),
        gmt_offset: Vec::with_capacity(n),
    }
}

/// Whether `c` is `old` with one more value in each address column.
pub open spec fn address_extended(old: AddressColumns, c: AddressColumns) -> bool {
    &&& c.street_number@.drop_last() == old.street_number@
    &&& c.street_name@.drop_last() == old.street_name@
    &&& c.street_type@.drop_last() == old.street_type@
    &&& c.suite_number@.drop_last() == old.suite_number@
    &&& c.city@.drop_last() == old.city@
    &&& c.county@.drop_last() == old.county@
    &&& c.state@.drop_last() == old.state@
    &&& c.zip@.drop_last() == old.zip@
    &&& c.country@.drop_last() == old.country@
    &&& c.gmt_offset@.drop_last() == old.gmt_offset@
}

/// Adds the address `a` of a row with null bitmap `nbm` to the columns.
pub fn push_address(c: &mut AddressColumns, a: &AddressValues, nbm: i64, base: u32)
    requires
        base + 9 < 64,
        address_lengths(*old(c), old(c).street_number@.len() as int),
    ensures
        address_lengths(*final(c), old(c).street_number@.len() + 1int),
        address_extended(*old(c), *final(c)),
        address_row(*final(c), old(c).street_number@.len() as int, *a, nbm, base),
{
    let ghost n = c.street_number@.len() as int;
    c.street_number.push(opt(nbm, base, a.street_number));
    c.street_name.push(opt(nbm, base + 1, a.street_name.clone()));
    c.street_type.push(opt(nbm, base + 2, a.street_type.clone()));
    c.suite_number.push(opt(nbm, base + 3, a.suite_number.clone()));
    c.city.push(opt(nbm, base + 4, a.city.clone()));
    let county = if is_null(nbm, base + 5) {
        None
    } else {
        match &a.county {
            Some(s) => Some(s.clone()),
            None => None,
        }
    };
    c.county.push(county);
    c.state.push(opt(nbm, base + 6, a.state.clone()));
    c.zip.push(if is_null(nbm, base + 7) {
        None
    } else {
        Some(zip_string(a.zip))
    });
    c.country.push(opt(nbm, base + 8, a.country.clone()));
    c.gmt_offset.push(opt(nbm, base + 9, a.gmt_offset));
    assert(c.street_number@.drop_last() =~= old(c).street_number@);
    assert(c.street_name@.drop_last() =~= old(c).street_name@);
    assert(c.street_type@.drop_last() =~= old(c).street_type@);
    assert(c.suite_number@.drop_last() =~= old(c).suite_number@);
    assert(c.city@.drop_last() =~= old(c).city@);
    assert(c.county@.drop_last() =~= old(c).county@);
    assert(c.state@.drop_last() =~= old(c).state@);
    assert(c.zip@.drop_last() =~= old(c).zip@);
    assert(c.country@.drop_last() =~= old(c).country@);
    assert(c.gmt_offset@.drop_last() =~= old(c).gmt_offset@);
}

/// The address columns of a batch: each entry is a row's address, its null
/// bitmap and the null bit of its first address column.
pub fn address_columns(rows: &Vec<(AddressValues, i64, u32)>) -> (r: AddressColumns)
    requires
        forall|i: int| 0 <= i < rows.len() ==> (#[trigger] rows@[i]).2 + 9 < 64,
    ensures
        address_lengths(r, rows.len() as int),
        forall|i: int|
            0 <= i < rows.len() ==> address_row(r, i, (#[trigger] rows@[i]).0, rows@[i].1, rows@[i].2),
{
    let mut out = address_columns_with_capacity(rows.len());
    let mut i: usize = 0;
    while i < rows.len()
        invariant
            i <= rows.len(),
            address_lengths(out, i as int),
            forall|j: int|
                0 <= j < i ==> address_row(out, j, (#[trigger] rows@[j]).0, rows@[j].1, rows@[j].2),
            forall|j: int| 0 <= j < rows.len() ==> (#[trigger] rows@[j]).2 + 9 < 64,
        decreases rows.len() - i,
    {
        let ghost before = out;
        assert(rows@[i as int].2 + 9 < 64);
        push_address(&mut out, &rows[i].0, rows[i].1, rows[i].2);
        assert forall|j: int| 0 <= j < i + 1 implies address_row(
            out,
            j,
            (#[trigger] rows@[j]).0,
            rows@[j].1,
            rows@[j].2,
        ) by {
            if j < i {
                assert(address_row(before, j, rows@[j].0, rows@[j].1, rows@[j].2));
                assert(out.street_number@[j] == before.street_number@[j]);
                assert(out.street_name@[j] == before.street_name@[j]);
                assert(out.street_type@[j] == before.street_type@[j]);
                assert(out.suite_number@[j] == before.suite_number@[j]);
                assert(out.city@[j] == before.city@[j]);
                assert(out.county@[j] == before.county@[j]);
                assert(out.state@[j] == before.state@[j]);
                assert(out.zip@[j] == before.zip@[j]);
                assert(out.country@[j] == before.country@[j]);
                assert(out.gmt_offset@[j] == before.gmt_offset@[j]);
            }
        }
        i = i + 1;
    }
    out
}

/// `"Y"` for true, `"N"` for false, as a `String`.
pub fn yn_string(b: bool) -> (r: String)
    ensures
        r@ == yn_text(b),
{
    proof {
        reveal_strlit("Y");
        reveal_strlit("N");
    }
    if b {
        String::from_str("Y")
    } else {
        String::from_str("N")
    }
}

/// A copy of `s`, or `None` when it is empty.
pub fn non_empty_text(s: &String) -> (r: Option<String>)
    ensures
        text_view(r) == nonempty_text(s@),
{
    if s.as_str().is_empty() {
        None
    } else {
        Some(s.clone())
    }
}

/// The values of one `inventory` row that its columns are made of, with
/// the row's null bitmap.
#[derive(Clone, Debug)]
pub struct InventoryValues {
    pub null_bit_map: i64,
    pub inv_date_sk: i64,
    pub inv_item_sk: i64,
    pub inv_warehouse_sk: i64,
    pub inv_quantity_on_hand: i32,
}

/// The columns of a batch of `inventory` rows, in schema order.
#[derive(Clone, Debug)]
pub struct InventoryColumns {
    pub inv_date: Vec<Option<i64>>,
    pub inv_item: Vec<Option<i64>>,
    pub inv_warehouse: Vec<Option<i64>>,
    pub inv_qty: Vec<Option<i32>>,
}

/// Whether row `i` of `c` holds the column values of `v`.
pub open spec fn inventory_row_columns(c: InventoryColumns, i: int, v: InventoryValues) -> bool {
    &&& c.inv_date@[i] == nullable_key(v.null_bit_map, 0, v.inv_date_sk)
    &&& c.inv_item@[i] == nullable_key(v.null_bit_map, 1, v.inv_item_sk)
    &&& c.inv_warehouse@[i] == nullable_key(v.null_bit_map, 2, v.inv_warehouse_sk)
    &&& c.inv_qty@[i] == nullable(v.null_bit_map, 3, v.inv_quantity_on_hand)
}

/// Each column of a `inventory` row reads its own field of the row: NULL
/// where the row's null bit for the column is set (a key also where it is
/// negative), otherwise that field's value, converted as the column's type
/// asks; no column takes another field's value.
pub proof fn lemma_inventory_columns_read_their_fields(c: InventoryColumns, i: int, v: InventoryValues)
    requires
        inventory_row_columns(c, i, v),
    ensures
        null_bit_set(v.null_bit_map, 0) || v.inv_date_sk < 0 ==> c.inv_date@[i] is None,
        !null_bit_set(v.null_bit_map, 0) && v.inv_date_sk >= 0 ==> c.inv_date@[i] == Some(v.inv_date_sk),
        null_bit_set(v.null_bit_map, 1) || v.inv_item_sk < 0 ==> c.inv_item@[i] is None,
        !null_bit_set(v.null_bit_map, 1) && v.inv_item_sk >= 0 ==> c.inv_item@[i] == Some(v.inv_item_sk),
        null_bit_set(v.null_bit_map, 2) || v.inv_warehouse_sk < 0 ==> c.inv_warehouse@[i] is None,
        !null_bit_set(v.null_bit_map, 2) && v.inv_warehouse_sk >= 0 ==> c.inv_warehouse@[i] == Some(v.inv_warehouse_sk),
        null_bit_set(v.null_bit_map, 3) ==> c.inv_qty@[i] is None,
        !null_bit_set(v.null_bit_map, 3) ==> c.inv_qty@[i] == Some(v.inv_quantity_on_hand),
{
}

/// Whether every column of `c` has `n` values.
pub open spec fn inventory_column_lengths(c: InventoryColumns, n: int) -> bool {
    &&& c.inv_date@.len() == n
    &&& c.inv_item@.len() == n
    &&& c.inv_warehouse@.len() == n
    &&& c.inv_qty@.len() == n
}

/// The columns of a batch of `inventory` rows: each value NULL where the
/// row's null bitmap marks its column (and a key also where it is negative),
/// decimals as their unscaled number, flags as `Y`/`N`.
#[verifier::rlimit(40)]
pub fn inventory_columns(rows: &Vec<InventoryValues>) -> (r: InventoryColumns)
    ensures
        inventory_column_lengths(r, rows.len() as int),
        forall|i: int| 0 <= i < rows.len() ==> inventory_row_columns(r, i, #[trigger] rows@[i]),
{
    let mut out = InventoryColumns {
        inv_date: Vec::with_capacity(rows.len()),
        inv_item: Vec::with_capacity(rows.len()),
        inv_warehouse: Vec::with_capacity(rows.len()),
        inv_qty: Vec::with_capacity(rows.len()),
    };
    let mut i: usize = 0;
    while i < rows.len()
        invariant
            i <= rows.len(),
            inventory_column_lengths(out, i as int),
            forall|j: int| 0 <= j < i ==> inventory_row_columns(out, j, #[trigger] rows@[j]),
        decreases rows.len() - i,
    {
        let v = &rows[i];
        let nbm = v.null_bit_map;
        let ghost before = out;
        out.inv_date.push(sk_opt(nbm, 0, v.inv_date_sk));
        out.inv_item.push(sk_opt(nbm, 1, v.inv_item_sk));
        out.inv_warehouse.push(sk_opt(nbm, 2, v.inv_warehouse_sk));
        out.inv_qty.push(opt(nbm, 3, v.inv_quantity_on_hand));
        assert forall|j: int| 0 <= j < i + 1 implies inventory_row_columns(out, j, #[trigger] rows@[j]) by {
            if j < i {
                assert(inventory_row_columns(before, j, rows@[j]));
            }
        }
        i = i + 1;
    }
    out
}

/// The values of one `catalog_page` row that its columns are made of, with
/// the row's null bitmap.
#[derive(Clone, Debug)]
pub struct CatalogPageValues {
    pub null_bit_map: i64,
    pub cp_catalog_page_sk: i64,
    pub cp_catalog_page_id: String,
    pub cp_start_date_id: i64,
    pub cp_end_date_id: i64,
    pub cp_department: String,
    pub cp_catalog_number: i32,
    pub cp_catalog_page_number: i32,
    pub cp_description: String,
    pub cp_type: String,
}

/// The columns of a batch of `catalog_page` rows, in schema order.
#[derive(Clone, Debug)]
pub struct CatalogPageColumns {
    pub cp_sk: Vec<Option<i64>>,
    pub cp_id: Vec<Option<String>>,
    pub cp_start: Vec<Option<i64>>,
    pub cp_end: Vec<Option<i64>>,
    pub cp_dept: Vec<Option<String>>,
    pub cp_num: Vec<Option<i32>>,
    pub cp_page_num: Vec<Option<i32>>,
    pub cp_desc: Vec<Option<String>>,
    pub cp_type: Vec<Option<String>>,
}

/// Whether row `i` of `c` holds the column values of `v`.
pub open spec fn catalog_page_row_columns(c: CatalogPageColumns, i: int, v: CatalogPageValues) -> bool {
    &&& c.cp_sk@[i] == nullable_key(v.null_bit_map, 0, v.cp_catalog_page_sk)
    &&& text_view(c.cp_id@[i]) == nullable(v.null_bit_map, 1, v.cp_catalog_page_id@)
    &&& c.cp_start@[i] == nullable_key(v.null_bit_map, 2, v.cp_start_date_id)
    &&& c.cp_end@[i] == nullable_key(v.null_bit_map, 3, v.cp_end_date_id)
    &&& text_view(c.cp_dept@[i]) == nullable(v.null_bit_map, 5, v.cp_department@)
    &&& c.cp_num@[i] == nullable(v.null_bit_map, 6, v.cp_catalog_number)
    &&& c.cp_page_num@[i] == nullable(v.null_bit_map, 7, v.cp_catalog_page_number)
    &&& text_view(c.cp_desc@[i]) == nullable(v.null_bit_map, 8, v.cp_description@)
    &&& text_view(c.cp_type@[i]) == nullable(v.null_bit_map, 9, v.cp_type@)
}

/// Each column of a `catalog_page` row reads its own field of the row: NULL
/// where the row's null bit for the column is set (a key also where it is
/// negative), otherwise that field's value, converted as the column's type
/// asks; no column takes another field's value.
pub proof fn lemma_catalog_page_columns_read_their_fields(c: CatalogPageColumns, i: int, v: CatalogPageValues)
    requires
        catalog_page_row_columns(c, i, v),
    ensures
        null_bit_set(v.null_bit_map, 0) || v.cp_catalog_page_sk < 0 ==> c.cp_sk@[i] is None,
        !null_bit_set(v.null_bit_map, 0) && v.cp_catalog_page_sk >= 0 ==> c.cp_sk@[i] == Some(v.cp_catalog_page_sk),
        null_bit_set(v.null_bit_map, 1) ==> c.cp_id@[i] is None,
        !null_bit_set(v.null_bit_map, 1) ==> (c.cp_id@[i] matches Some(x) && x@ == v.cp_catalog_page_id@),
        null_bit_set(v.null_bit_map, 2) || v.cp_start_date_id < 0 ==> c.cp_start@[i] is None,
        !null_bit_set(v.null_bit_map, 2) && v.cp_start_date_id >= 0 ==> c.cp_start@[i] == Some(v.cp_start_date_id),
        null_bit_set(v.null_bit_map, 3) || v.cp_end_date_id < 0 ==> c.cp_end@[i] is None,
        !null_bit_set(v.null_bit_map, 3) && v.cp_end_date_id >= 0 ==> c.cp_end@[i] == Some(v.cp_end_date_id),
        null_bit_set(v.null_bit_map, 5) ==> c.cp_dept@[i] is None,
        !null_bit_set(v.null_bit_map, 5) ==> (c.cp_dept@[i] matches Some(x) && x@ == v.cp_department@),
        null_bit_set(v.null_bit_map, 6) ==> c.cp_num@[i] is None,
        !null_bit_set(v.null_bit_map, 6) ==> c.cp_num@[i] == Some(v.cp_catalog_number),
        null_bit_set(v.null_bit_map, 7) ==> c.cp_page_num@[i] is None,
        !null_bit_set(v.null_bit_map, 7) ==> c.cp_page_num@[i] == Some(v.cp_catalog_page_number),
        null_bit_set(v.null_bit_map, 8) ==> c.cp_desc@[i] is None,
        !null_bit_set(v.null_bit_map, 8) ==> (c.cp_desc@[i] matches Some(x) && x@ == v.cp_description@),
        null_bit_set(v.null_bit_map, 9) ==> c.cp_type@[i] is None,
        !null_bit_set(v.null_bit_map, 9) ==> (c.cp_type@[i] matches Some(x) && x@ == v.cp_type@),
{
}

/// Whether every column of `c` has `n` values.
pub open spec fn catalog_page_column_lengths(c: CatalogPageColumns, n: int) -> bool {
    &&& c.cp_sk@.len() == n
    &&& c.cp_id@.len() == n
    &&& c.cp_start@.len() == n
    &&& c.cp_end@.len() == n
    &&& c.cp_dept@.len() == n
    &&& c.cp_num@.len() == n
    &&& c.cp_page_num@.len() == n
    &&& c.cp_desc@.len() == n
    &&& c.cp_type@.len() == n
}

/// The columns of a batch of `catalog_page` rows: each value NULL where the
/// row's null bitmap marks its column (and a key also where it is negative),
/// decimals as their unscaled number, flags as `Y`/`N`.
#[verifier::rlimit(40)]
pub fn catalog_page_columns(rows: &Vec<CatalogPageValues>) -> (r: CatalogPageColumns)
    ensures
        catalog_page_column_lengths(r, rows.len() as int),
        forall|i: int| 0 <= i < rows.len() ==> catalog_page_row_columns(r, i, #[trigger] rows@[i]),
{
    let mut out = CatalogPageColumns {
        cp_sk: Vec::with_capacity(rows.len()),
        cp_id: Vec::with_capacity(rows.len()),
        cp_start: Vec::with_capacity(rows.len()),
        cp_end: Vec::with_capacity(rows.len()),
        cp_dept: Vec::with_capacity(rows.len()),
        cp_num: Vec::with_capacity(rows.len()),
        cp_page_num: Vec::with_capacity(rows.len()),
        cp_desc: Vec::with_capacity(rows.len()),
        cp_type: Vec::with_capacity(rows.len()),
    };
    let mut i: usize = 0;
    while i < rows.len()
        invariant
            i <= rows.len(),
            catalog_page_column_lengths(out, i as int),
            forall|j: int| 0 <= j < i ==> catalog_page_row_columns(out, j, #[trigger] rows@[j]),
        decreases rows.len() - i,
    {
        let v = &rows[i];
        let nbm = v.null_bit_map;
        let ghost before = out;
        out.cp_sk.push(sk_opt(nbm, 0, v.cp_catalog_page_sk));
        out.cp_id.push(opt(nbm, 1, v.cp_catalog_page_id.clone()));
        out.cp_start.push(sk_opt(nbm, 2, v.cp_start_date_id));
        out.cp_end.push(sk_opt(nbm, 3, v.cp_end_date_id));
        out.cp_dept.push(opt(nbm, 5, v.cp_department.clone()));
        out.cp_num.push(opt(nbm, 6, v.cp_catalog_number));
        out.cp_page_num.push(opt(nbm, 7, v.cp_catalog_page_number));
        out.cp_desc.push(opt(nbm, 8, v.cp_description.clone()));
        out.cp_type.push(opt(nbm, 9, v.cp_type.clone()));
        assert forall|j: int| 0 <= j < i + 1 implies catalog_page_row_columns(out, j, #[trigger] rows@[j]) by {
            if j < i {
                assert(catalog_page_row_columns(before, j, rows@[j]));
            }
        }
        i = i + 1;
    }
    out
}

/// The values of one `customer_demographics` row that its columns are made of, with
/// the row's null bitmap.
#[derive(Clone, Debug)]
pub struct CustomerDemographicsValues {
    pub null_bit_map: i64,
    pub cd_demo_sk: i64,
    pub cd_gender: String,
    pub cd_marital_status: String,
    pub cd_education_status: String,
    pub cd_purchase_estimate: i32,
    pub cd_credit_rating: String,
    pub cd_dep_count: i32,
    pub cd_dep_employed_count: i32,
    pub cd_dep_college_count: i32,
}

/// The columns of a batch of `customer_demographics` rows, in schema order.
#[derive(Clone, Debug)]
pub struct CustomerDemographicsColumns {
    pub demo_sk: Vec<Option<i64>>,
    pub gender: Vec<Option<String>>,
    pub marital: Vec<Option<String>>,
    pub education: Vec<Option<String>>,
    pub purchase: Vec<Option<i32>>,
    pub credit: Vec<Option<String>>,
    pub dep_count: Vec<Option<i32>>,
    pub dep_emp: Vec<Option<i32>>,
    pub dep_college: Vec<Option<i32>>,
}

/// Whether row `i` of `c` holds the column values of `v`.
pub open spec fn customer_demographics_row_columns(c: CustomerDemographicsColumns, i: int, v: CustomerDemographicsValues) -> bool {
    &&& c.demo_sk@[i] == nullable_key(v.null_bit_map, 0, v.cd_demo_sk)
    &&& text_view(c.gender@[i]) == nullable(v.null_bit_map, 1, v.cd_gender@)
    &&& text_view(c.marital@[i]) == nullable(v.null_bit_map, 2, v.cd_marital_status@)
    &&& text_view(c.education@[i]) == nullable(v.null_bit_map, 3, v.cd_education_status@)
    &&& c.purchase@[i] == nullable(v.null_bit_map, 4, v.cd_purchase_estimate)
    &&& text_view(c.credit@[i]) == nullable(v.null_bit_map, 5, v.cd_credit_rating@)
    &&& c.dep_count@[i] == nullable(v.null_bit_map, 6, v.cd_dep_count)
    &&& c.dep_emp@[i] == nullable(v.null_bit_map, 7, v.cd_dep_employed_count)
    &&& c.dep_college@[i] == nullable(v.null_bit_map, 8, v.cd_dep_college_count)
}

/// Each column of a `customer_demographics` row reads its own field of the row: NULL
/// where the row's null bit for the column is set (a key also where it is
/// negative), otherwise that field's value, converted as the column's type
/// asks; no column takes another field's value.
pub proof fn lemma_customer_demographics_columns_read_their_fields(c: CustomerDemographicsColumns, i: int, v: CustomerDemographicsValues)
    requires
        customer_demographics_row_columns(c, i, v),
    ensures
        null_bit_set(v.null_bit_map, 0) || v.cd_demo_sk < 0 ==> c.demo_sk@[i] is None,
        !null_bit_set(v.null_bit_map, 0) && v.cd_demo_sk >= 0 ==> c.demo_sk@[i] == Some(v.cd_demo_sk),
        null_bit_set(v.null_bit_map, 1) ==> c.gender@[i] is None,
        !null_bit_set(v.null_bit_map, 1) ==> (c.gender@[i] matches Some(x) && x@ == v.cd_gender@),
        null_bit_set(v.null_bit_map, 2) ==> c.marital@[i] is None,
        !null_bit_set(v.null_bit_map, 2) ==> (c.marital@[i] matches Some(x) && x@ == v.cd_marital_status@),
        null_bit_set(v.null_bit_map, 3) ==> c.education@[i] is None,
        !null_bit_set(v.null_bit_map, 3) ==> (c.education@[i] matches Some(x) && x@ == v.cd_education_status@),
        null_bit_set(v.null_bit_map, 4) ==> c.purchase@[i] is None,
        !null_bit_set(v.null_bit_map, 4) ==> c.purchase@[i] == Some(v.cd_purchase_estimate),
        null_bit_set(v.null_bit_map, 5) ==> c.credit@[i] is None,
        !null_bit_set(v.null_bit_map, 5) ==> (c.credit@[i] matches Some(x) && x@ == v.cd_credit_rating@),
        null_bit_set(v.null_bit_map, 6) ==> c.dep_count@[i] is None,
        !null_bit_set(v.null_bit_map, 6) ==> c.dep_count@[i] == Some(v.cd_dep_count),
        null_bit_set(v.null_bit_map, 7) ==> c.dep_emp@[i] is None,
        !null_bit_set(v.null_bit_map, 7) ==> c.dep_emp@[i] == Some(v.cd_dep_employed_count),
        null_bit_set(v.null_bit_map, 8) ==> c.dep_college@[i] is None,
        !null_bit_set(v.null_bit_map, 8) ==> c.dep_college@[i] == Some(v.cd_dep_college_count),
{
}

/// Whether every column of `c` has `n` values.
pub open spec fn customer_demographics_column_lengths(c: CustomerDemographicsColumns, n: int) -> bool {
    &&& c.demo_sk@.len() == n
    &&& c.gender@.len() == n
    &&& c.marital@.len() == n
    &&& c.education@.len() == n
    &&& c.purchase@.len() == n
    &&& c.credit@.len() == n
    &&& c.dep_count@.len() == n
    &&& c.dep_emp@.len() == n
    &&& c.dep_college@.len() == n
}

/// The columns of a batch of `customer_demographics` rows: each value NULL where the
/// row's null bitmap marks its column (and a key also where it is negative),
/// decimals as their unscaled number, flags as `Y`/`N`.
#[verifier::rlimit(40)]
pub fn customer_demographics_columns(rows: &Vec<CustomerDemographicsValues>) -> (r: CustomerDemographicsColumns)
    ensures
        customer_demographics_column_lengths(r, rows.len() as int),
        forall|i: int| 0 <= i < rows.len() ==> customer_demographics_row_columns(r, i, #[trigger] rows@[i]),
{
    let mut out = CustomerDemographicsColumns {
        demo_sk: Vec::with_capacity(rows.len()),
        gender: Vec::with_capacity(rows.len()),
        marital: Vec::with_capacity(rows.len()),
        education: Vec::with_capacity(rows.len()),
        purchase: Vec::with_capacity(rows.len()),
        credit: Vec::with_capacity(rows.len()),
        dep_count: Vec::with_capacity(rows.len()),
        dep_emp: Vec::with_capacity(rows.len()),
        dep_college: Vec::with_capacity(rows.len()),
    };
    let mut i: usize = 0;
    while i < rows.len()
        invariant
            i <= rows.len(),
            customer_demographics_column_lengths(out, i as int),
            forall|j: int| 0 <= j < i ==> customer_demographics_row_columns(out, j, #[trigger] rows@[j]),
        decreases rows.len() - i,
    {
        let v = &rows[i];
        let nbm = v.null_bit_map;
        let ghost before = out;
        out.demo_sk.push(sk_opt(nbm, 0, v.cd_demo_sk));
        out.gender.push(opt(nbm, 1, v.cd_gender.clone()));
        out.marital.push(opt(nbm, 2, v.cd_marital_status.clone()));
        out.education.push(opt(nbm, 3, v.cd_education_status.clone()));
        out.purchase.push(opt(nbm, 4, v.cd_purchase_estimate));
        out.credit.push(opt(nbm, 5, v.cd_credit_rating.clone()));
        out.dep_count.push(opt(nbm, 6, v.cd_dep_count));
        out.dep_emp.push(opt(nbm, 7, v.cd_dep_employed_count));
        out.dep_college.push(opt(nbm, 8, v.cd_dep_college_count));
        assert forall|j: int| 0 <= j < i + 1 implies customer_demographics_row_columns(out, j, #[trigger] rows@[j]) by {
            if j < i {
                assert(customer_demographics_row_columns(before, j, rows@[j]));
            }
        }
        i = i + 1;
    }
    out
}

/// The values of one `household_demographics` row that its columns are made of, with
/// the row's null bitmap.
#[derive(Clone, Debug)]
pub struct HouseholdDemographicsValues {
    pub null_bit_map: i64,
    pub hd_demo_sk: i64,
    pub hd_income_band_sk: i64,
    pub hd_buy_potential: String,
    pub hd_dep_count: i32,
    pub hd_vehicle_count: i32,
}

/// The columns of a batch of `household_demographics` rows, in schema order.
#[derive(Clone, Debug)]
pub struct HouseholdDemographicsColumns {
    pub demo_sk: Vec<Option<i64>>,
    pub income_band_sk: Vec<Option<i64>>,
    pub buy_potential: Vec<Option<String>>,
    pub dep_count: Vec<Option<i32>>,
    pub vehicle_count: Vec<Option<i32>>,
}

/// Whether row `i` of `c` holds the column values of `v`.
pub open spec fn household_demographics_row_columns(c: HouseholdDemographicsColumns, i: int, v: HouseholdDemographicsValues) -> bool {
    &&& c.demo_sk@[i] == nullable_key(v.null_bit_map, 0, v.hd_demo_sk)
    &&& c.income_band_sk@[i] == nullable_key(v.null_bit_map, 1, v.hd_income_band_sk)
    &&& text_view(c.buy_potential@[i]) == nullable(v.null_bit_map, 2, v.hd_buy_potential@)
    &&& c.dep_count@[i] == nullable(v.null_bit_map, 3, v.hd_dep_count)
    &&& c.vehicle_count@[i] == nullable(v.null_bit_map, 4, v.hd_vehicle_count)
}

/// Each column of a `household_demographics` row reads its own field of the row: NULL
/// where the row's null bit for the column is set (a key also where it is
/// negative), otherwise that field's value, converted as the column's type
/// asks; no column takes another field's value.
pub proof fn lemma_household_demographics_columns_read_their_fields(c: HouseholdDemographicsColumns, i: int, v: HouseholdDemographicsValues)
    requires
        household_demographics_row_columns(c, i, v),
    ensures
        null_bit_set(v.null_bit_map, 0) || v.hd_demo_sk < 0 ==> c.demo_sk@[i] is None,
        !null_bit_set(v.null_bit_map, 0) && v.hd_demo_sk >= 0 ==> c.demo_sk@[i] == Some(v.hd_demo_sk),
        null_bit_set(v.null_bit_map, 1) || v.hd_income_band_sk < 0 ==> c.income_band_sk@[i] is None,
        !null_bit_set(v.null_bit_map, 1) && v.hd_income_band_sk >= 0 ==> c.income_band_sk@[i] == Some(v.hd_income_band_sk),
        null_bit_set(v.null_bit_map, 2) ==> c.buy_potential@[i] is None,
        !null_bit_set(v.null_bit_map, 2) ==> (c.buy_potential@[i] matches Some(x) && x@ == v.hd_buy_potential@),
        null_bit_set(v.null_bit_map, 3) ==> c.dep_count@[i] is None,
        !null_bit_set(v.null_bit_map, 3) ==> c.dep_count@[i] == Some(v.hd_dep_count),
        null_bit_set(v.null_bit_map, 4) ==> c.vehicle_count@[i] is None,
        !null_bit_set(v.null_bit_map, 4) ==> c.vehicle_count@[i] == Some(v.hd_vehicle_count),
{
}

/// Whether every column of `c` has `n` values.
pub open spec fn household_demographics_column_lengths(c: HouseholdDemographicsColumns, n: int) -> bool {
    &&& c.demo_sk@.len() == n
    &&& c.income_band_sk@.len() == n
    &&& c.buy_potential@.len() == n
    &&& c.dep_count@.len() == n
    &&& c.vehicle_count@.len() == n
}

/// The columns of a batch of `household_demographics` rows: each value NULL where the
/// row's null bitmap marks its column (and a key also where it is negative),
/// decimals as their unscaled number, flags as `Y`/`N`.
#[verifier::rlimit(40)]
pub fn household_demographics_columns(rows: &Vec<HouseholdDemographicsValues>) -> (r: HouseholdDemographicsColumns)
    ensures
        household_demographics_column_lengths(r, rows.len() as int),
        forall|i: int| 0 <= i < rows.len() ==> household_demographics_row_columns(r, i, #[trigger] rows@[i]),
{
    let mut out = HouseholdDemographicsColumns {
        demo_sk: Vec::with_capacity(rows.len()),
        income_band_sk: Vec::with_capacity(rows.len()),
        buy_potential: Vec::with_capacity(rows.len()),
        dep_count: Vec::with_capacity(rows.len()),
        vehicle_count: Vec::with_capacity(rows.len()),
    };
    let mut i: usize = 0;
    while i < rows.len()
        invariant
            i <= rows.len(),
            household_demographics_column_lengths(out, i as int),
            forall|j: int| 0 <= j < i ==> household_demographics_row_columns(out, j, #[trigger] rows@[j]),
        decreases rows.len() - i,
    {
        let v = &rows[i];
        let nbm = v.null_bit_map;
        let ghost before = out;
        out.demo_sk.push(sk_opt(nbm, 0, v.hd_demo_sk));
        out.income_band_sk.push(sk_opt(nbm, 1, v.hd_income_band_sk));
        out.buy_potential.push(opt(nbm, 2, v.hd_buy_potential.clone()));
        out.dep_count.push(opt(nbm, 3, v.hd_dep_count));
        out.vehicle_count.push(opt(nbm, 4, v.hd_vehicle_count));
        assert forall|j: int| 0 <= j < i + 1 implies household_demographics_row_columns(out, j, #[trigger] rows@[j]) by {
            if j < i {
                assert(household_demographics_row_columns(before, j, rows@[j]));
            }
        }
        i = i + 1;
    }
    out
}

/// The values of one `time_dim` row that its columns are made of, with
/// the row's null bitmap.
#[derive(Clone, Debug)]
pub struct TimeDimValues {
    pub null_bit_map: i64,
    pub t_time_sk: i64,
    pub t_time_id: String,
    pub t_time: i32,
    pub t_hour: i32,
    pub t_minute: i32,
    pub t_second: i32,
    pub t_am_pm: String,
    pub t_shift: String,
    pub t_sub_shift: String,
    pub t_meal_time: String,
}

/// The columns of a batch of `time_dim` rows, in schema order.
#[derive(Clone, Debug)]
pub struct TimeDimColumns {
    pub t_sk: Vec<Option<i64>>,
    pub t_id: Vec<Option<String>>,
    pub t_time: Vec<Option<i32>>,
    pub t_hour: Vec<Option<i32>>,
    pub t_minute: Vec<Option<i32>>,
    pub t_second: Vec<Option<i32>>,
    pub t_am_pm: Vec<Option<String>>,
    pub t_shift: Vec<Option<String>>,
    pub t_sub_shift: Vec<Option<String>>,
    pub t_meal_time: Vec<Option<String>>,
}

/// Whether row `i` of `c` holds the column values of `v`.
pub open spec fn time_dim_row_columns(c: TimeDimColumns, i: int, v: TimeDimValues) -> bool {
    &&& c.t_sk@[i] == nullable_key(v.null_bit_map, 0, v.t_time_sk)
    &&& text_view(c.t_id@[i]) == nullable(v.null_bit_map, 1, v.t_time_id@)
    &&& c.t_time@[i] == nullable(v.null_bit_map, 2, v.t_time)
    &&& c.t_hour@[i] == nullable(v.null_bit_map, 3, v.t_hour)
    &&& c.t_minute@[i] == nullable(v.null_bit_map, 4, v.t_minute)
    &&& c.t_second@[i] == nullable(v.null_bit_map, 5, v.t_second)
    &&& text_view(c.t_am_pm@[i]) == nullable(v.null_bit_map, 6, v.t_am_pm@)
    &&& text_view(c.t_shift@[i]) == nullable(v.null_bit_map, 7, v.t_shift@)
    &&& text_view(c.t_sub_shift@[i]) == nullable(v.null_bit_map, 8, v.t_sub_shift@)
    &&& text_view(c.t_meal_time@[i]) == nonempty_text(v.t_meal_time@)
}

/// Each column of a `time_dim` row reads its own field of the row: NULL
/// where the row's null bit for the column is set (a key also where it is
/// negative), otherwise that field's value, converted as the column's type
/// asks; no column takes another field's value.
pub proof fn lemma_time_dim_columns_read_their_fields(c: TimeDimColumns, i: int, v: TimeDimValues)
    requires
        time_dim_row_columns(c, i, v),
    ensures
        null_bit_set(v.null_bit_map, 0) || v.t_time_sk < 0 ==> c.t_sk@[i] is None,
        !null_bit_set(v.null_bit_map, 0) && v.t_time_sk >= 0 ==> c.t_sk@[i] == Some(v.t_time_sk),
        null_bit_set(v.null_bit_map, 1) ==> c.t_id@[i] is None,
        !null_bit_set(v.null_bit_map, 1) ==> (c.t_id@[i] matches Some(x) && x@ == v.t_time_id@),
        null_bit_set(v.null_bit_map, 2) ==> c.t_time@[i] is None,
        !null_bit_set(v.null_bit_map, 2) ==> c.t_time@[i] == Some(v.t_time),
        null_bit_set(v.null_bit_map, 3) ==> c.t_hour@[i] is None,
        !null_bit_set(v.null_bit_map, 3) ==> c.t_hour@[i] == Some(v.t_hour),
        null_bit_set(v.null_bit_map, 4) ==> c.t_minute@[i] is None,
        !null_bit_set(v.null_bit_map, 4) ==> c.t_minute@[i] == Some(v.t_minute),
        null_bit_set(v.null_bit_map, 5) ==> c.t_second@[i] is None,
        !null_bit_set(v.null_bit_map, 5) ==> c.t_second@[i] == Some(v.t_second),
        null_bit_set(v.null_bit_map, 6) ==> c.t_am_pm@[i] is None,
        !null_bit_set(v.null_bit_map, 6) ==> (c.t_am_pm@[i] matches Some(x) && x@ == v.t_am_pm@),
        null_bit_set(v.null_bit_map, 7) ==> c.t_shift@[i] is None,
        !null_bit_set(v.null_bit_map, 7) ==> (c.t_shift@[i] matches Some(x) && x@ == v.t_shift@),
        null_bit_set(v.null_bit_map, 8) ==> c.t_sub_shift@[i] is None,
        !null_bit_set(v.null_bit_map, 8) ==> (c.t_sub_shift@[i] matches Some(x) && x@ == v.t_sub_shift@),
        v.t_meal_time@.len() == 0 ==> c.t_meal_time@[i] is None,
        v.t_meal_time@.len() > 0 ==> (c.t_meal_time@[i] matches Some(x) && x@ == v.t_meal_time@),
{
}

/// Whether every column of `c` has `n` values.
pub open spec fn time_dim_column_lengths(c: TimeDimColumns, n: int) -> bool {
    &&& c.t_sk@.len() == n
    &&& c.t_id@.len() == n
    &&& c.t_time@.len() == n
    &&& c.t_hour@.len() == n
    &&& c.t_minute@.len() == n
    &&& c.t_second@.len() == n
    &&& c.t_am_pm@.len() == n
    &&& c.t_shift@.len() == n
    &&& c.t_sub_shift@.len() == n
    &&& c.t_meal_time@.len() == n
}

/// The columns of a batch of `time_dim` rows: each value NULL where the
/// row's null bitmap marks its column (and a key also where it is negative),
/// decimals as their unscaled number, flags as `Y`/`N`.
#[verifier::rlimit(40)]
pub fn time_dim_columns(rows: &Vec<TimeDimValues>) -> (r: TimeDimColumns)
    ensures
        time_dim_column_lengths(r, rows.len() as int),
        forall|i: int| 0 <= i < rows.len() ==> time_dim_row_columns(r, i, #[trigger] rows@[i]),
{
    let mut out = TimeDimColumns {
        t_sk: Vec::with_capacity(rows.len()),
        t_id: Vec::with_capacity(rows.len()),
        t_time: Vec::with_capacity(rows.len()),
        t_hour: Vec::with_capacity(rows.len()),
        t_minute: Vec::with_capacity(rows.len()),
        t_second: Vec::with_capacity(rows.len()),
        t_am_pm: Vec::with_capacity(rows.len()),
        t_shift: Vec::with_capacity(rows.len()),
        t_sub_shift: Vec::with_capacity(rows.len()),
        t_meal_time: Vec::with_capacity(rows.len()),
    };
    let mut i: usize = 0;
    while i < rows.len()
        invariant
            i <= rows.len(),
            time_dim_column_lengths(out, i as int),
            forall|j: int| 0 <= j < i ==> time_dim_row_columns(out, j, #[trigger] rows@[j]),
        decreases rows.len() - i,
    {
        let v = &rows[i];
        let nbm = v.null_bit_map;
        let ghost before = out;
        out.t_sk.push(sk_opt(nbm, 0, v.t_time_sk));
        out.t_id.push(opt(nbm, 1, v.t_time_id.clone()));
        out.t_time.push(opt(nbm, 2, v.t_time));
        out.t_hour.push(opt(nbm, 3, v.t_hour));
        out.t_minute.push(opt(nbm, 4, v.t_minute));
        out.t_second.push(opt(nbm, 5, v.t_second));
        out.t_am_pm.push(opt(nbm, 6, v.t_am_pm.clone()));
        out.t_shift.push(opt(nbm, 7, v.t_shift.clone()));
        out.t_sub_shift.push(opt(nbm, 8, v.t_sub_shift.clone()));
        out.t_meal_time.push(non_empty_text(&v.t_meal_time));
        assert forall|j: int| 0 <= j < i + 1 implies time_dim_row_columns(out, j, #[trigger] rows@[j]) by {
            if j < i {
                assert(time_dim_row_columns(before, j, rows@[j]));
            }
        }
        i = i + 1;
    }
    out
}

/// The values of one `customer` row that its columns are made of, with
/// the row's null bitmap.
#[derive(Clone, Debug)]
pub struct CustomerValues {
    pub null_bit_map: i64,
    pub c_customer_sk: i64,
    pub c_customer_id: String,
    pub c_current_cdemo_sk: i64,
    pub c_current_hdemo_sk: i64,
    pub c_current_addr_sk: i64,
    pub c_first_shipto_date_id: i32,
    pub c_first_sales_date_id: i32,
    pub c_salutation: String,
    pub c_first_name: String,
    pub c_last_name: String,
    pub c_preferred_cust_flag: bool,
    pub c_birth_day: i32,
    pub c_birth_month: i32,
    pub c_birth_year: i32,
    pub c_birth_country: String,
    pub c_email_address: String,
    pub c_last_review_date: i32,
}

/// The columns of a batch of `customer` rows, in schema order.
#[derive(Clone, Debug)]
pub struct CustomerColumns {
    pub c_sk: Vec<Option<i64>>,
    pub c_id: Vec<Option<String>>,
    pub c_cdemo_sk: Vec<Option<i64>>,
    pub c_hdemo_sk: Vec<Option<i64>>,
    pub c_addr_sk: Vec<Option<i64>>,
    pub c_shipto_date: Vec<Option<i32>>,
    pub c_sales_date: Vec<Option<i32>>,
    pub c_salutation: Vec<Option<String>>,
    pub c_first_name: Vec<Option<String>>,
    pub c_last_name: Vec<Option<String>>,
    pub c_pref_flag: Vec<Option<String>>,
    pub c_birth_day: Vec<Option<i32>>,
    pub c_birth_month: Vec<Option<i32>>,
    pub c_birth_year: Vec<Option<i32>>,
    pub c_birth_country: Vec<Option<String>>,
    pub c_login: Vec<Option<String>>,
    pub c_email: Vec<Option<String>>,
    pub c_last_review: Vec<Option<i32>>,
}

/// Whether row `i` of `c` holds the column values of `v`.
pub open spec fn customer_row_columns(c: CustomerColumns, i: int, v: CustomerValues) -> bool {
    &&& c.c_sk@[i] == nullable_key(v.null_bit_map, 0, v.c_customer_sk)
    &&& text_view(c.c_id@[i]) == nullable(v.null_bit_map, 1, v.c_customer_id@)
    &&& c.c_cdemo_sk@[i] == nullable_key(v.null_bit_map, 2, v.c_current_cdemo_sk)
    &&& c.c_hdemo_sk@[i] == nullable_key(v.null_bit_map, 3, v.c_current_hdemo_sk)
    &&& c.c_addr_sk@[i] == nullable_key(v.null_bit_map, 4, v.c_current_addr_sk)
    &&& c.c_shipto_date@[i] == nullable(v.null_bit_map, 5, v.c_first_shipto_date_id)
    &&& c.c_sales_date@[i] == nullable(v.null_bit_map, 6, v.c_first_sales_date_id)
    &&& text_view(c.c_salutation@[i]) == nullable(v.null_bit_map, 7, v.c_salutation@)
    &&& text_view(c.c_first_name@[i]) == nullable(v.null_bit_map, 8, v.c_first_name@)
    &&& text_view(c.c_last_name@[i]) == nullable(v.null_bit_map, 9, v.c_last_name@)
    &&& text_view(c.c_pref_flag@[i]) == nullable(v.null_bit_map, 10, yn_text(v.c_preferred_cust_flag))
    &&& c.c_birth_day@[i] == nullable(v.null_bit_map, 11, v.c_birth_day)
    &&& c.c_birth_month@[i] == nullable(v.null_bit_map, 12, v.c_birth_month)
    &&& c.c_birth_year@[i] == nullable(v.null_bit_map, 13, v.c_birth_year)
    &&& text_view(c.c_birth_country@[i]) == nullable(v.null_bit_map, 14, v.c_birth_country@)
    &&& c.c_login@[i] is None
    &&& text_view(c.c_email@[i]) == nullable(v.null_bit_map, 16, v.c_email_address@)
    &&& c.c_last_review@[i] == nullable(v.null_bit_map, 17, v.c_last_review_date)
}

/// Each column of a `customer` row reads its own field of the row: NULL
/// where the row's null bit for the column is set (a key also where it is
/// negative), otherwise that field's value, converted as the column's type
/// asks; no column takes another field's value.
pub proof fn lemma_customer_columns_read_their_fields(c: CustomerColumns, i: int, v: CustomerValues)
    requires
        customer_row_columns(c, i, v),
    ensures
        null_bit_set(v.null_bit_map, 0) || v.c_customer_sk < 0 ==> c.c_sk@[i] is None,
        !null_bit_set(v.null_bit_map, 0) && v.c_customer_sk >= 0 ==> c.c_sk@[i] == Some(v.c_customer_sk),
        null_bit_set(v.null_bit_map, 1) ==> c.c_id@[i] is None,
        !null_bit_set(v.null_bit_map, 1) ==> (c.c_id@[i] matches Some(x) && x@ == v.c_customer_id@),
        null_bit_set(v.null_bit_map, 2) || v.c_current_cdemo_sk < 0 ==> c.c_cdemo_sk@[i] is None,
        !null_bit_set(v.null_bit_map, 2) && v.c_current_cdemo_sk >= 0 ==> c.c_cdemo_sk@[i] == Some(v.c_current_cdemo_sk),
        null_bit_set(v.null_bit_map, 3) || v.c_current_hdemo_sk < 0 ==> c.c_hdemo_sk@[i] is None,
        !null_bit_set(v.null_bit_map, 3) && v.c_current_hdemo_sk >= 0 ==> c.c_hdemo_sk@[i] == Some(v.c_current_hdemo_sk),
        null_bit_set(v.null_bit_map, 4) || v.c_current_addr_sk < 0 ==> c.c_addr_sk@[i] is None,
        !null_bit_set(v.null_bit_map, 4) && v.c_current_addr_sk >= 0 ==> c.c_addr_sk@[i] == Some(v.c_current_addr_sk),
        null_bit_set(v.null_bit_map, 5) ==> c.c_shipto_date@[i] is None,
        !null_bit_set(v.null_bit_map, 5) ==> c.c_shipto_date@[i] == Some(v.c_first_shipto_date_id),
        null_bit_set(v.null_bit_map, 6) ==> c.c_sales_date@[i] is None,
        !null_bit_set(v.null_bit_map, 6) ==> c.c_sales_date@[i] == Some(v.c_first_sales_date_id),
        null_bit_set(v.null_bit_map, 7) ==> c.c_salutation@[i] is None,
        !null_bit_set(v.null_bit_map, 7) ==> (c.c_salutation@[i] matches Some(x) && x@ == v.c_salutation@),
        null_bit_set(v.null_bit_map, 8) ==> c.c_first_name@[i] is None,
        !null_bit_set(v.null_bit_map, 8) ==> (c.c_first_name@[i] matches Some(x) && x@ == v.c_first_name@),
        null_bit_set(v.null_bit_map, 9) ==> c.c_last_name@[i] is None,
        !null_bit_set(v.null_bit_map, 9) ==> (c.c_last_name@[i] matches Some(x) && x@ == v.c_last_name@),
        null_bit_set(v.null_bit_map, 10) ==> c.c_pref_flag@[i] is None,
        !null_bit_set(v.null_bit_map, 10) ==> (c.c_pref_flag@[i] matches Some(x) && x@ == (if v.c_preferred_cust_flag { seq!['Y'] } else { seq!['N'] })),
        null_bit_set(v.null_bit_map, 11) ==> c.c_birth_day@[i] is None,
        !null_bit_set(v.null_bit_map, 11) ==> c.c_birth_day@[i] == Some(v.c_birth_day),
        null_bit_set(v.null_bit_map, 12) ==> c.c_birth_month@[i] is None,
        !null_bit_set(v.null_bit_map, 12) ==> c.c_birth_month@[i] == Some(v.c_birth_month),
        null_bit_set(v.null_bit_map, 13) ==> c.c_birth_year@[i] is None,
        !null_bit_set(v.null_bit_map, 13) ==> c.c_birth_year@[i] == Some(v.c_birth_year),
        null_bit_set(v.null_bit_map, 14) ==> c.c_birth_country@[i] is None,
        !null_bit_set(v.null_bit_map, 14) ==> (c.c_birth_country@[i] matches Some(x) && x@ == v.c_birth_country@),
        c.c_login@[i] is None,
        null_bit_set(v.null_bit_map, 16) ==> c.c_email@[i] is None,
        !null_bit_set(v.null_bit_map, 16) ==> (c.c_email@[i] matches Some(x) && x@ == v.c_email_address@),
        null_bit_set(v.null_bit_map, 17) ==> c.c_last_review@[i] is None,
        !null_bit_set(v.null_bit_map, 17) ==> c.c_last_review@[i] == Some(v.c_last_review_date),
{
}

/// Whether every column of `c` has `n` values.
pub open spec fn customer_column_lengths(c: CustomerColumns, n: int) -> bool {
    &&& c.c_sk@.len() == n
    &&& c.c_id@.len() == n
    &&& c.c_cdemo_sk@.len() == n
    &&& c.c_hdemo_sk@.len() == n
    &&& c.c_addr_sk@.len() == n
    &&& c.c_shipto_date@.len() == n
    &&& c.c_sales_date@.len() == n
    &&& c.c_salutation@.len() == n
    &&& c.c_first_name@.len() == n
    &&& c.c_last_name@.len() == n
    &&& c.c_pref_flag@.len() == n
    &&& c.c_birth_day@.len() == n
    &&& c.c_birth_month@.len() == n
    &&& c.c_birth_year@.len() == n
    &&& c.c_birth_country@.len() == n
    &&& c.c_login@.len() == n
    &&& c.c_email@.len() == n
    &&& c.c_last_review@.len() == n
}

/// The columns of a batch of `customer` rows: each value NULL where the
/// row's null bitmap marks its column (and a key also where it is negative),
/// decimals as their unscaled number, flags as `Y`/`N`.
#[verifier::rlimit(40)]
pub fn customer_columns(rows: &Vec<CustomerValues>) -> (r: CustomerColumns)
    ensures
        customer_column_lengths(r, rows.len() as int),
        forall|i: int| 0 <= i < rows.len() ==> customer_row_columns(r, i, #[trigger] rows@[i]),
{
    let mut out = CustomerColumns {
        c_sk: Vec::with_capacity(rows.len()),
        c_id: Vec::with_capacity(rows.len()),
        c_cdemo_sk: Vec::with_capacity(rows.len()),
        c_hdemo_sk: Vec::with_capacity(rows.len()),
        c_addr_sk: Vec::with_capacity(rows.len()),
        c_shipto_date: Vec::with_capacity(rows.len()),
        c_sales_date: Vec::with_capacity(rows.len()),
        c_salutation: Vec::with_capacity(rows.len()),
        c_first_name: Vec::with_capacity(rows.len()),
        c_last_name: Vec::with_capacity(rows.len()),
        c_pref_flag: Vec::with_capacity(rows.len()),
        c_birth_day: Vec::with_capacity(rows.len()),
        c_birth_month: Vec::with_capacity(rows.len()),
        c_birth_year: Vec::with_capacity(rows.len()),
        c_birth_country: Vec::with_capacity(rows.len()),
        c_login: Vec::with_capacity(rows.len()),
        c_email: Vec::with_capacity(rows.len()),
        c_last_review: Vec::with_capacity(rows.len()),
    };
    let mut i: usize = 0;
    while i < rows.len()
        invariant
            i <= rows.len(),
            customer_column_lengths(out, i as int),
            forall|j: int| 0 <= j < i ==> customer_row_columns(out, j, #[trigger] rows@[j]),
        decreases rows.len() - i,
    {
        let v = &rows[i];
        let nbm = v.null_bit_map;
        let ghost before = out;
        out.c_sk.push(sk_opt(nbm, 0, v.c_customer_sk));
        out.c_id.push(opt(nbm, 1, v.c_customer_id.clone()));
        out.c_cdemo_sk.push(sk_opt(nbm, 2, v.c_current_cdemo_sk));
        out.c_hdemo_sk.push(sk_opt(nbm, 3, v.c_current_hdemo_sk));
        out.c_addr_sk.push(sk_opt(nbm, 4, v.c_current_addr_sk));
        out.c_shipto_date.push(opt(nbm, 5, v.c_first_shipto_date_id));
        out.c_sales_date.push(opt(nbm, 6, v.c_first_sales_date_id));
        out.c_salutation.push(opt(nbm, 7, v.c_salutation.clone()));
        out.c_first_name.push(opt(nbm, 8, v.c_first_name.clone()));
        out.c_last_name.push(opt(nbm, 9, v.c_last_name.clone()));
        out.c_pref_flag.push(opt(nbm, 10, yn_string(v.c_preferred_cust_flag)));
        out.c_birth_day.push(opt(nbm, 11, v.c_birth_day));
        out.c_birth_month.push(opt(nbm, 12, v.c_birth_month));
        out.c_birth_year.push(opt(nbm, 13, v.c_birth_year));
        out.c_birth_country.push(opt(nbm, 14, v.c_birth_country.clone()));
        out.c_login.push(None);
        out.c_email.push(opt(nbm, 16, v.c_email_address.clone()));
        out.c_last_review.push(opt(nbm, 17, v.c_last_review_date));
        assert forall|j: int| 0 <= j < i + 1 implies customer_row_columns(out, j, #[trigger] rows@[j]) by {
            if j < i {
                assert(customer_row_columns(before, j, rows@[j]));
            }
        }
        i = i + 1;
    }
    out
}

/// The values of one `promotion` row that its columns are made of, with
/// the row's null bitmap.
#[derive(Clone, Debug)]
pub struct PromotionValues {
    pub null_bit_map: i64,
    pub p_promo_sk: i64,
    pub p_promo_id: String,
    pub p_start_date_id: i64,
    pub p_end_date_id: i64,
    pub p_item_sk: i64,
    pub p_cost: Decimal,
    pub p_response_target: i32,
    pub p_promo_name: String,
    pub p_channel_dmail: bool,
    pub p_channel_email: bool,
    pub p_channel_catalog: bool,
    pub p_channel_tv: bool,
    pub p_channel_radio: bool,
    pub p_channel_press: bool,
    pub p_channel_event: bool,
    pub p_channel_demo: bool,
    pub p_channel_details: String,
    pub p_purpose: String,
    pub p_discount_active: bool,
}

/// The columns of a batch of `promotion` rows, in schema order.
#[derive(Clone, Debug)]
pub struct PromotionColumns {
    pub p_sk: Vec<Option<i64>>,
    pub p_id: Vec<Option<String>>,
    pub p_start: Vec<Option<i64>>,
    pub p_end: Vec<Option<i64>>,
    pub p_item: Vec<Option<i64>>,
    pub p_cost: Vec<Option<i128>>,
    pub p_response: Vec<Option<i32>>,
    pub p_name: Vec<Option<String>>,
    pub p_dmail: Vec<Option<String>>,
    pub p_email: Vec<Option<String>>,
    pub p_catalog: Vec<Option<String>>,
    pub p_tv: Vec<Option<String>>,
    pub p_radio: Vec<Option<String>>,
    pub p_press: Vec<Option<String>>,
    pub p_event: Vec<Option<String>>,
    pub p_demo: Vec<Option<String>>,
    pub p_details: Vec<Option<String>>,
    pub p_purpose: Vec<Option<String>>,
    pub p_active: Vec<Option<String>>,
}

/// Whether row `i` of `c` holds the column values of `v`.
pub open spec fn promotion_row_columns(c: PromotionColumns, i: int, v: PromotionValues) -> bool {
    &&& c.p_sk@[i] == nullable_key(v.null_bit_map, 0, v.p_promo_sk)
    &&& text_view(c.p_id@[i]) == nullable(v.null_bit_map, 1, v.p_promo_id@)
    &&& c.p_start@[i] == nullable_key(v.null_bit_map, 2, v.p_start_date_id)
    &&& c.p_end@[i] == nullable_key(v.null_bit_map, 3, v.p_end_date_id)
    &&& c.p_item@[i] == nullable_key(v.null_bit_map, 4, v.p_item_sk)
    &&& c.p_cost@[i] == nullable(v.null_bit_map, 5, v.p_cost.spec_number() as i128)
    &&& c.p_response@[i] == nullable(v.null_bit_map, 6, v.p_response_target)
    &&& text_view(c.p_name@[i]) == nullable(v.null_bit_map, 7, v.p_promo_name@)
    &&& text_view(c.p_dmail@[i]) == nullable(v.null_bit_map, 8, yn_text(v.p_channel_dmail))
    &&& text_view(c.p_email@[i]) == nullable(v.null_bit_map, 9, yn_text(v.p_channel_email))
    &&& text_view(c.p_catalog@[i]) == nullable(v.null_bit_map, 10, yn_text(v.p_channel_catalog))
    &&& text_view(c.p_tv@[i]) == nullable(v.null_bit_map, 11, yn_text(v.p_channel_tv))
    &&& text_view(c.p_radio@[i]) == nullable(v.null_bit_map, 12, yn_text(v.p_channel_radio))
    &&& text_view(c.p_press@[i]) == nullable(v.null_bit_map, 13, yn_text(v.p_channel_press))
    &&& text_view(c.p_event@[i]) == nullable(v.null_bit_map, 14, yn_text(v.p_channel_event))
    &&& text_view(c.p_demo@[i]) == nullable(v.null_bit_map, 15, yn_text(v.p_channel_demo))
    &&& text_view(c.p_details@[i]) == nullable(v.null_bit_map, 16, v.p_channel_details@)
    &&& text_view(c.p_purpose@[i]) == nullable(v.null_bit_map, 17, v.p_purpose@)
    &&& text_view(c.p_active@[i]) == nullable(v.null_bit_map, 18, yn_text(v.p_discount_active))
}

/// Each column of a `promotion` row reads its own field of the row: NULL
/// where the row's null bit for the column is set (a key also where it is
/// negative), otherwise that field's value, converted as the column's type
/// asks; no column takes another field's value.
pub proof fn lemma_promotion_columns_read_their_fields(c: PromotionColumns, i: int, v: PromotionValues)
    requires
        promotion_row_columns(c, i, v),
    ensures
        null_bit_set(v.null_bit_map, 0) || v.p_promo_sk < 0 ==> c.p_sk@[i] is None,
        !null_bit_set(v.null_bit_map, 0) && v.p_promo_sk >= 0 ==> c.p_sk@[i] == Some(v.p_promo_sk),
        null_bit_set(v.null_bit_map, 1) ==> c.p_id@[i] is None,
        !null_bit_set(v.null_bit_map, 1) ==> (c.p_id@[i] matches Some(x) && x@ == v.p_promo_id@),
        null_bit_set(v.null_bit_map, 2) || v.p_start_date_id < 0 ==> c.p_start@[i] is None,
        !null_bit_set(v.null_bit_map, 2) && v.p_start_date_id >= 0 ==> c.p_start@[i] == Some(v.p_start_date_id),
        null_bit_set(v.null_bit_map, 3) || v.p_end_date_id < 0 ==> c.p_end@[i] is None,
        !null_bit_set(v.null_bit_map, 3) && v.p_end_date_id >= 0 ==> c.p_end@[i] == Some(v.p_end_date_id),
        null_bit_set(v.null_bit_map, 4) || v.p_item_sk < 0 ==> c.p_item@[i] is None,
        !null_bit_set(v.null_bit_map, 4) && v.p_item_sk >= 0 ==> c.p_item@[i] == Some(v.p_item_sk),
        null_bit_set(v.null_bit_map, 5) ==> c.p_cost@[i] is None,
        !null_bit_set(v.null_bit_map, 5) ==> c.p_cost@[i] == Some(v.p_cost.spec_number() as i128),
        null_bit_set(v.null_bit_map, 6) ==> c.p_response@[i] is None,
        !null_bit_set(v.null_bit_map, 6) ==> c.p_response@[i] == Some(v.p_response_target),
        null_bit_set(v.null_bit_map, 7) ==> c.p_name@[i] is None,
        !null_bit_set(v.null_bit_map, 7) ==> (c.p_name@[i] matches Some(x) && x@ == v.p_promo_name@),
        null_bit_set(v.null_bit_map, 8) ==> c.p_dmail@[i] is None,
        !null_bit_set(v.null_bit_map, 8) ==> (c.p_dmail@[i] matches Some(x) && x@ == (if v.p_channel_dmail { seq!['Y'] } else { seq!['N'] })),
        null_bit_set(v.null_bit_map, 9) ==> c.p_email@[i] is None,
        !null_bit_set(v.null_bit_map, 9) ==> (c.p_email@[i] matches Some(x) && x@ == (if v.p_channel_email { seq!['Y'] } else { seq!['N'] })),
        null_bit_set(v.null_bit_map, 10) ==> c.p_catalog@[i] is None,
        !null_bit_set(v.null_bit_map, 10) ==> (c.p_catalog@[i] matches Some(x) && x@ == (if v.p_channel_catalog { seq!['Y'] } else { seq!['N'] })),
        null_bit_set(v.null_bit_map, 11) ==> c.p_tv@[i] is None,
        !null_bit_set(v.null_bit_map, 11) ==> (c.p_tv@[i] matches Some(x) && x@ == (if v.p_channel_tv { seq!['Y'] } else { seq!['N'] })),
        null_bit_set(v.null_bit_map, 12) ==> c.p_radio@[i] is None,
        !null_bit_set(v.null_bit_map, 12) ==> (c.p_radio@[i] matches Some(x) && x@ == (if v.p_channel_radio { seq!['Y'] } else { seq!['N'] })),
        null_bit_set(v.null_bit_map, 13) ==> c.p_press@[i] is None,
        !null_bit_set(v.null_bit_map, 13) ==> (c.p_press@[i] matches Some(x) && x@ == (if v.p_channel_press { seq!['Y'] } else { seq!['N'] })),
        null_bit_set(v.null_bit_map, 14) ==> c.p_event@[i] is None,
        !null_bit_set(v.null_bit_map, 14) ==> (c.p_event@[i] matches Some(x) && x@ == (if v.p_channel_event { seq!['Y'] } else { seq!['N'] })),
        null_bit_set(v.null_bit_map, 15) ==> c.p_demo@[i] is None,
        !null_bit_set(v.null_bit_map, 15) ==> (c.p_demo@[i] matches Some(x) && x@ == (if v.p_channel_demo { seq!['Y'] } else { seq!['N'] })),
        null_bit_set(v.null_bit_map, 16) ==> c.p_details@[i] is None,
        !null_bit_set(v.null_bit_map, 16) ==> (c.p_details@[i] matches Some(x) && x@ == v.p_channel_details@),
        null_bit_set(v.null_bit_map, 17) ==> c.p_purpose@[i] is None,
        !null_bit_set(v.null_bit_map, 17) ==> (c.p_purpose@[i] matches Some(x) && x@ == v.p_purpose@),
        null_bit_set(v.null_bit_map, 18) ==> c.p_active@[i] is None,
        !null_bit_set(v.null_bit_map, 18) ==> (c.p_active@[i] matches Some(x) && x@ == (if v.p_discount_active { seq!['Y'] } else { seq!['N'] })),
{
}

/// Whether every column of `c` has `n` values.
pub open spec fn promotion_column_lengths(c: PromotionColumns, n: int) -> bool {
    &&& c.p_sk@.len() == n
    &&& c.p_id@.len() == n
    &&& c.p_start@.len() == n
    &&& c.p_end@.len() == n
    &&& c.p_item@.len() == n
    &&& c.p_cost@.len() == n
    &&& c.p_response@.len() == n
    &&& c.p_name@.len() == n
    &&& c.p_dmail@.len() == n
    &&& c.p_email@.len() == n
    &&& c.p_catalog@.len() == n
    &&& c.p_tv@.len() == n
    &&& c.p_radio@.len() == n
    &&& c.p_press@.len() == n
    &&& c.p_event@.len() == n
    &&& c.p_demo@.len() == n
    &&& c.p_details@.len() == n
    &&& c.p_purpose@.len() == n
    &&& c.p_active@.len() == n
}

/// The columns of a batch of `promotion` rows: each value NULL where the
/// row's null bitmap marks its column (and a key also where it is negative),
/// decimals as their unscaled number, flags as `Y`/`N`.
#[verifier::rlimit(40)]
pub fn promotion_columns(rows: &Vec<PromotionValues>) -> (r: PromotionColumns)
    ensures
        promotion_column_lengths(r, rows.len() as int),
        forall|i: int| 0 <= i < rows.len() ==> promotion_row_columns(r, i, #[trigger] rows@[i]),
{
    let mut out = PromotionColumns {
        p_sk: Vec::with_capacity(rows.len()),
        p_id: Vec::with_capacity(rows.len()),
        p_start: Vec::with_capacity(rows.len()),
        p_end: Vec::with_capacity(rows.len()),
        p_item: Vec::with_capacity(rows.len()),
        p_cost: Vec::with_capacity(rows.len()),
        p_response: Vec::with_capacity(rows.len()),
        p_name: Vec::with_capacity(rows.len()),
        p_dmail: Vec::with_capacity(rows.len()),
        p_email: Vec::with_capacity(rows.len()),
        p_catalog: Vec::with_capacity(rows.len()),
        p_tv: Vec::with_capacity(rows.len()),
        p_radio: Vec::with_capacity(rows.len()),
        p_press: Vec::with_capacity(rows.len()),
        p_event: Vec::with_capacity(rows.len()),
        p_demo: Vec::with_capacity(rows.len()),
        p_details: Vec::with_capacity(rows.len()),
        p_purpose: Vec::with_capacity(rows.len()),
        p_active: Vec::with_capacity(rows.len()),
    };
    let mut i: usize = 0;
    while i < rows.len()
        invariant
            i <= rows.len(),
            promotion_column_lengths(out, i as int),
            forall|j: int| 0 <= j < i ==> promotion_row_columns(out, j, #[trigger] rows@[j]),
        decreases rows.len() - i,
    {
        let v = &rows[i];
        let nbm = v.null_bit_map;
        let ghost before = out;
        out.p_sk.push(sk_opt(nbm, 0, v.p_promo_sk));
        out.p_id.push(opt(nbm, 1, v.p_promo_id.clone()));
        out.p_start.push(sk_opt(nbm, 2, v.p_start_date_id));
        out.p_end.push(sk_opt(nbm, 3, v.p_end_date_id));
        out.p_item.push(sk_opt(nbm, 4, v.p_item_sk));
        out.p_cost.push(opt(nbm, 5, decimal_to_i128(v.p_cost)));
        out.p_response.push(opt(nbm, 6, v.p_response_target));
        out.p_name.push(opt(nbm, 7, v.p_promo_name.clone()));
        out.p_dmail.push(opt(nbm, 8, yn_string(v.p_channel_dmail)));
        out.p_email.push(opt(nbm, 9, yn_string(v.p_channel_email)));
        out.p_catalog.push(opt(nbm, 10, yn_string(v.p_channel_catalog)));
        out.p_tv.push(opt(nbm, 11, yn_string(v.p_channel_tv)));
        out.p_radio.push(opt(nbm, 12, yn_string(v.p_channel_radio)));
        out.p_press.push(opt(nbm, 13, yn_string(v.p_channel_press)));
        out.p_event.push(opt(nbm, 14, yn_string(v.p_channel_event)));
        out.p_demo.push(opt(nbm, 15, yn_string(v.p_channel_demo)));
        out.p_details.push(opt(nbm, 16, v.p_channel_details.clone()));
        out.p_purpose.push(opt(nbm, 17, v.p_purpose.clone()));
        out.p_active.push(opt(nbm, 18, yn_string(v.p_discount_active)));
        assert forall|j: int| 0 <= j < i + 1 implies promotion_row_columns(out, j, #[trigger] rows@[j]) by {
            if j < i {
                assert(promotion_row_columns(before, j, rows@[j]));
            }
        }
        i = i + 1;
    }
    out
}

/// The values of one `store_sales` row that its columns are made of, with
/// the row's null bitmap.
#[derive(Clone, Debug)]
pub struct StoreSalesValues {
    pub null_bit_map: i64,
    pub ss_sold_date_sk: i64,
    pub ss_sold_time_sk: i64,
    pub ss_sold_item_sk: i64,
    pub ss_sold_customer_sk: i64,
    pub ss_sold_cdemo_sk: i64,
    pub ss_sold_hdemo_sk: i64,
    pub ss_sold_addr_sk: i64,
    pub ss_sold_store_sk: i64,
    pub ss_sold_promo_sk: i64,
    pub ss_ticket_number: i64,
    pub pricing_quantity: i32,
    pub pricing_wholesale_cost: Decimal,
    pub pricing_list_price: Decimal,
    pub pricing_sales_price: Decimal,
    pub pricing_coupon_amount: Decimal,
    pub pricing_ext_sales_price: Decimal,
    pub pricing_ext_wholesale_cost: Decimal,
    pub pricing_ext_list_price: Decimal,
    pub pricing_ext_tax: Decimal,
    pub pricing_net_paid: Decimal,
    pub pricing_net_paid_including_tax: Decimal,
    pub pricing_net_profit: Decimal,
}

/// The columns of a batch of `store_sales` rows, in schema order.
#[derive(Clone, Debug)]
pub struct StoreSalesColumns {
    pub ss_sold_date: Vec<Option<i64>>,
    pub ss_sold_time: Vec<Option<i64>>,
    pub ss_item: Vec<Option<i64>>,
    pub ss_customer: Vec<Option<i64>>,
    pub ss_cdemo: Vec<Option<i64>>,
    pub ss_hdemo: Vec<Option<i64>>,
    pub ss_addr: Vec<Option<i64>>,
    pub ss_store: Vec<Option<i64>>,
    pub ss_promo: Vec<Option<i64>>,
    pub ss_ticket: Vec<Option<i64>>,
    pub ss_quantity: Vec<Option<i32>>,
    pub ss_wholesale_cost: Vec<Option<i128>>,
    pub ss_list_price: Vec<Option<i128>>,
    pub ss_sales_price: Vec<Option<i128>>,
    pub ss_ext_discount_amt: Vec<Option<i128>>,
    pub ss_ext_sales_price: Vec<Option<i128>>,
    pub ss_ext_wholesale_cost: Vec<Option<i128>>,
    pub ss_ext_list_price: Vec<Option<i128>>,
    pub ss_ext_tax: Vec<Option<i128>>,
    pub ss_coupon_amt: Vec<Option<i128>>,
    pub ss_net_paid: Vec<Option<i128>>,
    pub ss_net_paid_inc_tax: Vec<Option<i128>>,
    pub ss_net_profit: Vec<Option<i128>>,
}

/// Whether row `i` of `c` holds the column values of `v`.
pub open spec fn store_sales_row_columns(c: StoreSalesColumns, i: int, v: StoreSalesValues) -> bool {
    &&& c.ss_sold_date@[i] == nullable_key(v.null_bit_map, 0, v.ss_sold_date_sk)
    &&& c.ss_sold_time@[i] == nullable_key(v.null_bit_map, 1, v.ss_sold_time_sk)
    &&& c.ss_item@[i] == nullable_key(v.null_bit_map, 2, v.ss_sold_item_sk)
    &&& c.ss_customer@[i] == nullable_key(v.null_bit_map, 3, v.ss_sold_customer_sk)
    &&& c.ss_cdemo@[i] == nullable_key(v.null_bit_map, 4, v.ss_sold_cdemo_sk)
    &&& c.ss_hdemo@[i] == nullable_key(v.null_bit_map, 5, v.ss_sold_hdemo_sk)
    &&& c.ss_addr@[i] == nullable_key(v.null_bit_map, 6, v.ss_sold_addr_sk)
    &&& c.ss_store@[i] == nullable_key(v.null_bit_map, 7, v.ss_sold_store_sk)
    &&& c.ss_promo@[i] == nullable_key(v.null_bit_map, 8, v.ss_sold_promo_sk)
    &&& c.ss_ticket@[i] == nullable_key(v.null_bit_map, 9, v.ss_ticket_number)
    &&& c.ss_quantity@[i] == nullable(v.null_bit_map, 10, v.pricing_quantity)
    &&& c.ss_wholesale_cost@[i] == nullable(v.null_bit_map, 11, v.pricing_wholesale_cost.spec_number() as i128)
    &&& c.ss_list_price@[i] == nullable(v.null_bit_map, 12, v.pricing_list_price.spec_number() as i128)
    &&& c.ss_sales_price@[i] == nullable(v.null_bit_map, 13, v.pricing_sales_price.spec_number() as i128)
    &&& c.ss_ext_discount_amt@[i] == nullable(v.null_bit_map, 14, v.pricing_coupon_amount.spec_number() as i128)
    &&& c.ss_ext_sales_price@[i] == nullable(v.null_bit_map, 15, v.pricing_ext_sales_price.spec_number() as i128)
    &&& c.ss_ext_wholesale_cost@[i] == nullable(v.null_bit_map, 16, v.pricing_ext_wholesale_cost.spec_number() as i128)
    &&& c.ss_ext_list_price@[i] == nullable(v.null_bit_map, 17, v.pricing_ext_list_price.spec_number() as i128)
    &&& c.ss_ext_tax@[i] == nullable(v.null_bit_map, 18, v.pricing_ext_tax.spec_number() as i128)
    &&& c.ss_coupon_amt@[i] == nullable(v.null_bit_map, 14, v.pricing_coupon_amount.spec_number() as i128)
    &&& c.ss_net_paid@[i] == nullable(v.null_bit_map, 19, v.pricing_net_paid.spec_number() as i128)
    &&& c.ss_net_paid_inc_tax@[i] == nullable(v.null_bit_map, 20, v.pricing_net_paid_including_tax.spec_number() as i128)
    &&& c.ss_net_profit@[i] == nullable(v.null_bit_map, 21, v.pricing_net_profit.spec_number() as i128)
}

/// Each column of a `store_sales` row reads its own field of the row: NULL
/// where the row's null bit for the column is set (a key also where it is
/// negative), otherwise that field's value, converted as the column's type
/// asks; no column takes another field's value.
pub proof fn lemma_store_sales_columns_read_their_fields(c: StoreSalesColumns, i: int, v: StoreSalesValues)
    requires
        store_sales_row_columns(c, i, v),
    ensures
        null_bit_set(v.null_bit_map, 0) || v.ss_sold_date_sk < 0 ==> c.ss_sold_date@[i] is None,
        !null_bit_set(v.null_bit_map, 0) && v.ss_sold_date_sk >= 0 ==> c.ss_sold_date@[i] == Some(v.ss_sold_date_sk),
        null_bit_set(v.null_bit_map, 1) || v.ss_sold_time_sk < 0 ==> c.ss_sold_time@[i] is None,
        !null_bit_set(v.null_bit_map, 1) && v.ss_sold_time_sk >= 0 ==> c.ss_sold_time@[i] == Some(v.ss_sold_time_sk),
        null_bit_set(v.null_bit_map, 2) || v.ss_sold_item_sk < 0 ==> c.ss_item@[i] is None,
        !null_bit_set(v.null_bit_map, 2) && v.ss_sold_item_sk >= 0 ==> c.ss_item@[i] == Some(v.ss_sold_item_sk),
        null_bit_set(v.null_bit_map, 3) || v.ss_sold_customer_sk < 0 ==> c.ss_customer@[i] is None,
        !null_bit_set(v.null_bit_map, 3) && v.ss_sold_customer_sk >= 0 ==> c.ss_customer@[i] == Some(v.ss_sold_customer_sk),
        null_bit_set(v.null_bit_map, 4) || v.ss_sold_cdemo_sk < 0 ==> c.ss_cdemo@[i] is None,
        !null_bit_set(v.null_bit_map, 4) && v.ss_sold_cdemo_sk >= 0 ==> c.ss_cdemo@[i] == Some(v.ss_sold_cdemo_sk),
        null_bit_set(v.null_bit_map, 5) || v.ss_sold_hdemo_sk < 0 ==> c.ss_hdemo@[i] is None,
        !null_bit_set(v.null_bit_map, 5) && v.ss_sold_hdemo_sk >= 0 ==> c.ss_hdemo@[i] == Some(v.ss_sold_hdemo_sk),
        null_bit_set(v.null_bit_map, 6) || v.ss_sold_addr_sk < 0 ==> c.ss_addr@[i] is None,
        !null_bit_set(v.null_bit_map, 6) && v.ss_sold_addr_sk >= 0 ==> c.ss_addr@[i] == Some(v.ss_sold_addr_sk),
        null_bit_set(v.null_bit_map, 7) || v.ss_sold_store_sk < 0 ==> c.ss_store@[i] is None,
        !null_bit_set(v.null_bit_map, 7) && v.ss_sold_store_sk >= 0 ==> c.ss_store@[i] == Some(v.ss_sold_store_sk),
        null_bit_set(v.null_bit_map, 8) || v.ss_sold_promo_sk < 0 ==> c.ss_promo@[i] is None,
        !null_bit_set(v.null_bit_map, 8) && v.ss_sold_promo_sk >= 0 ==> c.ss_promo@[i] == Some(v.ss_sold_promo_sk),
        null_bit_set(v.null_bit_map, 9) || v.ss_ticket_number < 0 ==> c.ss_ticket@[i] is None,
        !null_bit_set(v.null_bit_map, 9) && v.ss_ticket_number >= 0 ==> c.ss_ticket@[i] == Some(v.ss_ticket_number),
        null_bit_set(v.null_bit_map, 10) ==> c.ss_quantity@[i] is None,
        !null_bit_set(v.null_bit_map, 10) ==> c.ss_quantity@[i] == Some(v.pricing_quantity),
        null_bit_set(v.null_bit_map, 11) ==> c.ss_wholesale_cost@[i] is None,
        !null_bit_set(v.null_bit_map, 11) ==> c.ss_wholesale_cost@[i] == Some(v.pricing_wholesale_cost.spec_number() as i128),
        null_bit_set(v.null_bit_map, 12) ==> c.ss_list_price@[i] is None,
        !null_bit_set(v.null_bit_map, 12) ==> c.ss_list_price@[i] == Some(v.pricing_list_price.spec_number() as i128),
        null_bit_set(v.null_bit_map, 13) ==> c.ss_sales_price@[i] is None,
        !null_bit_set(v.null_bit_map, 13) ==> c.ss_sales_price@[i] == Some(v.pricing_sales_price.spec_number() as i128),
        null_bit_set(v.null_bit_map, 14) ==> c.ss_ext_discount_amt@[i] is None,
        !null_bit_set(v.null_bit_map, 14) ==> c.ss_ext_discount_amt@[i] == Some(v.pricing_coupon_amount.spec_number() as i128),
        null_bit_set(v.null_bit_map, 15) ==> c.ss_ext_sales_price@[i] is None,
        !null_bit_set(v.null_bit_map, 15) ==> c.ss_ext_sales_price@[i] == Some(v.pricing_ext_sales_price.spec_number() as i128),
        null_bit_set(v.null_bit_map, 16) ==> c.ss_ext_wholesale_cost@[i] is None,
        !null_bit_set(v.null_bit_map, 16) ==> c.ss_ext_wholesale_cost@[i] == Some(v.pricing_ext_wholesale_cost.spec_number() as i128),
        null_bit_set(v.null_bit_map, 17) ==> c.ss_ext_list_price@[i] is None,
        !null_bit_set(v.null_bit_map, 17) ==> c.ss_ext_list_price@[i] == Some(v.pricing_ext_list_price.spec_number() as i128),
        null_bit_set(v.null_bit_map, 18) ==> c.ss_ext_tax@[i] is None,
        !null_bit_set(v.null_bit_map, 18) ==> c.ss_ext_tax@[i] == Some(v.pricing_ext_tax.spec_number() as i128),
        null_bit_set(v.null_bit_map, 14) ==> c.ss_coupon_amt@[i] is None,
        !null_bit_set(v.null_bit_map, 14) ==> c.ss_coupon_amt@[i] == Some(v.pricing_coupon_amount.spec_number() as i128),
        null_bit_set(v.null_bit_map, 19) ==> c.ss_net_paid@[i] is None,
        !null_bit_set(v.null_bit_map, 19) ==> c.ss_net_paid@[i] == Some(v.pricing_net_paid.spec_number() as i128),
        null_bit_set(v.null_bit_map, 20) ==> c.ss_net_paid_inc_tax@[i] is None,
        !null_bit_set(v.null_bit_map, 20) ==> c.ss_net_paid_inc_tax@[i] == Some(v.pricing_net_paid_including_tax.spec_number() as i128),
        null_bit_set(v.null_bit_map, 21) ==> c.ss_net_profit@[i] is None,
        !null_bit_set(v.null_bit_map, 21) ==> c.ss_net_profit@[i] == Some(v.pricing_net_profit.spec_number() as i128),
{
}

/// Whether every column of `c` has `n` values.
pub open spec fn store_sales_column_lengths(c: StoreSalesColumns, n: int) -> bool {
    &&& c.ss_sold_date@.len() == n
    &&& c.ss_sold_time@.len() == n
    &&& c.ss_item@.len() == n
    &&& c.ss_customer@.len() == n
    &&& c.ss_cdemo@.len() == n
    &&& c.ss_hdemo@.len() == n
    &&& c.ss_addr@.len() == n
    &&& c.ss_store@.len() == n
    &&& c.ss_promo@.len() == n
    &&& c.ss_ticket@.len() == n
    &&& c.ss_quantity@.len() == n
    &&& c.ss_wholesale_cost@.len() == n
    &&& c.ss_list_price@.len() == n
    &&& c.ss_sales_price@.len() == n
    &&& c.ss_ext_discount_amt@.len() == n
    &&& c.ss_ext_sales_price@.len() == n
    &&& c.ss_ext_wholesale_cost@.len() == n
    &&& c.ss_ext_list_price@.len() == n
    &&& c.ss_ext_tax@.len() == n
    &&& c.ss_coupon_amt@.len() == n
    &&& c.ss_net_paid@.len() == n
    &&& c.ss_net_paid_inc_tax@.len() == n
    &&& c.ss_net_profit@.len() == n
}

/// The columns of a batch of `store_sales` rows: each value NULL where the
/// row's null bitmap marks its column (and a key also where it is negative),
/// decimals as their unscaled number, flags as `Y`/`N`.
#[verifier::rlimit(40)]
pub fn store_sales_columns(rows: &Vec<StoreSalesValues>) -> (r: StoreSalesColumns)
    ensures
        store_sales_column_lengths(r, rows.len() as int),
        forall|i: int| 0 <= i < rows.len() ==> store_sales_row_columns(r, i, #[trigger] rows@[i]),
{
    let mut out = StoreSalesColumns {
        ss_sold_date: Vec::with_capacity(rows.len()),
        ss_sold_time: Vec::with_capacity(rows.len()),
        ss_item: Vec::with_capacity(rows.len()),
        ss_customer: Vec::with_capacity(rows.len()),
        ss_cdemo: Vec::with_capacity(rows.len()),
        ss_hdemo: Vec::with_capacity(rows.len()),
        ss_addr: Vec::with_capacity(rows.len()),
        ss_store: Vec::with_capacity(rows.len()),
        ss_promo: Vec::with_capacity(rows.len()),
        ss_ticket: Vec::with_capacity(rows.len()),
        ss_quantity: Vec::with_capacity(rows.len()),
        ss_wholesale_cost: Vec::with_capacity(rows.len()),
        ss_list_price: Vec::with_capacity(rows.len()),
        ss_sales_price: Vec::with_capacity(rows.len()),
        ss_ext_discount_amt: Vec::with_capacity(rows.len()),
        ss_ext_sales_price: Vec::with_capacity(rows.len()),
        ss_ext_wholesale_cost: Vec::with_capacity(rows.len()),
        ss_ext_list_price: Vec::with_capacity(rows.len()),
        ss_ext_tax: Vec::with_capacity(rows.len()),
        ss_coupon_amt: Vec::with_capacity(rows.len()),
        ss_net_paid: Vec::with_capacity(rows.len()),
        ss_net_paid_inc_tax: Vec::with_capacity(rows.len()),
        ss_net_profit: Vec::with_capacity(rows.len()),
    };
    let mut i: usize = 0;
    while i < rows.len()
        invariant
            i <= rows.len(),
            store_sales_column_lengths(out, i as int),
            forall|j: int| 0 <= j < i ==> store_sales_row_columns(out, j, #[trigger] rows@[j]),
        decreases rows.len() - i,
    {
        let v = &rows[i];
        let nbm = v.null_bit_map;
        let ghost before = out;
        out.ss_sold_date.push(sk_opt(nbm, 0, v.ss_sold_date_sk));
        out.ss_sold_time.push(sk_opt(nbm, 1, v.ss_sold_time_sk));
        out.ss_item.push(sk_opt(nbm, 2, v.ss_sold_item_sk));
        out.ss_customer.push(sk_opt(nbm, 3, v.ss_sold_customer_sk));
        out.ss_cdemo.push(sk_opt(nbm, 4, v.ss_sold_cdemo_sk));
        out.ss_hdemo.push(sk_opt(nbm, 5, v.ss_sold_hdemo_sk));
        out.ss_addr.push(sk_opt(nbm, 6, v.ss_sold_addr_sk));
        out.ss_store.push(sk_opt(nbm, 7, v.ss_sold_store_sk));
        out.ss_promo.push(sk_opt(nbm, 8, v.ss_sold_promo_sk));
        out.ss_ticket.push(sk_opt(nbm, 9, v.ss_ticket_number));
        out.ss_quantity.push(opt(nbm, 10, v.pricing_quantity));
        out.ss_wholesale_cost.push(opt(nbm, 11, decimal_to_i128(v.pricing_wholesale_cost)));
        out.ss_list_price.push(opt(nbm, 12, decimal_to_i128(v.pricing_list_price)));
        out.ss_sales_price.push(opt(nbm, 13, decimal_to_i128(v.pricing_sales_price)));
        out.ss_ext_discount_amt.push(opt(nbm, 14, decimal_to_i128(v.pricing_coupon_amount)));
        out.ss_ext_sales_price.push(opt(nbm, 15, decimal_to_i128(v.pricing_ext_sales_price)));
        out.ss_ext_wholesale_cost.push(opt(nbm, 16, decimal_to_i128(v.pricing_ext_wholesale_cost)));
        out.ss_ext_list_price.push(opt(nbm, 17, decimal_to_i128(v.pricing_ext_list_price)));
        out.ss_ext_tax.push(opt(nbm, 18, decimal_to_i128(v.pricing_ext_tax)));
        out.ss_coupon_amt.push(opt(nbm, 14, decimal_to_i128(v.pricing_coupon_amount)));
        out.ss_net_paid.push(opt(nbm, 19, decimal_to_i128(v.pricing_net_paid)));
        out.ss_net_paid_inc_tax.push(opt(nbm, 20, decimal_to_i128(v.pricing_net_paid_including_tax)));
        out.ss_net_profit.push(opt(nbm, 21, decimal_to_i128(v.pricing_net_profit)));
        assert forall|j: int| 0 <= j < i + 1 implies store_sales_row_columns(out, j, #[trigger] rows@[j]) by {
            if j < i {
                assert(store_sales_row_columns(before, j, rows@[j]));
            }
        }
        i = i + 1;
    }
    out
}

/// The values of one `store_returns` row that its columns are made of, with
/// the row's null bitmap.
#[derive(Clone, Debug)]
pub struct StoreReturnsValues {
    pub null_bit_map: i64,
    pub sr_returned_date_sk: i64,
    pub sr_returned_time_sk: i64,
    pub sr_item_sk: i64,
    pub sr_customer_sk: i64,
    pub sr_cdemo_sk: i64,
    pub sr_hdemo_sk: i64,
    pub sr_addr_sk: i64,
    pub sr_store_sk: i64,
    pub sr_reason_sk: i64,
    pub sr_ticket_number: i64,
    pub pricing_quantity: i32,
    pub pricing_net_paid: Decimal,
    pub pricing_ext_tax: Decimal,
    pub pricing_net_paid_including_tax: Decimal,
    pub pricing_fee: Decimal,
    pub pricing_ext_ship_cost: Decimal,
    pub pricing_refunded_cash: Decimal,
    pub pricing_reversed_charge: Decimal,
    pub pricing_store_credit: Decimal,
    pub pricing_net_loss: Decimal,
}

/// The columns of a batch of `store_returns` rows, in schema order.
#[derive(Clone, Debug)]
pub struct StoreReturnsColumns {
    pub sr_returned_date: Vec<Option<i64>>,
    pub sr_returned_time: Vec<Option<i64>>,
    pub sr_item: Vec<Option<i64>>,
    pub sr_customer: Vec<Option<i64>>,
    pub sr_cdemo: Vec<Option<i64>>,
    pub sr_hdemo: Vec<Option<i64>>,
    pub sr_addr: Vec<Option<i64>>,
    pub sr_store: Vec<Option<i64>>,
    pub sr_reason: Vec<Option<i64>>,
    pub sr_ticket: Vec<Option<i64>>,
    pub sr_quantity: Vec<Option<i32>>,
    pub sr_return_amt: Vec<Option<i128>>,
    pub sr_return_tax: Vec<Option<i128>>,
    pub sr_return_amt_inc_tax: Vec<Option<i128>>,
    pub sr_fee: Vec<Option<i128>>,
    pub sr_return_ship_cost: Vec<Option<i128>>,
    pub sr_refunded_cash: Vec<Option<i128>>,
    pub sr_reversed_charge: Vec<Option<i128>>,
    pub sr_store_credit: Vec<Option<i128>>,
    pub sr_net_loss: Vec<Option<i128>>,
}

/// Whether row `i` of `c` holds the column values of `v`.
pub open spec fn store_returns_row_columns(c: StoreReturnsColumns, i: int, v: StoreReturnsValues) -> bool {
    &&& c.sr_returned_date@[i] == nullable_key(v.null_bit_map, 0, v.sr_returned_date_sk)
    &&& c.sr_returned_time@[i] == nullable_key(v.null_bit_map, 1, v.sr_returned_time_sk)
    &&& c.sr_item@[i] == nullable_key(v.null_bit_map, 2, v.sr_item_sk)
    &&& c.sr_customer@[i] == nullable_key(v.null_bit_map, 3, v.sr_customer_sk)
    &&& c.sr_cdemo@[i] == nullable_key(v.null_bit_map, 4, v.sr_cdemo_sk)
    &&& c.sr_hdemo@[i] == nullable_key(v.null_bit_map, 5, v.sr_hdemo_sk)
    &&& c.sr_addr@[i] == nullable_key(v.null_bit_map, 6, v.sr_addr_sk)
    &&& c.sr_store@[i] == nullable_key(v.null_bit_map, 7, v.sr_store_sk)
    &&& c.sr_reason@[i] == nullable_key(v.null_bit_map, 8, v.sr_reason_sk)
    &&& c.sr_ticket@[i] == nullable_key(v.null_bit_map, 9, v.sr_ticket_number)
    &&& c.sr_quantity@[i] == nullable(v.null_bit_map, 10, v.pricing_quantity)
    &&& c.sr_return_amt@[i] == nullable(v.null_bit_map, 11, v.pricing_net_paid.spec_number() as i128)
    &&& c.sr_return_tax@[i] == nullable(v.null_bit_map, 12, v.pricing_ext_tax.spec_number() as i128)
    &&& c.sr_return_amt_inc_tax@[i] == nullable(v.null_bit_map, 13, v.pricing_net_paid_including_tax.spec_number() as i128)
    &&& c.sr_fee@[i] == nullable(v.null_bit_map, 14, v.pricing_fee.spec_number() as i128)
    &&& c.sr_return_ship_cost@[i] == nullable(v.null_bit_map, 15, v.pricing_ext_ship_cost.spec_number() as i128)
    &&& c.sr_refunded_cash@[i] == nullable(v.null_bit_map, 16, v.pricing_refunded_cash.spec_number() as i128)
    &&& c.sr_reversed_charge@[i] == nullable(v.null_bit_map, 17, v.pricing_reversed_charge.spec_number() as i128)
    &&& c.sr_store_credit@[i] == nullable(v.null_bit_map, 18, v.pricing_store_credit.spec_number() as i128)
    &&& c.sr_net_loss@[i] == nullable(v.null_bit_map, 19, v.pricing_net_loss.spec_number() as i128)
}

/// Each column of a `store_returns` row reads its own field of the row: NULL
/// where the row's null bit for the column is set (a key also where it is
/// negative), otherwise that field's value, converted as the column's type
/// asks; no column takes another field's value.
pub proof fn lemma_store_returns_columns_read_their_fields(c: StoreReturnsColumns, i: int, v: StoreReturnsValues)
    requires
        store_returns_row_columns(c, i, v),
    ensures
        null_bit_set(v.null_bit_map, 0) || v.sr_returned_date_sk < 0 ==> c.sr_returned_date@[i] is None,
        !null_bit_set(v.null_bit_map, 0) && v.sr_returned_date_sk >= 0 ==> c.sr_returned_date@[i] == Some(v.sr_returned_date_sk),
        null_bit_set(v.null_bit_map, 1) || v.sr_returned_time_sk < 0 ==> c.sr_returned_time@[i] is None,
        !null_bit_set(v.null_bit_map, 1) && v.sr_returned_time_sk >= 0 ==> c.sr_returned_time@[i] == Some(v.sr_returned_time_sk),
        null_bit_set(v.null_bit_map, 2) || v.sr_item_sk < 0 ==> c.sr_item@[i] is None,
        !null_bit_set(v.null_bit_map, 2) && v.sr_item_sk >= 0 ==> c.sr_item@[i] == Some(v.sr_item_sk),
        null_bit_set(v.null_bit_map, 3) || v.sr_customer_sk < 0 ==> c.sr_customer@[i] is None,
        !null_bit_set(v.null_bit_map, 3) && v.sr_customer_sk >= 0 ==> c.sr_customer@[i] == Some(v.sr_customer_sk),
        null_bit_set(v.null_bit_map, 4) || v.sr_cdemo_sk < 0 ==> c.sr_cdemo@[i] is None,
        !null_bit_set(v.null_bit_map, 4) && v.sr_cdemo_sk >= 0 ==> c.sr_cdemo@[i] == Some(v.sr_cdemo_sk),
        null_bit_set(v.null_bit_map, 5) || v.sr_hdemo_sk < 0 ==> c.sr_hdemo@[i] is None,
        !null_bit_set(v.null_bit_map, 5) && v.sr_hdemo_sk >= 0 ==> c.sr_hdemo@[i] == Some(v.sr_hdemo_sk),
        null_bit_set(v.null_bit_map, 6) || v.sr_addr_sk < 0 ==> c.sr_addr@[i] is None,
        !null_bit_set(v.null_bit_map, 6) && v.sr_addr_sk >= 0 ==> c.sr_addr@[i] == Some(v.sr_addr_sk),
        null_bit_set(v.null_bit_map, 7) || v.sr_store_sk < 0 ==> c.sr_store@[i] is None,
        !null_bit_set(v.null_bit_map, 7) && v.sr_store_sk >= 0 ==> c.sr_store@[i] == Some(v.sr_store_sk),
        null_bit_set(v.null_bit_map, 8) || v.sr_reason_sk < 0 ==> c.sr_reason@[i] is None,
        !null_bit_set(v.null_bit_map, 8) && v.sr_reason_sk >= 0 ==> c.sr_reason@[i] == Some(v.sr_reason_sk),
        null_bit_set(v.null_bit_map, 9) || v.sr_ticket_number < 0 ==> c.sr_ticket@[i] is None,
        !null_bit_set(v.null_bit_map, 9) && v.sr_ticket_number >= 0 ==> c.sr_ticket@[i] == Some(v.sr_ticket_number),
        null_bit_set(v.null_bit_map, 10) ==> c.sr_quantity@[i] is None,
        !null_bit_set(v.null_bit_map, 10) ==> c.sr_quantity@[i] == Some(v.pricing_quantity),
        null_bit_set(v.null_bit_map, 11) ==> c.sr_return_amt@[i] is None,
        !null_bit_set(v.null_bit_map, 11) ==> c.sr_return_amt@[i] == Some(v.pricing_net_paid.spec_number() as i128),
        null_bit_set(v.null_bit_map, 12) ==> c.sr_return_tax@[i] is None,
        !null_bit_set(v.null_bit_map, 12) ==> c.sr_return_tax@[i] == Some(v.pricing_ext_tax.spec_number() as i128),
        null_bit_set(v.null_bit_map, 13) ==> c.sr_return_amt_inc_tax@[i] is None,
        !null_bit_set(v.null_bit_map, 13) ==> c.sr_return_amt_inc_tax@[i] == Some(v.pricing_net_paid_including_tax.spec_number() as i128),
        null_bit_set(v.null_bit_map, 14) ==> c.sr_fee@[i] is None,
        !null_bit_set(v.null_bit_map, 14) ==> c.sr_fee@[i] == Some(v.pricing_fee.spec_number() as i128),
        null_bit_set(v.null_bit_map, 15) ==> c.sr_return_ship_cost@[i] is None,
        !null_bit_set(v.null_bit_map, 15) ==> c.sr_return_ship_cost@[i] == Some(v.pricing_ext_ship_cost.spec_number() as i128),
        null_bit_set(v.null_bit_map, 16) ==> c.sr_refunded_cash@[i] is None,
        !null_bit_set(v.null_bit_map, 16) ==> c.sr_refunded_cash@[i] == Some(v.pricing_refunded_cash.spec_number() as i128),
        null_bit_set(v.null_bit_map, 17) ==> c.sr_reversed_charge@[i] is None,
        !null_bit_set(v.null_bit_map, 17) ==> c.sr_reversed_charge@[i] == Some(v.pricing_reversed_charge.spec_number() as i128),
        null_bit_set(v.null_bit_map, 18) ==> c.sr_store_credit@[i] is None,
        !null_bit_set(v.null_bit_map, 18) ==> c.sr_store_credit@[i] == Some(v.pricing_store_credit.spec_number() as i128),
        null_bit_set(v.null_bit_map, 19) ==> c.sr_net_loss@[i] is None,
        !null_bit_set(v.null_bit_map, 19) ==> c.sr_net_loss@[i] == Some(v.pricing_net_loss.spec_number() as i128),
{
}

/// Whether every column of `c` has `n` values.
pub open spec fn store_returns_column_lengths(c: StoreReturnsColumns, n: int) -> bool {
    &&& c.sr_returned_date@.len() == n
    &&& c.sr_returned_time@.len() == n
    &&& c.sr_item@.len() == n
    &&& c.sr_customer@.len() == n
    &&& c.sr_cdemo@.len() == n
    &&& c.sr_hdemo@.len() == n
    &&& c.sr_addr@.len() == n
    &&& c.sr_store@.len() == n
    &&& c.sr_reason@.len() == n
    &&& c.sr_ticket@.len() == n
    &&& c.sr_quantity@.len() == n
    &&& c.sr_return_amt@.len() == n
    &&& c.sr_return_tax@.len() == n
    &&& c.sr_return_amt_inc_tax@.len() == n
    &&& c.sr_fee@.len() == n
    &&& c.sr_return_ship_cost@.len() == n
    &&& c.sr_refunded_cash@.len() == n
    &&& c.sr_reversed_charge@.len() == n
    &&& c.sr_store_credit@.len() == n
    &&& c.sr_net_loss@.len() == n
}

/// The columns of a batch of `store_returns` rows: each value NULL where the
/// row's null bitmap marks its column (and a key also where it is negative),
/// decimals as their unscaled number, flags as `Y`/`N`.
#[verifier::rlimit(40)]
pub fn store_returns_columns(rows: &Vec<StoreReturnsValues>) -> (r: StoreReturnsColumns)
    ensures
        store_returns_column_lengths(r, rows.len() as int),
        forall|i: int| 0 <= i < rows.len() ==> store_returns_row_columns(r, i, #[trigger] rows@[i]),
{
    let mut out = StoreReturnsColumns {
        sr_returned_date: Vec::with_capacity(rows.len()),
        sr_returned_time: Vec::with_capacity(rows.len()),
        sr_item: Vec::with_capacity(rows.len()),
        sr_customer: Vec::with_capacity(rows.len()),
        sr_cdemo: Vec::with_capacity(rows.len()),
        sr_hdemo: Vec::with_capacity(rows.len()),
        sr_addr: Vec::with_capacity(rows.len()),
        sr_store: Vec::with_capacity(rows.len()),
        sr_reason: Vec::with_capacity(rows.len()),
        sr_ticket: Vec::with_capacity(rows.len()),
        sr_quantity: Vec::with_capacity(rows.len()),
        sr_return_amt: Vec::with_capacity(rows.len()),
        sr_return_tax: Vec::with_capacity(rows.len()),
        sr_return_amt_inc_tax: Vec::with_capacity(rows.len()),
        sr_fee: Vec::with_capacity(rows.len()),
        sr_return_ship_cost: Vec::with_capacity(rows.len()),
        sr_refunded_cash: Vec::with_capacity(rows.len()),
        sr_reversed_charge: Vec::with_capacity(rows.len()),
        sr_store_credit: Vec::with_capacity(rows.len()),
        sr_net_loss: Vec::with_capacity(rows.len()),
    };
    let mut i: usize = 0;
    while i < rows.len()
        invariant
            i <= rows.len(),
            store_returns_column_lengths(out, i as int),
            forall|j: int| 0 <= j < i ==> store_returns_row_columns(out, j, #[trigger] rows@[j]),
        decreases rows.len() - i,
    {
        let v = &rows[i];
        let nbm = v.null_bit_map;
        let ghost before = out;
        out.sr_returned_date.push(sk_opt(nbm, 0, v.sr_returned_date_sk));
        out.sr_returned_time.push(sk_opt(nbm, 1, v.sr_returned_time_sk));
        out.sr_item.push(sk_opt(nbm, 2, v.sr_item_sk));
        out.sr_customer.push(sk_opt(nbm, 3, v.sr_customer_sk));
        out.sr_cdemo.push(sk_opt(nbm, 4, v.sr_cdemo_sk));
        out.sr_hdemo.push(sk_opt(nbm, 5, v.sr_hdemo_sk));
        out.sr_addr.push(sk_opt(nbm, 6, v.sr_addr_sk));
        out.sr_store.push(sk_opt(nbm, 7, v.sr_store_sk));
        out.sr_reason.push(sk_opt(nbm, 8, v.sr_reason_sk));
        out.sr_ticket.push(sk_opt(nbm, 9, v.sr_ticket_number));
        out.sr_quantity.push(opt(nbm, 10, v.pricing_quantity));
        out.sr_return_amt.push(opt(nbm, 11, decimal_to_i128(v.pricing_net_paid)));
        out.sr_return_tax.push(opt(nbm, 12, decimal_to_i128(v.pricing_ext_tax)));
        out.sr_return_amt_inc_tax.push(opt(nbm, 13, decimal_to_i128(v.pricing_net_paid_including_tax)));
        out.sr_fee.push(opt(nbm, 14, decimal_to_i128(v.pricing_fee)));
        out.sr_return_ship_cost.push(opt(nbm, 15, decimal_to_i128(v.pricing_ext_ship_cost)));
        out.sr_refunded_cash.push(opt(nbm, 16, decimal_to_i128(v.pricing_refunded_cash)));
        out.sr_reversed_charge.push(opt(nbm, 17, decimal_to_i128(v.pricing_reversed_charge)));
        out.sr_store_credit.push(opt(nbm, 18, decimal_to_i128(v.pricing_store_credit)));
        out.sr_net_loss.push(opt(nbm, 19, decimal_to_i128(v.pricing_net_loss)));
        assert forall|j: int| 0 <= j < i + 1 implies store_returns_row_columns(out, j, #[trigger] rows@[j]) by {
            if j < i {
                assert(store_returns_row_columns(before, j, rows@[j]));
            }
        }
        i = i + 1;
    }
    out
}

/// The values of one `catalog_returns` row that its columns are made of, with
/// the row's null bitmap.
#[derive(Clone, Debug)]
pub struct CatalogReturnsValues {
    pub null_bit_map: i64,
    pub cr_returned_date_sk: i64,
    pub cr_returned_time_sk: i64,
    pub cr_item_sk: i64,
    pub cr_refunded_customer_sk: i64,
    pub cr_refunded_cdemo_sk: i64,
    pub cr_refunded_hdemo_sk: i64,
    pub cr_refunded_addr_sk: i64,
    pub cr_returning_customer_sk: i64,
    pub cr_returning_cdemo_sk: i64,
    pub cr_returning_hdemo_sk: i64,
    pub cr_returning_addr_sk: i64,
    pub cr_call_center_sk: i64,
    pub cr_catalog_page_sk: i64,
    pub cr_ship_mode_sk: i64,
    pub cr_warehouse_sk: i64,
    pub cr_reason_sk: i64,
    pub cr_order_number: i64,
    pub pricing_quantity: i32,
    pub pricing_net_paid: Decimal,
    pub pricing_ext_tax: Decimal,
    pub pricing_net_paid_including_tax: Decimal,
    pub pricing_fee: Decimal,
    pub pricing_ext_ship_cost: Decimal,
    pub pricing_refunded_cash: Decimal,
    pub pricing_reversed_charge: Decimal,
    pub pricing_store_credit: Decimal,
    pub pricing_net_loss: Decimal,
}

/// The columns of a batch of `catalog_returns` rows, in schema order.
#[derive(Clone, Debug)]
pub struct CatalogReturnsColumns {
    pub cr_returned_date: Vec<Option<i64>>,
    pub cr_returned_time: Vec<Option<i64>>,
    pub cr_item: Vec<Option<i64>>,
    pub cr_refunded_customer: Vec<Option<i64>>,
    pub cr_refunded_cdemo: Vec<Option<i64>>,
    pub cr_refunded_hdemo: Vec<Option<i64>>,
    pub cr_refunded_addr: Vec<Option<i64>>,
    pub cr_returning_customer: Vec<Option<i64>>,
    pub cr_returning_cdemo: Vec<Option<i64>>,
    pub cr_returning_hdemo: Vec<Option<i64>>,
    pub cr_returning_addr: Vec<Option<i64>>,
    pub cr_call_center: Vec<Option<i64>>,
    pub cr_catalog_page: Vec<Option<i64>>,
    pub cr_ship_mode: Vec<Option<i64>>,
    pub cr_warehouse: Vec<Option<i64>>,
    pub cr_reason: Vec<Option<i64>>,
    pub cr_order_number: Vec<Option<i64>>,
    pub cr_quantity: Vec<Option<i32>>,
    pub cr_return_amount: Vec<Option<i128>>,
    pub cr_return_tax: Vec<Option<i128>>,
    pub cr_return_amt_inc_tax: Vec<Option<i128>>,
    pub cr_fee: Vec<Option<i128>>,
    pub cr_return_ship_cost: Vec<Option<i128>>,
    pub cr_refunded_cash: Vec<Option<i128>>,
    pub cr_reversed_charge: Vec<Option<i128>>,
    pub cr_store_credit: Vec<Option<i128>>,
    pub cr_net_loss: Vec<Option<i128>>,
}

/// Whether row `i` of `c` holds the column values of `v`.
pub open spec fn catalog_returns_row_columns(c: CatalogReturnsColumns, i: int, v: CatalogReturnsValues) -> bool {
    &&& c.cr_returned_date@[i] == nullable_key(v.null_bit_map, 0, v.cr_returned_date_sk)
    &&& c.cr_returned_time@[i] == nullable_key(v.null_bit_map, 1, v.cr_returned_time_sk)
    &&& c.cr_item@[i] == nullable_key(v.null_bit_map, 2, v.cr_item_sk)
    &&& c.cr_refunded_customer@[i] == nullable_key(v.null_bit_map, 3, v.cr_refunded_customer_sk)
    &&& c.cr_refunded_cdemo@[i] == nullable_key(v.null_bit_map, 4, v.cr_refunded_cdemo_sk)
    &&& c.cr_refunded_hdemo@[i] == nullable_key(v.null_bit_map, 5, v.cr_refunded_hdemo_sk)
    &&& c.cr_refunded_addr@[i] == nullable_key(v.null_bit_map, 6, v.cr_refunded_addr_sk)
    &&& c.cr_returning_customer@[i] == nullable_key(v.null_bit_map, 7, v.cr_returning_customer_sk)
    &&& c.cr_returning_cdemo@[i] == nullable_key(v.null_bit_map, 8, v.cr_returning_cdemo_sk)
    &&& c.cr_returning_hdemo@[i] == nullable_key(v.null_bit_map, 9, v.cr_returning_hdemo_sk)
    &&& c.cr_returning_addr@[i] == nullable_key(v.null_bit_map, 10, v.cr_returning_addr_sk)
    &&& c.cr_call_center@[i] == nullable_key(v.null_bit_map, 11, v.cr_call_center_sk)
    &&& c.cr_catalog_page@[i] == nullable_key(v.null_bit_map, 12, v.cr_catalog_page_sk)
    &&& c.cr_ship_mode@[i] == nullable_key(v.null_bit_map, 13, v.cr_ship_mode_sk)
    &&& c.cr_warehouse@[i] == nullable_key(v.null_bit_map, 14, v.cr_warehouse_sk)
    &&& c.cr_reason@[i] == nullable_key(v.null_bit_map, 15, v.cr_reason_sk)
    &&& c.cr_order_number@[i] == nullable(v.null_bit_map, 16, v.cr_order_number)
    &&& c.cr_quantity@[i] == nullable(v.null_bit_map, 17, v.pricing_quantity)
    &&& c.cr_return_amount@[i] == nullable(v.null_bit_map, 18, v.pricing_net_paid.spec_number() as i128)
    &&& c.cr_return_tax@[i] == nullable(v.null_bit_map, 19, v.pricing_ext_tax.spec_number() as i128)
    &&& c.cr_return_amt_inc_tax@[i] == nullable(v.null_bit_map, 20, v.pricing_net_paid_including_tax.spec_number() as i128)
    &&& c.cr_fee@[i] == nullable(v.null_bit_map, 21, v.pricing_fee.spec_number() as i128)
    &&& c.cr_return_ship_cost@[i] == nullable(v.null_bit_map, 22, v.pricing_ext_ship_cost.spec_number() as i128)
    &&& c.cr_refunded_cash@[i] == nullable(v.null_bit_map, 23, v.pricing_refunded_cash.spec_number() as i128)
    &&& c.cr_reversed_charge@[i] == nullable(v.null_bit_map, 24, v.pricing_reversed_charge.spec_number() as i128)
    &&& c.cr_store_credit@[i] == nullable(v.null_bit_map, 25, v.pricing_store_credit.spec_number() as i128)
    &&& c.cr_net_loss@[i] == nullable(v.null_bit_map, 26, v.pricing_net_loss.spec_number() as i128)
}

/// Each column of a `catalog_returns` row reads its own field of the row: NULL
/// where the row's null bit for the column is set (a key also where it is
/// negative), otherwise that field's value, converted as the column's type
/// asks; no column takes another field's value.
pub proof fn lemma_catalog_returns_columns_read_their_fields(c: CatalogReturnsColumns, i: int, v: CatalogReturnsValues)
    requires
        catalog_returns_row_columns(c, i, v),
    ensures
        null_bit_set(v.null_bit_map, 0) || v.cr_returned_date_sk < 0 ==> c.cr_returned_date@[i] is None,
        !null_bit_set(v.null_bit_map, 0) && v.cr_returned_date_sk >= 0 ==> c.cr_returned_date@[i] == Some(v.cr_returned_date_sk),
        null_bit_set(v.null_bit_map, 1) || v.cr_returned_time_sk < 0 ==> c.cr_returned_time@[i] is None,
        !null_bit_set(v.null_bit_map, 1) && v.cr_returned_time_sk >= 0 ==> c.cr_returned_time@[i] == Some(v.cr_returned_time_sk),
        null_bit_set(v.null_bit_map, 2) || v.cr_item_sk < 0 ==> c.cr_item@[i] is None,
        !null_bit_set(v.null_bit_map, 2) && v.cr_item_sk >= 0 ==> c.cr_item@[i] == Some(v.cr_item_sk),
        null_bit_set(v.null_bit_map, 3) || v.cr_refunded_customer_sk < 0 ==> c.cr_refunded_customer@[i] is None,
        !null_bit_set(v.null_bit_map, 3) && v.cr_refunded_customer_sk >= 0 ==> c.cr_refunded_customer@[i] == Some(v.cr_refunded_customer_sk),
        null_bit_set(v.null_bit_map, 4) || v.cr_refunded_cdemo_sk < 0 ==> c.cr_refunded_cdemo@[i] is None,
        !null_bit_set(v.null_bit_map, 4) && v.cr_refunded_cdemo_sk >= 0 ==> c.cr_refunded_cdemo@[i] == Some(v.cr_refunded_cdemo_sk),
        null_bit_set(v.null_bit_map, 5) || v.cr_refunded_hdemo_sk < 0 ==> c.cr_refunded_hdemo@[i] is None,
        !null_bit_set(v.null_bit_map, 5) && v.cr_refunded_hdemo_sk >= 0 ==> c.cr_refunded_hdemo@[i] == Some(v.cr_refunded_hdemo_sk),
        null_bit_set(v.null_bit_map, 6) || v.cr_refunded_addr_sk < 0 ==> c.cr_refunded_addr@[i] is None,
        !null_bit_set(v.null_bit_map, 6) && v.cr_refunded_addr_sk >= 0 ==> c.cr_refunded_addr@[i] == Some(v.cr_refunded_addr_sk),
        null_bit_set(v.null_bit_map, 7) || v.cr_returning_customer_sk < 0 ==> c.cr_returning_customer@[i] is None,
        !null_bit_set(v.null_bit_map, 7) && v.cr_returning_customer_sk >= 0 ==> c.cr_returning_customer@[i] == Some(v.cr_returning_customer_sk),
        null_bit_set(v.null_bit_map, 8) || v.cr_returning_cdemo_sk < 0 ==> c.cr_returning_cdemo@[i] is None,
        !null_bit_set(v.null_bit_map, 8) && v.cr_returning_cdemo_sk >= 0 ==> c.cr_returning_cdemo@[i] == Some(v.cr_returning_cdemo_sk),
        null_bit_set(v.null_bit_map, 9) || v.cr_returning_hdemo_sk < 0 ==> c.cr_returning_hdemo@[i] is None,
        !null_bit_set(v.null_bit_map, 9) && v.cr_returning_hdemo_sk >= 0 ==> c.cr_returning_hdemo@[i] == Some(v.cr_returning_hdemo_sk),
        null_bit_set(v.null_bit_map, 10) || v.cr_returning_addr_sk < 0 ==> c.cr_returning_addr@[i] is None,
        !null_bit_set(v.null_bit_map, 10) && v.cr_returning_addr_sk >= 0 ==> c.cr_returning_addr@[i] == Some(v.cr_returning_addr_sk),
        null_bit_set(v.null_bit_map, 11) || v.cr_call_center_sk < 0 ==> c.cr_call_center@[i] is None,
        !null_bit_set(v.null_bit_map, 11) && v.cr_call_center_sk >= 0 ==> c.cr_call_center@[i] == Some(v.cr_call_center_sk),
        null_bit_set(v.null_bit_map, 12) || v.cr_catalog_page_sk < 0 ==> c.cr_catalog_page@[i] is None,
        !null_bit_set(v.null_bit_map, 12) && v.cr_catalog_page_sk >= 0 ==> c.cr_catalog_page@[i] == Some(v.cr_catalog_page_sk),
        null_bit_set(v.null_bit_map, 13) || v.cr_ship_mode_sk < 0 ==> c.cr_ship_mode@[i] is None,
        !null_bit_set(v.null_bit_map, 13) && v.cr_ship_mode_sk >= 0 ==> c.cr_ship_mode@[i] == Some(v.cr_ship_mode_sk),
        null_bit_set(v.null_bit_map, 14) || v.cr_warehouse_sk < 0 ==> c.cr_warehouse@[i] is None,
        !null_bit_set(v.null_bit_map, 14) && v.cr_warehouse_sk >= 0 ==> c.cr_warehouse@[i] == Some(v.cr_warehouse_sk),
        null_bit_set(v.null_bit_map, 15) || v.cr_reason_sk < 0 ==> c.cr_reason@[i] is None,
        !null_bit_set(v.null_bit_map, 15) && v.cr_reason_sk >= 0 ==> c.cr_reason@[i] == Some(v.cr_reason_sk),
        null_bit_set(v.null_bit_map, 16) ==> c.cr_order_number@[i] is None,
        !null_bit_set(v.null_bit_map, 16) ==> c.cr_order_number@[i] == Some(v.cr_order_number),
        null_bit_set(v.null_bit_map, 17) ==> c.cr_quantity@[i] is None,
        !null_bit_set(v.null_bit_map, 17) ==> c.cr_quantity@[i] == Some(v.pricing_quantity),
        null_bit_set(v.null_bit_map, 18) ==> c.cr_return_amount@[i] is None,
        !null_bit_set(v.null_bit_map, 18) ==> c.cr_return_amount@[i] == Some(v.pricing_net_paid.spec_number() as i128),
        null_bit_set(v.null_bit_map, 19) ==> c.cr_return_tax@[i] is None,
        !null_bit_set(v.null_bit_map, 19) ==> c.cr_return_tax@[i] == Some(v.pricing_ext_tax.spec_number() as i128),
        null_bit_set(v.null_bit_map, 20) ==> c.cr_return_amt_inc_tax@[i] is None,
        !null_bit_set(v.null_bit_map, 20) ==> c.cr_return_amt_inc_tax@[i] == Some(v.pricing_net_paid_including_tax.spec_number() as i128),
        null_bit_set(v.null_bit_map, 21) ==> c.cr_fee@[i] is None,
        !null_bit_set(v.null_bit_map, 21) ==> c.cr_fee@[i] == Some(v.pricing_fee.spec_number() as i128),
        null_bit_set(v.null_bit_map, 22) ==> c.cr_return_ship_cost@[i] is None,
        !null_bit_set(v.null_bit_map, 22) ==> c.cr_return_ship_cost@[i] == Some(v.pricing_ext_ship_cost.spec_number() as i128),
        null_bit_set(v.null_bit_map, 23) ==> c.cr_refunded_cash@[i] is None,
        !null_bit_set(v.null_bit_map, 23) ==> c.cr_refunded_cash@[i] == Some(v.pricing_refunded_cash.spec_number() as i128),
        null_bit_set(v.null_bit_map, 24) ==> c.cr_reversed_charge@[i] is None,
        !null_bit_set(v.null_bit_map, 24) ==> c.cr_reversed_charge@[i] == Some(v.pricing_reversed_charge.spec_number() as i128),
        null_bit_set(v.null_bit_map, 25) ==> c.cr_store_credit@[i] is None,
        !null_bit_set(v.null_bit_map, 25) ==> c.cr_store_credit@[i] == Some(v.pricing_store_credit.spec_number() as i128),
        null_bit_set(v.null_bit_map, 26) ==> c.cr_net_loss@[i] is None,
        !null_bit_set(v.null_bit_map, 26) ==> c.cr_net_loss@[i] == Some(v.pricing_net_loss.spec_number() as i128),
{
}

/// Whether every column of `c` has `n` values.
pub open spec fn catalog_returns_column_lengths(c: CatalogReturnsColumns, n: int) -> bool {
    &&& c.cr_returned_date@.len() == n
    &&& c.cr_returned_time@.len() == n
    &&& c.cr_item@.len() == n
    &&& c.cr_refunded_customer@.len() == n
    &&& c.cr_refunded_cdemo@.len() == n
    &&& c.cr_refunded_hdemo@.len() == n
    &&& c.cr_refunded_addr@.len() == n
    &&& c.cr_returning_customer@.len() == n
    &&& c.cr_returning_cdemo@.len() == n
    &&& c.cr_returning_hdemo@.len() == n
    &&& c.cr_returning_addr@.len() == n
    &&& c.cr_call_center@.len() == n
    &&& c.cr_catalog_page@.len() == n
    &&& c.cr_ship_mode@.len() == n
    &&& c.cr_warehouse@.len() == n
    &&& c.cr_reason@.len() == n
    &&& c.cr_order_number@.len() == n
    &&& c.cr_quantity@.len() == n
    &&& c.cr_return_amount@.len() == n
    &&& c.cr_return_tax@.len() == n
    &&& c.cr_return_amt_inc_tax@.len() == n
    &&& c.cr_fee@.len() == n
    &&& c.cr_return_ship_cost@.len() == n
    &&& c.cr_refunded_cash@.len() == n
    &&& c.cr_reversed_charge@.len() == n
    &&& c.cr_store_credit@.len() == n
    &&& c.cr_net_loss@.len() == n
}

/// The columns of a batch of `catalog_returns` rows: each value NULL where the
/// row's null bitmap marks its column (and a key also where it is negative),
/// decimals as their unscaled number, flags as `Y`/`N`.
#[verifier::rlimit(40)]
pub fn catalog_returns_columns(rows: &Vec<CatalogReturnsValues>) -> (r: CatalogReturnsColumns)
    ensures
        catalog_returns_column_lengths(r, rows.len() as int),
        forall|i: int| 0 <= i < rows.len() ==> catalog_returns_row_columns(r, i, #[trigger] rows@[i]),
{
    let mut out = CatalogReturnsColumns {
        cr_returned_date: Vec::with_capacity(rows.len()),
        cr_returned_time: Vec::with_capacity(rows.len()),
        cr_item: Vec::with_capacity(rows.len()),
        cr_refunded_customer: Vec::with_capacity(rows.len()),
        cr_refunded_cdemo: Vec::with_capacity(rows.len()),
        cr_refunded_hdemo: Vec::with_capacity(rows.len()),
        cr_refunded_addr: Vec::with_capacity(rows.len()),
        cr_returning_customer: Vec::with_capacity(rows.len()),
        cr_returning_cdemo: Vec::with_capacity(rows.len()),
        cr_returning_hdemo: Vec::with_capacity(rows.len()),
        cr_returning_addr: Vec::with_capacity(rows.len()),
        cr_call_center: Vec::with_capacity(rows.len()),
        cr_catalog_page: Vec::with_capacity(rows.len()),
        cr_ship_mode: Vec::with_capacity(rows.len()),
        cr_warehouse: Vec::with_capacity(rows.len()),
        cr_reason: Vec::with_capacity(rows.len()),
        cr_order_number: Vec::with_capacity(rows.len()),
        cr_quantity: Vec::with_capacity(rows.len()),
        cr_return_amount: Vec::with_capacity(rows.len()),
        cr_return_tax: Vec::with_capacity(rows.len()),
        cr_return_amt_inc_tax: Vec::with_capacity(rows.len()),
        cr_fee: Vec::with_capacity(rows.len()),
        cr_return_ship_cost: Vec::with_capacity(rows.len()),
        cr_refunded_cash: Vec::with_capacity(rows.len()),
        cr_reversed_charge: Vec::with_capacity(rows.len()),
        cr_store_credit: Vec::with_capacity(rows.len()),
        cr_net_loss: Vec::with_capacity(rows.len()),
    };
    let mut i: usize = 0;
    while i < rows.len()
        invariant
            i <= rows.len(),
            catalog_returns_column_lengths(out, i as int),
            forall|j: int| 0 <= j < i ==> catalog_returns_row_columns(out, j, #[trigger] rows@[j]),
        decreases rows.len() - i,
    {
        let v = &rows[i];
        let nbm = v.null_bit_map;
        let ghost before = out;
        out.cr_returned_date.push(sk_opt(nbm, 0, v.cr_returned_date_sk));
        out.cr_returned_time.push(sk_opt(nbm, 1, v.cr_returned_time_sk));
        out.cr_item.push(sk_opt(nbm, 2, v.cr_item_sk));
        out.cr_refunded_customer.push(sk_opt(nbm, 3, v.cr_refunded_customer_sk));
        out.cr_refunded_cdemo.push(sk_opt(nbm, 4, v.cr_refunded_cdemo_sk));
        out.cr_refunded_hdemo.push(sk_opt(nbm, 5, v.cr_refunded_hdemo_sk));
        out.cr_refunded_addr.push(sk_opt(nbm, 6, v.cr_refunded_addr_sk));
        out.cr_returning_customer.push(sk_opt(nbm, 7, v.cr_returning_customer_sk));
        out.cr_returning_cdemo.push(sk_opt(nbm, 8, v.cr_returning_cdemo_sk));
        out.cr_returning_hdemo.push(sk_opt(nbm, 9, v.cr_returning_hdemo_sk));
        out.cr_returning_addr.push(sk_opt(nbm, 10, v.cr_returning_addr_sk));
        out.cr_call_center.push(sk_opt(nbm, 11, v.cr_call_center_sk));
        out.cr_catalog_page.push(sk_opt(nbm, 12, v.cr_catalog_page_sk));
        out.cr_ship_mode.push(sk_opt(nbm, 13, v.cr_ship_mode_sk));
        out.cr_warehouse.push(sk_opt(nbm, 14, v.cr_warehouse_sk));
        out.cr_reason.push(sk_opt(nbm, 15, v.cr_reason_sk));
        out.cr_order_number.push(opt(nbm, 16, v.cr_order_number));
        out.cr_quantity.push(opt(nbm, 17, v.pricing_quantity));
        out.cr_return_amount.push(opt(nbm, 18, decimal_to_i128(v.pricing_net_paid)));
        out.cr_return_tax.push(opt(nbm, 19, decimal_to_i128(v.pricing_ext_tax)));
        out.cr_return_amt_inc_tax.push(opt(nbm, 20, decimal_to_i128(v.pricing_net_paid_including_tax)));
        out.cr_fee.push(opt(nbm, 21, decimal_to_i128(v.pricing_fee)));
        out.cr_return_ship_cost.push(opt(nbm, 22, decimal_to_i128(v.pricing_ext_ship_cost)));
        out.cr_refunded_cash.push(opt(nbm, 23, decimal_to_i128(v.pricing_refunded_cash)));
        out.cr_reversed_charge.push(opt(nbm, 24, decimal_to_i128(v.pricing_reversed_charge)));
        out.cr_store_credit.push(opt(nbm, 25, decimal_to_i128(v.pricing_store_credit)));
        out.cr_net_loss.push(opt(nbm, 26, decimal_to_i128(v.pricing_net_loss)));
        assert forall|j: int| 0 <= j < i + 1 implies catalog_returns_row_columns(out, j, #[trigger] rows@[j]) by {
            if j < i {
                assert(catalog_returns_row_columns(before, j, rows@[j]));
            }
        }
        i = i + 1;
    }
    out
}

/// The values of one `catalog_sales` row that its columns are made of, with
/// the row's null bitmap.
#[derive(Clone, Debug)]
pub struct CatalogSalesValues {
    pub null_bit_map: i64,
    pub cs_sold_date_sk: i64,
    pub cs_sold_time_sk: i64,
    pub cs_ship_date_sk: i64,
    pub cs_bill_customer_sk: i64,
    pub cs_bill_cdemo_sk: i64,
    pub cs_bill_hdemo_sk: i64,
    pub cs_bill_addr_sk: i64,
    pub cs_ship_customer_sk: i64,
    pub cs_ship_cdemo_sk: i64,
    pub cs_ship_hdemo_sk: i64,
    pub cs_ship_addr_sk: i64,
    pub cs_call_center_sk: i64,
    pub cs_catalog_page_sk: i64,
    pub cs_ship_mode_sk: i64,
    pub cs_warehouse_sk: i64,
    pub cs_sold_item_sk: i64,
    pub cs_promo_sk: i64,
    pub cs_order_number: i64,
    pub pricing_quantity: i32,
    pub pricing_wholesale_cost: Decimal,
    pub pricing_list_price: Decimal,
    pub pricing_sales_price: Decimal,
    pub pricing_ext_discount_amount: Decimal,
    pub pricing_ext_sales_price: Decimal,
    pub pricing_ext_wholesale_cost: Decimal,
    pub pricing_ext_list_price: Decimal,
    pub pricing_ext_tax: Decimal,
    pub pricing_coupon_amount: Decimal,
    pub pricing_ext_ship_cost: Decimal,
    pub pricing_net_paid: Decimal,
    pub pricing_net_paid_including_tax: Decimal,
    pub pricing_net_paid_including_shipping: Decimal,
    pub pricing_net_paid_including_shipping_and_tax: Decimal,
    pub pricing_net_profit: Decimal,
}

/// The columns of a batch of `catalog_sales` rows, in schema order.
#[derive(Clone, Debug)]
pub struct CatalogSalesColumns {
    pub cs_sold_date: Vec<Option<i64>>,
    pub cs_sold_time: Vec<Option<i64>>,
    pub cs_ship_date: Vec<Option<i64>>,
    pub cs_bill_customer: Vec<Option<i64>>,
    pub cs_bill_cdemo: Vec<Option<i64>>,
    pub cs_bill_hdemo: Vec<Option<i64>>,
    pub cs_bill_addr: Vec<Option<i64>>,
    pub cs_ship_customer: Vec<Option<i64>>,
    pub cs_ship_cdemo: Vec<Option<i64>>,
    pub cs_ship_hdemo: Vec<Option<i64>>,
    pub cs_ship_addr: Vec<Option<i64>>,
    pub cs_call_center: Vec<Option<i64>>,
    pub cs_catalog_page: Vec<Option<i64>>,
    pub cs_ship_mode: Vec<Option<i64>>,
    pub cs_warehouse: Vec<Option<i64>>,
    pub cs_item: Vec<Option<i64>>,
    pub cs_promo: Vec<Option<i64>>,
    pub cs_order_number: Vec<Option<i64>>,
    pub cs_quantity: Vec<Option<i32>>,
    pub cs_wholesale_cost: Vec<Option<i128>>,
    pub cs_list_price: Vec<Option<i128>>,
    pub cs_sales_price: Vec<Option<i128>>,
    pub cs_ext_discount_amt: Vec<Option<i128>>,
    pub cs_ext_sales_price: Vec<Option<i128>>,
    pub cs_ext_wholesale_cost: Vec<Option<i128>>,
    pub cs_ext_list_price: Vec<Option<i128>>,
    pub cs_ext_tax: Vec<Option<i128>>,
    pub cs_coupon_amt: Vec<Option<i128>>,
    pub cs_ext_ship_cost: Vec<Option<i128>>,
    pub cs_net_paid: Vec<Option<i128>>,
    pub cs_net_paid_inc_tax: Vec<Option<i128>>,
    pub cs_net_paid_inc_ship: Vec<Option<i128>>,
    pub cs_net_paid_inc_ship_tax: Vec<Option<i128>>,
    pub cs_net_profit: Vec<Option<i128>>,
}

/// Whether row `i` of `c` holds the column values of `v`.
pub open spec fn catalog_sales_row_columns(c: CatalogSalesColumns, i: int, v: CatalogSalesValues) -> bool {
    &&& c.cs_sold_date@[i] == nullable_key(v.null_bit_map, 0, v.cs_sold_date_sk)
    &&& c.cs_sold_time@[i] == nullable_key(v.null_bit_map, 1, v.cs_sold_time_sk)
    &&& c.cs_ship_date@[i] == nullable_key(v.null_bit_map, 2, v.cs_ship_date_sk)
    &&& c.cs_bill_customer@[i] == nullable_key(v.null_bit_map, 3, v.cs_bill_customer_sk)
    &&& c.cs_bill_cdemo@[i] == nullable_key(v.null_bit_map, 4, v.cs_bill_cdemo_sk)
    &&& c.cs_bill_hdemo@[i] == nullable_key(v.null_bit_map, 5, v.cs_bill_hdemo_sk)
    &&& c.cs_bill_addr@[i] == nullable_key(v.null_bit_map, 6, v.cs_bill_addr_sk)
    &&& c.cs_ship_customer@[i] == nullable_key(v.null_bit_map, 7, v.cs_ship_customer_sk)
    &&& c.cs_ship_cdemo@[i] == nullable_key(v.null_bit_map, 8, v.cs_ship_cdemo_sk)
    &&& c.cs_ship_hdemo@[i] == nullable_key(v.null_bit_map, 9, v.cs_ship_hdemo_sk)
    &&& c.cs_ship_addr@[i] == nullable_key(v.null_bit_map, 10, v.cs_ship_addr_sk)
    &&& c.cs_call_center@[i] == nullable_key(v.null_bit_map, 11, v.cs_call_center_sk)
    &&& c.cs_catalog_page@[i] == nullable_key(v.null_bit_map, 12, v.cs_catalog_page_sk)
    &&& c.cs_ship_mode@[i] == nullable_key(v.null_bit_map, 13, v.cs_ship_mode_sk)
    &&& c.cs_warehouse@[i] == nullable_key(v.null_bit_map, 14, v.cs_warehouse_sk)
    &&& c.cs_item@[i] == nullable_key(v.null_bit_map, 15, v.cs_sold_item_sk)
    &&& c.cs_promo@[i] == nullable_key(v.null_bit_map, 16, v.cs_promo_sk)
    &&& c.cs_order_number@[i] == nullable(v.null_bit_map, 17, v.cs_order_number)
    &&& c.cs_quantity@[i] == nullable(v.null_bit_map, 18, v.pricing_quantity)
    &&& c.cs_wholesale_cost@[i] == nullable(v.null_bit_map, 19, v.pricing_wholesale_cost.spec_number() as i128)
    &&& c.cs_list_price@[i] == nullable(v.null_bit_map, 20, v.pricing_list_price.spec_number() as i128)
    &&& c.cs_sales_price@[i] == nullable(v.null_bit_map, 21, v.pricing_sales_price.spec_number() as i128)
    &&& c.cs_ext_discount_amt@[i] == nullable(v.null_bit_map, 24, v.pricing_ext_discount_amount.spec_number() as i128)
    &&& c.cs_ext_sales_price@[i] == nullable(v.null_bit_map, 23, v.pricing_ext_sales_price.spec_number() as i128)
    &&& c.cs_ext_wholesale_cost@[i] == nullable(v.null_bit_map, 25, v.pricing_ext_wholesale_cost.spec_number() as i128)
    &&& c.cs_ext_list_price@[i] == nullable(v.null_bit_map, 26, v.pricing_ext_list_price.spec_number() as i128)
    &&& c.cs_ext_tax@[i] == nullable(v.null_bit_map, 27, v.pricing_ext_tax.spec_number() as i128)
    &&& c.cs_coupon_amt@[i] == nullable(v.null_bit_map, 22, v.pricing_coupon_amount.spec_number() as i128)
    &&& c.cs_ext_ship_cost@[i] == nullable(v.null_bit_map, 28, v.pricing_ext_ship_cost.spec_number() as i128)
    &&& c.cs_net_paid@[i] == nullable(v.null_bit_map, 29, v.pricing_net_paid.spec_number() as i128)
    &&& c.cs_net_paid_inc_tax@[i] == nullable(v.null_bit_map, 30, v.pricing_net_paid_including_tax.spec_number() as i128)
    &&& c.cs_net_paid_inc_ship@[i] == nullable(v.null_bit_map, 31, v.pricing_net_paid_including_shipping.spec_number() as i128)
    &&& c.cs_net_paid_inc_ship_tax@[i] == nullable(v.null_bit_map, 32, v.pricing_net_paid_including_shipping_and_tax.spec_number() as i128)
    &&& c.cs_net_profit@[i] == nullable(v.null_bit_map, 33, v.pricing_net_profit.spec_number() as i128)
}

/// Each column of a `catalog_sales` row reads its own field of the row: NULL
/// where the row's null bit for the column is set (a key also where it is
/// negative), otherwise that field's value, converted as the column's type
/// asks; no column takes another field's value.
pub proof fn lemma_catalog_sales_columns_read_their_fields(c: CatalogSalesColumns, i: int, v: CatalogSalesValues)
    requires
        catalog_sales_row_columns(c, i, v),
    ensures
        null_bit_set(v.null_bit_map, 0) || v.cs_sold_date_sk < 0 ==> c.cs_sold_date@[i] is None,
        !null_bit_set(v.null_bit_map, 0) && v.cs_sold_date_sk >= 0 ==> c.cs_sold_date@[i] == Some(v.cs_sold_date_sk),
        null_bit_set(v.null_bit_map, 1) || v.cs_sold_time_sk < 0 ==> c.cs_sold_time@[i] is None,
        !null_bit_set(v.null_bit_map, 1) && v.cs_sold_time_sk >= 0 ==> c.cs_sold_time@[i] == Some(v.cs_sold_time_sk),
        null_bit_set(v.null_bit_map, 2) || v.cs_ship_date_sk < 0 ==> c.cs_ship_date@[i] is None,
        !null_bit_set(v.null_bit_map, 2) && v.cs_ship_date_sk >= 0 ==> c.cs_ship_date@[i] == Some(v.cs_ship_date_sk),
        null_bit_set(v.null_bit_map, 3) || v.cs_bill_customer_sk < 0 ==> c.cs_bill_customer@[i] is None,
        !null_bit_set(v.null_bit_map, 3) && v.cs_bill_customer_sk >= 0 ==> c.cs_bill_customer@[i] == Some(v.cs_bill_customer_sk),
        null_bit_set(v.null_bit_map, 4) || v.cs_bill_cdemo_sk < 0 ==> c.cs_bill_cdemo@[i] is None,
        !null_bit_set(v.null_bit_map, 4) && v.cs_bill_cdemo_sk >= 0 ==> c.cs_bill_cdemo@[i] == Some(v.cs_bill_cdemo_sk),
        null_bit_set(v.null_bit_map, 5) || v.cs_bill_hdemo_sk < 0 ==> c.cs_bill_hdemo@[i] is None,
        !null_bit_set(v.null_bit_map, 5) && v.cs_bill_hdemo_sk >= 0 ==> c.cs_bill_hdemo@[i] == Some(v.cs_bill_hdemo_sk),
        null_bit_set(v.null_bit_map, 6) || v.cs_bill_addr_sk < 0 ==> c.cs_bill_addr@[i] is None,
        !null_bit_set(v.null_bit_map, 6) && v.cs_bill_addr_sk >= 0 ==> c.cs_bill_addr@[i] == Some(v.cs_bill_addr_sk),
        null_bit_set(v.null_bit_map, 7) || v.cs_ship_customer_sk < 0 ==> c.cs_ship_customer@[i] is None,
        !null_bit_set(v.null_bit_map, 7) && v.cs_ship_customer_sk >= 0 ==> c.cs_ship_customer@[i] == Some(v.cs_ship_customer_sk),
        null_bit_set(v.null_bit_map, 8) || v.cs_ship_cdemo_sk < 0 ==> c.cs_ship_cdemo@[i] is None,
        !null_bit_set(v.null_bit_map, 8) && v.cs_ship_cdemo_sk >= 0 ==> c.cs_ship_cdemo@[i] == Some(v.cs_ship_cdemo_sk),
        null_bit_set(v.null_bit_map, 9) || v.cs_ship_hdemo_sk < 0 ==> c.cs_ship_hdemo@[i] is None,
        !null_bit_set(v.null_bit_map, 9) && v.cs_ship_hdemo_sk >= 0 ==> c.cs_ship_hdemo@[i] == Some(v.cs_ship_hdemo_sk),
        null_bit_set(v.null_bit_map, 10) || v.cs_ship_addr_sk < 0 ==> c.cs_ship_addr@[i] is None,
        !null_bit_set(v.null_bit_map, 10) && v.cs_ship_addr_sk >= 0 ==> c.cs_ship_addr@[i] == Some(v.cs_ship_addr_sk),
        null_bit_set(v.null_bit_map, 11) || v.cs_call_center_sk < 0 ==> c.cs_call_center@[i] is None,
        !null_bit_set(v.null_bit_map, 11) && v.cs_call_center_sk >= 0 ==> c.cs_call_center@[i] == Some(v.cs_call_center_sk),
        null_bit_set(v.null_bit_map, 12) || v.cs_catalog_page_sk < 0 ==> c.cs_catalog_page@[i] is None,
        !null_bit_set(v.null_bit_map, 12) && v.cs_catalog_page_sk >= 0 ==> c.cs_catalog_page@[i] == Some(v.cs_catalog_page_sk),
        null_bit_set(v.null_bit_map, 13) || v.cs_ship_mode_sk < 0 ==> c.cs_ship_mode@[i] is None,
        !null_bit_set(v.null_bit_map, 13) && v.cs_ship_mode_sk >= 0 ==> c.cs_ship_mode@[i] == Some(v.cs_ship_mode_sk),
        null_bit_set(v.null_bit_map, 14) || v.cs_warehouse_sk < 0 ==> c.cs_warehouse@[i] is None,
        !null_bit_set(v.null_bit_map, 14) && v.cs_warehouse_sk >= 0 ==> c.cs_warehouse@[i] == Some(v.cs_warehouse_sk),
        null_bit_set(v.null_bit_map, 15) || v.cs_sold_item_sk < 0 ==> c.cs_item@[i] is None,
        !null_bit_set(v.null_bit_map, 15) && v.cs_sold_item_sk >= 0 ==> c.cs_item@[i] == Some(v.cs_sold_item_sk),
        null_bit_set(v.null_bit_map, 16) || v.cs_promo_sk < 0 ==> c.cs_promo@[i] is None,
        !null_bit_set(v.null_bit_map, 16) && v.cs_promo_sk >= 0 ==> c.cs_promo@[i] == Some(v.cs_promo_sk),
        null_bit_set(v.null_bit_map, 17) ==> c.cs_order_number@[i] is None,
        !null_bit_set(v.null_bit_map, 17) ==> c.cs_order_number@[i] == Some(v.cs_order_number),
        null_bit_set(v.null_bit_map, 18) ==> c.cs_quantity@[i] is None,
        !null_bit_set(v.null_bit_map, 18) ==> c.cs_quantity@[i] == Some(v.pricing_quantity),
        null_bit_set(v.null_bit_map, 19) ==> c.cs_wholesale_cost@[i] is None,
        !null_bit_set(v.null_bit_map, 19) ==> c.cs_wholesale_cost@[i] == Some(v.pricing_wholesale_cost.spec_number() as i128),
        null_bit_set(v.null_bit_map, 20) ==> c.cs_list_price@[i] is None,
        !null_bit_set(v.null_bit_map, 20) ==> c.cs_list_price@[i] == Some(v.pricing_list_price.spec_number() as i128),
        null_bit_set(v.null_bit_map, 21) ==> c.cs_sales_price@[i] is None,
        !null_bit_set(v.null_bit_map, 21) ==> c.cs_sales_price@[i] == Some(v.pricing_sales_price.spec_number() as i128),
        null_bit_set(v.null_bit_map, 24) ==> c.cs_ext_discount_amt@[i] is None,
        !null_bit_set(v.null_bit_map, 24) ==> c.cs_ext_discount_amt@[i] == Some(v.pricing_ext_discount_amount.spec_number() as i128),
        null_bit_set(v.null_bit_map, 23) ==> c.cs_ext_sales_price@[i] is None,
        !null_bit_set(v.null_bit_map, 23) ==> c.cs_ext_sales_price@[i] == Some(v.pricing_ext_sales_price.spec_number() as i128),
        null_bit_set(v.null_bit_map, 25) ==> c.cs_ext_wholesale_cost@[i] is None,
        !null_bit_set(v.null_bit_map, 25) ==> c.cs_ext_wholesale_cost@[i] == Some(v.pricing_ext_wholesale_cost.spec_number() as i128),
        null_bit_set(v.null_bit_map, 26) ==> c.cs_ext_list_price@[i] is None,
        !null_bit_set(v.null_bit_map, 26) ==> c.cs_ext_list_price@[i] == Some(v.pricing_ext_list_price.spec_number() as i128),
        null_bit_set(v.null_bit_map, 27) ==> c.cs_ext_tax@[i] is None,
        !null_bit_set(v.null_bit_map, 27) ==> c.cs_ext_tax@[i] == Some(v.pricing_ext_tax.spec_number() as i128),
        null_bit_set(v.null_bit_map, 22) ==> c.cs_coupon_amt@[i] is None,
        !null_bit_set(v.null_bit_map, 22) ==> c.cs_coupon_amt@[i] == Some(v.pricing_coupon_amount.spec_number() as i128),
        null_bit_set(v.null_bit_map, 28) ==> c.cs_ext_ship_cost@[i] is None,
        !null_bit_set(v.null_bit_map, 28) ==> c.cs_ext_ship_cost@[i] == Some(v.pricing_ext_ship_cost.spec_number() as i128),
        null_bit_set(v.null_bit_map, 29) ==> c.cs_net_paid@[i] is None,
        !null_bit_set(v.null_bit_map, 29) ==> c.cs_net_paid@[i] == Some(v.pricing_net_paid.spec_number() as i128),
        null_bit_set(v.null_bit_map, 30) ==> c.cs_net_paid_inc_tax@[i] is None,
        !null_bit_set(v.null_bit_map, 30) ==> c.cs_net_paid_inc_tax@[i] == Some(v.pricing_net_paid_including_tax.spec_number() as i128),
        null_bit_set(v.null_bit_map, 31) ==> c.cs_net_paid_inc_ship@[i] is None,
        !null_bit_set(v.null_bit_map, 31) ==> c.cs_net_paid_inc_ship@[i] == Some(v.pricing_net_paid_including_shipping.spec_number() as i128),
        null_bit_set(v.null_bit_map, 32) ==> c.cs_net_paid_inc_ship_tax@[i] is None,
        !null_bit_set(v.null_bit_map, 32) ==> c.cs_net_paid_inc_ship_tax@[i] == Some(v.pricing_net_paid_including_shipping_and_tax.spec_number() as i128),
        null_bit_set(v.null_bit_map, 33) ==> c.cs_net_profit@[i] is None,
        !null_bit_set(v.null_bit_map, 33) ==> c.cs_net_profit@[i] == Some(v.pricing_net_profit.spec_number() as i128),
{
}

/// Whether every column of `c` has `n` values.
pub open spec fn catalog_sales_column_lengths(c: CatalogSalesColumns, n: int) -> bool {
    &&& c.cs_sold_date@.len() == n
    &&& c.cs_sold_time@.len() == n
    &&& c.cs_ship_date@.len() == n
    &&& c.cs_bill_customer@.len() == n
    &&& c.cs_bill_cdemo@.len() == n
    &&& c.cs_bill_hdemo@.len() == n
    &&& c.cs_bill_addr@.len() == n
    &&& c.cs_ship_customer@.len() == n
    &&& c.cs_ship_cdemo@.len() == n
    &&& c.cs_ship_hdemo@.len() == n
    &&& c.cs_ship_addr@.len() == n
    &&& c.cs_call_center@.len() == n
    &&& c.cs_catalog_page@.len() == n
    &&& c.cs_ship_mode@.len() == n
    &&& c.cs_warehouse@.len() == n
    &&& c.cs_item@.len() == n
    &&& c.cs_promo@.len() == n
    &&& c.cs_order_number@.len() == n
    &&& c.cs_quantity@.len() == n
    &&& c.cs_wholesale_cost@.len() == n
    &&& c.cs_list_price@.len() == n
    &&& c.cs_sales_price@.len() == n
    &&& c.cs_ext_discount_amt@.len() == n
    &&& c.cs_ext_sales_price@.len() == n
    &&& c.cs_ext_wholesale_cost@.len() == n
    &&& c.cs_ext_list_price@.len() == n
    &&& c.cs_ext_tax@.len() == n
    &&& c.cs_coupon_amt@.len() == n
    &&& c.cs_ext_ship_cost@.len() == n
    &&& c.cs_net_paid@.len() == n
    &&& c.cs_net_paid_inc_tax@.len() == n
    &&& c.cs_net_paid_inc_ship@.len() == n
    &&& c.cs_net_paid_inc_ship_tax@.len() == n
    &&& c.cs_net_profit@.len() == n
}

/// The columns of a batch of `catalog_sales` rows: each value NULL where the
/// row's null bitmap marks its column (and a key also where it is negative),
/// decimals as their unscaled number, flags as `Y`/`N`.
#[verifier::rlimit(40)]
pub fn catalog_sales_columns(rows: &Vec<CatalogSalesValues>) -> (r: CatalogSalesColumns)
    ensures
        catalog_sales_column_lengths(r, rows.len() as int),
        forall|i: int| 0 <= i < rows.len() ==> catalog_sales_row_columns(r, i, #[trigger] rows@[i]),
{
    let mut out = CatalogSalesColumns {
        cs_sold_date: Vec::with_capacity(rows.len()),
        cs_sold_time: Vec::with_capacity(rows.len()),
        cs_ship_date: Vec::with_capacity(rows.len()),
        cs_bill_customer: Vec::with_capacity(rows.len()),
        cs_bill_cdemo: Vec::with_capacity(rows.len()),
        cs_bill_hdemo: Vec::with_capacity(rows.len()),
        cs_bill_addr: Vec::with_capacity(rows.len()),
        cs_ship_customer: Vec::with_capacity(rows.len()),
        cs_ship_cdemo: Vec::with_capacity(rows.len()),
        cs_ship_hdemo: Vec::with_capacity(rows.len()),
        cs_ship_addr: Vec::with_capacity(rows.len()),
        cs_call_center: Vec::with_capacity(rows.len()),
        cs_catalog_page: Vec::with_capacity(rows.len()),
        cs_ship_mode: Vec::with_capacity(rows.len()),
        cs_warehouse: Vec::with_capacity(rows.len()),
        cs_item: Vec::with_capacity(rows.len()),
        cs_promo: Vec::with_capacity(rows.len()),
        cs_order_number: Vec::with_capacity(rows.len()),
        cs_quantity: Vec::with_capacity(rows.len()),
        cs_wholesale_cost: Vec::with_capacity(rows.len()),
        cs_list_price: Vec::with_capacity(rows.len()),
        cs_sales_price: Vec::with_capacity(rows.len()),
        cs_ext_discount_amt: Vec::with_capacity(rows.len()),
        cs_ext_sales_price: Vec::with_capacity(rows.len()),
        cs_ext_wholesale_cost: Vec::with_capacity(rows.len()),
        cs_ext_list_price: Vec::with_capacity(rows.len()),
        cs_ext_tax: Vec::with_capacity(rows.len()),
        cs_coupon_amt: Vec::with_capacity(rows.len()),
        cs_ext_ship_cost: Vec::with_capacity(rows.len()),
        cs_net_paid: Vec::with_capacity(rows.len()),
        cs_net_paid_inc_tax: Vec::with_capacity(rows.len()),
        cs_net_paid_inc_ship: Vec::with_capacity(rows.len()),
        cs_net_paid_inc_ship_tax: Vec::with_capacity(rows.len()),
        cs_net_profit: Vec::with_capacity(rows.len()),
    };
    let mut i: usize = 0;
    while i < rows.len()
        invariant
            i <= rows.len(),
            catalog_sales_column_lengths(out, i as int),
            forall|j: int| 0 <= j < i ==> catalog_sales_row_columns(out, j, #[trigger] rows@[j]),
        decreases rows.len() - i,
    {
        let v = &rows[i];
        let nbm = v.null_bit_map;
        let ghost before = out;
        out.cs_sold_date.push(sk_opt(nbm, 0, v.cs_sold_date_sk));
        out.cs_sold_time.push(sk_opt(nbm, 1, v.cs_sold_time_sk));
        out.cs_ship_date.push(sk_opt(nbm, 2, v.cs_ship_date_sk));
        out.cs_bill_customer.push(sk_opt(nbm, 3, v.cs_bill_customer_sk));
        out.cs_bill_cdemo.push(sk_opt(nbm, 4, v.cs_bill_cdemo_sk));
        out.cs_bill_hdemo.push(sk_opt(nbm, 5, v.cs_bill_hdemo_sk));
        out.cs_bill_addr.push(sk_opt(nbm, 6, v.cs_bill_addr_sk));
        out.cs_ship_customer.push(sk_opt(nbm, 7, v.cs_ship_customer_sk));
        out.cs_ship_cdemo.push(sk_opt(nbm, 8, v.cs_ship_cdemo_sk));
        out.cs_ship_hdemo.push(sk_opt(nbm, 9, v.cs_ship_hdemo_sk));
        out.cs_ship_addr.push(sk_opt(nbm, 10, v.cs_ship_addr_sk));
        out.cs_call_center.push(sk_opt(nbm, 11, v.cs_call_center_sk));
        out.cs_catalog_page.push(sk_opt(nbm, 12, v.cs_catalog_page_sk));
        out.cs_ship_mode.push(sk_opt(nbm, 13, v.cs_ship_mode_sk));
        out.cs_warehouse.push(sk_opt(nbm, 14, v.cs_warehouse_sk));
        out.cs_item.push(sk_opt(nbm, 15, v.cs_sold_item_sk));
        out.cs_promo.push(sk_opt(nbm, 16, v.cs_promo_sk));
        out.cs_order_number.push(opt(nbm, 17, v.cs_order_number));
        out.cs_quantity.push(opt(nbm, 18, v.pricing_quantity));
        out.cs_wholesale_cost.push(opt(nbm, 19, decimal_to_i128(v.pricing_wholesale_cost)));
        out.cs_list_price.push(opt(nbm, 20, decimal_to_i128(v.pricing_list_price)));
        out.cs_sales_price.push(opt(nbm, 21, decimal_to_i128(v.pricing_sales_price)));
        out.cs_ext_discount_amt.push(opt(nbm, 24, decimal_to_i128(v.pricing_ext_discount_amount)));
        out.cs_ext_sales_price.push(opt(nbm, 23, decimal_to_i128(v.pricing_ext_sales_price)));
        out.cs_ext_wholesale_cost.push(opt(nbm, 25, decimal_to_i128(v.pricing_ext_wholesale_cost)));
        out.cs_ext_list_price.push(opt(nbm, 26, decimal_to_i128(v.pricing_ext_list_price)));
        out.cs_ext_tax.push(opt(nbm, 27, decimal_to_i128(v.pricing_ext_tax)));
        out.cs_coupon_amt.push(opt(nbm, 22, decimal_to_i128(v.pricing_coupon_amount)));
        out.cs_ext_ship_cost.push(opt(nbm, 28, decimal_to_i128(v.pricing_ext_ship_cost)));
        out.cs_net_paid.push(opt(nbm, 29, decimal_to_i128(v.pricing_net_paid)));
        out.cs_net_paid_inc_tax.push(opt(nbm, 30, decimal_to_i128(v.pricing_net_paid_including_tax)));
        out.cs_net_paid_inc_ship.push(opt(nbm, 31, decimal_to_i128(v.pricing_net_paid_including_shipping)));
        out.cs_net_paid_inc_ship_tax.push(opt(nbm, 32, decimal_to_i128(v.pricing_net_paid_including_shipping_and_tax)));
        out.cs_net_profit.push(opt(nbm, 33, decimal_to_i128(v.pricing_net_profit)));
        assert forall|j: int| 0 <= j < i + 1 implies catalog_sales_row_columns(out, j, #[trigger] rows@[j]) by {
            if j < i {
                assert(catalog_sales_row_columns(before, j, rows@[j]));
            }
        }
        i = i + 1;
    }
    out
}

/// The values of one `web_sales` row that its columns are made of, with
/// the row's null bitmap.
#[derive(Clone, Debug)]
pub struct WebSalesValues {
    pub null_bit_map: i64,
    pub ws_sold_date_sk: i64,
    pub ws_sold_time_sk: i64,
    pub ws_ship_date_sk: i64,
    pub ws_item_sk: i64,
    pub ws_bill_customer_sk: i64,
    pub ws_bill_cdemo_sk: i64,
    pub ws_bill_hdemo_sk: i64,
    pub ws_bill_addr_sk: i64,
    pub ws_ship_customer_sk: i64,
    pub ws_ship_cdemo_sk: i64,
    pub ws_ship_hdemo_sk: i64,
    pub ws_ship_addr_sk: i64,
    pub ws_web_page_sk: i64,
    pub ws_web_site_sk: i64,
    pub ws_ship_mode_sk: i64,
    pub ws_warehouse_sk: i64,
    pub ws_promo_sk: i64,
    pub ws_order_number: i64,
    pub pricing_quantity: i32,
    pub pricing_wholesale_cost: Decimal,
    pub pricing_list_price: Decimal,
    pub pricing_sales_price: Decimal,
    pub pricing_ext_discount_amount: Decimal,
    pub pricing_ext_sales_price: Decimal,
    pub pricing_ext_wholesale_cost: Decimal,
    pub pricing_ext_list_price: Decimal,
    pub pricing_ext_tax: Decimal,
    pub pricing_coupon_amount: Decimal,
    pub pricing_ext_ship_cost: Decimal,
    pub pricing_net_paid: Decimal,
    pub pricing_net_paid_including_tax: Decimal,
    pub pricing_net_paid_including_shipping: Decimal,
    pub pricing_net_paid_including_shipping_and_tax: Decimal,
    pub pricing_net_profit: Decimal,
}

/// The columns of a batch of `web_sales` rows, in schema order.
#[derive(Clone, Debug)]
pub struct WebSalesColumns {
    pub ws_sold_date: Vec<Option<i64>>,
    pub ws_sold_time: Vec<Option<i64>>,
    pub ws_ship_date: Vec<Option<i64>>,
    pub ws_item: Vec<Option<i64>>,
    pub ws_bill_customer: Vec<Option<i64>>,
    pub ws_bill_cdemo: Vec<Option<i64>>,
    pub ws_bill_hdemo: Vec<Option<i64>>,
    pub ws_bill_addr: Vec<Option<i64>>,
    pub ws_ship_customer: Vec<Option<i64>>,
    pub ws_ship_cdemo: Vec<Option<i64>>,
    pub ws_ship_hdemo: Vec<Option<i64>>,
    pub ws_ship_addr: Vec<Option<i64>>,
    pub ws_web_page: Vec<Option<i64>>,
    pub ws_web_site: Vec<Option<i64>>,
    pub ws_ship_mode: Vec<Option<i64>>,
    pub ws_warehouse: Vec<Option<i64>>,
    pub ws_promo: Vec<Option<i64>>,
    pub ws_order_number: Vec<Option<i64>>,
    pub ws_quantity: Vec<Option<i32>>,
    pub ws_wholesale_cost: Vec<Option<i128>>,
    pub ws_list_price: Vec<Option<i128>>,
    pub ws_sales_price: Vec<Option<i128>>,
    pub ws_ext_discount_amt: Vec<Option<i128>>,
    pub ws_ext_sales_price: Vec<Option<i128>>,
    pub ws_ext_wholesale_cost: Vec<Option<i128>>,
    pub ws_ext_list_price: Vec<Option<i128>>,
    pub ws_ext_tax: Vec<Option<i128>>,
    pub ws_coupon_amt: Vec<Option<i128>>,
    pub ws_ext_ship_cost: Vec<Option<i128>>,
    pub ws_net_paid: Vec<Option<i128>>,
    pub ws_net_paid_inc_tax: Vec<Option<i128>>,
    pub ws_net_paid_inc_ship: Vec<Option<i128>>,
    pub ws_net_paid_inc_ship_tax: Vec<Option<i128>>,
    pub ws_net_profit: Vec<Option<i128>>,
}

/// Whether row `i` of `c` holds the column values of `v`.
pub open spec fn web_sales_row_columns(c: WebSalesColumns, i: int, v: WebSalesValues) -> bool {
    &&& c.ws_sold_date@[i] == nullable_key(v.null_bit_map, 0, v.ws_sold_date_sk)
    &&& c.ws_sold_time@[i] == nullable_key(v.null_bit_map, 1, v.ws_sold_time_sk)
    &&& c.ws_ship_date@[i] == nullable_key(v.null_bit_map, 2, v.ws_ship_date_sk)
    &&& c.ws_item@[i] == nullable_key(v.null_bit_map, 3, v.ws_item_sk)
    &&& c.ws_bill_customer@[i] == nullable_key(v.null_bit_map, 4, v.ws_bill_customer_sk)
    &&& c.ws_bill_cdemo@[i] == nullable_key(v.null_bit_map, 5, v.ws_bill_cdemo_sk)
    &&& c.ws_bill_hdemo@[i] == nullable_key(v.null_bit_map, 6, v.ws_bill_hdemo_sk)
    &&& c.ws_bill_addr@[i] == nullable_key(v.null_bit_map, 7, v.ws_bill_addr_sk)
    &&& c.ws_ship_customer@[i] == nullable_key(v.null_bit_map, 8, v.ws_ship_customer_sk)
    &&& c.ws_ship_cdemo@[i] == nullable_key(v.null_bit_map, 9, v.ws_ship_cdemo_sk)
    &&& c.ws_ship_hdemo@[i] == nullable_key(v.null_bit_map, 10, v.ws_ship_hdemo_sk)
    &&& c.ws_ship_addr@[i] == nullable_key(v.null_bit_map, 11, v.ws_ship_addr_sk)
    &&& c.ws_web_page@[i] == nullable_key(v.null_bit_map, 12, v.ws_web_page_sk)
    &&& c.ws_web_site@[i] == nullable_key(v.null_bit_map, 13, v.ws_web_site_sk)
    &&& c.ws_ship_mode@[i] == nullable_key(v.null_bit_map, 14, v.ws_ship_mode_sk)
    &&& c.ws_warehouse@[i] == nullable_key(v.null_bit_map, 15, v.ws_warehouse_sk)
    &&& c.ws_promo@[i] == nullable_key(v.null_bit_map, 16, v.ws_promo_sk)
    &&& c.ws_order_number@[i] == nullable(v.null_bit_map, 17, v.ws_order_number)
    &&& c.ws_quantity@[i] == nullable(v.null_bit_map, 18, v.pricing_quantity)
    &&& c.ws_wholesale_cost@[i] == nullable(v.null_bit_map, 19, v.pricing_wholesale_cost.spec_number() as i128)
    &&& c.ws_list_price@[i] == nullable(v.null_bit_map, 20, v.pricing_list_price.spec_number() as i128)
    &&& c.ws_sales_price@[i] == nullable(v.null_bit_map, 21, v.pricing_sales_price.spec_number() as i128)
    &&& c.ws_ext_discount_amt@[i] == nullable(v.null_bit_map, 22, v.pricing_ext_discount_amount.spec_number() as i128)
    &&& c.ws_ext_sales_price@[i] == nullable(v.null_bit_map, 23, v.pricing_ext_sales_price.spec_number() as i128)
    &&& c.ws_ext_wholesale_cost@[i] == nullable(v.null_bit_map, 24, v.pricing_ext_wholesale_cost.spec_number() as i128)
    &&& c.ws_ext_list_price@[i] == nullable(v.null_bit_map, 25, v.pricing_ext_list_price.spec_number() as i128)
    &&& c.ws_ext_tax@[i] == nullable(v.null_bit_map, 26, v.pricing_ext_tax.spec_number() as i128)
    &&& c.ws_coupon_amt@[i] == nullable(v.null_bit_map, 27, v.pricing_coupon_amount.spec_number() as i128)
    &&& c.ws_ext_ship_cost@[i] == nullable(v.null_bit_map, 28, v.pricing_ext_ship_cost.spec_number() as i128)
    &&& c.ws_net_paid@[i] == nullable(v.null_bit_map, 29, v.pricing_net_paid.spec_number() as i128)
    &&& c.ws_net_paid_inc_tax@[i] == nullable(v.null_bit_map, 30, v.pricing_net_paid_including_tax.spec_number() as i128)
    &&& c.ws_net_paid_inc_ship@[i] == nullable(v.null_bit_map, 31, v.pricing_net_paid_including_shipping.spec_number() as i128)
    &&& c.ws_net_paid_inc_ship_tax@[i] == nullable(v.null_bit_map, 32, v.pricing_net_paid_including_shipping_and_tax.spec_number() as i128)
    &&& c.ws_net_profit@[i] == nullable(v.null_bit_map, 33, v.pricing_net_profit.spec_number() as i128)
}

/// Each column of a `web_sales` row reads its own field of the row: NULL
/// where the row's null bit for the column is set (a key also where it is
/// negative), otherwise that field's value, converted as the column's type
/// asks; no column takes another field's value.
pub proof fn lemma_web_sales_columns_read_their_fields(c: WebSalesColumns, i: int, v: WebSalesValues)
    requires
        web_sales_row_columns(c, i, v),
    ensures
        null_bit_set(v.null_bit_map, 0) || v.ws_sold_date_sk < 0 ==> c.ws_sold_date@[i] is None,
        !null_bit_set(v.null_bit_map, 0) && v.ws_sold_date_sk >= 0 ==> c.ws_sold_date@[i] == Some(v.ws_sold_date_sk),
        null_bit_set(v.null_bit_map, 1) || v.ws_sold_time_sk < 0 ==> c.ws_sold_time@[i] is None,
        !null_bit_set(v.null_bit_map, 1) && v.ws_sold_time_sk >= 0 ==> c.ws_sold_time@[i] == Some(v.ws_sold_time_sk),
        null_bit_set(v.null_bit_map, 2) || v.ws_ship_date_sk < 0 ==> c.ws_ship_date@[i] is None,
        !null_bit_set(v.null_bit_map, 2) && v.ws_ship_date_sk >= 0 ==> c.ws_ship_date@[i] == Some(v.ws_ship_date_sk),
        null_bit_set(v.null_bit_map, 3) || v.ws_item_sk < 0 ==> c.ws_item@[i] is None,
        !null_bit_set(v.null_bit_map, 3) && v.ws_item_sk >= 0 ==> c.ws_item@[i] == Some(v.ws_item_sk),
        null_bit_set(v.null_bit_map, 4) || v.ws_bill_customer_sk < 0 ==> c.ws_bill_customer@[i] is None,
        !null_bit_set(v.null_bit_map, 4) && v.ws_bill_customer_sk >= 0 ==> c.ws_bill_customer@[i] == Some(v.ws_bill_customer_sk),
        null_bit_set(v.null_bit_map, 5) || v.ws_bill_cdemo_sk < 0 ==> c.ws_bill_cdemo@[i] is None,
        !null_bit_set(v.null_bit_map, 5) && v.ws_bill_cdemo_sk >= 0 ==> c.ws_bill_cdemo@[i] == Some(v.ws_bill_cdemo_sk),
        null_bit_set(v.null_bit_map, 6) || v.ws_bill_hdemo_sk < 0 ==> c.ws_bill_hdemo@[i] is None,
        !null_bit_set(v.null_bit_map, 6) && v.ws_bill_hdemo_sk >= 0 ==> c.ws_bill_hdemo@[i] == Some(v.ws_bill_hdemo_sk),
        null_bit_set(v.null_bit_map, 7) || v.ws_bill_addr_sk < 0 ==> c.ws_bill_addr@[i] is None,
        !null_bit_set(v.null_bit_map, 7) && v.ws_bill_addr_sk >= 0 ==> c.ws_bill_addr@[i] == Some(v.ws_bill_addr_sk),
        null_bit_set(v.null_bit_map, 8) || v.ws_ship_customer_sk < 0 ==> c.ws_ship_customer@[i] is None,
        !null_bit_set(v.null_bit_map, 8) && v.ws_ship_customer_sk >= 0 ==> c.ws_ship_customer@[i] == Some(v.ws_ship_customer_sk),
        null_bit_set(v.null_bit_map, 9) || v.ws_ship_cdemo_sk < 0 ==> c.ws_ship_cdemo@[i] is None,
        !null_bit_set(v.null_bit_map, 9) && v.ws_ship_cdemo_sk >= 0 ==> c.ws_ship_cdemo@[i] == Some(v.ws_ship_cdemo_sk),
        null_bit_set(v.null_bit_map, 10) || v.ws_ship_hdemo_sk < 0 ==> c.ws_ship_hdemo@[i] is None,
        !null_bit_set(v.null_bit_map, 10) && v.ws_ship_hdemo_sk >= 0 ==> c.ws_ship_hdemo@[i] == Some(v.ws_ship_hdemo_sk),
        null_bit_set(v.null_bit_map, 11) || v.ws_ship_addr_sk < 0 ==> c.ws_ship_addr@[i] is None,
        !null_bit_set(v.null_bit_map, 11) && v.ws_ship_addr_sk >= 0 ==> c.ws_ship_addr@[i] == Some(v.ws_ship_addr_sk),
        null_bit_set(v.null_bit_map, 12) || v.ws_web_page_sk < 0 ==> c.ws_web_page@[i] is None,
        !null_bit_set(v.null_bit_map, 12) && v.ws_web_page_sk >= 0 ==> c.ws_web_page@[i] == Some(v.ws_web_page_sk),
        null_bit_set(v.null_bit_map, 13) || v.ws_web_site_sk < 0 ==> c.ws_web_site@[i] is None,
        !null_bit_set(v.null_bit_map, 13) && v.ws_web_site_sk >= 0 ==> c.ws_web_site@[i] == Some(v.ws_web_site_sk),
        null_bit_set(v.null_bit_map, 14) || v.ws_ship_mode_sk < 0 ==> c.ws_ship_mode@[i] is None,
        !null_bit_set(v.null_bit_map, 14) && v.ws_ship_mode_sk >= 0 ==> c.ws_ship_mode@[i] == Some(v.ws_ship_mode_sk),
        null_bit_set(v.null_bit_map, 15) || v.ws_warehouse_sk < 0 ==> c.ws_warehouse@[i] is None,
        !null_bit_set(v.null_bit_map, 15) && v.ws_warehouse_sk >= 0 ==> c.ws_warehouse@[i] == Some(v.ws_warehouse_sk),
        null_bit_set(v.null_bit_map, 16) || v.ws_promo_sk < 0 ==> c.ws_promo@[i] is None,
        !null_bit_set(v.null_bit_map, 16) && v.ws_promo_sk >= 0 ==> c.ws_promo@[i] == Some(v.ws_promo_sk),
        null_bit_set(v.null_bit_map, 17) ==> c.ws_order_number@[i] is None,
        !null_bit_set(v.null_bit_map, 17) ==> c.ws_order_number@[i] == Some(v.ws_order_number),
        null_bit_set(v.null_bit_map, 18) ==> c.ws_quantity@[i] is None,
        !null_bit_set(v.null_bit_map, 18) ==> c.ws_quantity@[i] == Some(v.pricing_quantity),
        null_bit_set(v.null_bit_map, 19) ==> c.ws_wholesale_cost@[i] is None,
        !null_bit_set(v.null_bit_map, 19) ==> c.ws_wholesale_cost@[i] == Some(v.pricing_wholesale_cost.spec_number() as i128),
        null_bit_set(v.null_bit_map, 20) ==> c.ws_list_price@[i] is None,
        !null_bit_set(v.null_bit_map, 20) ==> c.ws_list_price@[i] == Some(v.pricing_list_price.spec_number() as i128),
        null_bit_set(v.null_bit_map, 21) ==> c.ws_sales_price@[i] is None,
        !null_bit_set(v.null_bit_map, 21) ==> c.ws_sales_price@[i] == Some(v.pricing_sales_price.spec_number() as i128),
        null_bit_set(v.null_bit_map, 22) ==> c.ws_ext_discount_amt@[i] is None,
        !null_bit_set(v.null_bit_map, 22) ==> c.ws_ext_discount_amt@[i] == Some(v.pricing_ext_discount_amount.spec_number() as i128),
        null_bit_set(v.null_bit_map, 23) ==> c.ws_ext_sales_price@[i] is None,
        !null_bit_set(v.null_bit_map, 23) ==> c.ws_ext_sales_price@[i] == Some(v.pricing_ext_sales_price.spec_number() as i128),
        null_bit_set(v.null_bit_map, 24) ==> c.ws_ext_wholesale_cost@[i] is None,
        !null_bit_set(v.null_bit_map, 24) ==> c.ws_ext_wholesale_cost@[i] == Some(v.pricing_ext_wholesale_cost.spec_number() as i128),
        null_bit_set(v.null_bit_map, 25) ==> c.ws_ext_list_price@[i] is None,
        !null_bit_set(v.null_bit_map, 25) ==> c.ws_ext_list_price@[i] == Some(v.pricing_ext_list_price.spec_number() as i128),
        null_bit_set(v.null_bit_map, 26) ==> c.ws_ext_tax@[i] is None,
        !null_bit_set(v.null_bit_map, 26) ==> c.ws_ext_tax@[i] == Some(v.pricing_ext_tax.spec_number() as i128),
        null_bit_set(v.null_bit_map, 27) ==> c.ws_coupon_amt@[i] is None,
        !null_bit_set(v.null_bit_map, 27) ==> c.ws_coupon_amt@[i] == Some(v.pricing_coupon_amount.spec_number() as i128),
        null_bit_set(v.null_bit_map, 28) ==> c.ws_ext_ship_cost@[i] is None,
        !null_bit_set(v.null_bit_map, 28) ==> c.ws_ext_ship_cost@[i] == Some(v.pricing_ext_ship_cost.spec_number() as i128),
        null_bit_set(v.null_bit_map, 29) ==> c.ws_net_paid@[i] is None,
        !null_bit_set(v.null_bit_map, 29) ==> c.ws_net_paid@[i] == Some(v.pricing_net_paid.spec_number() as i128),
        null_bit_set(v.null_bit_map, 30) ==> c.ws_net_paid_inc_tax@[i] is None,
        !null_bit_set(v.null_bit_map, 30) ==> c.ws_net_paid_inc_tax@[i] == Some(v.pricing_net_paid_including_tax.spec_number() as i128),
        null_bit_set(v.null_bit_map, 31) ==> c.ws_net_paid_inc_ship@[i] is None,
        !null_bit_set(v.null_bit_map, 31) ==> c.ws_net_paid_inc_ship@[i] == Some(v.pricing_net_paid_including_shipping.spec_number() as i128),
        null_bit_set(v.null_bit_map, 32) ==> c.ws_net_paid_inc_ship_tax@[i] is None,
        !null_bit_set(v.null_bit_map, 32) ==> c.ws_net_paid_inc_ship_tax@[i] == Some(v.pricing_net_paid_including_shipping_and_tax.spec_number() as i128),
        null_bit_set(v.null_bit_map, 33) ==> c.ws_net_profit@[i] is None,
        !null_bit_set(v.null_bit_map, 33) ==> c.ws_net_profit@[i] == Some(v.pricing_net_profit.spec_number() as i128),
{
}

/// Whether every column of `c` has `n` values.
pub open spec fn web_sales_column_lengths(c: WebSalesColumns, n: int) -> bool {
    &&& c.ws_sold_date@.len() == n
    &&& c.ws_sold_time@.len() == n
    &&& c.ws_ship_date@.len() == n
    &&& c.ws_item@.len() == n
    &&& c.ws_bill_customer@.len() == n
    &&& c.ws_bill_cdemo@.len() == n
    &&& c.ws_bill_hdemo@.len() == n
    &&& c.ws_bill_addr@.len() == n
    &&& c.ws_ship_customer@.len() == n
    &&& c.ws_ship_cdemo@.len() == n
    &&& c.ws_ship_hdemo@.len() == n
    &&& c.ws_ship_addr@.len() == n
    &&& c.ws_web_page@.len() == n
    &&& c.ws_web_site@.len() == n
    &&& c.ws_ship_mode@.len() == n
    &&& c.ws_warehouse@.len() == n
    &&& c.ws_promo@.len() == n
    &&& c.ws_order_number@.len() == n
    &&& c.ws_quantity@.len() == n
    &&& c.ws_wholesale_cost@.len() == n
    &&& c.ws_list_price@.len() == n
    &&& c.ws_sales_price@.len() == n
    &&& c.ws_ext_discount_amt@.len() == n
    &&& c.ws_ext_sales_price@.len() == n
    &&& c.ws_ext_wholesale_cost@.len() == n
    &&& c.ws_ext_list_price@.len() == n
    &&& c.ws_ext_tax@.len() == n
    &&& c.ws_coupon_amt@.len() == n
    &&& c.ws_ext_ship_cost@.len() == n
    &&& c.ws_net_paid@.len() == n
    &&& c.ws_net_paid_inc_tax@.len() == n
    &&& c.ws_net_paid_inc_ship@.len() == n
    &&& c.ws_net_paid_inc_ship_tax@.len() == n
    &&& c.ws_net_profit@.len() == n
}

/// The columns of a batch of `web_sales` rows: each value NULL where the
/// row's null bitmap marks its column (and a key also where it is negative),
/// decimals as their unscaled number, flags as `Y`/`N`.
#[verifier::rlimit(40)]
pub fn web_sales_columns(rows: &Vec<WebSalesValues>) -> (r: WebSalesColumns)
    ensures
        web_sales_column_lengths(r, rows.len() as int),
        forall|i: int| 0 <= i < rows.len() ==> web_sales_row_columns(r, i, #[trigger] rows@[i]),
{
    let mut out = WebSalesColumns {
        ws_sold_date: Vec::with_capacity(rows.len()),
        ws_sold_time: Vec::with_capacity(rows.len()),
        ws_ship_date: Vec::with_capacity(rows.len()),
        ws_item: Vec::with_capacity(rows.len()),
        ws_bill_customer: Vec::with_capacity(rows.len()),
        ws_bill_cdemo: Vec::with_capacity(rows.len()),
        ws_bill_hdemo: Vec::with_capacity(rows.len()),
        ws_bill_addr: Vec::with_capacity(rows.len()),
        ws_ship_customer: Vec::with_capacity(rows.len()),
        ws_ship_cdemo: Vec::with_capacity(rows.len()),
        ws_ship_hdemo: Vec::with_capacity(rows.len()),
        ws_ship_addr: Vec::with_capacity(rows.len()),
        ws_web_page: Vec::with_capacity(rows.len()),
        ws_web_site: Vec::with_capacity(rows.len()),
        ws_ship_mode: Vec::with_capacity(rows.len()),
        ws_warehouse: Vec::with_capacity(rows.len()),
        ws_promo: Vec::with_capacity(rows.len()),
        ws_order_number: Vec::with_capacity(rows.len()),
        ws_quantity: Vec::with_capacity(rows.len()),
        ws_wholesale_cost: Vec::with_capacity(rows.len()),
        ws_list_price: Vec::with_capacity(rows.len()),
        ws_sales_price: Vec::with_capacity(rows.len()),
        ws_ext_discount_amt: Vec::with_capacity(rows.len()),
        ws_ext_sales_price: Vec::with_capacity(rows.len()),
        ws_ext_wholesale_cost: Vec::with_capacity(rows.len()),
        ws_ext_list_price: Vec::with_capacity(rows.len()),
        ws_ext_tax: Vec::with_capacity(rows.len()),
        ws_coupon_amt: Vec::with_capacity(rows.len()),
        ws_ext_ship_cost: Vec::with_capacity(rows.len()),
        ws_net_paid: Vec::with_capacity(rows.len()),
        ws_net_paid_inc_tax: Vec::with_capacity(rows.len()),
        ws_net_paid_inc_ship: Vec::with_capacity(rows.len()),
        ws_net_paid_inc_ship_tax: Vec::with_capacity(rows.len()),
        ws_net_profit: Vec::with_capacity(rows.len()),
    };
    let mut i: usize = 0;
    while i < rows.len()
        invariant
            i <= rows.len(),
            web_sales_column_lengths(out, i as int),
            forall|j: int| 0 <= j < i ==> web_sales_row_columns(out, j, #[trigger] rows@[j]),
        decreases rows.len() - i,
    {
        let v = &rows[i];
        let nbm = v.null_bit_map;
        let ghost before = out;
        out.ws_sold_date.push(sk_opt(nbm, 0, v.ws_sold_date_sk));
        out.ws_sold_time.push(sk_opt(nbm, 1, v.ws_sold_time_sk));
        out.ws_ship_date.push(sk_opt(nbm, 2, v.ws_ship_date_sk));
        out.ws_item.push(sk_opt(nbm, 3, v.ws_item_sk));
        out.ws_bill_customer.push(sk_opt(nbm, 4, v.ws_bill_customer_sk));
        out.ws_bill_cdemo.push(sk_opt(nbm, 5, v.ws_bill_cdemo_sk));
        out.ws_bill_hdemo.push(sk_opt(nbm, 6, v.ws_bill_hdemo_sk));
        out.ws_bill_addr.push(sk_opt(nbm, 7, v.ws_bill_addr_sk));
        out.ws_ship_customer.push(sk_opt(nbm, 8, v.ws_ship_customer_sk));
        out.ws_ship_cdemo.push(sk_opt(nbm, 9, v.ws_ship_cdemo_sk));
        out.ws_ship_hdemo.push(sk_opt(nbm, 10, v.ws_ship_hdemo_sk));
        out.ws_ship_addr.push(sk_opt(nbm, 11, v.ws_ship_addr_sk));
        out.ws_web_page.push(sk_opt(nbm, 12, v.ws_web_page_sk));
        out.ws_web_site.push(sk_opt(nbm, 13, v.ws_web_site_sk));
        out.ws_ship_mode.push(sk_opt(nbm, 14, v.ws_ship_mode_sk));
        out.ws_warehouse.push(sk_opt(nbm, 15, v.ws_warehouse_sk));
        out.ws_promo.push(sk_opt(nbm, 16, v.ws_promo_sk));
        out.ws_order_number.push(opt(nbm, 17, v.ws_order_number));
        out.ws_quantity.push(opt(nbm, 18, v.pricing_quantity));
        out.ws_wholesale_cost.push(opt(nbm, 19, decimal_to_i128(v.pricing_wholesale_cost)));
        out.ws_list_price.push(opt(nbm, 20, decimal_to_i128(v.pricing_list_price)));
        out.ws_sales_price.push(opt(nbm, 21, decimal_to_i128(v.pricing_sales_price)));
        out.ws_ext_discount_amt.push(opt(nbm, 22, decimal_to_i128(v.pricing_ext_discount_amount)));
        out.ws_ext_sales_price.push(opt(nbm, 23, decimal_to_i128(v.pricing_ext_sales_price)));
        out.ws_ext_wholesale_cost.push(opt(nbm, 24, decimal_to_i128(v.pricing_ext_wholesale_cost)));
        out.ws_ext_list_price.push(opt(nbm, 25, decimal_to_i128(v.pricing_ext_list_price)));
        out.ws_ext_tax.push(opt(nbm, 26, decimal_to_i128(v.pricing_ext_tax)));
        out.ws_coupon_amt.push(opt(nbm, 27, decimal_to_i128(v.pricing_coupon_amount)));
        out.ws_ext_ship_cost.push(opt(nbm, 28, decimal_to_i128(v.pricing_ext_ship_cost)));
        out.ws_net_paid.push(opt(nbm, 29, decimal_to_i128(v.pricing_net_paid)));
        out.ws_net_paid_inc_tax.push(opt(nbm, 30, decimal_to_i128(v.pricing_net_paid_including_tax)));
        out.ws_net_paid_inc_ship.push(opt(nbm, 31, decimal_to_i128(v.pricing_net_paid_including_shipping)));
        out.ws_net_paid_inc_ship_tax.push(opt(nbm, 32, decimal_to_i128(v.pricing_net_paid_including_shipping_and_tax)));
        out.ws_net_profit.push(opt(nbm, 33, decimal_to_i128(v.pricing_net_profit)));
        assert forall|j: int| 0 <= j < i + 1 implies web_sales_row_columns(out, j, #[trigger] rows@[j]) by {
            if j < i {
                assert(web_sales_row_columns(before, j, rows@[j]));
            }
        }
        i = i + 1;
    }
    out
}

/// The values of one `date_dim` row that its columns are made of, with
/// the row's null bitmap.
#[derive(Clone, Debug)]
pub struct DateDimValues {
    pub null_bit_map: i64,
    pub d_date_sk: i64,
    pub d_date_id: String,
    pub d_date: Date,
    pub d_month_seq: i32,
    pub d_week_seq: i32,
    pub d_quarter_seq: i32,
    pub d_year: i32,
    pub d_dow: i32,
    pub d_moy: i32,
    pub d_dom: i32,
    pub d_qoy: i32,
    pub d_fy_year: i32,
    pub d_fy_quarter_seq: i32,
    pub d_fy_week_seq: i32,
    pub d_day_name: String,
    pub d_quarter_name: String,
    pub d_holiday: bool,
    pub d_weekend: bool,
    pub d_following_holiday: bool,
    pub d_first_dom: i32,
    pub d_last_dom: i32,
    pub d_same_day_ly: i32,
    pub d_same_day_lq: i32,
    pub d_current_day: bool,
    pub d_current_week: bool,
    pub d_current_month: bool,
    pub d_current_quarter: bool,
    pub d_current_year: bool,
}

/// The columns of a batch of `date_dim` rows, in schema order.
#[derive(Clone, Debug)]
pub struct DateDimColumns {
    pub d_date_sk: Vec<Option<i64>>,
    pub d_date_id: Vec<String>,
    pub d_date: Vec<i32>,
    pub d_month_seq: Vec<i32>,
    pub d_week_seq: Vec<i32>,
    pub d_quarter_seq: Vec<i32>,
    pub d_year: Vec<i32>,
    pub d_dow: Vec<i32>,
    pub d_moy: Vec<i32>,
    pub d_dom: Vec<i32>,
    pub d_qoy: Vec<i32>,
    pub d_fy_year: Vec<i32>,
    pub d_fy_quarter_seq: Vec<i32>,
    pub d_fy_week_seq: Vec<i32>,
    pub d_day_name: Vec<String>,
    pub d_quarter_name: Vec<String>,
    pub d_holiday: Vec<String>,
    pub d_weekend: Vec<String>,
    pub d_following_holiday: Vec<String>,
    pub d_first_dom: Vec<i32>,
    pub d_last_dom: Vec<i32>,
    pub d_same_day_ly: Vec<i32>,
    pub d_same_day_lq: Vec<i32>,
    pub d_current_day: Vec<String>,
    pub d_current_week: Vec<String>,
    pub d_current_month: Vec<String>,
    pub d_current_quarter: Vec<String>,
    pub d_current_year: Vec<String>,
}

/// Whether row `i` of `c` holds the column values of `v`.
pub open spec fn date_dim_row_columns(c: DateDimColumns, i: int, v: DateDimValues) -> bool {
    &&& c.d_date_sk@[i] == nullable_key(v.null_bit_map, 0, v.d_date_sk)
    &&& c.d_date_id@[i]@ == v.d_date_id@
    &&& c.d_date@[i] == v.d_date.spec_julian_days() - UNIX_EPOCH_JULIAN
    &&& c.d_month_seq@[i] == v.d_month_seq
    &&& c.d_week_seq@[i] == v.d_week_seq
    &&& c.d_quarter_seq@[i] == v.d_quarter_seq
    &&& c.d_year@[i] == v.d_year
    &&& c.d_dow@[i] == v.d_dow
    &&& c.d_moy@[i] == v.d_moy
    &&& c.d_dom@[i] == v.d_dom
    &&& c.d_qoy@[i] == v.d_qoy
    &&& c.d_fy_year@[i] == v.d_fy_year
    &&& c.d_fy_quarter_seq@[i] == v.d_fy_quarter_seq
    &&& c.d_fy_week_seq@[i] == v.d_fy_week_seq
    &&& c.d_day_name@[i]@ == v.d_day_name@
    &&& c.d_quarter_name@[i]@ == v.d_quarter_name@
    &&& c.d_holiday@[i]@ == yn_text(v.d_holiday)
    &&& c.d_weekend@[i]@ == yn_text(v.d_weekend)
    &&& c.d_following_holiday@[i]@ == yn_text(v.d_following_holiday)
    &&& c.d_first_dom@[i] == v.d_first_dom
    &&& c.d_last_dom@[i] == v.d_last_dom
    &&& c.d_same_day_ly@[i] == v.d_same_day_ly
    &&& c.d_same_day_lq@[i] == v.d_same_day_lq
    &&& c.d_current_day@[i]@ == yn_text(v.d_current_day)
    &&& c.d_current_week@[i]@ == yn_text(v.d_current_week)
    &&& c.d_current_month@[i]@ == yn_text(v.d_current_month)
    &&& c.d_current_quarter@[i]@ == yn_text(v.d_current_quarter)
    &&& c.d_current_year@[i]@ == yn_text(v.d_current_year)
}

/// Each column of a `date_dim` row reads its own field of the row: NULL
/// where the row's null bit for the column is set (a key also where it is
/// negative), otherwise that field's value, converted as the column's type
/// asks; no column takes another field's value.
pub proof fn lemma_date_dim_columns_read_their_fields(c: DateDimColumns, i: int, v: DateDimValues)
    requires
        date_dim_row_columns(c, i, v),
    ensures
        null_bit_set(v.null_bit_map, 0) || v.d_date_sk < 0 ==> c.d_date_sk@[i] is None,
        !null_bit_set(v.null_bit_map, 0) && v.d_date_sk >= 0 ==> c.d_date_sk@[i] == Some(v.d_date_sk),
        c.d_date_id@[i]@ == v.d_date_id@,
        c.d_date@[i] == v.d_date.spec_julian_days() - UNIX_EPOCH_JULIAN,
        c.d_month_seq@[i] == v.d_month_seq,
        c.d_week_seq@[i] == v.d_week_seq,
        c.d_quarter_seq@[i] == v.d_quarter_seq,
        c.d_year@[i] == v.d_year,
        c.d_dow@[i] == v.d_dow,
        c.d_moy@[i] == v.d_moy,
        c.d_dom@[i] == v.d_dom,
        c.d_qoy@[i] == v.d_qoy,
        c.d_fy_year@[i] == v.d_fy_year,
        c.d_fy_quarter_seq@[i] == v.d_fy_quarter_seq,
        c.d_fy_week_seq@[i] == v.d_fy_week_seq,
        c.d_day_name@[i]@ == v.d_day_name@,
        c.d_quarter_name@[i]@ == v.d_quarter_name@,
        c.d_holiday@[i]@ == (if v.d_holiday { seq!['Y'] } else { seq!['N'] }),
        c.d_weekend@[i]@ == (if v.d_weekend { seq!['Y'] } else { seq!['N'] }),
        c.d_following_holiday@[i]@ == (if v.d_following_holiday { seq!['Y'] } else { seq!['N'] }),
        c.d_first_dom@[i] == v.d_first_dom,
        c.d_last_dom@[i] == v.d_last_dom,
        c.d_same_day_ly@[i] == v.d_same_day_ly,
        c.d_same_day_lq@[i] == v.d_same_day_lq,
        c.d_current_day@[i]@ == (if v.d_current_day { seq!['Y'] } else { seq!['N'] }),
        c.d_current_week@[i]@ == (if v.d_current_week { seq!['Y'] } else { seq!['N'] }),
        c.d_current_month@[i]@ == (if v.d_current_month { seq!['Y'] } else { seq!['N'] }),
        c.d_current_quarter@[i]@ == (if v.d_current_quarter { seq!['Y'] } else { seq!['N'] }),
        c.d_current_year@[i]@ == (if v.d_current_year { seq!['Y'] } else { seq!['N'] }),
{
}

/// Whether every column of `c` has `n` values.
pub open spec fn date_dim_column_lengths(c: DateDimColumns, n: int) -> bool {
    &&& c.d_date_sk@.len() == n
    &&& c.d_date_id@.len() == n
    &&& c.d_date@.len() == n
    &&& c.d_month_seq@.len() == n
    &&& c.d_week_seq@.len() == n
    &&& c.d_quarter_seq@.len() == n
    &&& c.d_year@.len() == n
    &&& c.d_dow@.len() == n
    &&& c.d_moy@.len() == n
    &&& c.d_dom@.len() == n
    &&& c.d_qoy@.len() == n
    &&& c.d_fy_year@.len() == n
    &&& c.d_fy_quarter_seq@.len() == n
    &&& c.d_fy_week_seq@.len() == n
    &&& c.d_day_name@.len() == n
    &&& c.d_quarter_name@.len() == n
    &&& c.d_holiday@.len() == n
    &&& c.d_weekend@.len() == n
    &&& c.d_following_holiday@.len() == n
    &&& c.d_first_dom@.len() == n
    &&& c.d_last_dom@.len() == n
    &&& c.d_same_day_ly@.len() == n
    &&& c.d_same_day_lq@.len() == n
    &&& c.d_current_day@.len() == n
    &&& c.d_current_week@.len() == n
    &&& c.d_current_month@.len() == n
    &&& c.d_current_quarter@.len() == n
    &&& c.d_current_year@.len() == n
}

/// Whether the dates of `v` convert without overflow.
pub open spec fn date_dim_row_fits(v: DateDimValues) -> bool {
    &&& v.d_date.spec_julian_days() - UNIX_EPOCH_JULIAN >= i32::MIN
}

/// The columns of a batch of `date_dim` rows: each value NULL where the
/// row's null bitmap marks its column (and a key also where it is negative),
/// decimals as their unscaled number, flags as `Y`/`N`.
#[verifier::rlimit(40)]
pub fn date_dim_columns(rows: &Vec<DateDimValues>) -> (r: DateDimColumns)
    requires
        forall|i: int| 0 <= i < rows.len() ==> date_dim_row_fits(#[trigger] rows@[i]),
    ensures
        date_dim_column_lengths(r, rows.len() as int),
        forall|i: int| 0 <= i < rows.len() ==> date_dim_row_columns(r, i, #[trigger] rows@[i]),
{
    let mut out = DateDimColumns {
        d_date_sk: Vec::with_capacity(rows.len()),
        d_date_id: Vec::with_capacity(rows.len()),
        d_date: Vec::with_capacity(rows.len()),
        d_month_seq: Vec::with_capacity(rows.len()),
        d_week_seq: Vec::with_capacity(rows.len()),
        d_quarter_seq: Vec::with_capacity(rows.len()),
        d_year: Vec::with_capacity(rows.len()),
        d_dow: Vec::with_capacity(rows.len()),
        d_moy: Vec::with_capacity(rows.len()),
        d_dom: Vec::with_capacity(rows.len()),
        d_qoy: Vec::with_capacity(rows.len()),
        d_fy_year: Vec::with_capacity(rows.len()),
        d_fy_quarter_seq: Vec::with_capacity(rows.len()),
        d_fy_week_seq: Vec::with_capacity(rows.len()),
        d_day_name: Vec::with_capacity(rows.len()),
        d_quarter_name: Vec::with_capacity(rows.len()),
        d_holiday: Vec::with_capacity(rows.len()),
        d_weekend: Vec::with_capacity(rows.len()),
        d_following_holiday: Vec::with_capacity(rows.len()),
        d_first_dom: Vec::with_capacity(rows.len()),
        d_last_dom: Vec::with_capacity(rows.len()),
        d_same_day_ly: Vec::with_capacity(rows.len()),
        d_same_day_lq: Vec::with_capacity(rows.len()),
        d_current_day: Vec::with_capacity(rows.len()),
        d_current_week: Vec::with_capacity(rows.len()),
        d_current_month: Vec::with_capacity(rows.len()),
        d_current_quarter: Vec::with_capacity(rows.len()),
        d_current_year: Vec::with_capacity(rows.len()),
    };
    let mut i: usize = 0;
    while i < rows.len()
        invariant
            i <= rows.len(),
            date_dim_column_lengths(out, i as int),
            forall|j: int| 0 <= j < i ==> date_dim_row_columns(out, j, #[trigger] rows@[j]),
            forall|j: int| 0 <= j < rows.len() ==> date_dim_row_fits(#[trigger] rows@[j]),
        decreases rows.len() - i,
    {
        let v = &rows[i];
        let nbm = v.null_bit_map;
        assert(date_dim_row_fits(rows@[i as int]));
        let ghost before = out;
        out.d_date_sk.push(sk_opt(nbm, 0, v.d_date_sk));
        out.d_date_id.push(v.d_date_id.clone());
        out.d_date.push(date_to_date32(&v.d_date));
        out.d_month_seq.push(v.d_month_seq);
        out.d_week_seq.push(v.d_week_seq);
        out.d_quarter_seq.push(v.d_quarter_seq);
        out.d_year.push(v.d_year);
        out.d_dow.push(v.d_dow);
        out.d_moy.push(v.d_moy);
        out.d_dom.push(v.d_dom);
        out.d_qoy.push(v.d_qoy);
        out.d_fy_year.push(v.d_fy_year);
        out.d_fy_quarter_seq.push(v.d_fy_quarter_seq);
        out.d_fy_week_seq.push(v.d_fy_week_seq);
        out.d_day_name.push(v.d_day_name.clone());
        out.d_quarter_name.push(v.d_quarter_name.clone());
        out.d_holiday.push(yn_string(v.d_holiday));
        out.d_weekend.push(yn_string(v.d_weekend));
        out.d_following_holiday.push(yn_string(v.d_following_holiday));
        out.d_first_dom.push(v.d_first_dom);
        out.d_last_dom.push(v.d_last_dom);
        out.d_same_day_ly.push(v.d_same_day_ly);
        out.d_same_day_lq.push(v.d_same_day_lq);
        out.d_current_day.push(yn_string(v.d_current_day));
        out.d_current_week.push(yn_string(v.d_current_week));
        out.d_current_month.push(yn_string(v.d_current_month));
        out.d_current_quarter.push(yn_string(v.d_current_quarter));
        out.d_current_year.push(yn_string(v.d_current_year));
        assert forall|j: int| 0 <= j < i + 1 implies date_dim_row_columns(out, j, #[trigger] rows@[j]) by {
            if j < i {
                assert(date_dim_row_columns(before, j, rows@[j]));
            }
        }
        i = i + 1;
    }
    out
}

/// The values of one `dbgen_version` row that its columns are made of, with
/// the row's null bitmap.
#[derive(Clone, Debug)]
pub struct DbgenVersionValues {
    pub null_bit_map: i64,
    pub dv_version: String,
    pub dv_create_date: Date,
    pub dv_create_time: i32,
    pub dv_cmdline_args: String,
}

/// The columns of a batch of `dbgen_version` rows, in schema order.
#[derive(Clone, Debug)]
pub struct DbgenVersionColumns {
    pub version: Vec<Option<String>>,
    pub create_date: Vec<Option<i32>>,
    pub create_time: Vec<Option<i32>>,
    pub cmdline: Vec<Option<String>>,
}

/// Whether row `i` of `c` holds the column values of `v`.
pub open spec fn dbgen_version_row_columns(c: DbgenVersionColumns, i: int, v: DbgenVersionValues) -> bool {
    &&& text_view(c.version@[i]) == nullable(v.null_bit_map, 0, v.dv_version@)
    &&& c.create_date@[i] == nullable(v.null_bit_map, 1, (v.dv_create_date.spec_julian_days() - UNIX_EPOCH_JULIAN) as i32)
    &&& c.create_time@[i] == nullable(v.null_bit_map, 2, v.dv_create_time)
    &&& text_view(c.cmdline@[i]) == nullable(v.null_bit_map, 3, v.dv_cmdline_args@)
}

/// Each column of a `dbgen_version` row reads its own field of the row: NULL
/// where the row's null bit for the column is set (a key also where it is
/// negative), otherwise that field's value, converted as the column's type
/// asks; no column takes another field's value.
pub proof fn lemma_dbgen_version_columns_read_their_fields(c: DbgenVersionColumns, i: int, v: DbgenVersionValues)
    requires
        dbgen_version_row_columns(c, i, v),
    ensures
        null_bit_set(v.null_bit_map, 0) ==> c.version@[i] is None,
        !null_bit_set(v.null_bit_map, 0) ==> (c.version@[i] matches Some(x) && x@ == v.dv_version@),
        null_bit_set(v.null_bit_map, 1) ==> c.create_date@[i] is None,
        !null_bit_set(v.null_bit_map, 1) ==> c.create_date@[i] == Some((v.dv_create_date.spec_julian_days() - UNIX_EPOCH_JULIAN) as i32),
        null_bit_set(v.null_bit_map, 2) ==> c.create_time@[i] is None,
        !null_bit_set(v.null_bit_map, 2) ==> c.create_time@[i] == Some(v.dv_create_time),
        null_bit_set(v.null_bit_map, 3) ==> c.cmdline@[i] is None,
        !null_bit_set(v.null_bit_map, 3) ==> (c.cmdline@[i] matches Some(x) && x@ == v.dv_cmdline_args@),
{
}

/// Whether every column of `c` has `n` values.
pub open spec fn dbgen_version_column_lengths(c: DbgenVersionColumns, n: int) -> bool {
    &&& c.version@.len() == n
    &&& c.create_date@.len() == n
    &&& c.create_time@.len() == n
    &&& c.cmdline@.len() == n
}

/// Whether the dates of `v` convert without overflow.
pub open spec fn dbgen_version_row_fits(v: DbgenVersionValues) -> bool {
    &&& v.dv_create_date.spec_julian_days() - UNIX_EPOCH_JULIAN >= i32::MIN
}

/// The columns of a batch of `dbgen_version` rows: each value NULL where the
/// row's null bitmap marks its column (and a key also where it is negative),
/// decimals as their unscaled number, flags as `Y`/`N`.
#[verifier::rlimit(40)]
pub fn dbgen_version_columns(rows: &Vec<DbgenVersionValues>) -> (r: DbgenVersionColumns)
    requires
        forall|i: int| 0 <= i < rows.len() ==> dbgen_version_row_fits(#[trigger] rows@[i]),
    ensures
        dbgen_version_column_lengths(r, rows.len() as int),
        forall|i: int| 0 <= i < rows.len() ==> dbgen_version_row_columns(r, i, #[trigger] rows@[i]),
{
    let mut out = DbgenVersionColumns {
        version: Vec::with_capacity(rows.len()),
        create_date: Vec::with_capacity(rows.len()),
        create_time: Vec::with_capacity(rows.len()),
        cmdline: Vec::with_capacity(rows.len()),
    };
    let mut i: usize = 0;
    while i < rows.len()
        invariant
            i <= rows.len(),
            dbgen_version_column_lengths(out, i as int),
            forall|j: int| 0 <= j < i ==> dbgen_version_row_columns(out, j, #[trigger] rows@[j]),
            forall|j: int| 0 <= j < rows.len() ==> dbgen_version_row_fits(#[trigger] rows@[j]),
        decreases rows.len() - i,
    {
        let v = &rows[i];
        let nbm = v.null_bit_map;
        assert(dbgen_version_row_fits(rows@[i as int]));
        let ghost before = out;
        out.version.push(opt(nbm, 0, v.dv_version.clone()));
        out.create_date.push(opt(nbm, 1, date_to_date32(&v.dv_create_date)));
        out.create_time.push(opt(nbm, 2, v.dv_create_time));
        out.cmdline.push(opt(nbm, 3, v.dv_cmdline_args.clone()));
        assert forall|j: int| 0 <= j < i + 1 implies dbgen_version_row_columns(out, j, #[trigger] rows@[j]) by {
            if j < i {
                assert(dbgen_version_row_columns(before, j, rows@[j]));
            }
        }
        i = i + 1;
    }
    out
}

/// The values of one `web_page` row that its columns are made of, with
/// the row's null bitmap.
#[derive(Clone, Debug)]
pub struct WebPageValues {
    pub null_bit_map: i64,
    pub wp_page_sk: i64,
    pub wp_page_id: String,
    pub wp_rec_start_date_id: i64,
    pub wp_rec_end_date_id: i64,
    pub wp_creation_date_sk: i64,
    pub wp_access_date_sk: i64,
    pub wp_autogen_flag: bool,
    pub wp_customer_sk: i64,
    pub wp_url: String,
    pub wp_type: String,
    pub wp_char_count: i32,
    pub wp_link_count: i32,
    pub wp_image_count: i32,
    pub wp_max_ad_count: i32,
}

/// The columns of a batch of `web_page` rows, in schema order.
#[derive(Clone, Debug)]
pub struct WebPageColumns {
    pub wp_sk: Vec<Option<i64>>,
    pub wp_id: Vec<Option<String>>,
    pub wp_rec_start: Vec<Option<i32>>,
    pub wp_rec_end: Vec<Option<i32>>,
    pub wp_creation_date: Vec<Option<i64>>,
    pub wp_access_date: Vec<Option<i64>>,
    pub wp_autogen: Vec<Option<String>>,
    pub wp_customer: Vec<Option<i64>>,
    pub wp_url: Vec<Option<String>>,
    pub wp_type: Vec<Option<String>>,
    pub wp_char_count: Vec<Option<i32>>,
    pub wp_link_count: Vec<Option<i32>>,
    pub wp_image_count: Vec<Option<i32>>,
    pub wp_max_ad_count: Vec<Option<i32>>,
}

/// Whether row `i` of `c` holds the column values of `v`.
pub open spec fn web_page_row_columns(c: WebPageColumns, i: int, v: WebPageValues) -> bool {
    &&& c.wp_sk@[i] == nullable_key(v.null_bit_map, 0, v.wp_page_sk)
    &&& text_view(c.wp_id@[i]) == nullable(v.null_bit_map, 1, v.wp_page_id@)
    &&& c.wp_rec_start@[i] == julian_date32(v.wp_rec_start_date_id)
    &&& c.wp_rec_end@[i] == julian_date32(v.wp_rec_end_date_id)
    &&& c.wp_creation_date@[i] == nullable_key(v.null_bit_map, 4, v.wp_creation_date_sk)
    &&& c.wp_access_date@[i] == nullable_key(v.null_bit_map, 5, v.wp_access_date_sk)
    &&& text_view(c.wp_autogen@[i]) == nullable(v.null_bit_map, 6, yn_text(v.wp_autogen_flag))
    &&& c.wp_customer@[i] == nullable_key(v.null_bit_map, 7, v.wp_customer_sk)
    &&& text_view(c.wp_url@[i]) == nullable(v.null_bit_map, 8, v.wp_url@)
    &&& text_view(c.wp_type@[i]) == nullable(v.null_bit_map, 9, v.wp_type@)
    &&& c.wp_char_count@[i] == nullable(v.null_bit_map, 10, v.wp_char_count)
    &&& c.wp_link_count@[i] == nullable(v.null_bit_map, 11, v.wp_link_count)
    &&& c.wp_image_count@[i] == nullable(v.null_bit_map, 12, v.wp_image_count)
    &&& c.wp_max_ad_count@[i] == nullable(v.null_bit_map, 13, v.wp_max_ad_count)
}

/// Each column of a `web_page` row reads its own field of the row: NULL
/// where the row's null bit for the column is set (a key also where it is
/// negative), otherwise that field's value, converted as the column's type
/// asks; no column takes another field's value.
pub proof fn lemma_web_page_columns_read_their_fields(c: WebPageColumns, i: int, v: WebPageValues)
    requires
        web_page_row_columns(c, i, v),
    ensures
        null_bit_set(v.null_bit_map, 0) || v.wp_page_sk < 0 ==> c.wp_sk@[i] is None,
        !null_bit_set(v.null_bit_map, 0) && v.wp_page_sk >= 0 ==> c.wp_sk@[i] == Some(v.wp_page_sk),
        null_bit_set(v.null_bit_map, 1) ==> c.wp_id@[i] is None,
        !null_bit_set(v.null_bit_map, 1) ==> (c.wp_id@[i] matches Some(x) && x@ == v.wp_page_id@),
        v.wp_rec_start_date_id < 0 ==> c.wp_rec_start@[i] is None,
        v.wp_rec_start_date_id >= 0 ==> c.wp_rec_start@[i] == Some(((v.wp_rec_start_date_id as i32) - UNIX_EPOCH_JULIAN) as i32),
        v.wp_rec_end_date_id < 0 ==> c.wp_rec_end@[i] is None,
        v.wp_rec_end_date_id >= 0 ==> c.wp_rec_end@[i] == Some(((v.wp_rec_end_date_id as i32) - UNIX_EPOCH_JULIAN) as i32),
        null_bit_set(v.null_bit_map, 4) || v.wp_creation_date_sk < 0 ==> c.wp_creation_date@[i] is None,
        !null_bit_set(v.null_bit_map, 4) && v.wp_creation_date_sk >= 0 ==> c.wp_creation_date@[i] == Some(v.wp_creation_date_sk),
        null_bit_set(v.null_bit_map, 5) || v.wp_access_date_sk < 0 ==> c.wp_access_date@[i] is None,
        !null_bit_set(v.null_bit_map, 5) && v.wp_access_date_sk >= 0 ==> c.wp_access_date@[i] == Some(v.wp_access_date_sk),
        null_bit_set(v.null_bit_map, 6) ==> c.wp_autogen@[i] is None,
        !null_bit_set(v.null_bit_map, 6) ==> (c.wp_autogen@[i] matches Some(x) && x@ == (if v.wp_autogen_flag { seq!['Y'] } else { seq!['N'] })),
        null_bit_set(v.null_bit_map, 7) || v.wp_customer_sk < 0 ==> c.wp_customer@[i] is None,
        !null_bit_set(v.null_bit_map, 7) && v.wp_customer_sk >= 0 ==> c.wp_customer@[i] == Some(v.wp_customer_sk),
        null_bit_set(v.null_bit_map, 8) ==> c.wp_url@[i] is None,
        !null_bit_set(v.null_bit_map, 8) ==> (c.wp_url@[i] matches Some(x) && x@ == v.wp_url@),
        null_bit_set(v.null_bit_map, 9) ==> c.wp_type@[i] is None,
        !null_bit_set(v.null_bit_map, 9) ==> (c.wp_type@[i] matches Some(x) && x@ == v.wp_type@),
        null_bit_set(v.null_bit_map, 10) ==> c.wp_char_count@[i] is None,
        !null_bit_set(v.null_bit_map, 10) ==> c.wp_char_count@[i] == Some(v.wp_char_count),
        null_bit_set(v.null_bit_map, 11) ==> c.wp_link_count@[i] is None,
        !null_bit_set(v.null_bit_map, 11) ==> c.wp_link_count@[i] == Some(v.wp_link_count),
        null_bit_set(v.null_bit_map, 12) ==> c.wp_image_count@[i] is None,
        !null_bit_set(v.null_bit_map, 12) ==> c.wp_image_count@[i] == Some(v.wp_image_count),
        null_bit_set(v.null_bit_map, 13) ==> c.wp_max_ad_count@[i] is None,
        !null_bit_set(v.null_bit_map, 13) ==> c.wp_max_ad_count@[i] == Some(v.wp_max_ad_count),
{
}

/// Whether every column of `c` has `n` values.
pub open spec fn web_page_column_lengths(c: WebPageColumns, n: int) -> bool {
    &&& c.wp_sk@.len() == n
    &&& c.wp_id@.len() == n
    &&& c.wp_rec_start@.len() == n
    &&& c.wp_rec_end@.len() == n
    &&& c.wp_creation_date@.len() == n
    &&& c.wp_access_date@.len() == n
    &&& c.wp_autogen@.len() == n
    &&& c.wp_customer@.len() == n
    &&& c.wp_url@.len() == n
    &&& c.wp_type@.len() == n
    &&& c.wp_char_count@.len() == n
    &&& c.wp_link_count@.len() == n
    &&& c.wp_image_count@.len() == n
    &&& c.wp_max_ad_count@.len() == n
}

/// Whether the dates of `v` convert without overflow.
pub open spec fn web_page_row_fits(v: WebPageValues) -> bool {
    &&& v.wp_rec_start_date_id >= 0 ==> (v.wp_rec_start_date_id as i32) - UNIX_EPOCH_JULIAN >= i32::MIN
    &&& v.wp_rec_end_date_id >= 0 ==> (v.wp_rec_end_date_id as i32) - UNIX_EPOCH_JULIAN >= i32::MIN
}

/// The columns of a batch of `web_page` rows: each value NULL where the
/// row's null bitmap marks its column (and a key also where it is negative),
/// decimals as their unscaled number, flags as `Y`/`N`.
#[verifier::rlimit(40)]
pub fn web_page_columns(rows: &Vec<WebPageValues>) -> (r: WebPageColumns)
    requires
        forall|i: int| 0 <= i < rows.len() ==> web_page_row_fits(#[trigger] rows@[i]),
    ensures
        web_page_column_lengths(r, rows.len() as int),
        forall|i: int| 0 <= i < rows.len() ==> web_page_row_columns(r, i, #[trigger] rows@[i]),
{
    let mut out = WebPageColumns {
        wp_sk: Vec::with_capacity(rows.len()),
        wp_id: Vec::with_capacity(rows.len()),
        wp_rec_start: Vec::with_capacity(rows.len()),
        wp_rec_end: Vec::with_capacity(rows.len()),
        wp_creation_date: Vec::with_capacity(rows.len()),
        wp_access_date: Vec::with_capacity(rows.len()),
        wp_autogen: Vec::with_capacity(rows.len()),
        wp_customer: Vec::with_capacity(rows.len()),
        wp_url: Vec::with_capacity(rows.len()),
        wp_type: Vec::with_capacity(rows.len()),
        wp_char_count: Vec::with_capacity(rows.len()),
        wp_link_count: Vec::with_capacity(rows.len()),
        wp_image_count: Vec::with_capacity(rows.len()),
        wp_max_ad_count: Vec::with_capacity(rows.len()),
    };
    let mut i: usize = 0;
    while i < rows.len()
        invariant
            i <= rows.len(),
            web_page_column_lengths(out, i as int),
            forall|j: int| 0 <= j < i ==> web_page_row_columns(out, j, #[trigger] rows@[j]),
            forall|j: int| 0 <= j < rows.len() ==> web_page_row_fits(#[trigger] rows@[j]),
        decreases rows.len() - i,
    {
        let v = &rows[i];
        let nbm = v.null_bit_map;
        assert(web_page_row_fits(rows@[i as int]));
        let ghost before = out;
        out.wp_sk.push(sk_opt(nbm, 0, v.wp_page_sk));
        out.wp_id.push(opt(nbm, 1, v.wp_page_id.clone()));
        out.wp_rec_start.push(julian_to_date32(v.wp_rec_start_date_id));
        out.wp_rec_end.push(julian_to_date32(v.wp_rec_end_date_id));
        out.wp_creation_date.push(sk_opt(nbm, 4, v.wp_creation_date_sk));
        out.wp_access_date.push(sk_opt(nbm, 5, v.wp_access_date_sk));
        out.wp_autogen.push(opt(nbm, 6, yn_string(v.wp_autogen_flag)));
        out.wp_customer.push(sk_opt(nbm, 7, v.wp_customer_sk));
        out.wp_url.push(opt(nbm, 8, v.wp_url.clone()));
        out.wp_type.push(opt(nbm, 9, v.wp_type.clone()));
        out.wp_char_count.push(opt(nbm, 10, v.wp_char_count));
        out.wp_link_count.push(opt(nbm, 11, v.wp_link_count));
        out.wp_image_count.push(opt(nbm, 12, v.wp_image_count));
        out.wp_max_ad_count.push(opt(nbm, 13, v.wp_max_ad_count));
        assert forall|j: int| 0 <= j < i + 1 implies web_page_row_columns(out, j, #[trigger] rows@[j]) by {
            if j < i {
                assert(web_page_row_columns(before, j, rows@[j]));
            }
        }
        i = i + 1;
    }
    out
}

/// The values of one `store` row that its columns are made of, with
/// the row's null bitmap.
#[derive(Clone, Debug)]
pub struct StoreValues {
    pub null_bit_map: i64,
    pub store_sk: i64,
    pub store_id: String,
    pub rec_start_date_id: i64,
    pub rec_end_date_id: i64,
    pub closed_date_id: i64,
    pub store_name: String,
    pub employees: i32,
    pub floor_space: i32,
    pub hours: String,
    pub store_manager: String,
    pub market_id: i32,
    pub geography_class: String,
    pub market_desc: String,
    pub market_manager: String,
    pub division_id: i64,
    pub division_name: String,
    pub company_id: i64,
    pub company_name: String,
    pub address: AddressValues,
    pub d_tax_percentage: Decimal,
}

/// The columns of a batch of `store` rows, in schema order.
#[derive(Clone, Debug)]
pub struct StoreColumns {
    pub s_sk: Vec<Option<i64>>,
    pub s_id: Vec<Option<String>>,
    pub s_rec_start: Vec<Option<i32>>,
    pub s_rec_end: Vec<Option<i32>>,
    pub s_closed_date: Vec<Option<i64>>,
    pub s_name: Vec<Option<String>>,
    pub s_employees: Vec<Option<i32>>,
    pub s_floor_space: Vec<Option<i32>>,
    pub s_hours: Vec<Option<String>>,
    pub s_manager: Vec<Option<String>>,
    pub s_market_id: Vec<Option<i32>>,
    pub s_geography_class: Vec<Option<String>>,
    pub s_market_desc: Vec<Option<String>>,
    pub s_market_manager: Vec<Option<String>>,
    pub s_division_id: Vec<Option<i64>>,
    pub s_division_name: Vec<Option<String>>,
    pub s_company_id: Vec<Option<i64>>,
    pub s_company_name: Vec<Option<String>>,
    pub address: AddressColumns,
    pub s_tax_pct: Vec<Option<i128>>,
}

/// Whether row `i` of `c` holds the column values of `v`.
pub open spec fn store_row_columns(c: StoreColumns, i: int, v: StoreValues) -> bool {
    &&& c.s_sk@[i] == nullable_key(v.null_bit_map, 0, v.store_sk)
    &&& text_view(c.s_id@[i]) == nullable(v.null_bit_map, 1, v.store_id@)
    &&& c.s_rec_start@[i] == julian_date32(v.rec_start_date_id)
    &&& c.s_rec_end@[i] == julian_date32(v.rec_end_date_id)
    &&& c.s_closed_date@[i] == nullable_key(v.null_bit_map, 4, v.closed_date_id)
    &&& text_view(c.s_name@[i]) == nullable(v.null_bit_map, 5, v.store_name@)
    &&& c.s_employees@[i] == nullable(v.null_bit_map, 6, v.employees)
    &&& c.s_floor_space@[i] == nullable(v.null_bit_map, 7, v.floor_space)
    &&& text_view(c.s_hours@[i]) == nullable(v.null_bit_map, 8, v.hours@)
    &&& text_view(c.s_manager@[i]) == nullable(v.null_bit_map, 9, v.store_manager@)
    &&& c.s_market_id@[i] == nullable(v.null_bit_map, 10, v.market_id)
    &&& text_view(c.s_geography_class@[i]) == nullable(v.null_bit_map, 11, v.geography_class@)
    &&& text_view(c.s_market_desc@[i]) == nullable(v.null_bit_map, 12, v.market_desc@)
    &&& text_view(c.s_market_manager@[i]) == nullable(v.null_bit_map, 13, v.market_manager@)
    &&& c.s_division_id@[i] == nullable(v.null_bit_map, 14, v.division_id)
    &&& text_view(c.s_division_name@[i]) == nullable(v.null_bit_map, 15, v.division_name@)
    &&& c.s_company_id@[i] == nullable(v.null_bit_map, 16, v.company_id)
    &&& text_view(c.s_company_name@[i]) == nullable(v.null_bit_map, 17, v.company_name@)
    &&& address_row(c.address, i, v.address, v.null_bit_map, 18)
    &&& c.s_tax_pct@[i] == nullable(v.null_bit_map, 28, v.d_tax_percentage.spec_number() as i128)
}

/// Each column of a `store` row reads its own field of the row: NULL
/// where the row's null bit for the column is set (a key also where it is
/// negative), otherwise that field's value, converted as the column's type
/// asks; no column takes another field's value.
pub proof fn lemma_store_columns_read_their_fields(c: StoreColumns, i: int, v: StoreValues)
    requires
        store_row_columns(c, i, v),
    ensures
        null_bit_set(v.null_bit_map, 0) || v.store_sk < 0 ==> c.s_sk@[i] is None,
        !null_bit_set(v.null_bit_map, 0) && v.store_sk >= 0 ==> c.s_sk@[i] == Some(v.store_sk),
        null_bit_set(v.null_bit_map, 1) ==> c.s_id@[i] is None,
        !null_bit_set(v.null_bit_map, 1) ==> (c.s_id@[i] matches Some(x) && x@ == v.store_id@),
        v.rec_start_date_id < 0 ==> c.s_rec_start@[i] is None,
        v.rec_start_date_id >= 0 ==> c.s_rec_start@[i] == Some(((v.rec_start_date_id as i32) - UNIX_EPOCH_JULIAN) as i32),
        v.rec_end_date_id < 0 ==> c.s_rec_end@[i] is None,
        v.rec_end_date_id >= 0 ==> c.s_rec_end@[i] == Some(((v.rec_end_date_id as i32) - UNIX_EPOCH_JULIAN) as i32),
        null_bit_set(v.null_bit_map, 4) || v.closed_date_id < 0 ==> c.s_closed_date@[i] is None,
        !null_bit_set(v.null_bit_map, 4) && v.closed_date_id >= 0 ==> c.s_closed_date@[i] == Some(v.closed_date_id),
        null_bit_set(v.null_bit_map, 5) ==> c.s_name@[i] is None,
        !null_bit_set(v.null_bit_map, 5) ==> (c.s_name@[i] matches Some(x) && x@ == v.store_name@),
        null_bit_set(v.null_bit_map, 6) ==> c.s_employees@[i] is None,
        !null_bit_set(v.null_bit_map, 6) ==> c.s_employees@[i] == Some(v.employees),
        null_bit_set(v.null_bit_map, 7) ==> c.s_floor_space@[i] is None,
        !null_bit_set(v.null_bit_map, 7) ==> c.s_floor_space@[i] == Some(v.floor_space),
        null_bit_set(v.null_bit_map, 8) ==> c.s_hours@[i] is None,
        !null_bit_set(v.null_bit_map, 8) ==> (c.s_hours@[i] matches Some(x) && x@ == v.hours@),
        null_bit_set(v.null_bit_map, 9) ==> c.s_manager@[i] is None,
        !null_bit_set(v.null_bit_map, 9) ==> (c.s_manager@[i] matches Some(x) && x@ == v.store_manager@),
        null_bit_set(v.null_bit_map, 10) ==> c.s_market_id@[i] is None,
        !null_bit_set(v.null_bit_map, 10) ==> c.s_market_id@[i] == Some(v.market_id),
        null_bit_set(v.null_bit_map, 11) ==> c.s_geography_class@[i] is None,
        !null_bit_set(v.null_bit_map, 11) ==> (c.s_geography_class@[i] matches Some(x) && x@ == v.geography_class@),
        null_bit_set(v.null_bit_map, 12) ==> c.s_market_desc@[i] is None,
        !null_bit_set(v.null_bit_map, 12) ==> (c.s_market_desc@[i] matches Some(x) && x@ == v.market_desc@),
        null_bit_set(v.null_bit_map, 13) ==> c.s_market_manager@[i] is None,
        !null_bit_set(v.null_bit_map, 13) ==> (c.s_market_manager@[i] matches Some(x) && x@ == v.market_manager@),
        null_bit_set(v.null_bit_map, 14) ==> c.s_division_id@[i] is None,
        !null_bit_set(v.null_bit_map, 14) ==> c.s_division_id@[i] == Some(v.division_id),
        null_bit_set(v.null_bit_map, 15) ==> c.s_division_name@[i] is None,
        !null_bit_set(v.null_bit_map, 15) ==> (c.s_division_name@[i] matches Some(x) && x@ == v.division_name@),
        null_bit_set(v.null_bit_map, 16) ==> c.s_company_id@[i] is None,
        !null_bit_set(v.null_bit_map, 16) ==> c.s_company_id@[i] == Some(v.company_id),
        null_bit_set(v.null_bit_map, 17) ==> c.s_company_name@[i] is None,
        !null_bit_set(v.null_bit_map, 17) ==> (c.s_company_name@[i] matches Some(x) && x@ == v.company_name@),
        address_row(c.address, i, v.address, v.null_bit_map, 18),
        null_bit_set(v.null_bit_map, 28) ==> c.s_tax_pct@[i] is None,
        !null_bit_set(v.null_bit_map, 28) ==> c.s_tax_pct@[i] == Some(v.d_tax_percentage.spec_number() as i128),
{
}

/// Whether every column of `c` has `n` values.
pub open spec fn store_column_lengths(c: StoreColumns, n: int) -> bool {
    &&& c.s_sk@.len() == n
    &&& c.s_id@.len() == n
    &&& c.s_rec_start@.len() == n
    &&& c.s_rec_end@.len() == n
    &&& c.s_closed_date@.len() == n
    &&& c.s_name@.len() == n
    &&& c.s_employees@.len() == n
    &&& c.s_floor_space@.len() == n
    &&& c.s_hours@.len() == n
    &&& c.s_manager@.len() == n
    &&& c.s_market_id@.len() == n
    &&& c.s_geography_class@.len() == n
    &&& c.s_market_desc@.len() == n
    &&& c.s_market_manager@.len() == n
    &&& c.s_division_id@.len() == n
    &&& c.s_division_name@.len() == n
    &&& c.s_company_id@.len() == n
    &&& c.s_company_name@.len() == n
    &&& address_lengths(c.address, n)
    &&& c.s_tax_pct@.len() == n
}

/// Whether the dates of `v` convert without overflow.
pub open spec fn store_row_fits(v: StoreValues) -> bool {
    &&& v.rec_start_date_id >= 0 ==> (v.rec_start_date_id as i32) - UNIX_EPOCH_JULIAN >= i32::MIN
    &&& v.rec_end_date_id >= 0 ==> (v.rec_end_date_id as i32) - UNIX_EPOCH_JULIAN >= i32::MIN
}

/// The columns of a batch of `store` rows: each value NULL where the
/// row's null bitmap marks its column (and a key also where it is negative),
/// decimals as their unscaled number, flags as `Y`/`N`.
#[verifier::rlimit(40)]
pub fn store_columns(rows: &Vec<StoreValues>) -> (r: StoreColumns)
    requires
        forall|i: int| 0 <= i < rows.len() ==> store_row_fits(#[trigger] rows@[i]),
    ensures
        store_column_lengths(r, rows.len() as int),
        forall|i: int| 0 <= i < rows.len() ==> store_row_columns(r, i, #[trigger] rows@[i]),
{
    let mut out = StoreColumns {
        s_sk: Vec::with_capacity(rows.len()),
        s_id: Vec::with_capacity(rows.len()),
        s_rec_start: Vec::with_capacity(rows.len()),
        s_rec_end: Vec::with_capacity(rows.len()),
        s_closed_date: Vec::with_capacity(rows.len()),
        s_name: Vec::with_capacity(rows.len()),
        s_employees: Vec::with_capacity(rows.len()),
        s_floor_space: Vec::with_capacity(rows.len()),
        s_hours: Vec::with_capacity(rows.len()),
        s_manager: Vec::with_capacity(rows.len()),
        s_market_id: Vec::with_capacity(rows.len()),
        s_geography_class: Vec::with_capacity(rows.len()),
        s_market_desc: Vec::with_capacity(rows.len()),
        s_market_manager: Vec::with_capacity(rows.len()),
        s_division_id: Vec::with_capacity(rows.len()),
        s_division_name: Vec::with_capacity(rows.len()),
        s_company_id: Vec::with_capacity(rows.len()),
        s_company_name: Vec::with_capacity(rows.len()),
        address: address_columns_with_capacity(rows.len()),
        s_tax_pct: Vec::with_capacity(rows.len()),
    };
    let mut i: usize = 0;
    while i < rows.len()
        invariant
            i <= rows.len(),
            store_column_lengths(out, i as int),
            forall|j: int| 0 <= j < i ==> store_row_columns(out, j, #[trigger] rows@[j]),
            forall|j: int| 0 <= j < rows.len() ==> store_row_fits(#[trigger] rows@[j]),
        decreases rows.len() - i,
    {
        let v = &rows[i];
        let nbm = v.null_bit_map;
        assert(store_row_fits(rows@[i as int]));
        let ghost before = out;
        out.s_sk.push(sk_opt(nbm, 0, v.store_sk));
        out.s_id.push(opt(nbm, 1, v.store_id.clone()));
        out.s_rec_start.push(julian_to_date32(v.rec_start_date_id));
        out.s_rec_end.push(julian_to_date32(v.rec_end_date_id));
        out.s_closed_date.push(sk_opt(nbm, 4, v.closed_date_id));
        out.s_name.push(opt(nbm, 5, v.store_name.clone()));
        out.s_employees.push(opt(nbm, 6, v.employees));
        out.s_floor_space.push(opt(nbm, 7, v.floor_space));
        out.s_hours.push(opt(nbm, 8, v.hours.clone()));
        out.s_manager.push(opt(nbm, 9, v.store_manager.clone()));
        out.s_market_id.push(opt(nbm, 10, v.market_id));
        out.s_geography_class.push(opt(nbm, 11, v.geography_class.clone()));
        out.s_market_desc.push(opt(nbm, 12, v.market_desc.clone()));
        out.s_market_manager.push(opt(nbm, 13, v.market_manager.clone()));
        out.s_division_id.push(opt(nbm, 14, v.division_id));
        out.s_division_name.push(opt(nbm, 15, v.division_name.clone()));
        out.s_company_id.push(opt(nbm, 16, v.company_id));
        out.s_company_name.push(opt(nbm, 17, v.company_name.clone()));
        push_address(&mut out.address, &v.address, nbm, 18);
        out.s_tax_pct.push(opt(nbm, 28, decimal_to_i128(v.d_tax_percentage)));
        assert forall|j: int| 0 <= j < i + 1 implies store_row_columns(out, j, #[trigger] rows@[j]) by {
            if j < i {
                assert(store_row_columns(before, j, rows@[j]));
            }
        }
        i = i + 1;
    }
    out
}

/// The values of one `customer_address` row that its columns are made of, with
/// the row's null bitmap.
#[derive(Clone, Debug)]
pub struct CustomerAddressValues {
    pub null_bit_map: i64,
    pub ca_addr_sk: i64,
    pub ca_addr_id: String,
    pub address: AddressValues,
    pub ca_location_type: String,
}

/// The columns of a batch of `customer_address` rows, in schema order.
#[derive(Clone, Debug)]
pub struct CustomerAddressColumns {
    pub ca_addr_sk: Vec<Option<i64>>,
    pub ca_addr_id: Vec<Option<String>>,
    pub address: AddressColumns,
    pub location_type: Vec<Option<String>>,
}

/// Whether row `i` of `c` holds the column values of `v`.
pub open spec fn customer_address_row_columns(c: CustomerAddressColumns, i: int, v: CustomerAddressValues) -> bool {
    &&& c.ca_addr_sk@[i] == nullable_key(v.null_bit_map, 0, v.ca_addr_sk)
    &&& text_view(c.ca_addr_id@[i]) == nullable(v.null_bit_map, 1, v.ca_addr_id@)
    &&& address_row(c.address, i, v.address, v.null_bit_map, 2)
    &&& text_view(c.location_type@[i]) == nullable(v.null_bit_map, 12, v.ca_location_type@)
}

/// Each column of a `customer_address` row reads its own field of the row: NULL
/// where the row's null bit for the column is set (a key also where it is
/// negative), otherwise that field's value, converted as the column's type
/// asks; no column takes another field's value.
pub proof fn lemma_customer_address_columns_read_their_fields(c: CustomerAddressColumns, i: int, v: CustomerAddressValues)
    requires
        customer_address_row_columns(c, i, v),
    ensures
        null_bit_set(v.null_bit_map, 0) || v.ca_addr_sk < 0 ==> c.ca_addr_sk@[i] is None,
        !null_bit_set(v.null_bit_map, 0) && v.ca_addr_sk >= 0 ==> c.ca_addr_sk@[i] == Some(v.ca_addr_sk),
        null_bit_set(v.null_bit_map, 1) ==> c.ca_addr_id@[i] is None,
        !null_bit_set(v.null_bit_map, 1) ==> (c.ca_addr_id@[i] matches Some(x) && x@ == v.ca_addr_id@),
        address_row(c.address, i, v.address, v.null_bit_map, 2),
        null_bit_set(v.null_bit_map, 12) ==> c.location_type@[i] is None,
        !null_bit_set(v.null_bit_map, 12) ==> (c.location_type@[i] matches Some(x) && x@ == v.ca_location_type@),
{
}

/// Whether every column of `c` has `n` values.
pub open spec fn customer_address_column_lengths(c: CustomerAddressColumns, n: int) -> bool {
    &&& c.ca_addr_sk@.len() == n
    &&& c.ca_addr_id@.len() == n
    &&& address_lengths(c.address, n)
    &&& c.location_type@.len() == n
}

/// The columns of a batch of `customer_address` rows: each value NULL where the
/// row's null bitmap marks its column (and a key also where it is negative),
/// decimals as their unscaled number, flags as `Y`/`N`.
#[verifier::rlimit(40)]
pub fn customer_address_columns(rows: &Vec<CustomerAddressValues>) -> (r: CustomerAddressColumns)
    ensures
        customer_address_column_lengths(r, rows.len() as int),
        forall|i: int| 0 <= i < rows.len() ==> customer_address_row_columns(r, i, #[trigger] rows@[i]),
{
    let mut out = CustomerAddressColumns {
        ca_addr_sk: Vec::with_capacity(rows.len()),
        ca_addr_id: Vec::with_capacity(rows.len()),
        address: address_columns_with_capacity(rows.len()),
        location_type: Vec::with_capacity(rows.len()),
    };
    let mut i: usize = 0;
    while i < rows.len()
        invariant
            i <= rows.len(),
            customer_address_column_lengths(out, i as int),
            forall|j: int| 0 <= j < i ==> customer_address_row_columns(out, j, #[trigger] rows@[j]),
        decreases rows.len() - i,
    {
        let v = &rows[i];
        let nbm = v.null_bit_map;
        let ghost before = out;
        out.ca_addr_sk.push(sk_opt(nbm, 0, v.ca_addr_sk));
        out.ca_addr_id.push(opt(nbm, 1, v.ca_addr_id.clone()));
        push_address(&mut out.address, &v.address, nbm, 2);
        out.location_type.push(opt(nbm, 12, v.ca_location_type.clone()));
        assert forall|j: int| 0 <= j < i + 1 implies customer_address_row_columns(out, j, #[trigger] rows@[j]) by {
            if j < i {
                assert(customer_address_row_columns(before, j, rows@[j]));
            }
        }
        i = i + 1;
    }
    out
}

} // verus!
