//! CSV output for TPC-DS tables.
//!
//! Each table has a `<Table>Csv` wrapper that formats one row as one CSV
//! line: the row's field texts joined by the delimiter, with no trailing
//! separator. The header line lists the column names joined by the
//! delimiter; a column name that contains the delimiter is double-quoted.
//!
//! [`csv_header`] returns the header line for a [`Table`].
use crate::rows::{field_views, IncomeBandRow, ReasonRow};
use crate::text::{push_all, str_chars, string_from_chars};
use crate::tpcds_table::{table_name, Table};
use vstd::prelude::*;

verus! {

/// The parts of `s` between commas, as `str::split(',')` yields them (an
/// empty text yields one empty part).
pub open spec fn split_commas(s: Seq<char>) -> Seq<Seq<char>>
    decreases s.len(),
{
    if s.len() == 0 {
        seq![seq![]]
    } else {
        let p = split_commas(s.drop_last());
        if s.last() == ',' {
            p.push(seq![])
        } else {
            p.update(p.len() - 1, p.last().push(s.last()))
        }
    }
}

/// The parts joined with `d` between consecutive parts.
pub open spec fn join_with(parts: Seq<Seq<char>>, d: char) -> Seq<char>
    decreases parts.len(),
{
    if parts.len() == 0 {
        seq![]
    } else if parts.len() == 1 {
        parts[0]
    } else {
        join_with(parts.drop_last(), d).push(d) + parts.last()
    }
}

/// A column name as written in a header: double-quoted when it contains `d`.
pub open spec fn quote_if_contains(name: Seq<char>, d: char) -> Seq<char> {
    if name.contains(d) {
        seq!['"'] + name + seq!['"']
    } else {
        name
    }
}

/// Every name, quoted where it contains `d`.
pub open spec fn quote_names(names: Seq<Seq<char>>, d: char) -> Seq<Seq<char>> {
    Seq::new(names.len(), |i: int| quote_if_contains(names[i], d))
}

/// The header line for the comma-separated column names `header` written
/// with delimiter `d`.
pub open spec fn header_line(header: Seq<char>, d: char) -> Seq<char> {
    join_with(quote_names(split_commas(header), d), d)
}

/// `header` with every comma replaced by `d`.
pub open spec fn replace_commas(header: Seq<char>, d: char) -> Seq<char> {
    Seq::new(header.len(), |i: int| if header[i] == ',' { d } else { header[i] })
}

/// Splitting yields at least one part, and no part holds a comma.
pub proof fn lemma_split_commas_parts(s: Seq<char>)
    ensures
        split_commas(s).len() >= 1,
        forall|i: int|
            0 <= i < split_commas(s).len() ==> !(#[trigger] split_commas(s)[i]).contains(','),
        forall|i: int, c: char|
            #![trigger split_commas(s)[i].contains(c)]
            0 <= i < split_commas(s).len() && split_commas(s)[i].contains(c) ==> s.contains(c),
    decreases s.len(),
{
    if s.len() > 0 {
        let t = s.drop_last();
        lemma_split_commas_parts(t);
        let p = split_commas(t);
        let q = split_commas(s);
        assert forall|i: int| 0 <= i < q.len() implies !(#[trigger] q[i]).contains(',') by {
            if s.last() != ',' && i == p.len() - 1 {
                if q[i].contains(',') {
                    let j = choose|j: int| 0 <= j < q[i].len() && q[i][j] == ',';
                    if j < p.last().len() {
                        assert(p.last()[j] == ',');
                    }
                }
            } else if s.last() == ',' && i == p.len() {
                assert(q[i] =~= Seq::<char>::empty());
            }
        }
        assert forall|i: int, c: char|
            #![trigger q[i].contains(c)]
            0 <= i < q.len() && q[i].contains(c) implies s.contains(c) by {
            let j = choose|j: int| 0 <= j < q[i].len() && q[i][j] == c;
            if s.last() != ',' && i == p.len() - 1 {
                if j < p.last().len() {
                    assert(p.last()[j] == c);
                    assert(p[i].contains(c));
                    let k = choose|k: int| 0 <= k < t.len() && t[k] == c;
                    assert(s[k] == c);
                } else {
                    assert(s[s.len() - 1] == c);
                }
            } else if s.last() == ',' && i == p.len() {
                assert(q[i] =~= Seq::<char>::empty());
            } else {
                assert(q[i] == p[i]);
                let k = choose|k: int| 0 <= k < t.len() && t[k] == c;
                assert(s[k] == c);
            }
        }
    }
}

/// Joining a list whose last part is extended by one character extends the
/// joined text by that character.
proof fn lemma_join_with_extend_last(parts: Seq<Seq<char>>, d: char, c: char)
    requires
        parts.len() >= 1,
    ensures
        join_with(parts.update(parts.len() - 1, parts.last().push(c)), d) == join_with(parts, d).push(
            c,
        ),
{
    let q = parts.update(parts.len() - 1, parts.last().push(c));
    if parts.len() == 1 {
    } else {
        assert(q.drop_last() =~= parts.drop_last());
        assert(join_with(q, d) =~= join_with(parts, d).push(c));
    }
}

/// Joining a list with one more part appends `d` and the part.
proof fn lemma_join_with_push(parts: Seq<Seq<char>>, d: char, x: Seq<char>)
    requires
        parts.len() >= 1,
    ensures
        join_with(parts.push(x), d) == join_with(parts, d).push(d) + x,
{
    assert(parts.push(x).drop_last() =~= parts);
}

/// When no column name contains the delimiter, the header line is the
/// comma-separated header with every comma replaced by the delimiter; in
/// particular, with `,` as delimiter the header is written unchanged.
pub proof fn lemma_header_line_replaces_commas(header: Seq<char>, d: char)
    requires
        d == ',' || !header.contains(d),
    ensures
        header_line(header, d) == replace_commas(header, d),
    decreases header.len(),
{
    lemma_split_commas_parts(header);
    let names = split_commas(header);
    assert(quote_names(names, d) =~= names) by {
        assert forall|i: int| 0 <= i < names.len() implies #[trigger] quote_names(names, d)[i]
            == names[i] by {
            if names[i].contains(d) {
                assert(header.contains(d));
            }
        }
    }
    if header.len() == 0 {
        assert(replace_commas(header, d) =~= Seq::<char>::empty());
    } else {
        let t = header.drop_last();
        assert(d == ',' || !t.contains(d)) by {
            if d != ',' && t.contains(d) {
                let k = choose|k: int| 0 <= k < t.len() && t[k] == d;
                assert(header[k] == d);
            }
        }
        lemma_header_line_replaces_commas(t, d);
        lemma_split_commas_parts(t);
        let p = split_commas(t);
        assert(quote_names(p, d) =~= p) by {
            assert forall|i: int| 0 <= i < p.len() implies #[trigger] quote_names(p, d)[i]
                == p[i] by {
                if p[i].contains(d) {
                    assert(t.contains(d));
                }
            }
        }
        if header.last() == ',' {
            lemma_join_with_push(p, d, seq![]);
            assert(replace_commas(header, d) =~= replace_commas(t, d).push(d));
            assert(join_with(p.push(seq![]), d) =~= join_with(p, d).push(d));
        } else {
            lemma_join_with_extend_last(p, d, header.last());
            assert(replace_commas(header, d) =~= replace_commas(t, d).push(header.last()));
        }
    }
}

/// The parts of `s` between occurrences of `d`, as `str::split(d)` yields
/// them (an empty text yields one empty part).
pub open spec fn split_on(s: Seq<char>, d: char) -> Seq<Seq<char>>
    decreases s.len(),
{
    if s.len() == 0 {
        seq![seq![]]
    } else {
        let p = split_on(s.drop_last(), d);
        if s.last() == d {
            p.push(seq![])
        } else {
            p.update(p.len() - 1, p.last().push(s.last()))
        }
    }
}

/// Replacing the commas of a header free of `d` by `d` and splitting on `d`
/// gives back the comma-separated parts.
proof fn lemma_split_replaced(header: Seq<char>, d: char)
    requires
        d == ',' || !header.contains(d),
    ensures
        split_on(replace_commas(header, d), d) == split_commas(header),
    decreases header.len(),
{
    if header.len() > 0 {
        let t = header.drop_last();
        assert(d == ',' || !t.contains(d)) by {
            if d != ',' && t.contains(d) {
                let k = choose|k: int| 0 <= k < t.len() && t[k] == d;
                assert(header[k] == d);
            }
        }
        lemma_split_replaced(t, d);
        let r = replace_commas(header, d);
        assert(r.drop_last() =~= replace_commas(t, d));
        if header.last() != ',' {
            assert(header[header.len() - 1] == header.last());
            assert(r.last() != d);
        }
    } else {
        assert(replace_commas(header, d) =~= Seq::<char>::empty());
    }
}

/// When no column name contains the delimiter, splitting the header line on
/// the delimiter gives back the comma-separated column names.
pub proof fn lemma_header_line_splits_back(header: Seq<char>, d: char)
    requires
        d == ',' || !header.contains(d),
    ensures
        split_on(header_line(header, d), d) == split_commas(header),
{
    lemma_header_line_replaces_commas(header, d);
    lemma_split_replaced(header, d);
}

/// Whether `c` occurs in `v`.
fn contains_char(v: &Vec<char>, c: char) -> (r: bool)
    ensures
        r == v@.contains(c),
{
    let mut i: usize = 0;
    while i < v.len()
        invariant
            i <= v.len(),
            forall|j: int| 0 <= j < i ==> v@[j] != c,
        decreases v.len() - i,
    {
        if v[i] == c {
            assert(v@[i as int] == c);
            return true;
        }
        i = i + 1;
    }
    false
}

/// Appends `name` to `out`, double-quoted when it contains `d`.
fn push_quoted_name(out: &mut Vec<char>, name: &Vec<char>, d: char)
    ensures
        final(out)@ == old(out)@ + quote_if_contains(name@, d),
{
    if contains_char(name, d) {
        out.push('"');
        push_all(out, name);
        out.push('"');
        assert(final(out)@ =~= old(out)@ + quote_if_contains(name@, d));
    } else {
        push_all(out, name);
    }
}

/// Joins the comma-separated column names of `header` with `delimiter`,
/// double-quoting any name that contains the delimiter.
pub fn join_header(header: &str, delimiter: char) -> (r: String)
    ensures
        r@ == header_line(header@, delimiter),
{
    let chars = str_chars(header);
    let mut out: Vec<char> = Vec::new();
    let mut name: Vec<char> = Vec::new();
    let mut done: usize = 0;
    let mut i: usize = 0;
    assert(chars@.subrange(0, 0) =~= Seq::<char>::empty());
    while i < chars.len()
        invariant
            chars@ == header@,
            i <= chars.len(),
            done <= i,
            split_commas(chars@.subrange(0, i as int)).len() == done + 1,
            split_commas(chars@.subrange(0, i as int)).last() == name@,
            out@ == join_with(
                quote_names(split_commas(chars@.subrange(0, i as int)).drop_last(), delimiter),
                delimiter,
            ),
        decreases chars.len() - i,
    {
        let ghost pre = chars@.subrange(0, i as int);
        let ghost p = split_commas(pre);
        let c = chars[i];
        assert(chars@.subrange(0, i + 1).drop_last() =~= pre);
        assert(chars@.subrange(0, i + 1).last() == c);
        if c == ',' {
            if done > 0 {
                out.push(delimiter);
            }
            push_quoted_name(&mut out, &name, delimiter);
            proof {
                let qp = quote_names(p.drop_last(), delimiter);
                let q2 = quote_names(p, delimiter);
                assert(q2 =~= qp.push(quote_if_contains(name@, delimiter)));
                if done > 0 {
                    lemma_join_with_push(qp, delimiter, quote_if_contains(name@, delimiter));
                } else {
                    assert(qp.len() == 0);
                }
                assert(split_commas(chars@.subrange(0, i + 1)).drop_last() =~= p);
            }
            name = Vec::new();
            done = done + 1;
        } else {
            name.push(c);
            proof {
                let q = split_commas(chars@.subrange(0, i + 1));
                assert(q.drop_last() =~= p.drop_last());
            }
        }
        i = i + 1;
    }
    assert(chars@.subrange(0, chars.len() as int) =~= header@);
    let ghost p = split_commas(header@);
    if done > 0 {
        out.push(delimiter);
    }
    push_quoted_name(&mut out, &name, delimiter);
    proof {
        let qp = quote_names(p.drop_last(), delimiter);
        let q2 = quote_names(p, delimiter);
        assert(q2 =~= qp.push(quote_if_contains(name@, delimiter)));
        assert(p.drop_last().push(p.last()) =~= p);
        if done > 0 {
            lemma_join_with_push(qp, delimiter, quote_if_contains(name@, delimiter));
        } else {
            assert(qp.len() == 0);
            assert(q2 =~= seq![quote_if_contains(name@, delimiter)]);
        }
    }
    string_from_chars(&out)
}

/// Joins `fields` with `delimiter` between consecutive fields.
pub fn join_chars(fields: &Vec<Vec<char>>, delimiter: char) -> (r: Vec<char>)
    ensures
        r@ == join_with(field_views(fields@), delimiter),
{
    let ghost views = field_views(fields@);
    let mut out: Vec<char> = Vec::new();
    let mut i: usize = 0;
    while i < fields.len()
        invariant
            i <= fields.len(),
            views == field_views(fields@),
            out@ == join_with(views.subrange(0, i as int), delimiter),
        decreases fields.len() - i,
    {
        let ghost before = views.subrange(0, i as int);
        if i > 0 {
            out.push(delimiter);
        }
        push_all(&mut out, &fields[i]);
        proof {
            assert(views.subrange(0, i + 1) =~= before.push(views[i as int]));
            if i > 0 {
                lemma_join_with_push(before, delimiter, views[i as int]);
            } else {
                assert(views.subrange(0, i + 1) =~= seq![views[i as int]]);
            }
        }
        i = i + 1;
    }
    assert(views.subrange(0, fields.len() as int) =~= views);
    out
}

/// Joins `fields` with `delimiter` between consecutive fields.
pub fn join_fields(fields: &Vec<String>, delimiter: char) -> (r: String)
    ensures
        r@ == join_with(fields@.map_values(|f: String| f@), delimiter),
{
    let ghost views = fields@.map_values(|f: String| f@);
    let mut out: Vec<char> = Vec::new();
    let mut i: usize = 0;
    while i < fields.len()
        invariant
            i <= fields.len(),
            views == fields@.map_values(|f: String| f@),
            out@ == join_with(views.subrange(0, i as int), delimiter),
        decreases fields.len() - i,
    {
        let ghost before = views.subrange(0, i as int);
        if i > 0 {
            out.push(delimiter);
        }
        let part = str_chars(fields[i].as_str());
        push_all(&mut out, &part);
        proof {
            assert(views.subrange(0, i + 1) =~= before.push(views[i as int]));
            if i > 0 {
                lemma_join_with_push(before, delimiter, views[i as int]);
            } else {
                assert(views.subrange(0, i + 1) =~= seq![views[i as int]]);
            }
        }
        i = i + 1;
    }
    assert(views.subrange(0, fields.len() as int) =~= views);
    string_from_chars(&out)
}

/// The comma-separated column names of `header`, in order.
pub fn header_columns(header: &str) -> (r: Vec<String>)
    ensures
        r@.map_values(|c: String| c@) == split_commas(header@),
{
    let chars = str_chars(header);
    let mut out: Vec<String> = Vec::new();
    let mut name: Vec<char> = Vec::new();
    let mut i: usize = 0;
    assert(chars@.subrange(0, 0) =~= Seq::<char>::empty());
    assert(out@.map_values(|c: String| c@) =~= Seq::<Seq<char>>::empty());
    while i < chars.len()
        invariant
            chars@ == header@,
            i <= chars.len(),
            split_commas(chars@.subrange(0, i as int)).last() == name@,
            split_commas(chars@.subrange(0, i as int)).drop_last() == out@.map_values(
                |c: String| c@,
            ),
        decreases chars.len() - i,
    {
        let ghost pre = chars@.subrange(0, i as int);
        let ghost p = split_commas(pre);
        let c = chars[i];
        assert(chars@.subrange(0, i + 1).drop_last() =~= pre);
        assert(chars@.subrange(0, i + 1).last() == c);
        proof {
            lemma_split_commas_parts(pre);
        }
        if c == ',' {
            let ghost before = out@;
            out.push(string_from_chars(&name));
            assert(out@.map_values(|c: String| c@) =~= before.map_values(|c: String| c@).push(
                name@,
            ));
            assert(p.drop_last().push(p.last()) =~= p);
            name = Vec::new();
        } else {
            name.push(c);
            proof {
                let q = split_commas(chars@.subrange(0, i + 1));
                assert(q.drop_last() =~= p.drop_last());
            }
        }
        i = i + 1;
    }
    assert(chars@.subrange(0, chars.len() as int) =~= header@);
    proof {
        lemma_split_commas_parts(header@);
    }
    let ghost before = out@;
    out.push(string_from_chars(&name));
    assert(out@.map_values(|c: String| c@) =~= before.map_values(|c: String| c@).push(name@));
    assert(split_commas(header@).drop_last().push(split_commas(header@).last()) =~= split_commas(
        header@,
    ));
    out
}

/// The already formatted field texts of one generated row, in column order.
#[derive(Clone, Debug, PartialEq, Eq)]
pub struct CsvRecord {
    pub fields: Vec<String>,
}

impl CsvRecord {
    /// The field texts.
    pub open spec fn spec_fields(&self) -> Seq<Seq<char>> {
        self.fields@.map_values(|f: String| f@)
    }

    /// A record holding `fields`.
    pub fn new(fields: Vec<String>) -> (r: CsvRecord)
        ensures
            r.fields@ == fields@,
    {
        CsvRecord { fields }
    }
}

/// The row's CSV line: its fields joined by `delimiter`.
fn record_line(record: &CsvRecord, delimiter: char) -> (r: String)
    ensures
        r@ == join_with(record.spec_fields(), delimiter),
{
    join_fields(&record.fields, delimiter)
}

/// The comma-separated column names of `t`'s CSV header.
pub open spec fn table_header(t: Table) -> Seq<char> {
    match t {
        Table::CallCenter => "cc_call_center_sk,cc_call_center_id,cc_rec_start_date,cc_rec_end_date,cc_closed_date_sk,cc_open_date_sk,cc_name,cc_class,cc_employees,cc_sq_ft,cc_hours,cc_manager,cc_mkt_id,cc_mkt_class,cc_mkt_desc,cc_market_manager,cc_division,cc_division_name,cc_company,cc_company_name,cc_street_number,cc_street_name,cc_street_type,cc_suite_number,cc_city,cc_county,cc_state,cc_zip,cc_country,cc_gmt_offset,cc_tax_percentage"@,
        Table::CatalogPage => "cp_catalog_page_sk,cp_catalog_page_id,cp_start_date_sk,cp_end_date_sk,cp_department,cp_catalog_number,cp_catalog_page_number,cp_description,cp_type"@,
        Table::CatalogReturns => "cr_returned_date_sk,cr_returned_time_sk,cr_item_sk,cr_refunded_customer_sk,cr_refunded_cdemo_sk,cr_refunded_hdemo_sk,cr_refunded_addr_sk,cr_returning_customer_sk,cr_returning_cdemo_sk,cr_returning_hdemo_sk,cr_returning_addr_sk,cr_call_center_sk,cr_catalog_page_sk,cr_ship_mode_sk,cr_warehouse_sk,cr_reason_sk,cr_order_number,cr_return_quantity,cr_return_amount,cr_return_tax,cr_return_amt_inc_tax,cr_fee,cr_return_ship_cost,cr_refunded_cash,cr_reversed_charge,cr_store_credit,cr_net_loss"@,
        Table::CatalogSales => "cs_sold_date_sk,cs_sold_time_sk,cs_ship_date_sk,cs_bill_customer_sk,cs_bill_cdemo_sk,cs_bill_hdemo_sk,cs_bill_addr_sk,cs_ship_customer_sk,cs_ship_cdemo_sk,cs_ship_hdemo_sk,cs_ship_addr_sk,cs_call_center_sk,cs_catalog_page_sk,cs_ship_mode_sk,cs_warehouse_sk,cs_item_sk,cs_promo_sk,cs_order_number,cs_quantity,cs_wholesale_cost,cs_list_price,cs_sales_price,cs_ext_discount_amt,cs_ext_sales_price,cs_ext_wholesale_cost,cs_ext_list_price,cs_ext_tax,cs_coupon_amt,cs_ext_ship_cost,cs_net_paid,cs_net_paid_inc_tax,cs_net_paid_inc_ship,cs_net_paid_inc_ship_tax,cs_net_profit"@,
        Table::Customer => "c_customer_sk,c_customer_id,c_current_cdemo_sk,c_current_hdemo_sk,c_current_addr_sk,c_first_shipto_date_sk,c_first_sales_date_sk,c_salutation,c_first_name,c_last_name,c_preferred_cust_flag,c_birth_day,c_birth_month,c_birth_year,c_birth_country,c_login,c_email_address,c_last_review_date_sk"@,
        Table::CustomerAddress => "ca_address_sk,ca_address_id,ca_street_number,ca_street_name,ca_street_type,ca_suite_number,ca_city,ca_county,ca_state,ca_zip,ca_country,ca_gmt_offset,ca_location_type"@,
        Table::CustomerDemographics => "cd_demo_sk,cd_gender,cd_marital_status,cd_education_status,cd_purchase_estimate,cd_credit_rating,cd_dep_count,cd_dep_employed_count,cd_dep_college_count"@,
        Table::DateDim => "d_date_sk,d_date_id,d_date,d_month_seq,d_week_seq,d_quarter_seq,d_year,d_dow,d_moy,d_dom,d_qoy,d_fy_year,d_fy_quarter_seq,d_fy_week_seq,d_day_name,d_quarter_name,d_holiday,d_weekend,d_following_holiday,d_first_dom,d_last_dom,d_same_day_ly,d_same_day_lq,d_current_day,d_current_week,d_current_month,d_current_quarter,d_current_year"@,
        Table::DbgenVersion => "dv_version,dv_create_date,dv_create_time,dv_cmdline_args"@,
        Table::HouseholdDemographics => "hd_demo_sk,hd_income_band_sk,hd_buy_potential,hd_dep_count,hd_vehicle_count"@,
        Table::IncomeBand => "ib_income_band_sk,ib_lower_bound,ib_upper_bound"@,
        Table::Inventory => "inv_date_sk,inv_item_sk,inv_warehouse_sk,inv_quantity_on_hand"@,
        Table::Item => "i_item_sk,i_item_id,i_rec_start_date,i_rec_end_date,i_item_desc,i_current_price,i_wholesale_cost,i_brand_id,i_brand,i_class_id,i_class,i_category_id,i_category,i_manufact_id,i_manufact,i_size,i_formulation,i_color,i_units,i_container,i_manager_id,i_product_name"@,
        Table::Promotion => "p_promo_sk,p_promo_id,p_start_date_sk,p_end_date_sk,p_item_sk,p_cost,p_response_target,p_promo_name,p_channel_dmail,p_channel_email,p_channel_catalog,p_channel_tv,p_channel_radio,p_channel_press,p_channel_event,p_channel_demo,p_channel_details,p_purpose,p_discount_active"@,
        Table::Reason => "r_reason_sk,r_reason_id,r_reason_desc"@,
        Table::ShipMode => "sm_ship_mode_sk,sm_ship_mode_id,sm_type,sm_code,sm_carrier,sm_contract"@,
        Table::Store => "s_store_sk,s_store_id,s_rec_start_date,s_rec_end_date,s_closed_date_sk,s_store_name,s_number_employees,s_floor_space,s_hours,s_manager,s_market_id,s_geography_class,s_market_desc,s_market_manager,s_division_id,s_division_name,s_company_id,s_company_name,s_street_number,s_street_name,s_street_type,s_suite_number,s_city,s_county,s_state,s_zip,s_country,s_gmt_offset,s_tax_precentage"@,
        Table::StoreReturns => "sr_returned_date_sk,sr_return_time_sk,sr_item_sk,sr_customer_sk,sr_cdemo_sk,sr_hdemo_sk,sr_addr_sk,sr_store_sk,sr_reason_sk,sr_ticket_number,sr_return_quantity,sr_return_amt,sr_return_tax,sr_return_amt_inc_tax,sr_fee,sr_return_ship_cost,sr_refunded_cash,sr_reversed_charge,sr_store_credit,sr_net_loss"@,
        Table::StoreSales => "ss_sold_date_sk,ss_sold_time_sk,ss_item_sk,ss_customer_sk,ss_cdemo_sk,ss_hdemo_sk,ss_addr_sk,ss_store_sk,ss_promo_sk,ss_ticket_number,ss_quantity,ss_wholesale_cost,ss_list_price,ss_sales_price,ss_ext_discount_amt,ss_ext_sales_price,ss_ext_wholesale_cost,ss_ext_list_price,ss_ext_tax,ss_coupon_amt,ss_net_paid,ss_net_paid_inc_tax,ss_net_profit"@,
        Table::TimeDim => "t_time_sk,t_time_id,t_time,t_hour,t_minute,t_second,t_am_pm,t_shift,t_sub_shift,t_meal_time"@,
        Table::Warehouse => "w_warehouse_sk,w_warehouse_id,w_warehouse_name,w_warehouse_sq_ft,w_street_number,w_street_name,w_street_type,w_suite_number,w_city,w_county,w_state,w_zip,w_country,w_gmt_offset"@,
        Table::WebPage => "wp_web_page_sk,wp_web_page_id,wp_rec_start_date,wp_rec_end_date,wp_creation_date_sk,wp_access_date_sk,wp_autogen_flag,wp_customer_sk,wp_url,wp_type,wp_char_count,wp_link_count,wp_image_count,wp_max_ad_count"@,
        Table::WebReturns => "wr_returned_date_sk,wr_returned_time_sk,wr_item_sk,wr_refunded_customer_sk,wr_refunded_cdemo_sk,wr_refunded_hdemo_sk,wr_refunded_addr_sk,wr_returning_customer_sk,wr_returning_cdemo_sk,wr_returning_hdemo_sk,wr_returning_addr_sk,wr_web_page_sk,wr_reason_sk,wr_order_number,wr_return_quantity,wr_return_amt,wr_return_tax,wr_return_amt_inc_tax,wr_fee,wr_return_ship_cost,wr_refunded_cash,wr_reversed_charge,wr_account_credit,wr_net_loss"@,
        Table::WebSales => "ws_sold_date_sk,ws_sold_time_sk,ws_ship_date_sk,ws_item_sk,ws_bill_customer_sk,ws_bill_cdemo_sk,ws_bill_hdemo_sk,ws_bill_addr_sk,ws_ship_customer_sk,ws_ship_cdemo_sk,ws_ship_hdemo_sk,ws_ship_addr_sk,ws_web_page_sk,ws_web_site_sk,ws_ship_mode_sk,ws_warehouse_sk,ws_promo_sk,ws_order_number,ws_quantity,ws_wholesale_cost,ws_list_price,ws_sales_price,ws_ext_discount_amt,ws_ext_sales_price,ws_ext_wholesale_cost,ws_ext_list_price,ws_ext_tax,ws_coupon_amt,ws_ext_ship_cost,ws_net_paid,ws_net_paid_inc_tax,ws_net_paid_inc_ship,ws_net_paid_inc_ship_tax,ws_net_profit"@,
        Table::WebSite => "web_site_sk,web_site_id,web_rec_start_date,web_rec_end_date,web_name,web_open_date_sk,web_close_date_sk,web_class,web_manager,web_mkt_id,web_mkt_class,web_mkt_desc,web_market_manager,web_company_id,web_company_name,web_street_number,web_street_name,web_street_type,web_suite_number,web_city,web_county,web_state,web_zip,web_country,web_gmt_offset,web_tax_percentage"@,
    }
}

/// The comma-separated column names of `table`'s CSV header.
pub fn header_for(table: Table) -> (r: &'static str)
    ensures
        r@ == table_header(table),
{
    match table {
        Table::CallCenter => CallCenterCsv::header(),
        Table::CatalogPage => CatalogPageCsv::header(),
        Table::CatalogReturns => CatalogReturnsCsv::header(),
        Table::CatalogSales => CatalogSalesCsv::header(),
        Table::Customer => CustomerCsv::header(),
        Table::CustomerAddress => CustomerAddressCsv::header(),
        Table::CustomerDemographics => CustomerDemographicsCsv::header(),
        Table::DateDim => DateDimCsv::header(),
        Table::DbgenVersion => DbgenVersionCsv::header(),
        Table::HouseholdDemographics => HouseholdDemographicsCsv::header(),
        Table::IncomeBand => IncomeBandCsv::header(),
        Table::Inventory => InventoryCsv::header(),
        Table::Item => ItemCsv::header(),
        Table::Promotion => PromotionCsv::header(),
        Table::Reason => ReasonCsv::header(),
        Table::ShipMode => ShipModeCsv::header(),
        Table::Store => StoreCsv::header(),
        Table::StoreReturns => StoreReturnsCsv::header(),
        Table::StoreSales => StoreSalesCsv::header(),
        Table::TimeDim => TimeDimCsv::header(),
        Table::Warehouse => WarehouseCsv::header(),
        Table::WebPage => WebPageCsv::header(),
        Table::WebReturns => WebReturnsCsv::header(),
        Table::WebSales => WebSalesCsv::header(),
        Table::WebSite => WebSiteCsv::header(),
    }
}

/// The CSV header line for `table` with the given delimiter. Every table of
/// the catalogue has CSV output, so the result is always `Some`.
pub fn csv_header(table: Table, delimiter: char) -> (r: Option<String>)
    ensures
        r matches Some(h) && h@ == header_line(table_header(table), delimiter),
{
    Some(join_header(header_for(table), delimiter))
}

/// Writes rows of the `call_center` table in CSV format.
pub struct CallCenterCsv<'a> {
    inner: &'a CsvRecord,
    delimiter: char,
}

impl<'a> CallCenterCsv<'a> {
    /// The row being formatted.
    pub closed spec fn spec_row(&self) -> CsvRecord {
        *self.inner
    }

    /// The delimiter placed between fields.
    pub closed spec fn spec_delimiter(&self) -> char {
        self.delimiter
    }

    /// A wrapper that formats `inner` with the default `,` delimiter.
    pub fn new(inner: &'a CsvRecord) -> (r: Self)
        ensures
            r.spec_row() == *inner,
            r.spec_delimiter() == ',',
    {
        Self { inner, delimiter: ',' }
    }

    /// A wrapper that formats `inner` with a custom delimiter.
    pub fn with_delimiter(inner: &'a CsvRecord, delimiter: char) -> (r: Self)
        ensures
            r.spec_row() == *inner,
            r.spec_delimiter() == delimiter,
    {
        Self { inner, delimiter }
    }

    /// The CSV header for the call_center table.
    pub fn header() -> (r: &'static str)
        ensures
            r@ == table_header(Table::CallCenter),
    {
        "cc_call_center_sk,cc_call_center_id,cc_rec_start_date,cc_rec_end_date,cc_closed_date_sk,cc_open_date_sk,cc_name,cc_class,cc_employees,cc_sq_ft,cc_hours,cc_manager,cc_mkt_id,cc_mkt_class,cc_mkt_desc,cc_market_manager,cc_division,cc_division_name,cc_company,cc_company_name,cc_street_number,cc_street_name,cc_street_type,cc_suite_number,cc_city,cc_county,cc_state,cc_zip,cc_country,cc_gmt_offset,cc_tax_percentage"
    }

    /// The CSV header with a custom delimiter.
    pub fn header_with_delimiter(delimiter: char) -> (r: String)
        ensures
            r@ == header_line(table_header(Table::CallCenter), delimiter),
    {
        join_header(Self::header(), delimiter)
    }

    /// The row as one CSV line (no newline): its fields joined by the delimiter.
    pub fn to_string(&self) -> (r: String)
        ensures
            r@ == join_with(self.spec_row().spec_fields(), self.spec_delimiter()),
    {
        record_line(self.inner, self.delimiter)
    }
}

/// Writes rows of the `catalog_page` table in CSV format.
pub struct CatalogPageCsv<'a> {
    inner: &'a CsvRecord,
    delimiter: char,
}

impl<'a> CatalogPageCsv<'a> {
    /// The row being formatted.
    pub closed spec fn spec_row(&self) -> CsvRecord {
        *self.inner
    }

    /// The delimiter placed between fields.
    pub closed spec fn spec_delimiter(&self) -> char {
        self.delimiter
    }

    /// A wrapper that formats `inner` with the default `,` delimiter.
    pub fn new(inner: &'a CsvRecord) -> (r: Self)
        ensures
            r.spec_row() == *inner,
            r.spec_delimiter() == ',',
    {
        Self { inner, delimiter: ',' }
    }

    /// A wrapper that formats `inner` with a custom delimiter.
    pub fn with_delimiter(inner: &'a CsvRecord, delimiter: char) -> (r: Self)
        ensures
            r.spec_row() == *inner,
            r.spec_delimiter() == delimiter,
    {
        Self { inner, delimiter }
    }

    /// The CSV header for the catalog_page table.
    pub fn header() -> (r: &'static str)
        ensures
            r@ == table_header(Table::CatalogPage),
    {
        "cp_catalog_page_sk,cp_catalog_page_id,cp_start_date_sk,cp_end_date_sk,cp_department,cp_catalog_number,cp_catalog_page_number,cp_description,cp_type"
    }

    /// The CSV header with a custom delimiter.
    pub fn header_with_delimiter(delimiter: char) -> (r: String)
        ensures
            r@ == header_line(table_header(Table::CatalogPage), delimiter),
    {
        join_header(Self::header(), delimiter)
    }

    /// The row as one CSV line (no newline): its fields joined by the delimiter.
    pub fn to_string(&self) -> (r: String)
        ensures
            r@ == join_with(self.spec_row().spec_fields(), self.spec_delimiter()),
    {
        record_line(self.inner, self.delimiter)
    }
}

/// Writes rows of the `catalog_returns` table in CSV format.
pub struct CatalogReturnsCsv<'a> {
    inner: &'a CsvRecord,
    delimiter: char,
}

impl<'a> CatalogReturnsCsv<'a> {
    /// The row being formatted.
    pub closed spec fn spec_row(&self) -> CsvRecord {
        *self.inner
    }

    /// The delimiter placed between fields.
    pub closed spec fn spec_delimiter(&self) -> char {
        self.delimiter
    }

    /// A wrapper that formats `inner` with the default `,` delimiter.
    pub fn new(inner: &'a CsvRecord) -> (r: Self)
        ensures
            r.spec_row() == *inner,
            r.spec_delimiter() == ',',
    {
        Self { inner, delimiter: ',' }
    }

    /// A wrapper that formats `inner` with a custom delimiter.
    pub fn with_delimiter(inner: &'a CsvRecord, delimiter: char) -> (r: Self)
        ensures
            r.spec_row() == *inner,
            r.spec_delimiter() == delimiter,
    {
        Self { inner, delimiter }
    }

    /// The CSV header for the catalog_returns table.
    pub fn header() -> (r: &'static str)
        ensures
            r@ == table_header(Table::CatalogReturns),
    {
        "cr_returned_date_sk,cr_returned_time_sk,cr_item_sk,cr_refunded_customer_sk,cr_refunded_cdemo_sk,cr_refunded_hdemo_sk,cr_refunded_addr_sk,cr_returning_customer_sk,cr_returning_cdemo_sk,cr_returning_hdemo_sk,cr_returning_addr_sk,cr_call_center_sk,cr_catalog_page_sk,cr_ship_mode_sk,cr_warehouse_sk,cr_reason_sk,cr_order_number,cr_return_quantity,cr_return_amount,cr_return_tax,cr_return_amt_inc_tax,cr_fee,cr_return_ship_cost,cr_refunded_cash,cr_reversed_charge,cr_store_credit,cr_net_loss"
    }

    /// The CSV header with a custom delimiter.
    pub fn header_with_delimiter(delimiter: char) -> (r: String)
        ensures
            r@ == header_line(table_header(Table::CatalogReturns), delimiter),
    {
        join_header(Self::header(), delimiter)
    }

    /// The row as one CSV line (no newline): its fields joined by the delimiter.
    pub fn to_string(&self) -> (r: String)
        ensures
            r@ == join_with(self.spec_row().spec_fields(), self.spec_delimiter()),
    {
        record_line(self.inner, self.delimiter)
    }
}

/// Writes rows of the `catalog_sales` table in CSV format.
pub struct CatalogSalesCsv<'a> {
    inner: &'a CsvRecord,
    delimiter: char,
}

impl<'a> CatalogSalesCsv<'a> {
    /// The row being formatted.
    pub closed spec fn spec_row(&self) -> CsvRecord {
        *self.inner
    }

    /// The delimiter placed between fields.
    pub closed spec fn spec_delimiter(&self) -> char {
        self.delimiter
    }

    /// A wrapper that formats `inner` with the default `,` delimiter.
    pub fn new(inner: &'a CsvRecord) -> (r: Self)
        ensures
            r.spec_row() == *inner,
            r.spec_delimiter() == ',',
    {
        Self { inner, delimiter: ',' }
    }

    /// A wrapper that formats `inner` with a custom delimiter.
    pub fn with_delimiter(inner: &'a CsvRecord, delimiter: char) -> (r: Self)
        ensures
            r.spec_row() == *inner,
            r.spec_delimiter() == delimiter,
    {
        Self { inner, delimiter }
    }

    /// The CSV header for the catalog_sales table.
    pub fn header() -> (r: &'static str)
        ensures
            r@ == table_header(Table::CatalogSales),
    {
        "cs_sold_date_sk,cs_sold_time_sk,cs_ship_date_sk,cs_bill_customer_sk,cs_bill_cdemo_sk,cs_bill_hdemo_sk,cs_bill_addr_sk,cs_ship_customer_sk,cs_ship_cdemo_sk,cs_ship_hdemo_sk,cs_ship_addr_sk,cs_call_center_sk,cs_catalog_page_sk,cs_ship_mode_sk,cs_warehouse_sk,cs_item_sk,cs_promo_sk,cs_order_number,cs_quantity,cs_wholesale_cost,cs_list_price,cs_sales_price,cs_ext_discount_amt,cs_ext_sales_price,cs_ext_wholesale_cost,cs_ext_list_price,cs_ext_tax,cs_coupon_amt,cs_ext_ship_cost,cs_net_paid,cs_net_paid_inc_tax,cs_net_paid_inc_ship,cs_net_paid_inc_ship_tax,cs_net_profit"
    }

    /// The CSV header with a custom delimiter.
    pub fn header_with_delimiter(delimiter: char) -> (r: String)
        ensures
            r@ == header_line(table_header(Table::CatalogSales), delimiter),
    {
        join_header(Self::header(), delimiter)
    }

    /// The row as one CSV line (no newline): its fields joined by the delimiter.
    pub fn to_string(&self) -> (r: String)
        ensures
            r@ == join_with(self.spec_row().spec_fields(), self.spec_delimiter()),
    {
        record_line(self.inner, self.delimiter)
    }
}

/// Writes rows of the `customer` table in CSV format.
pub struct CustomerCsv<'a> {
    inner: &'a CsvRecord,
    delimiter: char,
}

impl<'a> CustomerCsv<'a> {
    /// The row being formatted.
    pub closed spec fn spec_row(&self) -> CsvRecord {
        *self.inner
    }

    /// The delimiter placed between fields.
    pub closed spec fn spec_delimiter(&self) -> char {
        self.delimiter
    }

    /// A wrapper that formats `inner` with the default `,` delimiter.
    pub fn new(inner: &'a CsvRecord) -> (r: Self)
        ensures
            r.spec_row() == *inner,
            r.spec_delimiter() == ',',
    {
        Self { inner, delimiter: ',' }
    }

    /// A wrapper that formats `inner` with a custom delimiter.
    pub fn with_delimiter(inner: &'a CsvRecord, delimiter: char) -> (r: Self)
        ensures
            r.spec_row() == *inner,
            r.spec_delimiter() == delimiter,
    {
        Self { inner, delimiter }
    }

    /// The CSV header for the customer table.
    pub fn header() -> (r: &'static str)
        ensures
            r@ == table_header(Table::Customer),
    {
        "c_customer_sk,c_customer_id,c_current_cdemo_sk,c_current_hdemo_sk,c_current_addr_sk,c_first_shipto_date_sk,c_first_sales_date_sk,c_salutation,c_first_name,c_last_name,c_preferred_cust_flag,c_birth_day,c_birth_month,c_birth_year,c_birth_country,c_login,c_email_address,c_last_review_date_sk"
    }

    /// The CSV header with a custom delimiter.
    pub fn header_with_delimiter(delimiter: char) -> (r: String)
        ensures
            r@ == header_line(table_header(Table::Customer), delimiter),
    {
        join_header(Self::header(), delimiter)
    }

    /// The row as one CSV line (no newline): its fields joined by the delimiter.
    pub fn to_string(&self) -> (r: String)
        ensures
            r@ == join_with(self.spec_row().spec_fields(), self.spec_delimiter()),
    {
        record_line(self.inner, self.delimiter)
    }
}

/// Writes rows of the `customer_address` table in CSV format.
pub struct CustomerAddressCsv<'a> {
    inner: &'a CsvRecord,
    delimiter: char,
}

impl<'a> CustomerAddressCsv<'a> {
    /// The row being formatted.
    pub closed spec fn spec_row(&self) -> CsvRecord {
        *self.inner
    }

    /// The delimiter placed between fields.
    pub closed spec fn spec_delimiter(&self) -> char {
        self.delimiter
    }

    /// A wrapper that formats `inner` with the default `,` delimiter.
    pub fn new(inner: &'a CsvRecord) -> (r: Self)
        ensures
            r.spec_row() == *inner,
            r.spec_delimiter() == ',',
    {
        Self { inner, delimiter: ',' }
    }

    /// A wrapper that formats `inner` with a custom delimiter.
    pub fn with_delimiter(inner: &'a CsvRecord, delimiter: char) -> (r: Self)
        ensures
            r.spec_row() == *inner,
            r.spec_delimiter() == delimiter,
    {
        Self { inner, delimiter }
    }

    /// The CSV header for the customer_address table.
    pub fn header() -> (r: &'static str)
        ensures
            r@ == table_header(Table::CustomerAddress),
    {
        "ca_address_sk,ca_address_id,ca_street_number,ca_street_name,ca_street_type,ca_suite_number,ca_city,ca_county,ca_state,ca_zip,ca_country,ca_gmt_offset,ca_location_type"
    }

    /// The CSV header with a custom delimiter.
    pub fn header_with_delimiter(delimiter: char) -> (r: String)
        ensures
            r@ == header_line(table_header(Table::CustomerAddress), delimiter),
    {
        join_header(Self::header(), delimiter)
    }

    /// The row as one CSV line (no newline): its fields joined by the delimiter.
    pub fn to_string(&self) -> (r: String)
        ensures
            r@ == join_with(self.spec_row().spec_fields(), self.spec_delimiter()),
    {
        record_line(self.inner, self.delimiter)
    }
}

/// Writes rows of the `customer_demographics` table in CSV format.
pub struct CustomerDemographicsCsv<'a> {
    inner: &'a CsvRecord,
    delimiter: char,
}

impl<'a> CustomerDemographicsCsv<'a> {
    /// The row being formatted.
    pub closed spec fn spec_row(&self) -> CsvRecord {
        *self.inner
    }

    /// The delimiter placed between fields.
    pub closed spec fn spec_delimiter(&self) -> char {
        self.delimiter
    }

    /// A wrapper that formats `inner` with the default `,` delimiter.
    pub fn new(inner: &'a CsvRecord) -> (r: Self)
        ensures
            r.spec_row() == *inner,
            r.spec_delimiter() == ',',
    {
        Self { inner, delimiter: ',' }
    }

    /// A wrapper that formats `inner` with a custom delimiter.
    pub fn with_delimiter(inner: &'a CsvRecord, delimiter: char) -> (r: Self)
        ensures
            r.spec_row() == *inner,
            r.spec_delimiter() == delimiter,
    {
        Self { inner, delimiter }
    }

    /// The CSV header for the customer_demographics table.
    pub fn header() -> (r: &'static str)
        ensures
            r@ == table_header(Table::CustomerDemographics),
    {
        "cd_demo_sk,cd_gender,cd_marital_status,cd_education_status,cd_purchase_estimate,cd_credit_rating,cd_dep_count,cd_dep_employed_count,cd_dep_college_count"
    }

    /// The CSV header with a custom delimiter.
    pub fn header_with_delimiter(delimiter: char) -> (r: String)
        ensures
            r@ == header_line(table_header(Table::CustomerDemographics), delimiter),
    {
        join_header(Self::header(), delimiter)
    }

    /// The row as one CSV line (no newline): its fields joined by the delimiter.
    pub fn to_string(&self) -> (r: String)
        ensures
            r@ == join_with(self.spec_row().spec_fields(), self.spec_delimiter()),
    {
        record_line(self.inner, self.delimiter)
    }
}

/// Writes rows of the `date_dim` table in CSV format.
pub struct DateDimCsv<'a> {
    inner: &'a CsvRecord,
    delimiter: char,
}

impl<'a> DateDimCsv<'a> {
    /// The row being formatted.
    pub closed spec fn spec_row(&self) -> CsvRecord {
        *self.inner
    }

    /// The delimiter placed between fields.
    pub closed spec fn spec_delimiter(&self) -> char {
        self.delimiter
    }

    /// A wrapper that formats `inner` with the default `,` delimiter.
    pub fn new(inner: &'a CsvRecord) -> (r: Self)
        ensures
            r.spec_row() == *inner,
            r.spec_delimiter() == ',',
    {
        Self { inner, delimiter: ',' }
    }

    /// A wrapper that formats `inner` with a custom delimiter.
    pub fn with_delimiter(inner: &'a CsvRecord, delimiter: char) -> (r: Self)
        ensures
            r.spec_row() == *inner,
            r.spec_delimiter() == delimiter,
    {
        Self { inner, delimiter }
    }

    /// The CSV header for the date_dim table.
    pub fn header() -> (r: &'static str)
        ensures
            r@ == table_header(Table::DateDim),
    {
        "d_date_sk,d_date_id,d_date,d_month_seq,d_week_seq,d_quarter_seq,d_year,d_dow,d_moy,d_dom,d_qoy,d_fy_year,d_fy_quarter_seq,d_fy_week_seq,d_day_name,d_quarter_name,d_holiday,d_weekend,d_following_holiday,d_first_dom,d_last_dom,d_same_day_ly,d_same_day_lq,d_current_day,d_current_week,d_current_month,d_current_quarter,d_current_year"
    }

    /// The CSV header with a custom delimiter.
    pub fn header_with_delimiter(delimiter: char) -> (r: String)
        ensures
            r@ == header_line(table_header(Table::DateDim), delimiter),
    {
        join_header(Self::header(), delimiter)
    }

    /// The row as one CSV line (no newline): its fields joined by the delimiter.
    pub fn to_string(&self) -> (r: String)
        ensures
            r@ == join_with(self.spec_row().spec_fields(), self.spec_delimiter()),
    {
        record_line(self.inner, self.delimiter)
    }
}

/// Writes rows of the `dbgen_version` table in CSV format.
pub struct DbgenVersionCsv<'a> {
    inner: &'a CsvRecord,
    delimiter: char,
}

impl<'a> DbgenVersionCsv<'a> {
    /// The row being formatted.
    pub closed spec fn spec_row(&self) -> CsvRecord {
        *self.inner
    }

    /// The delimiter placed between fields.
    pub closed spec fn spec_delimiter(&self) -> char {
        self.delimiter
    }

    /// A wrapper that formats `inner` with the default `,` delimiter.
    pub fn new(inner: &'a CsvRecord) -> (r: Self)
        ensures
            r.spec_row() == *inner,
            r.spec_delimiter() == ',',
    {
        Self { inner, delimiter: ',' }
    }

    /// A wrapper that formats `inner` with a custom delimiter.
    pub fn with_delimiter(inner: &'a CsvRecord, delimiter: char) -> (r: Self)
        ensures
            r.spec_row() == *inner,
            r.spec_delimiter() == delimiter,
    {
        Self { inner, delimiter }
    }

    /// The CSV header for the dbgen_version table.
    pub fn header() -> (r: &'static str)
        ensures
            r@ == table_header(Table::DbgenVersion),
    {
        "dv_version,dv_create_date,dv_create_time,dv_cmdline_args"
    }

    /// The CSV header with a custom delimiter.
    pub fn header_with_delimiter(delimiter: char) -> (r: String)
        ensures
            r@ == header_line(table_header(Table::DbgenVersion), delimiter),
    {
        join_header(Self::header(), delimiter)
    }

    /// The row as one CSV line (no newline): its fields joined by the delimiter.
    pub fn to_string(&self) -> (r: String)
        ensures
            r@ == join_with(self.spec_row().spec_fields(), self.spec_delimiter()),
    {
        record_line(self.inner, self.delimiter)
    }
}

/// Writes rows of the `household_demographics` table in CSV format.
pub struct HouseholdDemographicsCsv<'a> {
    inner: &'a CsvRecord,
    delimiter: char,
}

impl<'a> HouseholdDemographicsCsv<'a> {
    /// The row being formatted.
    pub closed spec fn spec_row(&self) -> CsvRecord {
        *self.inner
    }

    /// The delimiter placed between fields.
    pub closed spec fn spec_delimiter(&self) -> char {
        self.delimiter
    }

    /// A wrapper that formats `inner` with the default `,` delimiter.
    pub fn new(inner: &'a CsvRecord) -> (r: Self)
        ensures
            r.spec_row() == *inner,
            r.spec_delimiter() == ',',
    {
        Self { inner, delimiter: ',' }
    }

    /// A wrapper that formats `inner` with a custom delimiter.
    pub fn with_delimiter(inner: &'a CsvRecord, delimiter: char) -> (r: Self)
        ensures
            r.spec_row() == *inner,
            r.spec_delimiter() == delimiter,
    {
        Self { inner, delimiter }
    }

    /// The CSV header for the household_demographics table.
    pub fn header() -> (r: &'static str)
        ensures
            r@ == table_header(Table::HouseholdDemographics),
    {
        "hd_demo_sk,hd_income_band_sk,hd_buy_potential,hd_dep_count,hd_vehicle_count"
    }

    /// The CSV header with a custom delimiter.
    pub fn header_with_delimiter(delimiter: char) -> (r: String)
        ensures
            r@ == header_line(table_header(Table::HouseholdDemographics), delimiter),
    {
        join_header(Self::header(), delimiter)
    }

    /// The row as one CSV line (no newline): its fields joined by the delimiter.
    pub fn to_string(&self) -> (r: String)
        ensures
            r@ == join_with(self.spec_row().spec_fields(), self.spec_delimiter()),
    {
        record_line(self.inner, self.delimiter)
    }
}

/// Writes [`IncomeBandRow`]s in CSV format.
pub struct IncomeBandCsv<'a> {
    inner: &'a IncomeBandRow,
    delimiter: char,
}

impl<'a> IncomeBandCsv<'a> {
    /// The row being formatted.
    pub closed spec fn spec_row(&self) -> IncomeBandRow {
        *self.inner
    }

    /// The delimiter placed between fields.
    pub closed spec fn spec_delimiter(&self) -> char {
        self.delimiter
    }

    /// A wrapper that formats `inner` with the default `,` delimiter.
    pub fn new(inner: &'a IncomeBandRow) -> (r: Self)
        ensures
            r.spec_row() == *inner,
            r.spec_delimiter() == ',',
    {
        Self { inner, delimiter: ',' }
    }

    /// A wrapper that formats `inner` with a custom delimiter.
    pub fn with_delimiter(inner: &'a IncomeBandRow, delimiter: char) -> (r: Self)
        ensures
            r.spec_row() == *inner,
            r.spec_delimiter() == delimiter,
    {
        Self { inner, delimiter }
    }

    /// The CSV header for the income_band table.
    pub fn header() -> (r: &'static str)
        ensures
            r@ == table_header(Table::IncomeBand),
    {
        "ib_income_band_sk,ib_lower_bound,ib_upper_bound"
    }

    /// The CSV header with a custom delimiter.
    pub fn header_with_delimiter(delimiter: char) -> (r: String)
        ensures
            r@ == header_line(table_header(Table::IncomeBand), delimiter),
    {
        join_header(Self::header(), delimiter)
    }

    /// The row as one CSV line (no newline): its fields joined by the delimiter.
    pub fn to_string(&self) -> (r: String)
        ensures
            r@ == join_with(self.spec_row().spec_fields(), self.spec_delimiter()),
    {
        let out = join_chars(&self.inner.field_texts(), self.delimiter);
        string_from_chars(&out)
    }
}

/// Writes rows of the `inventory` table in CSV format.
pub struct InventoryCsv<'a> {
    inner: &'a CsvRecord,
    delimiter: char,
}

impl<'a> InventoryCsv<'a> {
    /// The row being formatted.
    pub closed spec fn spec_row(&self) -> CsvRecord {
        *self.inner
    }

    /// The delimiter placed between fields.
    pub closed spec fn spec_delimiter(&self) -> char {
        self.delimiter
    }

    /// A wrapper that formats `inner` with the default `,` delimiter.
    pub fn new(inner: &'a CsvRecord) -> (r: Self)
        ensures
            r.spec_row() == *inner,
            r.spec_delimiter() == ',',
    {
        Self { inner, delimiter: ',' }
    }

    /// A wrapper that formats `inner` with a custom delimiter.
    pub fn with_delimiter(inner: &'a CsvRecord, delimiter: char) -> (r: Self)
        ensures
            r.spec_row() == *inner,
            r.spec_delimiter() == delimiter,
    {
        Self { inner, delimiter }
    }

    /// The CSV header for the inventory table.
    pub fn header() -> (r: &'static str)
        ensures
            r@ == table_header(Table::Inventory),
    {
        "inv_date_sk,inv_item_sk,inv_warehouse_sk,inv_quantity_on_hand"
    }

    /// The CSV header with a custom delimiter.
    pub fn header_with_delimiter(delimiter: char) -> (r: String)
        ensures
            r@ == header_line(table_header(Table::Inventory), delimiter),
    {
        join_header(Self::header(), delimiter)
    }

    /// The row as one CSV line (no newline): its fields joined by the delimiter.
    pub fn to_string(&self) -> (r: String)
        ensures
            r@ == join_with(self.spec_row().spec_fields(), self.spec_delimiter()),
    {
        record_line(self.inner, self.delimiter)
    }
}

/// Writes rows of the `item` table in CSV format.
pub struct ItemCsv<'a> {
    inner: &'a CsvRecord,
    delimiter: char,
}

impl<'a> ItemCsv<'a> {
    /// The row being formatted.
    pub closed spec fn spec_row(&self) -> CsvRecord {
        *self.inner
    }

    /// The delimiter placed between fields.
    pub closed spec fn spec_delimiter(&self) -> char {
        self.delimiter
    }

    /// A wrapper that formats `inner` with the default `,` delimiter.
    pub fn new(inner: &'a CsvRecord) -> (r: Self)
        ensures
            r.spec_row() == *inner,
            r.spec_delimiter() == ',',
    {
        Self { inner, delimiter: ',' }
    }

    /// A wrapper that formats `inner` with a custom delimiter.
    pub fn with_delimiter(inner: &'a CsvRecord, delimiter: char) -> (r: Self)
        ensures
            r.spec_row() == *inner,
            r.spec_delimiter() == delimiter,
    {
        Self { inner, delimiter }
    }

    /// The CSV header for the item table.
    pub fn header() -> (r: &'static str)
        ensures
            r@ == table_header(Table::Item),
    {
        "i_item_sk,i_item_id,i_rec_start_date,i_rec_end_date,i_item_desc,i_current_price,i_wholesale_cost,i_brand_id,i_brand,i_class_id,i_class,i_category_id,i_category,i_manufact_id,i_manufact,i_size,i_formulation,i_color,i_units,i_container,i_manager_id,i_product_name"
    }

    /// The CSV header with a custom delimiter.
    pub fn header_with_delimiter(delimiter: char) -> (r: String)
        ensures
            r@ == header_line(table_header(Table::Item), delimiter),
    {
        join_header(Self::header(), delimiter)
    }

    /// The row as one CSV line (no newline): its fields joined by the delimiter.
    pub fn to_string(&self) -> (r: String)
        ensures
            r@ == join_with(self.spec_row().spec_fields(), self.spec_delimiter()),
    {
        record_line(self.inner, self.delimiter)
    }
}

/// Writes rows of the `promotion` table in CSV format.
pub struct PromotionCsv<'a> {
    inner: &'a CsvRecord,
    delimiter: char,
}

impl<'a> PromotionCsv<'a> {
    /// The row being formatted.
    pub closed spec fn spec_row(&self) -> CsvRecord {
        *self.inner
    }

    /// The delimiter placed between fields.
    pub closed spec fn spec_delimiter(&self) -> char {
        self.delimiter
    }

    /// A wrapper that formats `inner` with the default `,` delimiter.
    pub fn new(inner: &'a CsvRecord) -> (r: Self)
        ensures
            r.spec_row() == *inner,
            r.spec_delimiter() == ',',
    {
        Self { inner, delimiter: ',' }
    }

    /// A wrapper that formats `inner` with a custom delimiter.
    pub fn with_delimiter(inner: &'a CsvRecord, delimiter: char) -> (r: Self)
        ensures
            r.spec_row() == *inner,
            r.spec_delimiter() == delimiter,
    {
        Self { inner, delimiter }
    }

    /// The CSV header for the promotion table.
    pub fn header() -> (r: &'static str)
        ensures
            r@ == table_header(Table::Promotion),
    {
        "p_promo_sk,p_promo_id,p_start_date_sk,p_end_date_sk,p_item_sk,p_cost,p_response_target,p_promo_name,p_channel_dmail,p_channel_email,p_channel_catalog,p_channel_tv,p_channel_radio,p_channel_press,p_channel_event,p_channel_demo,p_channel_details,p_purpose,p_discount_active"
    }

    /// The CSV header with a custom delimiter.
    pub fn header_with_delimiter(delimiter: char) -> (r: String)
        ensures
            r@ == header_line(table_header(Table::Promotion), delimiter),
    {
        join_header(Self::header(), delimiter)
    }

    /// The row as one CSV line (no newline): its fields joined by the delimiter.
    pub fn to_string(&self) -> (r: String)
        ensures
            r@ == join_with(self.spec_row().spec_fields(), self.spec_delimiter()),
    {
        record_line(self.inner, self.delimiter)
    }
}

/// Writes [`ReasonRow`]s in CSV format.
pub struct ReasonCsv<'a> {
    inner: &'a ReasonRow,
    delimiter: char,
}

impl<'a> ReasonCsv<'a> {
    /// The row being formatted.
    pub closed spec fn spec_row(&self) -> ReasonRow {
        *self.inner
    }

    /// The delimiter placed between fields.
    pub closed spec fn spec_delimiter(&self) -> char {
        self.delimiter
    }

    /// A wrapper that formats `inner` with the default `,` delimiter.
    pub fn new(inner: &'a ReasonRow) -> (r: Self)
        ensures
            r.spec_row() == *inner,
            r.spec_delimiter() == ',',
    {
        Self { inner, delimiter: ',' }
    }

    /// A wrapper that formats `inner` with a custom delimiter.
    pub fn with_delimiter(inner: &'a ReasonRow, delimiter: char) -> (r: Self)
        ensures
            r.spec_row() == *inner,
            r.spec_delimiter() == delimiter,
    {
        Self { inner, delimiter }
    }

    /// The CSV header for the reason table.
    pub fn header() -> (r: &'static str)
        ensures
            r@ == table_header(Table::Reason),
    {
        "r_reason_sk,r_reason_id,r_reason_desc"
    }

    /// The CSV header with a custom delimiter.
    pub fn header_with_delimiter(delimiter: char) -> (r: String)
        ensures
            r@ == header_line(table_header(Table::Reason), delimiter),
    {
        join_header(Self::header(), delimiter)
    }

    /// The row as one CSV line (no newline): its fields joined by the delimiter.
    pub fn to_string(&self) -> (r: String)
        ensures
            r@ == join_with(self.spec_row().spec_fields(), self.spec_delimiter()),
    {
        let out = join_chars(&self.inner.field_texts(), self.delimiter);
        string_from_chars(&out)
    }
}

/// Writes rows of the `ship_mode` table in CSV format.
pub struct ShipModeCsv<'a> {
    inner: &'a CsvRecord,
    delimiter: char,
}

impl<'a> ShipModeCsv<'a> {
    /// The row being formatted.
    pub closed spec fn spec_row(&self) -> CsvRecord {
        *self.inner
    }

    /// The delimiter placed between fields.
    pub closed spec fn spec_delimiter(&self) -> char {
        self.delimiter
    }

    /// A wrapper that formats `inner` with the default `,` delimiter.
    pub fn new(inner: &'a CsvRecord) -> (r: Self)
        ensures
            r.spec_row() == *inner,
            r.spec_delimiter() == ',',
    {
        Self { inner, delimiter: ',' }
    }

    /// A wrapper that formats `inner` with a custom delimiter.
    pub fn with_delimiter(inner: &'a CsvRecord, delimiter: char) -> (r: Self)
        ensures
            r.spec_row() == *inner,
            r.spec_delimiter() == delimiter,
    {
        Self { inner, delimiter }
    }

    /// The CSV header for the ship_mode table.
    pub fn header() -> (r: &'static str)
        ensures
            r@ == table_header(Table::ShipMode),
    {
        "sm_ship_mode_sk,sm_ship_mode_id,sm_type,sm_code,sm_carrier,sm_contract"
    }

    /// The CSV header with a custom delimiter.
    pub fn header_with_delimiter(delimiter: char) -> (r: String)
        ensures
            r@ == header_line(table_header(Table::ShipMode), delimiter),
    {
        join_header(Self::header(), delimiter)
    }

    /// The row as one CSV line (no newline): its fields joined by the delimiter.
    pub fn to_string(&self) -> (r: String)
        ensures
            r@ == join_with(self.spec_row().spec_fields(), self.spec_delimiter()),
    {
        record_line(self.inner, self.delimiter)
    }
}

/// Writes rows of the `store` table in CSV format.
pub struct StoreCsv<'a> {
    inner: &'a CsvRecord,
    delimiter: char,
}

impl<'a> StoreCsv<'a> {
    /// The row being formatted.
    pub closed spec fn spec_row(&self) -> CsvRecord {
        *self.inner
    }

    /// The delimiter placed between fields.
    pub closed spec fn spec_delimiter(&self) -> char {
        self.delimiter
    }

    /// A wrapper that formats `inner` with the default `,` delimiter.
    pub fn new(inner: &'a CsvRecord) -> (r: Self)
        ensures
            r.spec_row() == *inner,
            r.spec_delimiter() == ',',
    {
        Self { inner, delimiter: ',' }
    }

    /// A wrapper that formats `inner` with a custom delimiter.
    pub fn with_delimiter(inner: &'a CsvRecord, delimiter: char) -> (r: Self)
        ensures
            r.spec_row() == *inner,
            r.spec_delimiter() == delimiter,
    {
        Self { inner, delimiter }
    }

    /// The CSV header for the store table.
    pub fn header() -> (r: &'static str)
        ensures
            r@ == table_header(Table::Store),
    {
        "s_store_sk,s_store_id,s_rec_start_date,s_rec_end_date,s_closed_date_sk,s_store_name,s_number_employees,s_floor_space,s_hours,s_manager,s_market_id,s_geography_class,s_market_desc,s_market_manager,s_division_id,s_division_name,s_company_id,s_company_name,s_street_number,s_street_name,s_street_type,s_suite_number,s_city,s_county,s_state,s_zip,s_country,s_gmt_offset,s_tax_precentage"
    }

    /// The CSV header with a custom delimiter.
    pub fn header_with_delimiter(delimiter: char) -> (r: String)
        ensures
            r@ == header_line(table_header(Table::Store), delimiter),
    {
        join_header(Self::header(), delimiter)
    }

    /// The row as one CSV line (no newline): its fields joined by the delimiter.
    pub fn to_string(&self) -> (r: String)
        ensures
            r@ == join_with(self.spec_row().spec_fields(), self.spec_delimiter()),
    {
        record_line(self.inner, self.delimiter)
    }
}

/// Writes rows of the `store_returns` table in CSV format.
pub struct StoreReturnsCsv<'a> {
    inner: &'a CsvRecord,
    delimiter: char,
}

impl<'a> StoreReturnsCsv<'a> {
    /// The row being formatted.
    pub closed spec fn spec_row(&self) -> CsvRecord {
        *self.inner
    }

    /// The delimiter placed between fields.
    pub closed spec fn spec_delimiter(&self) -> char {
        self.delimiter
    }

    /// A wrapper that formats `inner` with the default `,` delimiter.
    pub fn new(inner: &'a CsvRecord) -> (r: Self)
        ensures
            r.spec_row() == *inner,
            r.spec_delimiter() == ',',
    {
        Self { inner, delimiter: ',' }
    }

    /// A wrapper that formats `inner` with a custom delimiter.
    pub fn with_delimiter(inner: &'a CsvRecord, delimiter: char) -> (r: Self)
        ensures
            r.spec_row() == *inner,
            r.spec_delimiter() == delimiter,
    {
        Self { inner, delimiter }
    }

    /// The CSV header for the store_returns table.
    pub fn header() -> (r: &'static str)
        ensures
            r@ == table_header(Table::StoreReturns),
    {
        "sr_returned_date_sk,sr_return_time_sk,sr_item_sk,sr_customer_sk,sr_cdemo_sk,sr_hdemo_sk,sr_addr_sk,sr_store_sk,sr_reason_sk,sr_ticket_number,sr_return_quantity,sr_return_amt,sr_return_tax,sr_return_amt_inc_tax,sr_fee,sr_return_ship_cost,sr_refunded_cash,sr_reversed_charge,sr_store_credit,sr_net_loss"
    }

    /// The CSV header with a custom delimiter.
    pub fn header_with_delimiter(delimiter: char) -> (r: String)
        ensures
            r@ == header_line(table_header(Table::StoreReturns), delimiter),
    {
        join_header(Self::header(), delimiter)
    }

    /// The row as one CSV line (no newline): its fields joined by the delimiter.
    pub fn to_string(&self) -> (r: String)
        ensures
            r@ == join_with(self.spec_row().spec_fields(), self.spec_delimiter()),
    {
        record_line(self.inner, self.delimiter)
    }
}

/// Writes rows of the `store_sales` table in CSV format.
pub struct StoreSalesCsv<'a> {
    inner: &'a CsvRecord,
    delimiter: char,
}

impl<'a> StoreSalesCsv<'a> {
    /// The row being formatted.
    pub closed spec fn spec_row(&self) -> CsvRecord {
        *self.inner
    }

    /// The delimiter placed between fields.
    pub closed spec fn spec_delimiter(&self) -> char {
        self.delimiter
    }

    /// A wrapper that formats `inner` with the default `,` delimiter.
    pub fn new(inner: &'a CsvRecord) -> (r: Self)
        ensures
            r.spec_row() == *inner,
            r.spec_delimiter() == ',',
    {
        Self { inner, delimiter: ',' }
    }

    /// A wrapper that formats `inner` with a custom delimiter.
    pub fn with_delimiter(inner: &'a CsvRecord, delimiter: char) -> (r: Self)
        ensures
            r.spec_row() == *inner,
            r.spec_delimiter() == delimiter,
    {
        Self { inner, delimiter }
    }

    /// The CSV header for the store_sales table.
    pub fn header() -> (r: &'static str)
        ensures
            r@ == table_header(Table::StoreSales),
    {
        "ss_sold_date_sk,ss_sold_time_sk,ss_item_sk,ss_customer_sk,ss_cdemo_sk,ss_hdemo_sk,ss_addr_sk,ss_store_sk,ss_promo_sk,ss_ticket_number,ss_quantity,ss_wholesale_cost,ss_list_price,ss_sales_price,ss_ext_discount_amt,ss_ext_sales_price,ss_ext_wholesale_cost,ss_ext_list_price,ss_ext_tax,ss_coupon_amt,ss_net_paid,ss_net_paid_inc_tax,ss_net_profit"
    }

    /// The CSV header with a custom delimiter.
    pub fn header_with_delimiter(delimiter: char) -> (r: String)
        ensures
            r@ == header_line(table_header(Table::StoreSales), delimiter),
    {
        join_header(Self::header(), delimiter)
    }

    /// The row as one CSV line (no newline): its fields joined by the delimiter.
    pub fn to_string(&self) -> (r: String)
        ensures
            r@ == join_with(self.spec_row().spec_fields(), self.spec_delimiter()),
    {
        record_line(self.inner, self.delimiter)
    }
}

/// Writes rows of the `time_dim` table in CSV format.
pub struct TimeDimCsv<'a> {
    inner: &'a CsvRecord,
    delimiter: char,
}

impl<'a> TimeDimCsv<'a> {
    /// The row being formatted.
    pub closed spec fn spec_row(&self) -> CsvRecord {
        *self.inner
    }

    /// The delimiter placed between fields.
    pub closed spec fn spec_delimiter(&self) -> char {
        self.delimiter
    }

    /// A wrapper that formats `inner` with the default `,` delimiter.
    pub fn new(inner: &'a CsvRecord) -> (r: Self)
        ensures
            r.spec_row() == *inner,
            r.spec_delimiter() == ',',
    {
        Self { inner, delimiter: ',' }
    }

    /// A wrapper that formats `inner` with a custom delimiter.
    pub fn with_delimiter(inner: &'a CsvRecord, delimiter: char) -> (r: Self)
        ensures
            r.spec_row() == *inner,
            r.spec_delimiter() == delimiter,
    {
        Self { inner, delimiter }
    }

    /// The CSV header for the time_dim table.
    pub fn header() -> (r: &'static str)
        ensures
            r@ == table_header(Table::TimeDim),
    {
        "t_time_sk,t_time_id,t_time,t_hour,t_minute,t_second,t_am_pm,t_shift,t_sub_shift,t_meal_time"
    }

    /// The CSV header with a custom delimiter.
    pub fn header_with_delimiter(delimiter: char) -> (r: String)
        ensures
            r@ == header_line(table_header(Table::TimeDim), delimiter),
    {
        join_header(Self::header(), delimiter)
    }

    /// The row as one CSV line (no newline): its fields joined by the delimiter.
    pub fn to_string(&self) -> (r: String)
        ensures
            r@ == join_with(self.spec_row().spec_fields(), self.spec_delimiter()),
    {
        record_line(self.inner, self.delimiter)
    }
}

/// Writes rows of the `warehouse` table in CSV format.
pub struct WarehouseCsv<'a> {
    inner: &'a CsvRecord,
    delimiter: char,
}

impl<'a> WarehouseCsv<'a> {
    /// The row being formatted.
    pub closed spec fn spec_row(&self) -> CsvRecord {
        *self.inner
    }

    /// The delimiter placed between fields.
    pub closed spec fn spec_delimiter(&self) -> char {
        self.delimiter
    }

    /// A wrapper that formats `inner` with the default `,` delimiter.
    pub fn new(inner: &'a CsvRecord) -> (r: Self)
        ensures
            r.spec_row() == *inner,
            r.spec_delimiter() == ',',
    {
        Self { inner, delimiter: ',' }
    }

    /// A wrapper that formats `inner` with a custom delimiter.
    pub fn with_delimiter(inner: &'a CsvRecord, delimiter: char) -> (r: Self)
        ensures
            r.spec_row() == *inner,
            r.spec_delimiter() == delimiter,
    {
        Self { inner, delimiter }
    }

    /// The CSV header for the warehouse table.
    pub fn header() -> (r: &'static str)
        ensures
            r@ == table_header(Table::Warehouse),
    {
        "w_warehouse_sk,w_warehouse_id,w_warehouse_name,w_warehouse_sq_ft,w_street_number,w_street_name,w_street_type,w_suite_number,w_city,w_county,w_state,w_zip,w_country,w_gmt_offset"
    }

    /// The CSV header with a custom delimiter.
    pub fn header_with_delimiter(delimiter: char) -> (r: String)
        ensures
            r@ == header_line(table_header(Table::Warehouse), delimiter),
    {
        join_header(Self::header(), delimiter)
    }

    /// The row as one CSV line (no newline): its fields joined by the delimiter.
    pub fn to_string(&self) -> (r: String)
        ensures
            r@ == join_with(self.spec_row().spec_fields(), self.spec_delimiter()),
    {
        record_line(self.inner, self.delimiter)
    }
}

/// Writes rows of the `web_page` table in CSV format.
pub struct WebPageCsv<'a> {
    inner: &'a CsvRecord,
    delimiter: char,
}

impl<'a> WebPageCsv<'a> {
    /// The row being formatted.
    pub closed spec fn spec_row(&self) -> CsvRecord {
        *self.inner
    }

    /// The delimiter placed between fields.
    pub closed spec fn spec_delimiter(&self) -> char {
        self.delimiter
    }

    /// A wrapper that formats `inner` with the default `,` delimiter.
    pub fn new(inner: &'a CsvRecord) -> (r: Self)
        ensures
            r.spec_row() == *inner,
            r.spec_delimiter() == ',',
    {
        Self { inner, delimiter: ',' }
    }

    /// A wrapper that formats `inner` with a custom delimiter.
    pub fn with_delimiter(inner: &'a CsvRecord, delimiter: char) -> (r: Self)
        ensures
            r.spec_row() == *inner,
            r.spec_delimiter() == delimiter,
    {
        Self { inner, delimiter }
    }

    /// The CSV header for the web_page table.
    pub fn header() -> (r: &'static str)
        ensures
            r@ == table_header(Table::WebPage),
    {
        "wp_web_page_sk,wp_web_page_id,wp_rec_start_date,wp_rec_end_date,wp_creation_date_sk,wp_access_date_sk,wp_autogen_flag,wp_customer_sk,wp_url,wp_type,wp_char_count,wp_link_count,wp_image_count,wp_max_ad_count"
    }

    /// The CSV header with a custom delimiter.
    pub fn header_with_delimiter(delimiter: char) -> (r: String)
        ensures
            r@ == header_line(table_header(Table::WebPage), delimiter),
    {
        join_header(Self::header(), delimiter)
    }

    /// The row as one CSV line (no newline): its fields joined by the delimiter.
    pub fn to_string(&self) -> (r: String)
        ensures
            r@ == join_with(self.spec_row().spec_fields(), self.spec_delimiter()),
    {
        record_line(self.inner, self.delimiter)
    }
}

/// Writes rows of the `web_returns` table in CSV format.
pub struct WebReturnsCsv<'a> {
    inner: &'a CsvRecord,
    delimiter: char,
}

impl<'a> WebReturnsCsv<'a> {
    /// The row being formatted.
    pub closed spec fn spec_row(&self) -> CsvRecord {
        *self.inner
    }

    /// The delimiter placed between fields.
    pub closed spec fn spec_delimiter(&self) -> char {
        self.delimiter
    }

    /// A wrapper that formats `inner` with the default `,` delimiter.
    pub fn new(inner: &'a CsvRecord) -> (r: Self)
        ensures
            r.spec_row() == *inner,
            r.spec_delimiter() == ',',
    {
        Self { inner, delimiter: ',' }
    }

    /// A wrapper that formats `inner` with a custom delimiter.
    pub fn with_delimiter(inner: &'a CsvRecord, delimiter: char) -> (r: Self)
        ensures
            r.spec_row() == *inner,
            r.spec_delimiter() == delimiter,
    {
        Self { inner, delimiter }
    }

    /// The CSV header for the web_returns table.
    pub fn header() -> (r: &'static str)
        ensures
            r@ == table_header(Table::WebReturns),
    {
        "wr_returned_date_sk,wr_returned_time_sk,wr_item_sk,wr_refunded_customer_sk,wr_refunded_cdemo_sk,wr_refunded_hdemo_sk,wr_refunded_addr_sk,wr_returning_customer_sk,wr_returning_cdemo_sk,wr_returning_hdemo_sk,wr_returning_addr_sk,wr_web_page_sk,wr_reason_sk,wr_order_number,wr_return_quantity,wr_return_amt,wr_return_tax,wr_return_amt_inc_tax,wr_fee,wr_return_ship_cost,wr_refunded_cash,wr_reversed_charge,wr_account_credit,wr_net_loss"
    }

    /// The CSV header with a custom delimiter.
    pub fn header_with_delimiter(delimiter: char) -> (r: String)
        ensures
            r@ == header_line(table_header(Table::WebReturns), delimiter),
    {
        join_header(Self::header(), delimiter)
    }

    /// The row as one CSV line (no newline): its fields joined by the delimiter.
    pub fn to_string(&self) -> (r: String)
        ensures
            r@ == join_with(self.spec_row().spec_fields(), self.spec_delimiter()),
    {
        record_line(self.inner, self.delimiter)
    }
}

/// Writes rows of the `web_sales` table in CSV format.
pub struct WebSalesCsv<'a> {
    inner: &'a CsvRecord,
    delimiter: char,
}

impl<'a> WebSalesCsv<'a> {
    /// The row being formatted.
    pub closed spec fn spec_row(&self) -> CsvRecord {
        *self.inner
    }

    /// The delimiter placed between fields.
    pub closed spec fn spec_delimiter(&self) -> char {
        self.delimiter
    }

    /// A wrapper that formats `inner` with the default `,` delimiter.
    pub fn new(inner: &'a CsvRecord) -> (r: Self)
        ensures
            r.spec_row() == *inner,
            r.spec_delimiter() == ',',
    {
        Self { inner, delimiter: ',' }
    }

    /// A wrapper that formats `inner` with a custom delimiter.
    pub fn with_delimiter(inner: &'a CsvRecord, delimiter: char) -> (r: Self)
        ensures
            r.spec_row() == *inner,
            r.spec_delimiter() == delimiter,
    {
        Self { inner, delimiter }
    }

    /// The CSV header for the web_sales table.
    pub fn header() -> (r: &'static str)
        ensures
            r@ == table_header(Table::WebSales),
    {
        "ws_sold_date_sk,ws_sold_time_sk,ws_ship_date_sk,ws_item_sk,ws_bill_customer_sk,ws_bill_cdemo_sk,ws_bill_hdemo_sk,ws_bill_addr_sk,ws_ship_customer_sk,ws_ship_cdemo_sk,ws_ship_hdemo_sk,ws_ship_addr_sk,ws_web_page_sk,ws_web_site_sk,ws_ship_mode_sk,ws_warehouse_sk,ws_promo_sk,ws_order_number,ws_quantity,ws_wholesale_cost,ws_list_price,ws_sales_price,ws_ext_discount_amt,ws_ext_sales_price,ws_ext_wholesale_cost,ws_ext_list_price,ws_ext_tax,ws_coupon_amt,ws_ext_ship_cost,ws_net_paid,ws_net_paid_inc_tax,ws_net_paid_inc_ship,ws_net_paid_inc_ship_tax,ws_net_profit"
    }

    /// The CSV header with a custom delimiter.
    pub fn header_with_delimiter(delimiter: char) -> (r: String)
        ensures
            r@ == header_line(table_header(Table::WebSales), delimiter),
    {
        join_header(Self::header(), delimiter)
    }

    /// The row as one CSV line (no newline): its fields joined by the delimiter.
    pub fn to_string(&self) -> (r: String)
        ensures
            r@ == join_with(self.spec_row().spec_fields(), self.spec_delimiter()),
    {
        record_line(self.inner, self.delimiter)
    }
}

/// Writes rows of the `web_site` table in CSV format.
pub struct WebSiteCsv<'a> {
    inner: &'a CsvRecord,
    delimiter: char,
}

impl<'a> WebSiteCsv<'a> {
    /// The row being formatted.
    pub closed spec fn spec_row(&self) -> CsvRecord {
        *self.inner
    }

    /// The delimiter placed between fields.
    pub closed spec fn spec_delimiter(&self) -> char {
        self.delimiter
    }

    /// A wrapper that formats `inner` with the default `,` delimiter.
    pub fn new(inner: &'a CsvRecord) -> (r: Self)
        ensures
            r.spec_row() == *inner,
            r.spec_delimiter() == ',',
    {
        Self { inner, delimiter: ',' }
    }

    /// A wrapper that formats `inner` with a custom delimiter.
    pub fn with_delimiter(inner: &'a CsvRecord, delimiter: char) -> (r: Self)
        ensures
            r.spec_row() == *inner,
            r.spec_delimiter() == delimiter,
    {
        Self { inner, delimiter }
    }

    /// The CSV header for the web_site table.
    pub fn header() -> (r: &'static str)
        ensures
            r@ == table_header(Table::WebSite),
    {
        "web_site_sk,web_site_id,web_rec_start_date,web_rec_end_date,web_name,web_open_date_sk,web_close_date_sk,web_class,web_manager,web_mkt_id,web_mkt_class,web_mkt_desc,web_market_manager,web_company_id,web_company_name,web_street_number,web_street_name,web_street_type,web_suite_number,web_city,web_county,web_state,web_zip,web_country,web_gmt_offset,web_tax_percentage"
    }

    /// The CSV header with a custom delimiter.
    pub fn header_with_delimiter(delimiter: char) -> (r: String)
        ensures
            r@ == header_line(table_header(Table::WebSite), delimiter),
    {
        join_header(Self::header(), delimiter)
    }

    /// The row as one CSV line (no newline): its fields joined by the delimiter.
    pub fn to_string(&self) -> (r: String)
        ensures
            r@ == join_with(self.spec_row().spec_fields(), self.spec_delimiter()),
    {
        record_line(self.inner, self.delimiter)
    }
}


/// One generated row of any table.
#[derive(Clone, Debug)]
pub enum GeneratedRow {
    CallCenter(CsvRecord),
    CatalogPage(CsvRecord),
    CatalogReturns(CsvRecord),
    CatalogSales(CsvRecord),
    Customer(CsvRecord),
    CustomerAddress(CsvRecord),
    CustomerDemographics(CsvRecord),
    DateDim(CsvRecord),
    DbgenVersion(CsvRecord),
    HouseholdDemographics(CsvRecord),
    IncomeBand(IncomeBandRow),
    Inventory(CsvRecord),
    Item(CsvRecord),
    Promotion(CsvRecord),
    Reason(ReasonRow),
    ShipMode(CsvRecord),
    Store(CsvRecord),
    StoreReturns(CsvRecord),
    StoreSales(CsvRecord),
    TimeDim(CsvRecord),
    Warehouse(CsvRecord),
    WebPage(CsvRecord),
    WebReturns(CsvRecord),
    WebSales(CsvRecord),
    WebSite(CsvRecord),
}

impl GeneratedRow {
    /// The field texts of the row, in column order.
    pub open spec fn spec_fields(&self) -> Seq<Seq<char>> {
        match self {
            GeneratedRow::CallCenter(row) => row.spec_fields(),
            GeneratedRow::CatalogPage(row) => row.spec_fields(),
            GeneratedRow::CatalogReturns(row) => row.spec_fields(),
            GeneratedRow::CatalogSales(row) => row.spec_fields(),
            GeneratedRow::Customer(row) => row.spec_fields(),
            GeneratedRow::CustomerAddress(row) => row.spec_fields(),
            GeneratedRow::CustomerDemographics(row) => row.spec_fields(),
            GeneratedRow::DateDim(row) => row.spec_fields(),
            GeneratedRow::DbgenVersion(row) => row.spec_fields(),
            GeneratedRow::HouseholdDemographics(row) => row.spec_fields(),
            GeneratedRow::IncomeBand(row) => row.spec_fields(),
            GeneratedRow::Inventory(row) => row.spec_fields(),
            GeneratedRow::Item(row) => row.spec_fields(),
            GeneratedRow::Promotion(row) => row.spec_fields(),
            GeneratedRow::Reason(row) => row.spec_fields(),
            GeneratedRow::ShipMode(row) => row.spec_fields(),
            GeneratedRow::Store(row) => row.spec_fields(),
            GeneratedRow::StoreReturns(row) => row.spec_fields(),
            GeneratedRow::StoreSales(row) => row.spec_fields(),
            GeneratedRow::TimeDim(row) => row.spec_fields(),
            GeneratedRow::Warehouse(row) => row.spec_fields(),
            GeneratedRow::WebPage(row) => row.spec_fields(),
            GeneratedRow::WebReturns(row) => row.spec_fields(),
            GeneratedRow::WebSales(row) => row.spec_fields(),
            GeneratedRow::WebSite(row) => row.spec_fields(),
        }
    }

    /// The table the row belongs to.
    pub open spec fn spec_table(&self) -> Table {
        match self {
            GeneratedRow::CallCenter(_) => Table::CallCenter,
            GeneratedRow::CatalogPage(_) => Table::CatalogPage,
            GeneratedRow::CatalogReturns(_) => Table::CatalogReturns,
            GeneratedRow::CatalogSales(_) => Table::CatalogSales,
            GeneratedRow::Customer(_) => Table::Customer,
            GeneratedRow::CustomerAddress(_) => Table::CustomerAddress,
            GeneratedRow::CustomerDemographics(_) => Table::CustomerDemographics,
            GeneratedRow::DateDim(_) => Table::DateDim,
            GeneratedRow::DbgenVersion(_) => Table::DbgenVersion,
            GeneratedRow::HouseholdDemographics(_) => Table::HouseholdDemographics,
            GeneratedRow::IncomeBand(_) => Table::IncomeBand,
            GeneratedRow::Inventory(_) => Table::Inventory,
            GeneratedRow::Item(_) => Table::Item,
            GeneratedRow::Promotion(_) => Table::Promotion,
            GeneratedRow::Reason(_) => Table::Reason,
            GeneratedRow::ShipMode(_) => Table::ShipMode,
            GeneratedRow::Store(_) => Table::Store,
            GeneratedRow::StoreReturns(_) => Table::StoreReturns,
            GeneratedRow::StoreSales(_) => Table::StoreSales,
            GeneratedRow::TimeDim(_) => Table::TimeDim,
            GeneratedRow::Warehouse(_) => Table::Warehouse,
            GeneratedRow::WebPage(_) => Table::WebPage,
            GeneratedRow::WebReturns(_) => Table::WebReturns,
            GeneratedRow::WebSales(_) => Table::WebSales,
            GeneratedRow::WebSite(_) => Table::WebSite,
        }
    }

    /// The table the row belongs to.
    pub fn table(&self) -> (t: Table)
        ensures
            t == self.spec_table(),
    {
        match self {
            GeneratedRow::CallCenter(_) => Table::CallCenter,
            GeneratedRow::CatalogPage(_) => Table::CatalogPage,
            GeneratedRow::CatalogReturns(_) => Table::CatalogReturns,
            GeneratedRow::CatalogSales(_) => Table::CatalogSales,
            GeneratedRow::Customer(_) => Table::Customer,
            GeneratedRow::CustomerAddress(_) => Table::CustomerAddress,
            GeneratedRow::CustomerDemographics(_) => Table::CustomerDemographics,
            GeneratedRow::DateDim(_) => Table::DateDim,
            GeneratedRow::DbgenVersion(_) => Table::DbgenVersion,
            GeneratedRow::HouseholdDemographics(_) => Table::HouseholdDemographics,
            GeneratedRow::IncomeBand(_) => Table::IncomeBand,
            GeneratedRow::Inventory(_) => Table::Inventory,
            GeneratedRow::Item(_) => Table::Item,
            GeneratedRow::Promotion(_) => Table::Promotion,
            GeneratedRow::Reason(_) => Table::Reason,
            GeneratedRow::ShipMode(_) => Table::ShipMode,
            GeneratedRow::Store(_) => Table::Store,
            GeneratedRow::StoreReturns(_) => Table::StoreReturns,
            GeneratedRow::StoreSales(_) => Table::StoreSales,
            GeneratedRow::TimeDim(_) => Table::TimeDim,
            GeneratedRow::Warehouse(_) => Table::Warehouse,
            GeneratedRow::WebPage(_) => Table::WebPage,
            GeneratedRow::WebReturns(_) => Table::WebReturns,
            GeneratedRow::WebSales(_) => Table::WebSales,
            GeneratedRow::WebSite(_) => Table::WebSite,
        }
    }
}

/// Writes any [`GeneratedRow`] in CSV format, delegating to the row's
/// table-specific formatting.
pub struct GeneratedRowCsv<'a> {
    inner: &'a GeneratedRow,
    delimiter: char,
}

impl<'a> GeneratedRowCsv<'a> {
    /// The row being formatted.
    pub closed spec fn spec_row(&self) -> GeneratedRow {
        *self.inner
    }

    /// The delimiter placed between fields.
    pub closed spec fn spec_delimiter(&self) -> char {
        self.delimiter
    }

    /// A wrapper that formats `inner` with the default `,` delimiter.
    pub fn new(inner: &'a GeneratedRow) -> (r: Self)
        ensures
            r.spec_row() == *inner,
            r.spec_delimiter() == ',',
    {
        Self { inner, delimiter: ',' }
    }

    /// A wrapper that formats `inner` with a custom delimiter.
    pub fn with_delimiter(inner: &'a GeneratedRow, delimiter: char) -> (r: Self)
        ensures
            r.spec_row() == *inner,
            r.spec_delimiter() == delimiter,
    {
        Self { inner, delimiter }
    }

    /// The row as one CSV line (no newline): its fields joined by the delimiter.
    pub fn to_string(&self) -> (r: String)
        ensures
            r@ == join_with(self.spec_row().spec_fields(), self.spec_delimiter()),
    {
        let d = self.delimiter;
        match self.inner {
            GeneratedRow::CallCenter(row) => CallCenterCsv::with_delimiter(row, d).to_string(),
            GeneratedRow::CatalogPage(row) => CatalogPageCsv::with_delimiter(row, d).to_string(),
            GeneratedRow::CatalogReturns(row) => CatalogReturnsCsv::with_delimiter(row, d).to_string(),
            GeneratedRow::CatalogSales(row) => CatalogSalesCsv::with_delimiter(row, d).to_string(),
            GeneratedRow::Customer(row) => CustomerCsv::with_delimiter(row, d).to_string(),
            GeneratedRow::CustomerAddress(row) => CustomerAddressCsv::with_delimiter(row, d).to_string(),
            GeneratedRow::CustomerDemographics(row) => CustomerDemographicsCsv::with_delimiter(row, d).to_string(),
            GeneratedRow::DateDim(row) => DateDimCsv::with_delimiter(row, d).to_string(),
            GeneratedRow::DbgenVersion(row) => DbgenVersionCsv::with_delimiter(row, d).to_string(),
            GeneratedRow::HouseholdDemographics(row) => HouseholdDemographicsCsv::with_delimiter(row, d).to_string(),
            GeneratedRow::IncomeBand(row) => IncomeBandCsv::with_delimiter(row, d).to_string(),
            GeneratedRow::Inventory(row) => InventoryCsv::with_delimiter(row, d).to_string(),
            GeneratedRow::Item(row) => ItemCsv::with_delimiter(row, d).to_string(),
            GeneratedRow::Promotion(row) => PromotionCsv::with_delimiter(row, d).to_string(),
            GeneratedRow::Reason(row) => ReasonCsv::with_delimiter(row, d).to_string(),
            GeneratedRow::ShipMode(row) => ShipModeCsv::with_delimiter(row, d).to_string(),
            GeneratedRow::Store(row) => StoreCsv::with_delimiter(row, d).to_string(),
            GeneratedRow::StoreReturns(row) => StoreReturnsCsv::with_delimiter(row, d).to_string(),
            GeneratedRow::StoreSales(row) => StoreSalesCsv::with_delimiter(row, d).to_string(),
            GeneratedRow::TimeDim(row) => TimeDimCsv::with_delimiter(row, d).to_string(),
            GeneratedRow::Warehouse(row) => WarehouseCsv::with_delimiter(row, d).to_string(),
            GeneratedRow::WebPage(row) => WebPageCsv::with_delimiter(row, d).to_string(),
            GeneratedRow::WebReturns(row) => WebReturnsCsv::with_delimiter(row, d).to_string(),
            GeneratedRow::WebSales(row) => WebSalesCsv::with_delimiter(row, d).to_string(),
            GeneratedRow::WebSite(row) => WebSiteCsv::with_delimiter(row, d).to_string(),
        }
    }
}

/// Every generated row belongs to the table its variant is named after: a
/// row of a variant reports that table, whose name is the variant's name,
/// and the rows a walk of a table keeps are exactly that variant's.
pub proof fn lemma_row_reports_its_variants_table(r: GeneratedRow)
    ensures
        r is CallCenter <==> r.spec_table() == Table::CallCenter,
        r is CallCenter ==> table_name(r.spec_table()) == "call_center"@,
        r is CatalogPage <==> r.spec_table() == Table::CatalogPage,
        r is CatalogPage ==> table_name(r.spec_table()) == "catalog_page"@,
        r is CatalogReturns <==> r.spec_table() == Table::CatalogReturns,
        r is CatalogReturns ==> table_name(r.spec_table()) == "catalog_returns"@,
        r is CatalogSales <==> r.spec_table() == Table::CatalogSales,
        r is CatalogSales ==> table_name(r.spec_table()) == "catalog_sales"@,
        r is Customer <==> r.spec_table() == Table::Customer,
        r is Customer ==> table_name(r.spec_table()) == "customer"@,
        r is CustomerAddress <==> r.spec_table() == Table::CustomerAddress,
        r is CustomerAddress ==> table_name(r.spec_table()) == "customer_address"@,
        r is CustomerDemographics <==> r.spec_table() == Table::CustomerDemographics,
        r is CustomerDemographics ==> table_name(r.spec_table()) == "customer_demographics"@,
        r is DateDim <==> r.spec_table() == Table::DateDim,
        r is DateDim ==> table_name(r.spec_table()) == "date_dim"@,
        r is HouseholdDemographics <==> r.spec_table() == Table::HouseholdDemographics,
        r is HouseholdDemographics ==> table_name(r.spec_table()) == "household_demographics"@,
        r is IncomeBand <==> r.spec_table() == Table::IncomeBand,
        r is IncomeBand ==> table_name(r.spec_table()) == "income_band"@,
        r is Inventory <==> r.spec_table() == Table::Inventory,
        r is Inventory ==> table_name(r.spec_table()) == "inventory"@,
        r is Item <==> r.spec_table() == Table::Item,
        r is Item ==> table_name(r.spec_table()) == "item"@,
        r is Promotion <==> r.spec_table() == Table::Promotion,
        r is Promotion ==> table_name(r.spec_table()) == "promotion"@,
        r is Reason <==> r.spec_table() == Table::Reason,
        r is Reason ==> table_name(r.spec_table()) == "reason"@,
        r is ShipMode <==> r.spec_table() == Table::ShipMode,
        r is ShipMode ==> table_name(r.spec_table()) == "ship_mode"@,
        r is Store <==> r.spec_table() == Table::Store,
        r is Store ==> table_name(r.spec_table()) == "store"@,
        r is StoreReturns <==> r.spec_table() == Table::StoreReturns,
        r is StoreReturns ==> table_name(r.spec_table()) == "store_returns"@,
        r is StoreSales <==> r.spec_table() == Table::StoreSales,
        r is StoreSales ==> table_name(r.spec_table()) == "store_sales"@,
        r is TimeDim <==> r.spec_table() == Table::TimeDim,
        r is TimeDim ==> table_name(r.spec_table()) == "time_dim"@,
        r is Warehouse <==> r.spec_table() == Table::Warehouse,
        r is Warehouse ==> table_name(r.spec_table()) == "warehouse"@,
        r is WebPage <==> r.spec_table() == Table::WebPage,
        r is WebPage ==> table_name(r.spec_table()) == "web_page"@,
        r is WebReturns <==> r.spec_table() == Table::WebReturns,
        r is WebReturns ==> table_name(r.spec_table()) == "web_returns"@,
        r is WebSales <==> r.spec_table() == Table::WebSales,
        r is WebSales ==> table_name(r.spec_table()) == "web_sales"@,
        r is WebSite <==> r.spec_table() == Table::WebSite,
        r is WebSite ==> table_name(r.spec_table()) == "web_site"@,
        r is DbgenVersion <==> r.spec_table() == Table::DbgenVersion,
        r is DbgenVersion ==> table_name(r.spec_table()) == "dbgen_version"@,
{
}

} // verus!
