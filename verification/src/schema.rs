//! The column names of the TPC-DS tables, as their Arrow schemas list them,
//! and the law that each table's CSV header names exactly these columns.
use vstd::prelude::*;

use crate::csv::{join_with, split_commas, table_header};
use crate::tpcds_table::Table;

verus! {

/// The column names of `t`'s Arrow schema, in schema order.
pub open spec fn schema_columns(t: Table) -> Seq<Seq<char>> {
    match t {
        Table::CallCenter => seq![
            "cc_call_center_sk"@,
            "cc_call_center_id"@,
            "cc_rec_start_date"@,
            "cc_rec_end_date"@,
            "cc_closed_date_sk"@,
            "cc_open_date_sk"@,
            "cc_name"@,
            "cc_class"@,
            "cc_employees"@,
            "cc_sq_ft"@,
            "cc_hours"@,
            "cc_manager"@,
            "cc_mkt_id"@,
            "cc_mkt_class"@,
            "cc_mkt_desc"@,
            "cc_market_manager"@,
            "cc_division"@,
            "cc_division_name"@,
            "cc_company"@,
            "cc_company_name"@,
            "cc_street_number"@,
            "cc_street_name"@,
            "cc_street_type"@,
            "cc_suite_number"@,
            "cc_city"@,
            "cc_county"@,
            "cc_state"@,
            "cc_zip"@,
            "cc_country"@,
            "cc_gmt_offset"@,
            "cc_tax_percentage"@,
        ],
        Table::CatalogPage => seq![
            "cp_catalog_page_sk"@,
            "cp_catalog_page_id"@,
            "cp_start_date_sk"@,
            "cp_end_date_sk"@,
            "cp_department"@,
            "cp_catalog_number"@,
            "cp_catalog_page_number"@,
            "cp_description"@,
            "cp_type"@,
        ],
        Table::CatalogReturns => seq![
            "cr_returned_date_sk"@,
            "cr_returned_time_sk"@,
            "cr_item_sk"@,
            "cr_refunded_customer_sk"@,
            "cr_refunded_cdemo_sk"@,
            "cr_refunded_hdemo_sk"@,
            "cr_refunded_addr_sk"@,
            "cr_returning_customer_sk"@,
            "cr_returning_cdemo_sk"@,
            "cr_returning_hdemo_sk"@,
            "cr_returning_addr_sk"@,
            "cr_call_center_sk"@,
            "cr_catalog_page_sk"@,
            "cr_ship_mode_sk"@,
            "cr_warehouse_sk"@,
            "cr_reason_sk"@,
            "cr_order_number"@,
            "cr_return_quantity"@,
            "cr_return_amount"@,
            "cr_return_tax"@,
            "cr_return_amt_inc_tax"@,
            "cr_fee"@,
            "cr_return_ship_cost"@,
            "cr_refunded_cash"@,
            "cr_reversed_charge"@,
            "cr_store_credit"@,
            "cr_net_loss"@,
        ],
        Table::CatalogSales => seq![
            "cs_sold_date_sk"@,
            "cs_sold_time_sk"@,
            "cs_ship_date_sk"@,
            "cs_bill_customer_sk"@,
            "cs_bill_cdemo_sk"@,
            "cs_bill_hdemo_sk"@,
            "cs_bill_addr_sk"@,
            "cs_ship_customer_sk"@,
            "cs_ship_cdemo_sk"@,
            "cs_ship_hdemo_sk"@,
            "cs_ship_addr_sk"@,
            "cs_call_center_sk"@,
            "cs_catalog_page_sk"@,
            "cs_ship_mode_sk"@,
            "cs_warehouse_sk"@,
            "cs_item_sk"@,
            "cs_promo_sk"@,
            "cs_order_number"@,
            "cs_quantity"@,
            "cs_wholesale_cost"@,
            "cs_list_price"@,
            "cs_sales_price"@,
            "cs_ext_discount_amt"@,
            "cs_ext_sales_price"@,
            "cs_ext_wholesale_cost"@,
            "cs_ext_list_price"@,
            "cs_ext_tax"@,
            "cs_coupon_amt"@,
            "cs_ext_ship_cost"@,
            "cs_net_paid"@,
            "cs_net_paid_inc_tax"@,
            "cs_net_paid_inc_ship"@,
            "cs_net_paid_inc_ship_tax"@,
            "cs_net_profit"@,
        ],
        Table::Customer => seq![
            "c_customer_sk"@,
            "c_customer_id"@,
            "c_current_cdemo_sk"@,
            "c_current_hdemo_sk"@,
            "c_current_addr_sk"@,
            "c_first_shipto_date_sk"@,
            "c_first_sales_date_sk"@,
            "c_salutation"@,
            "c_first_name"@,
            "c_last_name"@,
            "c_preferred_cust_flag"@,
            "c_birth_day"@,
            "c_birth_month"@,
            "c_birth_year"@,
            "c_birth_country"@,
            "c_login"@,
            "c_email_address"@,
            "c_last_review_date_sk"@,
        ],
        Table::CustomerAddress => seq![
            "ca_address_sk"@,
            "ca_address_id"@,
            "ca_street_number"@,
            "ca_street_name"@,
            "ca_street_type"@,
            "ca_suite_number"@,
            "ca_city"@,
            "ca_county"@,
            "ca_state"@,
            "ca_zip"@,
            "ca_country"@,
            "ca_gmt_offset"@,
            "ca_location_type"@,
        ],
        Table::CustomerDemographics => seq![
            "cd_demo_sk"@,
            "cd_gender"@,
            "cd_marital_status"@,
            "cd_education_status"@,
            "cd_purchase_estimate"@,
            "cd_credit_rating"@,
            "cd_dep_count"@,
            "cd_dep_employed_count"@,
            "cd_dep_college_count"@,
        ],
        Table::DateDim => seq![
            "d_date_sk"@,
            "d_date_id"@,
            "d_date"@,
            "d_month_seq"@,
            "d_week_seq"@,
            "d_quarter_seq"@,
            "d_year"@,
            "d_dow"@,
            "d_moy"@,
            "d_dom"@,
            "d_qoy"@,
            "d_fy_year"@,
            "d_fy_quarter_seq"@,
            "d_fy_week_seq"@,
            "d_day_name"@,
            "d_quarter_name"@,
            "d_holiday"@,
            "d_weekend"@,
            "d_following_holiday"@,
            "d_first_dom"@,
            "d_last_dom"@,
            "d_same_day_ly"@,
            "d_same_day_lq"@,
            "d_current_day"@,
            "d_current_week"@,
            "d_current_month"@,
            "d_current_quarter"@,
            "d_current_year"@,
        ],
        Table::DbgenVersion => seq![
            "dv_version"@,
            "dv_create_date"@,
            "dv_create_time"@,
            "dv_cmdline_args"@,
        ],
        Table::HouseholdDemographics => seq![
            "hd_demo_sk"@,
            "hd_income_band_sk"@,
            "hd_buy_potential"@,
            "hd_dep_count"@,
            "hd_vehicle_count"@,
        ],
        Table::IncomeBand => seq![
            "ib_income_band_sk"@,
            "ib_lower_bound"@,
            "ib_upper_bound"@,
        ],
        Table::Inventory => seq![
            "inv_date_sk"@,
            "inv_item_sk"@,
            "inv_warehouse_sk"@,
            "inv_quantity_on_hand"@,
        ],
        Table::Item => seq![
            "i_item_sk"@,
            "i_item_id"@,
            "i_rec_start_date"@,
            "i_rec_end_date"@,
            "i_item_desc"@,
            "i_current_price"@,
            "i_wholesale_cost"@,
            "i_brand_id"@,
            "i_brand"@,
            "i_class_id"@,
            "i_class"@,
            "i_category_id"@,
            "i_category"@,
            "i_manufact_id"@,
            "i_manufact"@,
            "i_size"@,
            "i_formulation"@,
            "i_color"@,
            "i_units"@,
            "i_container"@,
            "i_manager_id"@,
            "i_product_name"@,
        ],
        Table::Promotion => seq![
            "p_promo_sk"@,
            "p_promo_id"@,
            "p_start_date_sk"@,
            "p_end_date_sk"@,
            "p_item_sk"@,
            "p_cost"@,
            "p_response_target"@,
            "p_promo_name"@,
            "p_channel_dmail"@,
            "p_channel_email"@,
            "p_channel_catalog"@,
            "p_channel_tv"@,
            "p_channel_radio"@,
            "p_channel_press"@,
            "p_channel_event"@,
            "p_channel_demo"@,
            "p_channel_details"@,
            "p_purpose"@,
            "p_discount_active"@,
        ],
        Table::Reason => seq![
            "r_reason_sk"@,
            "r_reason_id"@,
            "r_reason_desc"@,
        ],
        Table::ShipMode => seq![
            "sm_ship_mode_sk"@,
            "sm_ship_mode_id"@,
            "sm_type"@,
            "sm_code"@,
            "sm_carrier"@,
            "sm_contract"@,
        ],
        Table::Store => seq![
            "s_store_sk"@,
            "s_store_id"@,
            "s_rec_start_date"@,
            "s_rec_end_date"@,
            "s_closed_date_sk"@,
            "s_store_name"@,
            "s_number_employees"@,
            "s_floor_space"@,
            "s_hours"@,
            "s_manager"@,
            "s_market_id"@,
            "s_geography_class"@,
            "s_market_desc"@,
            "s_market_manager"@,
            "s_division_id"@,
            "s_division_name"@,
            "s_company_id"@,
            "s_company_name"@,
            "s_street_number"@,
            "s_street_name"@,
            "s_street_type"@,
            "s_suite_number"@,
            "s_city"@,
            "s_county"@,
            "s_state"@,
            "s_zip"@,
            "s_country"@,
            "s_gmt_offset"@,
            "s_tax_precentage"@,
        ],
        Table::StoreReturns => seq![
            "sr_returned_date_sk"@,
            "sr_return_time_sk"@,
            "sr_item_sk"@,
            "sr_customer_sk"@,
            "sr_cdemo_sk"@,
            "sr_hdemo_sk"@,
            "sr_addr_sk"@,
            "sr_store_sk"@,
            "sr_reason_sk"@,
            "sr_ticket_number"@,
            "sr_return_quantity"@,
            "sr_return_amt"@,
            "sr_return_tax"@,
            "sr_return_amt_inc_tax"@,
            "sr_fee"@,
            "sr_return_ship_cost"@,
            "sr_refunded_cash"@,
            "sr_reversed_charge"@,
            "sr_store_credit"@,
            "sr_net_loss"@,
        ],
        Table::StoreSales => seq![
            "ss_sold_date_sk"@,
            "ss_sold_time_sk"@,
            "ss_item_sk"@,
            "ss_customer_sk"@,
            "ss_cdemo_sk"@,
            "ss_hdemo_sk"@,
            "ss_addr_sk"@,
            "ss_store_sk"@,
            "ss_promo_sk"@,
            "ss_ticket_number"@,
            "ss_quantity"@,
            "ss_wholesale_cost"@,
            "ss_list_price"@,
            "ss_sales_price"@,
            "ss_ext_discount_amt"@,
            "ss_ext_sales_price"@,
            "ss_ext_wholesale_cost"@,
            "ss_ext_list_price"@,
            "ss_ext_tax"@,
            "ss_coupon_amt"@,
            "ss_net_paid"@,
            "ss_net_paid_inc_tax"@,
            "ss_net_profit"@,
        ],
        Table::TimeDim => seq![
            "t_time_sk"@,
            "t_time_id"@,
            "t_time"@,
            "t_hour"@,
            "t_minute"@,
            "t_second"@,
            "t_am_pm"@,
            "t_shift"@,
            "t_sub_shift"@,
            "t_meal_time"@,
        ],
        Table::Warehouse => seq![
            "w_warehouse_sk"@,
            "w_warehouse_id"@,
            "w_warehouse_name"@,
            "w_warehouse_sq_ft"@,
            "w_street_number"@,
            "w_street_name"@,
            "w_street_type"@,
            "w_suite_number"@,
            "w_city"@,
            "w_county"@,
            "w_state"@,
            "w_zip"@,
            "w_country"@,
            "w_gmt_offset"@,
        ],
        Table::WebPage => seq![
            "wp_web_page_sk"@,
            "wp_web_page_id"@,
            "wp_rec_start_date"@,
            "wp_rec_end_date"@,
            "wp_creation_date_sk"@,
            "wp_access_date_sk"@,
            "wp_autogen_flag"@,
            "wp_customer_sk"@,
            "wp_url"@,
            "wp_type"@,
            "wp_char_count"@,
            "wp_link_count"@,
            "wp_image_count"@,
            "wp_max_ad_count"@,
        ],
        Table::WebReturns => seq![
            "wr_returned_date_sk"@,
            "wr_returned_time_sk"@,
            "wr_item_sk"@,
            "wr_refunded_customer_sk"@,
            "wr_refunded_cdemo_sk"@,
            "wr_refunded_hdemo_sk"@,
            "wr_refunded_addr_sk"@,
            "wr_returning_customer_sk"@,
            "wr_returning_cdemo_sk"@,
            "wr_returning_hdemo_sk"@,
            "wr_returning_addr_sk"@,
            "wr_web_page_sk"@,
            "wr_reason_sk"@,
            "wr_order_number"@,
            "wr_return_quantity"@,
            "wr_return_amt"@,
            "wr_return_tax"@,
            "wr_return_amt_inc_tax"@,
            "wr_fee"@,
            "wr_return_ship_cost"@,
            "wr_refunded_cash"@,
            "wr_reversed_charge"@,
            "wr_account_credit"@,
            "wr_net_loss"@,
        ],
        Table::WebSales => seq![
            "ws_sold_date_sk"@,
            "ws_sold_time_sk"@,
            "ws_ship_date_sk"@,
            "ws_item_sk"@,
            "ws_bill_customer_sk"@,
            "ws_bill_cdemo_sk"@,
            "ws_bill_hdemo_sk"@,
            "ws_bill_addr_sk"@,
            "ws_ship_customer_sk"@,
            "ws_ship_cdemo_sk"@,
            "ws_ship_hdemo_sk"@,
            "ws_ship_addr_sk"@,
            "ws_web_page_sk"@,
            "ws_web_site_sk"@,
            "ws_ship_mode_sk"@,
            "ws_warehouse_sk"@,
            "ws_promo_sk"@,
            "ws_order_number"@,
            "ws_quantity"@,
            "ws_wholesale_cost"@,
            "ws_list_price"@,
            "ws_sales_price"@,
            "ws_ext_discount_amt"@,
            "ws_ext_sales_price"@,
            "ws_ext_wholesale_cost"@,
            "ws_ext_list_price"@,
            "ws_ext_tax"@,
            "ws_coupon_amt"@,
            "ws_ext_ship_cost"@,
            "ws_net_paid"@,
            "ws_net_paid_inc_tax"@,
            "ws_net_paid_inc_ship"@,
            "ws_net_paid_inc_ship_tax"@,
            "ws_net_profit"@,
        ],
        Table::WebSite => seq![
            "web_site_sk"@,
            "web_site_id"@,
            "web_rec_start_date"@,
            "web_rec_end_date"@,
            "web_name"@,
            "web_open_date_sk"@,
            "web_close_date_sk"@,
            "web_class"@,
            "web_manager"@,
            "web_mkt_id"@,
            "web_mkt_class"@,
            "web_mkt_desc"@,
            "web_market_manager"@,
            "web_company_id"@,
            "web_company_name"@,
            "web_street_number"@,
            "web_street_name"@,
            "web_street_type"@,
            "web_suite_number"@,
            "web_city"@,
            "web_county"@,
            "web_state"@,
            "web_zip"@,
            "web_country"@,
            "web_gmt_offset"@,
            "web_tax_percentage"@,
        ],
    }
}

/// The columns of `t`'s Arrow schema whose type follows the column type
/// settings (decimal or date columns), in schema order; none for a table
/// whose schema has no such column or is not among the readers at hand.
pub open spec fn typed_columns(t: Table) -> Seq<Seq<char>> {
    match t {
        Table::CallCenter => seq![],
        Table::CatalogPage => seq![],
        Table::CatalogReturns => seq!["cr_return_amount"@, "cr_return_tax"@, "cr_return_amt_inc_tax"@, "cr_fee"@, "cr_return_ship_cost"@, "cr_refunded_cash"@, "cr_reversed_charge"@, "cr_store_credit"@, "cr_net_loss"@],
        Table::CatalogSales => seq!["cs_wholesale_cost"@, "cs_list_price"@, "cs_sales_price"@, "cs_ext_discount_amt"@, "cs_ext_sales_price"@, "cs_ext_wholesale_cost"@, "cs_ext_list_price"@, "cs_ext_tax"@, "cs_coupon_amt"@, "cs_ext_ship_cost"@, "cs_net_paid"@, "cs_net_paid_inc_tax"@, "cs_net_paid_inc_ship"@, "cs_net_paid_inc_ship_tax"@, "cs_net_profit"@],
        Table::Customer => seq![],
        Table::CustomerAddress => seq![],
        Table::CustomerDemographics => seq![],
        Table::DateDim => seq!["d_date"@],
        Table::DbgenVersion => seq!["dv_create_date"@],
        Table::HouseholdDemographics => seq![],
        Table::IncomeBand => seq![],
        Table::Inventory => seq![],
        Table::Item => seq![],
        Table::Promotion => seq!["p_cost"@],
        Table::Reason => seq![],
        Table::ShipMode => seq![],
        Table::Store => seq!["s_rec_start_date"@, "s_rec_end_date"@, "s_tax_precentage"@],
        Table::StoreReturns => seq!["sr_return_amt"@, "sr_return_tax"@, "sr_return_amt_inc_tax"@, "sr_fee"@, "sr_return_ship_cost"@, "sr_refunded_cash"@, "sr_reversed_charge"@, "sr_store_credit"@, "sr_net_loss"@],
        Table::StoreSales => seq!["ss_wholesale_cost"@, "ss_list_price"@, "ss_sales_price"@, "ss_ext_discount_amt"@, "ss_ext_sales_price"@, "ss_ext_wholesale_cost"@, "ss_ext_list_price"@, "ss_ext_tax"@, "ss_coupon_amt"@, "ss_net_paid"@, "ss_net_paid_inc_tax"@, "ss_net_profit"@],
        Table::TimeDim => seq![],
        Table::Warehouse => seq![],
        Table::WebPage => seq!["wp_rec_start_date"@, "wp_rec_end_date"@],
        Table::WebReturns => seq![],
        Table::WebSales => seq!["ws_wholesale_cost"@, "ws_list_price"@, "ws_sales_price"@, "ws_ext_discount_amt"@, "ws_ext_sales_price"@, "ws_ext_wholesale_cost"@, "ws_ext_list_price"@, "ws_ext_tax"@, "ws_coupon_amt"@, "ws_ext_ship_cost"@, "ws_net_paid"@, "ws_net_paid_inc_tax"@, "ws_net_paid_inc_ship"@, "ws_net_paid_inc_ship_tax"@, "ws_net_profit"@],
        Table::WebSite => seq![],
    }
}

/// Whether `t`'s column names and typed columns above come from its Arrow
/// reader; for the other tables they come from its CSV header, with no
/// typed column known.
pub open spec fn schema_at_hand(t: Table) -> bool {
    match t {
        Table::CatalogPage | Table::CatalogReturns | Table::CatalogSales | Table::Customer | Table::CustomerAddress | Table::CustomerDemographics | Table::DateDim | Table::DbgenVersion | Table::HouseholdDemographics | Table::IncomeBand | Table::Inventory | Table::Promotion | Table::Store | Table::StoreReturns | Table::StoreSales | Table::TimeDim | Table::WebPage | Table::WebSales => true,
        _ => false,
    }
}

/// Whether no name contains a comma.
pub open spec fn comma_free(names: Seq<Seq<char>>) -> bool {
    forall|i: int| 0 <= i < names.len() ==> !(#[trigger] names[i]).contains(',')
}

/// A text without commas splits into itself alone.
proof fn lemma_split_comma_free(b: Seq<char>)
    requires
        !b.contains(','),
    ensures
        split_commas(b) == seq![b],
    decreases b.len(),
{
    if b.len() > 0 {
        let t = b.drop_last();
        assert(!t.contains(',')) by {
            if t.contains(',') {
                let k = choose|k: int| 0 <= k < t.len() && t[k] == ',';
                assert(b[k] == ',');
            }
        }
        lemma_split_comma_free(t);
        assert(b[b.len() - 1] != ',');
        assert(t.push(b.last()) =~= b);
    } else {
        assert(b =~= Seq::<char>::empty());
    }
}

/// Splitting `a`, a comma, then a text without commas gives the parts of
/// `a` followed by that text.
proof fn lemma_split_after_comma(a: Seq<char>, b: Seq<char>)
    requires
        !b.contains(','),
    ensures
        split_commas(a.push(',') + b) == split_commas(a).push(b),
    decreases b.len(),
{
    if b.len() == 0 {
        assert(a.push(',') + b =~= a.push(','));
        assert(a.push(',').drop_last() =~= a);
        assert(b =~= Seq::<char>::empty());
        assert(split_commas(a.push(',')) == split_commas(a).push(seq![]));
    } else {
        let t = b.drop_last();
        assert(!t.contains(',')) by {
            if t.contains(',') {
                let k = choose|k: int| 0 <= k < t.len() && t[k] == ',';
                assert(b[k] == ',');
            }
        }
        lemma_split_after_comma(a, t);
        let x = a.push(',') + b;
        assert(x.drop_last() =~= a.push(',') + t);
        assert(x.last() == b[b.len() - 1]);
        assert(b[b.len() - 1] != ',') by {
            if b[b.len() - 1] == ',' {
                assert(b.contains(','));
            }
        }
        assert(t.push(b.last()) =~= b);
        let p = split_commas(a.push(',') + t);
        assert(p == split_commas(a).push(t));
        assert(split_commas(x) == p.update(p.len() - 1, p.last().push(x.last())));
        assert(split_commas(x) =~= split_commas(a).push(b));
    }
}

/// Joining comma-free names with commas and splitting on commas gives the
/// names back.
pub proof fn lemma_split_joined_names(names: Seq<Seq<char>>)
    requires
        names.len() >= 1,
        comma_free(names),
    ensures
        split_commas(join_with(names, ',')) == names,
    decreases names.len(),
{
    if names.len() == 1 {
        lemma_split_comma_free(names[0]);
        assert(seq![names[0]] =~= names);
    } else {
        let p = names.drop_last();
        assert(comma_free(p)) by {
            assert forall|i: int| 0 <= i < p.len() implies !(#[trigger] p[i]).contains(',') by {
                assert(p[i] == names[i]);
            }
        }
        lemma_split_joined_names(p);
        assert(!names[names.len() - 1].contains(','));
        lemma_split_after_comma(join_with(p, ','), names.last());
        assert(p.push(names.last()) =~= names);
    }
}

/// The `call_center` CSV header names the columns of its schema.
#[verifier::rlimit(100)]
proof fn lemma_call_center_header()
    ensures
        table_header(Table::CallCenter) == join_with(schema_columns(Table::CallCenter), ','),
{
    reveal_strlit("cc_call_center_sk,cc_call_center_id,cc_rec_start_date,cc_rec_end_date,cc_closed_date_sk,cc_open_date_sk,cc_name,cc_class,cc_employees,cc_sq_ft,cc_hours,cc_manager,cc_mkt_id,cc_mkt_class,cc_mkt_desc,cc_market_manager,cc_division,cc_division_name,cc_company,cc_company_name,cc_street_number,cc_street_name,cc_street_type,cc_suite_number,cc_city,cc_county,cc_state,cc_zip,cc_country,cc_gmt_offset,cc_tax_percentage");
        reveal_strlit("cc_call_center_sk");
        reveal_strlit("cc_call_center_id");
        reveal_strlit("cc_rec_start_date");
        reveal_strlit("cc_rec_end_date");
        reveal_strlit("cc_closed_date_sk");
        reveal_strlit("cc_open_date_sk");
        reveal_strlit("cc_name");
        reveal_strlit("cc_class");
        reveal_strlit("cc_employees");
        reveal_strlit("cc_sq_ft");
        reveal_strlit("cc_hours");
        reveal_strlit("cc_manager");
        reveal_strlit("cc_mkt_id");
        reveal_strlit("cc_mkt_class");
        reveal_strlit("cc_mkt_desc");
        reveal_strlit("cc_market_manager");
        reveal_strlit("cc_division");
        reveal_strlit("cc_division_name");
        reveal_strlit("cc_company");
        reveal_strlit("cc_company_name");
        reveal_strlit("cc_street_number");
        reveal_strlit("cc_street_name");
        reveal_strlit("cc_street_type");
        reveal_strlit("cc_suite_number");
        reveal_strlit("cc_city");
        reveal_strlit("cc_county");
        reveal_strlit("cc_state");
        reveal_strlit("cc_zip");
        reveal_strlit("cc_country");
        reveal_strlit("cc_gmt_offset");
        reveal_strlit("cc_tax_percentage");
    reveal_with_fuel(join_with, 32);
    assert(join_with(schema_columns(Table::CallCenter), ',') =~= table_header(Table::CallCenter));
}

/// No `call_center` column name holds a comma.
#[verifier::rlimit(100)]
proof fn lemma_call_center_comma_free()
    ensures
        comma_free(schema_columns(Table::CallCenter)),
{
    assert(!"cc_call_center_sk"@.contains(',')) by {
        reveal_strlit("cc_call_center_sk");
    }
    assert(!"cc_call_center_id"@.contains(',')) by {
        reveal_strlit("cc_call_center_id");
    }
    assert(!"cc_rec_start_date"@.contains(',')) by {
        reveal_strlit("cc_rec_start_date");
    }
    assert(!"cc_rec_end_date"@.contains(',')) by {
        reveal_strlit("cc_rec_end_date");
    }
    assert(!"cc_closed_date_sk"@.contains(',')) by {
        reveal_strlit("cc_closed_date_sk");
    }
    assert(!"cc_open_date_sk"@.contains(',')) by {
        reveal_strlit("cc_open_date_sk");
    }
    assert(!"cc_name"@.contains(',')) by {
        reveal_strlit("cc_name");
    }
    assert(!"cc_class"@.contains(',')) by {
        reveal_strlit("cc_class");
    }
    assert(!"cc_employees"@.contains(',')) by {
        reveal_strlit("cc_employees");
    }
    assert(!"cc_sq_ft"@.contains(',')) by {
        reveal_strlit("cc_sq_ft");
    }
    assert(!"cc_hours"@.contains(',')) by {
        reveal_strlit("cc_hours");
    }
    assert(!"cc_manager"@.contains(',')) by {
        reveal_strlit("cc_manager");
    }
    assert(!"cc_mkt_id"@.contains(',')) by {
        reveal_strlit("cc_mkt_id");
    }
    assert(!"cc_mkt_class"@.contains(',')) by {
        reveal_strlit("cc_mkt_class");
    }
    assert(!"cc_mkt_desc"@.contains(',')) by {
        reveal_strlit("cc_mkt_desc");
    }
    assert(!"cc_market_manager"@.contains(',')) by {
        reveal_strlit("cc_market_manager");
    }
    assert(!"cc_division"@.contains(',')) by {
        reveal_strlit("cc_division");
    }
    assert(!"cc_division_name"@.contains(',')) by {
        reveal_strlit("cc_division_name");
    }
    assert(!"cc_company"@.contains(',')) by {
        reveal_strlit("cc_company");
    }
    assert(!"cc_company_name"@.contains(',')) by {
        reveal_strlit("cc_company_name");
    }
    assert(!"cc_street_number"@.contains(',')) by {
        reveal_strlit("cc_street_number");
    }
    assert(!"cc_street_name"@.contains(',')) by {
        reveal_strlit("cc_street_name");
    }
    assert(!"cc_street_type"@.contains(',')) by {
        reveal_strlit("cc_street_type");
    }
    assert(!"cc_suite_number"@.contains(',')) by {
        reveal_strlit("cc_suite_number");
    }
    assert(!"cc_city"@.contains(',')) by {
        reveal_strlit("cc_city");
    }
    assert(!"cc_county"@.contains(',')) by {
        reveal_strlit("cc_county");
    }
    assert(!"cc_state"@.contains(',')) by {
        reveal_strlit("cc_state");
    }
    assert(!"cc_zip"@.contains(',')) by {
        reveal_strlit("cc_zip");
    }
    assert(!"cc_country"@.contains(',')) by {
        reveal_strlit("cc_country");
    }
    assert(!"cc_gmt_offset"@.contains(',')) by {
        reveal_strlit("cc_gmt_offset");
    }
    assert(!"cc_tax_percentage"@.contains(',')) by {
        reveal_strlit("cc_tax_percentage");
    }
    assert(comma_free(schema_columns(Table::CallCenter)));
}

/// The `catalog_page` CSV header names the columns of its schema.
#[verifier::rlimit(100)]
proof fn lemma_catalog_page_header()
    ensures
        table_header(Table::CatalogPage) == join_with(schema_columns(Table::CatalogPage), ','),
{
    reveal_strlit("cp_catalog_page_sk,cp_catalog_page_id,cp_start_date_sk,cp_end_date_sk,cp_department,cp_catalog_number,cp_catalog_page_number,cp_description,cp_type");
        reveal_strlit("cp_catalog_page_sk");
        reveal_strlit("cp_catalog_page_id");
        reveal_strlit("cp_start_date_sk");
        reveal_strlit("cp_end_date_sk");
        reveal_strlit("cp_department");
        reveal_strlit("cp_catalog_number");
        reveal_strlit("cp_catalog_page_number");
        reveal_strlit("cp_description");
        reveal_strlit("cp_type");
    reveal_with_fuel(join_with, 10);
    assert(join_with(schema_columns(Table::CatalogPage), ',') =~= table_header(Table::CatalogPage));
}

/// No `catalog_page` column name holds a comma.
#[verifier::rlimit(100)]
proof fn lemma_catalog_page_comma_free()
    ensures
        comma_free(schema_columns(Table::CatalogPage)),
{
    assert(!"cp_catalog_page_sk"@.contains(',')) by {
        reveal_strlit("cp_catalog_page_sk");
    }
    assert(!"cp_catalog_page_id"@.contains(',')) by {
        reveal_strlit("cp_catalog_page_id");
    }
    assert(!"cp_start_date_sk"@.contains(',')) by {
        reveal_strlit("cp_start_date_sk");
    }
    assert(!"cp_end_date_sk"@.contains(',')) by {
        reveal_strlit("cp_end_date_sk");
    }
    assert(!"cp_department"@.contains(',')) by {
        reveal_strlit("cp_department");
    }
    assert(!"cp_catalog_number"@.contains(',')) by {
        reveal_strlit("cp_catalog_number");
    }
    assert(!"cp_catalog_page_number"@.contains(',')) by {
        reveal_strlit("cp_catalog_page_number");
    }
    assert(!"cp_description"@.contains(',')) by {
        reveal_strlit("cp_description");
    }
    assert(!"cp_type"@.contains(',')) by {
        reveal_strlit("cp_type");
    }
    assert(comma_free(schema_columns(Table::CatalogPage)));
}

/// The `catalog_returns` CSV header names the columns of its schema.
#[verifier::rlimit(100)]
proof fn lemma_catalog_returns_header()
    ensures
        table_header(Table::CatalogReturns) == join_with(schema_columns(Table::CatalogReturns), ','),
{
    reveal_strlit("cr_returned_date_sk,cr_returned_time_sk,cr_item_sk,cr_refunded_customer_sk,cr_refunded_cdemo_sk,cr_refunded_hdemo_sk,cr_refunded_addr_sk,cr_returning_customer_sk,cr_returning_cdemo_sk,cr_returning_hdemo_sk,cr_returning_addr_sk,cr_call_center_sk,cr_catalog_page_sk,cr_ship_mode_sk,cr_warehouse_sk,cr_reason_sk,cr_order_number,cr_return_quantity,cr_return_amount,cr_return_tax,cr_return_amt_inc_tax,cr_fee,cr_return_ship_cost,cr_refunded_cash,cr_reversed_charge,cr_store_credit,cr_net_loss");
        reveal_strlit("cr_returned_date_sk");
        reveal_strlit("cr_returned_time_sk");
        reveal_strlit("cr_item_sk");
        reveal_strlit("cr_refunded_customer_sk");
        reveal_strlit("cr_refunded_cdemo_sk");
        reveal_strlit("cr_refunded_hdemo_sk");
        reveal_strlit("cr_refunded_addr_sk");
        reveal_strlit("cr_returning_customer_sk");
        reveal_strlit("cr_returning_cdemo_sk");
        reveal_strlit("cr_returning_hdemo_sk");
        reveal_strlit("cr_returning_addr_sk");
        reveal_strlit("cr_call_center_sk");
        reveal_strlit("cr_catalog_page_sk");
        reveal_strlit("cr_ship_mode_sk");
        reveal_strlit("cr_warehouse_sk");
        reveal_strlit("cr_reason_sk");
        reveal_strlit("cr_order_number");
        reveal_strlit("cr_return_quantity");
        reveal_strlit("cr_return_amount");
        reveal_strlit("cr_return_tax");
        reveal_strlit("cr_return_amt_inc_tax");
        reveal_strlit("cr_fee");
        reveal_strlit("cr_return_ship_cost");
        reveal_strlit("cr_refunded_cash");
        reveal_strlit("cr_reversed_charge");
        reveal_strlit("cr_store_credit");
        reveal_strlit("cr_net_loss");
    reveal_with_fuel(join_with, 28);
    assert(join_with(schema_columns(Table::CatalogReturns), ',') =~= table_header(Table::CatalogReturns));
}

/// No `catalog_returns` column name holds a comma.
#[verifier::rlimit(100)]
proof fn lemma_catalog_returns_comma_free()
    ensures
        comma_free(schema_columns(Table::CatalogReturns)),
{
    assert(!"cr_returned_date_sk"@.contains(',')) by {
        reveal_strlit("cr_returned_date_sk");
    }
    assert(!"cr_returned_time_sk"@.contains(',')) by {
        reveal_strlit("cr_returned_time_sk");
    }
    assert(!"cr_item_sk"@.contains(',')) by {
        reveal_strlit("cr_item_sk");
    }
    assert(!"cr_refunded_customer_sk"@.contains(',')) by {
        reveal_strlit("cr_refunded_customer_sk");
    }
    assert(!"cr_refunded_cdemo_sk"@.contains(',')) by {
        reveal_strlit("cr_refunded_cdemo_sk");
    }
    assert(!"cr_refunded_hdemo_sk"@.contains(',')) by {
        reveal_strlit("cr_refunded_hdemo_sk");
    }
    assert(!"cr_refunded_addr_sk"@.contains(',')) by {
        reveal_strlit("cr_refunded_addr_sk");
    }
    assert(!"cr_returning_customer_sk"@.contains(',')) by {
        reveal_strlit("cr_returning_customer_sk");
    }
    assert(!"cr_returning_cdemo_sk"@.contains(',')) by {
        reveal_strlit("cr_returning_cdemo_sk");
    }
    assert(!"cr_returning_hdemo_sk"@.contains(',')) by {
        reveal_strlit("cr_returning_hdemo_sk");
    }
    assert(!"cr_returning_addr_sk"@.contains(',')) by {
        reveal_strlit("cr_returning_addr_sk");
    }
    assert(!"cr_call_center_sk"@.contains(',')) by {
        reveal_strlit("cr_call_center_sk");
    }
    assert(!"cr_catalog_page_sk"@.contains(',')) by {
        reveal_strlit("cr_catalog_page_sk");
    }
    assert(!"cr_ship_mode_sk"@.contains(',')) by {
        reveal_strlit("cr_ship_mode_sk");
    }
    assert(!"cr_warehouse_sk"@.contains(',')) by {
        reveal_strlit("cr_warehouse_sk");
    }
    assert(!"cr_reason_sk"@.contains(',')) by {
        reveal_strlit("cr_reason_sk");
    }
    assert(!"cr_order_number"@.contains(',')) by {
        reveal_strlit("cr_order_number");
    }
    assert(!"cr_return_quantity"@.contains(',')) by {
        reveal_strlit("cr_return_quantity");
    }
    assert(!"cr_return_amount"@.contains(',')) by {
        reveal_strlit("cr_return_amount");
    }
    assert(!"cr_return_tax"@.contains(',')) by {
        reveal_strlit("cr_return_tax");
    }
    assert(!"cr_return_amt_inc_tax"@.contains(',')) by {
        reveal_strlit("cr_return_amt_inc_tax");
    }
    assert(!"cr_fee"@.contains(',')) by {
        reveal_strlit("cr_fee");
    }
    assert(!"cr_return_ship_cost"@.contains(',')) by {
        reveal_strlit("cr_return_ship_cost");
    }
    assert(!"cr_refunded_cash"@.contains(',')) by {
        reveal_strlit("cr_refunded_cash");
    }
    assert(!"cr_reversed_charge"@.contains(',')) by {
        reveal_strlit("cr_reversed_charge");
    }
    assert(!"cr_store_credit"@.contains(',')) by {
        reveal_strlit("cr_store_credit");
    }
    assert(!"cr_net_loss"@.contains(',')) by {
        reveal_strlit("cr_net_loss");
    }
    assert(comma_free(schema_columns(Table::CatalogReturns)));
}

/// The `catalog_sales` CSV header names the columns of its schema.
#[verifier::rlimit(100)]
proof fn lemma_catalog_sales_header()
    ensures
        table_header(Table::CatalogSales) == join_with(schema_columns(Table::CatalogSales), ','),
{
    reveal_strlit("cs_sold_date_sk,cs_sold_time_sk,cs_ship_date_sk,cs_bill_customer_sk,cs_bill_cdemo_sk,cs_bill_hdemo_sk,cs_bill_addr_sk,cs_ship_customer_sk,cs_ship_cdemo_sk,cs_ship_hdemo_sk,cs_ship_addr_sk,cs_call_center_sk,cs_catalog_page_sk,cs_ship_mode_sk,cs_warehouse_sk,cs_item_sk,cs_promo_sk,cs_order_number,cs_quantity,cs_wholesale_cost,cs_list_price,cs_sales_price,cs_ext_discount_amt,cs_ext_sales_price,cs_ext_wholesale_cost,cs_ext_list_price,cs_ext_tax,cs_coupon_amt,cs_ext_ship_cost,cs_net_paid,cs_net_paid_inc_tax,cs_net_paid_inc_ship,cs_net_paid_inc_ship_tax,cs_net_profit");
        reveal_strlit("cs_sold_date_sk");
        reveal_strlit("cs_sold_time_sk");
        reveal_strlit("cs_ship_date_sk");
        reveal_strlit("cs_bill_customer_sk");
        reveal_strlit("cs_bill_cdemo_sk");
        reveal_strlit("cs_bill_hdemo_sk");
        reveal_strlit("cs_bill_addr_sk");
        reveal_strlit("cs_ship_customer_sk");
        reveal_strlit("cs_ship_cdemo_sk");
        reveal_strlit("cs_ship_hdemo_sk");
        reveal_strlit("cs_ship_addr_sk");
        reveal_strlit("cs_call_center_sk");
        reveal_strlit("cs_catalog_page_sk");
        reveal_strlit("cs_ship_mode_sk");
        reveal_strlit("cs_warehouse_sk");
        reveal_strlit("cs_item_sk");
        reveal_strlit("cs_promo_sk");
        reveal_strlit("cs_order_number");
        reveal_strlit("cs_quantity");
        reveal_strlit("cs_wholesale_cost");
        reveal_strlit("cs_list_price");
        reveal_strlit("cs_sales_price");
        reveal_strlit("cs_ext_discount_amt");
        reveal_strlit("cs_ext_sales_price");
        reveal_strlit("cs_ext_wholesale_cost");
        reveal_strlit("cs_ext_list_price");
        reveal_strlit("cs_ext_tax");
        reveal_strlit("cs_coupon_amt");
        reveal_strlit("cs_ext_ship_cost");
        reveal_strlit("cs_net_paid");
        reveal_strlit("cs_net_paid_inc_tax");
        reveal_strlit("cs_net_paid_inc_ship");
        reveal_strlit("cs_net_paid_inc_ship_tax");
        reveal_strlit("cs_net_profit");
    reveal_with_fuel(join_with, 35);
    assert(join_with(schema_columns(Table::CatalogSales), ',') =~= table_header(Table::CatalogSales));
}

/// No `catalog_sales` column name holds a comma.
#[verifier::rlimit(100)]
proof fn lemma_catalog_sales_comma_free()
    ensures
        comma_free(schema_columns(Table::CatalogSales)),
{
    assert(!"cs_sold_date_sk"@.contains(',')) by {
        reveal_strlit("cs_sold_date_sk");
    }
    assert(!"cs_sold_time_sk"@.contains(',')) by {
        reveal_strlit("cs_sold_time_sk");
    }
    assert(!"cs_ship_date_sk"@.contains(',')) by {
        reveal_strlit("cs_ship_date_sk");
    }
    assert(!"cs_bill_customer_sk"@.contains(',')) by {
        reveal_strlit("cs_bill_customer_sk");
    }
    assert(!"cs_bill_cdemo_sk"@.contains(',')) by {
        reveal_strlit("cs_bill_cdemo_sk");
    }
    assert(!"cs_bill_hdemo_sk"@.contains(',')) by {
        reveal_strlit("cs_bill_hdemo_sk");
    }
    assert(!"cs_bill_addr_sk"@.contains(',')) by {
        reveal_strlit("cs_bill_addr_sk");
    }
    assert(!"cs_ship_customer_sk"@.contains(',')) by {
        reveal_strlit("cs_ship_customer_sk");
    }
    assert(!"cs_ship_cdemo_sk"@.contains(',')) by {
        reveal_strlit("cs_ship_cdemo_sk");
    }
    assert(!"cs_ship_hdemo_sk"@.contains(',')) by {
        reveal_strlit("cs_ship_hdemo_sk");
    }
    assert(!"cs_ship_addr_sk"@.contains(',')) by {
        reveal_strlit("cs_ship_addr_sk");
    }
    assert(!"cs_call_center_sk"@.contains(',')) by {
        reveal_strlit("cs_call_center_sk");
    }
    assert(!"cs_catalog_page_sk"@.contains(',')) by {
        reveal_strlit("cs_catalog_page_sk");
    }
    assert(!"cs_ship_mode_sk"@.contains(',')) by {
        reveal_strlit("cs_ship_mode_sk");
    }
    assert(!"cs_warehouse_sk"@.contains(',')) by {
        reveal_strlit("cs_warehouse_sk");
    }
    assert(!"cs_item_sk"@.contains(',')) by {
        reveal_strlit("cs_item_sk");
    }
    assert(!"cs_promo_sk"@.contains(',')) by {
        reveal_strlit("cs_promo_sk");
    }
    assert(!"cs_order_number"@.contains(',')) by {
        reveal_strlit("cs_order_number");
    }
    assert(!"cs_quantity"@.contains(',')) by {
        reveal_strlit("cs_quantity");
    }
    assert(!"cs_wholesale_cost"@.contains(',')) by {
        reveal_strlit("cs_wholesale_cost");
    }
    assert(!"cs_list_price"@.contains(',')) by {
        reveal_strlit("cs_list_price");
    }
    assert(!"cs_sales_price"@.contains(',')) by {
        reveal_strlit("cs_sales_price");
    }
    assert(!"cs_ext_discount_amt"@.contains(',')) by {
        reveal_strlit("cs_ext_discount_amt");
    }
    assert(!"cs_ext_sales_price"@.contains(',')) by {
        reveal_strlit("cs_ext_sales_price");
    }
    assert(!"cs_ext_wholesale_cost"@.contains(',')) by {
        reveal_strlit("cs_ext_wholesale_cost");
    }
    assert(!"cs_ext_list_price"@.contains(',')) by {
        reveal_strlit("cs_ext_list_price");
    }
    assert(!"cs_ext_tax"@.contains(',')) by {
        reveal_strlit("cs_ext_tax");
    }
    assert(!"cs_coupon_amt"@.contains(',')) by {
        reveal_strlit("cs_coupon_amt");
    }
    assert(!"cs_ext_ship_cost"@.contains(',')) by {
        reveal_strlit("cs_ext_ship_cost");
    }
    assert(!"cs_net_paid"@.contains(',')) by {
        reveal_strlit("cs_net_paid");
    }
    assert(!"cs_net_paid_inc_tax"@.contains(',')) by {
        reveal_strlit("cs_net_paid_inc_tax");
    }
    assert(!"cs_net_paid_inc_ship"@.contains(',')) by {
        reveal_strlit("cs_net_paid_inc_ship");
    }
    assert(!"cs_net_paid_inc_ship_tax"@.contains(',')) by {
        reveal_strlit("cs_net_paid_inc_ship_tax");
    }
    assert(!"cs_net_profit"@.contains(',')) by {
        reveal_strlit("cs_net_profit");
    }
    assert(comma_free(schema_columns(Table::CatalogSales)));
}

/// The `customer` CSV header names the columns of its schema.
#[verifier::rlimit(100)]
proof fn lemma_customer_header()
    ensures
        table_header(Table::Customer) == join_with(schema_columns(Table::Customer), ','),
{
    reveal_strlit("c_customer_sk,c_customer_id,c_current_cdemo_sk,c_current_hdemo_sk,c_current_addr_sk,c_first_shipto_date_sk,c_first_sales_date_sk,c_salutation,c_first_name,c_last_name,c_preferred_cust_flag,c_birth_day,c_birth_month,c_birth_year,c_birth_country,c_login,c_email_address,c_last_review_date_sk");
        reveal_strlit("c_customer_sk");
        reveal_strlit("c_customer_id");
        reveal_strlit("c_current_cdemo_sk");
        reveal_strlit("c_current_hdemo_sk");
        reveal_strlit("c_current_addr_sk");
        reveal_strlit("c_first_shipto_date_sk");
        reveal_strlit("c_first_sales_date_sk");
        reveal_strlit("c_salutation");
        reveal_strlit("c_first_name");
        reveal_strlit("c_last_name");
        reveal_strlit("c_preferred_cust_flag");
        reveal_strlit("c_birth_day");
        reveal_strlit("c_birth_month");
        reveal_strlit("c_birth_year");
        reveal_strlit("c_birth_country");
        reveal_strlit("c_login");
        reveal_strlit("c_email_address");
        reveal_strlit("c_last_review_date_sk");
    reveal_with_fuel(join_with, 19);
    assert(join_with(schema_columns(Table::Customer), ',') =~= table_header(Table::Customer));
}

/// No `customer` column name holds a comma.
#[verifier::rlimit(100)]
proof fn lemma_customer_comma_free()
    ensures
        comma_free(schema_columns(Table::Customer)),
{
    assert(!"c_customer_sk"@.contains(',')) by {
        reveal_strlit("c_customer_sk");
    }
    assert(!"c_customer_id"@.contains(',')) by {
        reveal_strlit("c_customer_id");
    }
    assert(!"c_current_cdemo_sk"@.contains(',')) by {
        reveal_strlit("c_current_cdemo_sk");
    }
    assert(!"c_current_hdemo_sk"@.contains(',')) by {
        reveal_strlit("c_current_hdemo_sk");
    }
    assert(!"c_current_addr_sk"@.contains(',')) by {
        reveal_strlit("c_current_addr_sk");
    }
    assert(!"c_first_shipto_date_sk"@.contains(',')) by {
        reveal_strlit("c_first_shipto_date_sk");
    }
    assert(!"c_first_sales_date_sk"@.contains(',')) by {
        reveal_strlit("c_first_sales_date_sk");
    }
    assert(!"c_salutation"@.contains(',')) by {
        reveal_strlit("c_salutation");
    }
    assert(!"c_first_name"@.contains(',')) by {
        reveal_strlit("c_first_name");
    }
    assert(!"c_last_name"@.contains(',')) by {
        reveal_strlit("c_last_name");
    }
    assert(!"c_preferred_cust_flag"@.contains(',')) by {
        reveal_strlit("c_preferred_cust_flag");
    }
    assert(!"c_birth_day"@.contains(',')) by {
        reveal_strlit("c_birth_day");
    }
    assert(!"c_birth_month"@.contains(',')) by {
        reveal_strlit("c_birth_month");
    }
    assert(!"c_birth_year"@.contains(',')) by {
        reveal_strlit("c_birth_year");
    }
    assert(!"c_birth_country"@.contains(',')) by {
        reveal_strlit("c_birth_country");
    }
    assert(!"c_login"@.contains(',')) by {
        reveal_strlit("c_login");
    }
    assert(!"c_email_address"@.contains(',')) by {
        reveal_strlit("c_email_address");
    }
    assert(!"c_last_review_date_sk"@.contains(',')) by {
        reveal_strlit("c_last_review_date_sk");
    }
    assert(comma_free(schema_columns(Table::Customer)));
}

/// The `customer_address` CSV header names the columns of its schema.
#[verifier::rlimit(100)]
proof fn lemma_customer_address_header()
    ensures
        table_header(Table::CustomerAddress) == join_with(schema_columns(Table::CustomerAddress), ','),
{
    reveal_strlit("ca_address_sk,ca_address_id,ca_street_number,ca_street_name,ca_street_type,ca_suite_number,ca_city,ca_county,ca_state,ca_zip,ca_country,ca_gmt_offset,ca_location_type");
        reveal_strlit("ca_address_sk");
        reveal_strlit("ca_address_id");
        reveal_strlit("ca_street_number");
        reveal_strlit("ca_street_name");
        reveal_strlit("ca_street_type");
        reveal_strlit("ca_suite_number");
        reveal_strlit("ca_city");
        reveal_strlit("ca_county");
        reveal_strlit("ca_state");
        reveal_strlit("ca_zip");
        reveal_strlit("ca_country");
        reveal_strlit("ca_gmt_offset");
        reveal_strlit("ca_location_type");
    reveal_with_fuel(join_with, 14);
    assert(join_with(schema_columns(Table::CustomerAddress), ',') =~= table_header(Table::CustomerAddress));
}

/// No `customer_address` column name holds a comma.
#[verifier::rlimit(100)]
proof fn lemma_customer_address_comma_free()
    ensures
        comma_free(schema_columns(Table::CustomerAddress)),
{
    assert(!"ca_address_sk"@.contains(',')) by {
        reveal_strlit("ca_address_sk");
    }
    assert(!"ca_address_id"@.contains(',')) by {
        reveal_strlit("ca_address_id");
    }
    assert(!"ca_street_number"@.contains(',')) by {
        reveal_strlit("ca_street_number");
    }
    assert(!"ca_street_name"@.contains(',')) by {
        reveal_strlit("ca_street_name");
    }
    assert(!"ca_street_type"@.contains(',')) by {
        reveal_strlit("ca_street_type");
    }
    assert(!"ca_suite_number"@.contains(',')) by {
        reveal_strlit("ca_suite_number");
    }
    assert(!"ca_city"@.contains(',')) by {
        reveal_strlit("ca_city");
    }
    assert(!"ca_county"@.contains(',')) by {
        reveal_strlit("ca_county");
    }
    assert(!"ca_state"@.contains(',')) by {
        reveal_strlit("ca_state");
    }
    assert(!"ca_zip"@.contains(',')) by {
        reveal_strlit("ca_zip");
    }
    assert(!"ca_country"@.contains(',')) by {
        reveal_strlit("ca_country");
    }
    assert(!"ca_gmt_offset"@.contains(',')) by {
        reveal_strlit("ca_gmt_offset");
    }
    assert(!"ca_location_type"@.contains(',')) by {
        reveal_strlit("ca_location_type");
    }
    assert(comma_free(schema_columns(Table::CustomerAddress)));
}

/// The `customer_demographics` CSV header names the columns of its schema.
#[verifier::rlimit(100)]
proof fn lemma_customer_demographics_header()
    ensures
        table_header(Table::CustomerDemographics) == join_with(schema_columns(Table::CustomerDemographics), ','),
{
    reveal_strlit("cd_demo_sk,cd_gender,cd_marital_status,cd_education_status,cd_purchase_estimate,cd_credit_rating,cd_dep_count,cd_dep_employed_count,cd_dep_college_count");
        reveal_strlit("cd_demo_sk");
        reveal_strlit("cd_gender");
        reveal_strlit("cd_marital_status");
        reveal_strlit("cd_education_status");
        reveal_strlit("cd_purchase_estimate");
        reveal_strlit("cd_credit_rating");
        reveal_strlit("cd_dep_count");
        reveal_strlit("cd_dep_employed_count");
        reveal_strlit("cd_dep_college_count");
    reveal_with_fuel(join_with, 10);
    assert(join_with(schema_columns(Table::CustomerDemographics), ',') =~= table_header(Table::CustomerDemographics));
}

/// No `customer_demographics` column name holds a comma.
#[verifier::rlimit(100)]
proof fn lemma_customer_demographics_comma_free()
    ensures
        comma_free(schema_columns(Table::CustomerDemographics)),
{
    assert(!"cd_demo_sk"@.contains(',')) by {
        reveal_strlit("cd_demo_sk");
    }
    assert(!"cd_gender"@.contains(',')) by {
        reveal_strlit("cd_gender");
    }
    assert(!"cd_marital_status"@.contains(',')) by {
        reveal_strlit("cd_marital_status");
    }
    assert(!"cd_education_status"@.contains(',')) by {
        reveal_strlit("cd_education_status");
    }
    assert(!"cd_purchase_estimate"@.contains(',')) by {
        reveal_strlit("cd_purchase_estimate");
    }
    assert(!"cd_credit_rating"@.contains(',')) by {
        reveal_strlit("cd_credit_rating");
    }
    assert(!"cd_dep_count"@.contains(',')) by {
        reveal_strlit("cd_dep_count");
    }
    assert(!"cd_dep_employed_count"@.contains(',')) by {
        reveal_strlit("cd_dep_employed_count");
    }
    assert(!"cd_dep_college_count"@.contains(',')) by {
        reveal_strlit("cd_dep_college_count");
    }
    assert(comma_free(schema_columns(Table::CustomerDemographics)));
}

/// The `date_dim` CSV header names the columns of its schema.
#[verifier::rlimit(100)]
proof fn lemma_date_dim_header()
    ensures
        table_header(Table::DateDim) == join_with(schema_columns(Table::DateDim), ','),
{
    reveal_strlit("d_date_sk,d_date_id,d_date,d_month_seq,d_week_seq,d_quarter_seq,d_year,d_dow,d_moy,d_dom,d_qoy,d_fy_year,d_fy_quarter_seq,d_fy_week_seq,d_day_name,d_quarter_name,d_holiday,d_weekend,d_following_holiday,d_first_dom,d_last_dom,d_same_day_ly,d_same_day_lq,d_current_day,d_current_week,d_current_month,d_current_quarter,d_current_year");
        reveal_strlit("d_date_sk");
        reveal_strlit("d_date_id");
        reveal_strlit("d_date");
        reveal_strlit("d_month_seq");
        reveal_strlit("d_week_seq");
        reveal_strlit("d_quarter_seq");
        reveal_strlit("d_year");
        reveal_strlit("d_dow");
        reveal_strlit("d_moy");
        reveal_strlit("d_dom");
        reveal_strlit("d_qoy");
        reveal_strlit("d_fy_year");
        reveal_strlit("d_fy_quarter_seq");
        reveal_strlit("d_fy_week_seq");
        reveal_strlit("d_day_name");
        reveal_strlit("d_quarter_name");
        reveal_strlit("d_holiday");
        reveal_strlit("d_weekend");
        reveal_strlit("d_following_holiday");
        reveal_strlit("d_first_dom");
        reveal_strlit("d_last_dom");
        reveal_strlit("d_same_day_ly");
        reveal_strlit("d_same_day_lq");
        reveal_strlit("d_current_day");
        reveal_strlit("d_current_week");
        reveal_strlit("d_current_month");
        reveal_strlit("d_current_quarter");
        reveal_strlit("d_current_year");
    reveal_with_fuel(join_with, 29);
    assert(join_with(schema_columns(Table::DateDim), ',') =~= table_header(Table::DateDim));
}

/// No `date_dim` column name holds a comma.
#[verifier::rlimit(100)]
proof fn lemma_date_dim_comma_free()
    ensures
        comma_free(schema_columns(Table::DateDim)),
{
    assert(!"d_date_sk"@.contains(',')) by {
        reveal_strlit("d_date_sk");
    }
    assert(!"d_date_id"@.contains(',')) by {
        reveal_strlit("d_date_id");
    }
    assert(!"d_date"@.contains(',')) by {
        reveal_strlit("d_date");
    }
    assert(!"d_month_seq"@.contains(',')) by {
        reveal_strlit("d_month_seq");
    }
    assert(!"d_week_seq"@.contains(',')) by {
        reveal_strlit("d_week_seq");
    }
    assert(!"d_quarter_seq"@.contains(',')) by {
        reveal_strlit("d_quarter_seq");
    }
    assert(!"d_year"@.contains(',')) by {
        reveal_strlit("d_year");
    }
    assert(!"d_dow"@.contains(',')) by {
        reveal_strlit("d_dow");
    }
    assert(!"d_moy"@.contains(',')) by {
        reveal_strlit("d_moy");
    }
    assert(!"d_dom"@.contains(',')) by {
        reveal_strlit("d_dom");
    }
    assert(!"d_qoy"@.contains(',')) by {
        reveal_strlit("d_qoy");
    }
    assert(!"d_fy_year"@.contains(',')) by {
        reveal_strlit("d_fy_year");
    }
    assert(!"d_fy_quarter_seq"@.contains(',')) by {
        reveal_strlit("d_fy_quarter_seq");
    }
    assert(!"d_fy_week_seq"@.contains(',')) by {
        reveal_strlit("d_fy_week_seq");
    }
    assert(!"d_day_name"@.contains(',')) by {
        reveal_strlit("d_day_name");
    }
    assert(!"d_quarter_name"@.contains(',')) by {
        reveal_strlit("d_quarter_name");
    }
    assert(!"d_holiday"@.contains(',')) by {
        reveal_strlit("d_holiday");
    }
    assert(!"d_weekend"@.contains(',')) by {
        reveal_strlit("d_weekend");
    }
    assert(!"d_following_holiday"@.contains(',')) by {
        reveal_strlit("d_following_holiday");
    }
    assert(!"d_first_dom"@.contains(',')) by {
        reveal_strlit("d_first_dom");
    }
    assert(!"d_last_dom"@.contains(',')) by {
        reveal_strlit("d_last_dom");
    }
    assert(!"d_same_day_ly"@.contains(',')) by {
        reveal_strlit("d_same_day_ly");
    }
    assert(!"d_same_day_lq"@.contains(',')) by {
        reveal_strlit("d_same_day_lq");
    }
    assert(!"d_current_day"@.contains(',')) by {
        reveal_strlit("d_current_day");
    }
    assert(!"d_current_week"@.contains(',')) by {
        reveal_strlit("d_current_week");
    }
    assert(!"d_current_month"@.contains(',')) by {
        reveal_strlit("d_current_month");
    }
    assert(!"d_current_quarter"@.contains(',')) by {
        reveal_strlit("d_current_quarter");
    }
    assert(!"d_current_year"@.contains(',')) by {
        reveal_strlit("d_current_year");
    }
    assert(comma_free(schema_columns(Table::DateDim)));
}

/// The `dbgen_version` CSV header names the columns of its schema.
#[verifier::rlimit(100)]
proof fn lemma_dbgen_version_header()
    ensures
        table_header(Table::DbgenVersion) == join_with(schema_columns(Table::DbgenVersion), ','),
{
    reveal_strlit("dv_version,dv_create_date,dv_create_time,dv_cmdline_args");
        reveal_strlit("dv_version");
        reveal_strlit("dv_create_date");
        reveal_strlit("dv_create_time");
        reveal_strlit("dv_cmdline_args");
    reveal_with_fuel(join_with, 5);
    assert(join_with(schema_columns(Table::DbgenVersion), ',') =~= table_header(Table::DbgenVersion));
}

/// No `dbgen_version` column name holds a comma.
#[verifier::rlimit(100)]
proof fn lemma_dbgen_version_comma_free()
    ensures
        comma_free(schema_columns(Table::DbgenVersion)),
{
    assert(!"dv_version"@.contains(',')) by {
        reveal_strlit("dv_version");
    }
    assert(!"dv_create_date"@.contains(',')) by {
        reveal_strlit("dv_create_date");
    }
    assert(!"dv_create_time"@.contains(',')) by {
        reveal_strlit("dv_create_time");
    }
    assert(!"dv_cmdline_args"@.contains(',')) by {
        reveal_strlit("dv_cmdline_args");
    }
    assert(comma_free(schema_columns(Table::DbgenVersion)));
}

/// The `household_demographics` CSV header names the columns of its schema.
#[verifier::rlimit(100)]
proof fn lemma_household_demographics_header()
    ensures
        table_header(Table::HouseholdDemographics) == join_with(schema_columns(Table::HouseholdDemographics), ','),
{
    reveal_strlit("hd_demo_sk,hd_income_band_sk,hd_buy_potential,hd_dep_count,hd_vehicle_count");
        reveal_strlit("hd_demo_sk");
        reveal_strlit("hd_income_band_sk");
        reveal_strlit("hd_buy_potential");
        reveal_strlit("hd_dep_count");
        reveal_strlit("hd_vehicle_count");
    reveal_with_fuel(join_with, 6);
    assert(join_with(schema_columns(Table::HouseholdDemographics), ',') =~= table_header(Table::HouseholdDemographics));
}

/// No `household_demographics` column name holds a comma.
#[verifier::rlimit(100)]
proof fn lemma_household_demographics_comma_free()
    ensures
        comma_free(schema_columns(Table::HouseholdDemographics)),
{
    assert(!"hd_demo_sk"@.contains(',')) by {
        reveal_strlit("hd_demo_sk");
    }
    assert(!"hd_income_band_sk"@.contains(',')) by {
        reveal_strlit("hd_income_band_sk");
    }
    assert(!"hd_buy_potential"@.contains(',')) by {
        reveal_strlit("hd_buy_potential");
    }
    assert(!"hd_dep_count"@.contains(',')) by {
        reveal_strlit("hd_dep_count");
    }
    assert(!"hd_vehicle_count"@.contains(',')) by {
        reveal_strlit("hd_vehicle_count");
    }
    assert(comma_free(schema_columns(Table::HouseholdDemographics)));
}

/// The `income_band` CSV header names the columns of its schema.
#[verifier::rlimit(100)]
proof fn lemma_income_band_header()
    ensures
        table_header(Table::IncomeBand) == join_with(schema_columns(Table::IncomeBand), ','),
{
    reveal_strlit("ib_income_band_sk,ib_lower_bound,ib_upper_bound");
        reveal_strlit("ib_income_band_sk");
        reveal_strlit("ib_lower_bound");
        reveal_strlit("ib_upper_bound");
    reveal_with_fuel(join_with, 4);
    assert(join_with(schema_columns(Table::IncomeBand), ',') =~= table_header(Table::IncomeBand));
}

/// No `income_band` column name holds a comma.
#[verifier::rlimit(100)]
proof fn lemma_income_band_comma_free()
    ensures
        comma_free(schema_columns(Table::IncomeBand)),
{
    assert(!"ib_income_band_sk"@.contains(',')) by {
        reveal_strlit("ib_income_band_sk");
    }
    assert(!"ib_lower_bound"@.contains(',')) by {
        reveal_strlit("ib_lower_bound");
    }
    assert(!"ib_upper_bound"@.contains(',')) by {
        reveal_strlit("ib_upper_bound");
    }
    assert(comma_free(schema_columns(Table::IncomeBand)));
}

/// The `inventory` CSV header names the columns of its schema.
#[verifier::rlimit(100)]
proof fn lemma_inventory_header()
    ensures
        table_header(Table::Inventory) == join_with(schema_columns(Table::Inventory), ','),
{
    reveal_strlit("inv_date_sk,inv_item_sk,inv_warehouse_sk,inv_quantity_on_hand");
        reveal_strlit("inv_date_sk");
        reveal_strlit("inv_item_sk");
        reveal_strlit("inv_warehouse_sk");
        reveal_strlit("inv_quantity_on_hand");
    reveal_with_fuel(join_with, 5);
    assert(join_with(schema_columns(Table::Inventory), ',') =~= table_header(Table::Inventory));
}

/// No `inventory` column name holds a comma.
#[verifier::rlimit(100)]
proof fn lemma_inventory_comma_free()
    ensures
        comma_free(schema_columns(Table::Inventory)),
{
    assert(!"inv_date_sk"@.contains(',')) by {
        reveal_strlit("inv_date_sk");
    }
    assert(!"inv_item_sk"@.contains(',')) by {
        reveal_strlit("inv_item_sk");
    }
    assert(!"inv_warehouse_sk"@.contains(',')) by {
        reveal_strlit("inv_warehouse_sk");
    }
    assert(!"inv_quantity_on_hand"@.contains(',')) by {
        reveal_strlit("inv_quantity_on_hand");
    }
    assert(comma_free(schema_columns(Table::Inventory)));
}

/// The `item` CSV header names the columns of its schema.
#[verifier::rlimit(100)]
proof fn lemma_item_header()
    ensures
        table_header(Table::Item) == join_with(schema_columns(Table::Item), ','),
{
    reveal_strlit("i_item_sk,i_item_id,i_rec_start_date,i_rec_end_date,i_item_desc,i_current_price,i_wholesale_cost,i_brand_id,i_brand,i_class_id,i_class,i_category_id,i_category,i_manufact_id,i_manufact,i_size,i_formulation,i_color,i_units,i_container,i_manager_id,i_product_name");
        reveal_strlit("i_item_sk");
        reveal_strlit("i_item_id");
        reveal_strlit("i_rec_start_date");
        reveal_strlit("i_rec_end_date");
        reveal_strlit("i_item_desc");
        reveal_strlit("i_current_price");
        reveal_strlit("i_wholesale_cost");
        reveal_strlit("i_brand_id");
        reveal_strlit("i_brand");
        reveal_strlit("i_class_id");
        reveal_strlit("i_class");
        reveal_strlit("i_category_id");
        reveal_strlit("i_category");
        reveal_strlit("i_manufact_id");
        reveal_strlit("i_manufact");
        reveal_strlit("i_size");
        reveal_strlit("i_formulation");
        reveal_strlit("i_color");
        reveal_strlit("i_units");
        reveal_strlit("i_container");
        reveal_strlit("i_manager_id");
        reveal_strlit("i_product_name");
    reveal_with_fuel(join_with, 23);
    assert(join_with(schema_columns(Table::Item), ',') =~= table_header(Table::Item));
}

/// No `item` column name holds a comma.
#[verifier::rlimit(100)]
proof fn lemma_item_comma_free()
    ensures
        comma_free(schema_columns(Table::Item)),
{
    assert(!"i_item_sk"@.contains(',')) by {
        reveal_strlit("i_item_sk");
    }
    assert(!"i_item_id"@.contains(',')) by {
        reveal_strlit("i_item_id");
    }
    assert(!"i_rec_start_date"@.contains(',')) by {
        reveal_strlit("i_rec_start_date");
    }
    assert(!"i_rec_end_date"@.contains(',')) by {
        reveal_strlit("i_rec_end_date");
    }
    assert(!"i_item_desc"@.contains(',')) by {
        reveal_strlit("i_item_desc");
    }
    assert(!"i_current_price"@.contains(',')) by {
        reveal_strlit("i_current_price");
    }
    assert(!"i_wholesale_cost"@.contains(',')) by {
        reveal_strlit("i_wholesale_cost");
    }
    assert(!"i_brand_id"@.contains(',')) by {
        reveal_strlit("i_brand_id");
    }
    assert(!"i_brand"@.contains(',')) by {
        reveal_strlit("i_brand");
    }
    assert(!"i_class_id"@.contains(',')) by {
        reveal_strlit("i_class_id");
    }
    assert(!"i_class"@.contains(',')) by {
        reveal_strlit("i_class");
    }
    assert(!"i_category_id"@.contains(',')) by {
        reveal_strlit("i_category_id");
    }
    assert(!"i_category"@.contains(',')) by {
        reveal_strlit("i_category");
    }
    assert(!"i_manufact_id"@.contains(',')) by {
        reveal_strlit("i_manufact_id");
    }
    assert(!"i_manufact"@.contains(',')) by {
        reveal_strlit("i_manufact");
    }
    assert(!"i_size"@.contains(',')) by {
        reveal_strlit("i_size");
    }
    assert(!"i_formulation"@.contains(',')) by {
        reveal_strlit("i_formulation");
    }
    assert(!"i_color"@.contains(',')) by {
        reveal_strlit("i_color");
    }
    assert(!"i_units"@.contains(',')) by {
        reveal_strlit("i_units");
    }
    assert(!"i_container"@.contains(',')) by {
        reveal_strlit("i_container");
    }
    assert(!"i_manager_id"@.contains(',')) by {
        reveal_strlit("i_manager_id");
    }
    assert(!"i_product_name"@.contains(',')) by {
        reveal_strlit("i_product_name");
    }
    assert(comma_free(schema_columns(Table::Item)));
}

/// The `promotion` CSV header names the columns of its schema.
#[verifier::rlimit(100)]
proof fn lemma_promotion_header()
    ensures
        table_header(Table::Promotion) == join_with(schema_columns(Table::Promotion), ','),
{
    reveal_strlit("p_promo_sk,p_promo_id,p_start_date_sk,p_end_date_sk,p_item_sk,p_cost,p_response_target,p_promo_name,p_channel_dmail,p_channel_email,p_channel_catalog,p_channel_tv,p_channel_radio,p_channel_press,p_channel_event,p_channel_demo,p_channel_details,p_purpose,p_discount_active");
        reveal_strlit("p_promo_sk");
        reveal_strlit("p_promo_id");
        reveal_strlit("p_start_date_sk");
        reveal_strlit("p_end_date_sk");
        reveal_strlit("p_item_sk");
        reveal_strlit("p_cost");
        reveal_strlit("p_response_target");
        reveal_strlit("p_promo_name");
        reveal_strlit("p_channel_dmail");
        reveal_strlit("p_channel_email");
        reveal_strlit("p_channel_catalog");
        reveal_strlit("p_channel_tv");
        reveal_strlit("p_channel_radio");
        reveal_strlit("p_channel_press");
        reveal_strlit("p_channel_event");
        reveal_strlit("p_channel_demo");
        reveal_strlit("p_channel_details");
        reveal_strlit("p_purpose");
        reveal_strlit("p_discount_active");
    reveal_with_fuel(join_with, 20);
    assert(join_with(schema_columns(Table::Promotion), ',') =~= table_header(Table::Promotion));
}

/// No `promotion` column name holds a comma.
#[verifier::rlimit(100)]
proof fn lemma_promotion_comma_free()
    ensures
        comma_free(schema_columns(Table::Promotion)),
{
    assert(!"p_promo_sk"@.contains(',')) by {
        reveal_strlit("p_promo_sk");
    }
    assert(!"p_promo_id"@.contains(',')) by {
        reveal_strlit("p_promo_id");
    }
    assert(!"p_start_date_sk"@.contains(',')) by {
        reveal_strlit("p_start_date_sk");
    }
    assert(!"p_end_date_sk"@.contains(',')) by {
        reveal_strlit("p_end_date_sk");
    }
    assert(!"p_item_sk"@.contains(',')) by {
        reveal_strlit("p_item_sk");
    }
    assert(!"p_cost"@.contains(',')) by {
        reveal_strlit("p_cost");
    }
    assert(!"p_response_target"@.contains(',')) by {
        reveal_strlit("p_response_target");
    }
    assert(!"p_promo_name"@.contains(',')) by {
        reveal_strlit("p_promo_name");
    }
    assert(!"p_channel_dmail"@.contains(',')) by {
        reveal_strlit("p_channel_dmail");
    }
    assert(!"p_channel_email"@.contains(',')) by {
        reveal_strlit("p_channel_email");
    }
    assert(!"p_channel_catalog"@.contains(',')) by {
        reveal_strlit("p_channel_catalog");
    }
    assert(!"p_channel_tv"@.contains(',')) by {
        reveal_strlit("p_channel_tv");
    }
    assert(!"p_channel_radio"@.contains(',')) by {
        reveal_strlit("p_channel_radio");
    }
    assert(!"p_channel_press"@.contains(',')) by {
        reveal_strlit("p_channel_press");
    }
    assert(!"p_channel_event"@.contains(',')) by {
        reveal_strlit("p_channel_event");
    }
    assert(!"p_channel_demo"@.contains(',')) by {
        reveal_strlit("p_channel_demo");
    }
    assert(!"p_channel_details"@.contains(',')) by {
        reveal_strlit("p_channel_details");
    }
    assert(!"p_purpose"@.contains(',')) by {
        reveal_strlit("p_purpose");
    }
    assert(!"p_discount_active"@.contains(',')) by {
        reveal_strlit("p_discount_active");
    }
    assert(comma_free(schema_columns(Table::Promotion)));
}

/// The `reason` CSV header names the columns of its schema.
#[verifier::rlimit(100)]
proof fn lemma_reason_header()
    ensures
        table_header(Table::Reason) == join_with(schema_columns(Table::Reason), ','),
{
    reveal_strlit("r_reason_sk,r_reason_id,r_reason_desc");
        reveal_strlit("r_reason_sk");
        reveal_strlit("r_reason_id");
        reveal_strlit("r_reason_desc");
    reveal_with_fuel(join_with, 4);
    assert(join_with(schema_columns(Table::Reason), ',') =~= table_header(Table::Reason));
}

/// No `reason` column name holds a comma.
#[verifier::rlimit(100)]
proof fn lemma_reason_comma_free()
    ensures
        comma_free(schema_columns(Table::Reason)),
{
    assert(!"r_reason_sk"@.contains(',')) by {
        reveal_strlit("r_reason_sk");
    }
    assert(!"r_reason_id"@.contains(',')) by {
        reveal_strlit("r_reason_id");
    }
    assert(!"r_reason_desc"@.contains(',')) by {
        reveal_strlit("r_reason_desc");
    }
    assert(comma_free(schema_columns(Table::Reason)));
}

/// The `ship_mode` CSV header names the columns of its schema.
#[verifier::rlimit(100)]
proof fn lemma_ship_mode_header()
    ensures
        table_header(Table::ShipMode) == join_with(schema_columns(Table::ShipMode), ','),
{
    reveal_strlit("sm_ship_mode_sk,sm_ship_mode_id,sm_type,sm_code,sm_carrier,sm_contract");
        reveal_strlit("sm_ship_mode_sk");
        reveal_strlit("sm_ship_mode_id");
        reveal_strlit("sm_type");
        reveal_strlit("sm_code");
        reveal_strlit("sm_carrier");
        reveal_strlit("sm_contract");
    reveal_with_fuel(join_with, 7);
    assert(join_with(schema_columns(Table::ShipMode), ',') =~= table_header(Table::ShipMode));
}

/// No `ship_mode` column name holds a comma.
#[verifier::rlimit(100)]
proof fn lemma_ship_mode_comma_free()
    ensures
        comma_free(schema_columns(Table::ShipMode)),
{
    assert(!"sm_ship_mode_sk"@.contains(',')) by {
        reveal_strlit("sm_ship_mode_sk");
    }
    assert(!"sm_ship_mode_id"@.contains(',')) by {
        reveal_strlit("sm_ship_mode_id");
    }
    assert(!"sm_type"@.contains(',')) by {
        reveal_strlit("sm_type");
    }
    assert(!"sm_code"@.contains(',')) by {
        reveal_strlit("sm_code");
    }
    assert(!"sm_carrier"@.contains(',')) by {
        reveal_strlit("sm_carrier");
    }
    assert(!"sm_contract"@.contains(',')) by {
        reveal_strlit("sm_contract");
    }
    assert(comma_free(schema_columns(Table::ShipMode)));
}

/// The `store` CSV header names the columns of its schema.
#[verifier::rlimit(100)]
proof fn lemma_store_header()
    ensures
        table_header(Table::Store) == join_with(schema_columns(Table::Store), ','),
{
    reveal_strlit("s_store_sk,s_store_id,s_rec_start_date,s_rec_end_date,s_closed_date_sk,s_store_name,s_number_employees,s_floor_space,s_hours,s_manager,s_market_id,s_geography_class,s_market_desc,s_market_manager,s_division_id,s_division_name,s_company_id,s_company_name,s_street_number,s_street_name,s_street_type,s_suite_number,s_city,s_county,s_state,s_zip,s_country,s_gmt_offset,s_tax_precentage");
        reveal_strlit("s_store_sk");
        reveal_strlit("s_store_id");
        reveal_strlit("s_rec_start_date");
        reveal_strlit("s_rec_end_date");
        reveal_strlit("s_closed_date_sk");
        reveal_strlit("s_store_name");
        reveal_strlit("s_number_employees");
        reveal_strlit("s_floor_space");
        reveal_strlit("s_hours");
        reveal_strlit("s_manager");
        reveal_strlit("s_market_id");
        reveal_strlit("s_geography_class");
        reveal_strlit("s_market_desc");
        reveal_strlit("s_market_manager");
        reveal_strlit("s_division_id");
        reveal_strlit("s_division_name");
        reveal_strlit("s_company_id");
        reveal_strlit("s_company_name");
        reveal_strlit("s_street_number");
        reveal_strlit("s_street_name");
        reveal_strlit("s_street_type");
        reveal_strlit("s_suite_number");
        reveal_strlit("s_city");
        reveal_strlit("s_county");
        reveal_strlit("s_state");
        reveal_strlit("s_zip");
        reveal_strlit("s_country");
        reveal_strlit("s_gmt_offset");
        reveal_strlit("s_tax_precentage");
    reveal_with_fuel(join_with, 30);
    assert(join_with(schema_columns(Table::Store), ',') =~= table_header(Table::Store));
}

/// No `store` column name holds a comma.
#[verifier::rlimit(100)]
proof fn lemma_store_comma_free()
    ensures
        comma_free(schema_columns(Table::Store)),
{
    assert(!"s_store_sk"@.contains(',')) by {
        reveal_strlit("s_store_sk");
    }
    assert(!"s_store_id"@.contains(',')) by {
        reveal_strlit("s_store_id");
    }
    assert(!"s_rec_start_date"@.contains(',')) by {
        reveal_strlit("s_rec_start_date");
    }
    assert(!"s_rec_end_date"@.contains(',')) by {
        reveal_strlit("s_rec_end_date");
    }
    assert(!"s_closed_date_sk"@.contains(',')) by {
        reveal_strlit("s_closed_date_sk");
    }
    assert(!"s_store_name"@.contains(',')) by {
        reveal_strlit("s_store_name");
    }
    assert(!"s_number_employees"@.contains(',')) by {
        reveal_strlit("s_number_employees");
    }
    assert(!"s_floor_space"@.contains(',')) by {
        reveal_strlit("s_floor_space");
    }
    assert(!"s_hours"@.contains(',')) by {
        reveal_strlit("s_hours");
    }
    assert(!"s_manager"@.contains(',')) by {
        reveal_strlit("s_manager");
    }
    assert(!"s_market_id"@.contains(',')) by {
        reveal_strlit("s_market_id");
    }
    assert(!"s_geography_class"@.contains(',')) by {
        reveal_strlit("s_geography_class");
    }
    assert(!"s_market_desc"@.contains(',')) by {
        reveal_strlit("s_market_desc");
    }
    assert(!"s_market_manager"@.contains(',')) by {
        reveal_strlit("s_market_manager");
    }
    assert(!"s_division_id"@.contains(',')) by {
        reveal_strlit("s_division_id");
    }
    assert(!"s_division_name"@.contains(',')) by {
        reveal_strlit("s_division_name");
    }
    assert(!"s_company_id"@.contains(',')) by {
        reveal_strlit("s_company_id");
    }
    assert(!"s_company_name"@.contains(',')) by {
        reveal_strlit("s_company_name");
    }
    assert(!"s_street_number"@.contains(',')) by {
        reveal_strlit("s_street_number");
    }
    assert(!"s_street_name"@.contains(',')) by {
        reveal_strlit("s_street_name");
    }
    assert(!"s_street_type"@.contains(',')) by {
        reveal_strlit("s_street_type");
    }
    assert(!"s_suite_number"@.contains(',')) by {
        reveal_strlit("s_suite_number");
    }
    assert(!"s_city"@.contains(',')) by {
        reveal_strlit("s_city");
    }
    assert(!"s_county"@.contains(',')) by {
        reveal_strlit("s_county");
    }
    assert(!"s_state"@.contains(',')) by {
        reveal_strlit("s_state");
    }
    assert(!"s_zip"@.contains(',')) by {
        reveal_strlit("s_zip");
    }
    assert(!"s_country"@.contains(',')) by {
        reveal_strlit("s_country");
    }
    assert(!"s_gmt_offset"@.contains(',')) by {
        reveal_strlit("s_gmt_offset");
    }
    assert(!"s_tax_precentage"@.contains(',')) by {
        reveal_strlit("s_tax_precentage");
    }
    assert(comma_free(schema_columns(Table::Store)));
}

/// The `store_returns` CSV header names the columns of its schema.
#[verifier::rlimit(100)]
proof fn lemma_store_returns_header()
    ensures
        table_header(Table::StoreReturns) == join_with(schema_columns(Table::StoreReturns), ','),
{
    reveal_strlit("sr_returned_date_sk,sr_return_time_sk,sr_item_sk,sr_customer_sk,sr_cdemo_sk,sr_hdemo_sk,sr_addr_sk,sr_store_sk,sr_reason_sk,sr_ticket_number,sr_return_quantity,sr_return_amt,sr_return_tax,sr_return_amt_inc_tax,sr_fee,sr_return_ship_cost,sr_refunded_cash,sr_reversed_charge,sr_store_credit,sr_net_loss");
        reveal_strlit("sr_returned_date_sk");
        reveal_strlit("sr_return_time_sk");
        reveal_strlit("sr_item_sk");
        reveal_strlit("sr_customer_sk");
        reveal_strlit("sr_cdemo_sk");
        reveal_strlit("sr_hdemo_sk");
        reveal_strlit("sr_addr_sk");
        reveal_strlit("sr_store_sk");
        reveal_strlit("sr_reason_sk");
        reveal_strlit("sr_ticket_number");
        reveal_strlit("sr_return_quantity");
        reveal_strlit("sr_return_amt");
        reveal_strlit("sr_return_tax");
        reveal_strlit("sr_return_amt_inc_tax");
        reveal_strlit("sr_fee");
        reveal_strlit("sr_return_ship_cost");
        reveal_strlit("sr_refunded_cash");
        reveal_strlit("sr_reversed_charge");
        reveal_strlit("sr_store_credit");
        reveal_strlit("sr_net_loss");
    reveal_with_fuel(join_with, 21);
    assert(join_with(schema_columns(Table::StoreReturns), ',') =~= table_header(Table::StoreReturns));
}

/// No `store_returns` column name holds a comma.
#[verifier::rlimit(100)]
proof fn lemma_store_returns_comma_free()
    ensures
        comma_free(schema_columns(Table::StoreReturns)),
{
    assert(!"sr_returned_date_sk"@.contains(',')) by {
        reveal_strlit("sr_returned_date_sk");
    }
    assert(!"sr_return_time_sk"@.contains(',')) by {
        reveal_strlit("sr_return_time_sk");
    }
    assert(!"sr_item_sk"@.contains(',')) by {
        reveal_strlit("sr_item_sk");
    }
    assert(!"sr_customer_sk"@.contains(',')) by {
        reveal_strlit("sr_customer_sk");
    }
    assert(!"sr_cdemo_sk"@.contains(',')) by {
        reveal_strlit("sr_cdemo_sk");
    }
    assert(!"sr_hdemo_sk"@.contains(',')) by {
        reveal_strlit("sr_hdemo_sk");
    }
    assert(!"sr_addr_sk"@.contains(',')) by {
        reveal_strlit("sr_addr_sk");
    }
    assert(!"sr_store_sk"@.contains(',')) by {
        reveal_strlit("sr_store_sk");
    }
    assert(!"sr_reason_sk"@.contains(',')) by {
        reveal_strlit("sr_reason_sk");
    }
    assert(!"sr_ticket_number"@.contains(',')) by {
        reveal_strlit("sr_ticket_number");
    }
    assert(!"sr_return_quantity"@.contains(',')) by {
        reveal_strlit("sr_return_quantity");
    }
    assert(!"sr_return_amt"@.contains(',')) by {
        reveal_strlit("sr_return_amt");
    }
    assert(!"sr_return_tax"@.contains(',')) by {
        reveal_strlit("sr_return_tax");
    }
    assert(!"sr_return_amt_inc_tax"@.contains(',')) by {
        reveal_strlit("sr_return_amt_inc_tax");
    }
    assert(!"sr_fee"@.contains(',')) by {
        reveal_strlit("sr_fee");
    }
    assert(!"sr_return_ship_cost"@.contains(',')) by {
        reveal_strlit("sr_return_ship_cost");
    }
    assert(!"sr_refunded_cash"@.contains(',')) by {
        reveal_strlit("sr_refunded_cash");
    }
    assert(!"sr_reversed_charge"@.contains(',')) by {
        reveal_strlit("sr_reversed_charge");
    }
    assert(!"sr_store_credit"@.contains(',')) by {
        reveal_strlit("sr_store_credit");
    }
    assert(!"sr_net_loss"@.contains(',')) by {
        reveal_strlit("sr_net_loss");
    }
    assert(comma_free(schema_columns(Table::StoreReturns)));
}

/// The `store_sales` CSV header names the columns of its schema.
#[verifier::rlimit(100)]
proof fn lemma_store_sales_header()
    ensures
        table_header(Table::StoreSales) == join_with(schema_columns(Table::StoreSales), ','),
{
    reveal_strlit("ss_sold_date_sk,ss_sold_time_sk,ss_item_sk,ss_customer_sk,ss_cdemo_sk,ss_hdemo_sk,ss_addr_sk,ss_store_sk,ss_promo_sk,ss_ticket_number,ss_quantity,ss_wholesale_cost,ss_list_price,ss_sales_price,ss_ext_discount_amt,ss_ext_sales_price,ss_ext_wholesale_cost,ss_ext_list_price,ss_ext_tax,ss_coupon_amt,ss_net_paid,ss_net_paid_inc_tax,ss_net_profit");
        reveal_strlit("ss_sold_date_sk");
        reveal_strlit("ss_sold_time_sk");
        reveal_strlit("ss_item_sk");
        reveal_strlit("ss_customer_sk");
        reveal_strlit("ss_cdemo_sk");
        reveal_strlit("ss_hdemo_sk");
        reveal_strlit("ss_addr_sk");
        reveal_strlit("ss_store_sk");
        reveal_strlit("ss_promo_sk");
        reveal_strlit("ss_ticket_number");
        reveal_strlit("ss_quantity");
        reveal_strlit("ss_wholesale_cost");
        reveal_strlit("ss_list_price");
        reveal_strlit("ss_sales_price");
        reveal_strlit("ss_ext_discount_amt");
        reveal_strlit("ss_ext_sales_price");
        reveal_strlit("ss_ext_wholesale_cost");
        reveal_strlit("ss_ext_list_price");
        reveal_strlit("ss_ext_tax");
        reveal_strlit("ss_coupon_amt");
        reveal_strlit("ss_net_paid");
        reveal_strlit("ss_net_paid_inc_tax");
        reveal_strlit("ss_net_profit");
    reveal_with_fuel(join_with, 24);
    assert(join_with(schema_columns(Table::StoreSales), ',') =~= table_header(Table::StoreSales));
}

/// No `store_sales` column name holds a comma.
#[verifier::rlimit(100)]
proof fn lemma_store_sales_comma_free()
    ensures
        comma_free(schema_columns(Table::StoreSales)),
{
    assert(!"ss_sold_date_sk"@.contains(',')) by {
        reveal_strlit("ss_sold_date_sk");
    }
    assert(!"ss_sold_time_sk"@.contains(',')) by {
        reveal_strlit("ss_sold_time_sk");
    }
    assert(!"ss_item_sk"@.contains(',')) by {
        reveal_strlit("ss_item_sk");
    }
    assert(!"ss_customer_sk"@.contains(',')) by {
        reveal_strlit("ss_customer_sk");
    }
    assert(!"ss_cdemo_sk"@.contains(',')) by {
        reveal_strlit("ss_cdemo_sk");
    }
    assert(!"ss_hdemo_sk"@.contains(',')) by {
        reveal_strlit("ss_hdemo_sk");
    }
    assert(!"ss_addr_sk"@.contains(',')) by {
        reveal_strlit("ss_addr_sk");
    }
    assert(!"ss_store_sk"@.contains(',')) by {
        reveal_strlit("ss_store_sk");
    }
    assert(!"ss_promo_sk"@.contains(',')) by {
        reveal_strlit("ss_promo_sk");
    }
    assert(!"ss_ticket_number"@.contains(',')) by {
        reveal_strlit("ss_ticket_number");
    }
    assert(!"ss_quantity"@.contains(',')) by {
        reveal_strlit("ss_quantity");
    }
    assert(!"ss_wholesale_cost"@.contains(',')) by {
        reveal_strlit("ss_wholesale_cost");
    }
    assert(!"ss_list_price"@.contains(',')) by {
        reveal_strlit("ss_list_price");
    }
    assert(!"ss_sales_price"@.contains(',')) by {
        reveal_strlit("ss_sales_price");
    }
    assert(!"ss_ext_discount_amt"@.contains(',')) by {
        reveal_strlit("ss_ext_discount_amt");
    }
    assert(!"ss_ext_sales_price"@.contains(',')) by {
        reveal_strlit("ss_ext_sales_price");
    }
    assert(!"ss_ext_wholesale_cost"@.contains(',')) by {
        reveal_strlit("ss_ext_wholesale_cost");
    }
    assert(!"ss_ext_list_price"@.contains(',')) by {
        reveal_strlit("ss_ext_list_price");
    }
    assert(!"ss_ext_tax"@.contains(',')) by {
        reveal_strlit("ss_ext_tax");
    }
    assert(!"ss_coupon_amt"@.contains(',')) by {
        reveal_strlit("ss_coupon_amt");
    }
    assert(!"ss_net_paid"@.contains(',')) by {
        reveal_strlit("ss_net_paid");
    }
    assert(!"ss_net_paid_inc_tax"@.contains(',')) by {
        reveal_strlit("ss_net_paid_inc_tax");
    }
    assert(!"ss_net_profit"@.contains(',')) by {
        reveal_strlit("ss_net_profit");
    }
    assert(comma_free(schema_columns(Table::StoreSales)));
}

/// The `time_dim` CSV header names the columns of its schema.
#[verifier::rlimit(100)]
proof fn lemma_time_dim_header()
    ensures
        table_header(Table::TimeDim) == join_with(schema_columns(Table::TimeDim), ','),
{
    reveal_strlit("t_time_sk,t_time_id,t_time,t_hour,t_minute,t_second,t_am_pm,t_shift,t_sub_shift,t_meal_time");
        reveal_strlit("t_time_sk");
        reveal_strlit("t_time_id");
        reveal_strlit("t_time");
        reveal_strlit("t_hour");
        reveal_strlit("t_minute");
        reveal_strlit("t_second");
        reveal_strlit("t_am_pm");
        reveal_strlit("t_shift");
        reveal_strlit("t_sub_shift");
        reveal_strlit("t_meal_time");
    reveal_with_fuel(join_with, 11);
    assert(join_with(schema_columns(Table::TimeDim), ',') =~= table_header(Table::TimeDim));
}

/// No `time_dim` column name holds a comma.
#[verifier::rlimit(100)]
proof fn lemma_time_dim_comma_free()
    ensures
        comma_free(schema_columns(Table::TimeDim)),
{
    assert(!"t_time_sk"@.contains(',')) by {
        reveal_strlit("t_time_sk");
    }
    assert(!"t_time_id"@.contains(',')) by {
        reveal_strlit("t_time_id");
    }
    assert(!"t_time"@.contains(',')) by {
        reveal_strlit("t_time");
    }
    assert(!"t_hour"@.contains(',')) by {
        reveal_strlit("t_hour");
    }
    assert(!"t_minute"@.contains(',')) by {
        reveal_strlit("t_minute");
    }
    assert(!"t_second"@.contains(',')) by {
        reveal_strlit("t_second");
    }
    assert(!"t_am_pm"@.contains(',')) by {
        reveal_strlit("t_am_pm");
    }
    assert(!"t_shift"@.contains(',')) by {
        reveal_strlit("t_shift");
    }
    assert(!"t_sub_shift"@.contains(',')) by {
        reveal_strlit("t_sub_shift");
    }
    assert(!"t_meal_time"@.contains(',')) by {
        reveal_strlit("t_meal_time");
    }
    assert(comma_free(schema_columns(Table::TimeDim)));
}

/// The `warehouse` CSV header names the columns of its schema.
#[verifier::rlimit(100)]
proof fn lemma_warehouse_header()
    ensures
        table_header(Table::Warehouse) == join_with(schema_columns(Table::Warehouse), ','),
{
    reveal_strlit("w_warehouse_sk,w_warehouse_id,w_warehouse_name,w_warehouse_sq_ft,w_street_number,w_street_name,w_street_type,w_suite_number,w_city,w_county,w_state,w_zip,w_country,w_gmt_offset");
        reveal_strlit("w_warehouse_sk");
        reveal_strlit("w_warehouse_id");
        reveal_strlit("w_warehouse_name");
        reveal_strlit("w_warehouse_sq_ft");
        reveal_strlit("w_street_number");
        reveal_strlit("w_street_name");
        reveal_strlit("w_street_type");
        reveal_strlit("w_suite_number");
        reveal_strlit("w_city");
        reveal_strlit("w_county");
        reveal_strlit("w_state");
        reveal_strlit("w_zip");
        reveal_strlit("w_country");
        reveal_strlit("w_gmt_offset");
    reveal_with_fuel(join_with, 15);
    assert(join_with(schema_columns(Table::Warehouse), ',') =~= table_header(Table::Warehouse));
}

/// No `warehouse` column name holds a comma.
#[verifier::rlimit(100)]
proof fn lemma_warehouse_comma_free()
    ensures
        comma_free(schema_columns(Table::Warehouse)),
{
    assert(!"w_warehouse_sk"@.contains(',')) by {
        reveal_strlit("w_warehouse_sk");
    }
    assert(!"w_warehouse_id"@.contains(',')) by {
        reveal_strlit("w_warehouse_id");
    }
    assert(!"w_warehouse_name"@.contains(',')) by {
        reveal_strlit("w_warehouse_name");
    }
    assert(!"w_warehouse_sq_ft"@.contains(',')) by {
        reveal_strlit("w_warehouse_sq_ft");
    }
    assert(!"w_street_number"@.contains(',')) by {
        reveal_strlit("w_street_number");
    }
    assert(!"w_street_name"@.contains(',')) by {
        reveal_strlit("w_street_name");
    }
    assert(!"w_street_type"@.contains(',')) by {
        reveal_strlit("w_street_type");
    }
    assert(!"w_suite_number"@.contains(',')) by {
        reveal_strlit("w_suite_number");
    }
    assert(!"w_city"@.contains(',')) by {
        reveal_strlit("w_city");
    }
    assert(!"w_county"@.contains(',')) by {
        reveal_strlit("w_county");
    }
    assert(!"w_state"@.contains(',')) by {
        reveal_strlit("w_state");
    }
    assert(!"w_zip"@.contains(',')) by {
        reveal_strlit("w_zip");
    }
    assert(!"w_country"@.contains(',')) by {
        reveal_strlit("w_country");
    }
    assert(!"w_gmt_offset"@.contains(',')) by {
        reveal_strlit("w_gmt_offset");
    }
    assert(comma_free(schema_columns(Table::Warehouse)));
}

/// The `web_page` CSV header names the columns of its schema.
#[verifier::rlimit(100)]
proof fn lemma_web_page_header()
    ensures
        table_header(Table::WebPage) == join_with(schema_columns(Table::WebPage), ','),
{
    reveal_strlit("wp_web_page_sk,wp_web_page_id,wp_rec_start_date,wp_rec_end_date,wp_creation_date_sk,wp_access_date_sk,wp_autogen_flag,wp_customer_sk,wp_url,wp_type,wp_char_count,wp_link_count,wp_image_count,wp_max_ad_count");
        reveal_strlit("wp_web_page_sk");
        reveal_strlit("wp_web_page_id");
        reveal_strlit("wp_rec_start_date");
        reveal_strlit("wp_rec_end_date");
        reveal_strlit("wp_creation_date_sk");
        reveal_strlit("wp_access_date_sk");
        reveal_strlit("wp_autogen_flag");
        reveal_strlit("wp_customer_sk");
        reveal_strlit("wp_url");
        reveal_strlit("wp_type");
        reveal_strlit("wp_char_count");
        reveal_strlit("wp_link_count");
        reveal_strlit("wp_image_count");
        reveal_strlit("wp_max_ad_count");
    reveal_with_fuel(join_with, 15);
    assert(join_with(schema_columns(Table::WebPage), ',') =~= table_header(Table::WebPage));
}

/// No `web_page` column name holds a comma.
#[verifier::rlimit(100)]
proof fn lemma_web_page_comma_free()
    ensures
        comma_free(schema_columns(Table::WebPage)),
{
    assert(!"wp_web_page_sk"@.contains(',')) by {
        reveal_strlit("wp_web_page_sk");
    }
    assert(!"wp_web_page_id"@.contains(',')) by {
        reveal_strlit("wp_web_page_id");
    }
    assert(!"wp_rec_start_date"@.contains(',')) by {
        reveal_strlit("wp_rec_start_date");
    }
    assert(!"wp_rec_end_date"@.contains(',')) by {
        reveal_strlit("wp_rec_end_date");
    }
    assert(!"wp_creation_date_sk"@.contains(',')) by {
        reveal_strlit("wp_creation_date_sk");
    }
    assert(!"wp_access_date_sk"@.contains(',')) by {
        reveal_strlit("wp_access_date_sk");
    }
    assert(!"wp_autogen_flag"@.contains(',')) by {
        reveal_strlit("wp_autogen_flag");
    }
    assert(!"wp_customer_sk"@.contains(',')) by {
        reveal_strlit("wp_customer_sk");
    }
    assert(!"wp_url"@.contains(',')) by {
        reveal_strlit("wp_url");
    }
    assert(!"wp_type"@.contains(',')) by {
        reveal_strlit("wp_type");
    }
    assert(!"wp_char_count"@.contains(',')) by {
        reveal_strlit("wp_char_count");
    }
    assert(!"wp_link_count"@.contains(',')) by {
        reveal_strlit("wp_link_count");
    }
    assert(!"wp_image_count"@.contains(',')) by {
        reveal_strlit("wp_image_count");
    }
    assert(!"wp_max_ad_count"@.contains(',')) by {
        reveal_strlit("wp_max_ad_count");
    }
    assert(comma_free(schema_columns(Table::WebPage)));
}

/// The `web_returns` CSV header names the columns of its schema.
#[verifier::rlimit(100)]
proof fn lemma_web_returns_header()
    ensures
        table_header(Table::WebReturns) == join_with(schema_columns(Table::WebReturns), ','),
{
    reveal_strlit("wr_returned_date_sk,wr_returned_time_sk,wr_item_sk,wr_refunded_customer_sk,wr_refunded_cdemo_sk,wr_refunded_hdemo_sk,wr_refunded_addr_sk,wr_returning_customer_sk,wr_returning_cdemo_sk,wr_returning_hdemo_sk,wr_returning_addr_sk,wr_web_page_sk,wr_reason_sk,wr_order_number,wr_return_quantity,wr_return_amt,wr_return_tax,wr_return_amt_inc_tax,wr_fee,wr_return_ship_cost,wr_refunded_cash,wr_reversed_charge,wr_account_credit,wr_net_loss");
        reveal_strlit("wr_returned_date_sk");
        reveal_strlit("wr_returned_time_sk");
        reveal_strlit("wr_item_sk");
        reveal_strlit("wr_refunded_customer_sk");
        reveal_strlit("wr_refunded_cdemo_sk");
        reveal_strlit("wr_refunded_hdemo_sk");
        reveal_strlit("wr_refunded_addr_sk");
        reveal_strlit("wr_returning_customer_sk");
        reveal_strlit("wr_returning_cdemo_sk");
        reveal_strlit("wr_returning_hdemo_sk");
        reveal_strlit("wr_returning_addr_sk");
        reveal_strlit("wr_web_page_sk");
        reveal_strlit("wr_reason_sk");
        reveal_strlit("wr_order_number");
        reveal_strlit("wr_return_quantity");
        reveal_strlit("wr_return_amt");
        reveal_strlit("wr_return_tax");
        reveal_strlit("wr_return_amt_inc_tax");
        reveal_strlit("wr_fee");
        reveal_strlit("wr_return_ship_cost");
        reveal_strlit("wr_refunded_cash");
        reveal_strlit("wr_reversed_charge");
        reveal_strlit("wr_account_credit");
        reveal_strlit("wr_net_loss");
    reveal_with_fuel(join_with, 25);
    assert(join_with(schema_columns(Table::WebReturns), ',') =~= table_header(Table::WebReturns));
}

/// No `web_returns` column name holds a comma.
#[verifier::rlimit(100)]
proof fn lemma_web_returns_comma_free()
    ensures
        comma_free(schema_columns(Table::WebReturns)),
{
    assert(!"wr_returned_date_sk"@.contains(',')) by {
        reveal_strlit("wr_returned_date_sk");
    }
    assert(!"wr_returned_time_sk"@.contains(',')) by {
        reveal_strlit("wr_returned_time_sk");
    }
    assert(!"wr_item_sk"@.contains(',')) by {
        reveal_strlit("wr_item_sk");
    }
    assert(!"wr_refunded_customer_sk"@.contains(',')) by {
        reveal_strlit("wr_refunded_customer_sk");
    }
    assert(!"wr_refunded_cdemo_sk"@.contains(',')) by {
        reveal_strlit("wr_refunded_cdemo_sk");
    }
    assert(!"wr_refunded_hdemo_sk"@.contains(',')) by {
        reveal_strlit("wr_refunded_hdemo_sk");
    }
    assert(!"wr_refunded_addr_sk"@.contains(',')) by {
        reveal_strlit("wr_refunded_addr_sk");
    }
    assert(!"wr_returning_customer_sk"@.contains(',')) by {
        reveal_strlit("wr_returning_customer_sk");
    }
    assert(!"wr_returning_cdemo_sk"@.contains(',')) by {
        reveal_strlit("wr_returning_cdemo_sk");
    }
    assert(!"wr_returning_hdemo_sk"@.contains(',')) by {
        reveal_strlit("wr_returning_hdemo_sk");
    }
    assert(!"wr_returning_addr_sk"@.contains(',')) by {
        reveal_strlit("wr_returning_addr_sk");
    }
    assert(!"wr_web_page_sk"@.contains(',')) by {
        reveal_strlit("wr_web_page_sk");
    }
    assert(!"wr_reason_sk"@.contains(',')) by {
        reveal_strlit("wr_reason_sk");
    }
    assert(!"wr_order_number"@.contains(',')) by {
        reveal_strlit("wr_order_number");
    }
    assert(!"wr_return_quantity"@.contains(',')) by {
        reveal_strlit("wr_return_quantity");
    }
    assert(!"wr_return_amt"@.contains(',')) by {
        reveal_strlit("wr_return_amt");
    }
    assert(!"wr_return_tax"@.contains(',')) by {
        reveal_strlit("wr_return_tax");
    }
    assert(!"wr_return_amt_inc_tax"@.contains(',')) by {
        reveal_strlit("wr_return_amt_inc_tax");
    }
    assert(!"wr_fee"@.contains(',')) by {
        reveal_strlit("wr_fee");
    }
    assert(!"wr_return_ship_cost"@.contains(',')) by {
        reveal_strlit("wr_return_ship_cost");
    }
    assert(!"wr_refunded_cash"@.contains(',')) by {
        reveal_strlit("wr_refunded_cash");
    }
    assert(!"wr_reversed_charge"@.contains(',')) by {
        reveal_strlit("wr_reversed_charge");
    }
    assert(!"wr_account_credit"@.contains(',')) by {
        reveal_strlit("wr_account_credit");
    }
    assert(!"wr_net_loss"@.contains(',')) by {
        reveal_strlit("wr_net_loss");
    }
    assert(comma_free(schema_columns(Table::WebReturns)));
}

/// The `web_sales` CSV header names the columns of its schema.
#[verifier::rlimit(100)]
proof fn lemma_web_sales_header()
    ensures
        table_header(Table::WebSales) == join_with(schema_columns(Table::WebSales), ','),
{
    reveal_strlit("ws_sold_date_sk,ws_sold_time_sk,ws_ship_date_sk,ws_item_sk,ws_bill_customer_sk,ws_bill_cdemo_sk,ws_bill_hdemo_sk,ws_bill_addr_sk,ws_ship_customer_sk,ws_ship_cdemo_sk,ws_ship_hdemo_sk,ws_ship_addr_sk,ws_web_page_sk,ws_web_site_sk,ws_ship_mode_sk,ws_warehouse_sk,ws_promo_sk,ws_order_number,ws_quantity,ws_wholesale_cost,ws_list_price,ws_sales_price,ws_ext_discount_amt,ws_ext_sales_price,ws_ext_wholesale_cost,ws_ext_list_price,ws_ext_tax,ws_coupon_amt,ws_ext_ship_cost,ws_net_paid,ws_net_paid_inc_tax,ws_net_paid_inc_ship,ws_net_paid_inc_ship_tax,ws_net_profit");
        reveal_strlit("ws_sold_date_sk");
        reveal_strlit("ws_sold_time_sk");
        reveal_strlit("ws_ship_date_sk");
        reveal_strlit("ws_item_sk");
        reveal_strlit("ws_bill_customer_sk");
        reveal_strlit("ws_bill_cdemo_sk");
        reveal_strlit("ws_bill_hdemo_sk");
        reveal_strlit("ws_bill_addr_sk");
        reveal_strlit("ws_ship_customer_sk");
        reveal_strlit("ws_ship_cdemo_sk");
        reveal_strlit("ws_ship_hdemo_sk");
        reveal_strlit("ws_ship_addr_sk");
        reveal_strlit("ws_web_page_sk");
        reveal_strlit("ws_web_site_sk");
        reveal_strlit("ws_ship_mode_sk");
        reveal_strlit("ws_warehouse_sk");
        reveal_strlit("ws_promo_sk");
        reveal_strlit("ws_order_number");
        reveal_strlit("ws_quantity");
        reveal_strlit("ws_wholesale_cost");
        reveal_strlit("ws_list_price");
        reveal_strlit("ws_sales_price");
        reveal_strlit("ws_ext_discount_amt");
        reveal_strlit("ws_ext_sales_price");
        reveal_strlit("ws_ext_wholesale_cost");
        reveal_strlit("ws_ext_list_price");
        reveal_strlit("ws_ext_tax");
        reveal_strlit("ws_coupon_amt");
        reveal_strlit("ws_ext_ship_cost");
        reveal_strlit("ws_net_paid");
        reveal_strlit("ws_net_paid_inc_tax");
        reveal_strlit("ws_net_paid_inc_ship");
        reveal_strlit("ws_net_paid_inc_ship_tax");
        reveal_strlit("ws_net_profit");
    reveal_with_fuel(join_with, 35);
    assert(join_with(schema_columns(Table::WebSales), ',') =~= table_header(Table::WebSales));
}

/// No `web_sales` column name holds a comma.
#[verifier::rlimit(100)]
proof fn lemma_web_sales_comma_free()
    ensures
        comma_free(schema_columns(Table::WebSales)),
{
    assert(!"ws_sold_date_sk"@.contains(',')) by {
        reveal_strlit("ws_sold_date_sk");
    }
    assert(!"ws_sold_time_sk"@.contains(',')) by {
        reveal_strlit("ws_sold_time_sk");
    }
    assert(!"ws_ship_date_sk"@.contains(',')) by {
        reveal_strlit("ws_ship_date_sk");
    }
    assert(!"ws_item_sk"@.contains(',')) by {
        reveal_strlit("ws_item_sk");
    }
    assert(!"ws_bill_customer_sk"@.contains(',')) by {
        reveal_strlit("ws_bill_customer_sk");
    }
    assert(!"ws_bill_cdemo_sk"@.contains(',')) by {
        reveal_strlit("ws_bill_cdemo_sk");
    }
    assert(!"ws_bill_hdemo_sk"@.contains(',')) by {
        reveal_strlit("ws_bill_hdemo_sk");
    }
    assert(!"ws_bill_addr_sk"@.contains(',')) by {
        reveal_strlit("ws_bill_addr_sk");
    }
    assert(!"ws_ship_customer_sk"@.contains(',')) by {
        reveal_strlit("ws_ship_customer_sk");
    }
    assert(!"ws_ship_cdemo_sk"@.contains(',')) by {
        reveal_strlit("ws_ship_cdemo_sk");
    }
    assert(!"ws_ship_hdemo_sk"@.contains(',')) by {
        reveal_strlit("ws_ship_hdemo_sk");
    }
    assert(!"ws_ship_addr_sk"@.contains(',')) by {
        reveal_strlit("ws_ship_addr_sk");
    }
    assert(!"ws_web_page_sk"@.contains(',')) by {
        reveal_strlit("ws_web_page_sk");
    }
    assert(!"ws_web_site_sk"@.contains(',')) by {
        reveal_strlit("ws_web_site_sk");
    }
    assert(!"ws_ship_mode_sk"@.contains(',')) by {
        reveal_strlit("ws_ship_mode_sk");
    }
    assert(!"ws_warehouse_sk"@.contains(',')) by {
        reveal_strlit("ws_warehouse_sk");
    }
    assert(!"ws_promo_sk"@.contains(',')) by {
        reveal_strlit("ws_promo_sk");
    }
    assert(!"ws_order_number"@.contains(',')) by {
        reveal_strlit("ws_order_number");
    }
    assert(!"ws_quantity"@.contains(',')) by {
        reveal_strlit("ws_quantity");
    }
    assert(!"ws_wholesale_cost"@.contains(',')) by {
        reveal_strlit("ws_wholesale_cost");
    }
    assert(!"ws_list_price"@.contains(',')) by {
        reveal_strlit("ws_list_price");
    }
    assert(!"ws_sales_price"@.contains(',')) by {
        reveal_strlit("ws_sales_price");
    }
    assert(!"ws_ext_discount_amt"@.contains(',')) by {
        reveal_strlit("ws_ext_discount_amt");
    }
    assert(!"ws_ext_sales_price"@.contains(',')) by {
        reveal_strlit("ws_ext_sales_price");
    }
    assert(!"ws_ext_wholesale_cost"@.contains(',')) by {
        reveal_strlit("ws_ext_wholesale_cost");
    }
    assert(!"ws_ext_list_price"@.contains(',')) by {
        reveal_strlit("ws_ext_list_price");
    }
    assert(!"ws_ext_tax"@.contains(',')) by {
        reveal_strlit("ws_ext_tax");
    }
    assert(!"ws_coupon_amt"@.contains(',')) by {
        reveal_strlit("ws_coupon_amt");
    }
    assert(!"ws_ext_ship_cost"@.contains(',')) by {
        reveal_strlit("ws_ext_ship_cost");
    }
    assert(!"ws_net_paid"@.contains(',')) by {
        reveal_strlit("ws_net_paid");
    }
    assert(!"ws_net_paid_inc_tax"@.contains(',')) by {
        reveal_strlit("ws_net_paid_inc_tax");
    }
    assert(!"ws_net_paid_inc_ship"@.contains(',')) by {
        reveal_strlit("ws_net_paid_inc_ship");
    }
    assert(!"ws_net_paid_inc_ship_tax"@.contains(',')) by {
        reveal_strlit("ws_net_paid_inc_ship_tax");
    }
    assert(!"ws_net_profit"@.contains(',')) by {
        reveal_strlit("ws_net_profit");
    }
    assert(comma_free(schema_columns(Table::WebSales)));
}

/// The `web_site` CSV header names the columns of its schema.
#[verifier::rlimit(100)]
proof fn lemma_web_site_header()
    ensures
        table_header(Table::WebSite) == join_with(schema_columns(Table::WebSite), ','),
{
    reveal_strlit("web_site_sk,web_site_id,web_rec_start_date,web_rec_end_date,web_name,web_open_date_sk,web_close_date_sk,web_class,web_manager,web_mkt_id,web_mkt_class,web_mkt_desc,web_market_manager,web_company_id,web_company_name,web_street_number,web_street_name,web_street_type,web_suite_number,web_city,web_county,web_state,web_zip,web_country,web_gmt_offset,web_tax_percentage");
        reveal_strlit("web_site_sk");
        reveal_strlit("web_site_id");
        reveal_strlit("web_rec_start_date");
        reveal_strlit("web_rec_end_date");
        reveal_strlit("web_name");
        reveal_strlit("web_open_date_sk");
        reveal_strlit("web_close_date_sk");
        reveal_strlit("web_class");
        reveal_strlit("web_manager");
        reveal_strlit("web_mkt_id");
        reveal_strlit("web_mkt_class");
        reveal_strlit("web_mkt_desc");
        reveal_strlit("web_market_manager");
        reveal_strlit("web_company_id");
        reveal_strlit("web_company_name");
        reveal_strlit("web_street_number");
        reveal_strlit("web_street_name");
        reveal_strlit("web_street_type");
        reveal_strlit("web_suite_number");
        reveal_strlit("web_city");
        reveal_strlit("web_county");
        reveal_strlit("web_state");
        reveal_strlit("web_zip");
        reveal_strlit("web_country");
        reveal_strlit("web_gmt_offset");
        reveal_strlit("web_tax_percentage");
    reveal_with_fuel(join_with, 27);
    assert(join_with(schema_columns(Table::WebSite), ',') =~= table_header(Table::WebSite));
}

/// No `web_site` column name holds a comma.
#[verifier::rlimit(100)]
proof fn lemma_web_site_comma_free()
    ensures
        comma_free(schema_columns(Table::WebSite)),
{
    assert(!"web_site_sk"@.contains(',')) by {
        reveal_strlit("web_site_sk");
    }
    assert(!"web_site_id"@.contains(',')) by {
        reveal_strlit("web_site_id");
    }
    assert(!"web_rec_start_date"@.contains(',')) by {
        reveal_strlit("web_rec_start_date");
    }
    assert(!"web_rec_end_date"@.contains(',')) by {
        reveal_strlit("web_rec_end_date");
    }
    assert(!"web_name"@.contains(',')) by {
        reveal_strlit("web_name");
    }
    assert(!"web_open_date_sk"@.contains(',')) by {
        reveal_strlit("web_open_date_sk");
    }
    assert(!"web_close_date_sk"@.contains(',')) by {
        reveal_strlit("web_close_date_sk");
    }
    assert(!"web_class"@.contains(',')) by {
        reveal_strlit("web_class");
    }
    assert(!"web_manager"@.contains(',')) by {
        reveal_strlit("web_manager");
    }
    assert(!"web_mkt_id"@.contains(',')) by {
        reveal_strlit("web_mkt_id");
    }
    assert(!"web_mkt_class"@.contains(',')) by {
        reveal_strlit("web_mkt_class");
    }
    assert(!"web_mkt_desc"@.contains(',')) by {
        reveal_strlit("web_mkt_desc");
    }
    assert(!"web_market_manager"@.contains(',')) by {
        reveal_strlit("web_market_manager");
    }
    assert(!"web_company_id"@.contains(',')) by {
        reveal_strlit("web_company_id");
    }
    assert(!"web_company_name"@.contains(',')) by {
        reveal_strlit("web_company_name");
    }
    assert(!"web_street_number"@.contains(',')) by {
        reveal_strlit("web_street_number");
    }
    assert(!"web_street_name"@.contains(',')) by {
        reveal_strlit("web_street_name");
    }
    assert(!"web_street_type"@.contains(',')) by {
        reveal_strlit("web_street_type");
    }
    assert(!"web_suite_number"@.contains(',')) by {
        reveal_strlit("web_suite_number");
    }
    assert(!"web_city"@.contains(',')) by {
        reveal_strlit("web_city");
    }
    assert(!"web_county"@.contains(',')) by {
        reveal_strlit("web_county");
    }
    assert(!"web_state"@.contains(',')) by {
        reveal_strlit("web_state");
    }
    assert(!"web_zip"@.contains(',')) by {
        reveal_strlit("web_zip");
    }
    assert(!"web_country"@.contains(',')) by {
        reveal_strlit("web_country");
    }
    assert(!"web_gmt_offset"@.contains(',')) by {
        reveal_strlit("web_gmt_offset");
    }
    assert(!"web_tax_percentage"@.contains(',')) by {
        reveal_strlit("web_tax_percentage");
    }
    assert(comma_free(schema_columns(Table::WebSite)));
}

/// Each table's CSV header lists exactly the columns of its schema, one name
/// per column, in schema order: splitting the header on its commas gives
/// the schema's column names.
pub proof fn lemma_header_names_schema_columns(t: Table)
    ensures
        split_commas(table_header(t)) == schema_columns(t),
        schema_columns(t).len() >= 1,
{
    match t {
        Table::CallCenter => {
            lemma_call_center_header();
            lemma_call_center_comma_free();
        },
        Table::CatalogPage => {
            lemma_catalog_page_header();
            lemma_catalog_page_comma_free();
        },
        Table::CatalogReturns => {
            lemma_catalog_returns_header();
            lemma_catalog_returns_comma_free();
        },
        Table::CatalogSales => {
            lemma_catalog_sales_header();
            lemma_catalog_sales_comma_free();
        },
        Table::Customer => {
            lemma_customer_header();
            lemma_customer_comma_free();
        },
        Table::CustomerAddress => {
            lemma_customer_address_header();
            lemma_customer_address_comma_free();
        },
        Table::CustomerDemographics => {
            lemma_customer_demographics_header();
            lemma_customer_demographics_comma_free();
        },
        Table::DateDim => {
            lemma_date_dim_header();
            lemma_date_dim_comma_free();
        },
        Table::DbgenVersion => {
            lemma_dbgen_version_header();
            lemma_dbgen_version_comma_free();
        },
        Table::HouseholdDemographics => {
            lemma_household_demographics_header();
            lemma_household_demographics_comma_free();
        },
        Table::IncomeBand => {
            lemma_income_band_header();
            lemma_income_band_comma_free();
        },
        Table::Inventory => {
            lemma_inventory_header();
            lemma_inventory_comma_free();
        },
        Table::Item => {
            lemma_item_header();
            lemma_item_comma_free();
        },
        Table::Promotion => {
            lemma_promotion_header();
            lemma_promotion_comma_free();
        },
        Table::Reason => {
            lemma_reason_header();
            lemma_reason_comma_free();
        },
        Table::ShipMode => {
            lemma_ship_mode_header();
            lemma_ship_mode_comma_free();
        },
        Table::Store => {
            lemma_store_header();
            lemma_store_comma_free();
        },
        Table::StoreReturns => {
            lemma_store_returns_header();
            lemma_store_returns_comma_free();
        },
        Table::StoreSales => {
            lemma_store_sales_header();
            lemma_store_sales_comma_free();
        },
        Table::TimeDim => {
            lemma_time_dim_header();
            lemma_time_dim_comma_free();
        },
        Table::Warehouse => {
            lemma_warehouse_header();
            lemma_warehouse_comma_free();
        },
        Table::WebPage => {
            lemma_web_page_header();
            lemma_web_page_comma_free();
        },
        Table::WebReturns => {
            lemma_web_returns_header();
            lemma_web_returns_comma_free();
        },
        Table::WebSales => {
            lemma_web_sales_header();
            lemma_web_sales_comma_free();
        },
        Table::WebSite => {
            lemma_web_site_header();
            lemma_web_site_comma_free();
        },
    }
    lemma_split_joined_names(schema_columns(t));
}

} // verus!
