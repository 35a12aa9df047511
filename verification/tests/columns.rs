use tpcgen::columns::{
    address_columns, customer_address_columns, inventory_columns, store_sales_columns,
    time_dim_columns, web_page_columns, zip_string, AddressValues, CustomerAddressValues,
    InventoryValues, StoreSalesValues, TimeDimValues, WebPageValues,
};
use tpcgen::conversions::Decimal;

fn dec(n: i64) -> Decimal {
    Decimal::new(n, 2).unwrap()
}

#[test]
fn inventory_keys_and_quantities_follow_the_null_bitmap() {
    let rows = vec![
        InventoryValues {
            null_bit_map: 0,
            inv_date_sk: 2450815,
            inv_item_sk: 1,
            inv_warehouse_sk: 1,
            inv_quantity_on_hand: 235,
        },
        InventoryValues {
            null_bit_map: 0b1000,
            inv_date_sk: 2450815,
            inv_item_sk: -1,
            inv_warehouse_sk: 2,
            inv_quantity_on_hand: 7,
        },
    ];
    let c = inventory_columns(&rows);
    assert_eq!(c.inv_date, vec![Some(2450815), Some(2450815)]);
    // a negative key is an absent reference
    assert_eq!(c.inv_item, vec![Some(1), None]);
    assert_eq!(c.inv_warehouse, vec![Some(1), Some(2)]);
    assert_eq!(c.inv_qty, vec![Some(235), None]);
}

#[test]
fn store_sales_repeats_the_coupon_amount_as_the_discount() {
    let row = StoreSalesValues {
        null_bit_map: 0,
        ss_sold_date_sk: 2451000,
        ss_sold_time_sk: 30000,
        ss_sold_item_sk: 5,
        ss_sold_customer_sk: 6,
        ss_sold_cdemo_sk: 7,
        ss_sold_hdemo_sk: 8,
        ss_sold_addr_sk: 9,
        ss_sold_store_sk: 10,
        ss_sold_promo_sk: -1,
        ss_ticket_number: 11,
        pricing_quantity: 3,
        pricing_wholesale_cost: dec(1000),
        pricing_list_price: dec(1500),
        pricing_sales_price: dec(1200),
        pricing_coupon_amount: dec(77),
        pricing_ext_sales_price: dec(3600),
        pricing_ext_wholesale_cost: dec(3000),
        pricing_ext_list_price: dec(4500),
        pricing_ext_tax: dec(180),
        pricing_net_paid: dec(3523),
        pricing_net_paid_including_tax: dec(3703),
        pricing_net_profit: dec(523),
    };
    let c = store_sales_columns(&vec![row]);
    assert_eq!(c.ss_promo, vec![None]);
    assert_eq!(c.ss_quantity, vec![Some(3)]);
    assert_eq!(c.ss_ext_discount_amt, vec![Some(77)]);
    assert_eq!(c.ss_coupon_amt, vec![Some(77)]);
    assert_eq!(c.ss_net_profit, vec![Some(523)]);
}

#[test]
fn time_dim_meal_time_is_null_when_empty() {
    let row = |meal: &str, nbm: i64| TimeDimValues {
        null_bit_map: nbm,
        t_time_sk: 0,
        t_time_id: "AAAAAAAABAAAAAAA".to_string(),
        t_time: 0,
        t_hour: 0,
        t_minute: 0,
        t_second: 0,
        t_am_pm: "AM".to_string(),
        t_shift: "third".to_string(),
        t_sub_shift: "night".to_string(),
        t_meal_time: meal.to_string(),
    };
    let c = time_dim_columns(&vec![row("", 0), row("breakfast", 0b10)]);
    assert_eq!(c.t_meal_time, vec![None, Some("breakfast".to_string())]);
    assert_eq!(c.t_id, vec![Some("AAAAAAAABAAAAAAA".to_string()), None]);
}

#[test]
fn web_page_dates_and_flags() {
    let row = WebPageValues {
        null_bit_map: 0,
        wp_page_sk: 1,
        wp_page_id: "AAAAAAAABAAAAAAA".to_string(),
        wp_rec_start_date_id: 2450815,
        wp_rec_end_date_id: -1,
        wp_creation_date_sk: 2450807,
        wp_access_date_sk: 2452580,
        wp_autogen_flag: false,
        wp_customer_sk: -1,
        wp_url: "http://www.foo.com".to_string(),
        wp_type: "welcome".to_string(),
        wp_char_count: 2531,
        wp_link_count: 8,
        wp_image_count: 3,
        wp_max_ad_count: 4,
    };
    let c = web_page_columns(&vec![row]);
    assert_eq!(c.wp_rec_start, vec![Some(2450815 - 2440588)]);
    assert_eq!(c.wp_rec_end, vec![None]);
    assert_eq!(c.wp_autogen, vec![Some("N".to_string())]);
    assert_eq!(c.wp_customer, vec![None]);
}

fn address(county: Option<&str>, zip: i32) -> AddressValues {
    AddressValues {
        street_number: 730,
        street_name: "Ash Hill".to_string(),
        street_type: "Boulevard".to_string(),
        suite_number: "Suite 0".to_string(),
        city: "Midway".to_string(),
        county: county.map(|c| c.to_string()),
        state: "TN".to_string(),
        zip,
        country: "United States".to_string(),
        gmt_offset: -5,
    }
}

#[test]
fn zip_codes_are_zero_padded_to_five() {
    assert_eq!(zip_string(31904), "31904");
    assert_eq!(zip_string(123), "00123");
    assert_eq!(zip_string(0), "00000");
    assert_eq!(zip_string(-12), format!("{:05}", -12));
    assert_eq!(zip_string(1234567), "1234567");
}

#[test]
fn address_columns_use_bits_from_the_base() {
    let rows = vec![
        (address(Some("Williamson County"), 1904), 0i64, 18u32),
        // street name (base + 1) and zip (base + 7) NULL; no county
        (address(None, 31904), (1i64 << 19) | (1i64 << 25), 18u32),
    ];
    let c = address_columns(&rows);
    assert_eq!(c.street_number, vec![Some(730), Some(730)]);
    assert_eq!(c.street_name, vec![Some("Ash Hill".to_string()), None]);
    assert_eq!(c.county, vec![Some("Williamson County".to_string()), None]);
    assert_eq!(c.zip, vec![Some("01904".to_string()), None]);
    assert_eq!(c.gmt_offset, vec![Some(-5), Some(-5)]);
}

#[test]
fn customer_address_columns_put_the_address_at_bit_two() {
    let row = CustomerAddressValues {
        null_bit_map: 1 << 4,
        ca_addr_sk: 1,
        ca_addr_id: "AAAAAAAABAAAAAAA".to_string(),
        address: address(Some("Williamson County"), 31904),
        ca_location_type: "condo".to_string(),
    };
    let c = customer_address_columns(&vec![row]);
    assert_eq!(c.ca_addr_sk, vec![Some(1)]);
    // bit 4 is the street type (base 2 + 2)
    assert_eq!(c.address.street_type, vec![None]);
    assert_eq!(c.address.street_name, vec![Some("Ash Hill".to_string())]);
    assert_eq!(c.location_type, vec![Some("condo".to_string())]);
}
