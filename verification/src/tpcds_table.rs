//! The TPC-DS table catalogue: the tables that can be generated, their
//! names, their `--help` descriptions, and parsing of table names.
use crate::text::{ascii_lower, eq_ignoring_ascii_case};
use vstd::prelude::*;

verus! {

/// A TPC-DS output table.
#[derive(Clone, Copy, Debug, PartialEq, Eq, Structural, Hash)]
pub enum Table {
    CallCenter,
    CatalogPage,
    CatalogReturns,
    CatalogSales,
    Customer,
    CustomerAddress,
    CustomerDemographics,
    DateDim,
    HouseholdDemographics,
    IncomeBand,
    Inventory,
    Item,
    Promotion,
    Reason,
    ShipMode,
    Store,
    StoreReturns,
    StoreSales,
    TimeDim,
    Warehouse,
    WebPage,
    WebReturns,
    WebSales,
    WebSite,
    DbgenVersion,
}

/// The lower-case name of a table, as used for file names and on the command line.
pub open spec fn table_name(t: Table) -> Seq<char> {
    match t {
        Table::CallCenter => "call_center"@,
        Table::CatalogPage => "catalog_page"@,
        Table::CatalogReturns => "catalog_returns"@,
        Table::CatalogSales => "catalog_sales"@,
        Table::Customer => "customer"@,
        Table::CustomerAddress => "customer_address"@,
        Table::CustomerDemographics => "customer_demographics"@,
        Table::DateDim => "date_dim"@,
        Table::HouseholdDemographics => "household_demographics"@,
        Table::IncomeBand => "income_band"@,
        Table::Inventory => "inventory"@,
        Table::Item => "item"@,
        Table::Promotion => "promotion"@,
        Table::Reason => "reason"@,
        Table::ShipMode => "ship_mode"@,
        Table::Store => "store"@,
        Table::StoreReturns => "store_returns"@,
        Table::StoreSales => "store_sales"@,
        Table::TimeDim => "time_dim"@,
        Table::Warehouse => "warehouse"@,
        Table::WebPage => "web_page"@,
        Table::WebReturns => "web_returns"@,
        Table::WebSales => "web_sales"@,
        Table::WebSite => "web_site"@,
        Table::DbgenVersion => "dbgen_version"@,
    }
}

/// The one-line description of a table shown in `--help`.
pub open spec fn table_help_text(t: Table) -> Seq<char> {
    match t {
        Table::CallCenter => "Call center dimension"@,
        Table::CatalogPage => "Catalog page dimension"@,
        Table::CatalogReturns => "Catalog returns fact"@,
        Table::CatalogSales => "Catalog sales fact"@,
        Table::Customer => "Customer dimension"@,
        Table::CustomerAddress => "Customer address dimension"@,
        Table::CustomerDemographics => "Customer demographics dimension"@,
        Table::DateDim => "Date dimension"@,
        Table::HouseholdDemographics => "Household demographics dimension"@,
        Table::IncomeBand => "Income band dimension"@,
        Table::Inventory => "Inventory fact"@,
        Table::Item => "Item dimension"@,
        Table::Promotion => "Promotion dimension"@,
        Table::Reason => "Reason dimension"@,
        Table::ShipMode => "Ship mode dimension"@,
        Table::Store => "Store dimension"@,
        Table::StoreReturns => "Store returns fact"@,
        Table::StoreSales => "Store sales fact"@,
        Table::TimeDim => "Time dimension"@,
        Table::Warehouse => "Warehouse dimension"@,
        Table::WebPage => "Web page dimension"@,
        Table::WebReturns => "Web returns fact"@,
        Table::WebSales => "Web sales fact"@,
        Table::WebSite => "Web site dimension"@,
        Table::DbgenVersion => "Metadata about the generator run"@,
    }
}

/// Every table, in catalogue order.
pub open spec fn main_table_seq() -> Seq<Table> {
    seq![
        Table::CallCenter,
        Table::CatalogPage,
        Table::CatalogReturns,
        Table::CatalogSales,
        Table::Customer,
        Table::CustomerAddress,
        Table::CustomerDemographics,
        Table::DateDim,
        Table::HouseholdDemographics,
        Table::IncomeBand,
        Table::Inventory,
        Table::Item,
        Table::Promotion,
        Table::Reason,
        Table::ShipMode,
        Table::Store,
        Table::StoreReturns,
        Table::StoreSales,
        Table::TimeDim,
        Table::Warehouse,
        Table::WebPage,
        Table::WebReturns,
        Table::WebSales,
        Table::WebSite,
        Table::DbgenVersion,
    ]
}

/// The catalogue position of a table in [`main_table_seq`].
pub open spec fn table_index(t: Table) -> int {
    match t {
        Table::CallCenter => 0,
        Table::CatalogPage => 1,
        Table::CatalogReturns => 2,
        Table::CatalogSales => 3,
        Table::Customer => 4,
        Table::CustomerAddress => 5,
        Table::CustomerDemographics => 6,
        Table::DateDim => 7,
        Table::HouseholdDemographics => 8,
        Table::IncomeBand => 9,
        Table::Inventory => 10,
        Table::Item => 11,
        Table::Promotion => 12,
        Table::Reason => 13,
        Table::ShipMode => 14,
        Table::Store => 15,
        Table::StoreReturns => 16,
        Table::StoreSales => 17,
        Table::TimeDim => 18,
        Table::Warehouse => 19,
        Table::WebPage => 20,
        Table::WebReturns => 21,
        Table::WebSales => 22,
        Table::WebSite => 23,
        Table::DbgenVersion => 24,
    }
}

/// `main_table_seq` lists every table exactly once, at its catalogue position.
pub proof fn lemma_main_table_seq_index(t: Table)
    ensures
        0 <= table_index(t) < main_table_seq().len(),
        main_table_seq()[table_index(t)] == t,
        main_table_seq().len() == 25,
{
}

/// Every table occurs in the catalogue.
pub proof fn lemma_main_table_seq_contains(t: Table)
    ensures
        main_table_seq().contains(t),
{
    lemma_main_table_seq_index(t);
}

/// Length, first character and next-to-last character of a table's name;
/// no two tables share them.
pub open spec fn name_key(t: Table) -> (int, char, char) {
    match t {
        Table::CallCenter => (11, 'c', 'e'),
        Table::CatalogPage => (12, 'c', 'g'),
        Table::CatalogReturns => (15, 'c', 'n'),
        Table::CatalogSales => (13, 'c', 'e'),
        Table::Customer => (8, 'c', 'e'),
        Table::CustomerAddress => (16, 'c', 's'),
        Table::CustomerDemographics => (21, 'c', 'c'),
        Table::DateDim => (8, 'd', 'i'),
        Table::HouseholdDemographics => (22, 'h', 'c'),
        Table::IncomeBand => (11, 'i', 'n'),
        Table::Inventory => (9, 'i', 'r'),
        Table::Item => (4, 'i', 'e'),
        Table::Promotion => (9, 'p', 'o'),
        Table::Reason => (6, 'r', 'o'),
        Table::ShipMode => (9, 's', 'd'),
        Table::Store => (5, 's', 'r'),
        Table::StoreReturns => (13, 's', 'n'),
        Table::StoreSales => (11, 's', 'e'),
        Table::TimeDim => (8, 't', 'i'),
        Table::Warehouse => (9, 'w', 's'),
        Table::WebPage => (8, 'w', 'g'),
        Table::WebReturns => (11, 'w', 'n'),
        Table::WebSales => (9, 'w', 'e'),
        Table::WebSite => (8, 'w', 't'),
        Table::DbgenVersion => (13, 'd', 'o'),
    }
}

/// The name of `t` has the length and characters that `name_key` records.
proof fn lemma_name_key(t: Table)
    ensures
        table_name(t).len() == name_key(t).0,
        table_name(t)[0] == name_key(t).1,
        table_name(t)[table_name(t).len() - 2] == name_key(t).2,
{
    match t {
        Table::CallCenter => {
            reveal_strlit("call_center");
        },
        Table::CatalogPage => {
            reveal_strlit("catalog_page");
        },
        Table::CatalogReturns => {
            reveal_strlit("catalog_returns");
        },
        Table::CatalogSales => {
            reveal_strlit("catalog_sales");
        },
        Table::Customer => {
            reveal_strlit("customer");
        },
        Table::CustomerAddress => {
            reveal_strlit("customer_address");
        },
        Table::CustomerDemographics => {
            reveal_strlit("customer_demographics");
        },
        Table::DateDim => {
            reveal_strlit("date_dim");
        },
        Table::HouseholdDemographics => {
            reveal_strlit("household_demographics");
        },
        Table::IncomeBand => {
            reveal_strlit("income_band");
        },
        Table::Inventory => {
            reveal_strlit("inventory");
        },
        Table::Item => {
            reveal_strlit("item");
        },
        Table::Promotion => {
            reveal_strlit("promotion");
        },
        Table::Reason => {
            reveal_strlit("reason");
        },
        Table::ShipMode => {
            reveal_strlit("ship_mode");
        },
        Table::Store => {
            reveal_strlit("store");
        },
        Table::StoreReturns => {
            reveal_strlit("store_returns");
        },
        Table::StoreSales => {
            reveal_strlit("store_sales");
        },
        Table::TimeDim => {
            reveal_strlit("time_dim");
        },
        Table::Warehouse => {
            reveal_strlit("warehouse");
        },
        Table::WebPage => {
            reveal_strlit("web_page");
        },
        Table::WebReturns => {
            reveal_strlit("web_returns");
        },
        Table::WebSales => {
            reveal_strlit("web_sales");
        },
        Table::WebSite => {
            reveal_strlit("web_site");
        },
        Table::DbgenVersion => {
            reveal_strlit("dbgen_version");
        },
    }
}

/// Table names are told apart even without regard to ASCII case: two names
/// are equal ignoring case exactly when they name the same table.
pub proof fn lemma_table_names_distinct(t1: Table, t2: Table)
    ensures
        eq_ignoring_ascii_case(table_name(t1), table_name(t2)) <==> t1 == t2,
{
    lemma_name_key(t1);
    lemma_name_key(t2);
    if eq_ignoring_ascii_case(table_name(t1), table_name(t2)) {
        let a = table_name(t1);
        let b = table_name(t2);
        assert(ascii_lower(a).len() == a.len());
        assert(ascii_lower(a)[0] == ascii_lower(b)[0]);
        assert(ascii_lower(a)[a.len() - 2] == ascii_lower(b)[b.len() - 2]);
        assert(name_key(t1) == name_key(t2));
    }
}

impl Table {
    /// The table's name (for example `store_sales`).
    pub fn get_name(self) -> (r: &'static str)
        ensures
            r@ == table_name(self),
    {
        match self {
            Table::CallCenter => "call_center",
            Table::CatalogPage => "catalog_page",
            Table::CatalogReturns => "catalog_returns",
            Table::CatalogSales => "catalog_sales",
            Table::Customer => "customer",
            Table::CustomerAddress => "customer_address",
            Table::CustomerDemographics => "customer_demographics",
            Table::DateDim => "date_dim",
            Table::HouseholdDemographics => "household_demographics",
            Table::IncomeBand => "income_band",
            Table::Inventory => "inventory",
            Table::Item => "item",
            Table::Promotion => "promotion",
            Table::Reason => "reason",
            Table::ShipMode => "ship_mode",
            Table::Store => "store",
            Table::StoreReturns => "store_returns",
            Table::StoreSales => "store_sales",
            Table::TimeDim => "time_dim",
            Table::Warehouse => "warehouse",
            Table::WebPage => "web_page",
            Table::WebReturns => "web_returns",
            Table::WebSales => "web_sales",
            Table::WebSite => "web_site",
            Table::DbgenVersion => "dbgen_version",
        }
    }

    /// All tables, in catalogue order.
    pub fn main_tables() -> (v: Vec<Table>)
        ensures
            v@ == main_table_seq(),
    {
        let v = vec![
            Table::CallCenter,
            Table::CatalogPage,
            Table::CatalogReturns,
            Table::CatalogSales,
            Table::Customer,
            Table::CustomerAddress,
            Table::CustomerDemographics,
            Table::DateDim,
            Table::HouseholdDemographics,
            Table::IncomeBand,
            Table::Inventory,
            Table::Item,
            Table::Promotion,
            Table::Reason,
            Table::ShipMode,
            Table::Store,
            Table::StoreReturns,
            Table::StoreSales,
            Table::TimeDim,
            Table::Warehouse,
            Table::WebPage,
            Table::WebReturns,
            Table::WebSales,
            Table::WebSite,
            Table::DbgenVersion,
        ];
        assert(v@ =~= main_table_seq());
        v
    }
}

/// The one-line `--help` description of `table`.
pub fn table_help(table: Table) -> (r: &'static str)
    ensures
        r@ == table_help_text(table),
        r@.len() > 0,
{
    match table {
        Table::CallCenter => {
            proof {
                reveal_strlit("Call center dimension");
            }
            "Call center dimension"
        },
        Table::CatalogPage => {
            proof {
                reveal_strlit("Catalog page dimension");
            }
            "Catalog page dimension"
        },
        Table::CatalogReturns => {
            proof {
                reveal_strlit("Catalog returns fact");
            }
            "Catalog returns fact"
        },
        Table::CatalogSales => {
            proof {
                reveal_strlit("Catalog sales fact");
            }
            "Catalog sales fact"
        },
        Table::Customer => {
            proof {
                reveal_strlit("Customer dimension");
            }
            "Customer dimension"
        },
        Table::CustomerAddress => {
            proof {
                reveal_strlit("Customer address dimension");
            }
            "Customer address dimension"
        },
        Table::CustomerDemographics => {
            proof {
                reveal_strlit("Customer demographics dimension");
            }
            "Customer demographics dimension"
        },
        Table::DateDim => {
            proof {
                reveal_strlit("Date dimension");
            }
            "Date dimension"
        },
        Table::HouseholdDemographics => {
            proof {
                reveal_strlit("Household demographics dimension");
            }
            "Household demographics dimension"
        },
        Table::IncomeBand => {
            proof {
                reveal_strlit("Income band dimension");
            }
            "Income band dimension"
        },
        Table::Inventory => {
            proof {
                reveal_strlit("Inventory fact");
            }
            "Inventory fact"
        },
        Table::Item => {
            proof {
                reveal_strlit("Item dimension");
            }
            "Item dimension"
        },
        Table::Promotion => {
            proof {
                reveal_strlit("Promotion dimension");
            }
            "Promotion dimension"
        },
        Table::Reason => {
            proof {
                reveal_strlit("Reason dimension");
            }
            "Reason dimension"
        },
        Table::ShipMode => {
            proof {
                reveal_strlit("Ship mode dimension");
            }
            "Ship mode dimension"
        },
        Table::Store => {
            proof {
                reveal_strlit("Store dimension");
            }
            "Store dimension"
        },
        Table::StoreReturns => {
            proof {
                reveal_strlit("Store returns fact");
            }
            "Store returns fact"
        },
        Table::StoreSales => {
            proof {
                reveal_strlit("Store sales fact");
            }
            "Store sales fact"
        },
        Table::TimeDim => {
            proof {
                reveal_strlit("Time dimension");
            }
            "Time dimension"
        },
        Table::Warehouse => {
            proof {
                reveal_strlit("Warehouse dimension");
            }
            "Warehouse dimension"
        },
        Table::WebPage => {
            proof {
                reveal_strlit("Web page dimension");
            }
            "Web page dimension"
        },
        Table::WebReturns => {
            proof {
                reveal_strlit("Web returns fact");
            }
            "Web returns fact"
        },
        Table::WebSales => {
            proof {
                reveal_strlit("Web sales fact");
            }
            "Web sales fact"
        },
        Table::WebSite => {
            proof {
                reveal_strlit("Web site dimension");
            }
            "Web site dimension"
        },
        Table::DbgenVersion => {
            proof {
                reveal_strlit("Metadata about the generator run");
            }
            "Metadata about the generator run"
        },
    }
}

} // verus!
