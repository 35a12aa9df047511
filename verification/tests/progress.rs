use tpcgen::progress::{
    progress_total, register_table, register_table_bars, share_across_parts,
    share_handle_across_parts, Bar, PartProgress, RegisteredProgress, SharedCompletion,
    SharedProgress, TableProgress,
};
use tpcgen::tpcds_table::Table;

#[test]
fn shared_completion_completes_only_after_every_part_completes() {
    let mut counter = SharedCompletion::new(3);
    assert_eq!(counter.remaining(), 3);
    assert!(!counter.part_completed());
    assert!(!counter.part_completed());
    assert!(counter.part_completed());
    // a stray extra signal is not forwarded
    assert!(!counter.part_completed());
}

#[test]
fn shared_completion_for_zero_or_one_part_completes_at_once() {
    let mut zero = SharedCompletion::new(0);
    assert_eq!(zero.remaining(), 1);
    assert!(zero.part_completed());
    let mut one = SharedCompletion::new(1);
    assert!(one.part_completed());
}

#[test]
fn sales_tables_register_their_returns_bar_too() {
    assert_eq!(
        register_table(Table::StoreSales),
        TableProgress::Paired { sales: Table::StoreSales, returns: Table::StoreReturns }
    );
    assert_eq!(
        register_table(Table::WebSales),
        TableProgress::Paired { sales: Table::WebSales, returns: Table::WebReturns }
    );
    assert_eq!(register_table(Table::CatalogReturns), TableProgress::Nothing);
    assert_eq!(register_table(Table::Reason), TableProgress::Single(Table::Reason));
    assert_eq!(progress_total(235), 235);
    assert_eq!(progress_total(-1), 0);
}

fn reason_bar() -> Bar {
    Bar::register(Table::Reason, 35)
}

#[test]
fn register_table_total_ignores_chunking() {
    // The bar is sized by the table's full row count (35 reasons at scale
    // factor 1), whether the run generates the whole table or one part.
    let whole = register_table_bars(Table::Reason, 35, 0);
    let one_of_four = register_table_bars(Table::Reason, 35, 0);
    assert_eq!(whole, one_of_four);
    let RegisteredProgress::Single(bar) = whole else {
        panic!("reason registers a single bar");
    };
    assert_eq!(bar.name(), "reason");
    assert_eq!(bar.total(), 35);
    let RegisteredProgress::Paired { sales, returns } =
        register_table_bars(Table::StoreSales, 2_880_404, 287_514)
    else {
        panic!("store_sales registers a pair of bars");
    };
    assert_eq!((sales.name(), sales.total()), ("store_sales", 2_880_404));
    assert_eq!((returns.name(), returns.total()), ("store_returns", 287_514));
    assert_eq!(register_table_bars(Table::WebReturns, 10, 0), RegisteredProgress::Nothing);
}

#[test]
fn share_handle_across_parts_forwards_every_increment() {
    let (mut shared, parts) = share_handle_across_parts(reason_bar(), 4);
    assert_eq!(parts.len(), 4);
    for part in &parts {
        shared.increment(part, 1);
    }
    assert_eq!(shared.bar().units(), 4);
}

#[test]
fn share_handle_across_parts_completes_only_after_every_part_completes() {
    let (mut shared, parts) = share_handle_across_parts(reason_bar(), 3);
    shared.complete(&parts[0]);
    shared.complete(&parts[1]);
    assert_eq!(
        shared.bar().completions(),
        0,
        "must not finish the bar before the last part reports completion"
    );
    shared.complete(&parts[2]);
    assert_eq!(shared.bar().completions(), 1);
}

#[test]
fn share_across_parts_gates_sales_and_returns_independently() {
    let progress = register_table_bars(Table::StoreSales, 100, 10);
    let (shared, parts) = share_across_parts(progress, 2);
    let SharedProgress::Paired { sales: mut sales_bar, returns: mut returns_bar } = shared else {
        panic!("expected paired bars");
    };
    let (
        PartProgress::Paired { sales: sales1, returns: returns1 },
        PartProgress::Paired { sales: sales2, returns: returns2 },
    ) = (parts[0], parts[1])
    else {
        panic!("expected two paired parts");
    };
    assert_eq!(parts.len(), 2);

    sales_bar.complete(&sales1);
    returns_bar.complete(&returns1);
    assert_eq!(sales_bar.bar().completions(), 0);
    assert_eq!(returns_bar.bar().completions(), 0);

    sales_bar.complete(&sales2);
    assert_eq!(sales_bar.bar().completions(), 1);
    assert_eq!(
        returns_bar.bar().completions(),
        0,
        "sales and returns gates are independent"
    );

    returns_bar.complete(&returns2);
    assert_eq!(returns_bar.bar().completions(), 1);
}

#[test]
fn every_part_gets_a_progress_of_the_table_kind() {
    let (_, single) = share_across_parts(RegisteredProgress::Single(reason_bar()), 3);
    assert_eq!(single.len(), 3);
    assert!(single.iter().enumerate().all(|(i, p)| matches!(p, PartProgress::Single(h) if h.part() == i)));
    let (shared, nothing) = share_across_parts(RegisteredProgress::Nothing, 3);
    assert!(matches!(shared, SharedProgress::Nothing));
    assert_eq!(nothing, vec![PartProgress::Nothing; 3]);
    let (_, zero) = share_across_parts(RegisteredProgress::Single(reason_bar()), 0);
    assert_eq!(zero.len(), 1);
}
