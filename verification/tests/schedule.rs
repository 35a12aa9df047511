use tpcgen::schedule::{largest_first_order, progress_totals, TableTotal};
use tpcgen::tpcds_table::Table;

#[test]
fn largest_entries_run_first_and_ties_run_latest_first() {
    assert_eq!(largest_first_order(&vec![]), Vec::<usize>::new());
    assert_eq!(largest_first_order(&vec![3, 78, 1, 78, 8]), vec![3, 1, 4, 0, 2]);
    assert_eq!(largest_first_order(&vec![5, 5, 5]), vec![2, 1, 0]);
}

#[test]
fn totals_sum_row_groups_across_parts() {
    let tables = vec![Table::StoreSales, Table::Reason, Table::StoreSales, Table::StoreSales];
    let sizes = vec![20, 1, 20, 19];
    assert_eq!(
        progress_totals(&tables, &sizes),
        vec![
            TableTotal { table: Table::StoreSales, total: 59, parts: 3 },
            TableTotal { table: Table::Reason, total: 1, parts: 1 },
        ]
    );
    assert_eq!(progress_totals(&vec![], &vec![]), vec![]);
}
