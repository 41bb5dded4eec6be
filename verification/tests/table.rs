use invoice_intake::gateway::StoredInvoiceRow;
use invoice_intake::table::{project, project_row, TableRow};

fn row(cells: [&str; 4]) -> StoredInvoiceRow {
    StoredInvoiceRow {
        invoice_number: cells[0].to_string(),
        period_start: cells[1].to_string(),
        period_end: cells[2].to_string(),
        due_date: cells[3].to_string(),
    }
}

fn cells(cells: [&str; 4]) -> TableRow {
    TableRow { cells: cells.iter().map(|cell| cell.to_string()).collect() }
}

#[test]
fn no_rows_project_to_an_empty_table() {
    assert_eq!(project(&vec![]), Vec::<TableRow>::new());
}

#[test]
fn cells_follow_the_published_column_order() {
    let stored = StoredInvoiceRow {
        invoice_number: "987".to_string(),
        period_start: "01 Ιανουαρίου 2024".to_string(),
        period_end: "31 Ιανουαρίου 2024".to_string(),
        due_date: "15/02/2024".to_string(),
    };
    assert_eq!(
        project_row(&stored),
        cells(["987", "01 Ιανουαρίου 2024", "31 Ιανουαρίου 2024", "15/02/2024"])
    );
}

#[test]
fn projection_keeps_the_rows_in_order() {
    let stored = vec![row(["2", "c", "d", "e"]), row(["1", "a", "b", "c"])];
    assert_eq!(project(&stored), vec![cells(["2", "c", "d", "e"]), cells(["1", "a", "b", "c"])]);
}

#[test]
fn projection_keeps_duplicates() {
    let stored = vec![row(["1", "a", "b", "c"]), row(["1", "a", "b", "c"])];
    assert_eq!(project(&stored), vec![cells(["1", "a", "b", "c"]), cells(["1", "a", "b", "c"])]);
}

#[test]
fn projecting_twice_gives_the_same_table() {
    let stored = vec![row(["1", "a", "b", "c"]), row(["2", "c", "d", "e"]), row(["3", "", "", ""])];
    let first = project(&stored);
    let second = project(&stored);
    assert_eq!(first, second);
    assert_eq!(first.len(), 3);
    assert_eq!(stored[2], row(["3", "", "", ""]));
}
