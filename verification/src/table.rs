//! The tabular projector: stored rows as rows of cells for display.

use vstd::prelude::*;

use crate::gateway::{RowView, StoredInvoiceRow, row_views};

verus! {

/// One display row: a cell per stored column, in published column order.
/// It carries no identity and no reference back to the store.
#[derive(Clone, Debug, PartialEq, Eq)]
pub struct TableRow {
    pub cells: Vec<String>,
}

impl View for TableRow {
    type V = Seq<Seq<char>>;

    open spec fn view(&self) -> Seq<Seq<char>> {
        self.cells.deep_view()
    }
}

/// The table that a sequence of stored rows projects to: one row of cells
/// per stored row, in the same order.
pub open spec fn projection(rows: Seq<RowView>) -> Seq<Seq<Seq<char>>> {
    Seq::new(rows.len(), |i: int| rows[i].cells())
}

/// The views of a sequence of display rows.
pub open spec fn table_view(table: Seq<TableRow>) -> Seq<Seq<Seq<char>>> {
    Seq::new(table.len(), |i: int| table[i]@)
}

/// Projects one stored row.
pub fn project_row(row: &StoredInvoiceRow) -> (cells: TableRow)
    ensures
        cells@ == row@.cells(),
{
    TableRow { cells: row.cells() }
}

/// Projects stored rows to display rows. Defined for every input; no rows
/// give an empty table. Nothing is cached: each call builds a fresh table.
pub fn project(rows: &Vec<StoredInvoiceRow>) -> (table: Vec<TableRow>)
    ensures
        table@.len() == rows@.len(),
        table_view(table@) == projection(row_views(rows@)),
{
    let mut table: Vec<TableRow> = Vec::new();
    let mut i: usize = 0;
    while i < rows.len()
        invariant
            i <= rows.len(),
            table.len() == i,
            forall|j: int| 0 <= j < i ==> (#[trigger] table@[j])@ == rows@[j]@.cells(),
        decreases rows.len() - i,
    {
        table.push(project_row(&rows[i]));
        i = i + 1;
    }
    assert(table_view(table@) =~= projection(row_views(rows@)));
    table
}

/// Projection is a function of the stored rows alone: two tables projected
/// from the same rows are equal row for row and cell for cell.
pub proof fn lemma_projection_repeats(
    rows: Seq<StoredInvoiceRow>,
    first: Seq<TableRow>,
    second: Seq<TableRow>,
)
    requires
        table_view(first) == projection(row_views(rows)),
        table_view(second) == projection(row_views(rows)),
    ensures
        first.len() == second.len(),
        forall|i: int| 0 <= i < first.len() ==> (#[trigger] first[i])@ == second[i]@,
{
    assert(table_view(first).len() == first.len());
    assert(table_view(second).len() == second.len());
    assert forall|i: int| 0 <= i < first.len() implies (#[trigger] first[i])@ == second[i]@ by {
        assert(table_view(first)[i] == first[i]@);
        assert(table_view(second)[i] == second[i]@);
    }
}

/// The projection keeps the number and the order of the rows, and every row
/// has the four published columns: invoice number, period start, period end,
/// due date.
pub proof fn lemma_projection_shape(rows: Seq<RowView>)
    ensures
        projection(rows).len() == rows.len(),
        forall|i: int|
            0 <= i < rows.len() ==> (#[trigger] projection(rows)[i]) == seq![
                rows[i].invoice_number,
                rows[i].period_start,
                rows[i].period_end,
                rows[i].due_date,
            ],
{
}

} // verus!
