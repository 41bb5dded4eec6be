//! The persistence gateway, as far as it decides anything: its
//! configuration, the statement and parameters of an insert, and the shape
//! of the rows it reads back. Talking to the store itself is left to the
//! caller, who executes what this module prepares and hands back what the
//! store answered.

use vstd::prelude::*;

use crate::error::{ConfigError, StorageError, StorageFault};
use crate::record::{InvoiceRecord, RecordView};

verus! {

/// The configuration option that holds the storage location.
pub const STORAGE_LOCATION_OPTION: &'static str = "DATABASE_URL";

/// The configuration option that holds the parameterized insert statement.
pub const INSERT_STATEMENT_OPTION: &'static str = "INVOICES_STMT";

/// The statement that reads every stored row, columns in published order.
pub const FETCH_ALL_STATEMENT: &'static str =
    "SELECT invoice_number, period_start_date, period_end_date, date_due FROM invoices";

/// The number of columns of a stored row.
pub const COLUMN_COUNT: usize = 4;

/// What [`StoredInvoiceRow::from_columns`] says of a row with another number
/// of columns.
pub const ROW_SHAPE_DETAIL: &'static str = "a stored row must have exactly four columns";

/// Where the store is and how a row is inserted into it.
#[derive(Clone, Debug, PartialEq, Eq)]
pub struct GatewayConfig {
    pub location: String,
    pub insert_statement: String,
}

/// One insert, ready for the driver: the statement text and the values to
/// bind to its parameters, in order. The values are never spliced into the
/// statement.
#[derive(Clone, Debug, PartialEq, Eq)]
pub struct InsertCommand {
    pub statement: String,
    pub parameters: Vec<String>,
}

/// The mathematical value of an [`InsertCommand`].
pub struct CommandView {
    pub statement: Seq<char>,
    pub parameters: Seq<Seq<char>>,
}

/// A row as it is stored: the four fields of a complete record.
#[derive(Clone, Debug, PartialEq, Eq)]
pub struct StoredInvoiceRow {
    pub invoice_number: String,
    pub period_start: String,
    pub period_end: String,
    pub due_date: String,
}

/// What a fetch hands to the caller: every stored row, in insertion order,
/// or no row at all together with the error that prevented the read.
#[derive(Clone, Debug, PartialEq, Eq)]
pub struct Snapshot {
    pub rows: Vec<StoredInvoiceRow>,
    pub error: Option<StorageError>,
}

/// The mathematical value of a [`StoredInvoiceRow`].
pub struct RowView {
    pub invoice_number: Seq<char>,
    pub period_start: Seq<char>,
    pub period_end: Seq<char>,
    pub due_date: Seq<char>,
}

impl RowView {
    /// The row's columns in published order: invoice number, period start,
    /// period end, due date.
    pub open spec fn cells(self) -> Seq<Seq<char>> {
        seq![self.invoice_number, self.period_start, self.period_end, self.due_date]
    }

    /// The row that storing a complete record appends.
    pub open spec fn of_record(record: RecordView) -> RowView
        recommends
            record.is_complete(),
    {
        RowView {
            invoice_number: record.invoice_number.unwrap(),
            period_start: record.period_start.unwrap(),
            period_end: record.period_end.unwrap(),
            due_date: record.due_date.unwrap(),
        }
    }

    /// The row that a sequence of columns holds, if there are four of them.
    pub open spec fn of_columns(columns: Seq<Seq<char>>) -> Option<RowView> {
        if columns.len() == 4 {
            Some(
                RowView {
                    invoice_number: columns[0],
                    period_start: columns[1],
                    period_end: columns[2],
                    due_date: columns[3],
                },
            )
        } else {
            None
        }
    }
}

/// Every row of `table` has four columns.
pub open spec fn well_shaped(table: Seq<Seq<Seq<char>>>) -> bool {
    forall|i: int| 0 <= i < table.len() ==> (#[trigger] table[i]).len() == 4
}

/// The rows that a well-shaped table holds, in the table's order.
pub open spec fn rows_of_table(table: Seq<Seq<Seq<char>>>) -> Seq<RowView> {
    Seq::new(table.len(), |i: int| RowView::of_columns(table[i]).unwrap())
}

/// The views of a sequence of rows.
pub open spec fn row_views(rows: Seq<StoredInvoiceRow>) -> Seq<RowView> {
    Seq::new(rows.len(), |i: int| rows[i]@)
}

impl View for InsertCommand {
    type V = CommandView;

    open spec fn view(&self) -> CommandView {
        CommandView { statement: self.statement@, parameters: self.parameters.deep_view() }
    }
}

impl View for StoredInvoiceRow {
    type V = RowView;

    open spec fn view(&self) -> RowView {
        RowView {
            invoice_number: self.invoice_number@,
            period_start: self.period_start@,
            period_end: self.period_end@,
            due_date: self.due_date@,
        }
    }
}

impl GatewayConfig {
    /// The insert that stores `record` under this configuration.
    pub open spec fn command_for(self, record: RecordView) -> CommandView
        recommends
            record.is_complete(),
    {
        CommandView {
            statement: self.insert_statement@,
            parameters: RowView::of_record(record).cells(),
        }
    }

    /// Builds the configuration from the two options as the environment
    /// gave them. A missing storage location is reported before a missing
    /// insert statement.
    pub fn from_options(location: Option<String>, insert_statement: Option<String>) -> (config:
        Result<GatewayConfig, ConfigError>)
        ensures
            match config {
                Ok(found) => location == Some(found.location) && insert_statement == Some(
                    found.insert_statement,
                ),
                Err(error) => if location is None {
                    error == ConfigError::MissingStorageLocation
                } else {
                    insert_statement is None && error == ConfigError::MissingInsertStatement
                },
            },
    {
        match location {
            None => Err(ConfigError::MissingStorageLocation),
            Some(location) => match insert_statement {
                None => Err(ConfigError::MissingInsertStatement),
                Some(insert_statement) => Ok(GatewayConfig { location, insert_statement }),
            },
        }
    }

    /// Prepares the insert of a complete record: the configured statement,
    /// with the record's four fields as parameters in published column
    /// order. The gateway does not validate again: the caller asks the
    /// validator first.
    pub fn insert_command(&self, record: &InvoiceRecord) -> (command: InsertCommand)
        requires
            record@.is_complete(),
        ensures
            command@ == self.command_for(record@),
    {
        let mut parameters: Vec<String> = Vec::new();
        match (&record.invoice_number, &record.period_start, &record.period_end, &record.due_date) {
            (Some(invoice_number), Some(period_start), Some(period_end), Some(due_date)) => {
                parameters.push(invoice_number.clone());
                parameters.push(period_start.clone());
                parameters.push(period_end.clone());
                parameters.push(due_date.clone());
            },
            _ => {
                assert(false);
            },
        }
        let command = InsertCommand { statement: self.insert_statement.clone(), parameters };
        assert(command@.parameters =~= RowView::of_record(record@).cells());
        command
    }
}

impl StoredInvoiceRow {
    /// The row that storing a complete record appends.
    pub fn of_record(record: &InvoiceRecord) -> (row: StoredInvoiceRow)
        requires
            record@.is_complete(),
        ensures
            row@ == RowView::of_record(record@),
    {
        match (&record.invoice_number, &record.period_start, &record.period_end, &record.due_date) {
            (Some(invoice_number), Some(period_start), Some(period_end), Some(due_date)) => {
                StoredInvoiceRow {
                    invoice_number: invoice_number.clone(),
                    period_start: period_start.clone(),
                    period_end: period_end.clone(),
                    due_date: due_date.clone(),
                }
            },
            _ => {
                assert(false);
                vstd::pervasive::unreached()
            },
        }
    }

    /// Reads a row from the columns the driver returned for it. A row with
    /// another number of columns than four is a storage error.
    pub fn from_columns(columns: &Vec<String>) -> (row: Result<StoredInvoiceRow, StorageError>)
        ensures
            match row {
                Ok(found) => RowView::of_columns(columns.deep_view()) == Some(found@),
                Err(error) => columns.len() != 4 && error.fault == StorageFault::RowShape
                    && error.detail@ == ROW_SHAPE_DETAIL@,
            },
    {
        if columns.len() != COLUMN_COUNT {
            return Err(
                StorageError { fault: StorageFault::RowShape, detail: ROW_SHAPE_DETAIL.to_owned() },
            );
        }
        Ok(
            StoredInvoiceRow {
                invoice_number: columns[0].clone(),
                period_start: columns[1].clone(),
                period_end: columns[2].clone(),
                due_date: columns[3].clone(),
            },
        )
    }

    /// The row's columns in published order.
    pub fn cells(&self) -> (cells: Vec<String>)
        ensures
            cells.deep_view() == self@.cells(),
    {
        let mut cells: Vec<String> = Vec::new();
        cells.push(self.invoice_number.clone());
        cells.push(self.period_start.clone());
        cells.push(self.period_end.clone());
        cells.push(self.due_date.clone());
        assert(cells.deep_view() =~= self@.cells());
        cells
    }
}

/// Reads every row of a fetched table, keeping the table's order, which is
/// the order of insertion. The whole table is read at once. One row of the
/// wrong shape fails the whole read.
pub fn rows_from_table(table: &Vec<Vec<String>>) -> (rows: Result<
    Vec<StoredInvoiceRow>,
    StorageError,
>)
    ensures
        rows is Ok <==> well_shaped(table.deep_view()),
        rows matches Ok(found) ==> found@.len() == table@.len() && row_views(found@)
            == rows_of_table(table.deep_view()),
        rows matches Err(error) ==> error.fault == StorageFault::RowShape && error.detail@
            == ROW_SHAPE_DETAIL@,
{
    let ghost model = table.deep_view();
    let mut rows: Vec<StoredInvoiceRow> = Vec::new();
    let mut i: usize = 0;
    while i < table.len()
        invariant
            i <= table.len(),
            model == table.deep_view(),
            rows.len() == i,
            forall|j: int| 0 <= j < i ==> (#[trigger] model[j]).len() == 4,
            forall|j: int|
                0 <= j < i ==> RowView::of_columns(model[j]) == Some((#[trigger] rows@[j])@),
        decreases table.len() - i,
    {
        match StoredInvoiceRow::from_columns(&table[i]) {
            Ok(row) => {
                rows.push(row);
            },
            Err(error) => {
                assert(model[i as int].len() != 4);
                return Err(error);
            },
        }
        i = i + 1;
    }
    assert(row_views(rows@) =~= rows_of_table(model));
    Ok(rows)
}

/// Turns the driver's answer to [`FETCH_ALL_STATEMENT`] into a snapshot.
///
/// A table that was read gives its rows and no error; an empty table gives
/// no rows and no error. A storage error, or a table with a row of the
/// wrong shape, gives an empty snapshot with the error beside it, so that
/// the display can show "no data".
pub fn snapshot(answer: Result<Vec<Vec<String>>, StorageError>) -> (snapshot: Snapshot)
    ensures
        match answer {
            Ok(table) => if well_shaped(table.deep_view()) {
                &&& snapshot.error is None
                &&& snapshot.rows@.len() == table@.len()
                &&& row_views(snapshot.rows@) == rows_of_table(table.deep_view())
            } else {
                &&& snapshot.rows@.len() == 0
                &&& snapshot.error matches Some(error)
                &&& error.fault == StorageFault::RowShape
                &&& error.detail@ == ROW_SHAPE_DETAIL@
            },
            Err(error) => snapshot.rows@.len() == 0 && snapshot.error == Some(error),
        },
{
    match answer {
        Ok(table) => match rows_from_table(&table) {
            Ok(rows) => Snapshot { rows, error: None },
            Err(error) => Snapshot { rows: Vec::new(), error: Some(error) },
        },
        Err(error) => Snapshot { rows: Vec::new(), error: Some(error) },
    }
}

/// What is bound on insert is what is read back: a table that holds just
/// the parameters bound for a complete record reads as exactly one row, and
/// that row's cells are the record's four fields in published column order.
pub proof fn lemma_inserted_row_reads_back(config: GatewayConfig, record: RecordView)
    requires
        record.is_complete(),
    ensures
        well_shaped(seq![config.command_for(record).parameters]),
        rows_of_table(seq![config.command_for(record).parameters]) == seq![
            RowView::of_record(record),
        ],
        RowView::of_record(record).cells() == seq![
            record.invoice_number.unwrap(),
            record.period_start.unwrap(),
            record.period_end.unwrap(),
            record.due_date.unwrap(),
        ],
{
    let table = seq![config.command_for(record).parameters];
    assert(table[0].len() == 4);
    assert(rows_of_table(table) =~= seq![RowView::of_record(record)]);
}

/// An empty table is well shaped and reads as no rows: a fetch from an
/// empty store that answers is an empty snapshot, not an error.
pub proof fn lemma_empty_table_reads_empty()
    ensures
        well_shaped(Seq::<Seq<Seq<char>>>::empty()),
        rows_of_table(Seq::<Seq<Seq<char>>>::empty()) == Seq::<RowView>::empty(),
{
    assert(rows_of_table(Seq::<Seq<Seq<char>>>::empty()) =~= Seq::<RowView>::empty());
}

} // verus!
