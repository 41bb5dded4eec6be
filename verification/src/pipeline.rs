//! The pipeline's decisions: what to do with one document, and what to tell
//! the log and the user afterwards. The caller does the outside work in
//! between: it decodes the document, executes the insert, and writes the
//! log.

use vstd::prelude::*;

use crate::error::{AppError, StorageError, StorageFault};
use crate::extract::{
    lemma_full_yield_gives_complete_record, lemma_no_occurrence_gives_absent_record, Extractor,
    PatternSetView,
};
use crate::gateway::{
    rows_of_table, snapshot, well_shaped, GatewayConfig, InsertCommand, ROW_SHAPE_DETAIL,
};
use crate::record::{InvoiceRecord, RecordView};
use crate::table::{project, projection, table_view, TableRow};

verus! {

/// What to do with a document.
#[derive(Clone, Debug, PartialEq, Eq)]
pub enum Step {
    /// The decoder failed. Nothing was extracted and no record exists.
    Undecoded(AppError),
    /// The record is incomplete. Nothing is stored, not even in part.
    Rejected(InvoiceRecord),
    /// The record is complete: execute `command` to store it.
    Persist { record: InvoiceRecord, command: InsertCommand },
}

/// What happened to a document, for the log and the user.
#[derive(Clone, Debug, PartialEq, Eq)]
pub enum Notice {
    /// The record was stored.
    Saved,
    /// The record was incomplete and was not stored.
    Incomplete,
    /// The document could not be decoded.
    DecodeFailed(AppError),
    /// The store failed; the record was not saved.
    NotSaved(AppError),
}

/// What the read path hands to the display: the table to show, and the
/// error to report if the store could not be read.
#[derive(Clone, Debug, PartialEq, Eq)]
pub struct Loaded {
    pub table: Vec<TableRow>,
    pub error: Option<AppError>,
}

impl Step {
    /// The step is the one owed for `record` under `config`: persist a
    /// complete record with the insert prepared for it, reject any other.
    pub open spec fn decides(self, config: GatewayConfig, record: RecordView) -> bool {
        match self {
            Step::Persist { record: kept, command } => {
                &&& record.is_complete()
                &&& kept@ == record
                &&& command@ == config.command_for(record)
            },
            Step::Rejected(kept) => !record.is_complete() && kept@ == record,
            Step::Undecoded(_) => false,
        }
    }

    /// The notice that the step already settles, if any. A `Persist` step
    /// settles nothing before the insert has run.
    pub open spec fn settled(self) -> Option<Notice> {
        match self {
            Step::Undecoded(error) => Some(Notice::DecodeFailed(error)),
            Step::Rejected(_) => Some(Notice::Incomplete),
            Step::Persist { .. } => None,
        }
    }

    /// The notice for a step that needs no insert; `None` for a step that
    /// does.
    pub fn notice(self) -> (notice: Option<Notice>)
        ensures
            notice == self.settled(),
    {
        match self {
            Step::Undecoded(error) => Some(Notice::DecodeFailed(error)),
            Step::Rejected(_) => Some(Notice::Incomplete),
            Step::Persist { .. } => None,
        }
    }
}

impl Notice {
    /// Whether the user is told, beyond the log: a failed decode and a
    /// failed save are surfaced, a stored or an incomplete record is not.
    pub open spec fn surfaces(self) -> bool {
        self is DecodeFailed || self is NotSaved
    }

    /// The text of [`Notice::log_line`].
    pub open spec fn log_text(self) -> Seq<char> {
        match self {
            Notice::Saved => "Successfully inserted invoice data."@,
            Notice::Incomplete => "Incomplete data, nothing to insert."@,
            Notice::DecodeFailed(error) => "Failed to extract text: "@ + error.message_text(),
            Notice::NotSaved(error) => "Failed to insert invoice data: "@ + error.message_text(),
        }
    }

    /// Whether the user is told, beyond the log.
    pub fn surfaces_to_user(&self) -> (surfaces: bool)
        ensures
            surfaces == self.surfaces(),
    {
        match self {
            Notice::DecodeFailed(_) => true,
            Notice::NotSaved(_) => true,
            _ => false,
        }
    }

    /// The line for the log.
    pub fn log_line(&self) -> (line: String)
        ensures
            line@ == self.log_text(),
    {
        match self {
            Notice::Saved => "Successfully inserted invoice data.".to_owned(),
            Notice::Incomplete => "Incomplete data, nothing to insert.".to_owned(),
            Notice::DecodeFailed(error) => {
                let mut line = "Failed to extract text: ".to_owned();
                let detail = error.message();
                line.append(detail.as_str());
                line
            },
            Notice::NotSaved(error) => {
                let mut line = "Failed to insert invoice data: ".to_owned();
                let detail = error.message();
                line.append(detail.as_str());
                line
            },
        }
    }
}

/// The validator's decision: a complete record goes to the store, any
/// other is rejected whole. The step keeps the record as it was given.
pub fn decide(config: &GatewayConfig, record: InvoiceRecord) -> (step: Step)
    ensures
        step.decides(*config, record@),
        step matches Step::Persist { record: kept, .. } ==> kept == record,
        step matches Step::Rejected(kept) ==> kept == record,
{
    if record.is_complete() {
        let command = config.insert_command(&record);
        Step::Persist { record, command }
    } else {
        Step::Rejected(record)
    }
}

/// Decides what to do with a document, given what the decoder made of it:
/// its text, or the decoder's explanation of its failure. No extraction is
/// attempted after a failed decode. An empty text is not a failure.
pub fn process(extractor: &Extractor, config: &GatewayConfig, decoded: Result<String, String>) -> (step:
    Step)
    ensures
        match decoded {
            Ok(text) => step.decides(*config, extractor.patterns().extraction(text@)),
            Err(detail) => step == Step::Undecoded(AppError::Decode(detail)),
        },
{
    match decoded {
        Ok(text) => {
            let record = extractor.extract(text.as_str());
            decide(config, record)
        },
        Err(detail) => Step::Undecoded(AppError::Decode(detail)),
    }
}

/// The notice for an insert that has run: `Ok` holds the number of rows the
/// store reported as written. A failure is recoverable and carries the
/// store's error.
pub fn insert_notice(outcome: Result<usize, StorageError>) -> (notice: Notice)
    ensures
        match outcome {
            Ok(_) => notice == Notice::Saved,
            Err(error) => notice == Notice::NotSaved(AppError::Storage(error)),
        },
{
    match outcome {
        Ok(_) => Notice::Saved,
        Err(error) => Notice::NotSaved(AppError::Storage(error)),
    }
}

/// The read path: turns the driver's answer to a fetch into the table for
/// the display. A table that was read is projected row by row, in order. On
/// a storage error, or a row of the wrong shape, the table is empty and the
/// error comes with it, so that the display shows "no data" and goes on.
pub fn load(answer: Result<Vec<Vec<String>>, StorageError>) -> (loaded: Loaded)
    ensures
        match answer {
            Ok(fetched) => if well_shaped(fetched.deep_view()) {
                &&& loaded.error is None
                &&& loaded.table@.len() == fetched@.len()
                &&& table_view(loaded.table@) == projection(rows_of_table(fetched.deep_view()))
            } else {
                &&& loaded.table@.len() == 0
                &&& loaded.error matches Some(AppError::Storage(error))
                &&& error.fault == StorageFault::RowShape
                &&& error.detail@ == ROW_SHAPE_DETAIL@
            },
            Err(error) => loaded.table@.len() == 0 && loaded.error == Some(
                AppError::Storage(error),
            ),
        },
{
    let found = snapshot(answer);
    let table = project(&found.rows);
    let error = match found.error {
        Some(error) => Some(AppError::Storage(error)),
        None => None,
    };
    Loaded { table, error }
}

/// Partial records are never written: a decided step persists exactly the
/// complete records, and what it binds are the record's own four fields.
pub proof fn lemma_only_complete_records_persist(step: Step, config: GatewayConfig, record: RecordView)
    requires
        step.decides(config, record),
    ensures
        step is Persist <==> record.is_complete(),
        step is Rejected <==> !record.is_complete(),
        step matches Step::Persist { command, .. } ==> command@.parameters == seq![
            record.invoice_number.unwrap(),
            record.period_start.unwrap(),
            record.period_end.unwrap(),
            record.due_date.unwrap(),
        ],
{
}

/// A text in which none of the patterns occurs is rejected: the step owed
/// for its record stores nothing.
pub proof fn lemma_no_occurrence_is_rejected(
    step: Step,
    config: GatewayConfig,
    set: PatternSetView,
    text: Seq<char>,
)
    requires
        set.none_occurs_in(text),
        step.decides(config, set.extraction(text)),
    ensures
        step is Rejected,
        step.settled() == Some(Notice::Incomplete),
{
    lemma_no_occurrence_gives_absent_record(set, text);
}

/// A text in which every pattern of a well-formed set yields its fields is
/// persisted: the step owed for its record is an insert of the four texts.
pub proof fn lemma_full_yield_is_persisted(
    step: Step,
    config: GatewayConfig,
    set: PatternSetView,
    text: Seq<char>,
)
    requires
        set.well_formed(),
        set.all_yield_in(text),
        step.decides(config, set.extraction(text)),
    ensures
        step matches Step::Persist { command, .. } && command@ == config.command_for(
            set.extraction(text),
        ),
{
    lemma_full_yield_gives_complete_record(set, text);
}

/// A storage failure is an error signal that the process survives: the
/// notice for a failed insert is surfaced to the user, and its error is
/// not fatal.
pub proof fn lemma_failed_insert_is_signalled(error: StorageError)
    ensures
        Notice::NotSaved(AppError::Storage(error)).surfaces(),
        !AppError::Storage(error).fatal(),
{
}

} // verus!
