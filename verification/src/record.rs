//! The invoice record and the rule that decides whether it may be persisted.

use vstd::prelude::*;

verus! {

/// One of the four fields of an invoice record, in published column order.
#[derive(Clone, Copy, Debug, PartialEq, Eq, Structural)]
pub enum Field {
    InvoiceNumber,
    PeriodStart,
    PeriodEnd,
    DueDate,
}

/// The four fields in published column order: invoice number, period
/// start, period end, due date.
pub open spec fn published_order() -> Seq<Field> {
    seq![Field::InvoiceNumber, Field::PeriodStart, Field::PeriodEnd, Field::DueDate]
}

/// The four fields in published column order.
pub fn published_fields() -> (fields: Vec<Field>)
    ensures
        fields@ == published_order(),
{
    let mut fields: Vec<Field> = Vec::new();
    fields.push(Field::InvoiceNumber);
    fields.push(Field::PeriodStart);
    fields.push(Field::PeriodEnd);
    fields.push(Field::DueDate);
    assert(fields@ =~= published_order());
    fields
}

/// What was found of an invoice in one document. A field that the text did
/// not yield is `None`.
#[derive(Clone, Debug, PartialEq, Eq)]
pub struct InvoiceRecord {
    pub invoice_number: Option<String>,
    pub period_start: Option<String>,
    pub period_end: Option<String>,
    pub due_date: Option<String>,
}

/// The mathematical value of an [`InvoiceRecord`].
pub struct RecordView {
    pub invoice_number: Option<Seq<char>>,
    pub period_start: Option<Seq<char>>,
    pub period_end: Option<Seq<char>>,
    pub due_date: Option<Seq<char>>,
}

impl RecordView {
    /// The record with no field found.
    pub open spec fn absent() -> RecordView {
        RecordView { invoice_number: None, period_start: None, period_end: None, due_date: None }
    }

    /// The content of one field.
    pub open spec fn get(self, field: Field) -> Option<Seq<char>> {
        match field {
            Field::InvoiceNumber => self.invoice_number,
            Field::PeriodStart => self.period_start,
            Field::PeriodEnd => self.period_end,
            Field::DueDate => self.due_date,
        }
    }

    /// The record with one field replaced.
    pub open spec fn set(self, field: Field, content: Option<Seq<char>>) -> RecordView {
        match field {
            Field::InvoiceNumber => RecordView { invoice_number: content, ..self },
            Field::PeriodStart => RecordView { period_start: content, ..self },
            Field::PeriodEnd => RecordView { period_end: content, ..self },
            Field::DueDate => RecordView { due_date: content, ..self },
        }
    }

    /// A record may be persisted exactly when all four fields are present.
    pub open spec fn is_complete(self) -> bool {
        &&& self.invoice_number is Some
        &&& self.period_start is Some
        &&& self.period_end is Some
        &&& self.due_date is Some
    }
}

impl View for InvoiceRecord {
    type V = RecordView;

    open spec fn view(&self) -> RecordView {
        RecordView {
            invoice_number: self.invoice_number.deep_view(),
            period_start: self.period_start.deep_view(),
            period_end: self.period_end.deep_view(),
            due_date: self.due_date.deep_view(),
        }
    }
}

impl InvoiceRecord {
    /// The record with no field found.
    pub fn absent() -> (record: InvoiceRecord)
        ensures
            record@ == RecordView::absent(),
    {
        InvoiceRecord { invoice_number: None, period_start: None, period_end: None, due_date: None }
    }

    /// Whether `field` was found.
    pub fn has(&self, field: Field) -> (found: bool)
        ensures
            found == self@.get(field) is Some,
    {
        match field {
            Field::InvoiceNumber => self.invoice_number.is_some(),
            Field::PeriodStart => self.period_start.is_some(),
            Field::PeriodEnd => self.period_end.is_some(),
            Field::DueDate => self.due_date.is_some(),
        }
    }

    /// The record with `field` set to `text`, the other fields unchanged.
    pub fn with_field(self, field: Field, text: String) -> (record: InvoiceRecord)
        ensures
            record@ == self@.set(field, Some(text@)),
    {
        let mut record = self;
        match field {
            Field::InvoiceNumber => {
                record.invoice_number = Some(text);
            },
            Field::PeriodStart => {
                record.period_start = Some(text);
            },
            Field::PeriodEnd => {
                record.period_end = Some(text);
            },
            Field::DueDate => {
                record.due_date = Some(text);
            },
        }
        record
    }

    /// The record with `field` absent, the other fields unchanged.
    pub fn without_field(self, field: Field) -> (record: InvoiceRecord)
        ensures
            record@ == self@.set(field, None),
    {
        let mut record = self;
        match field {
            Field::InvoiceNumber => {
                record.invoice_number = None;
            },
            Field::PeriodStart => {
                record.period_start = None;
            },
            Field::PeriodEnd => {
                record.period_end = None;
            },
            Field::DueDate => {
                record.due_date = None;
            },
        }
        record
    }

    /// The validator: true exactly when all four fields are present.
    pub fn is_complete(&self) -> (complete: bool)
        ensures
            complete == self@.is_complete(),
    {
        self.invoice_number.is_some() && self.period_start.is_some() && self.period_end.is_some()
            && self.due_date.is_some()
    }
}

/// Acceptance survives a found field: a complete record stays complete
/// whichever field is given a new text.
pub proof fn lemma_found_field_keeps_acceptance(record: RecordView, field: Field, text: Seq<char>)
    requires
        record.is_complete(),
    ensures
        record.set(field, Some(text)).is_complete(),
{
}

/// Acceptance needs every field: a complete record with any one field
/// removed is rejected.
pub proof fn lemma_removed_field_rejects(record: RecordView, field: Field)
    requires
        record.is_complete(),
    ensures
        !record.set(field, None).is_complete(),
{
}

/// A record is complete exactly when each of the four fields is present.
pub proof fn lemma_complete_iff_every_field(record: RecordView)
    ensures
        record.is_complete() <==> forall|field: Field| (#[trigger] record.get(field)) is Some,
{
    if forall|field: Field| (#[trigger] record.get(field)) is Some {
        assert(record.get(Field::InvoiceNumber) is Some);
        assert(record.get(Field::PeriodStart) is Some);
        assert(record.get(Field::PeriodEnd) is Some);
        assert(record.get(Field::DueDate) is Some);
    }
}

} // verus!
