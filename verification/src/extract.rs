//! The field extractor: applies the pattern set to the text of one document
//! and builds the sparse record.

use vstd::prelude::*;

use crate::error::ConfigError;
use crate::pattern::{
    group_text, CompiledPattern, FieldPattern, PatternView, DUE_DATE_EXPRESSION, DUE_DATE_NAME,
    INVOICE_NUMBER_EXPRESSION, INVOICE_NUMBER_NAME, PERIOD_EXPRESSION, PERIOD_NAME,
};
use crate::record::{published_fields, published_order, Field, InvoiceRecord, RecordView};

verus! {

/// The three declared patterns. The period pattern yields two fields, the
/// start and the end of the billing period; the others yield one each.
#[derive(Clone, Debug, PartialEq, Eq)]
pub struct PatternSet {
    pub invoice_number: FieldPattern,
    pub period: FieldPattern,
    pub due_date: FieldPattern,
}

/// The mathematical value of a pattern set, declared or compiled.
pub struct PatternSetView {
    pub invoice_number: PatternView,
    pub period: PatternView,
    pub due_date: PatternView,
}

/// A diagnostic event: whether one field was found, and the name of the
/// pattern that looks for it.
#[derive(Clone, Debug, PartialEq, Eq)]
pub struct FieldEvent {
    pub field: Field,
    pub pattern: String,
    pub found: bool,
}

/// The single field of a one-field pattern: the first text it yielded.
pub open spec fn sole_text(texts: Option<Seq<Seq<char>>>) -> Option<Seq<char>> {
    match texts {
        Some(found) => if found.len() >= 1 {
            Some(found[0])
        } else {
            None
        },
        None => None,
    }
}

/// One of the two fields of the period pattern. Both are present or neither.
pub open spec fn paired_text(texts: Option<Seq<Seq<char>>>, which: int) -> Option<Seq<char>> {
    match texts {
        Some(found) => if found.len() >= 2 && 0 <= which < 2 {
            Some(found[which])
        } else {
            None
        },
        None => None,
    }
}

/// The record that the yields of the three patterns make up.
pub open spec fn record_of_matches(
    invoice_number: Option<Seq<Seq<char>>>,
    period: Option<Seq<Seq<char>>>,
    due_date: Option<Seq<Seq<char>>>,
) -> RecordView {
    RecordView {
        invoice_number: sole_text(invoice_number),
        period_start: paired_text(period, 0),
        period_end: paired_text(period, 1),
        due_date: sole_text(due_date),
    }
}

impl PatternSetView {
    /// The patterns of [`PatternSet::standard`].
    pub open spec fn standard() -> PatternSetView {
        PatternSetView {
            invoice_number: PatternView {
                name: INVOICE_NUMBER_NAME@,
                expression: INVOICE_NUMBER_EXPRESSION@,
                groups: seq![1usize],
            },
            period: PatternView {
                name: PERIOD_NAME@,
                expression: PERIOD_EXPRESSION@,
                groups: seq![1usize, 2usize],
            },
            due_date: PatternView {
                name: DUE_DATE_NAME@,
                expression: DUE_DATE_EXPRESSION@,
                groups: seq![1usize],
            },
        }
    }

    /// Each pattern declares as many groups as it has fields.
    pub open spec fn well_formed(self) -> bool {
        &&& self.invoice_number.groups.len() == 1
        &&& self.period.groups.len() == 2
        &&& self.due_date.groups.len() == 1
    }

    /// Every pattern can be compiled for its fields.
    pub open spec fn usable(self) -> bool {
        &&& self.invoice_number.usable_for(1)
        &&& self.period.usable_for(2)
        &&& self.due_date.usable_for(1)
    }

    /// `error` reports the first pattern, in the order invoice number,
    /// period, due date, that cannot be compiled for its fields.
    pub open spec fn reported_by(self, error: ConfigError) -> bool {
        if !self.invoice_number.usable_for(1) {
            self.invoice_number.reported_by(1, error)
        } else if !self.period.usable_for(2) {
            self.period.reported_by(2, error)
        } else {
            self.due_date.reported_by(1, error)
        }
    }

    /// The pattern that looks for `field`.
    pub open spec fn pattern_for(self, field: Field) -> PatternView {
        match field {
            Field::InvoiceNumber => self.invoice_number,
            Field::PeriodStart => self.period,
            Field::PeriodEnd => self.period,
            Field::DueDate => self.due_date,
        }
    }

    /// `event` tells of `field` what `record` holds.
    pub open spec fn tells(self, event: FieldEvent, field: Field, record: RecordView) -> bool {
        &&& event.field == field
        &&& event.pattern@ == self.pattern_for(field).name
        &&& event.found == record.get(field) is Some
    }

    /// None of the patterns occurs in `text`.
    pub open spec fn none_occurs_in(self, text: Seq<char>) -> bool {
        &&& !self.invoice_number.occurs_in(text)
        &&& !self.period.occurs_in(text)
        &&& !self.due_date.occurs_in(text)
    }

    /// Every pattern occurs in `text` and yields all its fields.
    pub open spec fn all_yield_in(self, text: Seq<char>) -> bool {
        &&& self.invoice_number.first_match(text) is Some
        &&& self.period.first_match(text) is Some
        &&& self.due_date.first_match(text) is Some
    }

    /// The record that extraction from `text` produces.
    pub open spec fn extraction(self, text: Seq<char>) -> RecordView {
        record_of_matches(
            self.invoice_number.first_match(text),
            self.period.first_match(text),
            self.due_date.first_match(text),
        )
    }
}

impl View for PatternSet {
    type V = PatternSetView;

    open spec fn view(&self) -> PatternSetView {
        PatternSetView {
            invoice_number: self.invoice_number@,
            period: self.period@,
            due_date: self.due_date@,
        }
    }
}

impl PatternSet {
    /// The recognised patterns.
    pub fn standard() -> (set: PatternSet)
        ensures
            set@ == PatternSetView::standard(),
            set@.well_formed(),
    {
        let mut one: Vec<usize> = Vec::new();
        one.push(1);
        let mut both: Vec<usize> = Vec::new();
        both.push(1);
        both.push(2);
        let set = PatternSet {
            invoice_number: FieldPattern {
                name: INVOICE_NUMBER_NAME.to_owned(),
                expression: INVOICE_NUMBER_EXPRESSION.to_owned(),
                groups: one.clone(),
            },
            period: FieldPattern {
                name: PERIOD_NAME.to_owned(),
                expression: PERIOD_EXPRESSION.to_owned(),
                groups: both,
            },
            due_date: FieldPattern {
                name: DUE_DATE_NAME.to_owned(),
                expression: DUE_DATE_EXPRESSION.to_owned(),
                groups: one,
            },
        };
        assert(set@.invoice_number.groups =~= seq![1usize]);
        assert(set@.period.groups =~= seq![1usize, 2usize]);
        assert(set@.due_date.groups =~= seq![1usize]);
        set
    }
}

/// Builds the record from what the three patterns yielded. The period is
/// taken only when both its dates are there.
pub fn record_from_matches(
    invoice_number: Option<Vec<String>>,
    period: Option<Vec<String>>,
    due_date: Option<Vec<String>>,
) -> (record: InvoiceRecord)
    ensures
        record@ == record_of_matches(
            invoice_number.deep_view(),
            period.deep_view(),
            due_date.deep_view(),
        ),
{
    let number = first_text(&invoice_number);
    let due = first_text(&due_date);
    let (start, end) = match &period {
        Some(found) => if found.len() >= 2 {
            (Some(found[0].clone()), Some(found[1].clone()))
        } else {
            (None, None)
        },
        None => (None, None),
    };
    InvoiceRecord { invoice_number: number, period_start: start, period_end: end, due_date: due }
}

/// The first text of a yield, if there is one.
fn first_text(texts: &Option<Vec<String>>) -> (text: Option<String>)
    ensures
        text.deep_view() == sole_text(texts.deep_view()),
{
    match texts {
        Some(found) => if found.len() >= 1 {
            Some(found[0].clone())
        } else {
            None
        },
        None => None,
    }
}

/// The compiled pattern set. Compile it once, at startup, and use it for
/// every document.
#[derive(Debug)]
pub struct Extractor {
    invoice_number: CompiledPattern,
    period: CompiledPattern,
    due_date: CompiledPattern,
}

impl Extractor {
    /// The patterns this extractor was compiled from.
    pub closed spec fn patterns(&self) -> PatternSetView {
        PatternSetView {
            invoice_number: self.invoice_number@,
            period: self.period@,
            due_date: self.due_date@,
        }
    }

    /// Compiles a pattern set.
    ///
    /// Succeeds exactly when every pattern declares as many groups as it has
    /// fields and the engine accepts every expression. Otherwise the error
    /// names the first pattern at fault.
    pub fn compile(set: &PatternSet) -> (compiled: Result<Extractor, ConfigError>)
        ensures
            compiled is Ok <==> set@.usable(),
            compiled matches Ok(extractor) ==> extractor.patterns() == set@,
            compiled matches Err(error) ==> set@.reported_by(error),
    {
        let invoice_number = match set.invoice_number.compile(1) {
            Ok(pattern) => pattern,
            Err(error) => {
                return Err(error);
            },
        };
        let period = match set.period.compile(2) {
            Ok(pattern) => pattern,
            Err(error) => {
                return Err(error);
            },
        };
        let due_date = match set.due_date.compile(1) {
            Ok(pattern) => pattern,
            Err(error) => {
                return Err(error);
            },
        };
        Ok(Extractor { invoice_number, period, due_date })
    }

    /// Compiles the recognised patterns.
    pub fn standard() -> (compiled: Result<Extractor, ConfigError>)
        ensures
            compiled is Ok <==> PatternSetView::standard().usable(),
            compiled matches Ok(extractor) ==> extractor.patterns() == PatternSetView::standard(),
            compiled matches Err(error) ==> PatternSetView::standard().reported_by(error),
    {
        let set = PatternSet::standard();
        Extractor::compile(&set)
    }

    /// The compiled pattern that looks for `field`.
    pub fn pattern_for(&self, field: Field) -> (pattern: &CompiledPattern)
        ensures
            pattern@ == self.patterns().pattern_for(field),
    {
        match field {
            Field::InvoiceNumber => &self.invoice_number,
            Field::PeriodStart => &self.period,
            Field::PeriodEnd => &self.period,
            Field::DueDate => &self.due_date,
        }
    }

    /// The diagnostic events for an extracted record: one per field, in
    /// published order, each saying whether the field was found. An absent
    /// field is an ordinary outcome, not an error.
    pub fn events(&self, record: &InvoiceRecord) -> (events: Vec<FieldEvent>)
        ensures
            events@.len() == 4,
            forall|i: int|
                0 <= i < 4 ==> self.patterns().tells(
                    #[trigger] events@[i],
                    published_order()[i],
                    record@,
                ),
    {
        let fields = published_fields();
        let mut events: Vec<FieldEvent> = Vec::new();
        let mut i: usize = 0;
        while i < fields.len()
            invariant
                i <= fields.len(),
                fields@ == published_order(),
                events@.len() == i,
                forall|j: int|
                    0 <= j < i ==> self.patterns().tells(
                        #[trigger] events@[j],
                        published_order()[j],
                        record@,
                    ),
            decreases fields.len() - i,
        {
            let field = fields[i];
            let name = self.pattern_for(field).name().to_owned();
            events.push(FieldEvent { field, pattern: name, found: record.has(field) });
            i = i + 1;
        }
        events
    }

    /// Extracts the record from the text of one document.
    ///
    /// Each pattern is tried once, for its first match, on the text as it
    /// stands. A pattern that is not found leaves its fields absent; no text,
    /// empty or garbled, is an error.
    pub fn extract(&self, text: &str) -> (record: InvoiceRecord)
        ensures
            record@ == self.patterns().extraction(text@),
    {
        let due_date = self.due_date.first_match(text);
        let period = self.period.first_match(text);
        let invoice_number = self.invoice_number.first_match(text);
        record_from_matches(invoice_number, period, due_date)
    }
}

/// A text in which none of the patterns occurs gives the record with no
/// field at all, and the validator rejects that record.
pub proof fn lemma_no_occurrence_gives_absent_record(set: PatternSetView, text: Seq<char>)
    requires
        set.none_occurs_in(text),
    ensures
        set.extraction(text) == RecordView::absent(),
        !set.extraction(text).is_complete(),
{
}

/// A text in which every pattern of a well-formed set occurs and yields its
/// fields gives a record with all four fields, each the text of its capture
/// group, and the validator accepts that record.
pub proof fn lemma_full_yield_gives_complete_record(set: PatternSetView, text: Seq<char>)
    requires
        set.well_formed(),
        set.all_yield_in(text),
    ensures
        set.extraction(text).is_complete(),
        set.extraction(text).invoice_number == group_text(
            set.invoice_number.captures(text),
            set.invoice_number.groups[0] as int,
        ),
        set.extraction(text).period_start == group_text(
            set.period.captures(text),
            set.period.groups[0] as int,
        ),
        set.extraction(text).period_end == group_text(
            set.period.captures(text),
            set.period.groups[1] as int,
        ),
        set.extraction(text).due_date == group_text(
            set.due_date.captures(text),
            set.due_date.groups[0] as int,
        ),
{
    assert(group_text(set.invoice_number.captures(text), set.invoice_number.groups[0] as int) is Some);
    assert(group_text(set.period.captures(text), set.period.groups[0] as int) is Some);
    assert(group_text(set.period.captures(text), set.period.groups[1] as int) is Some);
    assert(group_text(set.due_date.captures(text), set.due_date.groups[0] as int) is Some);
}

/// For a well-formed set the record is complete only when every pattern
/// yields: a pattern that is not found leaves the record rejected.
pub proof fn lemma_complete_record_needs_every_pattern(set: PatternSetView, text: Seq<char>)
    requires
        set.well_formed(),
    ensures
        set.extraction(text).is_complete() <==> set.all_yield_in(text),
        set.extraction(text).period_start is Some <==> set.extraction(text).period_end is Some,
{
}

} // verus!
