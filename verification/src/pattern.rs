//! The pattern set: the recognised field patterns, declared once as data,
//! and their compiled form.

use vstd::prelude::*;

use crate::engine::{
    capture_groups, regex_accepts, regex_captures, regex_source, regex_uses_defaults,
};
use crate::error::{ConfigError, PatternFault};

verus! {

/// Name of the invoice-number pattern in diagnostics.
pub const INVOICE_NUMBER_NAME: &'static str = "invoice number";

/// Name of the billing-period pattern in diagnostics.
pub const PERIOD_NAME: &'static str = "period";

/// Name of the due-date pattern in diagnostics.
pub const DUE_DATE_NAME: &'static str = "date due";

/// The invoice number: digits, optionally followed by a bracketed sub-index.
pub const INVOICE_NUMBER_EXPRESSION: &'static str =
    "Invoice number/Αριθμός τιμολογίου: (\\d+\\[\\d+\\]|\\d+)";

/// The billing period: two dates of the form day, month name, year.
pub const PERIOD_EXPRESSION: &'static str =
    "Για την περίοδο (\\d{2} \\w+ \\d{4}) - (\\d{2} \\w+ \\d{4})";

/// The payment deadline: a date of the form dd/mm/yyyy.
pub const DUE_DATE_EXPRESSION: &'static str = "Πληρωτέο μέχρι (\\d{2}/\\d{2}/\\d{4})";

/// The declaration of one pattern: its name in diagnostics, its expression,
/// and the indices of the capture groups that hold its fields, in field
/// order.
#[derive(Clone, Debug, PartialEq, Eq)]
pub struct FieldPattern {
    pub name: String,
    pub expression: String,
    pub groups: Vec<usize>,
}

/// The mathematical value of a pattern, declared or compiled.
pub struct PatternView {
    pub name: Seq<char>,
    pub expression: Seq<char>,
    pub groups: Seq<usize>,
}

/// The capture groups of a first match, as the engine reports them: `None`
/// when nothing matched, otherwise one entry per group.
pub type Captures = Option<Seq<Option<Seq<char>>>>;

/// The text of capture group `index`: `None` when nothing matched, when the
/// expression has no such group, or when the group took no part in the match.
pub open spec fn group_text(captures: Captures, index: int) -> Option<Seq<char>> {
    match captures {
        Some(found) => if 0 <= index < found.len() {
            found[index]
        } else {
            None
        },
        None => None,
    }
}

/// Every declared group took part in the match.
pub open spec fn all_groups_found(captures: Captures, groups: Seq<usize>) -> bool {
    forall|k: int| 0 <= k < groups.len() ==> (#[trigger] group_text(captures, groups[k] as int)) is Some
}

/// The texts of the declared groups, in declaration order. A pattern yields
/// its fields together or not at all: the result is `None` when nothing
/// matched or when any declared group is missing from the match.
pub open spec fn selected_groups(captures: Captures, groups: Seq<usize>) -> Option<Seq<Seq<char>>> {
    if captures is Some && all_groups_found(captures, groups) {
        Some(Seq::new(groups.len(), |k: int| group_text(captures, groups[k] as int).unwrap()))
    } else {
        None
    }
}

impl PatternView {
    /// What the engine finds for this pattern's expression in `text`.
    pub open spec fn captures(self, text: Seq<char>) -> Captures {
        regex_captures(self.expression, text)
    }

    /// The pattern occurs in `text`.
    pub open spec fn occurs_in(self, text: Seq<char>) -> bool {
        self.captures(text) is Some
    }

    /// The fields that the first match of this pattern in `text` yields.
    pub open spec fn first_match(self, text: Seq<char>) -> Option<Seq<Seq<char>>> {
        selected_groups(self.captures(text), self.groups)
    }

    /// The pattern can serve for `fields` fields: it declares that many
    /// groups and the engine accepts its expression.
    pub open spec fn usable_for(self, fields: int) -> bool {
        self.groups.len() == fields && regex_accepts(self.expression)
    }

    /// `error` is the report owed for this pattern when it cannot serve for
    /// `fields` fields. The group count is checked before the expression.
    pub open spec fn reported_by(self, fields: int, error: ConfigError) -> bool {
        &&& error matches ConfigError::MalformedPattern { field, fault }
        &&& field@ == self.name
        &&& if self.groups.len() != fields {
            fault == (PatternFault::GroupCount {
                expected: fields as usize,
                declared: self.groups.len() as usize,
            })
        } else {
            fault is Rejected
        }
    }
}

impl View for FieldPattern {
    type V = PatternView;

    open spec fn view(&self) -> PatternView {
        PatternView { name: self.name@, expression: self.expression@, groups: self.groups@ }
    }
}

/// A pattern whose expression the engine has compiled, under the engine's
/// default options.
#[derive(Debug)]
pub struct CompiledPattern {
    name: String,
    groups: Vec<usize>,
    engine: regex::Regex,
}

impl CompiledPattern {
    #[verifier::type_invariant]
    spec fn compiled_under_defaults(&self) -> bool {
        regex_uses_defaults(self.engine)
    }
}

impl View for CompiledPattern {
    type V = PatternView;

    closed spec fn view(&self) -> PatternView {
        PatternView {
            name: self.name@,
            expression: regex_source(self.engine),
            groups: self.groups@,
        }
    }
}

/// Picks the declared groups out of the capture groups of a first match.
pub fn select_groups(captures: &Option<Vec<Option<String>>>, groups: &Vec<usize>) -> (texts: Option<
    Vec<String>,
>)
    ensures
        texts.deep_view() == selected_groups(captures.deep_view(), groups@),
{
    let ghost model = captures.deep_view();
    match captures {
        None => None,
        Some(found) => {
            let mut texts: Vec<String> = Vec::new();
            let mut k: usize = 0;
            while k < groups.len()
                invariant
                    k <= groups.len(),
                    model == captures.deep_view(),
                    model == Some(found.deep_view()),
                    texts.len() == k,
                    forall|j: int|
                        0 <= j < k ==> (#[trigger] group_text(model, groups@[j] as int)) == Some(
                            texts@[j]@,
                        ),
                decreases groups.len() - k,
            {
                let index: usize = groups[k];
                if index >= found.len() {
                    assert(group_text(model, groups@[k as int] as int) is None);
                    return None;
                }
                match &found[index] {
                    None => {
                        assert(group_text(model, groups@[k as int] as int) is None);
                        return None;
                    },
                    Some(text) => {
                        texts.push(text.clone());
                    },
                }
                k = k + 1;
            }
            assert(texts.deep_view() =~= selected_groups(model, groups@).unwrap());
            Some(texts)
        },
    }
}

impl FieldPattern {
    /// Compiles the pattern for use as the source of `fields` fields.
    ///
    /// Fails with [`ConfigError::MalformedPattern`], naming this pattern,
    /// when it declares another number of groups or when the engine refuses
    /// its expression.
    pub fn compile(&self, fields: usize) -> (compiled: Result<CompiledPattern, ConfigError>)
        ensures
            compiled is Ok <==> self@.usable_for(fields as int),
            compiled matches Ok(pattern) ==> pattern@ == self@,
            compiled matches Err(error) ==> self@.reported_by(fields as int, error),
    {
        if self.groups.len() != fields {
            return Err(
                ConfigError::MalformedPattern {
                    field: self.name.clone(),
                    fault: PatternFault::GroupCount { expected: fields, declared: self.groups.len() },
                },
            );
        }
        match regex::Regex::new(self.expression.as_str()) {
            Ok(engine) => Ok(
                CompiledPattern { name: self.name.clone(), groups: self.groups.clone(), engine },
            ),
            Err(refusal) => Err(
                ConfigError::MalformedPattern {
                    field: self.name.clone(),
                    fault: PatternFault::Rejected { detail: refusal.to_string() },
                },
            ),
        }
    }
}

impl CompiledPattern {
    /// The pattern's name in diagnostics.
    pub fn name(&self) -> (name: &str)
        ensures
            name@ == self@.name,
    {
        self.name.as_str()
    }

    /// The expression that was compiled.
    pub fn expression(&self) -> (expression: &str)
        ensures
            expression@ == self@.expression,
    {
        self.engine.as_str()
    }

    /// The number of fields the pattern yields.
    pub fn field_count(&self) -> (count: usize)
        ensures
            count == self@.groups.len(),
    {
        self.groups.len()
    }

    /// Searches `text` for the first match and returns the fields it yields,
    /// or `None` when the pattern yields nothing. Only the first match is
    /// considered, and the text is matched as it stands.
    pub fn first_match(&self, text: &str) -> (texts: Option<Vec<String>>)
        ensures
            texts.deep_view() == self@.first_match(text@),
    {
        proof {
            use_type_invariant(self);
        }
        let captures = capture_groups(&self.engine, text);
        select_groups(&captures, &self.groups)
    }
}

} // verus!
