//! Invoice intake: locate the invoice number, billing period and due date in
//! the text of a document, decide whether the resulting record may be stored,
//! and shape stored rows for tabular display.
//!
//! The library decides and computes; it performs no input or output. The
//! caller decodes documents, talks to the store and drives the display, and
//! hands the library plain values: text, column values, outcomes.
//!
//! - [`pattern`] and [`extract`]: the pattern set and the field extractor.
//! - [`record`]: the invoice record and its validator.
//! - [`gateway`]: what is bound on insert and how fetched rows are read.
//! - [`table`]: the projection of stored rows to display rows.
//! - [`pipeline`]: the steps from decoded text to a stored or rejected
//!   record, and the read path.
//! - [`publish`]: one publish to the display at a time.
//! - [`error`]: the error taxonomy.
//!
//! Every function is verified with Verus, against the contracts that
//! [`engine`] states of the `regex` crate; those are believed, not proved.

pub mod engine;
pub mod error;
pub mod extract;
pub mod gateway;
pub mod pattern;
pub mod pipeline;
pub mod publish;
pub mod record;
pub mod table;
