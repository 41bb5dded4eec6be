//! Serialized hand-off of tables to the display: one publish at a time, and
//! of the tables that arrive meanwhile only the latest is kept.

use vstd::prelude::*;

use crate::table::{TableRow, table_view};

verus! {

/// The state of the hand-off to the display.
#[derive(Clone, Debug, PartialEq, Eq)]
pub enum Handoff {
    /// No publish is in flight.
    Idle,
    /// A publish is in flight. `waiting` is the table to publish next, if
    /// one has arrived since.
    Busy { waiting: Option<Vec<TableRow>> },
}

/// The mathematical value of a table on its way to the display.
pub type TableView = Seq<Seq<Seq<char>>>;

/// The mathematical value of a [`Handoff`].
pub enum HandoffView {
    Idle,
    Busy { waiting: Option<TableView> },
}

/// The view of an optional table.
pub open spec fn optional_table_view(table: Option<Vec<TableRow>>) -> Option<TableView> {
    match table {
        Some(rows) => Some(table_view(rows@)),
        None => None,
    }
}

impl HandoffView {
    /// A publish is in flight.
    pub open spec fn busy(self) -> bool {
        self is Busy
    }

    /// The state after `table` was offered.
    pub open spec fn offered(self, table: TableView) -> HandoffView {
        match self {
            HandoffView::Idle => HandoffView::Busy { waiting: None },
            HandoffView::Busy { .. } => HandoffView::Busy { waiting: Some(table) },
        }
    }

    /// The table to publish at once when `table` is offered: the table
    /// itself when nothing is in flight, none when a publish is in flight.
    pub open spec fn starts_on_offer(self, table: TableView) -> Option<TableView> {
        match self {
            HandoffView::Idle => Some(table),
            HandoffView::Busy { .. } => None,
        }
    }

    /// The state after the publish in flight has finished.
    pub open spec fn finished(self) -> HandoffView {
        match self {
            HandoffView::Busy { waiting: Some(_) } => HandoffView::Busy { waiting: None },
            _ => HandoffView::Idle,
        }
    }

    /// The table to publish next when the publish in flight has finished.
    pub open spec fn starts_on_finish(self) -> Option<TableView> {
        match self {
            HandoffView::Busy { waiting } => waiting,
            HandoffView::Idle => None,
        }
    }
}

impl View for Handoff {
    type V = HandoffView;

    open spec fn view(&self) -> HandoffView {
        match self {
            Handoff::Idle => HandoffView::Idle,
            Handoff::Busy { waiting } => HandoffView::Busy {
                waiting: optional_table_view(*waiting),
            },
        }
    }
}

impl Handoff {
    /// A hand-off with nothing in flight.
    pub fn new() -> (state: Handoff)
        ensures
            state@ == HandoffView::Idle,
    {
        Handoff::Idle
    }

    /// Whether a publish is in flight.
    pub fn is_busy(&self) -> (busy: bool)
        ensures
            busy == self@.busy(),
    {
        match self {
            Handoff::Idle => false,
            Handoff::Busy { .. } => true,
        }
    }

    /// Offers a table for display. Returns the table when the caller is to
    /// publish it now. While another publish is in flight it returns `None`
    /// and keeps the table for later, in place of any table kept before.
    pub fn offer(&mut self, table: Vec<TableRow>) -> (start: Option<Vec<TableRow>>)
        ensures
            final(self)@ == old(self)@.offered(table_view(table@)),
            optional_table_view(start) == old(self)@.starts_on_offer(table_view(table@)),
            start matches Some(rows) ==> rows == table,
    {
        match self {
            Handoff::Idle => {
                *self = Handoff::Busy { waiting: None };
                Some(table)
            },
            Handoff::Busy { .. } => {
                *self = Handoff::Busy { waiting: Some(table) };
                None
            },
        }
    }

    /// Reports that the publish in flight has finished. Returns the table
    /// to publish next, if one is waiting; the hand-off then stays busy.
    /// Otherwise the hand-off becomes idle.
    pub fn finish(&mut self) -> (next: Option<Vec<TableRow>>)
        ensures
            final(self)@ == old(self)@.finished(),
            optional_table_view(next) == old(self)@.starts_on_finish(),
    {
        let mut state = Handoff::Idle;
        core::mem::swap(self, &mut state);
        match state {
            Handoff::Idle => None,
            Handoff::Busy { waiting } => {
                match waiting {
                    Some(table) => {
                        *self = Handoff::Busy { waiting: None };
                        Some(table)
                    },
                    None => None,
                }
            },
        }
    }
}

/// At most one publish is in flight: while the hand-off is busy an offer
/// starts nothing, and the hand-off stays busy.
pub proof fn lemma_busy_handoff_starts_nothing(state: HandoffView, table: TableView)
    requires
        state.busy(),
    ensures
        state.starts_on_offer(table) is None,
        state.offered(table).busy(),
{
}

/// A later table supersedes an earlier one: of two tables offered while a
/// publish is in flight, only the second is published when it finishes,
/// and nothing is left waiting after it.
pub proof fn lemma_later_offer_supersedes(state: HandoffView, earlier: TableView, later: TableView)
    requires
        state.busy(),
    ensures
        state.offered(earlier).offered(later).starts_on_finish() == Some(later),
        state.offered(earlier).offered(later).finished() == (HandoffView::Busy { waiting: None }),
{
}

/// The hand-off is busy exactly from the start of a publish to the finish that
/// finds nothing waiting.
pub proof fn lemma_handoff_idles_when_drained(state: HandoffView)
    ensures
        state.finished().busy() <==> state.starts_on_finish() is Some,
        state.starts_on_finish() is Some ==> state.busy(),
{
}

} // verus!
