//! The anomaly reporter: interprets a persistence outcome and emits
//! one diagnostic signal per anomaly class.
//!
//! It never causes retries or mutations; it exists to make silent data
//! drift observable.

use vstd::prelude::*;

verus! {

use crate::extract::ExtractError;

/// One diagnostic signal about a processed event.
#[derive(Clone, Copy, PartialEq, Eq, Structural, Debug)]
pub enum Signal {
    /// The event's type string is not in the transition table.
    UnknownEventType,
    /// An update matched no record: the workflow's create event was
    /// lost, reordered, or not yet delivered.
    MissingPredecessor,
    /// An update matched more than one record: the correlation-id
    /// uniqueness assumption was broken upstream.
    AmbiguousCorrelation,
    /// A create hit an already existing correlation id.
    StoreConflict,
    /// A required payload field was missing, so the event was rejected.
    MalformedPayload(ExtractError),
}

/// The diagnostic owed for an update that affected `rows_affected`
/// rows: zero rows signal a missing predecessor, one row is the normal
/// case, more than one rows signal an ambiguous correlation.
pub fn classify_update_outcome(rows_affected: usize) -> (r: Option<Signal>)
    ensures
        rows_affected == 0 ==> r == Some(Signal::MissingPredecessor),
        rows_affected == 1 ==> r is None,
        rows_affected > 1 ==> r == Some(Signal::AmbiguousCorrelation),
{
    if rows_affected == 0 {
        Some(Signal::MissingPredecessor)
    } else if rows_affected == 1 {
        None
    } else {
        Some(Signal::AmbiguousCorrelation)
    }
}

} // verus!
