//! The per-event driver: decides the transition, executes it against
//! the store, and reports what happened.
//!
//! One event yields at most one persistence call and at most one
//! diagnostic signal.

use vstd::prelude::*;

verus! {

use crate::anomaly::Signal;
use crate::anomaly::classify_update_outcome;
use crate::event::CloudEvent;
use crate::record::Operation;
use crate::record::OperationV;
use crate::store::SipStore;
use crate::store::StoreError;
use crate::store::contains_id;
use crate::store::count_matching;
use crate::store::updated_store;
use crate::transition::TransitionOutcome;
use crate::transition::TransitionOutcomeV;
use crate::transition::spec_transition;
use crate::transition::transition;

/// What processing one event did: how many persistence calls were
/// made, how many rows the call affected (when one was made and
/// succeeded), and the diagnostic signals emitted.
pub struct ProcessReport {
    pub persistence_calls: usize,
    pub rows_affected: Option<usize>,
    pub signals: Vec<Signal>,
}

/// Consumes one event: decides its transition, executes the resulting
/// operation against the store, and reports the outcome.
///
/// An unrecognized type and a rejected event make no persistence call
/// and emit exactly one signal.  A create inserts exactly the record
/// the transition table defines, or signals a conflict.  An update
/// rewrites exactly the matching records and signals a missing
/// predecessor for zero matches or an ambiguous correlation for more
/// than one.
pub fn process_event(store: &mut SipStore, event: &CloudEvent) -> (report: ProcessReport)
    requires
        old(store).wf(),
    ensures
        final(store).wf(),
        ({
            let out = spec_transition(*event);
            match out {
                TransitionOutcomeV::UnknownType => final(store)@ == old(store)@
                    && report.persistence_calls == 0 && report.rows_affected is None
                    && report.signals@ == seq![Signal::UnknownEventType],
                TransitionOutcomeV::Rejected(err) => final(store)@ == old(store)@
                    && report.persistence_calls == 0 && report.rows_affected is None
                    && report.signals@ == seq![Signal::MalformedPayload(err)],
                TransitionOutcomeV::Persist(op) => report.persistence_calls == 1 && match op {
                    OperationV::Create(rec) => {
                        if contains_id(old(store)@, rec.correlation_id) {
                            final(store)@ == old(store)@ && report.rows_affected is None
                                && report.signals@ == seq![Signal::StoreConflict]
                        } else {
                            final(store)@ == old(store)@.push(rec) && report.rows_affected
                                == Some(1usize) && report.signals@ == Seq::<Signal>::empty()
                        }
                    },
                    OperationV::Update { correlation_id: cid, fields } => {
                        let n = count_matching(old(store)@, cid);
                        final(store)@ == updated_store(old(store)@, cid, fields) && (
                        report.rows_affected matches Some(m) && m == n) && report.signals@ == (
                        if n == 0 {
                            seq![Signal::MissingPredecessor]
                        } else if n == 1 {
                            Seq::<Signal>::empty()
                        } else {
                            seq![Signal::AmbiguousCorrelation]
                        })
                    },
                },
            }
        }),
{
    let out = transition(event);
    match out {
        TransitionOutcome::UnknownType => {
            let mut signals: Vec<Signal> = Vec::new();
            signals.push(Signal::UnknownEventType);
            proof {
                assert(signals@ =~= seq![Signal::UnknownEventType]);
            }
            ProcessReport { persistence_calls: 0, rows_affected: None, signals }
        },
        TransitionOutcome::Rejected(err) => {
            let mut signals: Vec<Signal> = Vec::new();
            signals.push(Signal::MalformedPayload(err));
            proof {
                assert(signals@ =~= seq![Signal::MalformedPayload(err)]);
            }
            ProcessReport { persistence_calls: 0, rows_affected: None, signals }
        },
        TransitionOutcome::Persist(op) => {
            let is_create = match &op {
                Operation::Create(_) => true,
                Operation::Update { .. } => false,
            };
            match store.apply(op) {
                Ok(n) => {
                    let mut signals: Vec<Signal> = Vec::new();
                    if !is_create {
                        match classify_update_outcome(n) {
                            Some(s) => {
                                signals.push(s);
                                proof {
                                    assert(signals@ =~= seq![s]);
                                }
                            },
                            None => {},
                        }
                    }
                    ProcessReport { persistence_calls: 1, rows_affected: Some(n), signals }
                },
                Err(StoreError::Conflict) => {
                    let mut signals: Vec<Signal> = Vec::new();
                    signals.push(Signal::StoreConflict);
                    proof {
                        assert(signals@ =~= seq![Signal::StoreConflict]);
                    }
                    ProcessReport { persistence_calls: 1, rows_affected: None, signals }
                },
            }
        },
    }
}

} // verus!
