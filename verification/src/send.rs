//! The send-transaction flow: the specialized dispatch path for value
//! transfer. It validates locally, drives the progress relay through the
//! fixed state machine
//! `sending(0) -> sending(10) -> sending(90) -> completed(100) | error`,
//! and shapes the terminal result body. The engine's own transfer call
//! happens between the two phases, outside this module, on the handle the
//! first phase hands back.
use vstd::prelude::*;
use vstd::string::StringExecFns;

use crate::progress::EventModel;
use crate::progress::ProgressEvent;
use crate::progress::SendStatus;
use crate::registry::EngineHandle;
use crate::registry::Registry;
use crate::relay::Relay;
use crate::text::error_body;
use crate::text::error_body_spec;
use crate::text::txid_body;
use crate::text::txid_body_spec;

verus! {

/// A sending-status snapshot at `progress` on the 0 to 100 scale.
pub open spec fn sending_model(progress: u32) -> EventModel {
    EventModel {
        status: SendStatus::Sending,
        progress,
        total: 100u32,
        error: Option::None,
        txid: Option::None,
    }
}

/// The terminal snapshot of a successful transfer.
pub open spec fn completed_model(txid: Seq<char>) -> EventModel {
    EventModel {
        status: SendStatus::Completed,
        progress: 100u32,
        total: 100u32,
        error: Option::None,
        txid: Option::Some(txid),
    }
}

/// A failure snapshot at `progress` carrying the failure message.
pub open spec fn error_model(progress: u32, message: Seq<char>) -> EventModel {
    EventModel {
        status: SendStatus::Error,
        progress,
        total: 100u32,
        error: Option::Some(message),
        txid: Option::None,
    }
}

/// What the first phase of a send decides.
pub enum SendStart {
    /// Validation failed before any engine call: the caller gets this
    /// error body and the flow is over.
    Rejected { result: String },
    /// The transfer may proceed on `handle` with the now non-negative
    /// amount.
    Accepted { handle: EngineHandle, amount: u64 },
}

/// What the engine reported for the transfer itself.
pub enum SendOutcome {
    /// The transaction was built and broadcast under this identifier.
    Sent { txid: String },
    /// The engine failed with this message.
    Failed { message: String },
}

/// The events the first phase publishes: a lone error snapshot when the
/// registry is empty or the amount is negative, otherwise the opening
/// `sending` snapshots at 0 and 10.
pub open spec fn start_events_spec(initialized: bool, amount: i64) -> Seq<EventModel> {
    if !initialized {
        seq![error_model(0, "Wallet not initialized"@)]
    } else if amount < 0 {
        seq![error_model(0, "Invalid amount"@)]
    } else {
        seq![sending_model(0), sending_model(10)]
    }
}

/// The events the second phase publishes: `sending` at 90 and the
/// completed snapshot on success, a lone error snapshot on failure.
pub open spec fn finish_events_spec(outcome: SendOutcome) -> Seq<EventModel> {
    match outcome {
        SendOutcome::Sent { txid } => seq![sending_model(90), completed_model(txid@)],
        SendOutcome::Failed { message } => seq![error_model(10, message@)],
    }
}

/// The result body the second phase returns.
pub open spec fn finish_result_spec(outcome: SendOutcome) -> Seq<char> {
    match outcome {
        SendOutcome::Sent { txid } => txid_body_spec(txid@),
        SendOutcome::Failed { message } => error_body_spec(message@),
    }
}

/// Validates a transfer against the current registry and publishes the
/// opening progress snapshots. A negative amount is rejected here, before
/// any engine call, because the engine's amount type cannot represent it
/// and a silent cast would corrupt the value.
pub fn send_phase_start(registry: &Registry, relay: &mut Relay, amount: i64) -> (r: SendStart)
    ensures
        final(relay).initialized(),
        final(relay).published() == old(relay).published() + start_events_spec(
            registry.spec_slot() is Some,
            amount,
        ),
        (r is Accepted <==> (registry.spec_slot() is Some && amount >= 0)),
        r is Accepted ==> r->handle == registry.spec_slot()->0 && r->amount == amount as u64,
        (r is Rejected && registry.spec_slot() is None) ==> r->result@ == error_body_spec(
            "Wallet not initialized"@,
        ),
        (r is Rejected && registry.spec_slot() is Some) ==> r->result@ == error_body_spec(
            "Invalid amount: cannot be negative"@,
        ),
{
    let ghost base = relay.published();
    match registry.get() {
        Option::None => {
            let event = ProgressEvent {
                status: SendStatus::Error,
                progress: 0,
                total: 100,
                error: Option::Some(String::from_str("Wallet not initialized")),
                txid: Option::None,
            };
            relay.publish(&event);
            proof {
                assert(relay.published() =~= base + seq![
                    error_model(0, "Wallet not initialized"@),
                ]);
            }
            SendStart::Rejected { result: error_body("Wallet not initialized") }
        },
        Option::Some(handle) => {
            if amount < 0 {
                let event = ProgressEvent {
                    status: SendStatus::Error,
                    progress: 0,
                    total: 100,
                    error: Option::Some(String::from_str("Invalid amount")),
                    txid: Option::None,
                };
                relay.publish(&event);
                proof {
                    assert(relay.published() =~= base + seq![error_model(0, "Invalid amount"@)]);
                }
                SendStart::Rejected { result: error_body("Invalid amount: cannot be negative") }
            } else {
                let opening = ProgressEvent {
                    status: SendStatus::Sending,
                    progress: 0,
                    total: 100,
                    error: Option::None,
                    txid: Option::None,
                };
                relay.publish(&opening);
                let preparing = ProgressEvent {
                    status: SendStatus::Sending,
                    progress: 10,
                    total: 100,
                    error: Option::None,
                    txid: Option::None,
                };
                relay.publish(&preparing);
                proof {
                    assert(relay.published() =~= base + seq![sending_model(0), sending_model(10)]);
                }
                SendStart::Accepted { handle, amount: amount as u64 }
            }
        },
    }
}

/// Publishes the closing progress snapshots for the engine's outcome and
/// shapes the terminal result body: the transaction identifier on
/// success, the error body (quotes escaped) on failure.
pub fn send_phase_finish(relay: &mut Relay, outcome: &SendOutcome) -> (r: String)
    ensures
        final(relay).initialized(),
        final(relay).published() == old(relay).published() + finish_events_spec(*outcome),
        r@ == finish_result_spec(*outcome),
{
    let ghost base = relay.published();
    match outcome {
        SendOutcome::Sent { txid } => {
            let broadcasting = ProgressEvent {
                status: SendStatus::Sending,
                progress: 90,
                total: 100,
                error: Option::None,
                txid: Option::None,
            };
            relay.publish(&broadcasting);
            let completed = ProgressEvent {
                status: SendStatus::Completed,
                progress: 100,
                total: 100,
                error: Option::None,
                txid: Option::Some(txid.clone()),
            };
            relay.publish(&completed);
            proof {
                assert(relay.published() =~= base + seq![
                    sending_model(90),
                    completed_model(txid@),
                ]);
            }
            txid_body(txid.as_str())
        },
        SendOutcome::Failed { message } => {
            let event = ProgressEvent {
                status: SendStatus::Error,
                progress: 10,
                total: 100,
                error: Option::Some(message.clone()),
                txid: Option::None,
            };
            relay.publish(&event);
            proof {
                assert(relay.published() =~= base + seq![error_model(10, message@)]);
            }
            error_body(message.as_str())
        },
    }
}

/// The full event sequence of one send invocation: what the first phase
/// publishes and, when it accepted, what the second publishes for the
/// engine's outcome.
pub open spec fn send_events_spec(initialized: bool, amount: i64, outcome: SendOutcome) -> Seq<
    EventModel,
> {
    start_events_spec(initialized, amount) + (if initialized && amount >= 0 {
        finish_events_spec(outcome)
    } else {
        Seq::empty()
    })
}

/// Law: within one send invocation the published progress values never
/// decrease and never exceed their total, and the last event is either
/// the completed snapshot at one hundred or an error snapshot —
/// whatever the engine reported.
pub proof fn lemma_send_progress_monotone(initialized: bool, amount: i64, outcome: SendOutcome)
    ensures
        ({
            let evs = send_events_spec(initialized, amount, outcome);
            &&& evs.len() > 0
            &&& forall|i: int, j: int|
                0 <= i <= j < evs.len() ==> evs[i].progress <= evs[j].progress
            &&& forall|i: int| 0 <= i < evs.len() ==> evs[i].progress <= evs[i].total
            &&& ((evs.last().status is Completed && evs.last().progress == 100) || evs.last().status
                is Error)
        }),
{
    let evs = send_events_spec(initialized, amount, outcome);
    if !initialized {
        assert(evs =~= seq![error_model(0, "Wallet not initialized"@)]);
    } else if amount < 0 {
        assert(evs =~= seq![error_model(0, "Invalid amount"@)]);
    } else {
        match outcome {
            SendOutcome::Sent { txid } => {
                assert(evs =~= seq![
                    sending_model(0),
                    sending_model(10),
                    sending_model(90),
                    completed_model(txid@),
                ]);
            },
            SendOutcome::Failed { message } => {
                assert(evs =~= seq![
                    sending_model(0),
                    sending_model(10),
                    error_model(10, message@),
                ]);
            },
        }
    }
}

} // verus!
