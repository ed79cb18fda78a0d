//! Progress events: the snapshot a polling consumer sees, its JSON shape,
//! and the clamp-and-remap that turns raw note-processing counters into the
//! caller-visible 0 to 100 scale.
use vstd::prelude::*;
use vstd::string::StringExecFns;

use crate::json::json_as_str;
use crate::json::json_as_u64;
use crate::json::json_get;
use crate::json::json_parses;
use crate::json::parse_json;
use crate::text::dec_digits;
use crate::text::escape_quotes;
use crate::text::escaped_quotes;
use crate::text::str_eq;
use crate::text::u64_to_dec;

verus! {

/// The status of a send operation as a progress consumer sees it.
#[derive(Clone, Copy, PartialEq, Eq, Structural, Debug)]
pub enum SendStatus {
    Sending,
    Completed,
    Error,
}

/// One published progress snapshot.
#[derive(Debug)]
pub struct ProgressEvent {
    pub status: SendStatus,
    /// Position on the caller-visible scale; never above `total`.
    pub progress: u32,
    /// The top of the caller-visible scale.
    pub total: u32,
    /// The failure message, on an `Error` event.
    pub error: Option<String>,
    /// The transaction identifier, on a `Completed` event.
    pub txid: Option<String>,
}

/// The mathematical image of one progress event: the same snapshot with
/// its texts as character sequences.
pub struct EventModel {
    pub status: SendStatus,
    pub progress: u32,
    pub total: u32,
    pub error: Option<Seq<char>>,
    pub txid: Option<Seq<char>>,
}

impl View for ProgressEvent {
    type V = EventModel;

    open spec fn view(&self) -> EventModel {
        EventModel {
            status: self.status,
            progress: self.progress,
            total: self.total,
            error: match self.error {
                Option::None => Option::None,
                Option::Some(s) => Option::Some(s@),
            },
            txid: match self.txid {
                Option::None => Option::None,
                Option::Some(s) => Option::Some(s@),
            },
        }
    }
}

/// Progress is clamped at the point of emission: never above the total.
pub open spec fn wf_event(e: EventModel) -> bool {
    e.progress <= e.total
}

/// The `status` field's text.
pub open spec fn status_text(s: SendStatus) -> Seq<char> {
    match s {
        SendStatus::Sending => "sending"@,
        SendStatus::Completed => "completed"@,
        SendStatus::Error => "error"@,
    }
}

/// A nullable string field's JSON: `null`, or the quoted, quote-escaped text.
pub open spec fn opt_field_json(o: Option<Seq<char>>) -> Seq<char> {
    match o {
        Option::None => "null"@,
        Option::Some(s) => seq!['"'] + escaped_quotes(s) + seq!['"'],
    }
}

/// The JSON body of one progress event.
pub open spec fn event_json_spec(e: EventModel) -> Seq<char> {
    "{\"status\": \""@ + status_text(e.status) + "\", \"progress\": "@ + dec_digits(
        e.progress as nat,
    ) + ", \"total\": "@ + dec_digits(e.total as nat) + ", \"error\": "@ + opt_field_json(e.error)
        + ", \"txid\": "@ + opt_field_json(e.txid) + "}"@
}

fn status_str(s: SendStatus) -> (r: &'static str)
    ensures
        r@ == status_text(s),
{
    match s {
        SendStatus::Sending => "sending",
        SendStatus::Completed => "completed",
        SendStatus::Error => "error",
    }
}

fn append_opt_field(out: &mut String, o: &Option<String>)
    ensures
        final(out)@ == old(out)@ + opt_field_json(
            match *o {
                Option::None => Option::None,
                Option::Some(s) => Option::Some(s@),
            },
        ),
{
    match o {
        Option::None => {
            out.append("null");
        },
        Option::Some(s) => {
            out.append("\"");
            let escaped = escape_quotes(s.as_str());
            out.append(escaped.as_str());
            out.append("\"");
            proof {
                reveal_strlit("\"");
                assert("\""@ =~= seq!['"']);
                assert(old(out)@ + "\""@ + escaped_quotes(s@) + "\""@ =~= old(out)@ + (seq!['"']
                    + escaped_quotes(s@) + seq!['"']));
            }
        },
    }
}

/// Renders one progress event as the JSON text a poller receives.
pub fn event_json(e: &ProgressEvent) -> (r: String)
    ensures
        r@ == event_json_spec(e@),
{
    let mut r = String::from_str("{\"status\": \"");
    r.append(status_str(e.status));
    r.append("\", \"progress\": ");
    let progress_digits = u64_to_dec(e.progress as u64);
    r.append(progress_digits.as_str());
    r.append(", \"total\": ");
    let total_digits = u64_to_dec(e.total as u64);
    r.append(total_digits.as_str());
    r.append(", \"error\": ");
    append_opt_field(&mut r, &e.error);
    r.append(", \"txid\": ");
    append_opt_field(&mut r, &e.txid);
    r.append("}");
    proof {
        assert(r@ =~= event_json_spec(e@));
    }
    r
}

/// Where raw note-processing counters land on the caller-visible scale:
/// the note sub-phase owns the fixed 50 to 90 band, so the counters are
/// clamped to their own total and mapped linearly into that band. An
/// empty sub-phase sits at the band's start.
pub open spec fn remap_note_spec(processed: u32, total: u32) -> u32 {
    if total == 0 {
        50u32
    } else {
        let clamped: int = if processed > total {
            total as int
        } else {
            processed as int
        };
        (50 + (40 * clamped) / (total as int)) as u32
    }
}

/// Decodes one raw progress payload into the event the relay publishes:
/// an unknown status reads as `sending`, a missing total as 100, a
/// missing progress as 0, and progress is clamped to the total at this
/// point of emission — the invariant every published event carries.
pub fn event_from_json(text: &str) -> (r: Option<ProgressEvent>)
    ensures
        r is Some <==> json_parses(text@),
        r matches Some(e) ==> wf_event(e@),
{
    let parsed = match parse_json(text) {
        Option::None => {
            return Option::None;
        },
        Option::Some(v) => v,
    };
    let status = match json_get(&parsed, "status") {
        Option::Some(v) => match json_as_str(v) {
            Option::Some(name) => {
                if str_eq(name, "completed") {
                    SendStatus::Completed
                } else if str_eq(name, "error") {
                    SendStatus::Error
                } else {
                    SendStatus::Sending
                }
            },
            Option::None => SendStatus::Sending,
        },
        Option::None => SendStatus::Sending,
    };
    let total_raw: u64 = match json_get(&parsed, "total") {
        Option::Some(v) => match json_as_u64(v) {
            Option::Some(n) => n,
            Option::None => 100,
        },
        Option::None => 100,
    };
    let total: u32 = if total_raw > u32::MAX as u64 {
        u32::MAX
    } else {
        total_raw as u32
    };
    let progress_raw: u64 = match json_get(&parsed, "progress") {
        Option::Some(v) => match json_as_u64(v) {
            Option::Some(n) => n,
            Option::None => 0,
        },
        Option::None => 0,
    };
    let progress: u32 = if progress_raw > total as u64 {
        total
    } else {
        progress_raw as u32
    };
    let error = match json_get(&parsed, "error") {
        Option::Some(v) => match json_as_str(v) {
            Option::Some(s) => Option::Some(String::from_str(s)),
            Option::None => Option::None,
        },
        Option::None => Option::None,
    };
    let txid = match json_get(&parsed, "txid") {
        Option::Some(v) => match json_as_str(v) {
            Option::Some(s) => Option::Some(String::from_str(s)),
            Option::None => Option::None,
        },
        Option::None => Option::None,
    };
    Option::Some(ProgressEvent { status, progress, total, error, txid })
}

/// The snapshot the bridge entry point publishes for raw `(processed,
/// total)` note counters: a sending event at the remapped position on the
/// 0 to 100 scale.
pub open spec fn bridge_event_spec(processed: u32, total: u32) -> EventModel {
    EventModel {
        status: SendStatus::Sending,
        progress: remap_note_spec(processed, total),
        total: 100u32,
        error: Option::None,
        txid: Option::None,
    }
}

/// Law: whatever raw counters arrive at the bridge entry point, the
/// published snapshot lies in the 50 to 90 band of the visible scale and
/// never exceeds its total.
pub proof fn lemma_bridge_event_in_band(processed: u32, total: u32)
    ensures
        50 <= bridge_event_spec(processed, total).progress <= 90,
        wf_event(bridge_event_spec(processed, total)),
{
    if total != 0 {
        let clamped: int = if processed > total {
            total as int
        } else {
            processed as int
        };
        assert((40 * clamped) / (total as int) <= 40 && (40 * clamped) / (total as int) >= 0)
            by (nonlinear_arith)
            requires
                0 < total as int,
                0 <= clamped <= total as int,
        ;
    }
}

/// Clamps and remaps raw `(processed, total)` note counters into the
/// 50 to 90 band of the visible progress bar.
pub fn remap_note_progress(processed: u32, total: u32) -> (r: u32)
    ensures
        r == remap_note_spec(processed, total),
        50 <= r <= 90,
{
    if total == 0 {
        50
    } else {
        let clamped: u32 = if processed > total {
            total
        } else {
            processed
        };
        let scaled: u64 = (40u64 * (clamped as u64)) / (total as u64);
        proof {
            assert((40 * (clamped as int)) / (total as int) <= 40 && (40 * (clamped as int)) / (
            total as int) >= 0) by (nonlinear_arith)
                requires
                    0 < total as int,
                    0 <= clamped as int <= total as int,
            ;
        }
        50 + (scaled as u32)
    }
}

} // verus!
