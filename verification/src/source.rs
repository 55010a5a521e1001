//! The capture source's per-iteration decision.
//!
//! The blocking read loop itself runs outside this crate, on a dedicated
//! worker: only it can block on the OS capture handle. At the top of every
//! iteration it observes the cancellation signal and the outcome of one read,
//! hands both to `source_step`, and performs the action decided here: stop,
//! send one decoded packet into the channel, or go on to the next read.

use vstd::prelude::*;

use crate::parsed_packet::{spec_parse, ParsedPacket};

verus! {

/// What the capture loop does after one observation.
#[derive(Debug)]
pub enum SourceAction {
    /// Leave the loop; nothing more is sent.
    Stop,
    /// Send this decoded packet into the channel, then read again.
    Send(ParsedPacket),
    /// Read again without sending: the read failed (a recoverable hiccup) or
    /// the frame was rejected.
    Skip,
}

/// The decision alone, without the decoded packet.
#[derive(Debug, Clone, Copy, PartialEq, Eq, Structural)]
pub enum SourceDecision {
    Stop,
    Send,
    Skip,
}

impl SourceAction {
    /// The decision this action carries out.
    pub open spec fn spec_decision(self) -> SourceDecision {
        match self {
            SourceAction::Stop => SourceDecision::Stop,
            SourceAction::Send(_) => SourceDecision::Send,
            SourceAction::Skip => SourceDecision::Skip,
        }
    }
}

/// The source's decision for one iteration: stop once cancellation is
/// observed; otherwise skip a failed read, send a frame that parses, and
/// skip one that is rejected.
pub open spec fn spec_source_decision(
    cancelled: bool,
    read: Option<Seq<u8>>,
    discard_non_http: bool,
) -> SourceDecision {
    if cancelled {
        SourceDecision::Stop
    } else {
        match read {
            None => SourceDecision::Skip,
            Some(s) => if spec_parse(s, discard_non_http) is Some {
                SourceDecision::Send
            } else {
                SourceDecision::Skip
            },
        }
    }
}

/// The byte view of one read outcome.
pub open spec fn spec_read_view(read: Option<Vec<u8>>) -> Option<Seq<u8>> {
    match read {
        Some(v) => Some(v@),
        None => None,
    }
}

/// Decide one iteration of the capture loop from what it observed: the
/// cancellation signal, and one read outcome (`None` for a read error). A
/// sent packet is exactly the parse of the read bytes.
pub fn source_step(cancelled: bool, read: Option<Vec<u8>>, discard_non_http: bool) -> (r:
    SourceAction)
    ensures
        r.spec_decision() == spec_source_decision(
            cancelled,
            spec_read_view(read),
            discard_non_http,
        ),
        r matches SourceAction::Send(p) ==> read is Some && p.data@ == read.unwrap()@ && spec_parse(
            p.data@,
            discard_non_http,
        ) == Some((p.net, p.transport)) && p.wf(),
{
    if cancelled {
        return SourceAction::Stop;
    }
    match read {
        None => SourceAction::Skip,
        Some(frame) => match ParsedPacket::parse(frame, discard_non_http) {
            Some(p) => SourceAction::Send(p),
            None => SourceAction::Skip,
        },
    }
}

/// Cancellation stops the source: once the signal is observed at the top of
/// an iteration the decision is to stop, whatever the last read returned —
/// so the loop performs no further blocking read after the one in flight.
pub proof fn lemma_source_cancel_stops(read: Option<Seq<u8>>, discard_non_http: bool)
    ensures
        spec_source_decision(true, read, discard_non_http) == SourceDecision::Stop,
{
}

} // verus!
