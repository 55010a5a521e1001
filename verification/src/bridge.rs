//! The delivery bridge's per-step decision.
//!
//! The bridge turns the channel's contents into discrete batch events for the
//! consumer. The timing — draining what is immediately available, then racing
//! the cancellation signal against the micro-batch delay — happens outside
//! this crate; each step hands the drained items and the two signal
//! observations to `bridge_step`, which decides the event.

use vstd::prelude::*;

use crate::parsed_packet::ParsedPacket;

verus! {

/// How an emitted batch is tagged.
#[derive(Debug, Clone, Copy, PartialEq, Eq, Structural)]
pub enum BatchKind {
    /// An ongoing batch: the micro-batch delay elapsed without cancellation.
    Received,
    /// The final batch: cancellation resolved first, the channel was drained
    /// one last time, and no batch follows.
    Drained,
}

/// One batch event handed to the consumer.
#[derive(Debug)]
pub struct BatchEvent {
    /// The tag: ongoing or final.
    pub kind: BatchKind,
    /// The decoded packets, in the order the channel yielded them.
    pub packets: Vec<ParsedPacket>,
}

/// Whether a step that begins with this cancellation state emits a batch:
/// a step that begins already cancelled is terminal instead.
pub open spec fn spec_bridge_emits(cancelled_before: bool) -> bool {
    !cancelled_before
}

/// The tag of an emitted batch: drained when cancellation resolved before
/// the micro-batch delay, received otherwise.
pub open spec fn spec_batch_kind(cancelled_during: bool) -> BatchKind {
    if cancelled_during {
        BatchKind::Drained
    } else {
        BatchKind::Received
    }
}

/// What an emitted batch holds: exactly the drained items, in order.
pub open spec fn spec_batch_packets(drained: Seq<ParsedPacket>) -> Seq<ParsedPacket> {
    drained
}

/// Decide one step of the bridge. `cancelled_before` is the signal as
/// observed when the step began; `drained` is what the step took from the
/// channel; `cancelled_during` is whether cancellation resolved before the
/// micro-batch delay. A step that begins cancelled is terminal (`None`);
/// every other step emits the drained items, unreordered, tagged by how the
/// race resolved.
pub fn bridge_step(cancelled_before: bool, drained: Vec<ParsedPacket>, cancelled_during: bool) -> (r:
    Option<BatchEvent>)
    ensures
        r is Some <==> spec_bridge_emits(cancelled_before),
        r matches Some(ev) ==> ev.kind == spec_batch_kind(cancelled_during) && ev.packets@
            == spec_batch_packets(drained@),
{
    if cancelled_before {
        None
    } else {
        let kind = if cancelled_during {
            BatchKind::Drained
        } else {
            BatchKind::Received
        };
        Some(BatchEvent { kind, packets: drained })
    }
}

/// Batch ordering: an emitted batch holds the drained channel contents
/// exactly — nothing is dropped, added or reordered.
pub proof fn lemma_batch_ordering(drained: Seq<ParsedPacket>)
    ensures
        spec_batch_packets(drained) == drained,
{
}

/// Cancellation terminates the bridge in at most one more batch: the step
/// that sees the signal resolve mid-wait still emits, tagged drained, and
/// any step that begins after cancellation is terminal.
pub proof fn lemma_bridge_cancel_terminates()
    ensures
        spec_bridge_emits(false) && spec_batch_kind(true) == BatchKind::Drained,
        !spec_bridge_emits(true),
{
}

} // verus!
