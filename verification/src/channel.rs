//! The bounded packet channel between the capture source and the delivery
//! bridge, as the library states it: a FIFO queue with a capacity.
//!
//! The capacity is the backpressure mechanism — a full channel accepts
//! nothing more, and the real producer blocks rather than drop a packet. The
//! cross-thread channel that realises this model lives outside the crate;
//! this type pins down what pushing and draining mean, so the FIFO ordering
//! of batches can be stated and tested against it.

use vstd::prelude::*;

use crate::parsed_packet::ParsedPacket;

verus! {

/// A bounded FIFO queue of decoded packets.
#[derive(Debug)]
pub struct PacketChannel {
    /// The queued packets, oldest first.
    pub items: Vec<ParsedPacket>,
    /// The most packets the channel may hold at once.
    pub capacity: usize,
}

impl PacketChannel {
    /// The channel never holds more than its capacity.
    pub open spec fn wf(self) -> bool {
        self.items@.len() <= self.capacity
    }

    /// An empty channel with the given capacity.
    pub fn new(capacity: usize) -> (r: PacketChannel)
        ensures
            r.items@ == Seq::<ParsedPacket>::empty(),
            r.capacity == capacity,
            r.wf(),
    {
        PacketChannel { items: Vec::new(), capacity }
    }

    /// Enqueue one packet at the back. The packet is accepted exactly when
    /// the channel is not full; a full channel is left unchanged, and the
    /// caller decides how to wait.
    pub fn push(&mut self, p: ParsedPacket) -> (accepted: bool)
        requires
            old(self).wf(),
        ensures
            accepted <==> old(self).items@.len() < old(self).capacity,
            accepted ==> final (self).items@ == old(self).items@.push(p),
            !accepted ==> final (self).items@ == old(self).items@,
            final (self).capacity == old(self).capacity,
            final (self).wf(),
    {
        if self.items.len() < self.capacity {
            self.items.push(p);
            true
        } else {
            false
        }
    }

    /// Take every queued packet at once, oldest first, leaving the channel
    /// empty: the non-blocking drain a bridge step performs.
    pub fn drain(&mut self) -> (batch: Vec<ParsedPacket>)
        ensures
            batch@ == old(self).items@,
            final (self).items@ == Seq::<ParsedPacket>::empty(),
            final (self).capacity == old(self).capacity,
            final (self).wf(),
    {
        let mut batch: Vec<ParsedPacket> = Vec::new();
        core::mem::swap(&mut batch, &mut self.items);
        batch
    }

    /// How many packets are queued now.
    pub fn len(&self) -> (r: usize)
        ensures
            r == self.items@.len(),
    {
        self.items.len()
    }
}

} // verus!
