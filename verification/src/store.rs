//! The accumulation store for decoded packets: an insertion-ordered sequence
//! bounded by a configurable retention cap, with the capture counters kept
//! beside it.

use vstd::prelude::*;

use vstd::string::StringSliceAdditionalSpecFns;

use crate::digits::{parse_decimal, spec_parse_number};
use crate::parsed_packet::ParsedPacket;

verus! {

/// The retention cap a typed text names: the number it holds, when it is one
/// a `usize` can hold, and 1000 otherwise.
pub open spec fn spec_cache_size(s: Seq<u8>) -> int {
    match spec_parse_number(s, usize::MAX as int) {
        Some(v) => v,
        None => 1000,
    }
}

/// Read a retention cap from a typed text, falling back to 1000 where the
/// text is not a number a `usize` can hold.
pub fn parse_cache_size(input: &str) -> (r: usize)
    ensures
        r == spec_cache_size(input.spec_bytes()),
{
    let bytes: &[u8] = input.as_bytes();
    let n = bytes.len();
    proof {
        assert(bytes@.subrange(0, n as int) =~= bytes@);
    }
    match parse_decimal(bytes, 0, n, usize::MAX as u64) {
        Some(v) => v as usize,
        None => 1000,
    }
}

/// The bytes held by a sequence of packets: the sum of their frame lengths.
pub open spec fn spec_batch_mem(s: Seq<ParsedPacket>) -> int
    decreases s.len(),
{
    if s.len() == 0 {
        0
    } else {
        spec_batch_mem(s.drop_last()) + s.last().data@.len()
    }
}

/// Adding to a counter without passing the machine's ceiling.
pub open spec fn spec_saturate(a: int, b: int) -> int {
    if a + b <= usize::MAX {
        a + b
    } else {
        usize::MAX as int
    }
}

/// The insertion-ordered store of decoded packets, bounded by a retention
/// cap: appending beyond the cap evicts the oldest entries first, so the
/// store never holds more than `cap` packets and survivors keep their
/// relative order.
#[derive(Debug)]
pub struct PacketStore {
    /// The retained packets, oldest first.
    pub packets: Vec<ParsedPacket>,
    /// The retention cap: the most packets the store may hold.
    pub cap: usize,
    /// How many packets were ever appended, kept at the machine ceiling when
    /// it is passed.
    pub total_captured: usize,
    /// How many frame bytes were ever appended, kept at the machine ceiling
    /// when it is passed.
    pub total_mem: usize,
}

impl PacketStore {
    /// The store never holds more packets than its cap.
    pub open spec fn wf(self) -> bool {
        self.packets@.len() <= self.cap
    }

    /// What the retained sequence becomes when `batch` is appended to `s`
    /// under cap `cap`: the concatenation with its oldest entries dropped
    /// down to the cap.
    pub open spec fn spec_retained(s: Seq<ParsedPacket>, batch: Seq<ParsedPacket>, cap: int) -> Seq<
        ParsedPacket,
    > {
        let all = s + batch;
        if all.len() <= cap {
            all
        } else {
            all.skip(all.len() - cap)
        }
    }

    /// An empty store with the given retention cap.
    pub fn new(cap: usize) -> (r: PacketStore)
        ensures
            r.packets@ == Seq::<ParsedPacket>::empty(),
            r.cap == cap,
            r.total_captured == 0,
            r.total_mem == 0,
            r.wf(),
    {
        PacketStore { packets: Vec::new(), cap, total_captured: 0, total_mem: 0 }
    }

    /// Append one batch: every packet of `batch` enters in order after the
    /// ones already held, the oldest entries are evicted first until the cap
    /// is met again, and the counters grow by the batch's size, stopping at
    /// the machine ceiling.
    pub fn append_batch(&mut self, batch: Vec<ParsedPacket>)
        requires
            old(self).wf(),
        ensures
            final (self).packets@ == Self::spec_retained(
                old(self).packets@,
                batch@,
                old(self).cap as int,
            ),
            final (self).cap == old(self).cap,
            final (self).total_captured == spec_saturate(
                old(self).total_captured as int,
                batch@.len() as int,
            ),
            final (self).total_mem == spec_saturate(
                old(self).total_mem as int,
                spec_batch_mem(batch@),
            ),
            final (self).wf(),
    {
        let ghost old_packets = self.packets@;
        let ghost batch_snap = batch@;
        let n = batch.len();
        if self.total_captured > usize::MAX - n {
            self.total_captured = usize::MAX;
        } else {
            self.total_captured = self.total_captured + n;
        }
        let ghost old_mem = self.total_mem as int;
        let ghost tc = self.total_captured;
        let mut i: usize = 0;
        while i < batch.len()
            invariant
                0 <= i <= batch.len(),
                batch@ == batch_snap,
                self.total_mem == spec_saturate(old_mem, spec_batch_mem(batch@.take(i as int))),
                0 <= old_mem <= usize::MAX,
                self.packets@ == old(self).packets@,
                self.cap == old(self).cap,
                self.total_captured == tc,
            decreases batch.len() - i,
        {
            proof {
                assert(batch@.take(i + 1).drop_last() =~= batch@.take(i as int));
                lemma_batch_mem_nonneg(batch@.take(i as int));
            }
            let m = batch[i].data.len();
            if self.total_mem > usize::MAX - m {
                self.total_mem = usize::MAX;
            } else {
                self.total_mem = self.total_mem + m;
            }
            i = i + 1;
        }
        proof {
            assert(batch@.take(batch@.len() as int) =~= batch@);
        }
        let mut incoming = batch;
        self.packets.append(&mut incoming);
        let ghost tc2 = self.total_captured;
        let ghost tm = self.total_mem;
        let ghost all = old_packets + batch_snap;
        proof {
            assert(all.skip(0) =~= all);
        }
        while self.packets.len() > self.cap
            invariant
                self.cap == old(self).cap,
                self.total_captured == tc2,
                self.total_mem == tm,
                self.packets@.len() <= all.len(),
                self.packets@.len() >= if all.len() <= self.cap {
                    all.len() as int
                } else {
                    self.cap as int
                },
                self.packets@ == all.skip(all.len() - self.packets@.len()),
            decreases self.packets.len(),
        {
            self.packets.remove(0);
            proof {
                assert(self.packets@ =~= all.skip(all.len() - self.packets@.len()));
            }
        }
    }

    /// Drop every retained packet and reset both counters; the cap stays.
    pub fn clear(&mut self)
        ensures
            final (self).packets@ == Seq::<ParsedPacket>::empty(),
            final (self).cap == old(self).cap,
            final (self).total_captured == 0,
            final (self).total_mem == 0,
            final (self).wf(),
    {
        self.packets.clear();
        self.total_captured = 0;
        self.total_mem = 0;
    }

    /// Change the retention cap, evicting oldest entries if the store now
    /// holds too many.
    pub fn set_cap(&mut self, cap: usize)
        ensures
            final (self).cap == cap,
            final (self).packets@ == Self::spec_retained(
                old(self).packets@,
                Seq::<ParsedPacket>::empty(),
                cap as int,
            ),
            final (self).total_captured == old(self).total_captured,
            final (self).total_mem == old(self).total_mem,
            final (self).wf(),
    {
        self.cap = cap;
        let ghost all = old(self).packets@;
        proof {
            assert(all + Seq::<ParsedPacket>::empty() =~= all);
            assert(all.skip(0) =~= all);
        }
        while self.packets.len() > self.cap
            invariant
                self.cap == cap,
                self.total_captured == old(self).total_captured,
                self.total_mem == old(self).total_mem,
                self.packets@.len() <= all.len(),
                self.packets@.len() >= if all.len() <= self.cap {
                    all.len() as int
                } else {
                    self.cap as int
                },
                self.packets@ == all.skip(all.len() - self.packets@.len()),
            decreases self.packets.len(),
        {
            self.packets.remove(0);
            proof {
                assert(self.packets@ =~= all.skip(all.len() - self.packets@.len()));
            }
        }
    }

    /// How many packets the store holds now.
    pub fn len(&self) -> (r: usize)
        ensures
            r == self.packets@.len(),
    {
        self.packets.len()
    }
}

/// Appending two batches one after the other retains exactly what appending
/// their concatenation retains: earlier-emitted batches precede later ones in
/// the store, and eviction never reorders what survives.
pub proof fn lemma_append_batches_compose(
    s: Seq<ParsedPacket>,
    b1: Seq<ParsedPacket>,
    b2: Seq<ParsedPacket>,
    cap: int,
)
    requires
        cap >= 0,
    ensures
        PacketStore::spec_retained(PacketStore::spec_retained(s, b1, cap), b2, cap)
            == PacketStore::spec_retained(s, b1 + b2, cap),
{
    let r1 = PacketStore::spec_retained(s, b1, cap);
    let lhs = PacketStore::spec_retained(r1, b2, cap);
    let rhs = PacketStore::spec_retained(s, b1 + b2, cap);
    assert(s + b1 + b2 =~= s + (b1 + b2));
    assert(lhs =~= rhs);
}

/// A sum of frame lengths is never negative.
proof fn lemma_batch_mem_nonneg(s: Seq<ParsedPacket>)
    ensures
        spec_batch_mem(s) >= 0,
    decreases s.len(),
{
    if s.len() > 0 {
        lemma_batch_mem_nonneg(s.drop_last());
    }
}

} // verus!
