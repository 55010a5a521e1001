//! The computation behind the packet-list display: which of the stored
//! packets the current filter state shows, oldest first.

use vstd::prelude::*;

use crate::filter::FilterState;
use crate::parsed_packet::ParsedPacket;

verus! {

/// The positions, in increasing order, of the packets among the first `n` of
/// `s` that `f` shows.
pub open spec fn spec_visible_indices(s: Seq<ParsedPacket>, f: FilterState, n: int) -> Seq<usize>
    decreases n,
{
    if n <= 0 {
        Seq::empty()
    } else {
        let rest = spec_visible_indices(s, f, n - 1);
        if f.spec_visible(s[n - 1]) {
            rest.push((n - 1) as usize)
        } else {
            rest
        }
    }
}

/// The packet-list view of the store.
pub struct PacketList;

impl PacketList {
    /// The positions of the packets that `filter` shows, oldest first: the
    /// selection the list widget renders.
    pub fn visible_indices(packets: &Vec<ParsedPacket>, filter: &FilterState) -> (r: Vec<usize>)
        ensures
            r@ == spec_visible_indices(packets@, *filter, packets@.len() as int),
    {
        let mut r: Vec<usize> = Vec::new();
        let mut i: usize = 0;
        while i < packets.len()
            invariant
                0 <= i <= packets.len(),
                r@ == spec_visible_indices(packets@, *filter, i as int),
            decreases packets.len() - i,
        {
            if filter.visible(&packets[i]) {
                r.push(i);
            }
            i = i + 1;
        }
        r
    }
}

} // verus!
