//! What the dispatcher needs from the link below it.

use vstd::prelude::*;
use crate::packet::{meaning, MetroPacket, PacketView};

verus! {

/// A non-blocking link that sends and receives whole packets.
///
/// Each link says of itself what a send and a poll do to it, by the two
/// relations below; a link that says nothing keeps them as they are. An
/// implementation is taken at its word: nothing here can check a driver
/// against what it says.
pub trait MetroTcvr {
    /// What sending `packet` does to a link: `self` before the call, `after`
    /// once it has returned.
    open spec fn send_effect(&self, packet: PacketView, after: &Self) -> bool {
        true
    }

    /// What a poll that gave `polled` does to a link: `self` before the
    /// call, `after` once it has returned.
    open spec fn recv_effect(&self, polled: Option<PacketView>, after: &Self) -> bool {
        true
    }

    /// Hands `packet` to the link for transmission.
    fn send(&mut self, packet: MetroPacket)
        ensures
            old(self).send_effect(packet@, final(self)),
    ;

    /// Polls the link: a packet if one is waiting, `None` otherwise.
    fn recv(&mut self) -> (polled: Option<MetroPacket>)
        ensures
            old(self).recv_effect(meaning(polled), final(self)),
    ;
}

} // verus!
