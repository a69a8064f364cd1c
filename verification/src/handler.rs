//! What the dispatcher needs from an application handler.

use vstd::prelude::*;
use crate::metro::Metro;
use crate::packet::{MetroPacket, PacketView};
use crate::tcvr::MetroTcvr;

verus! {

/// An application handler that can be bound to a port.
///
/// An implementation is taken at its word for what `rx_callback` ensures.
pub trait MetroApp<T: MetroTcvr> {
    /// What receiving `packet` does to a handler: `self` before the call,
    /// `after` once it has returned. Each handler says this of itself; one
    /// that says nothing keeps the relation as it is.
    open spec fn rx_effect(&self, packet: PacketView, after: &Self) -> bool {
        true
    }

    /// Called by the dispatcher with a packet addressed to this handler's port.
    fn rx_callback(&mut self, packet: MetroPacket)
        ensures
            old(self).rx_effect(packet@, final(self)),
    ;

    /// Pushes `packet` out through `metro`. The dispatcher never calls this;
    /// it is the handler's own way down to the link. A handler that does not
    /// write its own forwards the packet as it is.
    fn send(&mut self, metro: &mut Metro<T>, packet: MetroPacket)
        default_ensures
            old(metro).link().send_effect(packet@, &final(metro).link()),
            final(metro).bindings() == old(metro).bindings(),
    {
        metro.send(packet);
    }
}

} // verus!
