//! The dispatcher: one transceiver, a table of bindings, a single poll step.

use vstd::prelude::*;
use crate::handler::MetroApp;
use crate::packet::{meaning, MetroPacket, PacketView};
use crate::tcvr::MetroTcvr;

verus! {

/// What one dispatch step did with what the transceiver gave it.
#[derive(Debug, Clone, Copy, PartialEq, Eq, Structural)]
pub enum Dispatch {
    /// No packet was waiting.
    Idle,
    /// A packet for `port` went to the handler with handle `handler`.
    Delivered { port: u8, handler: usize },
    /// A packet for `port` was dropped: no handler answers for that port.
    Unbound { port: u8 },
}

/// The handler that answers for `port`, among `handlers` registered handlers.
///
/// A binding whose handle names no registered handler answers for nothing.
pub open spec fn route(bindings: Map<u8, usize>, port: u8, handlers: nat) -> Option<usize> {
    if bindings.contains_key(port) && bindings[port] < handlers {
        Some(bindings[port])
    } else {
        None
    }
}

/// The outcome of a step on which the transceiver gave `polled`.
pub open spec fn outcome_of(
    bindings: Map<u8, usize>,
    polled: Option<PacketView>,
    handlers: nat,
) -> Dispatch {
    match polled {
        None => Dispatch::Idle,
        Some(packet) => match route(bindings, packet.port, handlers) {
            Some(handler) => Dispatch::Delivered { port: packet.port, handler },
            None => Dispatch::Unbound { port: packet.port },
        },
    }
}

/// One step, told in full: with `polled` from the transceiver, the handlers
/// went from `before` to `after` and the step reported `outcome`.
///
/// Exactly the routed handler received the packet, once; every other handler
/// is as it was.
pub open spec fn dispatched<T: MetroTcvr, A: MetroApp<T>>(
    bindings: Map<u8, usize>,
    polled: Option<PacketView>,
    before: Seq<A>,
    outcome: Dispatch,
    after: Seq<A>,
) -> bool {
    &&& outcome == outcome_of(bindings, polled, before.len())
    &&& after.len() == before.len()
    &&& match outcome {
        Dispatch::Delivered { port, handler } => {
            &&& polled is Some
            &&& before[handler as int].rx_effect(polled->Some_0, &after[handler as int])
            &&& forall|i: int| 0 <= i < before.len() && i != handler ==> after[i] == before[i]
        },
        _ => after == before,
    }
}

/// One whole step, poll and dispatch: the transceiver went from `link_before`
/// to `link_after` by one poll and nothing else, and what that poll gave was
/// dispatched.
pub open spec fn stepped<T: MetroTcvr, A: MetroApp<T>>(
    link_before: T,
    bindings: Map<u8, usize>,
    before: Seq<A>,
    outcome: Dispatch,
    link_after: T,
    after: Seq<A>,
) -> bool {
    exists|polled: Option<PacketView>|
        link_before.recv_effect(polled, &link_after) && #[trigger] dispatched::<T, A>(
            bindings,
            polled,
            before,
            outcome,
            after,
        )
}

/// The dispatcher. It owns its transceiver and the table of bindings; the
/// handlers themselves stay with the application, which names them by handle:
/// a handler's index in the registry given to each step.
pub struct Metro<T: MetroTcvr> {
    tcvr: T,
    table: [Option<usize>; 256],
}

impl<T: MetroTcvr> Metro<T> {
    /// The bindings: each bound port with the handle bound to it.
    pub closed spec fn bindings(&self) -> Map<u8, usize> {
        Map::new(
            |port: u8| self.table@[port as int] is Some,
            |port: u8| self.table@[port as int]->Some_0,
        )
    }

    /// The transceiver below this dispatcher.
    pub closed spec fn link(&self) -> T {
        self.tcvr
    }

    /// A dispatcher over `tcvr` with no port bound.
    pub fn new(tcvr: T) -> (metro: Metro<T>)
        ensures
            metro.link() == tcvr,
            metro.bindings() == Map::<u8, usize>::empty(),
    {
        let table: [Option<usize>; 256] = [None; 256];
        let metro = Metro { tcvr, table };
        assert(metro.bindings() =~= Map::<u8, usize>::empty());
        metro
    }

    /// Binds `port` to the handler with handle `handler`, in place of
    /// whatever was bound to it.
    pub fn bind(&mut self, port: u8, handler: usize)
        ensures
            final(self).bindings() == old(self).bindings().insert(port, handler),
            final(self).link() == old(self).link(),
    {
        self.table[port as usize] = Some(handler);
        assert(self.bindings() =~= old(self).bindings().insert(port, handler));
    }

    /// The handle bound to `port`, if any.
    pub fn bound(&self, port: u8) -> (handler: Option<usize>)
        ensures
            handler == (if self.bindings().contains_key(port) {
                Some(self.bindings()[port])
            } else {
                None
            }),
    {
        self.table[port as usize]
    }

    /// The transceiver, to look at.
    pub fn tcvr(&self) -> (tcvr: &T)
        ensures
            *tcvr == self.link(),
    {
        &self.tcvr
    }

    /// Forwards `packet` to the transceiver as it is.
    pub fn send(&mut self, packet: MetroPacket)
        ensures
            old(self).link().send_effect(packet@, &final(self).link()),
            final(self).bindings() == old(self).bindings(),
    {
        self.tcvr.send(packet);
    }

    /// Routes what the transceiver gave: `polled` goes to the handler that
    /// answers for its port, or is dropped where none does.
    pub fn dispatch<A: MetroApp<T>>(
        &self,
        polled: Option<MetroPacket>,
        apps: &mut [A],
    ) -> (outcome: Dispatch)
        ensures
            dispatched::<T, A>(
                self.bindings(),
                meaning(polled),
                old(apps)@,
                outcome,
                final(apps)@,
            ),
    {
        match polled {
            None => Dispatch::Idle,
            Some(packet) => {
                let port: u8 = packet.port();
                match self.table[port as usize] {
                    Some(handler) => {
                        if handler < apps.len() {
                            apps[handler].rx_callback(packet);
                            Dispatch::Delivered { port, handler }
                        } else {
                            Dispatch::Unbound { port }
                        }
                    },
                    None => Dispatch::Unbound { port },
                }
            },
        }
    }

    /// One step: polls the transceiver once and routes what it gave.
    ///
    /// Whatever the transceiver gave, the bindings stay, the transceiver has
    /// been polled once and nothing else, and the handlers changed as one
    /// `dispatch` of what it gave changes them.
    pub fn process<A: MetroApp<T>>(&mut self, apps: &mut [A]) -> (outcome: Dispatch)
        ensures
            final(self).bindings() == old(self).bindings(),
            stepped::<T, A>(
                old(self).link(),
                old(self).bindings(),
                old(apps)@,
                outcome,
                final(self).link(),
                final(apps)@,
            ),
    {
        let polled = self.tcvr.recv();
        let ghost seen = meaning(polled);
        let outcome = self.dispatch(polled, apps);
        assert(old(self).link().recv_effect(seen, &self.link()) && dispatched::<T, A>(
            old(self).bindings(),
            seen,
            old(apps)@,
            outcome,
            apps@,
        ));
        outcome
    }
}

} // verus!
