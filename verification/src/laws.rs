//! Laws of dispatch, over every table of bindings and every registry of
//! handlers. Each speaks of a step as `Metro::dispatch` tells it, through
//! `dispatched`, or as `Metro::process` tells it, through `stepped`.

use vstd::prelude::*;
use crate::handler::MetroApp;
use crate::metro::{dispatched, route, stepped, Dispatch};
use crate::packet::PacketView;
use crate::tcvr::MetroTcvr;

verus! {

/// A binding holds until the port is bound again: once `port` is bound to
/// `handler`, it routes to `handler` wherever that names a registered
/// handler, and every other port routes as before.
pub proof fn lemma_bind_routes(bindings: Map<u8, usize>, port: u8, handler: usize, handlers: nat)
    ensures
        route(bindings.insert(port, handler), port, handlers) == (if handler < handlers {
            Some(handler)
        } else {
            None
        }),
        forall|other: u8|
            other != port ==> route(bindings.insert(port, handler), other, handlers) == route(
                bindings,
                other,
                handlers,
            ),
{
}

/// Binding overwrites: after a port is bound to `first` and then to `second`,
/// the table is what binding it to `second` alone gives, the port routes to
/// `second` only, and every other port routes as before.
pub proof fn lemma_rebind_last_wins(
    bindings: Map<u8, usize>,
    port: u8,
    first: usize,
    second: usize,
    handlers: nat,
)
    ensures
        bindings.insert(port, first).insert(port, second) == bindings.insert(port, second),
        route(bindings.insert(port, first).insert(port, second), port, handlers) == (if second
            < handlers {
            Some(second)
        } else {
            None
        }),
        forall|other: u8|
            other != port ==> route(
                bindings.insert(port, first).insert(port, second),
                other,
                handlers,
            ) == route(bindings, other, handlers),
{
    assert(bindings.insert(port, first).insert(port, second) =~= bindings.insert(port, second));
}

/// Binding overwrites, seen from the handlers: once a port is bound to
/// `first` and then to `second`, a packet for that port reaches `second` and
/// no one else; `first`, if it is another handler, is left as it was.
pub proof fn lemma_rebind_only_second_receives<T: MetroTcvr, A: MetroApp<T>>(
    bindings: Map<u8, usize>,
    first: usize,
    second: usize,
    packet: PacketView,
    before: Seq<A>,
    outcome: Dispatch,
    after: Seq<A>,
)
    requires
        dispatched::<T, A>(
            bindings.insert(packet.port, first).insert(packet.port, second),
            Some(packet),
            before,
            outcome,
            after,
        ),
    ensures
        second < before.len() ==> outcome == (Dispatch::Delivered {
            port: packet.port,
            handler: second,
        }) && before[second as int].rx_effect(packet, &after[second as int]),
        second >= before.len() ==> outcome == (Dispatch::Unbound { port: packet.port }) && after
            == before,
        forall|i: int| 0 <= i < before.len() && i != second ==> after[i] == before[i],
        first != second && first < before.len() ==> after[first as int] == before[first as int],
{
}

/// Exact dispatch: a packet for a port whose binding names a registered
/// handler reaches that handler, once, and every other handler is left as
/// it was.
pub proof fn lemma_exact_dispatch<T: MetroTcvr, A: MetroApp<T>>(
    bindings: Map<u8, usize>,
    packet: PacketView,
    before: Seq<A>,
    outcome: Dispatch,
    after: Seq<A>,
)
    requires
        bindings.contains_key(packet.port),
        bindings[packet.port] < before.len(),
        dispatched::<T, A>(bindings, Some(packet), before, outcome, after),
    ensures
        outcome == (Dispatch::Delivered { port: packet.port, handler: bindings[packet.port] }),
        before[bindings[packet.port] as int].rx_effect(
            packet,
            &after[bindings[packet.port] as int],
        ),
        after.len() == before.len(),
        forall|i: int|
            0 <= i < before.len() && i != bindings[packet.port] ==> after[i] == before[i],
{
}

/// Unbound drop: a packet for a port with no binding is reported as
/// `Unbound` and reaches no handler.
pub proof fn lemma_unbound_drop<T: MetroTcvr, A: MetroApp<T>>(
    bindings: Map<u8, usize>,
    packet: PacketView,
    before: Seq<A>,
    outcome: Dispatch,
    after: Seq<A>,
)
    requires
        !bindings.contains_key(packet.port),
        dispatched::<T, A>(bindings, Some(packet), before, outcome, after),
    ensures
        outcome == (Dispatch::Unbound { port: packet.port }),
        after == before,
{
}

/// Idle poll: a step on which the transceiver gave nothing is reported as
/// `Idle` and reaches no handler; and only such a step is reported so.
pub proof fn lemma_idle_poll<T: MetroTcvr, A: MetroApp<T>>(
    bindings: Map<u8, usize>,
    polled: Option<PacketView>,
    before: Seq<A>,
    outcome: Dispatch,
    after: Seq<A>,
)
    requires
        dispatched::<T, A>(bindings, polled, before, outcome, after),
    ensures
        polled is None <==> outcome == Dispatch::Idle,
        polled is None ==> after == before,
{
}

/// The next poll of `link` can give `polled` and nothing else, by the link's
/// own account of a poll.
pub open spec fn gives_only<T: MetroTcvr>(link: T, polled: Option<PacketView>) -> bool {
    forall|other: Option<PacketView>, after: T| #[trigger]
        link.recv_effect(other, &after) ==> other == polled
}

/// Idle poll, for a whole step: where the transceiver has nothing to give,
/// the step is reported as `Idle`, no handler is reached, and the
/// transceiver has been polled, to no avail, and nothing else.
pub proof fn lemma_idle_step<T: MetroTcvr, A: MetroApp<T>>(
    link_before: T,
    bindings: Map<u8, usize>,
    before: Seq<A>,
    outcome: Dispatch,
    link_after: T,
    after: Seq<A>,
)
    requires
        gives_only(link_before, None),
        stepped::<T, A>(link_before, bindings, before, outcome, link_after, after),
    ensures
        outcome == Dispatch::Idle,
        after == before,
        link_before.recv_effect(None, &link_after),
{
}

/// Exact dispatch, for a whole step: where the transceiver has `packet` to
/// give and the packet's port is bound to a registered handler, that handler
/// receives it, once, every other handler is left as it was, and the
/// transceiver has given the packet and done nothing else.
pub proof fn lemma_exact_step<T: MetroTcvr, A: MetroApp<T>>(
    link_before: T,
    bindings: Map<u8, usize>,
    packet: PacketView,
    before: Seq<A>,
    outcome: Dispatch,
    link_after: T,
    after: Seq<A>,
)
    requires
        gives_only(link_before, Some(packet)),
        bindings.contains_key(packet.port),
        bindings[packet.port] < before.len(),
        stepped::<T, A>(link_before, bindings, before, outcome, link_after, after),
    ensures
        outcome == (Dispatch::Delivered { port: packet.port, handler: bindings[packet.port] }),
        before[bindings[packet.port] as int].rx_effect(
            packet,
            &after[bindings[packet.port] as int],
        ),
        after.len() == before.len(),
        forall|i: int|
            0 <= i < before.len() && i != bindings[packet.port] ==> after[i] == before[i],
        link_before.recv_effect(Some(packet), &link_after),
{
}

/// Unbound drop, for a whole step: where the transceiver has `packet` to give
/// and the packet's port has no binding, the step is reported as `Unbound`,
/// no handler is reached, and the transceiver has given the packet and done
/// nothing else.
pub proof fn lemma_unbound_step<T: MetroTcvr, A: MetroApp<T>>(
    link_before: T,
    bindings: Map<u8, usize>,
    packet: PacketView,
    before: Seq<A>,
    outcome: Dispatch,
    link_after: T,
    after: Seq<A>,
)
    requires
        gives_only(link_before, Some(packet)),
        !bindings.contains_key(packet.port),
        stepped::<T, A>(link_before, bindings, before, outcome, link_after, after),
    ensures
        outcome == (Dispatch::Unbound { port: packet.port }),
        after == before,
        link_before.recv_effect(Some(packet), &link_after),
{
}

} // verus!
