//! The in-memory packet: a port, a fixed buffer and the number of valid bytes.

use vstd::prelude::*;
use vstd::slice::slice_subrange;
use vstd::std_specs::cmp::PartialEqSpecImpl;

verus! {

/// Number of payload bytes that one packet can carry.
pub const PAYLOAD_CAPACITY: usize = 256;

/// What a packet means: its port and its valid payload bytes.
///
/// Buffer bytes past the valid length are not part of the meaning.
pub struct PacketView {
    pub port: u8,
    pub payload: Seq<u8>,
}

/// What a poll gave, as the meaning of the packet in it.
pub open spec fn meaning(polled: Option<MetroPacket>) -> Option<PacketView> {
    match polled {
        Some(packet) => Some(packet@),
        None => None,
    }
}

/// Why a packet could not be built.
#[derive(Debug, Clone, Copy, PartialEq, Eq, Structural)]
pub enum MetroError {
    /// The payload is longer than `PAYLOAD_CAPACITY`.
    PayloadTooLarge,
}

/// A fixed-capacity message: destination port, buffer, valid length.
#[derive(Debug)]
pub struct MetroPacket {
    port: u8,
    data: [u8; 256],
    data_len: u16,
}

impl View for MetroPacket {
    type V = PacketView;

    closed spec fn view(&self) -> PacketView {
        PacketView { port: self.port, payload: self.data@.subrange(0, self.data_len as int) }
    }
}

impl MetroPacket {
    #[verifier::type_invariant]
    spec fn within_capacity(self) -> bool {
        self.data_len <= 256
    }

    /// The empty packet for port 0, with a zero-filled buffer.
    pub fn new() -> (packet: MetroPacket)
        ensures
            packet@.port == 0,
            packet@.payload == Seq::<u8>::empty(),
            packet.buffer() == Seq::new(256, |i: int| 0u8),
    {
        let data: [u8; 256] = [0u8; 256];
        let packet = MetroPacket { port: 0, data, data_len: 0 };
        assert(packet@.payload =~= Seq::<u8>::empty());
        assert(packet.buffer() =~= Seq::new(256, |i: int| 0u8));
        packet
    }

    /// A packet for `port` that carries `payload`; the rest of the buffer is zero.
    ///
    /// A payload longer than `PAYLOAD_CAPACITY` is rejected, never truncated.
    pub fn with_payload(port: u8, payload: &[u8]) -> (built: Result<MetroPacket, MetroError>)
        ensures
            payload@.len() <= PAYLOAD_CAPACITY ==> built is Ok && built->Ok_0@ == (PacketView {
                port,
                payload: payload@,
            }) && built->Ok_0.buffer() == payload@ + Seq::new(
                (PAYLOAD_CAPACITY - payload@.len()) as nat,
                |i: int| 0u8,
            ),
            payload@.len() > PAYLOAD_CAPACITY ==> built == Err::<MetroPacket, MetroError>(
                MetroError::PayloadTooLarge,
            ),
    {
        let n: usize = payload.len();
        if n > PAYLOAD_CAPACITY {
            return Err(MetroError::PayloadTooLarge);
        }
        let mut data: [u8; 256] = [0u8; 256];
        let mut i: usize = 0;
        while i < n
            invariant
                n == payload@.len(),
                n <= 256,
                i <= n,
                forall|j: int| 0 <= j < i ==> data@[j] == payload@[j],
                forall|j: int| i <= j < 256 ==> data@[j] == 0u8,
            decreases n - i,
        {
            data[i] = payload[i];
            i += 1;
        }
        let packet = MetroPacket { port, data, data_len: n as u16 };
        assert(packet@.payload =~= payload@);
        assert(packet.buffer() =~= payload@ + Seq::new((256 - n) as nat, |i: int| 0u8));
        Ok(packet)
    }

    /// The whole buffer, valid bytes and the rest.
    pub closed spec fn buffer(&self) -> Seq<u8> {
        self.data@
    }

    /// The port this packet is addressed to.
    pub fn port(&self) -> (port: u8)
        ensures
            port == self@.port,
    {
        self.port
    }

    /// The number of valid payload bytes.
    pub fn len(&self) -> (len: usize)
        ensures
            len == self@.payload.len(),
            len <= PAYLOAD_CAPACITY,
    {
        proof {
            use_type_invariant(self);
        }
        self.data_len as usize
    }

    /// The valid payload bytes, and nothing of the buffer behind them.
    pub fn payload(&self) -> (bytes: &[u8])
        ensures
            bytes@ == self@.payload,
    {
        proof {
            use_type_invariant(self);
        }
        slice_subrange(self.data.as_slice(), 0, self.data_len as usize)
    }
}

impl Default for MetroPacket {
    /// The empty packet for port 0, as `new` gives it.
    fn default() -> (packet: MetroPacket)
        ensures
            packet@.port == 0,
            packet@.payload == Seq::<u8>::empty(),
            packet.buffer() == Seq::new(256, |i: int| 0u8),
    {
        MetroPacket::new()
    }
}

impl PartialEq for MetroPacket {
    /// Two packets are equal when they mean the same: same port, same valid
    /// bytes. What lies in the buffers behind the valid bytes is not compared.
    fn eq(&self, other: &MetroPacket) -> (same: bool) {
        proof {
            use_type_invariant(self);
            use_type_invariant(other);
        }
        let n: usize = self.len();
        if self.port != other.port || n != other.len() {
            assert(self@.payload.len() != other@.payload.len() || self@.port != other@.port);
            return false;
        }
        let mut i: usize = 0;
        while i < n
            invariant
                i <= n,
                n <= 256,
                n == self.data_len,
                n == other.data_len,
                forall|j: int| 0 <= j < i ==> self.data@[j] == other.data@[j],
            decreases n - i,
        {
            if self.data[i] != other.data[i] {
                assert(self@.payload[i as int] != other@.payload[i as int]);
                return false;
            }
            i += 1;
        }
        assert(self@.payload =~= other@.payload);
        true
    }
}

impl PartialEqSpecImpl for MetroPacket {
    open spec fn obeys_eq_spec() -> bool {
        true
    }

    open spec fn eq_spec(&self, other: &MetroPacket) -> bool {
        self@ == other@
    }
}

impl Clone for MetroPacket {
    /// A duplicate of the whole packet, buffer included.
    fn clone(&self) -> (copy: MetroPacket)
        ensures
            copy == *self,
    {
        proof {
            use_type_invariant(self);
        }
        MetroPacket { port: self.port, data: self.data, data_len: self.data_len }
    }
}

} // verus!
