//! Per-tick routing of raw inbound packets to the message registry.
//!
//! Transport callbacks push raw packets into the router's bounded channel.
//! Once per tick the router drains every buffered packet, strips the framing
//! header and hands the payload to the registry.  A packet that is too short
//! or carries an unregistered identifier is dropped and counted; one bad
//! packet never halts the drain.

use vstd::bytes::spec_u64_from_le_bytes;
use vstd::prelude::*;

use crate::channel::BoundedChannel;
use crate::codec::{decode_header, FramingError, HEADER_BYTES};
use crate::ids::UserId;
use crate::registry::{
    dispatched, model_index, step_dispatch, DispatchError, MessageRegistry, RegistryModel,
};

verus! {

/// Why one inbound packet was dropped at the routing step.
#[derive(Clone, Copy, PartialEq, Eq, Structural, Debug)]
pub enum RouteError {
    /// The packet was shorter than the framing header.
    Truncated,
    /// No kind is registered under the packet's identifier.
    Unknown,
}

/// How routing one raw packet moves the registry model: a packet shorter
/// than the header changes nothing; any other packet's payload is dispatched
/// under the identifier its header carries.
pub open spec fn step_route(m: RegistryModel, sender: UserId, bytes: Seq<u8>) -> RegistryModel {
    if bytes.len() < HEADER_BYTES {
        m
    } else {
        step_dispatch(
            m,
            spec_u64_from_le_bytes(bytes.subrange(0, HEADER_BYTES as int)),
            sender,
            bytes.skip(HEADER_BYTES as int),
        )
    }
}

/// Every packet in `packets`, routed oldest first.
pub open spec fn steps_route(m: RegistryModel, packets: Seq<(UserId, Seq<u8>)>) -> RegistryModel
    decreases packets.len(),
{
    if packets.len() == 0 {
        m
    } else {
        steps_route(step_route(m, packets[0].0, packets[0].1), packets.drop_first())
    }
}

/// Delivery of a framed packet: routing the exact bytes that framing an
/// identifier and a payload produces appends exactly that payload, under that
/// sender, to the back of the registered kind's queue — for every identifier
/// in the registry, every payload and every sender, as long as the kind's
/// queue has room.
pub proof fn lemma_packet_delivery(
    m: RegistryModel,
    id: u64,
    payload: Seq<u8>,
    sender: UserId,
)
    requires
        m.queues.len() == m.ids.len(),
        m.ids.contains(id),
        m.queues[model_index(m.ids, id)].len() < m.caps[model_index(m.ids, id)],
    ensures
        ({
            let i = model_index(m.ids, id);
            let post = step_route(m, sender, crate::codec::framed(id, payload));
            &&& post.queues[i] == m.queues[i].push((sender, payload))
            &&& forall|j: int| 0 <= j < m.queues.len() && j != i ==> post.queues[j] == m.queues[j]
            &&& post.ids == m.ids
        }),
{
    crate::codec::lemma_frame_round_trip(id, payload);
}

/// A raw inbound packet as the transport handed it over.
pub struct RawPacket {
    /// Who sent the packet.
    pub sender: UserId,
    /// The packet bytes, header still in front.
    pub bytes: Vec<u8>,
}

/// Strip one packet's framing header and dispatch its payload.
///
/// A packet shorter than the header is refused as `Truncated` and the registry
/// is left untouched: such a packet never reaches any kind's queue.  A packet
/// whose identifier is unregistered is refused as `Unknown`, again touching
/// nothing.  Any other packet's payload is dispatched to its kind's queue.
pub fn route_packet(registry: &mut MessageRegistry, sender: UserId, bytes: &[u8]) -> (r: Result<
    (),
    RouteError,
>)
    requires
        old(registry).wf(),
    ensures
        final(registry).wf(),
        final(registry).ids() == old(registry).ids(),
        bytes@.len() < HEADER_BYTES ==> r == Err::<(), RouteError>(RouteError::Truncated)
            && *final(registry) == *old(registry),
        bytes@.len() >= HEADER_BYTES ==> {
            let id = spec_u64_from_le_bytes(bytes@.subrange(0, HEADER_BYTES as int));
            &&& !old(registry).contains_id(id) ==> r == Err::<(), RouteError>(RouteError::Unknown)
                && *final(registry) == *old(registry)
            &&& old(registry).contains_id(id) ==> r == Ok::<(), RouteError>(()) && dispatched(
                *old(registry),
                *final(registry),
                id,
                sender,
                bytes@.skip(HEADER_BYTES as int),
            )
        },
        final(registry).rmodel() == step_route(old(registry).rmodel(), sender, bytes@),
{
    match decode_header(bytes) {
        Err(FramingError::Truncated) => Err(RouteError::Truncated),
        Ok((id, payload)) => {
            match registry.send(id, payload, sender) {
                Ok(()) => Ok(()),
                Err(DispatchError::UnknownMessage) => Err(RouteError::Unknown),
                Err(DispatchError::Malformed) => Err(RouteError::Unknown),
            }
        },
    }
}

/// The router: a bounded buffer of raw packets and the drop counters.
pub struct PacketRouter {
    incoming: BoundedChannel<RawPacket>,
    truncated: u64,
    unknown: u64,
}

impl PacketRouter {
    /// The buffered packets, oldest first: sender and raw bytes.
    pub closed spec fn pending(self) -> Seq<(UserId, Seq<u8>)> {
        self.incoming.contents().map(|i: int, p: RawPacket| (p.sender, p.bytes@))
    }

    /// The fixed capacity of the packet buffer.
    pub closed spec fn cap(self) -> nat {
        self.incoming.cap()
    }

    /// How many packets were dropped for being shorter than the header.
    pub closed spec fn truncated_spec(self) -> u64 {
        self.truncated
    }

    /// How many packets were dropped for carrying an unregistered identifier.
    pub closed spec fn unknown_spec(self) -> u64 {
        self.unknown
    }

    /// The buffer never outgrows its capacity.
    pub closed spec fn wf(self) -> bool {
        self.incoming.wf()
    }

    /// An empty router whose buffer holds at most `capacity` packets.
    pub fn new(capacity: usize) -> (r: PacketRouter)
        ensures
            r.wf(),
            r.pending() == Seq::<(UserId, Seq<u8>)>::empty(),
            r.cap() == capacity,
            r.truncated_spec() == 0,
            r.unknown_spec() == 0,
    {
        let r = PacketRouter {
            incoming: BoundedChannel::new(capacity),
            truncated: 0,
            unknown: 0,
        };
        proof {
            assert(r.pending() =~= Seq::<(UserId, Seq<u8>)>::empty());
        }
        r
    }

    /// Buffer one raw packet from the transport.  Non-blocking: when the
    /// buffer is full the packet is dropped and `false` is returned.
    pub fn push_packet(&mut self, sender: UserId, bytes: Vec<u8>) -> (accepted: bool)
        requires
            old(self).wf(),
        ensures
            final(self).wf(),
            final(self).cap() == old(self).cap(),
            final(self).truncated_spec() == old(self).truncated_spec(),
            final(self).unknown_spec() == old(self).unknown_spec(),
            accepted == (old(self).pending().len() < old(self).cap()),
            accepted ==> final(self).pending() == old(self).pending().push((sender, bytes@)),
            !accepted ==> final(self).pending() == old(self).pending(),
    {
        let ghost before = self.pending();
        let ghost bytes_view = bytes@;
        let accepted = self.incoming.send(RawPacket { sender, bytes });
        proof {
            if accepted {
                assert(self.pending() =~= before.push((sender, bytes_view)));
            } else {
                assert(self.pending() =~= before);
            }
        }
        accepted
    }

    /// Drain every buffered packet into the registry, in arrival order.
    ///
    /// Each packet is routed with `route_packet`; a refused packet is counted
    /// under its reason and the drain continues with the next one.  The buffer
    /// is empty afterwards, so one tick handles at most `cap` packets.
    pub fn route_all(&mut self, registry: &mut MessageRegistry)
        requires
            old(self).wf(),
            old(registry).wf(),
        ensures
            final(self).wf(),
            final(registry).wf(),
            final(self).pending().len() == 0,
            final(self).cap() == old(self).cap(),
            final(registry).ids() == old(registry).ids(),
            final(registry).rmodel() == steps_route(old(registry).rmodel(), old(self).pending()),
    {
        loop
            invariant
                self.wf(),
                registry.wf(),
                self.cap() == old(self).cap(),
                registry.ids() == old(registry).ids(),
                steps_route(registry.rmodel(), self.pending()) == steps_route(
                    old(registry).rmodel(),
                    old(self).pending(),
                ),
            decreases self.pending().len(),
        {
            let ghost pending_before = self.pending();
            let next = self.incoming.recv();
            match next {
                None => {
                    return;
                },
                Some(packet) => {
                    proof {
                        assert(pending_before[0] == (packet.sender, packet.bytes@));
                        assert(self.pending() =~= pending_before.drop_first());
                    }
                    match route_packet(registry, packet.sender, packet.bytes.as_slice()) {
                        Ok(()) => (),
                        Err(RouteError::Truncated) => {
                            if self.truncated < u64::MAX {
                                self.truncated = self.truncated + 1;
                            }
                        },
                        Err(RouteError::Unknown) => {
                            if self.unknown < u64::MAX {
                                self.unknown = self.unknown + 1;
                            }
                        },
                    }
                },
            }
        }
    }

    /// How many packets were dropped for being shorter than the header.
    pub fn truncated_count(&self) -> (r: u64)
        ensures
            r == self.truncated_spec(),
    {
        self.truncated
    }

    /// How many packets were dropped for carrying an unregistered identifier.
    pub fn unknown_count(&self) -> (r: u64)
        ensures
            r == self.unknown_spec(),
    {
        self.unknown
    }
}

} // verus!
