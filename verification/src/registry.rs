//! Typed message registry and dispatch.
//!
//! Every message kind an application wants to receive is registered once,
//! under a name whose 64-bit hash becomes the kind's wire identifier.  Each
//! registered kind owns a bounded queue of inbound raw payloads.  Dispatch
//! looks an inbound packet's identifier up and enqueues the payload on the
//! matching kind's queue; the typed consumer later pulls one payload at a time
//! and decodes it.
//!
//! Two kinds may never share an identifier: a collision means two types hashed
//! to the same tag, and a second registration under an existing identifier is
//! refused, never applied over the first.

use vstd::prelude::*;

use crate::channel::BoundedChannel;
use crate::codec::cbor_from_slice;
use crate::ids::UserId;

verus! {

/// Seed under which message-kind names are hashed into wire identifiers.
pub const MESSAGE_ID_SEED: u64 = 0x9e3779b185ebca87;

/// What xxhash's 64-bit hash returns for a name's UTF-8 bytes under `seed`: a
/// function of the name and the seed alone.
pub uninterp spec fn name_hash_of(name: Seq<char>, seed: u64) -> u64;

/// Relies on xxhash_rust::const_xxh64::xxh64: the 64-bit hash of the name's
/// UTF-8 bytes, a function of the name and the seed alone.
#[verifier::external_body]
fn hash_name(name: &str, seed: u64) -> (r: u64)
    ensures
        r == name_hash_of(name@, seed),
{
    xxhash_rust::const_xxh64::xxh64(name.as_bytes(), seed)
}

/// The wire identifier that a kind registered under `name` gets.
pub open spec fn message_id_of(name: Seq<char>) -> u64 {
    name_hash_of(name, MESSAGE_ID_SEED)
}

/// Compute the wire identifier for a kind name.
pub fn message_id(name: &str) -> (r: u64)
    ensures
        r == message_id_of(name@),
{
    hash_name(name, MESSAGE_ID_SEED)
}

/// Why a registration was refused.
#[derive(Clone, Copy, PartialEq, Eq, Structural, Debug)]
pub enum RegistrationError {
    /// The kind's identifier is already taken; the earlier registration
    /// stays intact.
    DuplicateId,
}

/// Why an inbound payload was dropped.
#[derive(Clone, Copy, PartialEq, Eq, Structural, Debug)]
pub enum DispatchError {
    /// No kind is registered under the packet's identifier.
    UnknownMessage,
    /// The payload did not decode as the kind's type; it was discarded.
    Malformed,
}

/// An inbound payload, decoded and attributed to its sender.
#[derive(Clone, Debug)]
pub struct Message<T> {
    /// Who sent the payload.
    pub sender: UserId,
    /// The decoded payload.
    pub payload: T,
}

/// A not-yet-decoded inbound payload.
pub struct RawMessage {
    /// Who sent the payload.
    pub sender: UserId,
    /// The payload bytes, header already stripped.
    pub payload: Vec<u8>,
}

/// One registered message kind.
struct MessageKind {
    /// The kind's wire identifier: the hash of its name.
    id: u64,
    /// The kind's name, kept for diagnostics.
    name: String,
    /// Inbound payloads waiting for the kind's consumer.
    queue: BoundedChannel<RawMessage>,
}

/// Names a registered kind in later calls; returned by `insert`.
#[derive(Clone, Copy, Debug)]
pub struct KindHandle {
    index: usize,
    id: u64,
}

impl KindHandle {
    /// The position of the kind in the registry.
    pub closed spec fn index_spec(self) -> nat {
        self.index as nat
    }

    /// The kind's wire identifier.
    pub closed spec fn id_spec(self) -> u64 {
        self.id
    }

    /// The kind's wire identifier.
    pub fn id(&self) -> (r: u64)
        ensures
            r == self.id_spec(),
    {
        self.id
    }
}

/// How dispatching one payload under `id` moves a registry from `pre` to
/// `post`: the payload joins the back of its kind's queue unless that queue is
/// already at capacity, in which case it is dropped and counted; every other
/// kind's queue, every capacity and the set of identifiers stay as they were.
pub open spec fn dispatched(
    pre: MessageRegistry,
    post: MessageRegistry,
    id: u64,
    sender: UserId,
    payload: Seq<u8>,
) -> bool {
    let i = pre.kind_index(id);
    &&& post.ids() == pre.ids()
    &&& forall|j: int| 0 <= j < pre.num_kinds() && j != i ==> post.queue(j) == pre.queue(j)
    &&& forall|j: int| 0 <= j < pre.num_kinds() ==> post.queue_cap(j) == pre.queue_cap(j)
    &&& pre.queue(i).len() < pre.queue_cap(i) ==> post.queue(i) == pre.queue(i).push(
        (sender, payload),
    ) && post.dropped_spec() == pre.dropped_spec()
    &&& pre.queue(i).len() >= pre.queue_cap(i) ==> post.queue(i) == pre.queue(i)
        && post.dropped_spec() == count_drop(pre.dropped_spec())
}

/// One more dropped payload, the counter pinned at its maximum.
pub open spec fn count_drop(dropped: u64) -> u64 {
    if dropped < u64::MAX {
        (dropped + 1) as u64
    } else {
        dropped
    }
}

/// The observable state of a registry, containers taken at their views: the
/// identifiers in registration order, each kind's queued payloads and
/// capacity, and the drop counter.
#[verifier::ext_equal]
pub ghost struct RegistryModel {
    /// The registered wire identifiers, in registration order.
    pub ids: Seq<u64>,
    /// Each kind's queued payloads: sender and bytes, oldest first.
    pub queues: Seq<Seq<(UserId, Seq<u8>)>>,
    /// Each kind's queue capacity.
    pub caps: Seq<nat>,
    /// How many payloads were dropped on full queues.
    pub dropped: u64,
}

/// The position of `id` among `ids`.
pub open spec fn model_index(ids: Seq<u64>, id: u64) -> int {
    choose|i: int| 0 <= i < ids.len() && ids[i] == id
}

/// How dispatching one payload under `id` moves the registry model: appended
/// to its kind's queue when there is room, dropped and counted when not,
/// ignored entirely when the identifier is unregistered.
pub open spec fn step_dispatch(
    m: RegistryModel,
    id: u64,
    sender: UserId,
    payload: Seq<u8>,
) -> RegistryModel {
    if !m.ids.contains(id) {
        m
    } else {
        let i = model_index(m.ids, id);
        if m.queues[i].len() < m.caps[i] {
            RegistryModel { queues: m.queues.update(i, m.queues[i].push((sender, payload))), ..m }
        } else {
            RegistryModel { dropped: count_drop(m.dropped), ..m }
        }
    }
}

/// The table of registered message kinds and their inbound queues.
pub struct MessageRegistry {
    kinds: Vec<MessageKind>,
    dropped: u64,
}

impl MessageRegistry {
    /// The registered wire identifiers, in registration order.
    pub closed spec fn ids(self) -> Seq<u64> {
        self.kinds@.map(|i: int, k: MessageKind| k.id)
    }

    /// The queued raw payloads of the kind at position `i`: sender and bytes,
    /// oldest first.
    pub closed spec fn queue(self, i: int) -> Seq<(UserId, Seq<u8>)> {
        self.kinds@[i].queue.contents().map(|j: int, m: RawMessage| (m.sender, m.payload@))
    }

    /// The queue capacity of the kind at position `i`.
    pub closed spec fn queue_cap(self, i: int) -> nat {
        self.kinds@[i].queue.cap()
    }

    /// How many payloads were dropped because a kind's queue was full.
    pub closed spec fn dropped_spec(self) -> u64 {
        self.dropped
    }

    /// The observable state, containers taken at their views.
    pub closed spec fn rmodel(self) -> RegistryModel {
        RegistryModel {
            ids: self.kinds@.map(|i: int, k: MessageKind| k.id),
            queues: self.kinds@.map(
                |i: int, k: MessageKind|
                    k.queue.contents().map(|j: int, m: RawMessage| (m.sender, m.payload@)),
            ),
            caps: self.kinds@.map(|i: int, k: MessageKind| k.queue.cap()),
            dropped: self.dropped,
        }
    }

    /// How many kinds are registered.
    pub open spec fn num_kinds(self) -> nat {
        self.ids().len()
    }

    /// Whether some kind is registered under `id`.
    pub open spec fn contains_id(self, id: u64) -> bool {
        self.ids().contains(id)
    }

    /// The position of the kind registered under `id`.
    pub open spec fn kind_index(self, id: u64) -> int {
        choose|i: int| 0 <= i < self.ids().len() && self.ids()[i] == id
    }

    /// Whether `h` names the kind at its recorded position.
    pub open spec fn valid_handle(self, h: KindHandle) -> bool {
        h.index_spec() < self.ids().len() && self.ids()[h.index_spec() as int] == h.id_spec()
    }

    /// Identifiers are never shared, and no queue outgrows its capacity.
    pub closed spec fn wf(self) -> bool {
        &&& forall|i: int, j: int|
            0 <= i < j < self.kinds@.len() ==> self.kinds@[i].id != self.kinds@[j].id
        &&& forall|i: int| 0 <= i < self.kinds@.len() ==> (#[trigger] self.kinds@[i].queue).wf()
    }

    /// An empty registry.
    pub fn new() -> (r: MessageRegistry)
        ensures
            r.wf(),
            r.num_kinds() == 0,
            r.dropped_spec() == 0,
    {
        MessageRegistry { kinds: Vec::new(), dropped: 0 }
    }

    /// How many payloads were dropped on full queues so far.
    pub fn dropped_count(&self) -> (r: u64)
        ensures
            r == self.dropped_spec(),
    {
        self.dropped
    }

    /// Find the position of the kind registered under `id`.
    fn find_kind(&self, id: u64) -> (r: Option<usize>)
        requires
            self.wf(),
        ensures
            match r {
                Some(i) => self.contains_id(id) && i == self.kind_index(id) && i
                    < self.num_kinds() && self.ids()[i as int] == id,
                None => !self.contains_id(id),
            },
    {
        let n = self.kinds.len();
        let mut i: usize = 0;
        while i < n
            invariant
                n == self.kinds@.len(),
                i <= n,
                self.wf(),
                forall|j: int| 0 <= j < i ==> self.ids()[j] != id,
            decreases n - i,
        {
            if self.kinds[i].id == id {
                proof {
                    assert(self.ids()[i as int] == id);
                    let w = self.kind_index(id);
                    assert(0 <= w < self.ids().len() && self.ids()[w] == id);
                    assert(w == i as int);
                }
                return Some(i);
            }
            i = i + 1;
        }
        proof {
            assert forall|j: int| 0 <= j < self.ids().len() implies self.ids()[j] != id by {}
            assert(!self.ids().contains(id));
        }
        None
    }

    /// Register a message kind under `name`, with room for `capacity` queued
    /// payloads.
    ///
    /// Refused with `DuplicateId` when the name's identifier is already taken;
    /// the registry is then left exactly as it was.  Otherwise the kind is
    /// appended with an empty queue and a handle to it is returned.
    pub fn insert(&mut self, name: String, capacity: usize) -> (r: Result<
        KindHandle,
        RegistrationError,
    >)
        requires
            old(self).wf(),
        ensures
            final(self).wf(),
            old(self).contains_id(message_id_of(name@)) ==> r == Err::<
                KindHandle,
                RegistrationError,
            >(RegistrationError::DuplicateId) && *final(self) == *old(self),
            !old(self).contains_id(message_id_of(name@)) ==> {
                &&& r matches Ok(h)
                &&& h.index_spec() == old(self).num_kinds()
                &&& h.id_spec() == message_id_of(name@)
                &&& final(self).valid_handle(h)
                &&& final(self).ids() == old(self).ids().push(message_id_of(name@))
                &&& forall|i: int|
                    0 <= i < old(self).num_kinds() ==> final(self).queue(i) == old(self).queue(i)
                        && final(self).queue_cap(i) == old(self).queue_cap(i)
                &&& final(self).queue(old(self).num_kinds() as int) == Seq::<
                    (UserId, Seq<u8>),
                >::empty()
                &&& final(self).queue_cap(old(self).num_kinds() as int) == capacity
                &&& final(self).dropped_spec() == old(self).dropped_spec()
            },
    {
        let id = message_id(name.as_str());
        match self.find_kind(id) {
            Some(_) => Err(RegistrationError::DuplicateId),
            None => {
                let handle = KindHandle { index: self.kinds.len(), id };
                let kind = MessageKind { id, name, queue: BoundedChannel::new(capacity) };
                let ghost before = *self;
                self.kinds.push(kind);
                proof {
                    assert(self.ids() =~= before.ids().push(id));
                    assert(self.queue(before.kinds@.len() as int) =~= Seq::<
                        (UserId, Seq<u8>),
                    >::empty());
                    assert forall|i: int, j: int|
                        0 <= i < j < self.kinds@.len() implies self.kinds@[i].id
                        != self.kinds@[j].id by {
                        if j == self.kinds@.len() - 1 {
                            assert(self.kinds@[i].id == before.ids()[i]);
                            if before.ids()[i] == id {
                                assert(before.ids().contains(id));
                            }
                        }
                    }
                }
                Ok(handle)
            },
        }
    }

    /// Dispatch an inbound payload to the kind registered under `msg_id`.
    ///
    /// Fails with `UnknownMessage`, touching nothing, when no kind carries
    /// that identifier.  Otherwise the payload joins the back of the kind's
    /// queue; when the queue is full the payload is dropped and counted
    /// instead, and every other queue is left alone either way.
    pub fn send(&mut self, msg_id: u64, payload: &[u8], sender: UserId) -> (r: Result<
        (),
        DispatchError,
    >)
        requires
            old(self).wf(),
        ensures
            final(self).wf(),
            final(self).ids() == old(self).ids(),
            !old(self).contains_id(msg_id) ==> r == Err::<(), DispatchError>(
                DispatchError::UnknownMessage,
            ) && *final(self) == *old(self),
            old(self).contains_id(msg_id) ==> r == Ok::<(), DispatchError>(()) && dispatched(
                *old(self),
                *final(self),
                msg_id,
                sender,
                payload@,
            ),
            final(self).rmodel() == step_dispatch(old(self).rmodel(), msg_id, sender, payload@),
    {
        match self.find_kind(msg_id) {
            None => Err(DispatchError::UnknownMessage),
            Some(i) => {
                let ghost before = *self;
                let raw = RawMessage { sender, payload: vstd::slice::slice_to_vec(payload) };
                let accepted = self.kinds[i].queue.send(raw);
                proof {
                    assert(self.ids() =~= before.ids());
                    assert forall|j: int|
                        0 <= j < before.num_kinds() && j != i as int implies self.queue(j)
                        == before.queue(j) by {}
                    if accepted {
                        assert(self.queue(i as int) =~= before.queue(i as int).push(
                            (sender, payload@),
                        ));
                    } else {
                        assert(self.queue(i as int) =~= before.queue(i as int));
                    }
                }
                if !accepted {
                    if self.dropped < u64::MAX {
                        self.dropped = self.dropped + 1;
                    }
                }
                proof {
                    let m = before.rmodel();
                    let w = model_index(m.ids, msg_id);
                    assert(0 <= w < m.ids.len() && m.ids[w] == msg_id);
                    assert(w == i as int);
                    assert(m.queues[i as int] == before.queue(i as int));
                    assert(m.caps[i as int] == before.queue_cap(i as int));
                    assert(self.rmodel().queues =~~= step_dispatch(
                        m,
                        msg_id,
                        sender,
                        payload@,
                    ).queues);
                    assert(self.rmodel().ids =~= step_dispatch(m, msg_id, sender, payload@).ids);
                    assert(self.rmodel().caps =~= step_dispatch(m, msg_id, sender, payload@).caps);
                    assert(self.rmodel() =~~= step_dispatch(m, msg_id, sender, payload@));
                }
                Ok(())
            },
        }
    }

    /// Pull and decode the oldest payload queued for the kind `handle` names.
    ///
    /// Returns `Ok(None)` when nothing is queued.  A payload that does not
    /// decode as `T` is discarded and reported as `Malformed`; either way the
    /// payload leaves the queue permanently.
    pub fn recv_message<T: serde::de::DeserializeOwned>(&mut self, handle: &KindHandle) -> (r:
        Result<Option<Message<T>>, DispatchError>)
        requires
            old(self).wf(),
            old(self).valid_handle(*handle),
        ensures
            final(self).wf(),
            final(self).ids() == old(self).ids(),
            final(self).dropped_spec() == old(self).dropped_spec(),
            forall|j: int|
                0 <= j < old(self).num_kinds() && j != handle.index_spec() as int
                    ==> final(self).queue(j) == old(self).queue(j),
            forall|j: int|
                0 <= j < old(self).num_kinds()
                    ==> final(self).queue_cap(j) == old(self).queue_cap(j),
            old(self).queue(handle.index_spec() as int).len() == 0 ==> r == Ok::<
                Option<Message<T>>,
                DispatchError,
            >(None) && final(self).queue(handle.index_spec() as int) == old(self).queue(
                handle.index_spec() as int,
            ),
            old(self).queue(handle.index_spec() as int).len() > 0 ==> {
                &&& final(self).queue(handle.index_spec() as int) == old(self).queue(
                    handle.index_spec() as int,
                ).drop_first()
                &&& r matches Ok(m) ==> m matches Some(msg) && msg.sender == old(self).queue(
                    handle.index_spec() as int,
                )[0].0
                &&& r is Err ==> r == Err::<Option<Message<T>>, DispatchError>(
                    DispatchError::Malformed,
                )
            },
    {
        let i = handle.index;
        let ghost before = *self;
        let popped = self.kinds[i].queue.recv();
        proof {
            assert(self.ids() =~= before.ids());
            assert forall|j: int|
                0 <= j < before.num_kinds() && j != i as int implies self.queue(j)
                == before.queue(j) by {}
            if before.queue(i as int).len() > 0 {
                assert(self.queue(i as int) =~= before.queue(i as int).drop_first());
            } else {
                assert(self.queue(i as int) =~= before.queue(i as int));
            }
        }
        match popped {
            None => Ok(None),
            Some(raw) => {
                match cbor_from_slice::<T>(raw.payload.as_slice()) {
                    Ok(payload) => Ok(Some(Message { sender: raw.sender, payload })),
                    Err(()) => Err(DispatchError::Malformed),
                }
            },
        }
    }
}

} // verus!
