//! The session core: the state machine over {Idle, Creating, Joining,
//! InSession}, the bounded channels that carry raw provider notifications to
//! it, and the domain events and provider commands it emits.
//!
//! The core serializes create/join/leave attempts: at most one attempt is
//! outstanding, and a second request while one is pending is rejected without
//! touching the state or the provider.  Raw notifications accumulate in the
//! channels until `tick` drains them, once per frame, in a fixed order; the
//! consumer then reads the domain events and carries out the emitted commands.

use vstd::prelude::*;

use crate::channel::BoundedChannel;
use crate::ids::{base62_of, encode_lobby_id_raw, LobbyId, UserId};
use crate::lobby::{
    lobby_cleared, CurrentLobby, IsLobbyHost, LobbyConnectError, LobbyState, LobbyVisibility,
    OnLobbyChange, OnLobbyExit, OnLobbyJoin, OnLobbyMessage, SessionPhase,
};
use crate::provider::{
    chat_kind_from_code, is_forced_removal, lobby_error_from_enter_code,
    lobby_error_from_result_code, roster_change_to_event, spec_chat_kind_from_code,
    spec_error_from_enter_code, spec_error_from_result_code, spec_is_forced_removal,
    spec_roster_change, ProviderCommand, RawChatMessage, RawConnError, RawCreated, RawEntered,
    RawJoinRequest, RawRosterChange,
};

verus! {

/// Copy a member list.
pub(crate) fn copy_users(v: &Vec<UserId>) -> (r: Vec<UserId>)
    ensures
        r@ == v@,
{
    let mut out: Vec<UserId> = Vec::new();
    let n = v.len();
    let mut i: usize = 0;
    while i < n
        invariant
            i <= n,
            n == v@.len(),
            out@ == v@.subrange(0, i as int),
        decreases n - i,
    {
        out.push(v[i]);
        proof {
            assert(out@ =~= v@.subrange(0, i as int + 1));
        }
        i = i + 1;
    }
    proof {
        assert(out@ =~= v@);
    }
    out
}

/// Keeps every user but `who`.
pub open spec fn not_user(who: UserId) -> spec_fn(UserId) -> bool {
    |u: UserId| u != who
}

/// A member list with every occurrence of `who` taken out, order kept.
pub(crate) fn roster_without(who: UserId, members: &Vec<UserId>) -> (r: Vec<UserId>)
    ensures
        r@ == members@.filter(not_user(who)),
        !r@.contains(who),
{
    broadcast use vstd::seq_lib::group_filter_ensures;

    let mut out: Vec<UserId> = Vec::new();
    let n = members.len();
    let mut i: usize = 0;
    while i < n
        invariant
            i <= n,
            n == members@.len(),
            out@ == members@.subrange(0, i as int).filter(not_user(who)),
        decreases n - i,
    {
        let ghost prefix = members@.subrange(0, i as int);
        let ghost one = members@.subrange(i as int, i as int + 1);
        proof {
            assert(members@.subrange(0, i as int + 1) =~= prefix + one);
            Seq::<UserId>::filter_distributes_over_add(prefix, one, not_user(who));
            reveal_with_fuel(Seq::<UserId>::filter, 2);
            assert(one.drop_last() =~= Seq::<UserId>::empty());
            assert(one.last() == members@[i as int]);
            if members@[i as int] != who {
                assert(one.filter(not_user(who)) =~= seq![members@[i as int]]);
            } else {
                assert(one.filter(not_user(who)) =~= Seq::<UserId>::empty());
            }
        }
        if members[i].0 != who.0 {
            out.push(members[i]);
            proof {
                assert(out@ =~= prefix.filter(not_user(who)) + one.filter(not_user(who)));
            }
        } else {
            proof {
                assert(out@ =~= prefix.filter(not_user(who)) + one.filter(not_user(who)));
            }
        }
        i = i + 1;
    }
    proof {
        assert(members@.subrange(0, n as int) =~= members@);
        if out@.contains(who) {
            let k = choose|k: int| 0 <= k < out@.len() && out@[k] == who;
            assert(not_user(who)(out@[k]));
        }
    }
    out
}

/// The coarse lifecycle the application observes for a fine-grained phase:
/// both kinds of outstanding attempt look like joining from the outside.
pub open spec fn lobby_state_of(phase: SessionPhase) -> LobbyState {
    match phase {
        SessionPhase::Idle => LobbyState::Idle,
        SessionPhase::Creating => LobbyState::Joining,
        SessionPhase::Joining => LobbyState::Joining,
        SessionPhase::InSession => LobbyState::InLobby,
    }
}

/// The observable state of the session core, with every container taken at
/// its mathematical view: the phase, the session metadata, the pending
/// commands and the unread domain events.  The raw-event channels are not part
/// of it; they are inputs still to be applied.
#[verifier::ext_equal]
pub ghost struct SessionModel {
    /// The lifecycle phase.
    pub phase: SessionPhase,
    /// The current lobby's identifier.
    pub id: LobbyId,
    /// The current lobby's join policy.
    pub vis: LobbyVisibility,
    /// Whether this user hosts the current lobby.
    pub is_host: bool,
    /// The current lobby's member cap.
    pub max_members: u32,
    /// The current lobby's invite code.
    pub invite: Seq<char>,
    /// The current lobby's other members.
    pub others: Seq<UserId>,
    /// The commands not yet handed to the provider glue.
    pub commands: Seq<ProviderCommand>,
    /// The unread lobby-entered events.
    pub out_join: Seq<OnLobbyJoin>,
    /// The unread lobby-exited events.
    pub out_exit: Seq<OnLobbyExit>,
    /// The unread chat-message events.
    pub out_message: Seq<OnLobbyMessage>,
    /// The unread roster-change events.
    pub out_change: Seq<OnLobbyChange>,
    /// The unread failed-attempt events.
    pub out_error: Seq<LobbyConnectError>,
}

/// A model carrying no session metadata.
pub open spec fn model_cleared(m: SessionModel) -> bool {
    &&& m.id == LobbyId(0)
    &&& m.vis == LobbyVisibility::Anyone
    &&& !m.is_host
    &&& m.max_members == 4
    &&& m.invite == Seq::<char>::empty()
    &&& m.others == Seq::<UserId>::empty()
}

/// `m` with the metadata of no lobby at all.
pub open spec fn clear_lobby(m: SessionModel) -> SessionModel {
    SessionModel {
        id: LobbyId(0),
        vis: LobbyVisibility::Anyone,
        is_host: false,
        max_members: 4,
        invite: Seq::<char>::empty(),
        others: Seq::<UserId>::empty(),
        ..m
    }
}

/// How one create answer moves the model.
///
/// Success while a create is outstanding enters the session, keeping the
/// requested policy, setting the identifier and invite code and emitting a
/// lobby-entered event; any other success is stale and ignored.  Failure
/// emits a failed-attempt event and, when a create was outstanding, clears
/// the metadata and returns to `Idle`.
pub open spec fn step_created(m: SessionModel, ev: RawCreated) -> SessionModel {
    match spec_error_from_result_code(ev.result_code) {
        Option::None => {
            if m.phase == SessionPhase::Creating {
                SessionModel {
                    phase: SessionPhase::InSession,
                    id: ev.lobby,
                    is_host: true,
                    invite: base62_of(ev.lobby.0 as u128),
                    others: Seq::<UserId>::empty(),
                    out_join: m.out_join.push(OnLobbyJoin { id: ev.lobby }),
                    ..m
                }
            } else {
                m
            }
        },
        Option::Some(kind) => {
            let reported = SessionModel {
                out_error: m.out_error.push(LobbyConnectError { id: ev.lobby, kind }),
                ..m
            };
            if m.phase == SessionPhase::Creating {
                clear_lobby(SessionModel { phase: SessionPhase::Idle, ..reported })
            } else {
                reported
            }
        },
    }
}

/// How one join answer moves the model for the user `self_id`.
///
/// Success while an attempt is outstanding enters the session: the metadata
/// comes from the answer, this user stays host exactly when the attempt was a
/// create, the member list excludes this user, and a lobby-entered event is
/// emitted.  Success for the lobby the user is already in refreshes the
/// member cap and member list; any other success is stale and ignored.
/// Failure emits a failed-attempt event and, when an attempt was outstanding,
/// clears the metadata and returns to `Idle`.
pub open spec fn step_entered(self_id: UserId, m: SessionModel, ev: RawEntered) -> SessionModel {
    match spec_error_from_enter_code(ev.response_code) {
        Option::None => {
            if m.phase == SessionPhase::Creating || m.phase == SessionPhase::Joining {
                SessionModel {
                    phase: SessionPhase::InSession,
                    id: ev.lobby,
                    max_members: ev.max_members,
                    invite: base62_of(ev.lobby.0 as u128),
                    others: ev.members@.filter(not_user(self_id)),
                    out_join: m.out_join.push(OnLobbyJoin { id: ev.lobby }),
                    ..m
                }
            } else if m.phase == SessionPhase::InSession && ev.lobby == m.id {
                SessionModel {
                    max_members: ev.max_members,
                    others: ev.members@.filter(not_user(self_id)),
                    ..m
                }
            } else {
                m
            }
        },
        Option::Some(kind) => {
            let reported = SessionModel {
                out_error: m.out_error.push(LobbyConnectError { id: ev.lobby, kind }),
                ..m
            };
            if m.phase == SessionPhase::Creating || m.phase == SessionPhase::Joining {
                clear_lobby(SessionModel { phase: SessionPhase::Idle, ..reported })
            } else {
                reported
            }
        },
    }
}

/// How one connection error moves the model: an error code emits a
/// failed-attempt event; a success code is ignored.
pub open spec fn step_conn_error(m: SessionModel, ev: RawConnError) -> SessionModel {
    match spec_error_from_result_code(ev.result_code) {
        Option::None => m,
        Option::Some(kind) => SessionModel {
            out_error: m.out_error.push(LobbyConnectError { id: ev.lobby, kind }),
            ..m
        },
    }
}

/// How one UI join request moves the model.
///
/// Ignored while an attempt is outstanding.  While in a session the current
/// lobby is left first: a `LeaveLobby` command and a lobby-exited event are
/// emitted.  The request then becomes a fresh join: `Joining`, with a
/// `JoinLobby` command.
pub open spec fn step_join_request(m: SessionModel, ev: RawJoinRequest) -> SessionModel {
    if m.phase == SessionPhase::Creating || m.phase == SessionPhase::Joining {
        m
    } else {
        let left = if m.phase == SessionPhase::InSession {
            SessionModel {
                commands: m.commands.push(ProviderCommand::LeaveLobby { id: m.id }),
                out_exit: m.out_exit.push(OnLobbyExit { id: m.id }),
                ..m
            }
        } else {
            m
        };
        SessionModel {
            phase: SessionPhase::Joining,
            id: ev.lobby,
            vis: LobbyVisibility::Anyone,
            is_host: false,
            max_members: 4,
            invite: Seq::<char>::empty(),
            others: Seq::<UserId>::empty(),
            commands: left.commands.push(ProviderCommand::JoinLobby { id: ev.lobby }),
            ..left
        }
    }
}

/// How one roster notification moves the model for the user `self_id`.
///
/// A recognized change is emitted as a roster-change event; when it reports
/// this user forcibly removed while in a session, the metadata is cleared, the
/// phase returns to `Idle` and a lobby-exited event is emitted.  An
/// unrecognized code is dropped.
pub open spec fn step_roster(self_id: UserId, m: SessionModel, ev: RawRosterChange) -> SessionModel {
    match spec_roster_change(ev) {
        Option::None => m,
        Option::Some(change) => {
            let noted = SessionModel { out_change: m.out_change.push(change), ..m };
            if m.phase == SessionPhase::InSession && ev.target == self_id
                && spec_is_forced_removal(ev.change_code) {
                clear_lobby(
                    SessionModel {
                        phase: SessionPhase::Idle,
                        out_exit: noted.out_exit.push(OnLobbyExit { id: m.id }),
                        ..noted
                    },
                )
            } else {
                noted
            }
        },
    }
}

/// How one chat entry moves the model: a chat-message event is emitted with
/// the entry's purpose translated.
pub open spec fn step_message(m: SessionModel, ev: RawChatMessage) -> SessionModel {
    SessionModel {
        out_message: m.out_message.push(
            OnLobbyMessage {
                content: ev.content,
                user: ev.user,
                kind: spec_chat_kind_from_code(ev.kind_code),
            },
        ),
        ..m
    }
}

/// Every create answer in `evs`, applied oldest first.
pub open spec fn steps_created(m: SessionModel, evs: Seq<RawCreated>) -> SessionModel
    decreases evs.len(),
{
    if evs.len() == 0 {
        m
    } else {
        steps_created(step_created(m, evs[0]), evs.drop_first())
    }
}

/// Every join answer in `evs`, applied oldest first.
pub open spec fn steps_entered(self_id: UserId, m: SessionModel, evs: Seq<RawEntered>) -> SessionModel
    decreases evs.len(),
{
    if evs.len() == 0 {
        m
    } else {
        steps_entered(self_id, step_entered(self_id, m, evs[0]), evs.drop_first())
    }
}

/// Every connection error in `evs`, applied oldest first.
pub open spec fn steps_conn_error(m: SessionModel, evs: Seq<RawConnError>) -> SessionModel
    decreases evs.len(),
{
    if evs.len() == 0 {
        m
    } else {
        steps_conn_error(step_conn_error(m, evs[0]), evs.drop_first())
    }
}

/// Every UI join request in `evs`, applied oldest first.
pub open spec fn steps_join_request(m: SessionModel, evs: Seq<RawJoinRequest>) -> SessionModel
    decreases evs.len(),
{
    if evs.len() == 0 {
        m
    } else {
        steps_join_request(step_join_request(m, evs[0]), evs.drop_first())
    }
}

/// Every roster notification in `evs`, applied oldest first.
pub open spec fn steps_roster(self_id: UserId, m: SessionModel, evs: Seq<RawRosterChange>) -> SessionModel
    decreases evs.len(),
{
    if evs.len() == 0 {
        m
    } else {
        steps_roster(self_id, step_roster(self_id, m, evs[0]), evs.drop_first())
    }
}

/// Every chat entry in `evs`, applied oldest first.
pub open spec fn steps_message(m: SessionModel, evs: Seq<RawChatMessage>) -> SessionModel
    decreases evs.len(),
{
    if evs.len() == 0 {
        m
    } else {
        steps_message(step_message(m, evs[0]), evs.drop_first())
    }
}

/// The model after the roster ground truth `fresh` is adopted: while in a
/// session the member list becomes `fresh` without the user `self_id`;
/// outside a session nothing changes.
pub open spec fn roster_refreshed(
    self_id: UserId,
    m: SessionModel,
    fresh: Seq<UserId>,
) -> SessionModel {
    if m.phase == SessionPhase::InSession {
        SessionModel { others: fresh.filter(not_user(self_id)), ..m }
    } else {
        m
    }
}

/// The model a whole tick leaves behind: the six channels' notifications
/// applied in the documented order — create answers, join answers, connection
/// errors, UI join requests, roster notifications, chat entries — and then
/// the roster ground truth adopted.
pub open spec fn ticked(
    self_id: UserId,
    m: SessionModel,
    created: Seq<RawCreated>,
    entered: Seq<RawEntered>,
    conn_errors: Seq<RawConnError>,
    join_requests: Seq<RawJoinRequest>,
    rosters: Seq<RawRosterChange>,
    messages: Seq<RawChatMessage>,
    fresh: Seq<UserId>,
) -> SessionModel {
    roster_refreshed(
        self_id,
        steps_message(
            steps_roster(
                self_id,
                steps_join_request(
                    steps_conn_error(
                        steps_entered(self_id, steps_created(m, created), entered),
                        conn_errors,
                    ),
                    join_requests,
                ),
                rosters,
            ),
            messages,
        ),
        fresh,
    )
}

/// Outcome of a successful attempt: when a join answer reports success while
/// a join is outstanding, the model enters the session on the answered lobby
/// and the user is not the host; when a create is outstanding, the same
/// transition marks the user as host.  The hypotheses on `is_host` are the
/// core's own invariant on outstanding attempts.
pub proof fn lemma_join_outcome(self_id: UserId, m: SessionModel, ev: RawEntered)
    requires
        spec_error_from_enter_code(ev.response_code) is None,
        m.phase == SessionPhase::Joining ==> !m.is_host,
        m.phase == SessionPhase::Creating ==> m.is_host,
    ensures
        m.phase == SessionPhase::Joining ==> {
            &&& step_entered(self_id, m, ev).phase == SessionPhase::InSession
            &&& step_entered(self_id, m, ev).id == ev.lobby
            &&& !step_entered(self_id, m, ev).is_host
        },
        m.phase == SessionPhase::Creating ==> {
            &&& step_entered(self_id, m, ev).phase == SessionPhase::InSession
            &&& step_entered(self_id, m, ev).id == ev.lobby
            &&& step_entered(self_id, m, ev).is_host
        },
{
}

/// The session state machine, its inbound raw-event channels and its outbound
/// domain events and provider commands.
pub struct SessionCore {
    /// This user's own identifier; never appears in the member list.
    self_id: UserId,
    /// The lifecycle phase.
    phase: SessionPhase,
    /// Session metadata; carries no information while `phase` is `Idle`.
    current: CurrentLobby,
    /// Answers to create requests.
    ev_created: BoundedChannel<RawCreated>,
    /// Answers to join attempts.
    ev_entered: BoundedChannel<RawEntered>,
    /// Connection-level errors.
    ev_conn_error: BoundedChannel<RawConnError>,
    /// Join requests made through the provider's own UI.
    ev_join_request: BoundedChannel<RawJoinRequest>,
    /// Member-list change notifications.
    ev_roster: BoundedChannel<RawRosterChange>,
    /// Chat entries.
    ev_message: BoundedChannel<RawChatMessage>,
    /// Calls the provider glue still has to make, oldest first.
    commands: Vec<ProviderCommand>,
    /// Lobby-entered events not yet read.
    out_join: Vec<OnLobbyJoin>,
    /// Lobby-exited events not yet read.
    out_exit: Vec<OnLobbyExit>,
    /// Chat-message events not yet read.
    out_message: Vec<OnLobbyMessage>,
    /// Roster-change events not yet read.
    out_change: Vec<OnLobbyChange>,
    /// Failed-attempt events not yet read.
    out_error: Vec<LobbyConnectError>,
}

impl SessionCore {
    /// This user's own identifier.
    pub closed spec fn self_id_spec(self) -> UserId {
        self.self_id
    }

    /// The lifecycle phase.
    pub closed spec fn phase_spec(self) -> SessionPhase {
        self.phase
    }

    /// The session metadata.
    pub closed spec fn current_spec(self) -> CurrentLobby {
        self.current
    }

    /// The observable state, containers taken at their views.
    pub closed spec fn model(self) -> SessionModel {
        SessionModel {
            phase: self.phase,
            id: self.current.id,
            vis: self.current.vis,
            is_host: self.current.is_host,
            max_members: self.current.max_members,
            invite: self.current.invite_code@,
            others: self.current.others@,
            commands: self.commands@,
            out_join: self.out_join@,
            out_exit: self.out_exit@,
            out_message: self.out_message@,
            out_change: self.out_change@,
            out_error: self.out_error@,
        }
    }

    /// The commands not yet handed to the provider glue.
    pub closed spec fn commands_spec(self) -> Seq<ProviderCommand> {
        self.commands@
    }

    /// The unread lobby-entered events.
    pub closed spec fn out_join_spec(self) -> Seq<OnLobbyJoin> {
        self.out_join@
    }

    /// The unread lobby-exited events.
    pub closed spec fn out_exit_spec(self) -> Seq<OnLobbyExit> {
        self.out_exit@
    }

    /// The unread chat-message events.
    pub closed spec fn out_message_spec(self) -> Seq<OnLobbyMessage> {
        self.out_message@
    }

    /// The unread roster-change events.
    pub closed spec fn out_change_spec(self) -> Seq<OnLobbyChange> {
        self.out_change@
    }

    /// The unread failed-attempt events.
    pub closed spec fn out_error_spec(self) -> Seq<LobbyConnectError> {
        self.out_error@
    }

    /// The buffered create answers.
    pub closed spec fn created_pending(self) -> Seq<RawCreated> {
        self.ev_created.contents()
    }

    /// The buffered join answers.
    pub closed spec fn entered_pending(self) -> Seq<RawEntered> {
        self.ev_entered.contents()
    }

    /// The buffered connection errors.
    pub closed spec fn conn_error_pending(self) -> Seq<RawConnError> {
        self.ev_conn_error.contents()
    }

    /// The buffered UI join requests.
    pub closed spec fn join_request_pending(self) -> Seq<RawJoinRequest> {
        self.ev_join_request.contents()
    }

    /// The buffered roster notifications.
    pub closed spec fn roster_pending(self) -> Seq<RawRosterChange> {
        self.ev_roster.contents()
    }

    /// The buffered chat entries.
    pub closed spec fn message_pending(self) -> Seq<RawChatMessage> {
        self.ev_message.contents()
    }

    /// The shared capacity of the six raw-event channels.
    pub closed spec fn events_cap(self) -> nat {
        self.ev_created.cap()
    }

    /// The channels respect their bounds and the metadata matches the phase:
    /// an idle core carries no session metadata, an outstanding create is
    /// marked as hosting, an outstanding join is not, and the member list of a
    /// joined session never lists this user.
    pub closed spec fn wf(self) -> bool {
        &&& self.ev_created.wf()
        &&& self.ev_entered.wf()
        &&& self.ev_conn_error.wf()
        &&& self.ev_join_request.wf()
        &&& self.ev_roster.wf()
        &&& self.ev_message.wf()
        &&& self.ev_entered.cap() == self.ev_created.cap()
        &&& self.ev_conn_error.cap() == self.ev_created.cap()
        &&& self.ev_join_request.cap() == self.ev_created.cap()
        &&& self.ev_roster.cap() == self.ev_created.cap()
        &&& self.ev_message.cap() == self.ev_created.cap()
        &&& self.phase == SessionPhase::Idle ==> lobby_cleared(self.current)
        &&& self.phase == SessionPhase::Creating ==> self.current.is_host
        &&& self.phase == SessionPhase::Joining ==> !self.current.is_host
        &&& self.phase == SessionPhase::InSession ==> !self.current.others@.contains(self.self_id)
    }

    /// Every buffered raw notification, unread event and pending command, as
    /// one tuple; used to say that an operation leaves all queues alone.
    pub open spec fn queues(self) -> (
        Seq<RawCreated>,
        Seq<RawEntered>,
        Seq<RawConnError>,
        Seq<RawJoinRequest>,
        Seq<RawRosterChange>,
        Seq<RawChatMessage>,
    ) {
        (
            self.created_pending(),
            self.entered_pending(),
            self.conn_error_pending(),
            self.join_request_pending(),
            self.roster_pending(),
            self.message_pending(),
        )
    }

    /// The unread domain events, as one tuple.
    pub open spec fn outputs(self) -> (
        Seq<OnLobbyJoin>,
        Seq<OnLobbyExit>,
        Seq<OnLobbyMessage>,
        Seq<OnLobbyChange>,
        Seq<LobbyConnectError>,
    ) {
        (
            self.out_join_spec(),
            self.out_exit_spec(),
            self.out_message_spec(),
            self.out_change_spec(),
            self.out_error_spec(),
        )
    }

    /// An idle core for the user `self_id`, whose six raw-event channels each
    /// hold at most `capacity` notifications.
    pub fn new(self_id: UserId, capacity: usize) -> (r: SessionCore)
        ensures
            r.wf(),
            r.self_id_spec() == self_id,
            r.phase_spec() == SessionPhase::Idle,
            lobby_cleared(r.current_spec()),
            r.events_cap() == capacity,
            r.created_pending().len() == 0,
            r.entered_pending().len() == 0,
            r.conn_error_pending().len() == 0,
            r.join_request_pending().len() == 0,
            r.roster_pending().len() == 0,
            r.message_pending().len() == 0,
            r.commands_spec().len() == 0,
            r.out_join_spec().len() == 0,
            r.out_exit_spec().len() == 0,
            r.out_message_spec().len() == 0,
            r.out_change_spec().len() == 0,
            r.out_error_spec().len() == 0,
    {
        SessionCore {
            self_id,
            phase: SessionPhase::Idle,
            current: CurrentLobby::default(),
            ev_created: BoundedChannel::new(capacity),
            ev_entered: BoundedChannel::new(capacity),
            ev_conn_error: BoundedChannel::new(capacity),
            ev_join_request: BoundedChannel::new(capacity),
            ev_roster: BoundedChannel::new(capacity),
            ev_message: BoundedChannel::new(capacity),
            commands: Vec::new(),
            out_join: Vec::new(),
            out_exit: Vec::new(),
            out_message: Vec::new(),
            out_change: Vec::new(),
            out_error: Vec::new(),
        }
    }

    /// Ask to create a lobby.
    ///
    /// Rejected, leaving the core exactly as it was and contacting nobody,
    /// unless the core is idle.  Otherwise the core moves to `Creating`,
    /// records the requested policy with this user marked as host, and emits
    /// one `CreateLobby` command.
    pub fn request_create(&mut self, vis: LobbyVisibility, max_members: u32) -> (r: bool)
        requires
            old(self).wf(),
        ensures
            final(self).wf(),
            r == (old(self).phase_spec() == SessionPhase::Idle),
            !r ==> *final(self) == *old(self),
            r ==> {
                &&& final(self).phase_spec() == SessionPhase::Creating
                &&& final(self).current_spec().is_host
                &&& final(self).current_spec().vis == vis
                &&& final(self).current_spec().max_members == max_members
                &&& final(self).commands_spec() == old(self).commands_spec().push(
                    ProviderCommand::CreateLobby { vis, max_members },
                )
                &&& final(self).outputs() == old(self).outputs()
                &&& final(self).queues() == old(self).queues()
                &&& final(self).self_id_spec() == old(self).self_id_spec()
                &&& final(self).events_cap() == old(self).events_cap()
            },
    {
        match self.phase {
            SessionPhase::Idle => {
                self.current = CurrentLobby {
                    id: LobbyId(0),
                    vis,
                    is_host: true,
                    max_members,
                    invite_code: String::new(),
                    others: Vec::new(),
                };
                self.phase = SessionPhase::Creating;
                self.commands.push(ProviderCommand::CreateLobby { vis, max_members });
                true
            },
            _ => false,
        }
    }

    /// Ask to join the lobby `id`.
    ///
    /// Rejected, leaving the core exactly as it was and contacting nobody,
    /// unless the core is idle.  Otherwise the core moves to `Joining`,
    /// records the target with this user not marked as host, and emits one
    /// `JoinLobby` command.
    pub fn request_join(&mut self, id: LobbyId) -> (r: bool)
        requires
            old(self).wf(),
        ensures
            final(self).wf(),
            r == (old(self).phase_spec() == SessionPhase::Idle),
            !r ==> *final(self) == *old(self),
            r ==> {
                &&& final(self).phase_spec() == SessionPhase::Joining
                &&& final(self).current_spec().id == id
                &&& !final(self).current_spec().is_host
                &&& final(self).commands_spec() == old(self).commands_spec().push(
                    ProviderCommand::JoinLobby { id },
                )
                &&& final(self).outputs() == old(self).outputs()
                &&& final(self).queues() == old(self).queues()
                &&& final(self).self_id_spec() == old(self).self_id_spec()
                &&& final(self).events_cap() == old(self).events_cap()
            },
    {
        match self.phase {
            SessionPhase::Idle => {
                self.current = CurrentLobby {
                    id,
                    vis: LobbyVisibility::Anyone,
                    is_host: false,
                    max_members: 4,
                    invite_code: String::new(),
                    others: Vec::new(),
                };
                self.phase = SessionPhase::Joining;
                self.commands.push(ProviderCommand::JoinLobby { id });
                true
            },
            _ => false,
        }
    }

    /// Ask to leave the current lobby.
    ///
    /// Rejected, leaving the core exactly as it was, unless the user is in a
    /// session.  Otherwise the core returns to `Idle` with no session metadata
    /// left, emits one `LeaveLobby` command and one lobby-exited event.
    pub fn request_exit(&mut self) -> (r: bool)
        requires
            old(self).wf(),
        ensures
            final(self).wf(),
            r == (old(self).phase_spec() == SessionPhase::InSession),
            !r ==> *final(self) == *old(self),
            r ==> {
                &&& final(self).phase_spec() == SessionPhase::Idle
                &&& lobby_cleared(final(self).current_spec())
                &&& final(self).commands_spec() == old(self).commands_spec().push(
                    ProviderCommand::LeaveLobby { id: old(self).current_spec().id },
                )
                &&& final(self).out_exit_spec() == old(self).out_exit_spec().push(
                    OnLobbyExit { id: old(self).current_spec().id },
                )
                &&& final(self).out_join_spec() == old(self).out_join_spec()
                &&& final(self).out_message_spec() == old(self).out_message_spec()
                &&& final(self).out_change_spec() == old(self).out_change_spec()
                &&& final(self).out_error_spec() == old(self).out_error_spec()
                &&& final(self).queues() == old(self).queues()
                &&& final(self).self_id_spec() == old(self).self_id_spec()
                &&& final(self).events_cap() == old(self).events_cap()
            },
    {
        match self.phase {
            SessionPhase::InSession => {
                let id = self.current.id;
                self.commands.push(ProviderCommand::LeaveLobby { id });
                self.out_exit.push(OnLobbyExit { id });
                self.current = CurrentLobby::default();
                self.phase = SessionPhase::Idle;
                true
            },
            _ => false,
        }
    }

    /// Ask to send a chat message to the current lobby.
    ///
    /// Rejected unless the user is in a session; otherwise one `SendChat`
    /// command is emitted.
    pub fn send_lobby_message(&mut self, msg: String) -> (r: bool)
        requires
            old(self).wf(),
        ensures
            final(self).wf(),
            r == (old(self).phase_spec() == SessionPhase::InSession),
            !r ==> *final(self) == *old(self),
            r ==> {
                &&& final(self).commands_spec() == old(self).commands_spec().push(
                    ProviderCommand::SendChat { id: old(self).current_spec().id, text: msg },
                )
                &&& final(self).phase_spec() == old(self).phase_spec()
                &&& final(self).current_spec() == old(self).current_spec()
                &&& final(self).outputs() == old(self).outputs()
                &&& final(self).queues() == old(self).queues()
                &&& final(self).self_id_spec() == old(self).self_id_spec()
                &&& final(self).events_cap() == old(self).events_cap()
            },
    {
        match self.phase {
            SessionPhase::InSession => {
                let id = self.current.id;
                self.commands.push(ProviderCommand::SendChat { id, text: msg });
                true
            },
            _ => false,
        }
    }

    /// This user's own identifier.
    pub fn user_id(&self) -> (r: UserId)
        ensures
            r == self.self_id_spec(),
    {
        self.self_id
    }

    /// The fine-grained lifecycle phase.
    pub fn session_phase(&self) -> (r: SessionPhase)
        ensures
            r == self.phase_spec(),
    {
        self.phase
    }

    /// The coarse lobby lifecycle the application observes.
    pub fn lobby_state(&self) -> (r: LobbyState)
        ensures
            r == lobby_state_of(self.phase_spec()),
    {
        match self.phase {
            SessionPhase::Idle => LobbyState::Idle,
            SessionPhase::Creating => LobbyState::Joining,
            SessionPhase::Joining => LobbyState::Joining,
            SessionPhase::InSession => LobbyState::InLobby,
        }
    }

    /// Whether this user hosts the lobby they are in.
    pub fn is_host_state(&self) -> (r: IsLobbyHost)
        ensures
            r == (if self.phase_spec() == SessionPhase::InSession
                && self.current_spec().is_host {
                IsLobbyHost::True
            } else {
                IsLobbyHost::False
            }),
    {
        match self.phase {
            SessionPhase::InSession => {
                if self.current.is_host {
                    IsLobbyHost::True
                } else {
                    IsLobbyHost::False
                }
            },
            _ => IsLobbyHost::False,
        }
    }

    /// A snapshot of the current lobby; present exactly while in a session.
    pub fn current_lobby(&self) -> (r: Option<CurrentLobby>)
        ensures
            self.phase_spec() != SessionPhase::InSession ==> r is None,
            self.phase_spec() == SessionPhase::InSession ==> (r matches Some(c) && {
                &&& c.id == self.current_spec().id
                &&& c.vis == self.current_spec().vis
                &&& c.is_host == self.current_spec().is_host
                &&& c.max_members == self.current_spec().max_members
                &&& c.invite_code@ == self.current_spec().invite_code@
                &&& c.others@ == self.current_spec().others@
            }),
    {
        match self.phase {
            SessionPhase::InSession => Some(
                CurrentLobby {
                    id: self.current.id,
                    vis: self.current.vis,
                    is_host: self.current.is_host,
                    max_members: self.current.max_members,
                    invite_code: self.current.invite_code.clone(),
                    others: copy_users(&self.current.others),
                },
            ),
            _ => None,
        }
    }

    /// The other members of the current lobby; empty outside a session.
    pub fn lobby_members(&self) -> (r: Vec<UserId>)
        ensures
            self.phase_spec() == SessionPhase::InSession ==> r@ == self.current_spec().others@,
            self.phase_spec() != SessionPhase::InSession ==> r@ == Seq::<UserId>::empty(),
    {
        match self.phase {
            SessionPhase::InSession => copy_users(&self.current.others),
            _ => Vec::new(),
        }
    }

    /// The invite code of the current lobby; present exactly while in a
    /// session.
    pub fn encode_lobby_id(&self) -> (r: Option<String>)
        ensures
            self.phase_spec() != SessionPhase::InSession ==> r is None,
            self.phase_spec() == SessionPhase::InSession ==> (r matches Some(s) && s@
                == base62_of(self.current_spec().id.0 as u128)),
    {
        match self.phase {
            SessionPhase::InSession => Some(encode_lobby_id_raw(self.current.id)),
            _ => None,
        }
    }

    /// Buffer a create answer from a provider callback.  Non-blocking: when
    /// the channel is full the notification is dropped and `false` returned.
    pub fn push_created(&mut self, ev: RawCreated) -> (accepted: bool)
        requires
            old(self).wf(),
        ensures
            final(self).wf(),
            accepted == (old(self).created_pending().len() < old(self).events_cap()),
            accepted ==> final(self).created_pending() == old(self).created_pending().push(ev),
            !accepted ==> final(self).created_pending() == old(self).created_pending(),
            final(self).entered_pending() == old(self).entered_pending(),
            final(self).conn_error_pending() == old(self).conn_error_pending(),
            final(self).join_request_pending() == old(self).join_request_pending(),
            final(self).roster_pending() == old(self).roster_pending(),
            final(self).message_pending() == old(self).message_pending(),
            final(self).phase_spec() == old(self).phase_spec(),
            final(self).current_spec() == old(self).current_spec(),
            final(self).commands_spec() == old(self).commands_spec(),
            final(self).outputs() == old(self).outputs(),
            final(self).self_id_spec() == old(self).self_id_spec(),
            final(self).events_cap() == old(self).events_cap(),
    {
        self.ev_created.send(ev)
    }

    /// Buffer a join answer from a provider callback.  Non-blocking: when the
    /// channel is full the notification is dropped and `false` returned.
    pub fn push_entered(&mut self, ev: RawEntered) -> (accepted: bool)
        requires
            old(self).wf(),
        ensures
            final(self).wf(),
            accepted == (old(self).entered_pending().len() < old(self).events_cap()),
            accepted ==> final(self).entered_pending() == old(self).entered_pending().push(ev),
            !accepted ==> final(self).entered_pending() == old(self).entered_pending(),
            final(self).created_pending() == old(self).created_pending(),
            final(self).conn_error_pending() == old(self).conn_error_pending(),
            final(self).join_request_pending() == old(self).join_request_pending(),
            final(self).roster_pending() == old(self).roster_pending(),
            final(self).message_pending() == old(self).message_pending(),
            final(self).phase_spec() == old(self).phase_spec(),
            final(self).current_spec() == old(self).current_spec(),
            final(self).commands_spec() == old(self).commands_spec(),
            final(self).outputs() == old(self).outputs(),
            final(self).self_id_spec() == old(self).self_id_spec(),
            final(self).events_cap() == old(self).events_cap(),
    {
        self.ev_entered.send(ev)
    }

    /// Buffer a connection error from a provider callback.  Non-blocking:
    /// when the channel is full the notification is dropped and `false`
    /// returned.
    pub fn push_conn_error(&mut self, ev: RawConnError) -> (accepted: bool)
        requires
            old(self).wf(),
        ensures
            final(self).wf(),
            accepted == (old(self).conn_error_pending().len() < old(self).events_cap()),
            accepted ==> final(self).conn_error_pending() == old(self).conn_error_pending().push(
                ev,
            ),
            !accepted ==> final(self).conn_error_pending() == old(self).conn_error_pending(),
            final(self).created_pending() == old(self).created_pending(),
            final(self).entered_pending() == old(self).entered_pending(),
            final(self).join_request_pending() == old(self).join_request_pending(),
            final(self).roster_pending() == old(self).roster_pending(),
            final(self).message_pending() == old(self).message_pending(),
            final(self).phase_spec() == old(self).phase_spec(),
            final(self).current_spec() == old(self).current_spec(),
            final(self).commands_spec() == old(self).commands_spec(),
            final(self).outputs() == old(self).outputs(),
            final(self).self_id_spec() == old(self).self_id_spec(),
            final(self).events_cap() == old(self).events_cap(),
    {
        self.ev_conn_error.send(ev)
    }

    /// Buffer a UI join request from a provider callback.  Non-blocking: when
    /// the channel is full the notification is dropped and `false` returned.
    pub fn push_join_request(&mut self, ev: RawJoinRequest) -> (accepted: bool)
        requires
            old(self).wf(),
        ensures
            final(self).wf(),
            accepted == (old(self).join_request_pending().len() < old(self).events_cap()),
            accepted ==> final(self).join_request_pending() == old(self).join_request_pending().push(ev),
            !accepted ==> final(self).join_request_pending() == old(self).join_request_pending(),
            final(self).created_pending() == old(self).created_pending(),
            final(self).entered_pending() == old(self).entered_pending(),
            final(self).conn_error_pending() == old(self).conn_error_pending(),
            final(self).roster_pending() == old(self).roster_pending(),
            final(self).message_pending() == old(self).message_pending(),
            final(self).phase_spec() == old(self).phase_spec(),
            final(self).current_spec() == old(self).current_spec(),
            final(self).commands_spec() == old(self).commands_spec(),
            final(self).outputs() == old(self).outputs(),
            final(self).self_id_spec() == old(self).self_id_spec(),
            final(self).events_cap() == old(self).events_cap(),
    {
        self.ev_join_request.send(ev)
    }

    /// Buffer a roster notification from a provider callback.  Non-blocking:
    /// when the channel is full the notification is dropped and `false`
    /// returned.
    pub fn push_roster_change(&mut self, ev: RawRosterChange) -> (accepted: bool)
        requires
            old(self).wf(),
        ensures
            final(self).wf(),
            accepted == (old(self).roster_pending().len() < old(self).events_cap()),
            accepted ==> final(self).roster_pending() == old(self).roster_pending().push(ev),
            !accepted ==> final(self).roster_pending() == old(self).roster_pending(),
            final(self).created_pending() == old(self).created_pending(),
            final(self).entered_pending() == old(self).entered_pending(),
            final(self).conn_error_pending() == old(self).conn_error_pending(),
            final(self).join_request_pending() == old(self).join_request_pending(),
            final(self).message_pending() == old(self).message_pending(),
            final(self).phase_spec() == old(self).phase_spec(),
            final(self).current_spec() == old(self).current_spec(),
            final(self).commands_spec() == old(self).commands_spec(),
            final(self).outputs() == old(self).outputs(),
            final(self).self_id_spec() == old(self).self_id_spec(),
            final(self).events_cap() == old(self).events_cap(),
    {
        self.ev_roster.send(ev)
    }

    /// Buffer a chat entry from a provider callback.  Non-blocking: when the
    /// channel is full the notification is dropped and `false` returned.
    pub fn push_chat_message(&mut self, ev: RawChatMessage) -> (accepted: bool)
        requires
            old(self).wf(),
        ensures
            final(self).wf(),
            accepted == (old(self).message_pending().len() < old(self).events_cap()),
            accepted ==> final(self).message_pending() == old(self).message_pending().push(ev),
            !accepted ==> final(self).message_pending() == old(self).message_pending(),
            final(self).created_pending() == old(self).created_pending(),
            final(self).entered_pending() == old(self).entered_pending(),
            final(self).conn_error_pending() == old(self).conn_error_pending(),
            final(self).join_request_pending() == old(self).join_request_pending(),
            final(self).roster_pending() == old(self).roster_pending(),
            final(self).phase_spec() == old(self).phase_spec(),
            final(self).current_spec() == old(self).current_spec(),
            final(self).commands_spec() == old(self).commands_spec(),
            final(self).outputs() == old(self).outputs(),
            final(self).self_id_spec() == old(self).self_id_spec(),
            final(self).events_cap() == old(self).events_cap(),
    {
        self.ev_message.send(ev)
    }

    /// Take every pending provider command, oldest first; the queue is empty
    /// afterwards.
    pub fn take_commands(&mut self) -> (r: Vec<ProviderCommand>)
        requires
            old(self).wf(),
        ensures
            final(self).wf(),
            r@ == old(self).commands_spec(),
            final(self).commands_spec().len() == 0,
            final(self).outputs() == old(self).outputs(),
            final(self).queues() == old(self).queues(),
            final(self).phase_spec() == old(self).phase_spec(),
            final(self).current_spec() == old(self).current_spec(),
            final(self).self_id_spec() == old(self).self_id_spec(),
            final(self).events_cap() == old(self).events_cap(),
    {
        let mut out: Vec<ProviderCommand> = Vec::new();
        core::mem::swap(&mut self.commands, &mut out);
        out
    }

    /// Read the unread lobby-entered events, oldest first.
    pub fn read_lobby_join(&mut self) -> (r: Vec<OnLobbyJoin>)
        requires
            old(self).wf(),
        ensures
            final(self).wf(),
            r@ == old(self).out_join_spec(),
            final(self).out_join_spec().len() == 0,
            final(self).out_exit_spec() == old(self).out_exit_spec(),
            final(self).out_message_spec() == old(self).out_message_spec(),
            final(self).out_change_spec() == old(self).out_change_spec(),
            final(self).out_error_spec() == old(self).out_error_spec(),
            final(self).queues() == old(self).queues(),
            final(self).commands_spec() == old(self).commands_spec(),
            final(self).phase_spec() == old(self).phase_spec(),
            final(self).current_spec() == old(self).current_spec(),
            final(self).self_id_spec() == old(self).self_id_spec(),
            final(self).events_cap() == old(self).events_cap(),
    {
        let mut out: Vec<OnLobbyJoin> = Vec::new();
        core::mem::swap(&mut self.out_join, &mut out);
        out
    }

    /// Read the unread lobby-exited events, oldest first.
    pub fn read_lobby_exit(&mut self) -> (r: Vec<OnLobbyExit>)
        requires
            old(self).wf(),
        ensures
            final(self).wf(),
            r@ == old(self).out_exit_spec(),
            final(self).out_exit_spec().len() == 0,
            final(self).out_join_spec() == old(self).out_join_spec(),
            final(self).out_message_spec() == old(self).out_message_spec(),
            final(self).out_change_spec() == old(self).out_change_spec(),
            final(self).out_error_spec() == old(self).out_error_spec(),
            final(self).queues() == old(self).queues(),
            final(self).commands_spec() == old(self).commands_spec(),
            final(self).phase_spec() == old(self).phase_spec(),
            final(self).current_spec() == old(self).current_spec(),
            final(self).self_id_spec() == old(self).self_id_spec(),
            final(self).events_cap() == old(self).events_cap(),
    {
        let mut out: Vec<OnLobbyExit> = Vec::new();
        core::mem::swap(&mut self.out_exit, &mut out);
        out
    }

    /// Read the unread chat-message events, oldest first.
    pub fn read_lobby_msg(&mut self) -> (r: Vec<OnLobbyMessage>)
        requires
            old(self).wf(),
        ensures
            final(self).wf(),
            r@ == old(self).out_message_spec(),
            final(self).out_message_spec().len() == 0,
            final(self).out_join_spec() == old(self).out_join_spec(),
            final(self).out_exit_spec() == old(self).out_exit_spec(),
            final(self).out_change_spec() == old(self).out_change_spec(),
            final(self).out_error_spec() == old(self).out_error_spec(),
            final(self).queues() == old(self).queues(),
            final(self).commands_spec() == old(self).commands_spec(),
            final(self).phase_spec() == old(self).phase_spec(),
            final(self).current_spec() == old(self).current_spec(),
            final(self).self_id_spec() == old(self).self_id_spec(),
            final(self).events_cap() == old(self).events_cap(),
    {
        let mut out: Vec<OnLobbyMessage> = Vec::new();
        core::mem::swap(&mut self.out_message, &mut out);
        out
    }

    /// Read the unread roster-change events, oldest first.
    pub fn read_lobby_change(&mut self) -> (r: Vec<OnLobbyChange>)
        requires
            old(self).wf(),
        ensures
            final(self).wf(),
            r@ == old(self).out_change_spec(),
            final(self).out_change_spec().len() == 0,
            final(self).out_join_spec() == old(self).out_join_spec(),
            final(self).out_exit_spec() == old(self).out_exit_spec(),
            final(self).out_message_spec() == old(self).out_message_spec(),
            final(self).out_error_spec() == old(self).out_error_spec(),
            final(self).queues() == old(self).queues(),
            final(self).commands_spec() == old(self).commands_spec(),
            final(self).phase_spec() == old(self).phase_spec(),
            final(self).current_spec() == old(self).current_spec(),
            final(self).self_id_spec() == old(self).self_id_spec(),
            final(self).events_cap() == old(self).events_cap(),
    {
        let mut out: Vec<OnLobbyChange> = Vec::new();
        core::mem::swap(&mut self.out_change, &mut out);
        out
    }

    /// Apply one create answer.
    ///
    /// Success while a create is outstanding enters the session: the lobby's
    /// identifier and invite code become known, this user stays marked as
    /// host, and a lobby-entered event is emitted.  Success in any other phase
    /// is stale and ignored.  Failure emits a failed-attempt event carrying
    /// the translated error and, when a create was outstanding, returns the
    /// core to `Idle` with no metadata left.
    pub fn apply_created(&mut self, ev: RawCreated)
        requires
            old(self).wf(),
        ensures
            final(self).wf(),
            final(self).queues() == old(self).queues(),
            final(self).self_id_spec() == old(self).self_id_spec(),
            final(self).events_cap() == old(self).events_cap(),
            final(self).model() == step_created(old(self).model(), ev),
            spec_error_from_result_code(ev.result_code) is None && old(self).phase_spec()
                == SessionPhase::Creating ==> {
                &&& final(self).phase_spec() == SessionPhase::InSession
                &&& final(self).current_spec().id == ev.lobby
                &&& final(self).current_spec().is_host
                &&& final(self).current_spec().vis == old(self).current_spec().vis
                &&& final(self).current_spec().max_members == old(self).current_spec().max_members
                &&& final(self).current_spec().invite_code@ == base62_of(ev.lobby.0 as u128)
                &&& final(self).current_spec().others@ == Seq::<UserId>::empty()
                &&& final(self).out_join_spec() == old(self).out_join_spec().push(
                    OnLobbyJoin { id: ev.lobby },
                )
                &&& final(self).out_exit_spec() == old(self).out_exit_spec()
                &&& final(self).out_message_spec() == old(self).out_message_spec()
                &&& final(self).out_change_spec() == old(self).out_change_spec()
                &&& final(self).out_error_spec() == old(self).out_error_spec()
                &&& final(self).commands_spec() == old(self).commands_spec()
            },
            spec_error_from_result_code(ev.result_code) is None && old(self).phase_spec()
                != SessionPhase::Creating ==> *final(self) == *old(self),
            spec_error_from_result_code(ev.result_code) matches Some(k) ==> {
                &&& final(self).out_error_spec() == old(self).out_error_spec().push(
                    LobbyConnectError { id: ev.lobby, kind: k },
                )
                &&& final(self).out_join_spec() == old(self).out_join_spec()
                &&& final(self).out_exit_spec() == old(self).out_exit_spec()
                &&& final(self).out_message_spec() == old(self).out_message_spec()
                &&& final(self).out_change_spec() == old(self).out_change_spec()
                &&& final(self).commands_spec() == old(self).commands_spec()
                &&& old(self).phase_spec() == SessionPhase::Creating ==> final(self).phase_spec()
                    == SessionPhase::Idle && lobby_cleared(final(self).current_spec())
                &&& old(self).phase_spec() != SessionPhase::Creating ==> final(self).phase_spec()
                    == old(self).phase_spec() && final(self).current_spec() == old(self).current_spec()
            },
    {
        match lobby_error_from_result_code(ev.result_code) {
            None => {
                match self.phase {
                    SessionPhase::Creating => {
                        let invite_code = encode_lobby_id_raw(ev.lobby);
                        self.current = CurrentLobby {
                            id: ev.lobby,
                            vis: self.current.vis,
                            is_host: true,
                            max_members: self.current.max_members,
                            invite_code,
                            others: Vec::new(),
                        };
                        self.phase = SessionPhase::InSession;
                        self.out_join.push(OnLobbyJoin { id: ev.lobby });
                    },
                    _ => {},
                }
            },
            Some(kind) => {
                self.out_error.push(LobbyConnectError { id: ev.lobby, kind });
                match self.phase {
                    SessionPhase::Creating => {
                        self.current = CurrentLobby::default();
                        self.phase = SessionPhase::Idle;
                    },
                    _ => {},
                }
            },
        }
    }

    /// Apply one join answer.
    ///
    /// Success while an attempt is outstanding enters the session: metadata is
    /// populated from the answer, this user is the host exactly when the
    /// attempt was a create, the member list excludes this user, and a
    /// lobby-entered event is emitted.  Success for the lobby the user is
    /// already in refreshes its member cap and member list; any other success
    /// is stale and ignored.  Failure emits a failed-attempt event and, when
    /// an attempt was outstanding, returns the core to `Idle` with no metadata
    /// left.
    pub fn apply_entered(&mut self, ev: RawEntered)
        requires
            old(self).wf(),
        ensures
            final(self).wf(),
            final(self).queues() == old(self).queues(),
            final(self).self_id_spec() == old(self).self_id_spec(),
            final(self).events_cap() == old(self).events_cap(),
            final(self).model() == step_entered(old(self).self_id_spec(), old(self).model(), ev),
            spec_error_from_enter_code(ev.response_code) is None && (old(self).phase_spec()
                == SessionPhase::Creating || old(self).phase_spec() == SessionPhase::Joining) ==> {
                &&& final(self).phase_spec() == SessionPhase::InSession
                &&& final(self).current_spec().id == ev.lobby
                &&& final(self).current_spec().is_host == (old(self).phase_spec()
                    == SessionPhase::Creating)
                &&& final(self).current_spec().vis == old(self).current_spec().vis
                &&& final(self).current_spec().max_members == ev.max_members
                &&& final(self).current_spec().invite_code@ == base62_of(ev.lobby.0 as u128)
                &&& final(self).current_spec().others@ == ev.members@.filter(
                    not_user(old(self).self_id_spec()),
                )
                &&& final(self).out_join_spec() == old(self).out_join_spec().push(
                    OnLobbyJoin { id: ev.lobby },
                )
                &&& final(self).out_exit_spec() == old(self).out_exit_spec()
                &&& final(self).out_message_spec() == old(self).out_message_spec()
                &&& final(self).out_change_spec() == old(self).out_change_spec()
                &&& final(self).out_error_spec() == old(self).out_error_spec()
                &&& final(self).commands_spec() == old(self).commands_spec()
            },
            spec_error_from_enter_code(ev.response_code) is None && old(self).phase_spec()
                == SessionPhase::InSession && ev.lobby == old(self).current_spec().id ==> {
                &&& final(self).phase_spec() == SessionPhase::InSession
                &&& final(self).current_spec().id == old(self).current_spec().id
                &&& final(self).current_spec().is_host == old(self).current_spec().is_host
                &&& final(self).current_spec().vis == old(self).current_spec().vis
                &&& final(self).current_spec().max_members == ev.max_members
                &&& final(self).current_spec().invite_code@ == old(self).current_spec().invite_code@
                &&& final(self).current_spec().others@ == ev.members@.filter(
                    not_user(old(self).self_id_spec()),
                )
                &&& final(self).outputs() == old(self).outputs()
                &&& final(self).commands_spec() == old(self).commands_spec()
            },
            spec_error_from_enter_code(ev.response_code) is None && (old(self).phase_spec()
                == SessionPhase::Idle || (old(self).phase_spec() == SessionPhase::InSession
                && ev.lobby != old(self).current_spec().id)) ==> *final(self) == *old(self),
            spec_error_from_enter_code(ev.response_code) matches Some(k) ==> {
                &&& final(self).out_error_spec() == old(self).out_error_spec().push(
                    LobbyConnectError { id: ev.lobby, kind: k },
                )
                &&& final(self).out_join_spec() == old(self).out_join_spec()
                &&& final(self).out_exit_spec() == old(self).out_exit_spec()
                &&& final(self).out_message_spec() == old(self).out_message_spec()
                &&& final(self).out_change_spec() == old(self).out_change_spec()
                &&& final(self).commands_spec() == old(self).commands_spec()
                &&& (old(self).phase_spec() == SessionPhase::Creating || old(self).phase_spec()
                    == SessionPhase::Joining) ==> final(self).phase_spec() == SessionPhase::Idle
                    && lobby_cleared(final(self).current_spec())
                &&& (old(self).phase_spec() == SessionPhase::Idle || old(self).phase_spec()
                    == SessionPhase::InSession) ==> final(self).phase_spec() == old(self).phase_spec() && final(self).current_spec() == old(self).current_spec()
            },
    {
        match lobby_error_from_enter_code(ev.response_code) {
            None => {
                match self.phase {
                    SessionPhase::Creating | SessionPhase::Joining => {
                        let invite_code = encode_lobby_id_raw(ev.lobby);
                        let others = roster_without(self.self_id, &ev.members);
                        self.current = CurrentLobby {
                            id: ev.lobby,
                            vis: self.current.vis,
                            is_host: self.current.is_host,
                            max_members: ev.max_members,
                            invite_code,
                            others,
                        };
                        self.phase = SessionPhase::InSession;
                        self.out_join.push(OnLobbyJoin { id: ev.lobby });
                    },
                    SessionPhase::InSession => {
                        if ev.lobby.0 == self.current.id.0 {
                            let others = roster_without(self.self_id, &ev.members);
                            self.current.max_members = ev.max_members;
                            self.current.others = others;
                        }
                    },
                    SessionPhase::Idle => {},
                }
            },
            Some(kind) => {
                self.out_error.push(LobbyConnectError { id: ev.lobby, kind });
                match self.phase {
                    SessionPhase::Creating | SessionPhase::Joining => {
                        self.current = CurrentLobby::default();
                        self.phase = SessionPhase::Idle;
                    },
                    _ => {},
                }
            },
        }
    }

    /// Apply one connection error: emit a failed-attempt event carrying the
    /// translated error.  A code that reports no error is ignored.
    pub fn apply_conn_error(&mut self, ev: RawConnError)
        requires
            old(self).wf(),
        ensures
            final(self).wf(),
            final(self).queues() == old(self).queues(),
            final(self).self_id_spec() == old(self).self_id_spec(),
            final(self).events_cap() == old(self).events_cap(),
            final(self).model() == step_conn_error(old(self).model(), ev),
            spec_error_from_result_code(ev.result_code) is None ==> *final(self) == *old(self),
            spec_error_from_result_code(ev.result_code) matches Some(k) ==> {
                &&& final(self).out_error_spec() == old(self).out_error_spec().push(
                    LobbyConnectError { id: ev.lobby, kind: k },
                )
                &&& final(self).out_join_spec() == old(self).out_join_spec()
                &&& final(self).out_exit_spec() == old(self).out_exit_spec()
                &&& final(self).out_message_spec() == old(self).out_message_spec()
                &&& final(self).out_change_spec() == old(self).out_change_spec()
                &&& final(self).commands_spec() == old(self).commands_spec()
                &&& final(self).phase_spec() == old(self).phase_spec()
                &&& final(self).current_spec() == old(self).current_spec()
            },
    {
        match lobby_error_from_result_code(ev.result_code) {
            None => {},
            Some(kind) => {
                self.out_error.push(LobbyConnectError { id: ev.lobby, kind });
            },
        }
    }

    /// Apply one join request made through the provider's own UI.
    ///
    /// Ignored while an attempt is already outstanding.  While in a session
    /// the current lobby is left first: a `LeaveLobby` command and a
    /// lobby-exited event are emitted.  Either way the request then becomes a
    /// fresh join: the core moves to `Joining` and emits a `JoinLobby`
    /// command.
    pub fn apply_join_request(&mut self, ev: RawJoinRequest)
        requires
            old(self).wf(),
        ensures
            final(self).wf(),
            final(self).queues() == old(self).queues(),
            final(self).self_id_spec() == old(self).self_id_spec(),
            final(self).events_cap() == old(self).events_cap(),
            final(self).model() == step_join_request(old(self).model(), ev),
            old(self).phase_spec() == SessionPhase::Creating || old(self).phase_spec()
                == SessionPhase::Joining ==> *final(self) == *old(self),
            old(self).phase_spec() == SessionPhase::Idle ==> {
                &&& final(self).phase_spec() == SessionPhase::Joining
                &&& final(self).current_spec().id == ev.lobby
                &&& !final(self).current_spec().is_host
                &&& final(self).commands_spec() == old(self).commands_spec().push(
                    ProviderCommand::JoinLobby { id: ev.lobby },
                )
                &&& final(self).outputs() == old(self).outputs()
            },
            old(self).phase_spec() == SessionPhase::InSession ==> {
                &&& final(self).phase_spec() == SessionPhase::Joining
                &&& final(self).current_spec().id == ev.lobby
                &&& !final(self).current_spec().is_host
                &&& final(self).commands_spec() == old(self).commands_spec().push(
                    ProviderCommand::LeaveLobby { id: old(self).current_spec().id },
                ).push(ProviderCommand::JoinLobby { id: ev.lobby })
                &&& final(self).out_exit_spec() == old(self).out_exit_spec().push(
                    OnLobbyExit { id: old(self).current_spec().id },
                )
                &&& final(self).out_join_spec() == old(self).out_join_spec()
                &&& final(self).out_message_spec() == old(self).out_message_spec()
                &&& final(self).out_change_spec() == old(self).out_change_spec()
                &&& final(self).out_error_spec() == old(self).out_error_spec()
            },
    {
        match self.phase {
            SessionPhase::Creating | SessionPhase::Joining => {},
            SessionPhase::Idle | SessionPhase::InSession => {
                match self.phase {
                    SessionPhase::InSession => {
                        let id = self.current.id;
                        self.commands.push(ProviderCommand::LeaveLobby { id });
                        self.out_exit.push(OnLobbyExit { id });
                    },
                    _ => {},
                }
                self.current = CurrentLobby {
                    id: ev.lobby,
                    vis: LobbyVisibility::Anyone,
                    is_host: false,
                    max_members: 4,
                    invite_code: String::new(),
                    others: Vec::new(),
                };
                self.phase = SessionPhase::Joining;
                self.commands.push(ProviderCommand::JoinLobby { id: ev.lobby });
            },
        }
    }

    /// Apply one roster notification.
    ///
    /// A recognized change is emitted as a roster-change event.  When it
    /// reports this user forcibly removed — kicked, banned or disconnected —
    /// while in a session, the core returns to `Idle` with no metadata left
    /// and a lobby-exited event is emitted.  An unrecognized code is dropped.
    pub fn apply_roster_change(&mut self, ev: RawRosterChange)
        requires
            old(self).wf(),
        ensures
            final(self).wf(),
            final(self).queues() == old(self).queues(),
            final(self).self_id_spec() == old(self).self_id_spec(),
            final(self).events_cap() == old(self).events_cap(),
            final(self).model() == step_roster(old(self).self_id_spec(), old(self).model(), ev),
            final(self).commands_spec() == old(self).commands_spec(),
            spec_roster_change(ev) is None ==> *final(self) == *old(self),
            spec_roster_change(ev) matches Some(ch) ==> {
                &&& final(self).out_change_spec() == old(self).out_change_spec().push(ch)
                &&& final(self).out_join_spec() == old(self).out_join_spec()
                &&& final(self).out_message_spec() == old(self).out_message_spec()
                &&& final(self).out_error_spec() == old(self).out_error_spec()
                &&& (old(self).phase_spec() == SessionPhase::InSession && ev.target == old(self).self_id_spec() && spec_is_forced_removal(ev.change_code)) ==> {
                    &&& final(self).phase_spec() == SessionPhase::Idle
                    &&& lobby_cleared(final(self).current_spec())
                    &&& final(self).out_exit_spec() == old(self).out_exit_spec().push(
                        OnLobbyExit { id: old(self).current_spec().id },
                    )
                }
                &&& !(old(self).phase_spec() == SessionPhase::InSession && ev.target == old(self).self_id_spec() && spec_is_forced_removal(ev.change_code)) ==> {
                    &&& final(self).phase_spec() == old(self).phase_spec()
                    &&& final(self).current_spec() == old(self).current_spec()
                    &&& final(self).out_exit_spec() == old(self).out_exit_spec()
                }
            },
    {
        match roster_change_to_event(&ev) {
            None => {},
            Some(change) => {
                self.out_change.push(change);
                let in_session = match self.phase {
                    SessionPhase::InSession => true,
                    _ => false,
                };
                if in_session && ev.target.0 == self.self_id.0 && is_forced_removal(
                    ev.change_code,
                ) {
                    let id = self.current.id;
                    self.out_exit.push(OnLobbyExit { id });
                    self.current = CurrentLobby::default();
                    self.phase = SessionPhase::Idle;
                }
            },
        }
    }

    /// Apply one chat entry: emit a chat-message event with the entry's
    /// purpose translated.
    pub fn apply_chat_message(&mut self, ev: RawChatMessage)
        requires
            old(self).wf(),
        ensures
            final(self).wf(),
            final(self).queues() == old(self).queues(),
            final(self).self_id_spec() == old(self).self_id_spec(),
            final(self).events_cap() == old(self).events_cap(),
            final(self).model() == step_message(old(self).model(), ev),
            final(self).commands_spec() == old(self).commands_spec(),
            final(self).phase_spec() == old(self).phase_spec(),
            final(self).current_spec() == old(self).current_spec(),
            final(self).out_message_spec().len() == old(self).out_message_spec().len() + 1,
            final(self).out_message_spec().subrange(0, old(self).out_message_spec().len() as int)
                == old(self).out_message_spec(),
            final(self).out_message_spec().last().content@ == ev.content@,
            final(self).out_message_spec().last().user == ev.user,
            final(self).out_message_spec().last().kind == spec_chat_kind_from_code(ev.kind_code),
            final(self).out_join_spec() == old(self).out_join_spec(),
            final(self).out_exit_spec() == old(self).out_exit_spec(),
            final(self).out_change_spec() == old(self).out_change_spec(),
            final(self).out_error_spec() == old(self).out_error_spec(),
    {
        let kind = chat_kind_from_code(ev.kind_code);
        self.out_message.push(OnLobbyMessage { content: ev.content, user: ev.user, kind });
        proof {
            assert(self.out_message@.subrange(0, self.out_message@.len() - 1) =~= old(self).out_message@);
        }
    }

    /// Drain every buffered raw notification, in a fixed order — create and
    /// join answers and connection errors first, then UI join requests, roster
    /// notifications and chat entries — applying each to the state machine,
    /// then adopt `fresh_members` as the member list of the current session,
    /// this user excluded.  Every channel is empty afterwards, so one tick
    /// handles at most the channels' capacity of each notification.
    ///
    /// `fresh_members` is the provider's answer to a member query made this
    /// tick; as the ground truth it overrides whatever the individual roster
    /// notifications suggested.  It is ignored outside a session.
    pub fn tick(&mut self, fresh_members: Vec<UserId>)
        requires
            old(self).wf(),
        ensures
            final(self).wf(),
            final(self).self_id_spec() == old(self).self_id_spec(),
            final(self).events_cap() == old(self).events_cap(),
            final(self).created_pending().len() == 0,
            final(self).entered_pending().len() == 0,
            final(self).conn_error_pending().len() == 0,
            final(self).join_request_pending().len() == 0,
            final(self).roster_pending().len() == 0,
            final(self).message_pending().len() == 0,
            final(self).model() == ticked(
                old(self).self_id_spec(),
                old(self).model(),
                old(self).created_pending(),
                old(self).entered_pending(),
                old(self).conn_error_pending(),
                old(self).join_request_pending(),
                old(self).roster_pending(),
                old(self).message_pending(),
                fresh_members@,
            ),
            final(self).phase_spec() == SessionPhase::InSession ==> final(self).current_spec().others@ == fresh_members@.filter(not_user(old(self).self_id_spec())),
    {
        let ghost self_id = self.self_id;
        let ghost m0 = self.model();
        let ghost c0 = self.created_pending();
        let ghost e0 = self.entered_pending();
        let ghost x0 = self.conn_error_pending();
        let ghost j0 = self.join_request_pending();
        let ghost r0 = self.roster_pending();
        let ghost g0 = self.message_pending();
        loop
            invariant
                self.wf(),
                self.self_id_spec() == self_id,
                self.events_cap() == old(self).events_cap(),
                self.entered_pending() == e0,
                self.conn_error_pending() == x0,
                self.join_request_pending() == j0,
                self.roster_pending() == r0,
                self.message_pending() == g0,
                steps_created(self.model(), self.created_pending()) == steps_created(m0, c0),
            ensures
                self.wf(),
                self.self_id_spec() == self_id,
                self.events_cap() == old(self).events_cap(),
                self.entered_pending() == e0,
                self.conn_error_pending() == x0,
                self.join_request_pending() == j0,
                self.roster_pending() == r0,
                self.message_pending() == g0,
                steps_created(self.model(), self.created_pending()) == steps_created(m0, c0),
                self.created_pending().len() == 0,
                self.model() == steps_created(m0, c0),
            decreases self.created_pending().len(),
        {
            match self.ev_created.recv() {
                None => { break; },
                Some(ev) => self.apply_created(ev),
            }
        }
        let ghost m1 = steps_created(m0, c0);
        loop
            invariant
                self.wf(),
                self.self_id_spec() == self_id,
                self.events_cap() == old(self).events_cap(),
                self.created_pending().len() == 0,
                self.conn_error_pending() == x0,
                self.join_request_pending() == j0,
                self.roster_pending() == r0,
                self.message_pending() == g0,
                steps_entered(self_id, self.model(), self.entered_pending()) == steps_entered(self_id, m1, e0),
            ensures
                self.wf(),
                self.self_id_spec() == self_id,
                self.events_cap() == old(self).events_cap(),
                self.created_pending().len() == 0,
                self.conn_error_pending() == x0,
                self.join_request_pending() == j0,
                self.roster_pending() == r0,
                self.message_pending() == g0,
                steps_entered(self_id, self.model(), self.entered_pending()) == steps_entered(self_id, m1, e0),
                self.entered_pending().len() == 0,
                self.model() == steps_entered(self_id, m1, e0),
            decreases self.entered_pending().len(),
        {
            match self.ev_entered.recv() {
                None => { break; },
                Some(ev) => self.apply_entered(ev),
            }
        }
        let ghost m2 = steps_entered(self_id, m1, e0);
        loop
            invariant
                self.wf(),
                self.self_id_spec() == self_id,
                self.events_cap() == old(self).events_cap(),
                self.created_pending().len() == 0,
                self.entered_pending().len() == 0,
                self.join_request_pending() == j0,
                self.roster_pending() == r0,
                self.message_pending() == g0,
                steps_conn_error(self.model(), self.conn_error_pending()) == steps_conn_error(m2, x0),
            ensures
                self.wf(),
                self.self_id_spec() == self_id,
                self.events_cap() == old(self).events_cap(),
                self.created_pending().len() == 0,
                self.entered_pending().len() == 0,
                self.join_request_pending() == j0,
                self.roster_pending() == r0,
                self.message_pending() == g0,
                steps_conn_error(self.model(), self.conn_error_pending()) == steps_conn_error(m2, x0),
                self.conn_error_pending().len() == 0,
                self.model() == steps_conn_error(m2, x0),
            decreases self.conn_error_pending().len(),
        {
            match self.ev_conn_error.recv() {
                None => { break; },
                Some(ev) => self.apply_conn_error(ev),
            }
        }
        let ghost m3 = steps_conn_error(m2, x0);
        loop
            invariant
                self.wf(),
                self.self_id_spec() == self_id,
                self.events_cap() == old(self).events_cap(),
                self.created_pending().len() == 0,
                self.entered_pending().len() == 0,
                self.conn_error_pending().len() == 0,
                self.roster_pending() == r0,
                self.message_pending() == g0,
                steps_join_request(self.model(), self.join_request_pending()) == steps_join_request(m3, j0),
            ensures
                self.wf(),
                self.self_id_spec() == self_id,
                self.events_cap() == old(self).events_cap(),
                self.created_pending().len() == 0,
                self.entered_pending().len() == 0,
                self.conn_error_pending().len() == 0,
                self.roster_pending() == r0,
                self.message_pending() == g0,
                steps_join_request(self.model(), self.join_request_pending()) == steps_join_request(m3, j0),
                self.join_request_pending().len() == 0,
                self.model() == steps_join_request(m3, j0),
            decreases self.join_request_pending().len(),
        {
            match self.ev_join_request.recv() {
                None => { break; },
                Some(ev) => self.apply_join_request(ev),
            }
        }
        let ghost m4 = steps_join_request(m3, j0);
        loop
            invariant
                self.wf(),
                self.self_id_spec() == self_id,
                self.events_cap() == old(self).events_cap(),
                self.created_pending().len() == 0,
                self.entered_pending().len() == 0,
                self.conn_error_pending().len() == 0,
                self.join_request_pending().len() == 0,
                self.message_pending() == g0,
                steps_roster(self_id, self.model(), self.roster_pending()) == steps_roster(self_id, m4, r0),
            ensures
                self.wf(),
                self.self_id_spec() == self_id,
                self.events_cap() == old(self).events_cap(),
                self.created_pending().len() == 0,
                self.entered_pending().len() == 0,
                self.conn_error_pending().len() == 0,
                self.join_request_pending().len() == 0,
                self.message_pending() == g0,
                steps_roster(self_id, self.model(), self.roster_pending()) == steps_roster(self_id, m4, r0),
                self.roster_pending().len() == 0,
                self.model() == steps_roster(self_id, m4, r0),
            decreases self.roster_pending().len(),
        {
            match self.ev_roster.recv() {
                None => { break; },
                Some(ev) => self.apply_roster_change(ev),
            }
        }
        let ghost m5 = steps_roster(self_id, m4, r0);
        loop
            invariant
                self.wf(),
                self.self_id_spec() == self_id,
                self.events_cap() == old(self).events_cap(),
                self.created_pending().len() == 0,
                self.entered_pending().len() == 0,
                self.conn_error_pending().len() == 0,
                self.join_request_pending().len() == 0,
                self.roster_pending().len() == 0,
                steps_message(self.model(), self.message_pending()) == steps_message(m5, g0),
            ensures
                self.wf(),
                self.self_id_spec() == self_id,
                self.events_cap() == old(self).events_cap(),
                self.created_pending().len() == 0,
                self.entered_pending().len() == 0,
                self.conn_error_pending().len() == 0,
                self.join_request_pending().len() == 0,
                self.roster_pending().len() == 0,
                steps_message(self.model(), self.message_pending()) == steps_message(m5, g0),
                self.message_pending().len() == 0,
                self.model() == steps_message(m5, g0),
            decreases self.message_pending().len(),
        {
            match self.ev_message.recv() {
                None => { break; },
                Some(ev) => self.apply_chat_message(ev),
            }
        }
        let ghost m6 = steps_message(m5, g0);
        proof {
            assert(self.model() == m6);
        }
        let in_session = match self.phase {
            SessionPhase::InSession => true,
            _ => false,
        };
        if in_session {
            self.current.others = roster_without(self.self_id, &fresh_members);
        }
        proof {
            assert(self.model() =~= roster_refreshed(self_id, m6, fresh_members@));
        }
    }

    /// Read the unread failed-attempt events, oldest first.
    pub fn read_lobby_connect_errors(&mut self) -> (r: Vec<LobbyConnectError>)
        requires
            old(self).wf(),
        ensures
            final(self).wf(),
            r@ == old(self).out_error_spec(),
            final(self).out_error_spec().len() == 0,
            final(self).out_join_spec() == old(self).out_join_spec(),
            final(self).out_exit_spec() == old(self).out_exit_spec(),
            final(self).out_message_spec() == old(self).out_message_spec(),
            final(self).out_change_spec() == old(self).out_change_spec(),
            final(self).queues() == old(self).queues(),
            final(self).commands_spec() == old(self).commands_spec(),
            final(self).phase_spec() == old(self).phase_spec(),
            final(self).current_spec() == old(self).current_spec(),
            final(self).self_id_spec() == old(self).self_id_spec(),
            final(self).events_cap() == old(self).events_cap(),
    {
        let mut out: Vec<LobbyConnectError> = Vec::new();
        core::mem::swap(&mut self.out_error, &mut out);
        out
    }
}

} // verus!
