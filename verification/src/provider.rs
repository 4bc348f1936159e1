//! Raw provider notifications, provider commands, and the single point where
//! the provider's numeric result codes become this library's error taxonomy.
//!
//! Provider glue converts each SDK callback into one of the raw event structs
//! below and pushes it into the session core's bounded channels; it drains the
//! command queue and performs each command against the SDK.  No other part of
//! the library ever sees a provider-specific code.

use vstd::prelude::*;

use crate::ids::{LobbyId, UserId};
use crate::lobby::{ChatKind, LobbyErrorKind, LobbyVisibility, OnLobbyChange};

verus! {

/// The provider answered a create request; `result_code` is the provider's
/// general result code, `1` meaning success.
#[derive(Clone, Copy, Eq, PartialEq, Structural, Debug)]
pub struct RawCreated {
    /// The lobby the answer is about.
    pub lobby: LobbyId,
    /// The provider's general result code.
    pub result_code: u32,
}

/// The provider answered a join attempt (its own answer to a create request
/// arrives this way too); `response_code` is the provider's room-enter code,
/// `1` meaning success.
#[derive(Clone, Debug)]
pub struct RawEntered {
    /// The lobby the answer is about.
    pub lobby: LobbyId,
    /// The provider's room-enter response code.
    pub response_code: u32,
    /// The lobby's member cap, as the provider reported it on success.
    pub max_members: u32,
    /// The lobby's full member list on success, this user possibly included.
    pub members: Vec<UserId>,
}

/// A chat entry arrived from the current lobby.
#[derive(Clone, Debug)]
pub struct RawChatMessage {
    /// Who wrote the entry.
    pub user: UserId,
    /// The provider's chat-entry-type code.
    pub kind_code: u32,
    /// The text of the entry.
    pub content: String,
}

/// The provider reported a change to the current lobby's member list.
#[derive(Clone, Copy, Eq, PartialEq, Structural, Debug)]
pub struct RawRosterChange {
    /// Whose membership changed.
    pub target: UserId,
    /// Who caused the change.
    pub executor: UserId,
    /// The provider's member-state-change code.
    pub change_code: u32,
}

/// The user asked, through the provider's own UI, to join a lobby.
#[derive(Clone, Copy, Eq, PartialEq, Structural, Debug)]
pub struct RawJoinRequest {
    /// The lobby to join.
    pub lobby: LobbyId,
}

/// The provider reported a connection-level error.
#[derive(Clone, Copy, Eq, PartialEq, Structural, Debug)]
pub struct RawConnError {
    /// The lobby the error is about.
    pub lobby: LobbyId,
    /// The provider's general result code.
    pub result_code: u32,
}

/// A call the session core wants the provider glue to make.
#[derive(Clone, Debug)]
pub enum ProviderCommand {
    /// Ask the provider to create a lobby.
    CreateLobby {
        /// Who may join it.
        vis: LobbyVisibility,
        /// How many members it may hold.
        max_members: u32,
    },
    /// Ask the provider to join a lobby.
    JoinLobby {
        /// Which lobby to join.
        id: LobbyId,
    },
    /// Ask the provider to leave a lobby.
    LeaveLobby {
        /// Which lobby to leave.
        id: LobbyId,
    },
    /// Ask the provider to send a chat message to a lobby.
    SendChat {
        /// Which lobby to send to.
        id: LobbyId,
        /// What to say.
        text: String,
    },
}

/// What a general result code means: success, or which error.
pub open spec fn spec_error_from_result_code(code: u32) -> Option<LobbyErrorKind> {
    if code == 1 {
        None
    } else if code == 16 {
        Some(LobbyErrorKind::TimedOut)
    } else if code == 25 {
        Some(LobbyErrorKind::TooFast)
    } else if code == 15 {
        Some(LobbyErrorKind::AccessDenied)
    } else if code == 3 {
        Some(LobbyErrorKind::Offline)
    } else {
        Some(LobbyErrorKind::Unknown)
    }
}

/// Translate the provider's general result code (create answers, connection
/// errors).  `None` means the request succeeded.
pub fn lobby_error_from_result_code(code: u32) -> (r: Option<LobbyErrorKind>)
    ensures
        r == spec_error_from_result_code(code),
{
    match code {
        1 => None,
        16 => Some(LobbyErrorKind::TimedOut),
        25 => Some(LobbyErrorKind::TooFast),
        15 => Some(LobbyErrorKind::AccessDenied),
        3 => Some(LobbyErrorKind::Offline),
        _ => Some(LobbyErrorKind::Unknown),
    }
}

/// What a room-enter response code means: success, or which error.
pub open spec fn spec_error_from_enter_code(code: u32) -> Option<LobbyErrorKind> {
    if code == 1 {
        None
    } else if code == 2 {
        Some(LobbyErrorKind::NotFound)
    } else if code == 3 {
        Some(LobbyErrorKind::AccessDenied)
    } else if code == 4 {
        Some(LobbyErrorKind::Full)
    } else if code == 5 {
        Some(LobbyErrorKind::Unknown)
    } else if code == 6 {
        Some(LobbyErrorKind::Banned)
    } else if code == 7 {
        Some(LobbyErrorKind::TooFast)
    } else if code == 8 {
        Some(LobbyErrorKind::Banned)
    } else if code == 9 {
        Some(LobbyErrorKind::Banned)
    } else if code == 10 {
        Some(LobbyErrorKind::Blocked)
    } else if code == 11 {
        Some(LobbyErrorKind::Blocked)
    } else if code == 12 {
        Some(LobbyErrorKind::TooFast)
    } else {
        Some(LobbyErrorKind::Unknown)
    }
}

/// Translate the provider's room-enter response code (join answers).  `None`
/// means the join succeeded.  The provider's rate-limit codes, the "limited
/// account" code among them, all become `TooFast`.
pub fn lobby_error_from_enter_code(code: u32) -> (r: Option<LobbyErrorKind>)
    ensures
        r == spec_error_from_enter_code(code),
{
    match code {
        1 => None,
        2 => Some(LobbyErrorKind::NotFound),
        3 => Some(LobbyErrorKind::AccessDenied),
        4 => Some(LobbyErrorKind::Full),
        5 => Some(LobbyErrorKind::Unknown),
        6 => Some(LobbyErrorKind::Banned),
        7 => Some(LobbyErrorKind::TooFast),
        8 => Some(LobbyErrorKind::Banned),
        9 => Some(LobbyErrorKind::Banned),
        10 => Some(LobbyErrorKind::Blocked),
        11 => Some(LobbyErrorKind::Blocked),
        12 => Some(LobbyErrorKind::TooFast),
        _ => Some(LobbyErrorKind::Unknown),
    }
}

/// What a chat-entry-type code means.
pub open spec fn spec_chat_kind_from_code(code: u32) -> ChatKind {
    if code == 1 {
        ChatKind::ChatMsg
    } else if code == 2 {
        ChatKind::Typing
    } else if code == 3 {
        ChatKind::InviteGame
    } else if code == 4 {
        ChatKind::Emote
    } else if code == 6 {
        ChatKind::LeftConversation
    } else if code == 7 {
        ChatKind::Entered
    } else if code == 8 {
        ChatKind::WasKicked
    } else if code == 9 {
        ChatKind::WasBanned
    } else if code == 10 {
        ChatKind::Disconnected
    } else if code == 11 {
        ChatKind::HistoricalChat
    } else if code == 14 {
        ChatKind::LinkBlocked
    } else {
        ChatKind::Invalid
    }
}

/// Translate the provider's chat-entry-type code.  Codes this library does
/// not know become `Invalid`.
pub fn chat_kind_from_code(code: u32) -> (r: ChatKind)
    ensures
        r == spec_chat_kind_from_code(code),
{
    match code {
        1 => ChatKind::ChatMsg,
        2 => ChatKind::Typing,
        3 => ChatKind::InviteGame,
        4 => ChatKind::Emote,
        6 => ChatKind::LeftConversation,
        7 => ChatKind::Entered,
        8 => ChatKind::WasKicked,
        9 => ChatKind::WasBanned,
        10 => ChatKind::Disconnected,
        11 => ChatKind::HistoricalChat,
        14 => ChatKind::LinkBlocked,
        _ => ChatKind::Invalid,
    }
}

/// What a member-state-change code means for the roster, if anything.
pub open spec fn spec_roster_change(ev: RawRosterChange) -> Option<OnLobbyChange> {
    if ev.change_code == 1 {
        Some(OnLobbyChange::Joined(ev.target))
    } else if ev.change_code == 2 {
        Some(OnLobbyChange::Exited(ev.target))
    } else if ev.change_code == 4 {
        Some(OnLobbyChange::Exited(ev.target))
    } else if ev.change_code == 8 {
        Some(OnLobbyChange::Kicked { target: ev.target, executor: ev.executor })
    } else if ev.change_code == 16 {
        Some(OnLobbyChange::Banned { target: ev.target, executor: ev.executor })
    } else {
        Option::None
    }
}

/// Translate a member-state-change notification into a roster event.  An
/// unknown code yields `None` and the notification is dropped.
pub fn roster_change_to_event(ev: &RawRosterChange) -> (r: Option<OnLobbyChange>)
    ensures
        r == spec_roster_change(*ev),
{
    match ev.change_code {
        1 => Some(OnLobbyChange::Joined(ev.target)),
        2 => Some(OnLobbyChange::Exited(ev.target)),
        4 => Some(OnLobbyChange::Exited(ev.target)),
        8 => Some(OnLobbyChange::Kicked { target: ev.target, executor: ev.executor }),
        16 => Some(OnLobbyChange::Banned { target: ev.target, executor: ev.executor }),
        _ => None,
    }
}

/// Whether a member-state-change code reports a forced removal: a kick, a ban
/// or a connection loss, as opposed to a member leaving on purpose.
pub open spec fn spec_is_forced_removal(code: u32) -> bool {
    code == 4 || code == 8 || code == 16
}

/// Whether this member-state-change code is a forced removal.
pub fn is_forced_removal(code: u32) -> (r: bool)
    ensures
        r == spec_is_forced_removal(code),
{
    code == 4 || code == 8 || code == 16
}

} // verus!
