//! The lobby data model: lifecycle states, session metadata, domain events
//! and the error taxonomy surfaced on failed create/join attempts.

use vstd::prelude::*;

use crate::ids::{LobbyId, UserId};

verus! {

/// The coarse lobby lifecycle the application observes.
#[derive(Clone, Copy, Eq, PartialEq, Structural, Debug, Hash)]
pub enum LobbyState {
    /// The user is actively in a lobby.
    InLobby,
    /// The user is not in a lobby and is not attempting to create or join one.
    Idle,
    /// The user is attempting to join or create a lobby.
    Joining,
}

impl Default for LobbyState {
    /// Not in a lobby, not attempting to enter one.
    fn default() -> (r: Self)
        ensures
            r == LobbyState::Idle,
    {
        LobbyState::Idle
    }
}

/// Whether this user is the host of the lobby they are in.
#[derive(Clone, Copy, Eq, PartialEq, Structural, Debug, Hash)]
pub enum IsLobbyHost {
    True,
    False,
}

impl Default for IsLobbyHost {
    /// Not the host.
    fn default() -> (r: Self)
        ensures
            r == IsLobbyHost::False,
    {
        IsLobbyHost::False
    }
}

/// Who may join a lobby.
#[derive(Clone, Copy, Eq, PartialEq, Structural, Debug, Hash)]
pub enum LobbyVisibility {
    /// Anyone may join.
    Anyone,
    /// Only friends of the host may join.
    FriendsOnly,
    /// Only invited users may join.
    InviteOnly,
}

/// The session's fine-grained lifecycle phase.
#[derive(Clone, Copy, Eq, PartialEq, Structural, Debug, Hash)]
pub enum SessionPhase {
    /// No session, no attempt outstanding.
    Idle,
    /// A create request is outstanding.
    Creating,
    /// A join request is outstanding.
    Joining,
    /// The user is in a session.
    InSession,
}

/// Metadata of the lobby the user is in; meaningful only while in a session,
/// except that the identifier also names the target while joining.
#[derive(Clone, Debug)]
pub struct CurrentLobby {
    /// The unique identifier of this lobby.
    pub id: LobbyId,
    /// The join policy of the lobby.
    pub vis: LobbyVisibility,
    /// Whether the user is the host.
    pub is_host: bool,
    /// The maximum number of members allowed in the lobby.
    pub max_members: u32,
    /// The invite code others can use to join: the identifier, base62 encoded.
    pub invite_code: String,
    /// The other members of the lobby, excluding this user.
    pub others: Vec<UserId>,
}

/// Whether `c` carries no session metadata.
pub open spec fn lobby_cleared(c: CurrentLobby) -> bool {
    &&& c.id == LobbyId(0)
    &&& c.vis == LobbyVisibility::Anyone
    &&& !c.is_host
    &&& c.max_members == 4
    &&& c.invite_code@ == Seq::<char>::empty()
    &&& c.others@ == Seq::<UserId>::empty()
}

impl Default for CurrentLobby {
    /// Metadata of no lobby at all.
    fn default() -> (r: Self)
        ensures
            lobby_cleared(r),
    {
        CurrentLobby {
            id: LobbyId(0),
            vis: LobbyVisibility::Anyone,
            is_host: false,
            max_members: 4,
            invite_code: String::new(),
            others: Vec::new(),
        }
    }
}

/// The user exited a lobby.
#[derive(Clone, Copy, Eq, PartialEq, Structural, Debug)]
pub struct OnLobbyExit {
    /// Which lobby was left.
    pub id: LobbyId,
}

/// The user entered a lobby.
#[derive(Clone, Copy, Eq, PartialEq, Structural, Debug)]
pub struct OnLobbyJoin {
    /// Which lobby was entered.
    pub id: LobbyId,
}

/// The purpose of a lobby chat entry.
#[derive(Clone, Copy, Eq, PartialEq, Structural, Debug, Hash)]
pub enum ChatKind {
    Invalid,
    ChatMsg,
    Typing,
    InviteGame,
    Emote,
    LeftConversation,
    Entered,
    WasKicked,
    WasBanned,
    Disconnected,
    HistoricalChat,
    LinkBlocked,
}

/// A chat message arrived from the current lobby.
#[derive(Clone, Debug)]
pub struct OnLobbyMessage {
    /// The content of the message.
    pub content: String,
    /// The user who sent the message.
    pub user: UserId,
    /// The purpose of the message.
    pub kind: ChatKind,
}

/// The member list of the current lobby changed.
#[derive(Clone, Copy, Eq, PartialEq, Structural, Debug)]
pub enum OnLobbyChange {
    /// A user entered the lobby.
    Joined(UserId),
    /// A user exited the lobby.
    Exited(UserId),
    /// A user was kicked from the lobby.
    Kicked {
        /// The user that was kicked.
        target: UserId,
        /// The user that executed the kick.
        executor: UserId,
    },
    /// A user was banned from the lobby.
    Banned {
        /// The user that was banned.
        target: UserId,
        /// The user that executed the ban.
        executor: UserId,
    },
}

/// A create or join attempt failed.
#[derive(Clone, Copy, Eq, PartialEq, Structural, Debug)]
pub struct LobbyConnectError {
    /// The lobby the attempt was aimed at.
    pub id: LobbyId,
    /// Why the attempt failed.
    pub kind: LobbyErrorKind,
}

/// Why a create or join attempt failed.  Reported to the caller, never
/// retried automatically.
#[derive(Clone, Copy, Eq, PartialEq, Structural, Debug)]
pub enum LobbyErrorKind {
    /// The request timed out.
    TimedOut,
    /// Too many create/join requests in a short time.
    TooFast,
    /// Not allowed to join this lobby, or not allowed to create lobbies.
    AccessDenied,
    /// An invite is required to join the lobby.
    InviteRequired,
    /// No connection to the provider.
    Offline,
    /// The lobby was not found.
    NotFound,
    /// The lobby was full.
    Full,
    /// The user is banned from this lobby.
    Banned,
    /// The user blocks, or is blocked by, a member of the lobby.
    Blocked,
    /// The provider returned a code this library does not know.
    Unknown,
}

impl LobbyErrorKind {
    /// A short human-readable account of the error.
    pub fn describe(&self) -> (r: String)
        ensures
            *self == LobbyErrorKind::TimedOut ==> r@ == "Timed Out"@,
            *self == LobbyErrorKind::TooFast ==> r@ == "Rate Limit Exceeded"@,
            *self == LobbyErrorKind::AccessDenied ==> r@ == "Access Denied"@,
            *self == LobbyErrorKind::InviteRequired ==> r@ == "Invitation Required"@,
            *self == LobbyErrorKind::Offline ==> r@ == "Offline"@,
            *self == LobbyErrorKind::NotFound ==> r@ == "Not Found"@,
            *self == LobbyErrorKind::Full ==> r@ == "Full"@,
            *self == LobbyErrorKind::Banned ==> r@ == "Banned"@,
            *self == LobbyErrorKind::Blocked ==> r@ == "Blocking or Blocked by User"@,
            *self == LobbyErrorKind::Unknown ==> r@ == "Unknown Error"@,
    {
        let text: &str = match *self {
            LobbyErrorKind::TimedOut => "Timed Out",
            LobbyErrorKind::TooFast => "Rate Limit Exceeded",
            LobbyErrorKind::AccessDenied => "Access Denied",
            LobbyErrorKind::InviteRequired => "Invitation Required",
            LobbyErrorKind::Offline => "Offline",
            LobbyErrorKind::NotFound => "Not Found",
            LobbyErrorKind::Full => "Full",
            LobbyErrorKind::Banned => "Banned",
            LobbyErrorKind::Blocked => "Blocking or Blocked by User",
            LobbyErrorKind::Unknown => "Unknown Error",
        };
        String::from_str(text)
    }
}

} // verus!
