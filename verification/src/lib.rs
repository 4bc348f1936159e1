//! Typed message bus and lobby-session core for a peer-to-peer multiplayer
//! client.
//!
//! The crate has two halves:
//!
//! * a message bus: a registry that maps a 64-bit wire identifier to a
//!   registered message kind, a packet codec that frames that identifier in
//!   front of a serialized payload, and bounded queues that carry inbound
//!   messages to their typed consumers; and
//! * a session state machine: it serializes create/join/leave attempts on a
//!   shared lobby, reconciles raw provider notifications once per tick, and
//!   exposes a consistent snapshot of the current lobby.
//!
//! The core is synchronous and performs no I/O itself.  Provider glue pushes
//! raw events and packets into the core's bounded channels and carries out the
//! provider commands the core emits; the core owns every decision in between.

pub mod channel;
pub mod codec;
pub mod config;
pub mod ids;
pub mod lobby;
pub mod provider;
pub mod registry;
pub mod router;
pub mod session;

pub use channel::BoundedChannel;
pub use config::{GeneralConfig, SkynetConfig, SteamworksConfig};
pub use ids::{LobbyId, UserId};
pub use lobby::{
    ChatKind, CurrentLobby, IsLobbyHost, LobbyConnectError, LobbyErrorKind, LobbyState,
    LobbyVisibility, OnLobbyChange, OnLobbyExit, OnLobbyJoin, OnLobbyMessage, SessionPhase,
};
pub use provider::ProviderCommand;
pub use registry::{Message, MessageRegistry};
pub use router::PacketRouter;
pub use session::SessionCore;
