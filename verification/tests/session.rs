use skynet::ids::decode_lobby_id;
use skynet::lobby::{
    ChatKind, IsLobbyHost, LobbyErrorKind, LobbyState, LobbyVisibility, OnLobbyChange,
    SessionPhase,
};
use skynet::provider::{
    chat_kind_from_code, lobby_error_from_enter_code, lobby_error_from_result_code,
    roster_change_to_event, ProviderCommand, RawChatMessage, RawCreated, RawEntered,
    RawJoinRequest, RawRosterChange,
};
use skynet::{LobbyId, SessionCore, UserId};

fn entered_ok(lobby: LobbyId, max_members: u32, members: Vec<UserId>) -> RawEntered {
    RawEntered { lobby, response_code: 1, max_members, members }
}

/// `request_create(Anyone, 4)` while idle succeeds and the phase becomes
/// `Creating`; an immediate `request_join` is rejected and changes nothing.
#[test]
fn second_request_while_busy_is_rejected() {
    let mut s = SessionCore::new(UserId(1), 8);
    assert!(s.request_create(LobbyVisibility::Anyone, 4));
    assert_eq!(s.session_phase(), SessionPhase::Creating);
    assert_eq!(s.lobby_state(), LobbyState::Joining);

    assert!(!s.request_join(LobbyId(5)));
    assert_eq!(s.session_phase(), SessionPhase::Creating);
    assert!(!s.request_create(LobbyVisibility::InviteOnly, 2));

    // exactly one provider call was issued
    let commands = s.take_commands();
    assert_eq!(commands.len(), 1);
    assert!(matches!(
        commands[0],
        ProviderCommand::CreateLobby { vis: LobbyVisibility::Anyone, max_members: 4 }
    ));
}

/// After a successful join: in session, identifier set, not the host.
#[test]
fn successful_join_sets_session_and_not_host() {
    let me = UserId(10);
    let mut s = SessionCore::new(me, 8);
    assert!(s.request_join(LobbyId(99)));
    assert!(s.push_entered(entered_ok(LobbyId(99), 6, vec![UserId(2), me, UserId(3)])));
    s.tick(vec![UserId(2), me, UserId(3)]);

    assert_eq!(s.session_phase(), SessionPhase::InSession);
    assert_eq!(s.lobby_state(), LobbyState::InLobby);
    assert_eq!(s.is_host_state(), IsLobbyHost::False);
    let lobby = s.current_lobby().expect("a session snapshot must exist");
    assert_eq!(lobby.id, LobbyId(99));
    assert!(!lobby.is_host);
    assert_eq!(lobby.max_members, 6);
    assert_eq!(lobby.others, vec![UserId(2), UserId(3)], "the roster excludes this user");
    let joins = s.read_lobby_join();
    assert_eq!(joins.len(), 1);
    assert_eq!(joins[0].id, LobbyId(99));
}

/// After a successful create: in session and the host.
#[test]
fn successful_create_sets_host() {
    let mut s = SessionCore::new(UserId(1), 8);
    assert!(s.request_create(LobbyVisibility::FriendsOnly, 8));
    assert!(s.push_created(RawCreated { lobby: LobbyId(44), result_code: 1 }));
    s.tick(Vec::new());

    assert_eq!(s.session_phase(), SessionPhase::InSession);
    assert_eq!(s.is_host_state(), IsLobbyHost::True);
    let lobby = s.current_lobby().unwrap();
    assert_eq!(lobby.id, LobbyId(44));
    assert!(lobby.is_host);
    assert_eq!(lobby.vis, LobbyVisibility::FriendsOnly);
    assert_eq!(lobby.max_members, 8);
}

/// After `request_exit` from a session: idle, with no metadata left.
#[test]
fn exit_clears_the_session() {
    let mut s = SessionCore::new(UserId(1), 8);
    assert!(!s.request_exit(), "exit outside a session is rejected");
    assert!(s.request_join(LobbyId(7)));
    assert!(s.push_entered(entered_ok(LobbyId(7), 4, vec![UserId(2)])));
    s.tick(vec![UserId(2)]);
    assert_eq!(s.session_phase(), SessionPhase::InSession);

    assert!(s.request_exit());
    assert_eq!(s.session_phase(), SessionPhase::Idle);
    assert!(s.current_lobby().is_none());
    assert!(s.lobby_members().is_empty());
    assert!(s.encode_lobby_id().is_none());
    let exits = s.read_lobby_exit();
    assert_eq!(exits.len(), 1);
    assert_eq!(exits[0].id, LobbyId(7));
    let commands = s.take_commands();
    assert!(matches!(commands.last(), Some(ProviderCommand::LeaveLobby { id: LobbyId(7) })));
}

/// A failed create surfaces the translated error and returns to idle.
#[test]
fn failed_create_reports_and_returns_to_idle() {
    let mut s = SessionCore::new(UserId(1), 8);
    assert!(s.request_create(LobbyVisibility::Anyone, 4));
    assert!(s.push_created(RawCreated { lobby: LobbyId(0), result_code: 16 }));
    s.tick(Vec::new());
    assert_eq!(s.session_phase(), SessionPhase::Idle);
    let errors = s.read_lobby_connect_errors();
    assert_eq!(errors.len(), 1);
    assert_eq!(errors[0].kind, LobbyErrorKind::TimedOut);
}

/// A kick aimed at this user, delivered while in a session, emits the
/// "kicked by" event and the next tick returns the phase to idle.
#[test]
fn kicked_by_executor_returns_to_idle() {
    let me = UserId(5);
    let q = UserId(66);
    let mut s = SessionCore::new(me, 8);
    assert!(s.request_join(LobbyId(3)));
    assert!(s.push_entered(entered_ok(LobbyId(3), 4, vec![q, me])));
    s.tick(vec![q, me]);
    assert_eq!(s.session_phase(), SessionPhase::InSession);

    assert!(s.push_roster_change(RawRosterChange { target: me, executor: q, change_code: 8 }));
    s.tick(Vec::new());
    assert_eq!(s.session_phase(), SessionPhase::Idle);
    assert!(s.current_lobby().is_none());
    let changes = s.read_lobby_change();
    assert_eq!(changes.len(), 1);
    assert!(matches!(
        changes[0],
        OnLobbyChange::Kicked { target, executor } if target == me && executor == q
    ));
    let exits = s.read_lobby_exit();
    assert_eq!(exits.len(), 1);
    assert_eq!(exits[0].id, LobbyId(3));
}

/// A kick aimed at somebody else leaves this user's session alone.
#[test]
fn kick_of_another_member_is_only_reported() {
    let me = UserId(5);
    let mut s = SessionCore::new(me, 8);
    assert!(s.request_join(LobbyId(3)));
    assert!(s.push_entered(entered_ok(LobbyId(3), 4, vec![UserId(8), me])));
    s.tick(vec![UserId(8), me]);
    assert!(s.push_roster_change(RawRosterChange {
        target: UserId(8),
        executor: UserId(9),
        change_code: 8,
    }));
    s.tick(vec![me]);
    assert_eq!(s.session_phase(), SessionPhase::InSession);
    assert_eq!(s.read_lobby_change().len(), 1);
    assert_eq!(s.read_lobby_exit().len(), 0);
}

/// A UI join request while in a session leaves the old lobby first, then
/// turns into a fresh join attempt.
#[test]
fn forced_join_request_reenters() {
    let mut s = SessionCore::new(UserId(1), 8);
    assert!(s.request_join(LobbyId(3)));
    assert!(s.push_entered(entered_ok(LobbyId(3), 4, Vec::new())));
    s.tick(Vec::new());
    s.take_commands();

    assert!(s.push_join_request(RawJoinRequest { lobby: LobbyId(9) }));
    s.tick(Vec::new());
    assert_eq!(s.session_phase(), SessionPhase::Joining);
    let commands = s.take_commands();
    assert_eq!(commands.len(), 2);
    assert!(matches!(commands[0], ProviderCommand::LeaveLobby { id: LobbyId(3) }));
    assert!(matches!(commands[1], ProviderCommand::JoinLobby { id: LobbyId(9) }));
    let exits = s.read_lobby_exit();
    assert_eq!(exits.len(), 1);
    assert_eq!(exits[0].id, LobbyId(3));
}

/// The tick's full roster query is the ground truth for the member list.
#[test]
fn tick_roster_refresh_wins() {
    let me = UserId(4);
    let mut s = SessionCore::new(me, 8);
    assert!(s.request_join(LobbyId(2)));
    assert!(s.push_entered(entered_ok(LobbyId(2), 4, vec![me])));
    s.tick(vec![me, UserId(30), UserId(31)]);
    assert_eq!(s.lobby_members(), vec![UserId(30), UserId(31)]);
}

/// A chat entry comes through with its purpose translated.
#[test]
fn chat_message_is_delivered() {
    let mut s = SessionCore::new(UserId(1), 8);
    assert!(s.push_chat_message(RawChatMessage {
        user: UserId(2),
        kind_code: 1,
        content: "hi there".to_string(),
    }));
    s.tick(Vec::new());
    let msgs = s.read_lobby_msg();
    assert_eq!(msgs.len(), 1);
    assert_eq!(msgs[0].content, "hi there");
    assert_eq!(msgs[0].user, UserId(2));
    assert_eq!(msgs[0].kind, ChatKind::ChatMsg);
}

/// Channel overflow: with capacity 4, the fifth notification in one tick
/// window is dropped and the first four are applied in order.
#[test]
fn event_channel_overflow_drops_fifth() {
    let mut s = SessionCore::new(UserId(1), 4);
    for i in 0..4u64 {
        assert!(s.push_chat_message(RawChatMessage {
            user: UserId(100 + i),
            kind_code: 1,
            content: format!("m{i}"),
        }));
    }
    assert!(!s.push_chat_message(RawChatMessage {
        user: UserId(200),
        kind_code: 1,
        content: "dropped".to_string(),
    }));
    s.tick(Vec::new());
    let msgs = s.read_lobby_msg();
    assert_eq!(msgs.len(), 4);
    for (i, m) in msgs.iter().enumerate() {
        assert_eq!(m.user, UserId(100 + i as u64));
        assert_eq!(m.content, format!("m{i}"));
    }
}

/// Invite codes: encoding the current lobby's identifier and decoding it
/// yields the identifier again, and the code is not the raw number's digits.
#[test]
fn invite_code_round_trips() {
    let mut s = SessionCore::new(UserId(1), 8);
    assert!(s.request_join(LobbyId(109775241787136418)));
    assert!(s.push_entered(entered_ok(LobbyId(109775241787136418), 4, Vec::new())));
    s.tick(Vec::new());
    let code = s.encode_lobby_id().expect("in a session there is a code");
    assert_eq!(code, base62::encode(109775241787136418u64));
    assert_ne!(code, "109775241787136418");
    assert_eq!(decode_lobby_id(&code), LobbyId(109775241787136418));
    let snapshot = s.current_lobby().unwrap();
    assert_eq!(snapshot.invite_code, code);
}

#[test]
fn unreadable_invite_code_decodes_to_zero() {
    assert_eq!(decode_lobby_id("!!!"), LobbyId(0));
    assert_eq!(decode_lobby_id(""), LobbyId(0));
}

/// Every error variant comes from some provider code.
#[test]
fn error_code_translation_tables() {
    assert_eq!(lobby_error_from_result_code(1), None);
    assert_eq!(lobby_error_from_result_code(16), Some(LobbyErrorKind::TimedOut));
    assert_eq!(lobby_error_from_result_code(25), Some(LobbyErrorKind::TooFast));
    assert_eq!(lobby_error_from_result_code(15), Some(LobbyErrorKind::AccessDenied));
    assert_eq!(lobby_error_from_result_code(3), Some(LobbyErrorKind::Offline));
    assert_eq!(lobby_error_from_result_code(999), Some(LobbyErrorKind::Unknown));

    assert_eq!(lobby_error_from_enter_code(1), None);
    assert_eq!(lobby_error_from_enter_code(2), Some(LobbyErrorKind::NotFound));
    assert_eq!(lobby_error_from_enter_code(3), Some(LobbyErrorKind::AccessDenied));
    assert_eq!(lobby_error_from_enter_code(4), Some(LobbyErrorKind::Full));
    assert_eq!(lobby_error_from_enter_code(5), Some(LobbyErrorKind::Unknown));
    assert_eq!(lobby_error_from_enter_code(6), Some(LobbyErrorKind::Banned));
    assert_eq!(lobby_error_from_enter_code(7), Some(LobbyErrorKind::TooFast));
    assert_eq!(lobby_error_from_enter_code(8), Some(LobbyErrorKind::Banned));
    assert_eq!(lobby_error_from_enter_code(9), Some(LobbyErrorKind::Banned));
    assert_eq!(lobby_error_from_enter_code(10), Some(LobbyErrorKind::Blocked));
    assert_eq!(lobby_error_from_enter_code(11), Some(LobbyErrorKind::Blocked));
    assert_eq!(lobby_error_from_enter_code(12), Some(LobbyErrorKind::TooFast));
}

/// A failed join surfaces each enter error through the bridge.
#[test]
fn failed_join_reports_error_kind() {
    let mut s = SessionCore::new(UserId(1), 8);
    assert!(s.request_join(LobbyId(7)));
    assert!(s.push_entered(RawEntered {
        lobby: LobbyId(7),
        response_code: 4,
        max_members: 0,
        members: Vec::new(),
    }));
    s.tick(Vec::new());
    assert_eq!(s.session_phase(), SessionPhase::Idle);
    let errors = s.read_lobby_connect_errors();
    assert_eq!(errors.len(), 1);
    assert_eq!(errors[0].id, LobbyId(7));
    assert_eq!(errors[0].kind, LobbyErrorKind::Full);
}

#[test]
fn error_descriptions() {
    assert_eq!(LobbyErrorKind::TimedOut.describe(), "Timed Out");
    assert_eq!(LobbyErrorKind::TooFast.describe(), "Rate Limit Exceeded");
    assert_eq!(LobbyErrorKind::AccessDenied.describe(), "Access Denied");
    assert_eq!(LobbyErrorKind::InviteRequired.describe(), "Invitation Required");
    assert_eq!(LobbyErrorKind::Offline.describe(), "Offline");
    assert_eq!(LobbyErrorKind::NotFound.describe(), "Not Found");
    assert_eq!(LobbyErrorKind::Full.describe(), "Full");
    assert_eq!(LobbyErrorKind::Banned.describe(), "Banned");
    assert_eq!(LobbyErrorKind::Blocked.describe(), "Blocking or Blocked by User");
    assert_eq!(LobbyErrorKind::Unknown.describe(), "Unknown Error");
}

#[test]
fn chat_kind_translation_table() {
    assert_eq!(chat_kind_from_code(0), ChatKind::Invalid);
    assert_eq!(chat_kind_from_code(1), ChatKind::ChatMsg);
    assert_eq!(chat_kind_from_code(2), ChatKind::Typing);
    assert_eq!(chat_kind_from_code(3), ChatKind::InviteGame);
    assert_eq!(chat_kind_from_code(4), ChatKind::Emote);
    assert_eq!(chat_kind_from_code(6), ChatKind::LeftConversation);
    assert_eq!(chat_kind_from_code(7), ChatKind::Entered);
    assert_eq!(chat_kind_from_code(8), ChatKind::WasKicked);
    assert_eq!(chat_kind_from_code(9), ChatKind::WasBanned);
    assert_eq!(chat_kind_from_code(10), ChatKind::Disconnected);
    assert_eq!(chat_kind_from_code(11), ChatKind::HistoricalChat);
    assert_eq!(chat_kind_from_code(14), ChatKind::LinkBlocked);
    assert_eq!(chat_kind_from_code(5), ChatKind::Invalid);
}

#[test]
fn roster_change_translation_table() {
    let a = UserId(1);
    let b = UserId(2);
    let ev = |code| RawRosterChange { target: a, executor: b, change_code: code };
    assert_eq!(roster_change_to_event(&ev(1)), Some(OnLobbyChange::Joined(a)));
    assert_eq!(roster_change_to_event(&ev(2)), Some(OnLobbyChange::Exited(a)));
    assert_eq!(roster_change_to_event(&ev(4)), Some(OnLobbyChange::Exited(a)));
    assert_eq!(
        roster_change_to_event(&ev(8)),
        Some(OnLobbyChange::Kicked { target: a, executor: b })
    );
    assert_eq!(
        roster_change_to_event(&ev(16)),
        Some(OnLobbyChange::Banned { target: a, executor: b })
    );
    assert_eq!(roster_change_to_event(&ev(32)), None);
}

#[test]
fn config_defaults() {
    let config = skynet::SkynetConfig::default();
    assert_eq!(config.general.channel_size, 64);
    assert_eq!(config.steamworks.app_id, 480);
}

/// Chat sending is a provider command, and only while in a session.
#[test]
fn send_lobby_message_only_in_session() {
    let mut s = SessionCore::new(UserId(1), 8);
    assert!(!s.send_lobby_message("too early".to_string()));
    assert!(s.request_join(LobbyId(7)));
    assert!(s.push_entered(entered_ok(LobbyId(7), 4, Vec::new())));
    s.tick(Vec::new());
    s.take_commands();
    assert!(s.send_lobby_message("hello".to_string()));
    let commands = s.take_commands();
    assert_eq!(commands.len(), 1);
    assert!(matches!(
        &commands[0],
        ProviderCommand::SendChat { id: LobbyId(7), text } if text == "hello"
    ));
    assert_eq!(s.user_id(), UserId(1));
}
