use chat_app::api::DbError;
use chat_app::chat::{
    heartbeat_timed_out, message_membership_checked, message_recipients, message_saved, message_to_broadcast,
    ChatServer, ClientMessage, ClientMessageJson, ConnectionActor, DropReason, Frame, FrameAction, SessionOutcome,
};

#[test]
fn sessions_add_and_remove() {
    let mut server: ChatServer<&str> = ChatServer::new();
    assert!(server.add_session("conn-1", 1, Ok(Some("ann".to_string()))) == SessionOutcome::Added);
    assert!(server.add_session("conn-2", 2, Ok(None)) == SessionOutcome::UnknownUser);
    assert!(server.add_session("conn-3", 3, Err(DbError)) == SessionOutcome::LookupFailed);
    assert!(server.is_online(1));
    assert!(!server.is_online(2));
    assert!(!server.is_online(3));
    assert_eq!(server.session(1).unwrap().addr, "conn-1");
    assert_eq!(server.user_status(1).unwrap(), "ann");
    assert!(server.user_status(2).is_none());
    server.remove_session(1);
    assert!(!server.is_online(1));
    server.remove_session(1);
    assert!(!server.is_online(1));
}

#[test]
fn newer_session_replaces_older() {
    let mut server: ChatServer<u32> = ChatServer::new();
    server.add_session(10, 1, Ok(Some("ann".to_string())));
    server.add_session(11, 1, Ok(Some("ann".to_string())));
    assert_eq!(server.session(1).unwrap().addr, 11);
}

#[test]
fn delivered_to_online_members_only() {
    let mut server: ChatServer<u32> = ChatServer::new();
    server.add_session(10, 1, Ok(Some("ann".to_string())));
    server.add_session(30, 3, Ok(Some("cat".to_string())));
    server.add_session(40, 4, Ok(Some("dan".to_string())));
    let r = server.recipients(&vec![1, 2, 3]);
    assert_eq!(r, vec![1, 3]);
    assert_eq!(message_recipients(&server, Ok(vec![4, 5])).ok().unwrap(), vec![4]);
    assert!(message_recipients(&server, Err(DbError)) == Err(DropReason::MembersUnavailable));
}

#[test]
fn message_handling_steps() {
    assert!(message_membership_checked(Ok(true)).is_ok());
    assert!(message_membership_checked(Ok(false)) == Err(DropReason::NotMember));
    assert!(message_membership_checked(Err(DbError)) == Err(DropReason::NotMember));
    assert!(message_saved(Ok((12, 1734206817))) == Ok((12, 1734206817)));
    assert!(message_saved(Err(DbError)) == Err(DropReason::SaveFailed));
    let m = ClientMessage { user_id: 2, group_id: 1, content: "hello".to_string() };
    let b = message_to_broadcast(m, 12, 99, Ok("bob".to_string())).ok().unwrap();
    assert_eq!((b.msg_id, b.sender_id, b.group_id, b.created_at), (12, 2, 1, 99));
    assert_eq!(b.content, "hello");
    assert_eq!(b.sender_name, "bob");
    let m = ClientMessage { user_id: 2, group_id: 1, content: "hello".to_string() };
    assert!(matches!(message_to_broadcast(m, 12, 99, Err(DbError)), Err(DropReason::SenderUnknown)));
}

#[test]
fn frames_of_a_connection() {
    let c = ConnectionActor::new(8);
    match c.handle_frame(Frame::Text(
        "{\"group_id\":1,\"content\":\"hi\"}".to_string(),
        Some(ClientMessageJson { group_id: 1, content: "hi".to_string() }),
    )) {
        FrameAction::Forward(m) => {
            assert_eq!((m.user_id, m.group_id), (8, 1));
            assert_eq!(m.content, "hi");
        }
        _ => panic!("expected a forwarded message"),
    }
    match c.handle_frame(Frame::Text("plain".to_string(), None)) {
        FrameAction::Echo(t) => assert_eq!(t, "RawText: plain"),
        _ => panic!("expected the text written back"),
    }
    assert!(matches!(c.handle_frame(Frame::Text("{disconnect}".to_string(), None)), FrameAction::Stop));
    match c.handle_frame(Frame::Ping(vec![1, 2, 3])) {
        FrameAction::Pong(p) => assert_eq!(p, vec![1, 2, 3]),
        _ => panic!("expected a pong"),
    }
    assert!(matches!(c.handle_frame(Frame::Other), FrameAction::Stop));
}

#[test]
fn heartbeat_timeout() {
    assert!(!heartbeat_timed_out(10_000_000_000));
    assert!(heartbeat_timed_out(10_000_000_001));
    assert!(!heartbeat_timed_out(0));
}
