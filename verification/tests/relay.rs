//! The pub/sub core end to end: handshake, subscription commands, the
//! broadcast bus, the lag policy, and the full two-client scenario.

use trcd::bus::{bus_poll, BusEvent};
use trcd::filter::UserActiveChannel;
use trcd::server::Server;
use trcd::session::{
    Frame, HandshakeAction, InboundAction, InboundEvent, OutboundAction, Session, SessionPhase,
};
use trcd::socket_server::{AppState, ChannelMessage};
use trcd::user::{User, UserMode, UserPermissions};

fn sample_user(name: &str, handle: &str) -> User {
    User {
        user_type: UserMode::User,
        permission_level: UserPermissions::User,
        username: name.to_string(),
        handle: handle.to_string(),
        provider_site: None,
        banned: false,
    }
}

/// Brings a session to the active phase, authenticated as `user`.
fn active_session(user: User) -> Session {
    let mut session = Session::new();
    session.on_upgrade();
    let first = InboundEvent::Received(Frame::Text("a signed token".to_string()));
    let action = session.on_first_frame(&first, Some(user));
    assert!(matches!(action, HandshakeAction::Accept(_)));
    assert_eq!(session.phase, SessionPhase::Active);
    session
}

/// Sends the subscription command `cmd` to an active session and checks the
/// acknowledgement.
fn send_command(session: &mut Session, cmd: &str) {
    let action = session.on_frame(InboundEvent::Received(Frame::Text(cmd.to_string())));
    match action {
        InboundAction::Reply(text) => {
            assert!(text.contains("successfully changed channel"), "got: {}", text);
        }
        other => panic!("expected a reply, got {:?}", other),
    }
}

#[test]
fn handshake_accepts_valid_token_frame() {
    let mut session = Session::new();
    assert_eq!(session.phase, SessionPhase::Connecting);
    session.on_upgrade();
    assert_eq!(session.phase, SessionPhase::Authenticating);
    let first = InboundEvent::Received(Frame::Text("token".to_string()));
    assert_eq!(
        first.first_frame_token().map(|t| t.as_str()),
        Some("token")
    );
    let action = session.on_first_frame(&first, Some(sample_user("a", "a")));
    match action {
        HandshakeAction::Accept(welcome) => {
            assert_eq!(welcome, "{\"error\": false, \"value\": \"welcome\"}");
        }
        other => panic!("expected acceptance, got {:?}", other),
    }
    assert_eq!(session.phase, SessionPhase::Active);
    assert!(matches!(session.filter, UserActiveChannel::NoChannel));
}

#[test]
fn handshake_rejects_missing_frame() {
    // A connection that sends no first frame never becomes active and never
    // subscribes to the bus.
    let state = AppState::new();
    let mut session = Session::new();
    session.on_upgrade();
    let first = InboundEvent::StreamEnd;
    assert!(first.first_frame_token().is_none());
    let action = session.on_first_frame(&first, None);
    match action {
        HandshakeAction::Reject(err) => {
            assert_eq!(err, "{\"error\":true,\"value\":\"invalid token\"}");
        }
        other => panic!("expected rejection, got {:?}", other),
    }
    assert_eq!(session.phase, SessionPhase::Closed);
    assert_eq!(state.tx.raw.receiver_count(), 0);
}

#[test]
fn handshake_rejects_non_text_frame() {
    let mut session = Session::new();
    session.on_upgrade();
    let first = InboundEvent::Received(Frame::Binary(vec![1, 2, 3]));
    assert!(first.first_frame_token().is_none());
    let action = session.on_first_frame(&first, None);
    assert!(matches!(action, HandshakeAction::Reject(_)));
    assert_eq!(session.phase, SessionPhase::Closed);
}

#[test]
fn handshake_rejects_garbage_token() {
    // The identity gate rejects the payload, so its verdict is None.
    let mut session = Session::new();
    session.on_upgrade();
    let first = InboundEvent::Received(Frame::Text("not a valid token".to_string()));
    let action = session.on_first_frame(&first, None);
    assert!(matches!(action, HandshakeAction::Reject(_)));
    assert_eq!(session.phase, SessionPhase::Closed);
}

#[test]
fn round_trip_all_filter_delivers_one_frame() {
    // Publishing one envelope to a bus with one subscriber whose filter is
    // All yields exactly one delivered frame with the same content and
    // sender.
    let mut state = AppState::new();
    let mut rx = state.subscribe();
    let sender = sample_user("dummy test user", "test_user");
    let mut session = active_session(sample_user("reader", "reader"));
    send_command(&mut session, "ALL");

    let published = Server::new_message(
        &mut state.tx,
        Some(sender),
        "general".to_string(),
        "hi".to_string(),
    );
    assert!(published.is_ok());

    let event = bus_poll(&mut rx).expect("one envelope must be pending");
    let action = match event {
        BusEvent::Message(_) => session.on_bus_event(event),
        other => panic!("expected an envelope, got {:?}", other),
    };
    match action {
        OutboundAction::Forward(frame) => {
            assert_eq!(
                frame,
                "{\"message_type\":\"MESSAGE\",\"content\":\"hi\",\"sender\":{\"user_type\":\"User\",\"permission_level\":\"User\",\"username\":\"dummy test user\",\"handle\":\"test_user\",\"provider_site\":null,\"banned\":false}}"
            );
        }
        other => panic!("expected a forwarded frame, got {:?}", other),
    }
    // Exactly one: nothing else is pending.
    assert!(bus_poll(&mut rx).is_none());
}

#[test]
fn filter_change_is_immediate_and_non_retroactive() {
    // After switching to Named("x"), a publish to "y" is not delivered and a
    // later publish to "x" is, and the receive order preserves the publish
    // order of the two.
    let mut state = AppState::new();
    let mut rx = state.subscribe();
    let mut session = active_session(sample_user("reader", "reader"));
    send_command(&mut session, "x");
    assert!(matches!(&session.filter, UserActiveChannel::Named(c) if c == "x"));

    let writer = sample_user("writer", "writer");
    Server::new_message(&mut state.tx, Some(writer.clone()), "y".to_string(), "first".to_string())
        .unwrap();
    Server::new_message(&mut state.tx, Some(writer), "x".to_string(), "second".to_string()).unwrap();

    // The envelopes arrive in publish order; the first is discarded, the
    // second forwarded.
    let e1 = bus_poll(&mut rx).expect("first envelope");
    match &e1 {
        BusEvent::Message(m) => assert_eq!(m.channel, "y"),
        other => panic!("expected an envelope, got {:?}", other),
    }
    assert!(matches!(session.on_bus_event(e1), OutboundAction::Ignore));

    let e2 = bus_poll(&mut rx).expect("second envelope");
    match &e2 {
        BusEvent::Message(m) => assert_eq!(m.channel, "x"),
        other => panic!("expected an envelope, got {:?}", other),
    }
    match session.on_bus_event(e2) {
        OutboundAction::Forward(frame) => assert!(frame.contains("\"content\":\"second\"")),
        other => panic!("expected a forwarded frame, got {:?}", other),
    }
}

#[test]
fn lag_policy_reports_missed_count_and_closes_session() {
    // A subscriber that sleeps through more publishes than the bus capacity
    // is told how many envelopes it missed, and the session closes on that
    // signal instead of silently skipping.
    let mut state = AppState::new();
    let mut rx = state.subscribe();
    let mut session = active_session(sample_user("slow", "slow"));
    send_command(&mut session, "ALL");

    let writer = sample_user("writer", "writer");
    for i in 0..1030u32 {
        Server::new_message(
            &mut state.tx,
            Some(writer.clone()),
            "general".to_string(),
            format!("message {}", i),
        )
        .unwrap();
    }

    let event = bus_poll(&mut rx).expect("the lag must be reported");
    match &event {
        BusEvent::Lagged(missed) => assert_eq!(*missed, 6),
        other => panic!("expected a lag report, got {:?}", other),
    }
    let action = session.on_bus_event(event);
    assert!(matches!(action, OutboundAction::Disconnect));
    assert_eq!(session.phase, SessionPhase::Closing);
    session.on_teardown();
    assert_eq!(session.phase, SessionPhase::Closed);
}

#[test]
fn oversize_command_is_refused_and_filter_unchanged() {
    let mut session = active_session(sample_user("reader", "reader"));
    send_command(&mut session, "keep");
    assert!(matches!(&session.filter, UserActiveChannel::Named(c) if c == "keep"));

    let oversize = "a".repeat(121);
    let action = session.on_frame(InboundEvent::Received(Frame::Text(oversize)));
    match action {
        InboundAction::Reply(text) => {
            assert_eq!(
                text,
                "{\"content\":\"Channel name too long in bytes. Max is 120\",\"error\":true,\"value\":null}"
            );
        }
        other => panic!("expected the length-error reply, got {:?}", other),
    }
    assert!(matches!(&session.filter, UserActiveChannel::Named(c) if c == "keep"));
    assert_eq!(session.phase, SessionPhase::Active);
}

#[test]
fn boundary_command_at_budget_is_accepted() {
    let mut session = active_session(sample_user("reader", "reader"));
    let exactly_at_budget = "b".repeat(120);
    let action = session.on_frame(InboundEvent::Received(Frame::Text(exactly_at_budget.clone())));
    assert!(matches!(action, InboundAction::Reply(_)));
    assert!(matches!(&session.filter, UserActiveChannel::Named(c) if *c == exactly_at_budget));
}

#[test]
fn ping_is_answered_with_same_payload() {
    let mut session = active_session(sample_user("reader", "reader"));
    let action = session.on_frame(InboundEvent::Received(Frame::Ping(vec![9, 8, 7])));
    match action {
        InboundAction::Pong(payload) => assert_eq!(payload, vec![9, 8, 7]),
        other => panic!("expected a pong, got {:?}", other),
    }
    assert_eq!(session.phase, SessionPhase::Active);
}

#[test]
fn close_frame_stops_inbound_half() {
    let mut session = active_session(sample_user("reader", "reader"));
    let action = session.on_frame(InboundEvent::Received(Frame::Close));
    assert!(matches!(action, InboundAction::Stop));
    assert_eq!(session.phase, SessionPhase::Closing);
}

#[test]
fn junk_frames_close_connection_after_threshold() {
    let mut session = active_session(sample_user("reader", "reader"));
    for _ in 0..10 {
        let action = session.on_frame(InboundEvent::Received(Frame::Binary(vec![0])));
        assert!(matches!(action, InboundAction::Proceed));
        assert_eq!(session.phase, SessionPhase::Active);
    }
    let action = session.on_frame(InboundEvent::Received(Frame::Binary(vec![0])));
    assert!(matches!(action, InboundAction::CloseUnsupported));
    assert_eq!(session.phase, SessionPhase::Closing);
}

#[test]
fn bus_closed_disconnects_session() {
    let state = AppState::new();
    let mut rx = state.subscribe();
    let mut session = active_session(sample_user("reader", "reader"));
    drop(state);
    let event = bus_poll(&mut rx).expect("the closed bus must be reported");
    assert!(matches!(event, BusEvent::Closed));
    let action = session.on_bus_event(event);
    assert!(matches!(action, OutboundAction::Disconnect));
    assert_eq!(session.phase, SessionPhase::Closing);
}

#[test]
fn end_to_end_two_clients_and_ingress() {
    // Client A subscribes to "general", client B to everything; an ingress
    // submission to "general" reaches both, a second one to "random"
    // reaches only B.
    let mut state = AppState::new();

    let mut session_a = active_session(sample_user("a", "a"));
    let mut rx_a = state.subscribe();
    send_command(&mut session_a, "general");

    let mut session_b = active_session(sample_user("b", "b"));
    let mut rx_b = state.subscribe();
    send_command(&mut session_b, "ALL");

    let publisher = sample_user("publisher", "publisher");
    Server::new_message(
        &mut state.tx,
        Some(publisher.clone()),
        "general".to_string(),
        "hello".to_string(),
    )
    .unwrap();

    let ev_a = bus_poll(&mut rx_a).expect("A's envelope");
    match session_a.on_bus_event(ev_a) {
        OutboundAction::Forward(frame) => assert!(frame.contains("\"content\":\"hello\"")),
        other => panic!("A must receive the general message, got {:?}", other),
    }
    let ev_b = bus_poll(&mut rx_b).expect("B's envelope");
    match session_b.on_bus_event(ev_b) {
        OutboundAction::Forward(frame) => assert!(frame.contains("\"content\":\"hello\"")),
        other => panic!("B must receive the general message, got {:?}", other),
    }

    Server::new_message(
        &mut state.tx,
        Some(publisher),
        "random".to_string(),
        "side note".to_string(),
    )
    .unwrap();

    let ev_a2 = bus_poll(&mut rx_a).expect("A's second envelope");
    assert!(matches!(session_a.on_bus_event(ev_a2), OutboundAction::Ignore));
    let ev_b2 = bus_poll(&mut rx_b).expect("B's second envelope");
    match session_b.on_bus_event(ev_b2) {
        OutboundAction::Forward(frame) => assert!(frame.contains("\"content\":\"side note\"")),
        other => panic!("only B receives the random message, got {:?}", other),
    }
}

#[test]
fn forward_batch_keeps_publish_order_of_matching_envelopes() {
    let writer = sample_user("w", "w");
    let msgs = vec![
        ChannelMessage {
            channel: "x".to_string(),
            content: "one".to_string(),
            sender: writer.clone(),
        },
        ChannelMessage {
            channel: "y".to_string(),
            content: "two".to_string(),
            sender: writer.clone(),
        },
        ChannelMessage {
            channel: "x".to_string(),
            content: "three".to_string(),
            sender: writer,
        },
    ];
    let filter = UserActiveChannel::Named("x".to_string());
    let out = trcd::session::forward_batch(&filter, &msgs);
    assert_eq!(out.len(), 2);
    assert!(out[0].contains("\"content\":\"one\""));
    assert!(out[1].contains("\"content\":\"three\""));

    let none = trcd::session::forward_batch(&UserActiveChannel::NoChannel, &msgs);
    assert!(none.is_empty());
    let all = trcd::session::forward_batch(&UserActiveChannel::All, &msgs);
    assert_eq!(all.len(), 3);
}
