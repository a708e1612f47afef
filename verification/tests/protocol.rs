use chat_core::message::Message;
use chat_core::session::{apply_message, Exit, Frame, Session};
use chat_core::state::State;

fn drain(session: &Session, st: &mut State) -> Vec<String> {
    let mut out = Vec::new();
    while let Some(wire) = session.next_outbound(st) {
        out.push(wire);
    }
    out
}

#[test]
fn join_chat_and_leave_scenario() {
    let mut st = State::new();

    let a = Session::join(&mut st, "A".to_string());
    assert_eq!(
        drain(&a, &mut st),
        vec![
            "{\"type\":\"message\",\"user\":\"system\",\"message\":\"A has entered the chat\"}",
            "{\"type\":\"userlist\",\"users\":[\"A\"]}",
        ]
    );

    let b = Session::join(&mut st, "B".to_string());
    assert_eq!(
        drain(&a, &mut st),
        vec![
            "{\"type\":\"message\",\"user\":\"system\",\"message\":\"B has entered the chat\"}",
            "{\"type\":\"userlist\",\"users\":[\"A\",\"B\"]}",
        ]
    );
    assert_eq!(
        drain(&b, &mut st),
        vec![
            "{\"type\":\"message\",\"user\":\"system\",\"message\":\"B has entered the chat\"}",
            "{\"type\":\"userlist\",\"users\":[\"A\",\"B\"]}",
        ]
    );

    let mut a = a;
    let exit = a.on_frame(&mut st, Frame::Text("hello".to_string()));
    assert!(exit.is_none());
    let expected_chat = "{\"type\":\"message\",\"user\":\"A\",\"message\":\"hello\"}";
    assert_eq!(drain(&a, &mut st), vec![expected_chat]);
    assert_eq!(drain(&b, &mut st), vec![expected_chat]);

    let mut b = b;
    let exit = b.on_frame(&mut st, Frame::Close);
    assert_eq!(exit, Some(Exit::Normal));
    assert_eq!(
        drain(&a, &mut st),
        vec![
            "{\"type\":\"message\",\"user\":\"system\",\"message\":\"B left the chat\"}",
            "{\"type\":\"userlist\",\"users\":[\"A\"]}",
        ]
    );
    assert_eq!(st.users.snapshot(), vec!["A".to_string()]);
}

#[test]
fn binary_frame_is_a_protocol_violation_with_full_cleanup() {
    let mut st = State::new();
    let a = Session::join(&mut st, "A".to_string());
    let mut b = Session::join(&mut st, "B".to_string());
    drain(&a, &mut st);

    let exit = b.on_frame(&mut st, Frame::Binary);
    assert_eq!(exit, Some(Exit::ProtocolViolation));
    // B is gone from the registry, and A observes exactly one leave chat and
    // one presence update.
    assert_eq!(st.users.snapshot(), vec!["A".to_string()]);
    assert_eq!(
        drain(&a, &mut st),
        vec![
            "{\"type\":\"message\",\"user\":\"system\",\"message\":\"B left the chat\"}",
            "{\"type\":\"userlist\",\"users\":[\"A\"]}",
        ]
    );
}

#[test]
fn every_other_frame_kind_has_its_own_violation_branch() {
    for frame in [Frame::Ping, Frame::Pong, Frame::Malformed] {
        let mut st = State::new();
        let mut s = Session::join(&mut st, "A".to_string());
        assert_eq!(s.on_frame(&mut st, frame), Some(Exit::ProtocolViolation));
        assert_eq!(st.users.snapshot(), Vec::<String>::new());
    }
}

#[test]
fn duplicate_names_leave_together() {
    // Two sessions may draw the same generated name; one leave removes every
    // occurrence but still announces only that one leave.
    let mut st = State::new();
    let _twin1 = Session::join(&mut st, "same.name".to_string());
    let mut twin2 = Session::join(&mut st, "same.name".to_string());
    twin2.leave(&mut st);
    assert_eq!(st.users.snapshot(), Vec::<String>::new());
}

#[test]
fn emoji_codes_are_substituted_before_publish() {
    let mut st = State::new();
    let mut a = Session::join(&mut st, "A".to_string());
    drain(&a, &mut st);
    a.on_frame(&mut st, Frame::Text("hi :smile:".to_string()));
    assert_eq!(
        drain(&a, &mut st),
        vec!["{\"type\":\"message\",\"user\":\"A\",\"message\":\"hi \u{1F604}\"}"]
    );
}

#[test]
fn presence_snapshot_is_idempotent_for_observers() {
    let snapshot = Message::Userlist(vec!["a".to_string(), "b".to_string()]);
    let mut once: Vec<String> = vec!["stale".to_string()];
    apply_message(&mut once, &snapshot);
    let mut twice = once.clone();
    apply_message(&mut twice, &snapshot);
    assert_eq!(once, vec!["a".to_string(), "b".to_string()]);
    assert_eq!(twice, once);
}

#[test]
fn chat_deliveries_do_not_change_presence_view() {
    let mut view = vec!["a".to_string()];
    apply_message(&mut view, &Message::Chat { user: "u".to_string(), message: "m".to_string() });
    assert_eq!(view, vec!["a".to_string()]);
}
