use chat_core::channel::{Channel, CHANNEL_CAP};
use chat_core::codec::{decode_text, encode_message, render_plain};
use chat_core::message::Message;
use chat_core::registry::Registry;
use chat_core::state::State;

fn chat(user: &str, message: &str) -> Message {
    Message::Chat { user: user.to_string(), message: message.to_string() }
}

fn text_of(m: &Message) -> String {
    match m {
        Message::Chat { message, .. } => message.clone(),
        Message::Userlist(_) => panic!("expected a chat message"),
    }
}

#[test]
fn registry_add_and_snapshot() {
    let mut reg = Registry::new();
    reg.add("alpha".to_string());
    reg.add("beta".to_string());
    assert_eq!(reg.snapshot(), vec!["alpha".to_string(), "beta".to_string()]);
    assert_eq!(reg.len(), 2);
}

#[test]
fn registry_remove_removes_all_duplicates() {
    let mut reg = Registry::new();
    reg.add("a".to_string());
    reg.add("b".to_string());
    reg.add("a".to_string());
    reg.remove(&"a".to_string());
    assert_eq!(reg.snapshot(), vec!["b".to_string()]);
}

#[test]
fn registry_remove_absent_is_noop() {
    let mut reg = Registry::new();
    reg.add("a".to_string());
    reg.remove(&"zed".to_string());
    assert_eq!(reg.snapshot(), vec!["a".to_string()]);
}

#[test]
fn channel_delivers_in_publish_order_to_every_subscriber() {
    let mut ch = Channel::new();
    let s1 = ch.subscribe();
    let s2 = ch.subscribe();
    ch.publish(chat("u", "one"));
    ch.publish(chat("u", "two"));
    ch.publish(chat("u", "three"));
    for id in [s1, s2] {
        assert_eq!(text_of(&ch.recv(id).unwrap()), "one");
        assert_eq!(text_of(&ch.recv(id).unwrap()), "two");
        assert_eq!(text_of(&ch.recv(id).unwrap()), "three");
        assert!(ch.recv(id).is_none());
    }
}

#[test]
fn channel_cursor_starts_at_subscription() {
    let mut ch = Channel::new();
    ch.publish(chat("u", "before"));
    let id = ch.subscribe();
    assert!(ch.recv(id).is_none());
    ch.publish(chat("u", "after"));
    assert_eq!(text_of(&ch.recv(id).unwrap()), "after");
}

#[test]
fn channel_drops_oldest_for_slow_subscriber() {
    let mut ch = Channel::new();
    let id = ch.subscribe();
    let total = CHANNEL_CAP + 2;
    for k in 0..total {
        ch.publish(chat("u", &k.to_string()));
    }
    // The two oldest messages fell out; the window starts at message 2.
    assert_eq!(text_of(&ch.recv(id).unwrap()), "2");
    let mut received = 1;
    while ch.recv(id).is_some() {
        received += 1;
    }
    assert_eq!(received, CHANNEL_CAP);
}

#[test]
fn channel_dead_cursor_never_blocks_the_rest() {
    let mut ch = Channel::new();
    let dead = ch.subscribe();
    let live = ch.subscribe();
    ch.unsubscribe(dead);
    for k in 0..3 {
        ch.publish(chat("u", &k.to_string()));
    }
    assert_eq!(text_of(&ch.recv(live).unwrap()), "0");
    assert_eq!(text_of(&ch.recv(live).unwrap()), "1");
    assert_eq!(text_of(&ch.recv(live).unwrap()), "2");
}

#[test]
fn encode_chat_is_exact_json() {
    let m = chat("alice", "hello");
    assert_eq!(
        encode_message(&m),
        "{\"type\":\"message\",\"user\":\"alice\",\"message\":\"hello\"}"
    );
}

#[test]
fn encode_escapes_quotes_backslashes_and_controls() {
    let m = chat("a\"b", "x\\y\nz\u{1}");
    assert_eq!(
        encode_message(&m),
        "{\"type\":\"message\",\"user\":\"a\\\"b\",\"message\":\"x\\\\y\\nz\\u0001\"}"
    );
}

#[test]
fn encode_userlist_is_exact_json() {
    let m = Message::Userlist(vec!["a".to_string(), "b".to_string()]);
    assert_eq!(encode_message(&m), "{\"type\":\"userlist\",\"users\":[\"a\",\"b\"]}");
    let empty = Message::Userlist(vec![]);
    assert_eq!(encode_message(&empty), "{\"type\":\"userlist\",\"users\":[]}");
}

#[test]
fn render_plain_line() {
    assert_eq!(render_plain("alice", "hi there"), "alice: hi there");
}

#[test]
fn decode_is_identity_on_text_payload() {
    assert_eq!(decode_text("raw payload".to_string()), "raw payload");
}

#[test]
fn generated_name_is_nonempty() {
    let st = State::new();
    assert!(!st.current_user().is_empty());
}
