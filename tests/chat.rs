use yew_chat::{
    avatar_for, decode, decode_chat_message, encode, encode_chat_message, Action, Chat,
    ChatMessage, DecodeError, Envelope, EventBus, Msg, MsgTypes,
};

fn users_frame(names: &[&str]) -> String {
    encode(&Envelope::Users { names: names.iter().map(|n| n.to_string()).collect() })
}

fn message_frame(from: &str, body: &str) -> String {
    let payload = encode_chat_message(&ChatMessage { from: from.to_string(), body: body.to_string() });
    encode(&Envelope::Message { data: payload })
}

fn roster_names(chat: &Chat) -> Vec<String> {
    chat.roster().iter().map(|u| u.name.clone()).collect()
}

fn log_pairs(chat: &Chat) -> Vec<(String, String)> {
    chat.log().iter().map(|m| (m.from.clone(), m.body.clone())).collect()
}

#[test]
fn round_trip_users() {
    let e = Envelope::Users { names: vec!["a".to_string(), "b \"q\"".to_string()] };
    match decode(&encode(&e)) {
        Ok(Envelope::Users { names }) => assert_eq!(names, vec!["a".to_string(), "b \"q\"".to_string()]),
        _ => panic!("users envelope did not survive"),
    }
}

#[test]
fn round_trip_empty_roster() {
    match decode(&encode(&Envelope::Users { names: vec![] })) {
        Ok(Envelope::Users { names }) => assert!(names.is_empty()),
        _ => panic!("empty roster did not survive"),
    }
}

#[test]
fn round_trip_register_and_message() {
    match decode(&encode(&Envelope::Register { username: "ghost".to_string() })) {
        Ok(Envelope::Register { username }) => assert_eq!(username, "ghost"),
        _ => panic!("register envelope did not survive"),
    }
    match decode(&encode(&Envelope::Message { data: "{\"x\":1}\n".to_string() })) {
        Ok(Envelope::Message { data }) => assert_eq!(data, "{\"x\":1}\n"),
        _ => panic!("message envelope did not survive"),
    }
}

#[test]
fn encode_uses_wire_names() {
    let text = encode(&Envelope::Register { username: "ghost".to_string() });
    let v: serde_json::Value = serde_json::from_str(&text).unwrap();
    assert_eq!(v["messageType"], "register");
    assert_eq!(v["data"], "ghost");
    assert!(v["dataArray"].is_null());
    let text = users_frame(&["x"]);
    let v: serde_json::Value = serde_json::from_str(&text).unwrap();
    assert_eq!(v["messageType"], "users");
    assert_eq!(v["dataArray"][0], "x");
}

#[test]
fn msg_types_tags() {
    assert_eq!(MsgTypes::Users.tag(), "users");
    assert_eq!(MsgTypes::Register.tag(), "register");
    assert_eq!(MsgTypes::Message.tag(), "message");
    assert_eq!(MsgTypes::from_tag(&"message".to_string()), Some(MsgTypes::Message));
    assert_eq!(MsgTypes::from_tag(&"Users".to_string()), None);
}

#[test]
fn decode_rejects_malformed_frames() {
    let bad = [
        "not json",
        "{\"messageType\":\"typing\",\"data\":\"x\"}",
        "{\"messageType\":\"users\"}",
        "{\"messageType\":\"users\",\"dataArray\":[\"a\",1]}",
        "{\"messageType\":\"users\",\"dataArray\":[\"a\"],\"data\":\"x\"}",
        "{\"messageType\":\"register\",\"dataArray\":[\"a\"],\"data\":\"x\"}",
        "{\"messageType\":\"message\",\"data\":null}",
        "{\"data\":\"x\"}",
        "[1,2]",
    ];
    for b in bad.iter() {
        assert!(matches!(decode(b), Err(DecodeError::Malformed)), "accepted {}", b);
    }
}

#[test]
fn decode_accepts_null_for_absent_fields() {
    match decode("{\"messageType\":\"register\",\"dataArray\":null,\"data\":\"ann\"}") {
        Ok(Envelope::Register { username }) => assert_eq!(username, "ann"),
        _ => panic!("null field refused"),
    }
}

#[test]
fn chat_message_decoding() {
    let m = decode_chat_message("{\"from\":\"alice\",\"message\":\"hi\"}").unwrap();
    assert_eq!((m.from.as_str(), m.body.as_str()), ("alice", "hi"));
    assert!(matches!(decode_chat_message("{\"from\":\"alice\"}"), Err(DecodeError::MalformedPayload)));
    assert!(matches!(decode_chat_message("oops"), Err(DecodeError::MalformedPayload)));
}

#[test]
fn roster_replace_not_merge() {
    let (mut chat, _) = Chat::create("me".to_string());
    assert_eq!(chat.handle_frame(&users_frame(&["a", "b"])), Ok(true));
    assert_eq!(chat.handle_frame(&users_frame(&["c"])), Ok(true));
    assert_eq!(roster_names(&chat), vec!["c".to_string()]);
    assert_eq!(chat.handle_frame(&users_frame(&[])), Ok(true));
    assert!(chat.roster().is_empty());
}

#[test]
fn log_keeps_arrival_order() {
    let (mut a, _) = Chat::create("me".to_string());
    let (mut b, _) = Chat::create("me".to_string());
    let m1 = message_frame("x", "1");
    let m2 = message_frame("y", "2");
    let m3 = message_frame("z", "3");
    for f in [&m1, &m2, &m3] {
        assert_eq!(a.handle_frame(f), Ok(true));
    }
    for f in [&m2, &m1, &m3] {
        assert_eq!(b.handle_frame(f), Ok(true));
    }
    let expected = vec![
        ("x".to_string(), "1".to_string()),
        ("y".to_string(), "2".to_string()),
        ("z".to_string(), "3".to_string()),
    ];
    assert_eq!(log_pairs(&a), expected);
    assert_ne!(log_pairs(&b), expected);
}

#[test]
fn malformed_payload_is_isolated() {
    let (mut chat, _) = Chat::create("me".to_string());
    assert_eq!(chat.handle_frame(&message_frame("x", "1")), Ok(true));
    let bad = encode(&Envelope::Message { data: "{\"from\":1}".to_string() });
    assert_eq!(chat.handle_frame(&bad), Err(DecodeError::MalformedPayload));
    assert_eq!(chat.log().len(), 1);
    assert_eq!(chat.handle_frame(&message_frame("y", "2")), Ok(true));
    assert_eq!(log_pairs(&chat)[1], ("y".to_string(), "2".to_string()));
}

#[test]
fn malformed_frame_changes_nothing() {
    let (mut chat, _) = Chat::create("me".to_string());
    chat.handle_frame(&users_frame(&["a"])).unwrap();
    assert_eq!(chat.handle_frame("{\"messageType\":\"nope\"}"), Err(DecodeError::Malformed));
    assert_eq!(roster_names(&chat), vec!["a".to_string()]);
    assert!(chat.log().is_empty());
}

#[test]
fn startup_sends_one_register() {
    let (chat, first) = Chat::create("ghost".to_string());
    match &first {
        Envelope::Register { username } => assert_eq!(username, "ghost"),
        _ => panic!("first envelope is not a registration"),
    }
    assert_eq!(first.kind(), MsgTypes::Register);
    assert!(chat.roster().is_empty());
    assert!(chat.log().is_empty());
    let v: serde_json::Value = serde_json::from_str(&encode(&first)).unwrap();
    assert_eq!(v["messageType"], "register");
    assert_eq!(v["data"], "ghost");
}

#[test]
fn register_inbound_is_ignored() {
    let (mut chat, _) = Chat::create("me".to_string());
    let f = encode(&Envelope::Register { username: "other".to_string() });
    assert_eq!(chat.handle_frame(&f), Ok(false));
    assert!(chat.roster().is_empty());
}

#[test]
fn avatar_is_deterministic() {
    let (mut chat, _) = Chat::create("me".to_string());
    chat.handle_frame(&users_frame(&["nova", "x"])).unwrap();
    let first = chat.roster()[0].avatar.clone();
    chat.handle_frame(&users_frame(&["y", "nova"])).unwrap();
    let second = chat.roster()[1].avatar.clone();
    assert_eq!(first, second);
    assert_eq!(first, "https://avatars.dicebear.com/api/adventurer-neutral/nova.svg");
    assert_eq!(avatar_for(&"nova".to_string()), first);
}

#[test]
fn gif_suffix_convention() {
    let m = |b: &str| ChatMessage { from: "a".to_string(), body: b.to_string() };
    assert!(m("cat.gif").is_gif());
    assert!(!m("cat.gif.txt").is_gif());
    assert!(!m("cat.GIF").is_gif());
    assert!(m(".gif").is_gif());
    assert!(!m("gif").is_gif());
    assert!(!m("").is_gif());
}

#[test]
fn end_to_end_scenario() {
    let (mut chat, _) = Chat::create("alice".to_string());
    assert_eq!(chat.handle_frame("{\"messageType\":\"users\",\"dataArray\":[\"alice\",\"bob\"]}"), Ok(true));
    assert_eq!(roster_names(&chat), vec!["alice".to_string(), "bob".to_string()]);
    assert_eq!(chat.roster()[1].avatar, "https://avatars.dicebear.com/api/adventurer-neutral/bob.svg");
    assert_eq!(
        chat.handle_frame("{\"messageType\":\"message\",\"data\":\"{\\\"from\\\":\\\"alice\\\",\\\"message\\\":\\\"hi\\\"}\"}"),
        Ok(true)
    );
    assert_eq!(log_pairs(&chat), vec![("alice".to_string(), "hi".to_string())]);
    assert_eq!(
        chat.find_avatar(&"alice".to_string()),
        Some("https://avatars.dicebear.com/api/adventurer-neutral/alice.svg".to_string())
    );
    assert_eq!(chat.find_avatar(&"carol".to_string()), None);
}

#[test]
fn update_dispatches_events() {
    let (mut chat, _) = Chat::create("me".to_string());
    assert!(matches!(chat.update(Msg::HandleMsg(users_frame(&["a"]))), Action::Render));
    assert!(matches!(
        chat.update(Msg::HandleMsg(encode(&Envelope::Register { username: "z".to_string() }))),
        Action::Nothing
    ));
    assert!(matches!(chat.update(Msg::HandleMsg("x".to_string())), Action::Drop(DecodeError::Malformed)));
    match chat.update(Msg::SubmitMessage("hello".to_string())) {
        Action::Send(Envelope::Message { data }) => assert_eq!(data, "hello"),
        _ => panic!("submit did not send a message"),
    }
    assert!(chat.log().is_empty());
}

#[test]
fn bus_delivers_in_order_to_active_subscribers() {
    let mut bus = EventBus::new();
    let a = bus.subscribe();
    bus.publish(&"one".to_string());
    let b = bus.subscribe();
    bus.publish(&"two".to_string());
    assert_eq!(bus.take(a), vec!["one".to_string(), "two".to_string()]);
    assert!(bus.take(a).is_empty());
    bus.unsubscribe(b);
    bus.publish(&"three".to_string());
    assert!(bus.take(b).is_empty());
    assert_eq!(bus.take(a), vec!["three".to_string()]);
    assert!(bus.take(99).is_empty());
}
