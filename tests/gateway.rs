use mili::frames::{heartbeat_frame, ConnectionProperties, IdentifyData};
use mili::gateway::{DispatchedEvent, Event, FrameError, RawEvent};
use mili::json::{entry, Json};
use mili::model::{Intents, OwnedID, User};
use mili::session::{decode, Phase, Session, SessionError};

fn s(text: &str) -> String {
    text.to_string()
}

fn obj(members: Vec<(&str, Json)>) -> Json {
    Json::Object(members.into_iter().map(|(k, v)| (s(k), v)).collect())
}

fn hello(interval: u64) -> Json {
    obj(vec![("op", Json::UInt(10)), ("d", obj(vec![("heartbeat_interval", Json::UInt(interval))]))])
}

fn ready(seq: u64) -> Json {
    obj(vec![
        ("op", Json::UInt(0)),
        ("t", Json::Str(s("READY"))),
        ("s", Json::UInt(seq)),
        (
            "d",
            obj(vec![
                ("session_id", Json::Str(s("abc"))),
                ("resume_gateway_url", Json::Str(s("wss://x"))),
            ]),
        ),
    ])
}

fn message(seq: u64, content: &str) -> Json {
    obj(vec![
        ("op", Json::UInt(0)),
        ("t", Json::Str(s("MESSAGE_CREATE"))),
        ("s", Json::UInt(seq)),
        (
            "d",
            obj(vec![
                ("id", Json::Str(s("11"))),
                ("channel_id", Json::Str(s("22"))),
                (
                    "author",
                    obj(vec![("id", Json::Str(s("33"))), ("username", Json::Str(s("ann")))]),
                ),
                ("content", Json::Str(s(content))),
                ("tts", Json::Bool(false)),
            ]),
        ),
    ])
}

fn dispatch(seq: u64, name: &str) -> Json {
    obj(vec![
        ("op", Json::UInt(0)),
        ("t", Json::Str(s(name))),
        ("s", Json::UInt(seq)),
        ("d", obj(vec![("x", Json::UInt(1))])),
    ])
}

fn new_session() -> Session {
    Session::new(
        "tok",
        Intents::from_bits_truncate(Intents::GUILDS | Intents::MESSAGE_CONTENT),
        ConnectionProperties::new("linux", "mili"),
    )
}

fn running_session() -> Session {
    let mut session = new_session();
    session.on_event(decode(hello(41250)));
    session.on_event(decode(ready(1)));
    session
}

fn heartbeat_seq(session: &Session) -> Option<u64> {
    match session.heartbeat().into_field("d") {
        Some(Json::UInt(n)) => Some(n),
        Some(Json::Null) => None,
        other => panic!("unexpected heartbeat payload {:?}", other),
    }
}

#[test]
fn unknown_event_decodes_to_unknown() {
    let ev = decode(dispatch(5, "SOME_NEW_EVENT"));
    match ev {
        Ok(Event::Dispatch { sequence_number, event: DispatchedEvent::Unknown { event_name, data } }) => {
            assert_eq!(sequence_number, 5);
            assert_eq!(event_name, "SOME_NEW_EVENT");
            assert_eq!(data, obj(vec![("x", Json::UInt(1))]));
        }
        other => panic!("unexpected {:?}", other),
    }
}

#[test]
fn unknown_event_does_not_stop_running_session() {
    let mut session = running_session();
    let r = session.on_event(decode(dispatch(5, "SOME_NEW_EVENT")));
    assert_eq!(session.phase, Phase::Running);
    assert_eq!(session.last_sequence_number, Some(5));
    assert!(r.failure.is_none());
    assert!(r.deliver.is_none());
}

#[test]
fn handshake_stores_session() {
    let mut session = new_session();
    let r = session.on_event(decode(hello(41250)));
    assert_eq!(r.start_heartbeat, Some(41250));
    assert_eq!(session.phase, Phase::AwaitingReady);
    let frame = r.send.expect("identify frame");
    let raw = RawEvent::from_json(frame).expect("frame decodes");
    assert_eq!(raw.opcode, 2);
    let data = IdentifyData::from_json(&raw.data).expect("identify decodes");
    assert_eq!(data.token, "tok");
    assert_eq!(data.intents, (Intents::GUILDS | Intents::MESSAGE_CONTENT) as u64);
    assert_eq!(data.properties.os, "linux");
    assert_eq!(data.properties.browser, "mili");

    let r = session.on_event(decode(ready(1)));
    assert!(r.ready);
    assert!(r.failure.is_none());
    assert_eq!(session.phase, Phase::Running);
    assert_eq!(session.last_sequence_number, Some(1));
    let recover = session.recover.as_ref().expect("session data");
    assert_eq!(recover.session_id, "abc");
    assert_eq!(recover.resume_url, "wss://x");
    let again = session.on_event(decode(dispatch(2, "OTHER")));
    assert!(!again.ready);
}

#[test]
fn reconnect_resumes_with_stored_sequence() {
    let mut session = running_session();
    session.on_event(decode(message(7, "hi")));
    let r = session.on_event(decode(obj(vec![("op", Json::UInt(7))])));
    assert!(r.abort_heartbeat);
    assert_eq!(r.replace_with.as_deref(), Some("wss://x"));
    assert_eq!(session.phase, Phase::Replacing);
    let r = session.on_replaced(true);
    assert!(r.failure.is_none());
    assert_eq!(session.phase, Phase::AwaitingResumeHello);
    let r = session.on_event(decode(hello(1000)));
    assert_eq!(r.start_heartbeat, Some(1000));
    assert_eq!(session.phase, Phase::Running);
    let raw = RawEvent::from_json(r.send.expect("resume frame")).expect("frame decodes");
    assert_eq!(raw.opcode, 6);
    assert_eq!(raw.data.get("seq"), Some(&Json::UInt(7)));
    assert_eq!(raw.data.get("session_id"), Some(&Json::Str(s("abc"))));
    assert_eq!(raw.data.get("token"), Some(&Json::Str(s("tok"))));
}

#[test]
fn failed_replace_ends_session() {
    let mut session = running_session();
    session.on_event(decode(obj(vec![("op", Json::UInt(7))])));
    let r = session.on_replaced(false);
    assert_eq!(r.failure, Some(SessionError::Transport));
    assert_eq!(session.phase, Phase::Closed);
}

#[test]
fn lost_socket_while_running_resumes() {
    let mut session = running_session();
    let r = session.on_socket_lost(false);
    assert!(r.abort_heartbeat);
    assert_eq!(r.replace_with.as_deref(), Some("wss://x"));
    let mut fresh = new_session();
    let r = fresh.on_socket_lost(true);
    assert_eq!(r.failure, Some(SessionError::Closed));
    assert_eq!(fresh.phase, Phase::Closed);
}

#[test]
fn first_frame_must_be_hello() {
    let mut session = new_session();
    let r = session.on_event(decode(ready(1)));
    assert_eq!(r.failure, Some(SessionError::ProtocolViolation));
    assert_eq!(session.phase, Phase::Closed);
    let mut other = new_session();
    let r = other.on_event(decode(Json::Null));
    assert_eq!(r.failure, Some(SessionError::Frame(FrameError::NotAnObject)));
}

#[test]
fn ready_must_follow_identify() {
    let mut session = new_session();
    session.on_event(decode(hello(10)));
    let r = session.on_event(decode(dispatch(1, "OTHER")));
    assert_eq!(r.failure, Some(SessionError::ProtocolViolation));
}

#[test]
fn message_is_delivered_with_empty_content_as_none() {
    let mut session = running_session();
    let r = session.on_event(decode(message(2, "")));
    let event = r.deliver.expect("message");
    assert_eq!(event.message.content(), None);
    assert_eq!(event.message.id().as_str(), "11");
    assert_eq!(event.message.channel_id().as_str(), "22");
    assert_eq!(event.message.author().username(), "ann");
    assert!(!event.message.is_tts());
    let r = session.on_event(decode(message(3, "hello")));
    assert_eq!(r.deliver.expect("message").message.content(), Some("hello"));
}

#[test]
fn dispatch_run_sets_last_sequence() {
    let mut session = running_session();
    for seq in [2u64, 3, 5, 9] {
        session.on_event(decode(dispatch(seq, "OTHER")));
        assert_eq!(heartbeat_seq(&session), Some(seq));
    }
    assert_eq!(session.last_sequence_number, Some(9));
}

#[test]
fn heartbeats_never_go_back_on_one_socket() {
    let mut session = new_session();
    assert_eq!(heartbeat_seq(&session), None);
    session.on_event(decode(hello(100)));
    session.on_event(decode(ready(1)));
    let mut last = heartbeat_seq(&session);
    let frames = vec![
        dispatch(2, "A"),
        obj(vec![("op", Json::UInt(11))]),
        dispatch(4, "B"),
        hello(100),
        dispatch(4, "C"),
    ];
    for frame in frames {
        session.on_event(decode(frame));
        let now = heartbeat_seq(&session);
        assert!(now >= last);
        last = now;
    }
    assert_eq!(last, Some(4));
}

#[test]
fn heartbeat_frame_shape() {
    let frame = heartbeat_frame(None);
    let raw = RawEvent::from_json(frame).unwrap();
    assert_eq!(raw.opcode, 1);
    assert_eq!(raw.data, Json::Null);
    assert_eq!(raw.event_name, None);
    let frame = heartbeat_frame(Some(42));
    assert_eq!(frame.get("d"), Some(&Json::UInt(42)));
    assert_eq!(frame.get("t"), Some(&Json::Null));
}

#[test]
fn identify_round_trip() {
    let data = IdentifyData {
        token: s("secret"),
        intents: 513,
        properties: ConnectionProperties::new("linux", "mili"),
    };
    let frame = data.into_frame();
    let raw = RawEvent::from_json(frame).unwrap();
    assert_eq!(raw.opcode, 2);
    let back = IdentifyData::from_json(&raw.data).unwrap();
    assert_eq!(back.token, "secret");
    assert_eq!(back.intents, 513);
}

#[test]
fn frame_errors() {
    assert_eq!(RawEvent::from_json(Json::UInt(1)).err(), Some(FrameError::NotAnObject));
    assert_eq!(RawEvent::from_json(obj(vec![])).err(), Some(FrameError::BadOpcode));
    assert_eq!(
        RawEvent::from_json(obj(vec![("op", Json::UInt(256))])).err(),
        Some(FrameError::BadOpcode)
    );
    assert_eq!(
        RawEvent::from_json(obj(vec![("op", Json::UInt(0)), ("t", Json::UInt(3))])).err(),
        Some(FrameError::BadEventName)
    );
    assert_eq!(
        RawEvent::from_json(obj(vec![("op", Json::UInt(0)), ("s", Json::NegInt(-1))])).err(),
        Some(FrameError::BadSequenceNumber)
    );
    assert_eq!(
        decode(obj(vec![("op", Json::UInt(0)), ("t", Json::Str(s("X")))])).err(),
        Some(FrameError::MissingSequenceNumber)
    );
    assert_eq!(
        decode(obj(vec![("op", Json::UInt(0)), ("s", Json::UInt(1))])).err(),
        Some(FrameError::MissingEventName)
    );
    assert_eq!(decode(hello(0)).err(), Some(FrameError::MalformedPayload));
    assert_eq!(
        decode(obj(vec![("op", Json::UInt(10))])).err(),
        Some(FrameError::MalformedPayload)
    );
    assert_eq!(
        decode(obj(vec![("op", Json::UInt(9))])).err(),
        Some(FrameError::UnsupportedOpcode(9))
    );
}

#[test]
fn control_frames_decode() {
    assert!(matches!(decode(obj(vec![("op", Json::UInt(7))])), Ok(Event::Reconnect)));
    assert!(matches!(decode(obj(vec![("op", Json::UInt(11))])), Ok(Event::HeartbeatACK)));
    assert!(matches!(decode(hello(41250)), Ok(Event::Hello { heartbeat_interval: 41250 })));
}

#[test]
fn later_duplicate_member_wins() {
    let j = Json::Object(vec![entry("a", Json::UInt(1)), entry("a", Json::UInt(2))]);
    assert_eq!(j.get("a"), Some(&Json::UInt(2)));
    assert_eq!(j.get("b"), None);
    assert_eq!(j.into_field("a"), Some(Json::UInt(2)));
}

#[test]
fn dispatched_event_names() {
    match decode(ready(1)) {
        Ok(Event::Dispatch { event, .. }) => assert_eq!(event.name(), "READY"),
        other => panic!("unexpected {:?}", other),
    }
    match decode(dispatch(1, "THING")) {
        Ok(Event::Dispatch { event, .. }) => assert_eq!(event.name(), "THING"),
        other => panic!("unexpected {:?}", other),
    }
}

#[test]
fn users_are_equal_by_id() {
    let a = User { id: OwnedID::new(s("1")), username: s("a") };
    let b = User { id: OwnedID::new(s("1")), username: s("b") };
    let c = User { id: OwnedID::new(s("2")), username: s("a") };
    assert!(a == b);
    assert!(a != c);
}

fn ready_without_url() -> Json {
    obj(vec![
        ("op", Json::UInt(0)),
        ("t", Json::Str(s("READY"))),
        ("s", Json::UInt(1)),
        ("d", obj(vec![("session_id", Json::Str(s("abc")))])),
    ])
}

#[test]
fn unreadable_payload_degrades_to_unknown() {
    match decode(ready_without_url()) {
        Ok(Event::Dispatch { sequence_number: 1, event: DispatchedEvent::Unknown { event_name, data } }) => {
            assert_eq!(event_name, "READY");
            assert_eq!(data, obj(vec![("session_id", Json::Str(s("abc")))]));
        }
        other => panic!("unexpected {:?}", other),
    }
    let mut session = new_session();
    session.on_event(decode(hello(10)));
    let r = session.on_event(decode(ready_without_url()));
    assert_eq!(r.failure, Some(SessionError::ProtocolViolation));
    let mut running = running_session();
    let r = running.on_event(decode(dispatch(8, "MESSAGE_CREATE")));
    assert!(r.deliver.is_none());
    assert!(r.failure.is_none());
    assert_eq!(running.last_sequence_number, Some(8));
}
