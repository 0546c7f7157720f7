use vstd::prelude::*;

use crate::json::{entry, Json};
use crate::model::{Message, OwnedID, User, ID};

verus! {

/// Why a received frame could not be turned into a protocol event.
#[derive(Debug, Clone, Copy, PartialEq, Eq, Structural)]
pub enum FrameError {
    /// The frame is not JSON text.
    NotJson,
    /// The frame is not a JSON object.
    NotAnObject,
    /// `op` is missing or is not an integer from 0 to 255.
    BadOpcode,
    /// `t` is neither absent, `null` nor a string.
    BadEventName,
    /// `s` is neither absent, `null` nor an unsigned integer.
    BadSequenceNumber,
    /// A dispatch without a sequence number.
    MissingSequenceNumber,
    /// A dispatch without an event name.
    MissingEventName,
    /// A hello without a positive heartbeat interval.
    MalformedPayload,
    /// An opcode this client does not receive.
    UnsupportedOpcode(u8),
}

/// One wire frame before interpretation: `{"op", "t", "s", "d"}`.
#[derive(Debug, PartialEq, Eq)]
pub struct RawEvent {
    pub opcode: u8,
    pub event_name: Option<String>,
    pub sequence_number: Option<u64>,
    pub data: Json,
}

/// The opcode field, if it is an integer that fits a byte.
pub open spec fn opcode_of(v: Option<Json>) -> Option<u8> {
    match v {
        Some(Json::UInt(n)) => if n <= 255 {
            Some(n as u8)
        } else {
            None
        },
        _ => None,
    }
}

/// An optional string field: `Some(None)` when absent or `null`, `None` when
/// it holds anything but a string.
pub open spec fn optional_string(v: Option<Json>) -> Option<Option<String>> {
    match v {
        None => Some(None),
        Some(Json::Null) => Some(None),
        Some(Json::Str(s)) => Some(Some(s)),
        _ => None,
    }
}

/// An optional unsigned field: `Some(None)` when absent or `null`, `None`
/// when it holds anything but an unsigned integer.
pub open spec fn optional_uint(v: Option<Json>) -> Option<Option<u64>> {
    match v {
        None => Some(None),
        Some(Json::Null) => Some(None),
        Some(Json::UInt(n)) => Some(Some(n)),
        _ => None,
    }
}

/// The JSON form of an optional string.
pub open spec fn string_or_null(v: Option<String>) -> Json {
    match v {
        Some(s) => Json::Str(s),
        None => Json::Null,
    }
}

/// The JSON form of an optional unsigned integer.
pub open spec fn uint_or_null(v: Option<u64>) -> Json {
    match v {
        Some(n) => Json::UInt(n),
        None => Json::Null,
    }
}

/// What a frame decodes to. A missing `d` reads as `null`; other members
/// are ignored.
pub open spec fn decode_raw(j: Json) -> Result<RawEvent, FrameError> {
    if !(j is Object) {
        Err(FrameError::NotAnObject)
    } else if opcode_of(j.field("op"@)) is None {
        Err(FrameError::BadOpcode)
    } else if optional_string(j.field("t"@)) is None {
        Err(FrameError::BadEventName)
    } else if optional_uint(j.field("s"@)) is None {
        Err(FrameError::BadSequenceNumber)
    } else {
        Ok(
            RawEvent {
                opcode: opcode_of(j.field("op"@))->Some_0,
                event_name: optional_string(j.field("t"@))->Some_0,
                sequence_number: optional_uint(j.field("s"@))->Some_0,
                data: match j.field("d"@) {
                    Some(d) => d,
                    None => Json::Null,
                },
            },
        )
    }
}

/// `j` is the wire form of `raw`: the members `op`, `t`, `s`, `d` in this
/// order, with `null` for an absent name or sequence number.
pub open spec fn frame_shape(j: Json, raw: RawEvent) -> bool {
    match j {
        Json::Object(f) => {
            &&& f@.len() == 4
            &&& f@[0].0@ == "op"@ && f@[0].1 == Json::UInt(raw.opcode as u64)
            &&& f@[1].0@ == "t"@ && f@[1].1 == string_or_null(raw.event_name)
            &&& f@[2].0@ == "s"@ && f@[2].1 == uint_or_null(raw.sequence_number)
            &&& f@[3].0@ == "d"@ && f@[3].1 == raw.data
        },
        _ => false,
    }
}

impl RawEvent {
    /// A frame with an opcode and a payload, and no name or sequence number.
    pub fn new(opcode: u8, data: Json) -> (r: RawEvent)
        ensures
            r == (RawEvent { opcode, event_name: None, sequence_number: None, data }),
    {
        RawEvent { opcode, event_name: None, sequence_number: None, data }
    }

    pub fn opcode(&self) -> (r: u8)
        ensures
            r == self.opcode,
    {
        self.opcode
    }

    pub fn data(&self) -> (r: &Json)
        ensures
            *r == self.data,
    {
        &self.data
    }

    /// Reads a frame out of a JSON value.
    pub fn from_json(j: Json) -> (r: Result<RawEvent, FrameError>)
        ensures
            r == decode_raw(j),
    {
        if !j.is_object() {
            return Err(FrameError::NotAnObject);
        }
        let opcode: u8 = match j.get("op") {
            Some(v) => match v.as_u64() {
                Some(n) => if n <= 255 {
                    n as u8
                } else {
                    return Err(FrameError::BadOpcode);
                },
                None => return Err(FrameError::BadOpcode),
            },
            None => return Err(FrameError::BadOpcode),
        };
        let event_name: Option<String> = match j.get("t") {
            None => None,
            Some(v) => if v.is_null() {
                None
            } else {
                match v.to_text() {
                    Some(s) => Some(s),
                    None => return Err(FrameError::BadEventName),
                }
            },
        };
        let sequence_number: Option<u64> = match j.get("s") {
            None => None,
            Some(v) => if v.is_null() {
                None
            } else {
                match v.as_u64() {
                    Some(n) => Some(n),
                    None => return Err(FrameError::BadSequenceNumber),
                }
            },
        };
        let data = match j.into_field("d") {
            Some(d) => d,
            None => Json::Null,
        };
        Ok(RawEvent { opcode, event_name, sequence_number, data })
    }

    /// The wire form of this frame.
    pub fn into_json(self) -> (r: Json)
        ensures
            frame_shape(r, self),
    {
        let t = match self.event_name {
            Some(s) => Json::Str(s),
            None => Json::Null,
        };
        let s = match self.sequence_number {
            Some(n) => Json::UInt(n),
            None => Json::Null,
        };
        let mut f: Vec<(String, Json)> = Vec::new();
        f.push(entry("op", Json::UInt(self.opcode as u64)));
        f.push(entry("t", t));
        f.push(entry("s", s));
        f.push(entry("d", self.data));
        Json::Object(f)
    }

    /// Interprets the frame as a protocol event.
    pub fn try_into_mature(self) -> (r: Result<Event, FrameError>)
        ensures
            r == decode_event(self),
    {
        Event::from_raw(self)
    }
}

/// The payload of the event that completes the identify handshake.
#[derive(Debug, PartialEq, Eq)]
pub struct ReadyEvent {
    pub session_id: String,
    pub resume_gateway_url: String,
}

/// A message was posted.
#[derive(Debug)]
pub struct MessageCreatedEvent {
    pub message: Message,
}

/// A dispatched event, by name. Names this client does not know are kept
/// with their payload.
#[derive(Debug)]
pub enum DispatchedEvent {
    Ready(ReadyEvent),
    MessageCreated(MessageCreatedEvent),
    Unknown { event_name: String, data: Json },
}

/// A protocol event: a frame interpreted by its opcode.
#[derive(Debug)]
pub enum Event {
    Dispatch { sequence_number: u64, event: DispatchedEvent },
    Hello { heartbeat_interval: u64 },
    Reconnect,
    HeartbeatACK,
}

/// The session data needed to resume after a reconnect.
#[derive(Debug, Clone, PartialEq, Eq)]
pub struct RecoverData {
    pub session_id: String,
    pub resume_url: String,
}

/// The string member `key` of `j`.
pub open spec fn string_field(j: Json, key: Seq<char>) -> Option<String> {
    match j.field(key) {
        Some(v) => v.string_of(),
        None => None,
    }
}

/// What a ready payload decodes to.
pub open spec fn ready_of(d: Json) -> Option<ReadyEvent> {
    match (string_field(d, "session_id"@), string_field(d, "resume_gateway_url"@)) {
        (Some(session_id), Some(resume_gateway_url)) => Some(
            ReadyEvent { session_id, resume_gateway_url },
        ),
        _ => None,
    }
}

/// What a user object decodes to.
pub open spec fn user_of(a: Json) -> Option<User> {
    match (string_field(a, "id"@), string_field(a, "username"@)) {
        (Some(id), Some(username)) => Some(User { id: OwnedID(ID { text: id }), username }),
        _ => None,
    }
}

/// What a message payload decodes to.
pub open spec fn message_of(d: Json) -> Option<Message> {
    let author = match d.field("author"@) {
        Some(a) => user_of(a),
        None => None,
    };
    let tts = match d.field("tts"@) {
        Some(b) => b.bool_of(),
        None => None,
    };
    match (string_field(d, "id"@), string_field(d, "channel_id"@), author, string_field(d, "content"@), tts) {
        (Some(id), Some(channel_id), Some(author), Some(content), Some(tts)) => Some(
            Message {
                id: OwnedID(ID { text: id }),
                channel_id: OwnedID(ID { text: channel_id }),
                author,
                content: if content@.len() == 0 {
                    None
                } else {
                    Some(content)
                },
                tts,
            },
        ),
        _ => None,
    }
}

/// What a dispatch with this name and payload decodes to. A known name
/// whose payload cannot be read degrades to an unknown event, so that the
/// payload is kept and nothing fails.
pub open spec fn decode_dispatch(event_name: String, data: Json) -> DispatchedEvent {
    if event_name@ == "READY"@ && ready_of(data) is Some {
        DispatchedEvent::Ready(ready_of(data)->Some_0)
    } else if event_name@ == "MESSAGE_CREATE"@ && message_of(data) is Some {
        DispatchedEvent::MessageCreated(MessageCreatedEvent { message: message_of(data)->Some_0 })
    } else {
        DispatchedEvent::Unknown { event_name, data }
    }
}

/// What a frame means, by its opcode.
pub open spec fn decode_event(raw: RawEvent) -> Result<Event, FrameError> {
    if raw.opcode == 0 {
        match raw.sequence_number {
            None => Err(FrameError::MissingSequenceNumber),
            Some(seq) => match raw.event_name {
                None => Err(FrameError::MissingEventName),
                Some(name) => Ok(
                    Event::Dispatch { sequence_number: seq, event: decode_dispatch(name, raw.data) },
                ),
            },
        }
    } else if raw.opcode == 7 {
        Ok(Event::Reconnect)
    } else if raw.opcode == 10 {
        match raw.data.field("heartbeat_interval"@) {
            Some(Json::UInt(n)) => if n > 0 {
                Ok(Event::Hello { heartbeat_interval: n })
            } else {
                Err(FrameError::MalformedPayload)
            },
            _ => Err(FrameError::MalformedPayload),
        }
    } else if raw.opcode == 11 {
        Ok(Event::HeartbeatACK)
    } else {
        Err(FrameError::UnsupportedOpcode(raw.opcode))
    }
}

/// Copies the string member `key` of `j`.
fn string_member(j: &Json, key: &str) -> (r: Option<String>)
    ensures
        r == string_field(*j, key@),
{
    match j.get(key) {
        Some(v) => v.to_text(),
        None => None,
    }
}

impl ReadyEvent {
    /// Reads a ready payload.
    pub fn from_json(d: &Json) -> (r: Option<ReadyEvent>)
        ensures
            r == ready_of(*d),
    {
        let session_id = match string_member(d, "session_id") {
            Some(s) => s,
            None => return None,
        };
        let resume_gateway_url = match string_member(d, "resume_gateway_url") {
            Some(s) => s,
            None => return None,
        };
        Some(ReadyEvent { session_id, resume_gateway_url })
    }
}

/// Reads a user object.
pub fn user_from_json(a: &Json) -> (r: Option<User>)
    ensures
        r == user_of(*a),
{
    let id = match string_member(a, "id") {
        Some(s) => s,
        None => return None,
    };
    let username = match string_member(a, "username") {
        Some(s) => s,
        None => return None,
    };
    Some(User { id: OwnedID(ID { text: id }), username })
}

/// Reads a message payload.
pub fn message_from_json(d: &Json) -> (r: Option<Message>)
    ensures
        r == message_of(*d),
{
    let author = match d.get("author") {
        Some(a) => user_from_json(a),
        None => None,
    };
    let tts = match d.get("tts") {
        Some(b) => b.as_bool(),
        None => None,
    };
    let id = string_member(d, "id");
    let channel_id = string_member(d, "channel_id");
    let content = string_member(d, "content");
    match (id, channel_id, author, content, tts) {
        (Some(id), Some(channel_id), Some(author), Some(content), Some(tts)) => {
            let content = if content.as_str().is_empty() {
                None
            } else {
                Some(content)
            };
            Some(
                Message {
                    id: OwnedID(ID { text: id }),
                    channel_id: OwnedID(ID { text: channel_id }),
                    author,
                    content,
                    tts,
                },
            )
        },
        _ => None,
    }
}

impl DispatchedEvent {
    /// Decodes a dispatch payload by its event name.
    pub fn from_raw(event_name: String, data: Json) -> (r: DispatchedEvent)
        ensures
            r == decode_dispatch(event_name, data),
    {
        proof {
            reveal_strlit("READY");
            reveal_strlit("MESSAGE_CREATE");
            assert("READY"@.len() != "MESSAGE_CREATE"@.len());
        }
        if event_name == String::from_str("READY") {
            if let Some(r) = ReadyEvent::from_json(&data) {
                return DispatchedEvent::Ready(r);
            }
        } else if event_name == String::from_str("MESSAGE_CREATE") {
            if let Some(m) = message_from_json(&data) {
                return DispatchedEvent::MessageCreated(MessageCreatedEvent { message: m });
            }
        }
        DispatchedEvent::Unknown { event_name, data }
    }

    /// The name the event was dispatched under.
    pub open spec fn name_of(&self) -> Seq<char> {
        match self {
            DispatchedEvent::Ready(_) => "READY"@,
            DispatchedEvent::MessageCreated(_) => "MESSAGE_CREATE"@,
            DispatchedEvent::Unknown { event_name, .. } => event_name@,
        }
    }

    pub fn name(&self) -> (r: &str)
        ensures
            r@ == self.name_of(),
    {
        match self {
            DispatchedEvent::Ready(_) => "READY",
            DispatchedEvent::MessageCreated(_) => "MESSAGE_CREATE",
            DispatchedEvent::Unknown { event_name, .. } => event_name.as_str(),
        }
    }
}

impl Event {
    /// Interprets a frame by its opcode.
    pub fn from_raw(raw: RawEvent) -> (r: Result<Event, FrameError>)
        ensures
            r == decode_event(raw),
    {
        if raw.opcode == 0 {
            let RawEvent { sequence_number, event_name, data, .. } = raw;
            let seq = match sequence_number {
                Some(n) => n,
                None => return Err(FrameError::MissingSequenceNumber),
            };
            let name = match event_name {
                Some(n) => n,
                None => return Err(FrameError::MissingEventName),
            };
            Ok(Event::Dispatch { sequence_number: seq, event: DispatchedEvent::from_raw(name, data) })
        } else if raw.opcode == 7 {
            Ok(Event::Reconnect)
        } else if raw.opcode == 10 {
            match raw.data.get("heartbeat_interval") {
                Some(v) => match v.as_u64() {
                    Some(n) => if n > 0 {
                        Ok(Event::Hello { heartbeat_interval: n })
                    } else {
                        Err(FrameError::MalformedPayload)
                    },
                    None => Err(FrameError::MalformedPayload),
                },
                None => Err(FrameError::MalformedPayload),
            }
        } else if raw.opcode == 11 {
            Ok(Event::HeartbeatACK)
        } else {
            Err(FrameError::UnsupportedOpcode(raw.opcode))
        }
    }
}

} // verus!
