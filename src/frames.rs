use vstd::prelude::*;

use crate::gateway::{decode_raw, frame_shape, string_field, uint_or_null, RawEvent, RecoverData};
use crate::json::{entry, member, Json};

verus! {

/// The opcode of a heartbeat.
pub const OP_HEARTBEAT: u8 = 1;

/// The opcode of an identify.
pub const OP_IDENTIFY: u8 = 2;

/// The opcode of a resume.
pub const OP_RESUME: u8 = 6;

/// How the client describes itself when it identifies.
#[derive(Debug, PartialEq, Eq)]
pub struct ConnectionProperties {
    pub os: String,
    pub browser: String,
    pub device: String,
}

/// The payload of an identify frame.
#[derive(Debug, PartialEq, Eq)]
pub struct IdentifyData {
    pub token: String,
    pub intents: u64,
    pub properties: ConnectionProperties,
}

/// `j` is an object with exactly these three members, in this order.
pub open spec fn three_members(
    j: Json,
    k0: Seq<char>,
    v0: Json,
    k1: Seq<char>,
    v1: Json,
    k2: Seq<char>,
    v2: Json,
) -> bool {
    match j {
        Json::Object(f) => {
            &&& f@.len() == 3
            &&& f@[0].0@ == k0 && f@[0].1 == v0
            &&& f@[1].0@ == k1 && f@[1].1 == v1
            &&& f@[2].0@ == k2 && f@[2].1 == v2
        },
        _ => false,
    }
}

/// What a connection-properties object decodes to.
pub open spec fn properties_of(p: Json) -> Option<ConnectionProperties> {
    match (string_field(p, "os"@), string_field(p, "browser"@), string_field(p, "device"@)) {
        (Some(os), Some(browser), Some(device)) => Some(ConnectionProperties { os, browser, device }),
        _ => None,
    }
}

/// What an identify payload decodes to.
pub open spec fn identify_of(d: Json) -> Option<IdentifyData> {
    let properties = match d.field("properties"@) {
        Some(p) => properties_of(p),
        None => None,
    };
    let intents = match d.field("intents"@) {
        Some(v) => v.uint_of(),
        None => None,
    };
    match (string_field(d, "token"@), intents, properties) {
        (Some(token), Some(intents), Some(properties)) => Some(
            IdentifyData { token, intents, properties },
        ),
        _ => None,
    }
}

/// `d` is the wire form of an identify payload.
pub open spec fn identify_shape(d: Json, data: IdentifyData) -> bool {
    match d {
        Json::Object(f) => {
            &&& f@.len() == 3
            &&& f@[0].0@ == "token"@ && f@[0].1 == Json::Str(data.token)
            &&& f@[1].0@ == "intents"@ && f@[1].1 == Json::UInt(data.intents)
            &&& f@[2].0@ == "properties"@
            &&& three_members(
                f@[2].1,
                "os"@,
                Json::Str(data.properties.os),
                "browser"@,
                Json::Str(data.properties.browser),
                "device"@,
                Json::Str(data.properties.device),
            )
        },
        _ => false,
    }
}

/// The payload member of a frame object.
pub open spec fn payload_of(j: Json) -> Json {
    match j {
        Json::Object(f) => f@[3].1,
        _ => Json::Null,
    }
}

/// `j` is a frame with opcode `op`, no name or sequence number, and the
/// payload `payload_of(j)`.
pub open spec fn control_frame(j: Json, op: u8) -> bool {
    frame_shape(
        j,
        RawEvent { opcode: op, event_name: None, sequence_number: None, data: payload_of(j) },
    )
}

impl ConnectionProperties {
    /// Properties naming the operating system and this client.
    pub fn new(os: &str, client: &str) -> (r: ConnectionProperties)
        ensures
            r.os@ == os@,
            r.browser@ == client@,
            r.device@ == client@,
    {
        ConnectionProperties {
            os: String::from_str(os),
            browser: String::from_str(client),
            device: String::from_str(client),
        }
    }

    /// The wire form of the properties.
    pub fn into_json(self) -> (r: Json)
        ensures
            three_members(
                r,
                "os"@,
                Json::Str(self.os),
                "browser"@,
                Json::Str(self.browser),
                "device"@,
                Json::Str(self.device),
            ),
    {
        let mut f: Vec<(String, Json)> = Vec::new();
        f.push(entry("os", Json::Str(self.os)));
        f.push(entry("browser", Json::Str(self.browser)));
        f.push(entry("device", Json::Str(self.device)));
        Json::Object(f)
    }

    /// Reads connection properties.
    pub fn from_json(p: &Json) -> (r: Option<ConnectionProperties>)
        ensures
            r == properties_of(*p),
    {
        let os = match p.get("os") {
            Some(v) => v.to_text(),
            None => None,
        };
        let browser = match p.get("browser") {
            Some(v) => v.to_text(),
            None => None,
        };
        let device = match p.get("device") {
            Some(v) => v.to_text(),
            None => None,
        };
        match (os, browser, device) {
            (Some(os), Some(browser), Some(device)) => Some(
                ConnectionProperties { os, browser, device },
            ),
            _ => None,
        }
    }
}

impl IdentifyData {
    /// The wire form of the payload.
    pub fn into_json(self) -> (r: Json)
        ensures
            identify_shape(r, self),
    {
        let mut f: Vec<(String, Json)> = Vec::new();
        f.push(entry("token", Json::Str(self.token)));
        f.push(entry("intents", Json::UInt(self.intents)));
        f.push(entry("properties", self.properties.into_json()));
        Json::Object(f)
    }

    /// Reads an identify payload.
    pub fn from_json(d: &Json) -> (r: Option<IdentifyData>)
        ensures
            r == identify_of(*d),
    {
        let token = match d.get("token") {
            Some(v) => v.to_text(),
            None => None,
        };
        let intents = match d.get("intents") {
            Some(v) => v.as_u64(),
            None => None,
        };
        let properties = match d.get("properties") {
            Some(p) => ConnectionProperties::from_json(p),
            None => None,
        };
        match (token, intents, properties) {
            (Some(token), Some(intents), Some(properties)) => Some(
                IdentifyData { token, intents, properties },
            ),
            _ => None,
        }
    }

    /// The identify frame that carries this payload.
    pub fn into_frame(self) -> (r: Json)
        ensures
            control_frame(r, OP_IDENTIFY),
            identify_shape(payload_of(r), self),
    {
        RawEvent::new(OP_IDENTIFY, self.into_json()).into_json()
    }
}

/// The heartbeat frame for the last sequence number seen, `null` if none.
pub fn heartbeat_frame(sequence_number: Option<u64>) -> (r: Json)
    ensures
        control_frame(r, OP_HEARTBEAT),
        payload_of(r) == uint_or_null(sequence_number),
{
    let d = match sequence_number {
        Some(n) => Json::UInt(n),
        None => Json::Null,
    };
    RawEvent::new(OP_HEARTBEAT, d).into_json()
}

/// The resume frame for a session and the last sequence number seen.
pub fn resume_frame(token: &str, recover: &RecoverData, sequence_number: Option<u64>) -> (r: Json)
    ensures
        control_frame(r, OP_RESUME),
        three_members(
            payload_of(r),
            "token"@,
            Json::Str(payload_of(r)->Object_0@[0].1->Str_0),
            "session_id"@,
            Json::Str(recover.session_id),
            "seq"@,
            uint_or_null(sequence_number),
        ),
        payload_of(r)->Object_0@[0].1->Str_0@ == token@,
{
    let seq = match sequence_number {
        Some(n) => Json::UInt(n),
        None => Json::Null,
    };
    let mut f: Vec<(String, Json)> = Vec::new();
    f.push(entry("token", Json::Str(String::from_str(token))));
    f.push(entry("session_id", Json::Str(recover.session_id.clone())));
    f.push(entry("seq", seq));
    RawEvent::new(OP_RESUME, Json::Object(f)).into_json()
}

/// Decoding the wire form of a frame gives the frame back.
pub proof fn lemma_frame_round_trip(raw: RawEvent, j: Json)
    requires
        frame_shape(j, raw),
    ensures
        decode_raw(j) == Ok::<RawEvent, crate::gateway::FrameError>(raw),
{
    reveal_strlit("op");
    reveal_strlit("t");
    reveal_strlit("s");
    reveal_strlit("d");
    reveal_with_fuel(member, 5);
    let f = j->Object_0@;
    let f3 = f.drop_last();
    let f2 = f3.drop_last();
    let f1 = f2.drop_last();
    assert(f3.len() == 3 && f3.last() == f[2]);
    assert(f2.len() == 2 && f2.last() == f[1]);
    assert(f1.len() == 1 && f1.last() == f[0]);
    assert("op"@.len() == 2 && "d"@.len() == 1 && "s"@.len() == 1 && "t"@.len() == 1);
    assert("d"@[0] == 'd' && "s"@[0] == 's' && "t"@[0] == 't');
    assert(member(f, "d"@) == Some(f[3].1));
    assert(member(f2, "t"@) == Some(f[1].1));
    assert(member(f, "t"@) == Some(f[1].1));
    assert(member(f3, "s"@) == Some(f[2].1));
    assert(member(f, "s"@) == Some(f[2].1));
    assert(member(f1, "op"@) == Some(f[0].1));
    assert(member(f, "op"@) == Some(f[0].1));
    assert(decode_raw(j) == Ok::<RawEvent, crate::gateway::FrameError>(raw));
}

/// Encoding an identify payload into a frame and decoding that frame gives
/// back the identify opcode and the same token, intents and properties.
pub proof fn lemma_identify_round_trip(data: IdentifyData, j: Json)
    requires
        control_frame(j, OP_IDENTIFY),
        identify_shape(payload_of(j), data),
    ensures
        decode_raw(j) is Ok,
        decode_raw(j)->Ok_0.opcode == OP_IDENTIFY,
        identify_of(decode_raw(j)->Ok_0.data) == Some(data),
{
    lemma_frame_round_trip(
        RawEvent { opcode: OP_IDENTIFY, event_name: None, sequence_number: None, data: payload_of(j) },
        j,
    );
    reveal_strlit("token");
    reveal_strlit("intents");
    reveal_strlit("properties");
    reveal_strlit("os");
    reveal_strlit("browser");
    reveal_strlit("device");
    reveal_with_fuel(member, 4);
    assert("token"@.len() == 5 && "intents"@.len() == 7 && "properties"@.len() == 10);
    assert("os"@.len() == 2 && "browser"@.len() == 7 && "device"@.len() == 6);
    let d = payload_of(j);
    let f = d->Object_0@;
    assert(f.drop_last().last() == f[1]);
    assert(f.drop_last().drop_last().last() == f[0]);
    let p = f[2].1->Object_0@;
    assert(p.drop_last().last() == p[1]);
    assert(p.drop_last().drop_last().last() == p[0]);
    assert(properties_of(f[2].1) == Some(data.properties));
    assert(identify_of(d) == Some(data));
}

} // verus!
