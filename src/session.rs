use vstd::prelude::*;

use crate::frames::{
    control_frame, heartbeat_frame, identify_shape, payload_of, resume_frame, three_members,
    ConnectionProperties, IdentifyData, OP_HEARTBEAT, OP_IDENTIFY, OP_RESUME,
};
use crate::gateway::{
    decode_event, decode_raw, uint_or_null, DispatchedEvent, Event, FrameError,
    MessageCreatedEvent, RawEvent, ReadyEvent, RecoverData,
};
use crate::json::Json;
use crate::model::Intents;

verus! {

/// Where a session stands in the protocol.
#[derive(Debug, Clone, Copy, PartialEq, Eq, Structural)]
pub enum Phase {
    /// Connected for the first time; the server's hello is due.
    AwaitingHello,
    /// Identified; the ready dispatch is due.
    AwaitingReady,
    /// The steady state: dispatches flow and heartbeats are sent.
    Running,
    /// The heartbeat is stopped and the socket is being replaced.
    Replacing,
    /// Connected to the resume address; the server's hello is due.
    AwaitingResumeHello,
    /// The session has ended with a failure.
    Closed,
}

/// Why a session ended.
#[derive(Debug, Clone, Copy, PartialEq, Eq, Structural)]
pub enum SessionError {
    /// A frame expected during the handshake could not be decoded.
    Frame(FrameError),
    /// A frame arrived out of the handshake order.
    ProtocolViolation,
    /// The socket closed before the handshake completed.
    Closed,
    /// The socket failed, or a replacement socket could not be opened.
    Transport,
    /// A resume was due but no session data had been stored.
    ResumeWithoutSession,
}

/// What the caller must do after a step, in this order: stop the heartbeat,
/// replace the socket, start a heartbeat, send a frame, run the ready
/// handler, hand a message to its handler, and end with a failure.
#[derive(Debug)]
pub struct Reaction {
    pub abort_heartbeat: bool,
    pub replace_with: Option<String>,
    pub start_heartbeat: Option<u64>,
    pub send: Option<Json>,
    pub ready: bool,
    pub deliver: Option<MessageCreatedEvent>,
    pub failure: Option<SessionError>,
}

/// The reaction that asks for nothing.
pub open spec fn is_quiet(r: Reaction) -> bool {
    &&& !r.abort_heartbeat
    &&& r.replace_with is None
    &&& r.start_heartbeat is None
    &&& r.send is None
    &&& !r.ready
    &&& r.deliver is None
    &&& r.failure is None
}

/// The reaction that only ends the session with `e`.
pub open spec fn is_failure(r: Reaction, e: SessionError) -> bool {
    &&& !r.abort_heartbeat
    &&& r.replace_with is None
    &&& r.start_heartbeat is None
    &&& r.send is None
    &&& !r.ready
    &&& r.deliver is None
    &&& r.failure == Some(e)
}

/// The reaction that stops the heartbeat and opens a socket at `url`.
pub open spec fn is_reconnect(r: Reaction, url: String) -> bool {
    &&& r.abort_heartbeat
    &&& r.replace_with == Some(url)
    &&& r.start_heartbeat is None
    &&& r.send is None
    &&& !r.ready
    &&& r.deliver is None
    &&& r.failure is None
}

/// What a frame means: decoded, then interpreted by its opcode.
pub open spec fn decode_frame(j: Json) -> Result<Event, FrameError> {
    match decode_raw(j) {
        Ok(raw) => decode_event(raw),
        Err(e) => Err(e),
    }
}

/// The failure that ends a handshake on an event other than the one due.
pub open spec fn handshake_failure(ev: Result<Event, FrameError>) -> SessionError {
    match ev {
        Err(e) => SessionError::Frame(e),
        Ok(_) => SessionError::ProtocolViolation,
    }
}

/// The event is a ready dispatch.
pub open spec fn is_ready_dispatch(ev: Result<Event, FrameError>) -> bool {
    match ev {
        Ok(Event::Dispatch { event: DispatchedEvent::Ready(_), .. }) => true,
        _ => false,
    }
}

/// The phase after an event.
pub open spec fn next_phase(phase: Phase, has_session: bool, ev: Result<Event, FrameError>) -> Phase {
    match phase {
        Phase::AwaitingHello => match ev {
            Ok(Event::Hello { .. }) => Phase::AwaitingReady,
            _ => Phase::Closed,
        },
        Phase::AwaitingReady => if is_ready_dispatch(ev) {
            Phase::Running
        } else {
            Phase::Closed
        },
        Phase::Running => match ev {
            Ok(Event::Reconnect) => if has_session {
                Phase::Replacing
            } else {
                Phase::Closed
            },
            _ => Phase::Running,
        },
        Phase::AwaitingResumeHello => match ev {
            Ok(Event::Hello { .. }) => if has_session {
                Phase::Running
            } else {
                Phase::Closed
            },
            _ => Phase::Closed,
        },
        _ => phase,
    }
}

/// The last sequence number after an event: a dispatch taken in by the
/// session sets it, anything else leaves it.
pub open spec fn next_sequence(phase: Phase, seq: Option<u64>, ev: Result<Event, FrameError>) -> Option<
    u64,
> {
    match ev {
        Ok(Event::Dispatch { sequence_number, .. }) => if phase == Phase::Running || (phase
            == Phase::AwaitingReady && is_ready_dispatch(ev)) {
            Some(sequence_number)
        } else {
            seq
        },
        _ => seq,
    }
}

/// `a` is no later than `b`, where no sequence number comes before any.
pub open spec fn seq_le(a: Option<u64>, b: Option<u64>) -> bool {
    match (a, b) {
        (None, _) => true,
        (Some(x), Some(y)) => x <= y,
        (Some(_), None) => false,
    }
}

/// A protocol session: its phase and the state that survives reconnects.
#[derive(Debug)]
pub struct Session {
    pub phase: Phase,
    pub token: String,
    pub intents: Intents,
    pub properties: ConnectionProperties,
    pub last_sequence_number: Option<u64>,
    pub recover: Option<RecoverData>,
}

impl Reaction {
    /// A reaction that asks for nothing.
    pub fn quiet() -> (r: Reaction)
        ensures
            is_quiet(r),
    {
        Reaction {
            abort_heartbeat: false,
            replace_with: None,
            start_heartbeat: None,
            send: None,
            ready: false,
            deliver: None,
            failure: None,
        }
    }

    /// A reaction that ends the session with `e`.
    pub fn fail(e: SessionError) -> (r: Reaction)
        ensures
            is_failure(r, e),
    {
        Reaction {
            abort_heartbeat: false,
            replace_with: None,
            start_heartbeat: None,
            send: None,
            ready: false,
            deliver: None,
            failure: Some(e),
        }
    }
}

impl ConnectionProperties {
    /// A copy of the properties.
    pub fn duplicate(&self) -> (r: ConnectionProperties)
        ensures
            r == *self,
    {
        ConnectionProperties {
            os: self.os.clone(),
            browser: self.browser.clone(),
            device: self.device.clone(),
        }
    }
}

/// Decodes a frame and interprets it by its opcode.
pub fn decode(j: Json) -> (r: Result<Event, FrameError>)
    ensures
        r == decode_frame(j),
{
    match RawEvent::from_json(j) {
        Ok(raw) => raw.try_into_mature(),
        Err(e) => Err(e),
    }
}

impl Session {
    /// A session that has just opened its first socket.
    pub fn new(token: &str, intents: Intents, properties: ConnectionProperties) -> (r: Session)
        ensures
            r.phase == Phase::AwaitingHello,
            r.token@ == token@,
            r.intents == intents,
            r.properties == properties,
            r.last_sequence_number is None,
            r.recover is None,
    {
        Session {
            phase: Phase::AwaitingHello,
            token: String::from_str(token),
            intents,
            properties,
            last_sequence_number: None,
            recover: None,
        }
    }

    /// The identify payload of this session.
    pub open spec fn identify_data(&self) -> IdentifyData {
        IdentifyData {
            token: self.token,
            intents: self.intents.bits as u64,
            properties: self.properties,
        }
    }

    /// The heartbeat frame to send now: it carries the last sequence
    /// number, or `null` before the first dispatch.
    pub fn heartbeat(&self) -> (r: Json)
        ensures
            control_frame(r, OP_HEARTBEAT),
            payload_of(r) == uint_or_null(self.last_sequence_number),
    {
        heartbeat_frame(self.last_sequence_number)
    }

    /// Takes one protocol event.
    pub fn on_event(&mut self, ev: Result<Event, FrameError>) -> (r: Reaction)
        ensures
            final(self).phase == next_phase(
                old(self).phase,
                old(self).recover is Some,
                ev,
            ),
            final(self).last_sequence_number == next_sequence(
                old(self).phase,
                old(self).last_sequence_number,
                ev,
            ),
            final(self).token == old(self).token,
            final(self).intents == old(self).intents,
            final(self).properties == old(self).properties,
            old(self).phase == Phase::AwaitingHello ==> match ev {
                Ok(Event::Hello { heartbeat_interval }) => {
                    &&& r.start_heartbeat == Some(heartbeat_interval)
                    &&& r.send is Some
                    &&& control_frame(r.send->Some_0, OP_IDENTIFY)
                    &&& identify_shape(payload_of(r.send->Some_0), old(self).identify_data())
                    &&& !r.abort_heartbeat && r.replace_with is None && !r.ready
                    &&& r.deliver is None && r.failure is None
                },
                _ => is_failure(r, handshake_failure(ev)),
            },
            old(self).phase == Phase::AwaitingReady ==> match ev {
                Ok(
                    Event::Dispatch {
                        event: DispatchedEvent::Ready(ReadyEvent { session_id, resume_gateway_url }),
                        ..
                    },
                ) => {
                    &&& final(self).recover == Some(
                        RecoverData { session_id, resume_url: resume_gateway_url },
                    )
                    &&& r.ready
                    &&& !r.abort_heartbeat && r.replace_with is None
                    &&& r.start_heartbeat is None && r.send is None
                    &&& r.deliver is None && r.failure is None
                },
                _ => is_failure(r, handshake_failure(ev)) && final(self).recover == old(
                    self,
                ).recover,
            },
            old(self).phase == Phase::Running ==> final(self).recover == old(self).recover
                && match ev {
                Ok(Event::Dispatch { event: DispatchedEvent::MessageCreated(m), .. }) => {
                    &&& r.deliver == Some(m)
                    &&& !r.abort_heartbeat && r.replace_with is None
                    &&& r.start_heartbeat is None && r.send is None
                    &&& !r.ready && r.failure is None
                },
                Ok(Event::Reconnect) => match old(self).recover {
                    Some(rd) => is_reconnect(r, rd.resume_url),
                    None => is_failure(r, SessionError::ResumeWithoutSession),
                },
                _ => is_quiet(r),
            },
            old(self).phase == Phase::AwaitingResumeHello ==> final(self).recover == old(
                self,
            ).recover && match ev {
                Ok(Event::Hello { heartbeat_interval }) => if old(self).recover is None {
                    is_failure(r, SessionError::ResumeWithoutSession)
                } else {
                    &&& r.start_heartbeat == Some(heartbeat_interval)
                    &&& r.send is Some
                    &&& control_frame(r.send->Some_0, OP_RESUME)
                    &&& three_members(
                        payload_of(r.send->Some_0),
                        "token"@,
                        Json::Str(payload_of(r.send->Some_0)->Object_0@[0].1->Str_0),
                        "session_id"@,
                        Json::Str(old(self).recover->Some_0.session_id),
                        "seq"@,
                        uint_or_null(old(self).last_sequence_number),
                    )
                    &&& payload_of(r.send->Some_0)->Object_0@[0].1->Str_0@ == old(self).token@
                    &&& !r.abort_heartbeat && r.replace_with is None && !r.ready
                    &&& r.deliver is None && r.failure is None
                },
                _ => is_failure(r, handshake_failure(ev)),
            },
            (old(self).phase == Phase::Replacing || old(self).phase == Phase::Closed) ==> is_quiet(
                r,
            ) && final(self).recover == old(self).recover,
    {
        match self.phase {
            Phase::AwaitingHello => match ev {
                Ok(Event::Hello { heartbeat_interval }) => {
                    self.phase = Phase::AwaitingReady;
                    let data = IdentifyData {
                        token: self.token.clone(),
                        intents: self.intents.as_u64(),
                        properties: self.properties.duplicate(),
                    };
                    let mut r = Reaction::quiet();
                    r.start_heartbeat = Some(heartbeat_interval);
                    r.send = Some(data.into_frame());
                    r
                },
                Ok(_) => {
                    self.phase = Phase::Closed;
                    Reaction::fail(SessionError::ProtocolViolation)
                },
                Err(e) => {
                    self.phase = Phase::Closed;
                    Reaction::fail(SessionError::Frame(e))
                },
            },
            Phase::AwaitingReady => match ev {
                Ok(Event::Dispatch { sequence_number, event: DispatchedEvent::Ready(ready) }) => {
                    self.phase = Phase::Running;
                    self.last_sequence_number = Some(sequence_number);
                    self.recover = Some(
                        RecoverData {
                            session_id: ready.session_id,
                            resume_url: ready.resume_gateway_url,
                        },
                    );
                    let mut r = Reaction::quiet();
                    r.ready = true;
                    r
                },
                Ok(_) => {
                    self.phase = Phase::Closed;
                    Reaction::fail(SessionError::ProtocolViolation)
                },
                Err(e) => {
                    self.phase = Phase::Closed;
                    Reaction::fail(SessionError::Frame(e))
                },
            },
            Phase::Running => match ev {
                Ok(Event::Dispatch { sequence_number, event }) => {
                    self.last_sequence_number = Some(sequence_number);
                    let mut r = Reaction::quiet();
                    match event {
                        DispatchedEvent::MessageCreated(m) => {
                            r.deliver = Some(m);
                        },
                        _ => {},
                    }
                    r
                },
                Ok(Event::Reconnect) => self.begin_resume(),
                _ => Reaction::quiet(),
            },
            Phase::AwaitingResumeHello => match ev {
                Ok(Event::Hello { heartbeat_interval }) => {
                    match &self.recover {
                        Some(rd) => {
                            let frame = resume_frame(
                                self.token.as_str(),
                                rd,
                                self.last_sequence_number,
                            );
                            self.phase = Phase::Running;
                            let mut r = Reaction::quiet();
                            r.start_heartbeat = Some(heartbeat_interval);
                            r.send = Some(frame);
                            r
                        },
                        None => {
                            self.phase = Phase::Closed;
                            Reaction::fail(SessionError::ResumeWithoutSession)
                        },
                    }
                },
                Ok(_) => {
                    self.phase = Phase::Closed;
                    Reaction::fail(SessionError::ProtocolViolation)
                },
                Err(e) => {
                    self.phase = Phase::Closed;
                    Reaction::fail(SessionError::Frame(e))
                },
            },
            _ => Reaction::quiet(),
        }
    }

    /// Takes the loss of the socket: `closed` when it closed, otherwise it
    /// failed. A running session resumes; a handshake ends.
    pub fn on_socket_lost(&mut self, closed: bool) -> (r: Reaction)
        ensures
            final(self).last_sequence_number == old(self).last_sequence_number,
            final(self).recover == old(self).recover,
            final(self).token == old(self).token,
            final(self).intents == old(self).intents,
            final(self).properties == old(self).properties,
            old(self).phase == Phase::Running ==> match old(self).recover {
                Some(rd) => is_reconnect(r, rd.resume_url) && final(self).phase == Phase::Replacing,
                None => is_failure(r, SessionError::ResumeWithoutSession) && final(self).phase
                    == Phase::Closed,
            },
            (old(self).phase == Phase::Replacing || old(self).phase == Phase::Closed) ==> is_quiet(
                r,
            ) && final(self).phase == old(self).phase,
            (old(self).phase == Phase::AwaitingHello || old(self).phase == Phase::AwaitingReady
                || old(self).phase == Phase::AwaitingResumeHello) ==> final(self).phase
                == Phase::Closed && is_failure(
                r,
                if closed {
                    SessionError::Closed
                } else {
                    SessionError::Transport
                },
            ),
    {
        match self.phase {
            Phase::Running => self.begin_resume(),
            Phase::Replacing => Reaction::quiet(),
            Phase::Closed => Reaction::quiet(),
            _ => {
                self.phase = Phase::Closed;
                if closed {
                    Reaction::fail(SessionError::Closed)
                } else {
                    Reaction::fail(SessionError::Transport)
                }
            },
        }
    }

    /// Takes the outcome of replacing the socket: `opened` when the new
    /// socket is open. On failure the session ends.
    pub fn on_replaced(&mut self, opened: bool) -> (r: Reaction)
        ensures
            final(self).last_sequence_number == old(self).last_sequence_number,
            final(self).recover == old(self).recover,
            final(self).token == old(self).token,
            final(self).intents == old(self).intents,
            final(self).properties == old(self).properties,
            old(self).phase == Phase::Replacing && opened ==> final(self).phase
                == Phase::AwaitingResumeHello && is_quiet(r),
            old(self).phase == Phase::Replacing && !opened ==> final(self).phase == Phase::Closed
                && is_failure(r, SessionError::Transport),
            old(self).phase != Phase::Replacing ==> final(self).phase == old(self).phase
                && is_quiet(r),
    {
        match self.phase {
            Phase::Replacing => if opened {
                self.phase = Phase::AwaitingResumeHello;
                Reaction::quiet()
            } else {
                self.phase = Phase::Closed;
                Reaction::fail(SessionError::Transport)
            },
            _ => Reaction::quiet(),
        }
    }

    /// Stops the heartbeat and asks for a socket at the resume address.
    fn begin_resume(&mut self) -> (r: Reaction)
        ensures
            final(self).last_sequence_number == old(self).last_sequence_number,
            final(self).recover == old(self).recover,
            final(self).token == old(self).token,
            final(self).intents == old(self).intents,
            final(self).properties == old(self).properties,
            match old(self).recover {
                Some(rd) => is_reconnect(r, rd.resume_url) && final(self).phase == Phase::Replacing,
                None => is_failure(r, SessionError::ResumeWithoutSession) && final(self).phase
                    == Phase::Closed,
            },
    {
        match &self.recover {
            Some(rd) => {
                let url = rd.resume_url.clone();
                self.phase = Phase::Replacing;
                let mut r = Reaction::quiet();
                r.abort_heartbeat = true;
                r.replace_with = Some(url);
                r
            },
            None => {
                self.phase = Phase::Closed;
                Reaction::fail(SessionError::ResumeWithoutSession)
            },
        }
    }
}

/// The last sequence number after a run of events taken in while running.
pub open spec fn sequence_after(seq: Option<u64>, events: Seq<Result<Event, FrameError>>) -> Option<
    u64,
>
    decreases events.len(),
{
    if events.len() == 0 {
        seq
    } else {
        next_sequence(Phase::Running, sequence_after(seq, events.drop_last()), events.last())
    }
}

/// The sequence number of a dispatch.
pub open spec fn dispatch_number(ev: Result<Event, FrameError>) -> Option<u64> {
    match ev {
        Ok(Event::Dispatch { sequence_number, .. }) => Some(sequence_number),
        _ => None,
    }
}

/// Every event is a dispatch, and their sequence numbers never decrease.
pub open spec fn ordered_dispatches(events: Seq<Result<Event, FrameError>>) -> bool {
    &&& forall|i: int| 0 <= i < events.len() ==> (#[trigger] dispatch_number(events[i])) is Some
    &&& forall|i: int, j: int|
        0 <= i < j < events.len() ==> dispatch_number(events[i])->Some_0 <= dispatch_number(
            events[j],
        )->Some_0
}

/// Within one socket: no event asks to reconnect, and each dispatch carries
/// a sequence number no lower than `seq` and than every earlier dispatch.
pub open spec fn ordered_on_one_socket(
    seq: Option<u64>,
    events: Seq<Result<Event, FrameError>>,
) -> bool {
    &&& forall|i: int| 0 <= i < events.len() ==> !(#[trigger] events[i] matches Ok(Event::Reconnect))
    &&& forall|i: int|
        0 <= i < events.len() && (#[trigger] dispatch_number(events[i])) is Some ==> seq_le(
            seq,
            dispatch_number(events[i]),
        )
    &&& forall|i: int, j: int|
        0 <= i < j < events.len() && (#[trigger] dispatch_number(events[i])) is Some && (
        #[trigger] dispatch_number(events[j])) is Some ==> dispatch_number(events[i])->Some_0
            <= dispatch_number(events[j])->Some_0
}

/// After a run of dispatches with ordered sequence numbers, a running
/// session is still running, its last sequence number is that of the last
/// dispatch, and after the dispatch at `k` has been taken in, every later
/// state (and so every heartbeat built from it) carries a number no lower
/// than that dispatch's.
pub proof fn lemma_dispatch_run(seq: Option<u64>, events: Seq<Result<Event, FrameError>>)
    requires
        events.len() > 0,
        ordered_dispatches(events),
    ensures
        forall|i: int|
            0 <= i < events.len() ==> next_phase(Phase::Running, true, #[trigger] events[i])
                == Phase::Running,
        sequence_after(seq, events) == dispatch_number(events.last()),
        forall|k: int, j: int|
            0 <= k < j <= events.len() ==> seq_le(
                #[trigger] dispatch_number(events[k]),
                #[trigger] sequence_after(seq, events.take(j)),
            ),
{
    assert forall|i: int| 0 <= i < events.len() implies next_phase(
        Phase::Running,
        true,
        #[trigger] events[i],
    ) == Phase::Running by {
        assert(dispatch_number(events[i]) is Some);
    }
    assert(dispatch_number(events[events.len() - 1]) is Some);
    assert forall|k: int, j: int| 0 <= k < j <= events.len() implies seq_le(
        #[trigger] dispatch_number(events[k]),
        #[trigger] sequence_after(seq, events.take(j)),
    ) by {
        let t = events.take(j);
        assert(t.drop_last() =~= events.take(j - 1));
        assert(t.last() == events[j - 1]);
        assert(dispatch_number(events[j - 1]) is Some);
        assert(dispatch_number(events[k]) is Some);
    }
}

/// While the events keep to one socket, the last sequence number after the
/// first `j` events is no later than that of any dispatch at or after `j`.
proof fn lemma_below_later_dispatch(
    seq: Option<u64>,
    events: Seq<Result<Event, FrameError>>,
    j: int,
    m: int,
)
    requires
        ordered_on_one_socket(seq, events),
        0 <= j <= m < events.len(),
        dispatch_number(events[m]) is Some,
    ensures
        seq_le(sequence_after(seq, events.take(j)), dispatch_number(events[m])),
    decreases j,
{
    if j > 0 {
        let t = events.take(j);
        assert(t.drop_last() =~= events.take(j - 1));
        assert(t.last() == events[j - 1]);
        lemma_below_later_dispatch(seq, events, j - 1, m);
        if dispatch_number(events[j - 1]) is Some {
            assert(dispatch_number(events[j - 1])->Some_0 <= dispatch_number(events[m])->Some_0);
        }
    } else {
        assert(events.take(0) =~= Seq::<Result<Event, FrameError>>::empty());
        assert(sequence_after(seq, events.take(0)) == seq);
        assert(seq_le(seq, dispatch_number(events[m])));
    }
}

/// Heartbeats sent on one socket never go back: for `i <= j`, the last
/// sequence number after the first `i` events is no later than after the
/// first `j`.
pub proof fn lemma_heartbeats_never_go_back(
    seq: Option<u64>,
    events: Seq<Result<Event, FrameError>>,
    i: int,
    j: int,
)
    requires
        ordered_on_one_socket(seq, events),
        0 <= i <= j <= events.len(),
    ensures
        seq_le(sequence_after(seq, events.take(i)), sequence_after(seq, events.take(j))),
    decreases j - i,
{
    if i < j {
        lemma_heartbeats_never_go_back(seq, events, i, j - 1);
        let t = events.take(j);
        assert(t.drop_last() =~= events.take(j - 1));
        assert(t.last() == events[j - 1]);
        if dispatch_number(events[j - 1]) is Some {
            lemma_below_later_dispatch(seq, events, i, j - 1);
        }
    } else {
        let a = sequence_after(seq, events.take(i));
        assert(seq_le(a, a));
    }
}

} // verus!
