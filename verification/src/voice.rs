//! Events of the voice gateway, and the reader that classifies a frame by
//! its operation code before it reads the data.

use crate::flags::SpeakingFlags;
use crate::wire::{
    as_unsigned, defaulted, defaulted_rejection, entries_view, find, fresh, has_defaulted,
    has_required, lookup, object, object_of, one, put, required, required_rejection, Decode,
    DecodeError, Encode, Entry, Json, Lookup, Number, SecretKey, Sooner, Value,
};
use vstd::prelude::*;
use vstd::string::*;

pub mod command;

verus! {

/// An event was taken for one of another kind.
#[derive(Clone, Copy, Debug, PartialEq, Eq)]
pub struct EventError;

impl EventError {
    /// What the error is shown as.
    pub fn to_text(&self) -> (r: String)
        ensures
            r@ == "Event error"@,
    {
        String::from_str("Event error")
    }
}

/// The greeting of the voice gateway. The time between heartbeats is in
/// milliseconds, as the number stands in the frame.
#[derive(Clone, Debug)]
pub struct Hello {
    pub heartbeat_interval: Number,
}

impl Decode for Hello {
    open spec fn decodes(j: Json, x: Self) -> bool {
        &&& j matches Json::Object(es)
        &&& has_required(es, "heartbeat_interval"@, x.heartbeat_interval)
    }

    open spec fn rejection(j: Json) -> Option<DecodeError> {
        match j {
            Json::Object(es) => required_rejection::<Number>(es, "heartbeat_interval"),
            _ => Some(DecodeError::InvalidValue),
        }
    }

    fn decode(v: &Value) -> (r: Result<Self, DecodeError>) {
        let es = object_of(v)?;
        let heartbeat_interval = required::<Number>(es, "heartbeat_interval")?;
        Ok(Hello { heartbeat_interval })
    }
}

/// The voice session is set up.
#[derive(Clone, Debug)]
pub struct Ready {
    pub ssrc: u32,
    pub ip: String,
    pub port: u16,
    pub modes: Vec<String>,
}

impl Decode for Ready {
    open spec fn decodes(j: Json, x: Self) -> bool {
        &&& j matches Json::Object(es)
        &&& has_required(es, "ssrc"@, x.ssrc)
        &&& has_required(es, "ip"@, x.ip)
        &&& has_required(es, "port"@, x.port)
        &&& has_required(es, "modes"@, x.modes)
    }

    open spec fn rejection(j: Json) -> Option<DecodeError> {
        match j {
            Json::Object(es) => required_rejection::<u32>(es, "ssrc").or_later(
                required_rejection::<String>(es, "ip"),
            ).or_later(
                required_rejection::<u16>(es, "port"),
            ).or_later(
                required_rejection::<Vec<String>>(es, "modes"),
            ),
            _ => Some(DecodeError::InvalidValue),
        }
    }

    fn decode(v: &Value) -> (r: Result<Self, DecodeError>) {
        let es = object_of(v)?;
        let ssrc = required::<u32>(es, "ssrc")?;
        let ip = required::<String>(es, "ip")?;
        let port = required::<u16>(es, "port")?;
        let modes = required::<Vec<String>>(es, "modes")?;
        Ok(Ready { ssrc, ip, port, modes })
    }
}

/// A heartbeat was received.
#[derive(Clone, Debug)]
pub struct HeartbeatAck {
    pub nonce: u64,
}

impl Decode for HeartbeatAck {
    open spec fn decodes(j: Json, x: Self) -> bool {
        u64::decodes(j, x.nonce)
    }

    open spec fn rejection(j: Json) -> Option<DecodeError> {
        u64::rejection(j)
    }

    fn decode(v: &Value) -> (r: Result<Self, DecodeError>) {
        match u64::decode(v) {
            Ok(nonce) => Ok(HeartbeatAck { nonce }),
            Err(e) => Err(e),
        }
    }
}

/// How the sound of the session is encrypted.
#[derive(Clone)]
pub struct SessionDescription {
    pub mode: String,
    pub secret_key: SecretKey,
}

impl Decode for SessionDescription {
    open spec fn decodes(j: Json, x: Self) -> bool {
        &&& j matches Json::Object(es)
        &&& has_required(es, "mode"@, x.mode)
        &&& has_required(es, "secret_key"@, x.secret_key)
    }

    open spec fn rejection(j: Json) -> Option<DecodeError> {
        match j {
            Json::Object(es) => required_rejection::<String>(es, "mode").or_later(
                required_rejection::<SecretKey>(es, "secret_key"),
            ),
            _ => Some(DecodeError::InvalidValue),
        }
    }

    fn decode(v: &Value) -> (r: Result<Self, DecodeError>) {
        let es = object_of(v)?;
        let mode = required::<String>(es, "mode")?;
        let secret_key = required::<SecretKey>(es, "secret_key")?;
        Ok(SessionDescription { mode, secret_key })
    }
}

impl SessionDescription {
    /// What the description is shown as: its mode, and nothing of the key.
    pub fn to_text(&self) -> (r: String)
        ensures
            r@ == "SessionDescription { mode: "@ + self.mode@ + " }"@,
    {
        let mut out = String::from_str("SessionDescription { mode: ");
        out.append(self.mode.as_str());
        out.append(" }");
        out
    }
}

/// Who is sending sound, and how.
#[derive(Clone, Debug)]
pub struct Speaking {
    pub speaking: SpeakingFlags,
    pub delay: u32,
    pub ssrc: u32,
}

impl Decode for Speaking {
    open spec fn decodes(j: Json, x: Self) -> bool {
        &&& j matches Json::Object(es)
        &&& has_required(es, "speaking"@, x.speaking)
        &&& has_defaulted(es, "delay"@, x.delay)
        &&& has_required(es, "ssrc"@, x.ssrc)
    }

    open spec fn rejection(j: Json) -> Option<DecodeError> {
        match j {
            Json::Object(es) => required_rejection::<SpeakingFlags>(es, "speaking").or_later(
                defaulted_rejection::<u32>(es, "delay"),
            ).or_later(
                required_rejection::<u32>(es, "ssrc"),
            ),
            _ => Some(DecodeError::InvalidValue),
        }
    }

    fn decode(v: &Value) -> (r: Result<Self, DecodeError>) {
        let es = object_of(v)?;
        let speaking = required::<SpeakingFlags>(es, "speaking")?;
        let delay = defaulted::<u32>(es, "delay")?;
        let ssrc = required::<u32>(es, "ssrc")?;
        Ok(Speaking { speaking, delay, ssrc })
    }
}

impl Encode for Speaking {
    open spec fn wire(&self) -> Json {
        Json::Object(
            Seq::empty() + one("speaking"@, self.speaking.wire())
                + one("delay"@, self.delay.wire())
                + one("ssrc"@, self.ssrc.wire()),
        )
    }

    fn encode(&self) -> (r: Value) {
        let mut es = fresh();
        put(&mut es, "speaking", &self.speaking);
        put(&mut es, "delay", &self.delay);
        put(&mut es, "ssrc", &self.ssrc);
        object(es)
    }
}

/// An event of the voice gateway.
#[derive(Clone)]
pub enum Event {
    Hello(Hello),
    Ready(Ready),
    Resumed,
    HeartbeatAck(HeartbeatAck),
    SessionDescription(SessionDescription),
    Speaking(Speaking),
    /// An event with an operation code that is not known.
    Unknown(u8),
}

/// What the keys `op` and `d` of a voice frame hold.
pub struct Envelope {
    pub op: u8,
    pub d: Json,
}

/// The operation code of a frame: the number under `op`, if the key is
/// there.
pub open spec fn op_of(es: Seq<(Seq<char>, Json)>) -> Result<Option<u8>, DecodeError> {
    match lookup(es, "op"@) {
        Lookup::Absent => Ok(None),
        Lookup::Once(Json::Unsigned(n)) => if n <= 255 {
            Ok(Some(n as u8))
        } else {
            Err(DecodeError::InvalidValue)
        },
        Lookup::Once(_) => Err(DecodeError::InvalidValue),
        Lookup::Repeated => Err(DecodeError::DuplicateField("op")),
    }
}

/// The envelope of a frame, whatever the order of its keys. A frame that is
/// no object is an `InvalidValue`. Then the first of these that applies:
/// `op` occurs twice or holds no number of 8 bits; `d` occurs twice; no `d`;
/// no `op`. Other keys are passed over.
pub open spec fn envelope(j: Json) -> Result<Envelope, DecodeError> {
    match j {
        Json::Object(es) => match op_of(es) {
            Err(e) => Err(e),
            Ok(op) => match lookup(es, "d"@) {
                Lookup::Repeated => Err(DecodeError::DuplicateField("d")),
                Lookup::Absent => Err(DecodeError::MissingField("d")),
                Lookup::Once(d) => match op {
                    None => Err(DecodeError::MissingField("op")),
                    Some(op) => Ok(Envelope { op, d }),
                },
            },
        },
        _ => Err(DecodeError::InvalidValue),
    }
}

/// Whether `e` is the event that a frame with the operation code `op` and
/// the data `d` holds.
pub open spec fn event_decodes(op: u8, d: Json, e: Event) -> bool {
    if op == 2 {
        e matches Event::Ready(x) && Ready::decodes(d, x)
    } else if op == 4 {
        e matches Event::SessionDescription(x) && SessionDescription::decodes(d, x)
    } else if op == 5 {
        e matches Event::Speaking(x) && Speaking::decodes(d, x)
    } else if op == 6 {
        e matches Event::HeartbeatAck(x) && HeartbeatAck::decodes(d, x)
    } else if op == 8 {
        e matches Event::Hello(x) && Hello::decodes(d, x)
    } else if op == 9 {
        e is Resumed
    } else {
        e == Event::Unknown(op)
    }
}

/// Whether `j` is a wire form of the frame that holds the event `x`.
pub open spec fn frame_decodes(j: Json, x: Event) -> bool {
    envelope(j) matches Ok(env) && event_decodes(env.op, env.d, x)
}

/// The error that reading the data `d` of a frame with the operation code
/// `op` ends in, or `None` where it is read. The data of `Resumed` and of an
/// unknown code is passed over.
pub open spec fn event_rejection(op: u8, d: Json) -> Option<DecodeError> {
    if op == 2 {
        Ready::rejection(d)
    } else if op == 4 {
        SessionDescription::rejection(d)
    } else if op == 5 {
        Speaking::rejection(d)
    } else if op == 6 {
        HeartbeatAck::rejection(d)
    } else if op == 8 {
        Hello::rejection(d)
    } else if op == 9 {
        None
    } else {
        None
    }
}

/// The error that reading the frame `j` ends in, or `None` where it is read:
/// the error of the envelope, else the error of the data.
pub open spec fn frame_rejection(j: Json) -> Option<DecodeError> {
    match envelope(j) {
        Err(e) => Some(e),
        Ok(env) => event_rejection(env.op, env.d),
    }
}

/// A frame whose envelope is in order is read, whatever its data, where its
/// operation code is 9 or is none of 2, 4, 5, 6 and 8.
pub proof fn lemma_data_passed_over(j: Json)
    requires
        envelope(j) is Ok,
        ({
            let op = envelope(j)->Ok_0.op;
            op == 9 || !(op == 2 || op == 4 || op == 5 || op == 6 || op == 8)
        }),
    ensures
        frame_rejection(j) is None,
{
}

fn read_op(es: &Vec<Entry>) -> (r: Result<Option<u8>, DecodeError>)
    ensures
        r == op_of(entries_view(es@)),
{
    match find(es, "op")? {
        None => Ok(None),
        Some(v) => match as_unsigned(v) {
            Some(n) => if n <= 255 {
                Ok(Some(n as u8))
            } else {
                Err(DecodeError::InvalidValue)
            },
            None => Err(DecodeError::InvalidValue),
        },
    }
}

impl Event {
    /// Reads the event with the operation code `op` from the data `d`. The
    /// data of `Resumed` and of an unknown code is passed over.
    pub fn decode_as(op: u8, d: &Value) -> (r: Result<Event, DecodeError>)
        ensures
            match r {
                Ok(e) => event_decodes(op, d@, e) && event_rejection(op, d@) is None,
                Err(e) => event_rejection(op, d@) == Some(e) && forall|x: Event|
                    !event_decodes(op, d@, x),
            },
    {
        if op == 2 {
            match Ready::decode(d) {
                Ok(x) => Ok(Event::Ready(x)),
                Err(e) => Err(e),
            }
        } else if op == 4 {
            match SessionDescription::decode(d) {
                Ok(x) => Ok(Event::SessionDescription(x)),
                Err(e) => Err(e),
            }
        } else if op == 5 {
            match Speaking::decode(d) {
                Ok(x) => Ok(Event::Speaking(x)),
                Err(e) => Err(e),
            }
        } else if op == 6 {
            match HeartbeatAck::decode(d) {
                Ok(x) => Ok(Event::HeartbeatAck(x)),
                Err(e) => Err(e),
            }
        } else if op == 8 {
            match Hello::decode(d) {
                Ok(x) => Ok(Event::Hello(x)),
                Err(e) => Err(e),
            }
        } else if op == 9 {
            Ok(Event::Resumed)
        } else {
            Ok(Event::Unknown(op))
        }
    }

    /// Reads a frame. Its keys may stand in any order: the event is
    /// classified by `op` before `d` is read. It fails with the error that
    /// `frame_rejection` gives, and then the frame is the wire form of no
    /// event.
    pub fn decode_frame(v: &Value) -> (r: Result<Event, DecodeError>)
        ensures
            match r {
                Ok(x) => frame_rejection(v@) is None && frame_decodes(v@, x),
                Err(e) => frame_rejection(v@) == Some(e) && forall|x: Event| !frame_decodes(v@, x),
            },
    {
        let es = object_of(v)?;
        let op = read_op(es)?;
        let d = match find(es, "d")? {
            Some(d) => d,
            None => {
                return Err(DecodeError::MissingField("d"));
            },
        };
        let op = match op {
            Some(op) => op,
            None => {
                return Err(DecodeError::MissingField("op"));
            },
        };
        Event::decode_as(op, d)
    }

    /// The greeting that the event is, or an error where it is none.
    pub fn expect_hello(self) -> (r: Result<Hello, EventError>)
        ensures
            match r {
                Ok(h) => self == Event::Hello(h),
                Err(_) => !(self is Hello),
            },
    {
        match self {
            Event::Hello(event) => Ok(event),
            _ => Err(EventError),
        }
    }

    /// The set-up of the session that the event is, or an error where it is
    /// none.
    pub fn expect_ready(self) -> (r: Result<Ready, EventError>)
        ensures
            match r {
                Ok(x) => self == Event::Ready(x),
                Err(_) => !(self is Ready),
            },
    {
        match self {
            Event::Ready(ready) => Ok(ready),
            _ => Err(EventError),
        }
    }

    /// Nothing where the event says that the session was taken up again, or
    /// an error where it says something else.
    pub fn expect_resumed(self) -> (r: Result<(), EventError>)
        ensures
            r is Ok <==> self is Resumed,
    {
        match self {
            Event::Resumed => Ok(()),
            _ => Err(EventError),
        }
    }

    /// Whether the event acknowledges a heartbeat.
    pub fn is_heartbeat_ack(&self) -> (r: bool)
        ensures
            r == (*self is HeartbeatAck),
    {
        match self {
            Event::HeartbeatAck(_) => true,
            _ => false,
        }
    }

    /// Whether the event says that the session is ready: set up, or taken up
    /// again.
    pub fn is_ready_kind(&self) -> (r: bool)
        ensures
            r == (*self is Ready || *self is Resumed),
    {
        match self {
            Event::Ready(_) | Event::Resumed => true,
            _ => false,
        }
    }
}

impl Decode for Event {
    open spec fn decodes(j: Json, x: Self) -> bool {
        frame_decodes(j, x)
    }

    open spec fn rejection(j: Json) -> Option<DecodeError> {
        frame_rejection(j)
    }

    fn decode(v: &Value) -> (r: Result<Self, DecodeError>) {
        Event::decode_frame(v)
    }
}

} // verus!
