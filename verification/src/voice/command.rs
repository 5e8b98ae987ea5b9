//! Commands of the voice gateway, and the envelope that each is sent in.

use crate::snowflake::{GuildId, UserId};
use crate::voice::Speaking;
use crate::wire::{fresh, object, one, put, Encode, Json, Value};
use vstd::prelude::*;
use vstd::std_specs::convert::FromSpecImpl;

verus! {

/// A command of the voice gateway.
#[derive(Clone, Debug)]
pub enum Command {
    Identify(Identify),
    SelectProtocol(SelectProtocol),
    Heartbeat(Heartbeat),
    Speaking(Speaking),
    Resume(Resume),
}

impl Command {
    /// The operation code of the command.
    pub open spec fn spec_op(self) -> u8 {
        match self {
            Command::Identify(_) => 0,
            Command::SelectProtocol(_) => 1,
            Command::Heartbeat(_) => 3,
            Command::Speaking(_) => 5,
            Command::Resume(_) => 7,
        }
    }

    /// The operation code of the command.
    pub fn op(&self) -> (r: u8)
        ensures
            r == self.spec_op(),
    {
        match self {
            Command::Identify(_) => 0,
            Command::SelectProtocol(_) => 1,
            Command::Heartbeat(_) => 3,
            Command::Speaking(_) => 5,
            Command::Resume(_) => 7,
        }
    }

    /// Whether the command is a heartbeat.
    pub fn is_heartbeat(&self) -> (r: bool)
        ensures
            r == (*self is Heartbeat),
    {
        match self {
            Command::Heartbeat(_) => true,
            _ => false,
        }
    }

    /// The wire form of what the command carries.
    pub open spec fn data(self) -> Json {
        match self {
            Command::Identify(d) => d.wire(),
            Command::SelectProtocol(d) => d.wire(),
            Command::Heartbeat(d) => d.wire(),
            Command::Speaking(d) => d.wire(),
            Command::Resume(d) => d.wire(),
        }
    }
}

impl Encode for Command {
    open spec fn wire(&self) -> Json {
        Json::Object(Seq::empty() + one("op"@, self.spec_op().wire()) + one("d"@, self.data()))
    }

    fn encode(&self) -> (r: Value) {
        let mut es = fresh();
        put(&mut es, "op", &self.op());
        match self {
            Command::Identify(d) => {
                put(&mut es, "d", d);
            },
            Command::SelectProtocol(d) => {
                put(&mut es, "d", d);
            },
            Command::Heartbeat(d) => {
                put(&mut es, "d", d);
            },
            Command::Speaking(d) => {
                put(&mut es, "d", d);
            },
            Command::Resume(d) => {
                put(&mut es, "d", d);
            },
        }
        object(es)
    }
}

impl From<Identify> for Command {
    fn from(command: Identify) -> (r: Self) {
        Command::Identify(command)
    }
}

impl FromSpecImpl<Identify> for Command {
    open spec fn obeys_from_spec() -> bool {
        true
    }

    open spec fn from_spec(v: Identify) -> Self {
        Command::Identify(v)
    }
}

impl From<SelectProtocol> for Command {
    fn from(command: SelectProtocol) -> (r: Self) {
        Command::SelectProtocol(command)
    }
}

impl FromSpecImpl<SelectProtocol> for Command {
    open spec fn obeys_from_spec() -> bool {
        true
    }

    open spec fn from_spec(v: SelectProtocol) -> Self {
        Command::SelectProtocol(v)
    }
}

impl From<Heartbeat> for Command {
    fn from(command: Heartbeat) -> (r: Self) {
        Command::Heartbeat(command)
    }
}

impl FromSpecImpl<Heartbeat> for Command {
    open spec fn obeys_from_spec() -> bool {
        true
    }

    open spec fn from_spec(v: Heartbeat) -> Self {
        Command::Heartbeat(v)
    }
}

impl From<Speaking> for Command {
    fn from(command: Speaking) -> (r: Self) {
        Command::Speaking(command)
    }
}

impl FromSpecImpl<Speaking> for Command {
    open spec fn obeys_from_spec() -> bool {
        true
    }

    open spec fn from_spec(v: Speaking) -> Self {
        Command::Speaking(v)
    }
}

impl From<Resume> for Command {
    fn from(command: Resume) -> (r: Self) {
        Command::Resume(command)
    }
}

impl FromSpecImpl<Resume> for Command {
    open spec fn obeys_from_spec() -> bool {
        true
    }

    open spec fn from_spec(v: Resume) -> Self {
        Command::Resume(v)
    }
}

/// Opens a voice session.
#[derive(Clone, Debug)]
pub struct Identify {
    pub guild_id: GuildId,
    pub user_id: UserId,
    pub session_id: String,
    pub token: String,
}

impl Encode for Identify {
    open spec fn wire(&self) -> Json {
        Json::Object(
            Seq::empty() + one("server_id"@, self.guild_id.wire())
                + one("user_id"@, self.user_id.wire())
                + one("session_id"@, self.session_id.wire())
                + one("token"@, self.token.wire()),
        )
    }

    fn encode(&self) -> (r: Value) {
        let mut es = fresh();
        put(&mut es, "server_id", &self.guild_id);
        put(&mut es, "user_id", &self.user_id);
        put(&mut es, "session_id", &self.session_id);
        put(&mut es, "token", &self.token);
        object(es)
    }
}

/// Takes up a voice session that was cut off.
#[derive(Clone, Debug)]
pub struct Resume {
    pub guild_id: GuildId,
    pub session_id: String,
    pub token: String,
}

impl Encode for Resume {
    open spec fn wire(&self) -> Json {
        Json::Object(
            Seq::empty() + one("server_id"@, self.guild_id.wire())
                + one("session_id"@, self.session_id.wire())
                + one("token"@, self.token.wire()),
        )
    }

    fn encode(&self) -> (r: Value) {
        let mut es = fresh();
        put(&mut es, "server_id", &self.guild_id);
        put(&mut es, "session_id", &self.session_id);
        put(&mut es, "token", &self.token);
        object(es)
    }
}

/// Keeps a voice session alive. It is sent as the bare nonce.
#[derive(Clone, Debug)]
pub struct Heartbeat {
    pub nonce: u64,
}

impl Encode for Heartbeat {
    open spec fn wire(&self) -> Json {
        self.nonce.wire()
    }

    fn encode(&self) -> (r: Value) {
        self.nonce.encode()
    }
}

impl Heartbeat {
    /// The heartbeat with the nonce `nonce`.
    pub fn new(nonce: u64) -> (r: Self)
        ensures
            r.nonce == nonce,
    {
        Heartbeat { nonce }
    }
}

/// Chooses how sound is sent.
#[derive(Clone, Debug)]
pub struct SelectProtocol {
    pub protocol: String,
    pub data: SelectProtocolData,
}

impl Encode for SelectProtocol {
    open spec fn wire(&self) -> Json {
        Json::Object(
            Seq::empty() + one("protocol"@, self.protocol.wire())
                + one("data"@, self.data.wire()),
        )
    }

    fn encode(&self) -> (r: Value) {
        let mut es = fresh();
        put(&mut es, "protocol", &self.protocol);
        put(&mut es, "data", &self.data);
        object(es)
    }
}

/// Where and how sound is sent.
#[derive(Clone, Debug)]
pub struct SelectProtocolData {
    pub address: String,
    pub port: u16,
    pub mode: String,
}

impl Encode for SelectProtocolData {
    open spec fn wire(&self) -> Json {
        Json::Object(
            Seq::empty() + one("address"@, self.address.wire())
                + one("port"@, self.port.wire())
                + one("mode"@, self.mode.wire()),
        )
    }

    fn encode(&self) -> (r: Value) {
        let mut es = fresh();
        put(&mut es, "address", &self.address);
        put(&mut es, "port", &self.port);
        put(&mut es, "mode", &self.mode);
        object(es)
    }
}

} // verus!
