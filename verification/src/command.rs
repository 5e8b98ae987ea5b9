//! Commands of the main gateway, and the envelope that each is sent in: the
//! operation code under `op`, then what the command carries under `d`.

use crate::flags::Intents;
use crate::idset::IdSet;
use crate::kinds::Status;
use crate::snowflake::{ChannelId, GuildId, UserId};
use crate::text::{decimal, render_u64};
use crate::wire::{fresh, maybe, object, one, put, put_some, Encode, Json, Value};
use vstd::prelude::*;
use vstd::std_specs::convert::{FromSpecImpl, IntoSpec};
use vstd::string::*;

verus! {

/// A command of the main gateway.
#[derive(Clone, Debug)]
pub enum Command {
    Heartbeat(Heartbeat),
    Identify(Identify),
    UpdateStatus(UpdateStatus),
    UpdateVoiceState(UpdateVoiceState),
    Resume(Resume),
    RequestGuildMembers(RequestGuildMembers),
}

impl Command {
    /// The operation code of the command.
    pub open spec fn spec_op(self) -> u8 {
        match self {
            Command::Heartbeat(_) => 1,
            Command::Identify(_) => 2,
            Command::UpdateStatus(_) => 3,
            Command::UpdateVoiceState(_) => 4,
            Command::Resume(_) => 6,
            Command::RequestGuildMembers(_) => 8,
        }
    }

    /// The operation code of the command.
    pub fn op(&self) -> (r: u8)
        ensures
            r == self.spec_op(),
    {
        match self {
            Command::Heartbeat(_) => 1,
            Command::Identify(_) => 2,
            Command::UpdateStatus(_) => 3,
            Command::UpdateVoiceState(_) => 4,
            Command::Resume(_) => 6,
            Command::RequestGuildMembers(_) => 8,
        }
    }

    /// Whether the command is a heartbeat.
    pub fn is_heartbeat(&self) -> (r: bool)
        ensures
            r == (*self is Heartbeat),
    {
        match self {
            Command::Heartbeat(_) => true,
            _ => false,
        }
    }

    /// The wire form of what the command carries.
    pub open spec fn data(self) -> Json {
        match self {
            Command::Heartbeat(d) => d.wire(),
            Command::Identify(d) => d.wire(),
            Command::UpdateStatus(d) => d.wire(),
            Command::UpdateVoiceState(d) => d.wire(),
            Command::Resume(d) => d.wire(),
            Command::RequestGuildMembers(d) => d.wire(),
        }
    }

    /// What the command is shown as: its name, and for a heartbeat the
    /// sequence number in brackets.
    pub open spec fn spec_text(self) -> Seq<char> {
        match self {
            Command::Identify(_) => "Identify"@,
            Command::Resume(_) => "Resume"@,
            Command::Heartbeat(c) => "Heartbeat("@ + decimal(c.sequence as nat) + ")"@,
            Command::RequestGuildMembers(_) => "RequestGuildMembers"@,
            Command::UpdateVoiceState(_) => "UpdateVoiceState"@,
            Command::UpdateStatus(_) => "UpdateStatus"@,
        }
    }

    /// What the command is shown as.
    pub fn to_text(&self) -> (r: String)
        ensures
            r@ == self.spec_text(),
    {
        match self {
            Command::Identify(_) => String::from_str("Identify"),
            Command::Resume(_) => String::from_str("Resume"),
            Command::Heartbeat(c) => {
                let mut out = String::from_str("Heartbeat(");
                let number = c.to_text();
                out.append(number.as_str());
                out.append(")");
                out
            },
            Command::RequestGuildMembers(_) => String::from_str("RequestGuildMembers"),
            Command::UpdateVoiceState(_) => String::from_str("UpdateVoiceState"),
            Command::UpdateStatus(_) => String::from_str("UpdateStatus"),
        }
    }

    /// The heartbeat that `value` turns into, as a command.
    pub fn heartbeat<T: Into<Heartbeat>>(value: T) -> (r: Self)
        ensures
            r is Heartbeat,
            T::obeys_into_spec() ==> r == Command::Heartbeat(value.into_spec()),
    {
        Command::Heartbeat(value.into())
    }
}

impl Encode for Command {
    open spec fn wire(&self) -> Json {
        Json::Object(Seq::empty() + one("op"@, self.spec_op().wire()) + one("d"@, self.data()))
    }

    fn encode(&self) -> (r: Value) {
        let mut es = fresh();
        put(&mut es, "op", &self.op());
        match self {
            Command::Heartbeat(d) => {
                put(&mut es, "d", d);
            },
            Command::Identify(d) => {
                put(&mut es, "d", d);
            },
            Command::UpdateStatus(d) => {
                put(&mut es, "d", d);
            },
            Command::UpdateVoiceState(d) => {
                put(&mut es, "d", d);
            },
            Command::Resume(d) => {
                put(&mut es, "d", d);
            },
            Command::RequestGuildMembers(d) => {
                put(&mut es, "d", d);
            },
        }
        object(es)
    }
}

impl From<Heartbeat> for Command {
    fn from(command: Heartbeat) -> (r: Self) {
        Command::Heartbeat(command)
    }
}

impl FromSpecImpl<Heartbeat> for Command {
    open spec fn obeys_from_spec() -> bool {
        true
    }

    open spec fn from_spec(v: Heartbeat) -> Self {
        Command::Heartbeat(v)
    }
}

impl From<Identify> for Command {
    fn from(command: Identify) -> (r: Self) {
        Command::Identify(command)
    }
}

impl FromSpecImpl<Identify> for Command {
    open spec fn obeys_from_spec() -> bool {
        true
    }

    open spec fn from_spec(v: Identify) -> Self {
        Command::Identify(v)
    }
}

impl From<UpdateStatus> for Command {
    fn from(command: UpdateStatus) -> (r: Self) {
        Command::UpdateStatus(command)
    }
}

impl FromSpecImpl<UpdateStatus> for Command {
    open spec fn obeys_from_spec() -> bool {
        true
    }

    open spec fn from_spec(v: UpdateStatus) -> Self {
        Command::UpdateStatus(v)
    }
}

impl From<UpdateVoiceState> for Command {
    fn from(command: UpdateVoiceState) -> (r: Self) {
        Command::UpdateVoiceState(command)
    }
}

impl FromSpecImpl<UpdateVoiceState> for Command {
    open spec fn obeys_from_spec() -> bool {
        true
    }

    open spec fn from_spec(v: UpdateVoiceState) -> Self {
        Command::UpdateVoiceState(v)
    }
}

impl From<Resume> for Command {
    fn from(command: Resume) -> (r: Self) {
        Command::Resume(command)
    }
}

impl FromSpecImpl<Resume> for Command {
    open spec fn obeys_from_spec() -> bool {
        true
    }

    open spec fn from_spec(v: Resume) -> Self {
        Command::Resume(v)
    }
}

impl From<RequestGuildMembers> for Command {
    fn from(command: RequestGuildMembers) -> (r: Self) {
        Command::RequestGuildMembers(command)
    }
}

impl FromSpecImpl<RequestGuildMembers> for Command {
    open spec fn obeys_from_spec() -> bool {
        true
    }

    open spec fn from_spec(v: RequestGuildMembers) -> Self {
        Command::RequestGuildMembers(v)
    }
}

/// Opens a session.
#[derive(Clone, Debug)]
pub struct Identify {
    pub token: String,
    pub properties: ConnectionProperties,
    pub compress: Option<bool>,
    pub large_threshold: Option<u8>,
    pub shard: Option<(u8, u8)>,
    pub presence: Option<UpdateStatus>,
    pub guild_subscriptions: Option<bool>,
    pub intents: Option<Intents>,
}

impl Encode for Identify {
    open spec fn wire(&self) -> Json {
        Json::Object(
            Seq::empty() + one("token"@, self.token.wire())
                + one("properties"@, self.properties.wire())
                + maybe("compress"@, self.compress)
                + maybe("large_threshold"@, self.large_threshold)
                + maybe("shard"@, self.shard)
                + maybe("presence"@, self.presence)
                + maybe("guild_subscriptions"@, self.guild_subscriptions)
                + maybe("intents"@, self.intents),
        )
    }

    fn encode(&self) -> (r: Value) {
        let mut es = fresh();
        put(&mut es, "token", &self.token);
        put(&mut es, "properties", &self.properties);
        put_some(&mut es, "compress", &self.compress);
        put_some(&mut es, "large_threshold", &self.large_threshold);
        put_some(&mut es, "shard", &self.shard);
        put_some(&mut es, "presence", &self.presence);
        put_some(&mut es, "guild_subscriptions", &self.guild_subscriptions);
        put_some(&mut es, "intents", &self.intents);
        object(es)
    }
}

/// Takes up a session that was cut off.
#[derive(Clone, Debug)]
pub struct Resume {
    pub token: String,
    pub session_id: String,
    pub seq: u64,
}

impl Encode for Resume {
    open spec fn wire(&self) -> Json {
        Json::Object(
            Seq::empty() + one("token"@, self.token.wire())
                + one("session_id"@, self.session_id.wire())
                + one("seq"@, self.seq.wire()),
        )
    }

    fn encode(&self) -> (r: Value) {
        let mut es = fresh();
        put(&mut es, "token", &self.token);
        put(&mut es, "session_id", &self.session_id);
        put(&mut es, "seq", &self.seq);
        object(es)
    }
}

/// Keeps a session alive. It is sent as the bare sequence number.
#[derive(Clone, Debug)]
pub struct Heartbeat {
    pub sequence: u64,
}

impl Encode for Heartbeat {
    open spec fn wire(&self) -> Json {
        self.sequence.wire()
    }

    fn encode(&self) -> (r: Value) {
        self.sequence.encode()
    }
}

impl Heartbeat {
    /// The sequence number in decimal.
    pub fn to_text(&self) -> (r: String)
        ensures
            r@ == decimal(self.sequence as nat),
    {
        render_u64(self.sequence)
    }
}

impl From<u64> for Heartbeat {
    fn from(sequence: u64) -> (r: Self) {
        Heartbeat { sequence }
    }
}

impl FromSpecImpl<u64> for Heartbeat {
    open spec fn obeys_from_spec() -> bool {
        true
    }

    open spec fn from_spec(v: u64) -> Self {
        Heartbeat { sequence: v }
    }
}

/// Joins, moves between or leaves voice channels.
#[derive(Clone, Debug)]
pub struct UpdateVoiceState {
    pub guild_id: GuildId,
    pub channel_id: Option<ChannelId>,
    pub self_mute: bool,
    pub self_deaf: bool,
}

impl Encode for UpdateVoiceState {
    open spec fn wire(&self) -> Json {
        Json::Object(
            Seq::empty() + one("guild_id"@, self.guild_id.wire())
                + one("channel_id"@, self.channel_id.wire())
                + one("self_mute"@, self.self_mute.wire())
                + one("self_deaf"@, self.self_deaf.wire()),
        )
    }

    fn encode(&self) -> (r: Value) {
        let mut es = fresh();
        put(&mut es, "guild_id", &self.guild_id);
        put(&mut es, "channel_id", &self.channel_id);
        put(&mut es, "self_mute", &self.self_mute);
        put(&mut es, "self_deaf", &self.self_deaf);
        object(es)
    }
}

/// Sets what the session is shown as.
#[derive(Clone, Debug)]
pub struct UpdateStatus {
    pub since: Option<u64>,
    pub status: Status,
    pub afk: bool,
}

impl Encode for UpdateStatus {
    open spec fn wire(&self) -> Json {
        Json::Object(
            Seq::empty() + one("since"@, self.since.wire())
                + one("status"@, self.status.wire())
                + one("afk"@, self.afk.wire()),
        )
    }

    fn encode(&self) -> (r: Value) {
        let mut es = fresh();
        put(&mut es, "since", &self.since);
        put(&mut es, "status", &self.status);
        put(&mut es, "afk", &self.afk);
        object(es)
    }
}

/// What a session says of the program behind it.
#[derive(Clone, Debug)]
pub struct ConnectionProperties {
    pub os: String,
    pub browser: String,
    pub device: String,
}

impl Encode for ConnectionProperties {
    open spec fn wire(&self) -> Json {
        Json::Object(
            Seq::empty() + one("$os"@, self.os.wire())
                + one("$browser"@, self.browser.wire())
                + one("$device"@, self.device.wire()),
        )
    }

    fn encode(&self) -> (r: Value) {
        let mut es = fresh();
        put(&mut es, "$os", &self.os);
        put(&mut es, "$browser", &self.browser);
        put(&mut es, "$device", &self.device);
        object(es)
    }
}

/// Asks for the members of a guild.
#[derive(Clone, Debug)]
pub struct RequestGuildMembers {
    pub guild_id: GuildId,
    pub query: String,
    pub limit: u32,
    pub presences: Option<bool>,
    pub user_ids: IdSet<UserId>,
    pub nonce: Option<String>,
}

impl Encode for RequestGuildMembers {
    open spec fn wire(&self) -> Json {
        Json::Object(
            Seq::empty() + one("guild_id"@, self.guild_id.wire()) + one("query"@, self.query.wire())
                + one("limit"@, self.limit.wire()) + maybe("presences"@, self.presences) + (
            if self.user_ids.members().len() == 0 {
                Seq::empty()
            } else {
                one("user_ids"@, self.user_ids.wire())
            }) + maybe("nonce"@, self.nonce),
        )
    }

    fn encode(&self) -> (r: Value) {
        let mut es = fresh();
        put(&mut es, "guild_id", &self.guild_id);
        put(&mut es, "query", &self.query);
        put(&mut es, "limit", &self.limit);
        put_some(&mut es, "presences", &self.presences);
        if !self.user_ids.is_empty() {
            put(&mut es, "user_ids", &self.user_ids);
        } else {
            assert(crate::wire::entries_view(es@)
                + Seq::empty() =~= crate::wire::entries_view(es@));
        }
        put_some(&mut es, "nonce", &self.nonce);
        object(es)
    }
}

} // verus!
