//! Events of the main gateway: the records that they carry, and the reader
//! that classifies a frame by its operation code and type tag before it
//! reads the data.

use crate::datetime::DateTime;
use crate::idset::{gather_rejection, gathered, guild_list, IdSet};
use crate::snowflake::{ChannelId, GuildId, MessageId, RoleId};
use crate::text::{decimal, render_u64, same_text};
use crate::types::{
    Application, ApplicationCommand, Channel, Guild, Interaction, Member, Message, Role, User,
    VoiceState,
};
use crate::wire::{
    as_text, as_unsigned, defaulted, defaulted_rejection, entries_view, find, has_defaulted,
    has_optional, has_required, is_null, lookup, object_of, optional, optional_rejection, required,
    required_rejection, Decode, DecodeError, Entry, Json, Keyed, Lookup, Sooner, Value,
};
use vstd::prelude::*;
use vstd::string::*;

verus! {

/// An event was taken for one of another kind.
#[derive(Clone, Copy, Debug, PartialEq, Eq)]
pub struct EventError;

/// The greeting of the gateway.
#[derive(Clone, Debug)]
pub struct Hello {
    pub heartbeat_interval: u64,
}

impl Decode for Hello {
    open spec fn decodes(j: Json, x: Self) -> bool {
        &&& j matches Json::Object(es)
        &&& has_required(es, "heartbeat_interval"@, x.heartbeat_interval)
    }

    open spec fn rejection(j: Json) -> Option<DecodeError> {
        match j {
            Json::Object(es) => required_rejection::<u64>(es, "heartbeat_interval"),
            _ => Some(DecodeError::InvalidValue),
        }
    }

    fn decode(v: &Value) -> (r: Result<Self, DecodeError>) {
        let es = object_of(v)?;
        let heartbeat_interval = required::<u64>(es, "heartbeat_interval")?;
        Ok(Hello { heartbeat_interval })
    }
}

/// The session is no longer valid.
#[derive(Clone, Debug)]
pub struct InvalidSession {
    pub resumable: bool,
}

impl Decode for InvalidSession {
    open spec fn decodes(j: Json, x: Self) -> bool {
        bool::decodes(j, x.resumable)
    }

    open spec fn rejection(j: Json) -> Option<DecodeError> {
        bool::rejection(j)
    }

    fn decode(v: &Value) -> (r: Result<Self, DecodeError>) {
        match bool::decode(v) {
            Ok(resumable) => Ok(InvalidSession { resumable }),
            Err(e) => Err(e),
        }
    }
}

/// A channel was made.
#[derive(Clone, Debug)]
pub struct ChannelCreate {
    pub channel: Channel,
}

impl Decode for ChannelCreate {
    open spec fn decodes(j: Json, x: Self) -> bool {
        Channel::decodes(j, x.channel)
    }

    open spec fn rejection(j: Json) -> Option<DecodeError> {
        Channel::rejection(j)
    }

    fn decode(v: &Value) -> (r: Result<Self, DecodeError>) {
        match Channel::decode(v) {
            Ok(channel) => Ok(ChannelCreate { channel }),
            Err(e) => Err(e),
        }
    }
}

/// A channel was changed.
#[derive(Clone, Debug)]
pub struct ChannelUpdate {
    pub channel: Channel,
}

impl Decode for ChannelUpdate {
    open spec fn decodes(j: Json, x: Self) -> bool {
        Channel::decodes(j, x.channel)
    }

    open spec fn rejection(j: Json) -> Option<DecodeError> {
        Channel::rejection(j)
    }

    fn decode(v: &Value) -> (r: Result<Self, DecodeError>) {
        match Channel::decode(v) {
            Ok(channel) => Ok(ChannelUpdate { channel }),
            Err(e) => Err(e),
        }
    }
}

/// A channel was removed.
#[derive(Clone, Debug)]
pub struct ChannelDelete {
    pub channel: Channel,
}

impl Decode for ChannelDelete {
    open spec fn decodes(j: Json, x: Self) -> bool {
        Channel::decodes(j, x.channel)
    }

    open spec fn rejection(j: Json) -> Option<DecodeError> {
        Channel::rejection(j)
    }

    fn decode(v: &Value) -> (r: Result<Self, DecodeError>) {
        match Channel::decode(v) {
            Ok(channel) => Ok(ChannelDelete { channel }),
            Err(e) => Err(e),
        }
    }
}

/// A guild became available.
#[derive(Clone, Debug)]
pub struct GuildCreate {
    pub guild: Guild,
}

impl Decode for GuildCreate {
    open spec fn decodes(j: Json, x: Self) -> bool {
        Guild::decodes(j, x.guild)
    }

    open spec fn rejection(j: Json) -> Option<DecodeError> {
        Guild::rejection(j)
    }

    fn decode(v: &Value) -> (r: Result<Self, DecodeError>) {
        match Guild::decode(v) {
            Ok(guild) => Ok(GuildCreate { guild }),
            Err(e) => Err(e),
        }
    }
}

/// A guild was changed.
#[derive(Clone, Debug)]
pub struct GuildUpdate {
    pub guild: Guild,
}

impl Decode for GuildUpdate {
    open spec fn decodes(j: Json, x: Self) -> bool {
        Guild::decodes(j, x.guild)
    }

    open spec fn rejection(j: Json) -> Option<DecodeError> {
        Guild::rejection(j)
    }

    fn decode(v: &Value) -> (r: Result<Self, DecodeError>) {
        match Guild::decode(v) {
            Ok(guild) => Ok(GuildUpdate { guild }),
            Err(e) => Err(e),
        }
    }
}

/// A guild became unavailable.
#[derive(Clone, Debug)]
pub struct GuildDelete {
    pub id: GuildId,
    pub unavailable: Option<bool>,
}

impl Decode for GuildDelete {
    open spec fn decodes(j: Json, x: Self) -> bool {
        &&& j matches Json::Object(es)
        &&& has_required(es, "id"@, x.id)
        &&& has_optional(es, "unavailable"@, x.unavailable)
    }

    open spec fn rejection(j: Json) -> Option<DecodeError> {
        match j {
            Json::Object(es) => required_rejection::<GuildId>(es, "id").or_later(
                optional_rejection::<bool>(es, "unavailable"),
            ),
            _ => Some(DecodeError::InvalidValue),
        }
    }

    fn decode(v: &Value) -> (r: Result<Self, DecodeError>) {
        let es = object_of(v)?;
        let id = required::<GuildId>(es, "id")?;
        let unavailable = optional::<bool>(es, "unavailable")?;
        Ok(GuildDelete { id, unavailable })
    }
}

/// A message was sent.
#[derive(Clone, Debug)]
pub struct MessageCreate {
    pub message: Message,
}

impl Decode for MessageCreate {
    open spec fn decodes(j: Json, x: Self) -> bool {
        Message::decodes(j, x.message)
    }

    open spec fn rejection(j: Json) -> Option<DecodeError> {
        Message::rejection(j)
    }

    fn decode(v: &Value) -> (r: Result<Self, DecodeError>) {
        match Message::decode(v) {
            Ok(message) => Ok(MessageCreate { message }),
            Err(e) => Err(e),
        }
    }
}

/// A message was changed.
#[derive(Clone, Debug)]
pub struct MessageUpdate {
    pub id: MessageId,
    pub channel_id: ChannelId,
    pub guild_id: Option<GuildId>,
    pub content: Option<String>,
    pub edited_timestamp: Option<DateTime>,
    pub mention_everyone: bool,
    pub mentions: Vec<User>,
    pub pinned: bool,
}

impl Decode for MessageUpdate {
    open spec fn decodes(j: Json, x: Self) -> bool {
        &&& j matches Json::Object(es)
        &&& has_required(es, "id"@, x.id)
        &&& has_required(es, "channel_id"@, x.channel_id)
        &&& has_optional(es, "guild_id"@, x.guild_id)
        &&& has_optional(es, "content"@, x.content)
        &&& has_optional(es, "edited_timestamp"@, x.edited_timestamp)
        &&& has_defaulted(es, "mention_everyone"@, x.mention_everyone)
        &&& has_defaulted(es, "mentions"@, x.mentions)
        &&& has_defaulted(es, "pinned"@, x.pinned)
    }

    open spec fn rejection(j: Json) -> Option<DecodeError> {
        match j {
            Json::Object(es) => required_rejection::<MessageId>(es, "id").or_later(
                required_rejection::<ChannelId>(es, "channel_id"),
            ).or_later(
                optional_rejection::<GuildId>(es, "guild_id"),
            ).or_later(
                optional_rejection::<String>(es, "content"),
            ).or_later(
                optional_rejection::<DateTime>(es, "edited_timestamp"),
            ).or_later(
                defaulted_rejection::<bool>(es, "mention_everyone"),
            ).or_later(
                defaulted_rejection::<Vec<User>>(es, "mentions"),
            ).or_later(
                defaulted_rejection::<bool>(es, "pinned"),
            ),
            _ => Some(DecodeError::InvalidValue),
        }
    }

    fn decode(v: &Value) -> (r: Result<Self, DecodeError>) {
        let es = object_of(v)?;
        let id = required::<MessageId>(es, "id")?;
        let channel_id = required::<ChannelId>(es, "channel_id")?;
        let guild_id = optional::<GuildId>(es, "guild_id")?;
        let content = optional::<String>(es, "content")?;
        let edited_timestamp = optional::<DateTime>(es, "edited_timestamp")?;
        let mention_everyone = defaulted::<bool>(es, "mention_everyone")?;
        let mentions = defaulted::<Vec<User>>(es, "mentions")?;
        let pinned = defaulted::<bool>(es, "pinned")?;
        Ok(
            MessageUpdate {
                id,
                channel_id,
                guild_id,
                content,
                edited_timestamp,
                mention_everyone,
                mentions,
                pinned,
            },
        )
    }
}

/// A message was removed.
#[derive(Clone, Debug)]
pub struct MessageDelete {
    pub id: MessageId,
    pub channel_id: ChannelId,
    pub guild_id: Option<GuildId>,
}

impl Decode for MessageDelete {
    open spec fn decodes(j: Json, x: Self) -> bool {
        &&& j matches Json::Object(es)
        &&& has_required(es, "id"@, x.id)
        &&& has_required(es, "channel_id"@, x.channel_id)
        &&& has_optional(es, "guild_id"@, x.guild_id)
    }

    open spec fn rejection(j: Json) -> Option<DecodeError> {
        match j {
            Json::Object(es) => required_rejection::<MessageId>(es, "id").or_later(
                required_rejection::<ChannelId>(es, "channel_id"),
            ).or_later(
                optional_rejection::<GuildId>(es, "guild_id"),
            ),
            _ => Some(DecodeError::InvalidValue),
        }
    }

    fn decode(v: &Value) -> (r: Result<Self, DecodeError>) {
        let es = object_of(v)?;
        let id = required::<MessageId>(es, "id")?;
        let channel_id = required::<ChannelId>(es, "channel_id")?;
        let guild_id = optional::<GuildId>(es, "guild_id")?;
        Ok(MessageDelete { id, channel_id, guild_id })
    }
}

/// A user joined a guild.
#[derive(Clone, Debug)]
pub struct GuildMemberAdd {
    pub guild_id: GuildId,
    pub member: Member,
}

impl Decode for GuildMemberAdd {
    open spec fn decodes(j: Json, x: Self) -> bool {
        &&& j matches Json::Object(es)
        &&& has_required(es, "guild_id"@, x.guild_id)
        &&& Member::decodes(j, x.member)
    }

    open spec fn rejection(j: Json) -> Option<DecodeError> {
        match j {
            Json::Object(es) => required_rejection::<GuildId>(es, "guild_id").or_later(
                Member::rejection(j),
            ),
            _ => Some(DecodeError::InvalidValue),
        }
    }

    fn decode(v: &Value) -> (r: Result<Self, DecodeError>) {
        let es = object_of(v)?;
        let guild_id = required::<GuildId>(es, "guild_id")?;
        let member = Member::decode(v)?;
        Ok(GuildMemberAdd { guild_id, member })
    }
}

/// A member of a guild was changed.
#[derive(Clone, Debug)]
pub struct GuildMemberUpdate {
    pub guild_id: GuildId,
    pub roles: IdSet<RoleId>,
    pub user: User,
    pub nick: Option<String>,
    pub premium_since: Option<DateTime>,
}

impl Decode for GuildMemberUpdate {
    open spec fn decodes(j: Json, x: Self) -> bool {
        &&& j matches Json::Object(es)
        &&& has_required(es, "guild_id"@, x.guild_id)
        &&& has_required(es, "roles"@, x.roles)
        &&& has_required(es, "user"@, x.user)
        &&& has_optional(es, "nick"@, x.nick)
        &&& has_optional(es, "premium_since"@, x.premium_since)
    }

    open spec fn rejection(j: Json) -> Option<DecodeError> {
        match j {
            Json::Object(es) => required_rejection::<GuildId>(es, "guild_id").or_later(
                required_rejection::<IdSet<RoleId>>(es, "roles"),
            ).or_later(
                required_rejection::<User>(es, "user"),
            ).or_later(
                optional_rejection::<String>(es, "nick"),
            ).or_later(
                optional_rejection::<DateTime>(es, "premium_since"),
            ),
            _ => Some(DecodeError::InvalidValue),
        }
    }

    fn decode(v: &Value) -> (r: Result<Self, DecodeError>) {
        let es = object_of(v)?;
        let guild_id = required::<GuildId>(es, "guild_id")?;
        let roles = required::<IdSet<RoleId>>(es, "roles")?;
        let user = required::<User>(es, "user")?;
        let nick = optional::<String>(es, "nick")?;
        let premium_since = optional::<DateTime>(es, "premium_since")?;
        Ok(GuildMemberUpdate { guild_id, roles, user, nick, premium_since })
    }
}

/// A user left a guild.
#[derive(Clone, Debug)]
pub struct GuildMemberRemove {
    pub guild_id: GuildId,
    pub user: User,
}

impl Decode for GuildMemberRemove {
    open spec fn decodes(j: Json, x: Self) -> bool {
        &&& j matches Json::Object(es)
        &&& has_required(es, "guild_id"@, x.guild_id)
        &&& has_required(es, "user"@, x.user)
    }

    open spec fn rejection(j: Json) -> Option<DecodeError> {
        match j {
            Json::Object(es) => required_rejection::<GuildId>(es, "guild_id").or_later(
                required_rejection::<User>(es, "user"),
            ),
            _ => Some(DecodeError::InvalidValue),
        }
    }

    fn decode(v: &Value) -> (r: Result<Self, DecodeError>) {
        let es = object_of(v)?;
        let guild_id = required::<GuildId>(es, "guild_id")?;
        let user = required::<User>(es, "user")?;
        Ok(GuildMemberRemove { guild_id, user })
    }
}

/// A part of the members of a guild.
#[derive(Clone, Debug)]
pub struct GuildMembersChunk {
    pub guild_id: GuildId,
    pub members: Vec<Member>,
    pub chunk_index: u16,
    pub chunk_count: u16,
    pub nonce: Option<String>,
}

impl Decode for GuildMembersChunk {
    open spec fn decodes(j: Json, x: Self) -> bool {
        &&& j matches Json::Object(es)
        &&& has_required(es, "guild_id"@, x.guild_id)
        &&& has_required(es, "members"@, x.members)
        &&& has_required(es, "chunk_index"@, x.chunk_index)
        &&& has_required(es, "chunk_count"@, x.chunk_count)
        &&& has_optional(es, "nonce"@, x.nonce)
    }

    open spec fn rejection(j: Json) -> Option<DecodeError> {
        match j {
            Json::Object(es) => required_rejection::<GuildId>(es, "guild_id").or_later(
                required_rejection::<Vec<Member>>(es, "members"),
            ).or_later(
                required_rejection::<u16>(es, "chunk_index"),
            ).or_later(
                required_rejection::<u16>(es, "chunk_count"),
            ).or_later(
                optional_rejection::<String>(es, "nonce"),
            ),
            _ => Some(DecodeError::InvalidValue),
        }
    }

    fn decode(v: &Value) -> (r: Result<Self, DecodeError>) {
        let es = object_of(v)?;
        let guild_id = required::<GuildId>(es, "guild_id")?;
        let members = required::<Vec<Member>>(es, "members")?;
        let chunk_index = required::<u16>(es, "chunk_index")?;
        let chunk_count = required::<u16>(es, "chunk_count")?;
        let nonce = optional::<String>(es, "nonce")?;
        Ok(GuildMembersChunk { guild_id, members, chunk_index, chunk_count, nonce })
    }
}

/// A role was made.
#[derive(Clone, Debug)]
pub struct GuildRoleCreate {
    pub guild_id: GuildId,
    pub role: Role,
}

impl Decode for GuildRoleCreate {
    open spec fn decodes(j: Json, x: Self) -> bool {
        &&& j matches Json::Object(es)
        &&& has_required(es, "guild_id"@, x.guild_id)
        &&& has_required(es, "role"@, x.role)
    }

    open spec fn rejection(j: Json) -> Option<DecodeError> {
        match j {
            Json::Object(es) => required_rejection::<GuildId>(es, "guild_id").or_later(
                required_rejection::<Role>(es, "role"),
            ),
            _ => Some(DecodeError::InvalidValue),
        }
    }

    fn decode(v: &Value) -> (r: Result<Self, DecodeError>) {
        let es = object_of(v)?;
        let guild_id = required::<GuildId>(es, "guild_id")?;
        let role = required::<Role>(es, "role")?;
        Ok(GuildRoleCreate { guild_id, role })
    }
}

/// A role was changed.
#[derive(Clone, Debug)]
pub struct GuildRoleUpdate {
    pub guild_id: GuildId,
    pub role: Role,
}

impl Decode for GuildRoleUpdate {
    open spec fn decodes(j: Json, x: Self) -> bool {
        &&& j matches Json::Object(es)
        &&& has_required(es, "guild_id"@, x.guild_id)
        &&& has_required(es, "role"@, x.role)
    }

    open spec fn rejection(j: Json) -> Option<DecodeError> {
        match j {
            Json::Object(es) => required_rejection::<GuildId>(es, "guild_id").or_later(
                required_rejection::<Role>(es, "role"),
            ),
            _ => Some(DecodeError::InvalidValue),
        }
    }

    fn decode(v: &Value) -> (r: Result<Self, DecodeError>) {
        let es = object_of(v)?;
        let guild_id = required::<GuildId>(es, "guild_id")?;
        let role = required::<Role>(es, "role")?;
        Ok(GuildRoleUpdate { guild_id, role })
    }
}

/// A role was removed.
#[derive(Clone, Debug)]
pub struct GuildRoleDelete {
    pub guild_id: GuildId,
    pub role_id: RoleId,
}

impl Decode for GuildRoleDelete {
    open spec fn decodes(j: Json, x: Self) -> bool {
        &&& j matches Json::Object(es)
        &&& has_required(es, "guild_id"@, x.guild_id)
        &&& has_required(es, "role_id"@, x.role_id)
    }

    open spec fn rejection(j: Json) -> Option<DecodeError> {
        match j {
            Json::Object(es) => required_rejection::<GuildId>(es, "guild_id").or_later(
                required_rejection::<RoleId>(es, "role_id"),
            ),
            _ => Some(DecodeError::InvalidValue),
        }
    }

    fn decode(v: &Value) -> (r: Result<Self, DecodeError>) {
        let es = object_of(v)?;
        let guild_id = required::<GuildId>(es, "guild_id")?;
        let role_id = required::<RoleId>(es, "role_id")?;
        Ok(GuildRoleDelete { guild_id, role_id })
    }
}

/// A user used a command or a component.
#[derive(Clone, Debug)]
pub struct InteractionCreate {
    pub interaction: Interaction,
}

impl Decode for InteractionCreate {
    open spec fn decodes(j: Json, x: Self) -> bool {
        Interaction::decodes(j, x.interaction)
    }

    open spec fn rejection(j: Json) -> Option<DecodeError> {
        Interaction::rejection(j)
    }

    fn decode(v: &Value) -> (r: Result<Self, DecodeError>) {
        match Interaction::decode(v) {
            Ok(interaction) => Ok(InteractionCreate { interaction }),
            Err(e) => Err(e),
        }
    }
}

/// A command was made.
#[derive(Clone, Debug)]
pub struct ApplicationCommandCreate {
    pub command: ApplicationCommand,
    pub guild_id: Option<GuildId>,
}

impl Decode for ApplicationCommandCreate {
    open spec fn decodes(j: Json, x: Self) -> bool {
        &&& j matches Json::Object(es)
        &&& ApplicationCommand::decodes(j, x.command)
        &&& has_optional(es, "guild_id"@, x.guild_id)
    }

    open spec fn rejection(j: Json) -> Option<DecodeError> {
        match j {
            Json::Object(es) => ApplicationCommand::rejection(j).or_later(
                optional_rejection::<GuildId>(es, "guild_id"),
            ),
            _ => Some(DecodeError::InvalidValue),
        }
    }

    fn decode(v: &Value) -> (r: Result<Self, DecodeError>) {
        let es = object_of(v)?;
        let command = ApplicationCommand::decode(v)?;
        let guild_id = optional::<GuildId>(es, "guild_id")?;
        Ok(ApplicationCommandCreate { command, guild_id })
    }
}

/// A command was changed.
#[derive(Clone, Debug)]
pub struct ApplicationCommandUpdate {
    pub command: ApplicationCommand,
    pub guild_id: Option<GuildId>,
}

impl Decode for ApplicationCommandUpdate {
    open spec fn decodes(j: Json, x: Self) -> bool {
        &&& j matches Json::Object(es)
        &&& ApplicationCommand::decodes(j, x.command)
        &&& has_optional(es, "guild_id"@, x.guild_id)
    }

    open spec fn rejection(j: Json) -> Option<DecodeError> {
        match j {
            Json::Object(es) => ApplicationCommand::rejection(j).or_later(
                optional_rejection::<GuildId>(es, "guild_id"),
            ),
            _ => Some(DecodeError::InvalidValue),
        }
    }

    fn decode(v: &Value) -> (r: Result<Self, DecodeError>) {
        let es = object_of(v)?;
        let command = ApplicationCommand::decode(v)?;
        let guild_id = optional::<GuildId>(es, "guild_id")?;
        Ok(ApplicationCommandUpdate { command, guild_id })
    }
}

/// A command was removed.
#[derive(Clone, Debug)]
pub struct ApplicationCommandDelete {
    pub command: ApplicationCommand,
    pub guild_id: Option<GuildId>,
}

impl Decode for ApplicationCommandDelete {
    open spec fn decodes(j: Json, x: Self) -> bool {
        &&& j matches Json::Object(es)
        &&& ApplicationCommand::decodes(j, x.command)
        &&& has_optional(es, "guild_id"@, x.guild_id)
    }

    open spec fn rejection(j: Json) -> Option<DecodeError> {
        match j {
            Json::Object(es) => ApplicationCommand::rejection(j).or_later(
                optional_rejection::<GuildId>(es, "guild_id"),
            ),
            _ => Some(DecodeError::InvalidValue),
        }
    }

    fn decode(v: &Value) -> (r: Result<Self, DecodeError>) {
        let es = object_of(v)?;
        let command = ApplicationCommand::decode(v)?;
        let guild_id = optional::<GuildId>(es, "guild_id")?;
        Ok(ApplicationCommandDelete { command, guild_id })
    }
}

/// The voice state of a user changed.
#[derive(Clone, Debug)]
pub struct VoiceStateUpdate {
    pub voice_state: VoiceState,
}

impl Decode for VoiceStateUpdate {
    open spec fn decodes(j: Json, x: Self) -> bool {
        VoiceState::decodes(j, x.voice_state)
    }

    open spec fn rejection(j: Json) -> Option<DecodeError> {
        VoiceState::rejection(j)
    }

    fn decode(v: &Value) -> (r: Result<Self, DecodeError>) {
        match VoiceState::decode(v) {
            Ok(voice_state) => Ok(VoiceStateUpdate { voice_state }),
            Err(e) => Err(e),
        }
    }
}

/// The voice server of a guild changed.
#[derive(Clone, Debug)]
pub struct VoiceServerUpdate {
    pub token: String,
    pub guild_id: GuildId,
    pub endpoint: Option<String>,
}

impl Decode for VoiceServerUpdate {
    open spec fn decodes(j: Json, x: Self) -> bool {
        &&& j matches Json::Object(es)
        &&& has_required(es, "token"@, x.token)
        &&& has_required(es, "guild_id"@, x.guild_id)
        &&& has_optional(es, "endpoint"@, x.endpoint)
    }

    open spec fn rejection(j: Json) -> Option<DecodeError> {
        match j {
            Json::Object(es) => required_rejection::<String>(es, "token").or_later(
                required_rejection::<GuildId>(es, "guild_id"),
            ).or_later(
                optional_rejection::<String>(es, "endpoint"),
            ),
            _ => Some(DecodeError::InvalidValue),
        }
    }

    fn decode(v: &Value) -> (r: Result<Self, DecodeError>) {
        let es = object_of(v)?;
        let token = required::<String>(es, "token")?;
        let guild_id = required::<GuildId>(es, "guild_id")?;
        let endpoint = optional::<String>(es, "endpoint")?;
        Ok(VoiceServerUpdate { token, guild_id, endpoint })
    }
}

/// The session is set up.
#[derive(Clone, Debug)]
pub struct Ready {
    pub v: u8,
    pub user: User,
    pub guilds: IdSet<GuildId>,
    pub session_id: String,
    pub shard: Option<(u8, u8)>,
    pub application: Application,
}

impl Decode for Ready {
    open spec fn decodes(j: Json, x: Self) -> bool {
        &&& j matches Json::Object(es)
        &&& has_required(es, "v"@, x.v)
        &&& has_required(es, "user"@, x.user)
        &&& lookup(es, "guilds"@) matches Lookup::Once(l)
        &&& x.guilds.distinct()
        &&& gathered::<GuildId, Keyed>(l, x.guilds.members())
        &&& has_required(es, "session_id"@, x.session_id)
        &&& has_optional(es, "shard"@, x.shard)
        &&& has_required(es, "application"@, x.application)
    }

    open spec fn rejection(j: Json) -> Option<DecodeError> {
        match j {
            Json::Object(es) => required_rejection::<u8>(es, "v").or_later(
                required_rejection::<User>(es, "user"),
            ).or_later(
                match lookup(es, "guilds"@) {
                    Lookup::Absent => Some(DecodeError::MissingField("guilds")),
                    Lookup::Once(l) => gather_rejection::<GuildId, Keyed>(l),
                    Lookup::Repeated => Some(DecodeError::DuplicateField("guilds")),
                },
            ).or_later(
                required_rejection::<String>(es, "session_id"),
            ).or_later(
                optional_rejection::<(u8, u8)>(es, "shard"),
            ).or_later(
                required_rejection::<Application>(es, "application"),
            ),
            _ => Some(DecodeError::InvalidValue),
        }
    }

    fn decode(v: &Value) -> (r: Result<Self, DecodeError>) {
        let es = object_of(v)?;
        let version = required::<u8>(es, "v")?;
        let user = required::<User>(es, "user")?;
        let guilds = match find(es, "guilds")? {
            Some(l) => match guild_list(l) {
                Ok(g) => g,
                Err(e) => {
                    return Err(e);
                },
            },
            None => {
                return Err(DecodeError::MissingField("guilds"));
            },
        };
        let session_id = required::<String>(es, "session_id")?;
        let shard = optional::<(u8, u8)>(es, "shard")?;
        let application = required::<Application>(es, "application")?;
        Ok(Ready { v: version, user, guilds, session_id, shard, application })
    }
}

/// The kinds of events.
#[derive(Clone, Copy, Debug, PartialEq, Eq, Structural)]
pub enum EventKind {
    Hello,
    Ready,
    Resumed,
    InvalidSession,
    HeartbeatAck,
    GuildCreate,
    GuildUpdate,
    GuildDelete,
    MessageCreate,
    MessageUpdate,
    MessageDelete,
    GuildMemberAdd,
    GuildMemberUpdate,
    GuildMemberRemove,
    GuildMembersChunk,
    GuildRoleCreate,
    GuildRoleUpdate,
    GuildRoleDelete,
    ChannelCreate,
    ChannelUpdate,
    ChannelDelete,
    ApplicationCommandCreate,
    ApplicationCommandUpdate,
    ApplicationCommandDelete,
    InteractionCreate,
    VoiceStateUpdate,
    VoiceServerUpdate,
    Unknown,
}

/// An event of the main gateway.
#[derive(Clone, Debug)]
pub enum Event {
    Hello(Hello),
    Ready(Ready),
    Resumed,
    InvalidSession(InvalidSession),
    HeartbeatAck,
    GuildCreate(GuildCreate),
    GuildUpdate(GuildUpdate),
    GuildDelete(GuildDelete),
    MessageCreate(MessageCreate),
    MessageUpdate(MessageUpdate),
    MessageDelete(MessageDelete),
    GuildMemberAdd(GuildMemberAdd),
    GuildMemberUpdate(GuildMemberUpdate),
    GuildMemberRemove(GuildMemberRemove),
    GuildMembersChunk(GuildMembersChunk),
    GuildRoleCreate(GuildRoleCreate),
    GuildRoleUpdate(GuildRoleUpdate),
    GuildRoleDelete(GuildRoleDelete),
    ChannelCreate(ChannelCreate),
    ChannelUpdate(ChannelUpdate),
    ChannelDelete(ChannelDelete),
    ApplicationCommandCreate(ApplicationCommandCreate),
    ApplicationCommandUpdate(ApplicationCommandUpdate),
    ApplicationCommandDelete(ApplicationCommandDelete),
    InteractionCreate(InteractionCreate),
    VoiceStateUpdate(VoiceStateUpdate),
    VoiceServerUpdate(VoiceServerUpdate),
    /// An event of a kind that is not known, with its type tag, or with its
    /// operation code in decimal where that was not known either.
    Unknown(String),
}

/// The operation code of a dispatch: an event that is told apart by its type
/// tag.
pub const DISPATCH: u8 = 0;

/// The kind of the dispatch with the type tag `t`.
pub open spec fn kind_of_tag(t: Seq<char>) -> EventKind {
    if t == "READY"@ {
        EventKind::Ready
    } else if t == "RESUMED"@ {
        EventKind::Resumed
    } else if t == "GUILD_CREATE"@ {
        EventKind::GuildCreate
    } else if t == "GUILD_UPDATE"@ {
        EventKind::GuildUpdate
    } else if t == "GUILD_DELETE"@ {
        EventKind::GuildDelete
    } else if t == "MESSAGE_CREATE"@ {
        EventKind::MessageCreate
    } else if t == "MESSAGE_UPDATE"@ {
        EventKind::MessageUpdate
    } else if t == "MESSAGE_DELETE"@ {
        EventKind::MessageDelete
    } else if t == "GUILD_MEMBER_ADD"@ {
        EventKind::GuildMemberAdd
    } else if t == "GUILD_MEMBER_UPDATE"@ {
        EventKind::GuildMemberUpdate
    } else if t == "GUILD_MEMBER_REMOVE"@ {
        EventKind::GuildMemberRemove
    } else if t == "GUILD_MEMBERS_CHUNK"@ {
        EventKind::GuildMembersChunk
    } else if t == "GUILD_ROLE_CREATE"@ {
        EventKind::GuildRoleCreate
    } else if t == "GUILD_ROLE_UPDATE"@ {
        EventKind::GuildRoleUpdate
    } else if t == "GUILD_ROLE_DELETE"@ {
        EventKind::GuildRoleDelete
    } else if t == "CHANNEL_CREATE"@ {
        EventKind::ChannelCreate
    } else if t == "CHANNEL_UPDATE"@ {
        EventKind::ChannelUpdate
    } else if t == "CHANNEL_DELETE"@ {
        EventKind::ChannelDelete
    } else if t == "APPLICATION_COMMAND_CREATE"@ {
        EventKind::ApplicationCommandCreate
    } else if t == "APPLICATION_COMMAND_UPDATE"@ {
        EventKind::ApplicationCommandUpdate
    } else if t == "APPLICATION_COMMAND_DELETE"@ {
        EventKind::ApplicationCommandDelete
    } else if t == "INTERACTION_CREATE"@ {
        EventKind::InteractionCreate
    } else if t == "VOICE_STATE_UPDATE"@ {
        EventKind::VoiceStateUpdate
    } else if t == "VOICE_SERVER_UPDATE"@ {
        EventKind::VoiceServerUpdate
    } else {
        EventKind::Unknown
    }
}

/// The kind of the event with the operation code `op` and the type tag `t`,
/// or the error where a dispatch has no type tag.
pub open spec fn classify(op: u8, t: Option<Seq<char>>) -> Result<EventKind, DecodeError> {
    if op == 9 {
        Ok(EventKind::InvalidSession)
    } else if op == 10 {
        Ok(EventKind::Hello)
    } else if op == 11 {
        Ok(EventKind::HeartbeatAck)
    } else if op == DISPATCH {
        match t {
            Some(tag) => Ok(kind_of_tag(tag)),
            None => Err(DecodeError::MissingField("t")),
        }
    } else {
        Ok(EventKind::Unknown)
    }
}

/// The text that an event of unknown kind keeps: the type tag of a dispatch,
/// and the operation code in decimal otherwise.
pub open spec fn unknown_tag(op: u8, t: Option<Seq<char>>) -> Seq<char> {
    match t {
        Some(tag) if op == DISPATCH => tag,
        _ => decimal(op as nat),
    }
}

/// The kind of the dispatch with the type tag `t`.
pub fn tag_kind(t: &str) -> (r: EventKind)
    ensures
        r == kind_of_tag(t@),
{
    if same_text(t, "READY") {
        EventKind::Ready
    } else if same_text(t, "RESUMED") {
        EventKind::Resumed
    } else if same_text(t, "GUILD_CREATE") {
        EventKind::GuildCreate
    } else if same_text(t, "GUILD_UPDATE") {
        EventKind::GuildUpdate
    } else if same_text(t, "GUILD_DELETE") {
        EventKind::GuildDelete
    } else if same_text(t, "MESSAGE_CREATE") {
        EventKind::MessageCreate
    } else if same_text(t, "MESSAGE_UPDATE") {
        EventKind::MessageUpdate
    } else if same_text(t, "MESSAGE_DELETE") {
        EventKind::MessageDelete
    } else if same_text(t, "GUILD_MEMBER_ADD") {
        EventKind::GuildMemberAdd
    } else if same_text(t, "GUILD_MEMBER_UPDATE") {
        EventKind::GuildMemberUpdate
    } else if same_text(t, "GUILD_MEMBER_REMOVE") {
        EventKind::GuildMemberRemove
    } else if same_text(t, "GUILD_MEMBERS_CHUNK") {
        EventKind::GuildMembersChunk
    } else if same_text(t, "GUILD_ROLE_CREATE") {
        EventKind::GuildRoleCreate
    } else if same_text(t, "GUILD_ROLE_UPDATE") {
        EventKind::GuildRoleUpdate
    } else if same_text(t, "GUILD_ROLE_DELETE") {
        EventKind::GuildRoleDelete
    } else if same_text(t, "CHANNEL_CREATE") {
        EventKind::ChannelCreate
    } else if same_text(t, "CHANNEL_UPDATE") {
        EventKind::ChannelUpdate
    } else if same_text(t, "CHANNEL_DELETE") {
        EventKind::ChannelDelete
    } else if same_text(t, "APPLICATION_COMMAND_CREATE") {
        EventKind::ApplicationCommandCreate
    } else if same_text(t, "APPLICATION_COMMAND_UPDATE") {
        EventKind::ApplicationCommandUpdate
    } else if same_text(t, "APPLICATION_COMMAND_DELETE") {
        EventKind::ApplicationCommandDelete
    } else if same_text(t, "INTERACTION_CREATE") {
        EventKind::InteractionCreate
    } else if same_text(t, "VOICE_STATE_UPDATE") {
        EventKind::VoiceStateUpdate
    } else if same_text(t, "VOICE_SERVER_UPDATE") {
        EventKind::VoiceServerUpdate
    } else {
        EventKind::Unknown
    }
}

/// The kind of the event with the operation code `op` and the type tag `t`.
pub fn event_kind(op: u8, t: &Option<String>) -> (r: Result<EventKind, DecodeError>)
    ensures
        r == classify(
            op,
            match *t {
                Some(tag) => Some(tag@),
                None => None,
            },
        ),
{
    if op == 9 {
        Ok(EventKind::InvalidSession)
    } else if op == 10 {
        Ok(EventKind::Hello)
    } else if op == 11 {
        Ok(EventKind::HeartbeatAck)
    } else if op == DISPATCH {
        match t {
            Some(tag) => Ok(tag_kind(tag.as_str())),
            None => Err(DecodeError::MissingField("t")),
        }
    } else {
        Ok(EventKind::Unknown)
    }
}

/// What the keys `op`, `t`, `s` and `d` of a frame hold.
pub struct Envelope {
    pub op: u8,
    pub t: Option<Seq<char>>,
    pub s: Option<u64>,
    pub d: Json,
}

/// The operation code of a frame: the number under `op`, if the key is
/// there.
pub open spec fn op_of(es: Seq<(Seq<char>, Json)>) -> Result<Option<u8>, DecodeError> {
    match lookup(es, "op"@) {
        Lookup::Absent => Ok(None),
        Lookup::Once(Json::Unsigned(n)) => if n <= 255 {
            Ok(Some(n as u8))
        } else {
            Err(DecodeError::InvalidValue)
        },
        Lookup::Once(_) => Err(DecodeError::InvalidValue),
        Lookup::Repeated => Err(DecodeError::DuplicateField("op")),
    }
}

/// The type tag of a frame: the text under `t`, if the key is there and
/// holds more than null.
pub open spec fn tag_of(es: Seq<(Seq<char>, Json)>) -> Result<Option<Seq<char>>, DecodeError> {
    match lookup(es, "t"@) {
        Lookup::Absent => Ok(None),
        Lookup::Once(Json::Null) => Ok(None),
        Lookup::Once(Json::Text(t)) => Ok(Some(t)),
        Lookup::Once(_) => Err(DecodeError::InvalidValue),
        Lookup::Repeated => Err(DecodeError::DuplicateField("t")),
    }
}

/// The sequence number of a frame: the number under `s`, if the key is
/// there and holds more than null.
pub open spec fn sequence_of(es: Seq<(Seq<char>, Json)>) -> Result<Option<u64>, DecodeError> {
    match lookup(es, "s"@) {
        Lookup::Absent => Ok(None),
        Lookup::Once(Json::Null) => Ok(None),
        Lookup::Once(Json::Unsigned(n)) => Ok(Some(n)),
        Lookup::Once(_) => Err(DecodeError::InvalidValue),
        Lookup::Repeated => Err(DecodeError::DuplicateField("s")),
    }
}

/// The data of a frame: what stands under `d`, if the key is there.
pub open spec fn data_of(es: Seq<(Seq<char>, Json)>) -> Result<Option<Json>, DecodeError> {
    match lookup(es, "d"@) {
        Lookup::Absent => Ok(None),
        Lookup::Once(j) => Ok(Some(j)),
        Lookup::Repeated => Err(DecodeError::DuplicateField("d")),
    }
}

/// The envelope of a frame, whatever the order of its keys. A frame that is
/// no object is an `InvalidValue`. Then the first of these that applies: a
/// key among `op`, `t`, `s` and `d`, in this order, that occurs twice or
/// holds a token of the wrong kind; no `d`; no `op`. Other keys are passed
/// over.
pub open spec fn envelope(j: Json) -> Result<Envelope, DecodeError> {
    match j {
        Json::Object(es) => match op_of(es) {
            Err(e) => Err(e),
            Ok(op) => match tag_of(es) {
                Err(e) => Err(e),
                Ok(t) => match sequence_of(es) {
                    Err(e) => Err(e),
                    Ok(s) => match data_of(es) {
                        Err(e) => Err(e),
                        Ok(None) => Err(DecodeError::MissingField("d")),
                        Ok(Some(d)) => match op {
                            None => Err(DecodeError::MissingField("op")),
                            Some(op) => Ok(Envelope { op, t, s, d }),
                        },
                    },
                },
            },
        },
        _ => Err(DecodeError::InvalidValue),
    }
}

/// Whether `e` is the event of the kind `kind` that the envelope holds: its
/// data read as that kind asks, or passed over where the kind carries none.
pub open spec fn event_decodes(kind: EventKind, env: Envelope, e: Event) -> bool {
    match kind {
        EventKind::Hello => e matches Event::Hello(x) && Hello::decodes(env.d, x),
        EventKind::Ready => e matches Event::Ready(x) && Ready::decodes(env.d, x),
        EventKind::Resumed => e is Resumed,
        EventKind::InvalidSession => e matches Event::InvalidSession(x)
            && InvalidSession::decodes(env.d, x),
        EventKind::HeartbeatAck => e is HeartbeatAck,
        EventKind::GuildCreate => e matches Event::GuildCreate(x) && GuildCreate::decodes(env.d, x),
        EventKind::GuildUpdate => e matches Event::GuildUpdate(x) && GuildUpdate::decodes(env.d, x),
        EventKind::GuildDelete => e matches Event::GuildDelete(x) && GuildDelete::decodes(env.d, x),
        EventKind::MessageCreate => e matches Event::MessageCreate(x)
            && MessageCreate::decodes(env.d, x),
        EventKind::MessageUpdate => e matches Event::MessageUpdate(x)
            && MessageUpdate::decodes(env.d, x),
        EventKind::MessageDelete => e matches Event::MessageDelete(x)
            && MessageDelete::decodes(env.d, x),
        EventKind::GuildMemberAdd => e matches Event::GuildMemberAdd(x)
            && GuildMemberAdd::decodes(env.d, x),
        EventKind::GuildMemberUpdate => e matches Event::GuildMemberUpdate(x)
            && GuildMemberUpdate::decodes(env.d, x),
        EventKind::GuildMemberRemove => e matches Event::GuildMemberRemove(x)
            && GuildMemberRemove::decodes(env.d, x),
        EventKind::GuildMembersChunk => e matches Event::GuildMembersChunk(x)
            && GuildMembersChunk::decodes(env.d, x),
        EventKind::GuildRoleCreate => e matches Event::GuildRoleCreate(x)
            && GuildRoleCreate::decodes(env.d, x),
        EventKind::GuildRoleUpdate => e matches Event::GuildRoleUpdate(x)
            && GuildRoleUpdate::decodes(env.d, x),
        EventKind::GuildRoleDelete => e matches Event::GuildRoleDelete(x)
            && GuildRoleDelete::decodes(env.d, x),
        EventKind::ChannelCreate => e matches Event::ChannelCreate(x)
            && ChannelCreate::decodes(env.d, x),
        EventKind::ChannelUpdate => e matches Event::ChannelUpdate(x)
            && ChannelUpdate::decodes(env.d, x),
        EventKind::ChannelDelete => e matches Event::ChannelDelete(x)
            && ChannelDelete::decodes(env.d, x),
        EventKind::ApplicationCommandCreate => e matches Event::ApplicationCommandCreate(x)
            && ApplicationCommandCreate::decodes(env.d, x),
        EventKind::ApplicationCommandUpdate => e matches Event::ApplicationCommandUpdate(x)
            && ApplicationCommandUpdate::decodes(env.d, x),
        EventKind::ApplicationCommandDelete => e matches Event::ApplicationCommandDelete(x)
            && ApplicationCommandDelete::decodes(env.d, x),
        EventKind::InteractionCreate => e matches Event::InteractionCreate(x)
            && InteractionCreate::decodes(env.d, x),
        EventKind::VoiceStateUpdate => e matches Event::VoiceStateUpdate(x)
            && VoiceStateUpdate::decodes(env.d, x),
        EventKind::VoiceServerUpdate => e matches Event::VoiceServerUpdate(x)
            && VoiceServerUpdate::decodes(env.d, x),
        EventKind::Unknown => e matches Event::Unknown(tag) && tag@ == unknown_tag(env.op, env.t),
    }
}

/// The error that reading the data `d` as an event of the kind `kind` ends
/// in, or `None` where it is read. The data of `Resumed`, of `HeartbeatAck`
/// and of an unknown kind is passed over.
pub open spec fn event_rejection(kind: EventKind, d: Json) -> Option<DecodeError> {
    match kind {
        EventKind::Hello => Hello::rejection(d),
        EventKind::Ready => Ready::rejection(d),
        EventKind::Resumed => None,
        EventKind::InvalidSession => InvalidSession::rejection(d),
        EventKind::HeartbeatAck => None,
        EventKind::GuildCreate => GuildCreate::rejection(d),
        EventKind::GuildUpdate => GuildUpdate::rejection(d),
        EventKind::GuildDelete => GuildDelete::rejection(d),
        EventKind::MessageCreate => MessageCreate::rejection(d),
        EventKind::MessageUpdate => MessageUpdate::rejection(d),
        EventKind::MessageDelete => MessageDelete::rejection(d),
        EventKind::GuildMemberAdd => GuildMemberAdd::rejection(d),
        EventKind::GuildMemberUpdate => GuildMemberUpdate::rejection(d),
        EventKind::GuildMemberRemove => GuildMemberRemove::rejection(d),
        EventKind::GuildMembersChunk => GuildMembersChunk::rejection(d),
        EventKind::GuildRoleCreate => GuildRoleCreate::rejection(d),
        EventKind::GuildRoleUpdate => GuildRoleUpdate::rejection(d),
        EventKind::GuildRoleDelete => GuildRoleDelete::rejection(d),
        EventKind::ChannelCreate => ChannelCreate::rejection(d),
        EventKind::ChannelUpdate => ChannelUpdate::rejection(d),
        EventKind::ChannelDelete => ChannelDelete::rejection(d),
        EventKind::ApplicationCommandCreate => ApplicationCommandCreate::rejection(d),
        EventKind::ApplicationCommandUpdate => ApplicationCommandUpdate::rejection(d),
        EventKind::ApplicationCommandDelete => ApplicationCommandDelete::rejection(d),
        EventKind::InteractionCreate => InteractionCreate::rejection(d),
        EventKind::VoiceStateUpdate => VoiceStateUpdate::rejection(d),
        EventKind::VoiceServerUpdate => VoiceServerUpdate::rejection(d),
        EventKind::Unknown => None,
    }
}

/// The error that reading the frame `j` ends in, or `None` where it is read:
/// the error of the envelope, else the error of a dispatch without a type
/// tag, else the error of the data.
pub open spec fn payload_rejection(j: Json) -> Option<DecodeError> {
    match envelope(j) {
        Err(e) => Some(e),
        Ok(env) => match classify(env.op, env.t) {
            Err(e) => Some(e),
            Ok(kind) => event_rejection(kind, env.d),
        },
    }
}

/// A frame whose envelope is in order is read, whatever its data, where its
/// kind is not known, and where it is `Resumed` or `HeartbeatAck`.
pub proof fn lemma_data_passed_over(j: Json)
    requires
        envelope(j) is Ok,
        classify(envelope(j)->Ok_0.op, envelope(j)->Ok_0.t) is Ok,
        ({
            let kind = classify(envelope(j)->Ok_0.op, envelope(j)->Ok_0.t)->Ok_0;
            kind == EventKind::Unknown || kind == EventKind::Resumed || kind
                == EventKind::HeartbeatAck
        }),
    ensures
        payload_rejection(j) is None,
{
}

/// An operation code other than 0, 9, 10 and 11 is of no known kind, and so
/// is a dispatch whose type tag is not in the table.
pub proof fn lemma_unknown_kinds(op: u8, t: Option<Seq<char>>)
    ensures
        op != DISPATCH && op != 9 && op != 10 && op != 11 ==> classify(op, t) == Ok::<
            EventKind,
            DecodeError,
        >(EventKind::Unknown),
        op == DISPATCH && t is None ==> classify(op, t) == Err::<EventKind, DecodeError>(
            DecodeError::MissingField("t"),
        ),
{
}

/// A frame of the main gateway: an event, and its sequence number.
#[derive(Clone, Debug)]
pub struct Payload {
    /// The sequence number of a dispatch. An event that is no dispatch has
    /// none.
    pub sequence: Option<u64>,
    pub event: Event,
}

/// Whether `j` is a wire form of the frame `x`.
pub open spec fn payload_decodes(j: Json, x: Payload) -> bool {
    &&& envelope(j) matches Ok(env)
    &&& classify(env.op, env.t) matches Ok(kind)
    &&& x.sequence == (if env.op == DISPATCH {
        env.s
    } else {
        None
    })
    &&& event_decodes(kind, env, x.event)
}

fn read_op(es: &Vec<Entry>) -> (r: Result<Option<u8>, DecodeError>)
    ensures
        r == op_of(entries_view(es@)),
{
    match find(es, "op")? {
        None => Ok(None),
        Some(v) => match as_unsigned(v) {
            Some(n) => if n <= 255 {
                Ok(Some(n as u8))
            } else {
                Err(DecodeError::InvalidValue)
            },
            None => Err(DecodeError::InvalidValue),
        },
    }
}

fn read_tag(es: &Vec<Entry>) -> (r: Result<Option<String>, DecodeError>)
    ensures
        match r {
            Ok(Some(t)) => tag_of(entries_view(es@)) == Ok::<Option<Seq<char>>, DecodeError>(
                Some(t@),
            ),
            Ok(None) => tag_of(entries_view(es@)) == Ok::<Option<Seq<char>>, DecodeError>(None),
            Err(e) => tag_of(entries_view(es@)) == Err::<Option<Seq<char>>, DecodeError>(e),
        },
{
    match find(es, "t")? {
        None => Ok(None),
        Some(v) => if is_null(v) {
            Ok(None)
        } else {
            match as_text(v) {
                Some(t) => Ok(Some(t.clone())),
                None => Err(DecodeError::InvalidValue),
            }
        },
    }
}

fn read_sequence(es: &Vec<Entry>) -> (r: Result<Option<u64>, DecodeError>)
    ensures
        r == sequence_of(entries_view(es@)),
{
    match find(es, "s")? {
        None => Ok(None),
        Some(v) => if is_null(v) {
            Ok(None)
        } else {
            match as_unsigned(v) {
                Some(n) => Ok(Some(n)),
                None => Err(DecodeError::InvalidValue),
            }
        },
    }
}

/// What a user who may be unknown is shown as.
pub open spec fn shown_user(user: Option<User>) -> Seq<char> {
    match user {
        Some(u) => u.spec_text(),
        None => "?"@,
    }
}

/// What a name that may be unknown is shown as.
pub open spec fn shown_name(name: Option<String>) -> Seq<char> {
    match name {
        Some(n) => n@,
        None => "?"@,
    }
}

/// What a guild that may be unknown is shown as, in brackets.
pub open spec fn shown_guild(guild: Option<GuildId>) -> Seq<char> {
    match guild {
        Some(id) => "(guild="@ + decimal(id@ as nat) + ")"@,
        None => Seq::empty(),
    }
}

fn show_user(user: &Option<User>) -> (r: String)
    ensures
        r@ == shown_user(*user),
{
    match user {
        Some(u) => u.to_text(),
        None => String::from_str("?"),
    }
}

fn show_name(name: &Option<String>) -> (r: String)
    ensures
        r@ == shown_name(*name),
{
    match name {
        Some(n) => n.clone(),
        None => String::from_str("?"),
    }
}

fn show_guild(guild: &Option<GuildId>) -> (r: String)
    ensures
        r@ == shown_guild(*guild),
{
    match guild {
        Some(id) => {
            let mut out = String::from_str("(guild=");
            let number = id.to_text();
            out.append(number.as_str());
            out.append(")");
            out
        },
        None => String::new(),
    }
}

impl Event {
    /// The kind of the event.
    pub open spec fn spec_kind(self) -> EventKind {
        match self {
            Event::Hello(_) => EventKind::Hello,
            Event::Ready(_) => EventKind::Ready,
            Event::Resumed => EventKind::Resumed,
            Event::InvalidSession(_) => EventKind::InvalidSession,
            Event::HeartbeatAck => EventKind::HeartbeatAck,
            Event::GuildCreate(_) => EventKind::GuildCreate,
            Event::GuildUpdate(_) => EventKind::GuildUpdate,
            Event::GuildDelete(_) => EventKind::GuildDelete,
            Event::MessageCreate(_) => EventKind::MessageCreate,
            Event::MessageUpdate(_) => EventKind::MessageUpdate,
            Event::MessageDelete(_) => EventKind::MessageDelete,
            Event::GuildMemberAdd(_) => EventKind::GuildMemberAdd,
            Event::GuildMemberUpdate(_) => EventKind::GuildMemberUpdate,
            Event::GuildMemberRemove(_) => EventKind::GuildMemberRemove,
            Event::GuildMembersChunk(_) => EventKind::GuildMembersChunk,
            Event::GuildRoleCreate(_) => EventKind::GuildRoleCreate,
            Event::GuildRoleUpdate(_) => EventKind::GuildRoleUpdate,
            Event::GuildRoleDelete(_) => EventKind::GuildRoleDelete,
            Event::ChannelCreate(_) => EventKind::ChannelCreate,
            Event::ChannelUpdate(_) => EventKind::ChannelUpdate,
            Event::ChannelDelete(_) => EventKind::ChannelDelete,
            Event::ApplicationCommandCreate(_) => EventKind::ApplicationCommandCreate,
            Event::ApplicationCommandUpdate(_) => EventKind::ApplicationCommandUpdate,
            Event::ApplicationCommandDelete(_) => EventKind::ApplicationCommandDelete,
            Event::InteractionCreate(_) => EventKind::InteractionCreate,
            Event::VoiceStateUpdate(_) => EventKind::VoiceStateUpdate,
            Event::VoiceServerUpdate(_) => EventKind::VoiceServerUpdate,
            Event::Unknown(_) => EventKind::Unknown,
        }
    }

    /// The kind of the event.
    pub fn kind(&self) -> (r: EventKind)
        ensures
            r == self.spec_kind(),
    {
        match self {
            Event::Hello(_) => EventKind::Hello,
            Event::Ready(_) => EventKind::Ready,
            Event::Resumed => EventKind::Resumed,
            Event::InvalidSession(_) => EventKind::InvalidSession,
            Event::HeartbeatAck => EventKind::HeartbeatAck,
            Event::GuildCreate(_) => EventKind::GuildCreate,
            Event::GuildUpdate(_) => EventKind::GuildUpdate,
            Event::GuildDelete(_) => EventKind::GuildDelete,
            Event::MessageCreate(_) => EventKind::MessageCreate,
            Event::MessageUpdate(_) => EventKind::MessageUpdate,
            Event::MessageDelete(_) => EventKind::MessageDelete,
            Event::GuildMemberAdd(_) => EventKind::GuildMemberAdd,
            Event::GuildMemberUpdate(_) => EventKind::GuildMemberUpdate,
            Event::GuildMemberRemove(_) => EventKind::GuildMemberRemove,
            Event::GuildMembersChunk(_) => EventKind::GuildMembersChunk,
            Event::GuildRoleCreate(_) => EventKind::GuildRoleCreate,
            Event::GuildRoleUpdate(_) => EventKind::GuildRoleUpdate,
            Event::GuildRoleDelete(_) => EventKind::GuildRoleDelete,
            Event::ChannelCreate(_) => EventKind::ChannelCreate,
            Event::ChannelUpdate(_) => EventKind::ChannelUpdate,
            Event::ChannelDelete(_) => EventKind::ChannelDelete,
            Event::ApplicationCommandCreate(_) => EventKind::ApplicationCommandCreate,
            Event::ApplicationCommandUpdate(_) => EventKind::ApplicationCommandUpdate,
            Event::ApplicationCommandDelete(_) => EventKind::ApplicationCommandDelete,
            Event::InteractionCreate(_) => EventKind::InteractionCreate,
            Event::VoiceStateUpdate(_) => EventKind::VoiceStateUpdate,
            Event::VoiceServerUpdate(_) => EventKind::VoiceServerUpdate,
            Event::Unknown(_) => EventKind::Unknown,
        }
    }

    /// Reads the event of the kind `kind` from the data `d` of a frame with
    /// the operation code `op` and the type tag `t`. The data of `Resumed`,
    /// of `HeartbeatAck` and of an unknown kind is passed over.
    pub fn decode_as(kind: EventKind, op: u8, t: Option<String>, d: &Value) -> (r: Result<
        Event,
        DecodeError,
    >)
        ensures
            match r {
                Ok(e) => event_rejection(kind, d@) is None && forall|env: Envelope|
                    env.op == op && env.d == d@ && env.t == (match t {
                        Some(tag) => Some(tag@),
                        None => None,
                    }) ==> #[trigger] event_decodes(kind, env, e),
                Err(e) => event_rejection(kind, d@) == Some(e) && forall|env: Envelope, x: Event|
                    env.d == d@ ==> !#[trigger] event_decodes(kind, env, x),
            },
    {
        match kind {
            EventKind::Hello => match Hello::decode(d) {
                Ok(x) => Ok(Event::Hello(x)),
                Err(e) => Err(e),
            },
            EventKind::Ready => match Ready::decode(d) {
                Ok(x) => Ok(Event::Ready(x)),
                Err(e) => Err(e),
            },
            EventKind::Resumed => Ok(Event::Resumed),
            EventKind::InvalidSession => match InvalidSession::decode(d) {
                Ok(x) => Ok(Event::InvalidSession(x)),
                Err(e) => Err(e),
            },
            EventKind::HeartbeatAck => Ok(Event::HeartbeatAck),
            EventKind::GuildCreate => match GuildCreate::decode(d) {
                Ok(x) => Ok(Event::GuildCreate(x)),
                Err(e) => Err(e),
            },
            EventKind::GuildUpdate => match GuildUpdate::decode(d) {
                Ok(x) => Ok(Event::GuildUpdate(x)),
                Err(e) => Err(e),
            },
            EventKind::GuildDelete => match GuildDelete::decode(d) {
                Ok(x) => Ok(Event::GuildDelete(x)),
                Err(e) => Err(e),
            },
            EventKind::MessageCreate => match MessageCreate::decode(d) {
                Ok(x) => Ok(Event::MessageCreate(x)),
                Err(e) => Err(e),
            },
            EventKind::MessageUpdate => match MessageUpdate::decode(d) {
                Ok(x) => Ok(Event::MessageUpdate(x)),
                Err(e) => Err(e),
            },
            EventKind::MessageDelete => match MessageDelete::decode(d) {
                Ok(x) => Ok(Event::MessageDelete(x)),
                Err(e) => Err(e),
            },
            EventKind::GuildMemberAdd => match GuildMemberAdd::decode(d) {
                Ok(x) => Ok(Event::GuildMemberAdd(x)),
                Err(e) => Err(e),
            },
            EventKind::GuildMemberUpdate => match GuildMemberUpdate::decode(d) {
                Ok(x) => Ok(Event::GuildMemberUpdate(x)),
                Err(e) => Err(e),
            },
            EventKind::GuildMemberRemove => match GuildMemberRemove::decode(d) {
                Ok(x) => Ok(Event::GuildMemberRemove(x)),
                Err(e) => Err(e),
            },
            EventKind::GuildMembersChunk => match GuildMembersChunk::decode(d) {
                Ok(x) => Ok(Event::GuildMembersChunk(x)),
                Err(e) => Err(e),
            },
            EventKind::GuildRoleCreate => match GuildRoleCreate::decode(d) {
                Ok(x) => Ok(Event::GuildRoleCreate(x)),
                Err(e) => Err(e),
            },
            EventKind::GuildRoleUpdate => match GuildRoleUpdate::decode(d) {
                Ok(x) => Ok(Event::GuildRoleUpdate(x)),
                Err(e) => Err(e),
            },
            EventKind::GuildRoleDelete => match GuildRoleDelete::decode(d) {
                Ok(x) => Ok(Event::GuildRoleDelete(x)),
                Err(e) => Err(e),
            },
            EventKind::ChannelCreate => match ChannelCreate::decode(d) {
                Ok(x) => Ok(Event::ChannelCreate(x)),
                Err(e) => Err(e),
            },
            EventKind::ChannelUpdate => match ChannelUpdate::decode(d) {
                Ok(x) => Ok(Event::ChannelUpdate(x)),
                Err(e) => Err(e),
            },
            EventKind::ChannelDelete => match ChannelDelete::decode(d) {
                Ok(x) => Ok(Event::ChannelDelete(x)),
                Err(e) => Err(e),
            },
            EventKind::ApplicationCommandCreate => match ApplicationCommandCreate::decode(d) {
                Ok(x) => Ok(Event::ApplicationCommandCreate(x)),
                Err(e) => Err(e),
            },
            EventKind::ApplicationCommandUpdate => match ApplicationCommandUpdate::decode(d) {
                Ok(x) => Ok(Event::ApplicationCommandUpdate(x)),
                Err(e) => Err(e),
            },
            EventKind::ApplicationCommandDelete => match ApplicationCommandDelete::decode(d) {
                Ok(x) => Ok(Event::ApplicationCommandDelete(x)),
                Err(e) => Err(e),
            },
            EventKind::InteractionCreate => match InteractionCreate::decode(d) {
                Ok(x) => Ok(Event::InteractionCreate(x)),
                Err(e) => Err(e),
            },
            EventKind::VoiceStateUpdate => match VoiceStateUpdate::decode(d) {
                Ok(x) => Ok(Event::VoiceStateUpdate(x)),
                Err(e) => Err(e),
            },
            EventKind::VoiceServerUpdate => match VoiceServerUpdate::decode(d) {
                Ok(x) => Ok(Event::VoiceServerUpdate(x)),
                Err(e) => Err(e),
            },
            EventKind::Unknown => {
                let tag = match t {
                    Some(tag) => if op == DISPATCH {
                        tag
                    } else {
                        render_u64(op as u64)
                    },
                    None => render_u64(op as u64),
                };
                Ok(Event::Unknown(tag))
            },
        }
    }

    /// The guild that the event belongs to, if it names one.
    pub open spec fn spec_guild_id(self) -> Option<GuildId> {
        match self {
            Event::GuildCreate(e) => Some(e.guild.id),
            Event::GuildUpdate(e) => Some(e.guild.id),
            Event::GuildDelete(e) => Some(e.id),
            Event::MessageCreate(e) => e.message.guild_id,
            Event::MessageUpdate(e) => e.guild_id,
            Event::MessageDelete(e) => e.guild_id,
            Event::GuildMemberAdd(e) => Some(e.guild_id),
            Event::GuildMemberUpdate(e) => Some(e.guild_id),
            Event::GuildMemberRemove(e) => Some(e.guild_id),
            Event::GuildMembersChunk(e) => Some(e.guild_id),
            Event::GuildRoleCreate(e) => Some(e.guild_id),
            Event::GuildRoleUpdate(e) => Some(e.guild_id),
            Event::GuildRoleDelete(e) => Some(e.guild_id),
            Event::ChannelCreate(e) => e.channel.guild_id,
            Event::ChannelUpdate(e) => e.channel.guild_id,
            Event::ChannelDelete(e) => e.channel.guild_id,
            Event::ApplicationCommandCreate(e) => e.guild_id,
            Event::ApplicationCommandUpdate(e) => e.guild_id,
            Event::ApplicationCommandDelete(e) => e.guild_id,
            Event::InteractionCreate(e) => e.interaction.guild_id,
            Event::VoiceStateUpdate(e) => e.voice_state.guild_id,
            Event::VoiceServerUpdate(e) => Some(e.guild_id),
            _ => None,
        }
    }

    /// The guild that the event belongs to, if it names one.
    pub fn guild_id(&self) -> (r: Option<GuildId>)
        ensures
            r == self.spec_guild_id(),
    {
        match self {
            Event::GuildCreate(e) => Some(e.guild.id),
            Event::GuildUpdate(e) => Some(e.guild.id),
            Event::GuildDelete(e) => Some(e.id),
            Event::MessageCreate(e) => e.message.guild_id,
            Event::MessageUpdate(e) => e.guild_id,
            Event::MessageDelete(e) => e.guild_id,
            Event::GuildMemberAdd(e) => Some(e.guild_id),
            Event::GuildMemberUpdate(e) => Some(e.guild_id),
            Event::GuildMemberRemove(e) => Some(e.guild_id),
            Event::GuildMembersChunk(e) => Some(e.guild_id),
            Event::GuildRoleCreate(e) => Some(e.guild_id),
            Event::GuildRoleUpdate(e) => Some(e.guild_id),
            Event::GuildRoleDelete(e) => Some(e.guild_id),
            Event::ChannelCreate(e) => e.channel.guild_id,
            Event::ChannelUpdate(e) => e.channel.guild_id,
            Event::ChannelDelete(e) => e.channel.guild_id,
            Event::ApplicationCommandCreate(e) => e.guild_id,
            Event::ApplicationCommandUpdate(e) => e.guild_id,
            Event::ApplicationCommandDelete(e) => e.guild_id,
            Event::InteractionCreate(e) => e.interaction.guild_id,
            Event::VoiceStateUpdate(e) => e.voice_state.guild_id,
            Event::VoiceServerUpdate(e) => Some(e.guild_id),
            _ => None,
        }
    }

    /// What the event is shown as.
    pub open spec fn spec_text(self) -> Seq<char> {
        match self {
            Event::Hello(_) => "Hello"@,
            Event::Ready(e) => "Ready(username="@ + e.user.username@ + ")"@,
            Event::Resumed => "Resumed"@,
            Event::InvalidSession(_) => "InvalidSession"@,
            Event::HeartbeatAck => "HeartbeatAck"@,
            Event::GuildCreate(e) => "GuildCreate(id="@ + decimal(e.guild.id@ as nat) + ", name="@
                + e.guild.name@ + ")"@,
            Event::GuildUpdate(e) => "GuildUpdate(id="@ + decimal(e.guild.id@ as nat) + ")"@,
            Event::GuildDelete(e) => "GuildDelete(id="@ + decimal(e.id@ as nat) + ")"@,
            Event::MessageCreate(e) => "MessageCreate(user="@ + shown_user(e.message.author)
                + ", channel_id="@ + decimal(e.message.channel_id@ as nat) + ")"@,
            Event::MessageUpdate(e) => "MessageUpdate(channel_id="@ + decimal(e.channel_id@ as nat)
                + ")"@,
            Event::MessageDelete(e) => "MessageDelete(channel_id="@ + decimal(e.channel_id@ as nat)
                + ", id="@ + decimal(e.id@ as nat) + ")"@,
            Event::GuildMemberAdd(e) => "GuildMemberAdd(guild="@ + decimal(e.guild_id@ as nat)
                + ", user="@ + e.member.spec_text() + ")"@,
            Event::GuildMemberUpdate(e) => "GuildMemberUpdate(guild="@ + decimal(e.guild_id@ as nat)
                + ", user="@ + e.user.spec_text() + ")"@,
            Event::GuildMemberRemove(e) => "GuildMemberRemove(guild="@ + decimal(e.guild_id@ as nat)
                + ", user="@ + e.user.spec_text() + ")"@,
            Event::GuildMembersChunk(e) => "GuildMembersChunk(guild="@ + decimal(e.guild_id@ as nat)
                + ", chunk="@ + decimal(e.chunk_index as nat) + "/"@ + decimal(e.chunk_count as nat)
                + ")"@,
            Event::GuildRoleCreate(e) => "GuildRoleCreate(guild="@ + decimal(e.guild_id@ as nat)
                + ", role="@ + decimal(e.role.id@ as nat) + ")"@,
            Event::GuildRoleUpdate(e) => "GuildRoleUpdate(guild="@ + decimal(e.guild_id@ as nat)
                + ", role="@ + decimal(e.role.id@ as nat) + ")"@,
            Event::GuildRoleDelete(e) => "GuildRoleDelete(guild="@ + decimal(e.guild_id@ as nat)
                + ", role="@ + decimal(e.role_id@ as nat) + ")"@,
            Event::ChannelCreate(e) => "ChannelCreate(id="@ + decimal(e.channel.id@ as nat) + ")"@,
            Event::ChannelUpdate(e) => "ChannelUpdate(id="@ + decimal(e.channel.id@ as nat) + ")"@,
            Event::ChannelDelete(e) => "ChannelDelete(id="@ + decimal(e.channel.id@ as nat) + ")"@,
            Event::ApplicationCommandCreate(e) => "ApplicationCommandCreate(command="@
                + e.command.name@ + ")"@,
            Event::ApplicationCommandUpdate(e) => "ApplicationCommandUpdate(command="@
                + e.command.name@ + ")"@,
            Event::ApplicationCommandDelete(e) => "ApplicationCommandDelete(command="@
                + e.command.name@ + ")"@,
            Event::InteractionCreate(e) => "InteractionCreate(command="@
                + shown_name(e.interaction.data.name) + ", user="@ + shown_user(e.interaction.user)
                + ")"@,
            Event::VoiceStateUpdate(e) => "VoiceStateUpdate"@ + shown_guild(e.voice_state.guild_id),
            Event::VoiceServerUpdate(e) => "VoiceServerUpdate(guild="@ + decimal(e.guild_id@ as nat)
                + ")"@,
            Event::Unknown(n) => "Unknown("@ + n@ + ")"@,
        }
    }

    /// What the event is shown as.
    pub fn to_text(&self) -> (r: String)
        ensures
            r@ == self.spec_text(),
    {
        match self {
            Event::Hello(_) => {
                String::from_str("Hello")
            },
            Event::Ready(e) => {
                let mut out = String::from_str("Ready(username=");
                out.append(e.user.username.as_str());
                out.append(")");
                out
            },
            Event::Resumed => {
                String::from_str("Resumed")
            },
            Event::InvalidSession(_) => {
                String::from_str("InvalidSession")
            },
            Event::HeartbeatAck => {
                String::from_str("HeartbeatAck")
            },
            Event::GuildCreate(e) => {
                let mut out = String::from_str("GuildCreate(id=");
                let part1 = e.guild.id.to_text();
                out.append(part1.as_str());
                out.append(", name=");
                out.append(e.guild.name.as_str());
                out.append(")");
                out
            },
            Event::GuildUpdate(e) => {
                let mut out = String::from_str("GuildUpdate(id=");
                let part1 = e.guild.id.to_text();
                out.append(part1.as_str());
                out.append(")");
                out
            },
            Event::GuildDelete(e) => {
                let mut out = String::from_str("GuildDelete(id=");
                let part1 = e.id.to_text();
                out.append(part1.as_str());
                out.append(")");
                out
            },
            Event::MessageCreate(e) => {
                let mut out = String::from_str("MessageCreate(user=");
                let part1 = show_user(&e.message.author);
                out.append(part1.as_str());
                out.append(", channel_id=");
                let part2 = e.message.channel_id.to_text();
                out.append(part2.as_str());
                out.append(")");
                out
            },
            Event::MessageUpdate(e) => {
                let mut out = String::from_str("MessageUpdate(channel_id=");
                let part1 = e.channel_id.to_text();
                out.append(part1.as_str());
                out.append(")");
                out
            },
            Event::MessageDelete(e) => {
                let mut out = String::from_str("MessageDelete(channel_id=");
                let part1 = e.channel_id.to_text();
                out.append(part1.as_str());
                out.append(", id=");
                let part2 = e.id.to_text();
                out.append(part2.as_str());
                out.append(")");
                out
            },
            Event::GuildMemberAdd(e) => {
                let mut out = String::from_str("GuildMemberAdd(guild=");
                let part1 = e.guild_id.to_text();
                out.append(part1.as_str());
                out.append(", user=");
                let part2 = e.member.to_text();
                out.append(part2.as_str());
                out.append(")");
                out
            },
            Event::GuildMemberUpdate(e) => {
                let mut out = String::from_str("GuildMemberUpdate(guild=");
                let part1 = e.guild_id.to_text();
                out.append(part1.as_str());
                out.append(", user=");
                let part2 = e.user.to_text();
                out.append(part2.as_str());
                out.append(")");
                out
            },
            Event::GuildMemberRemove(e) => {
                let mut out = String::from_str("GuildMemberRemove(guild=");
                let part1 = e.guild_id.to_text();
                out.append(part1.as_str());
                out.append(", user=");
                let part2 = e.user.to_text();
                out.append(part2.as_str());
                out.append(")");
                out
            },
            Event::GuildMembersChunk(e) => {
                let mut out = String::from_str("GuildMembersChunk(guild=");
                let part1 = e.guild_id.to_text();
                out.append(part1.as_str());
                out.append(", chunk=");
                let part2 = render_u64(e.chunk_index as u64);
                out.append(part2.as_str());
                out.append("/");
                let part3 = render_u64(e.chunk_count as u64);
                out.append(part3.as_str());
                out.append(")");
                out
            },
            Event::GuildRoleCreate(e) => {
                let mut out = String::from_str("GuildRoleCreate(guild=");
                let part1 = e.guild_id.to_text();
                out.append(part1.as_str());
                out.append(", role=");
                let part2 = e.role.id.to_text();
                out.append(part2.as_str());
                out.append(")");
                out
            },
            Event::GuildRoleUpdate(e) => {
                let mut out = String::from_str("GuildRoleUpdate(guild=");
                let part1 = e.guild_id.to_text();
                out.append(part1.as_str());
                out.append(", role=");
                let part2 = e.role.id.to_text();
                out.append(part2.as_str());
                out.append(")");
                out
            },
            Event::GuildRoleDelete(e) => {
                let mut out = String::from_str("GuildRoleDelete(guild=");
                let part1 = e.guild_id.to_text();
                out.append(part1.as_str());
                out.append(", role=");
                let part2 = e.role_id.to_text();
                out.append(part2.as_str());
                out.append(")");
                out
            },
            Event::ChannelCreate(e) => {
                let mut out = String::from_str("ChannelCreate(id=");
                let part1 = e.channel.id.to_text();
                out.append(part1.as_str());
                out.append(")");
                out
            },
            Event::ChannelUpdate(e) => {
                let mut out = String::from_str("ChannelUpdate(id=");
                let part1 = e.channel.id.to_text();
                out.append(part1.as_str());
                out.append(")");
                out
            },
            Event::ChannelDelete(e) => {
                let mut out = String::from_str("ChannelDelete(id=");
                let part1 = e.channel.id.to_text();
                out.append(part1.as_str());
                out.append(")");
                out
            },
            Event::ApplicationCommandCreate(e) => {
                let mut out = String::from_str("ApplicationCommandCreate(command=");
                out.append(e.command.name.as_str());
                out.append(")");
                out
            },
            Event::ApplicationCommandUpdate(e) => {
                let mut out = String::from_str("ApplicationCommandUpdate(command=");
                out.append(e.command.name.as_str());
                out.append(")");
                out
            },
            Event::ApplicationCommandDelete(e) => {
                let mut out = String::from_str("ApplicationCommandDelete(command=");
                out.append(e.command.name.as_str());
                out.append(")");
                out
            },
            Event::InteractionCreate(e) => {
                let mut out = String::from_str("InteractionCreate(command=");
                let part1 = show_name(&e.interaction.data.name);
                out.append(part1.as_str());
                out.append(", user=");
                let part2 = show_user(&e.interaction.user);
                out.append(part2.as_str());
                out.append(")");
                out
            },
            Event::VoiceStateUpdate(e) => {
                let mut out = String::from_str("VoiceStateUpdate");
                let part1 = show_guild(&e.voice_state.guild_id);
                out.append(part1.as_str());
                out
            },
            Event::VoiceServerUpdate(e) => {
                let mut out = String::from_str("VoiceServerUpdate(guild=");
                let part1 = e.guild_id.to_text();
                out.append(part1.as_str());
                out.append(")");
                out
            },
            Event::Unknown(n) => {
                let mut out = String::from_str("Unknown(");
                out.append(n.as_str());
                out.append(")");
                out
            },
        }
    }

    /// The greeting that the event is, or an error where it is none.
    pub fn expect_hello(self) -> (r: Result<Hello, EventError>)
        ensures
            match r {
                Ok(h) => self == Event::Hello(h),
                Err(_) => !(self is Hello),
            },
    {
        match self {
            Event::Hello(event) => Ok(event),
            _ => Err(EventError),
        }
    }

    /// The set-up of the session that the event is, or an error where it is
    /// none.
    pub fn expect_ready(self) -> (r: Result<Ready, EventError>)
        ensures
            match r {
                Ok(x) => self == Event::Ready(x),
                Err(_) => !(self is Ready),
            },
    {
        match self {
            Event::Ready(ready) => Ok(ready),
            _ => Err(EventError),
        }
    }

    /// Whether the event acknowledges a heartbeat.
    pub fn is_heartbeat_ack(&self) -> (r: bool)
        ensures
            r == (*self is HeartbeatAck),
    {
        match self {
            Event::HeartbeatAck => true,
            _ => false,
        }
    }
}

impl Payload {
    /// What the frame is shown as: the event, and `@` and the sequence number
    /// where there is one.
    pub open spec fn spec_text(self) -> Seq<char> {
        match self.sequence {
            Some(seq) => self.event.spec_text() + "@"@ + decimal(seq as nat),
            None => self.event.spec_text(),
        }
    }

    /// What the frame is shown as.
    pub fn to_text(&self) -> (r: String)
        ensures
            r@ == self.spec_text(),
    {
        let mut out = self.event.to_text();
        match self.sequence {
            Some(seq) => {
                out.append("@");
                let number = render_u64(seq);
                out.append(number.as_str());
            },
            None => {},
        }
        out
    }

    /// Reads a frame. Its keys may stand in any order: the event is
    /// classified by `op` and `t` before `d` is read. It fails with the
    /// error that `payload_rejection` gives, and then the frame is the wire
    /// form of no event.
    pub fn decode_frame(v: &Value) -> (r: Result<Payload, DecodeError>)
        ensures
            match r {
                Ok(x) => payload_decodes(v@, x) && payload_rejection(v@) is None,
                Err(e) => payload_rejection(v@) == Some(e) && forall|x: Payload|
                    !payload_decodes(v@, x),
            },
    {
        let es = object_of(v)?;
        let op = read_op(es)?;
        let t = read_tag(es)?;
        let s = read_sequence(es)?;
        let d = match find(es, "d")? {
            Some(d) => d,
            None => {
                return Err(DecodeError::MissingField("d"));
            },
        };
        let op = match op {
            Some(op) => op,
            None => {
                return Err(DecodeError::MissingField("op"));
            },
        };
        let kind = event_kind(op, &t)?;
        let ghost env = envelope(v@)->Ok_0;
        let event = Event::decode_as(kind, op, t, d)?;
        let sequence = if op == DISPATCH {
            s
        } else {
            None
        };
        proof {
            assert(event_decodes(kind, env, event));
        }
        Ok(Payload { sequence, event })
    }
}

impl Decode for Payload {
    open spec fn decodes(j: Json, x: Self) -> bool {
        payload_decodes(j, x)
    }

    open spec fn rejection(j: Json) -> Option<DecodeError> {
        payload_rejection(j)
    }

    fn decode(v: &Value) -> (r: Result<Self, DecodeError>) {
        Payload::decode_frame(v)
    }
}

} // verus!
