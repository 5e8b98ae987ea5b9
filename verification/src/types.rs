//! The records that events and commands carry: guilds, channels, users,
//! messages and what belongs to them.

use crate::color::Color;
use crate::datetime::DateTime;
use crate::flags::UserFlags;
use crate::idset::IdSet;
use crate::kinds::{
    ApplicationCommandOptionType, ButtonStyle, ChannelType, ComponentType, InteractionType,
    MessageType,
};
use crate::snowflake::{
    ApplicationId, ChannelId, GuildId, InteractionId, MessageId, RoleId, Snowflake, UserId,
};
use crate::text::parse_decimal;
use crate::wire::{
    defaulted, defaulted_rejection, find, fresh, has_defaulted, has_optional, has_required,
    items_view, lemma_list_view, lemma_lookup_decreases, lemma_scalar_view,
    list as list_of_values, lookup, maybe, object, object_of, one, optional, optional_rejection,
    put, put_filled, put_some, put_value, required, required_rejection, unless_empty, Decode,
    DecodeError, Encode, Json, Lookup, Sooner, Value,
};
use vstd::prelude::*;
use vstd::std_specs::convert::{FromSpecImpl, TryFromSpecImpl};
use vstd::string::*;

verus! {

/// The application that a session belongs to.
#[derive(Clone, Copy, Debug)]
pub struct Application {
    pub id: ApplicationId,
    pub flags: u64,
}

impl Decode for Application {
    open spec fn decodes(j: Json, x: Self) -> bool {
        &&& j matches Json::Object(es)
        &&& has_required(es, "id"@, x.id)
        &&& has_required(es, "flags"@, x.flags)
    }

    open spec fn rejection(j: Json) -> Option<DecodeError> {
        match j {
            Json::Object(es) => required_rejection::<ApplicationId>(es, "id").or_later(
                required_rejection::<u64>(es, "flags"),
            ),
            _ => Some(DecodeError::InvalidValue),
        }
    }

    fn decode(v: &Value) -> (r: Result<Self, DecodeError>) {
        let es = object_of(v)?;
        let id = required::<ApplicationId>(es, "id")?;
        let flags = required::<u64>(es, "flags")?;
        Ok(Application { id, flags })
    }
}

/// A channel.
#[derive(Clone, Debug)]
pub struct Channel {
    pub id: ChannelId,
    pub channel_type: ChannelType,
    pub guild_id: Option<GuildId>,
    pub position: Option<u16>,
    pub name: Option<String>,
    pub topic: Option<String>,
    pub nsfw: Option<bool>,
    pub bitrate: Option<u32>,
    pub user_limit: Option<u16>,
    pub rate_limit_per_user: Option<u16>,
    pub parent_id: Option<ChannelId>,
}

impl Decode for Channel {
    open spec fn decodes(j: Json, x: Self) -> bool {
        &&& j matches Json::Object(es)
        &&& has_required(es, "id"@, x.id)
        &&& has_required(es, "type"@, x.channel_type)
        &&& has_optional(es, "guild_id"@, x.guild_id)
        &&& has_optional(es, "position"@, x.position)
        &&& has_optional(es, "name"@, x.name)
        &&& has_optional(es, "topic"@, x.topic)
        &&& has_optional(es, "nsfw"@, x.nsfw)
        &&& has_optional(es, "bitrate"@, x.bitrate)
        &&& has_optional(es, "user_limit"@, x.user_limit)
        &&& has_optional(es, "rate_limit_per_user"@, x.rate_limit_per_user)
        &&& has_optional(es, "parent_id"@, x.parent_id)
    }

    open spec fn rejection(j: Json) -> Option<DecodeError> {
        match j {
            Json::Object(es) => required_rejection::<ChannelId>(es, "id").or_later(
                required_rejection::<ChannelType>(es, "type"),
            ).or_later(
                optional_rejection::<GuildId>(es, "guild_id"),
            ).or_later(
                optional_rejection::<u16>(es, "position"),
            ).or_later(
                optional_rejection::<String>(es, "name"),
            ).or_later(
                optional_rejection::<String>(es, "topic"),
            ).or_later(
                optional_rejection::<bool>(es, "nsfw"),
            ).or_later(
                optional_rejection::<u32>(es, "bitrate"),
            ).or_later(
                optional_rejection::<u16>(es, "user_limit"),
            ).or_later(
                optional_rejection::<u16>(es, "rate_limit_per_user"),
            ).or_later(
                optional_rejection::<ChannelId>(es, "parent_id"),
            ),
            _ => Some(DecodeError::InvalidValue),
        }
    }

    fn decode(v: &Value) -> (r: Result<Self, DecodeError>) {
        let es = object_of(v)?;
        let id = required::<ChannelId>(es, "id")?;
        let channel_type = required::<ChannelType>(es, "type")?;
        let guild_id = optional::<GuildId>(es, "guild_id")?;
        let position = optional::<u16>(es, "position")?;
        let name = optional::<String>(es, "name")?;
        let topic = optional::<String>(es, "topic")?;
        let nsfw = optional::<bool>(es, "nsfw")?;
        let bitrate = optional::<u32>(es, "bitrate")?;
        let user_limit = optional::<u16>(es, "user_limit")?;
        let rate_limit_per_user = optional::<u16>(es, "rate_limit_per_user")?;
        let parent_id = optional::<ChannelId>(es, "parent_id")?;
        Ok(
            Channel {
                id,
                channel_type,
                guild_id,
                position,
                name,
                topic,
                nsfw,
                bitrate,
                user_limit,
                rate_limit_per_user,
                parent_id,
            },
        )
    }
}

impl Channel {
    /// The name of the channel, and `??` where it has none.
    pub fn to_text(&self) -> (r: String)
        ensures
            r@ == match self.name {
                Some(n) => n@,
                None => "??"@,
            },
    {
        match &self.name {
            Some(n) => n.clone(),
            None => String::from_str("??"),
        }
    }
}

/// A guild.
#[derive(Clone, Debug)]
pub struct Guild {
    pub id: GuildId,
    pub name: String,
    pub icon: Option<String>,
    pub splash: Option<String>,
    pub discovery_splash: Option<String>,
    pub owner: Option<bool>,
    pub owner_id: UserId,
    pub permissions: Option<u64>,
    pub region: String,
    pub afk_channel_id: Option<ChannelId>,
    pub afk_timeout: u64,
    pub widget_enabled: Option<bool>,
    pub widget_channel_id: Option<ChannelId>,
    pub verification_level: u8,
    pub default_message_notifications: u8,
    pub explicit_content_filter: u8,
    pub roles: Vec<Role>,
    pub mfa_level: u8,
    pub application_id: Option<ApplicationId>,
    pub system_channel_id: Option<ChannelId>,
    pub system_channel_flags: u8,
    pub rules_channel_id: Option<ChannelId>,
    pub joined_at: Option<DateTime>,
    pub large: Option<bool>,
    pub unavailable: Option<bool>,
    pub member_count: Option<u16>,
    pub members: Vec<Member>,
    pub channels: Vec<Channel>,
    pub max_members: Option<u32>,
    pub vanity_url_code: Option<String>,
    pub description: Option<String>,
    pub banner: Option<String>,
    pub premium_tier: u8,
    pub premium_subscription_count: Option<u16>,
    pub preferred_locale: String,
    pub public_updates_channel_id: Option<ChannelId>,
    pub max_video_channel_users: Option<u16>,
    pub approximate_member_count: Option<u16>,
    pub approximate_presence_count: Option<u16>,
}

impl Decode for Guild {
    open spec fn decodes(j: Json, x: Self) -> bool {
        &&& j matches Json::Object(es)
        &&& has_required(es, "id"@, x.id)
        &&& has_required(es, "name"@, x.name)
        &&& has_optional(es, "icon"@, x.icon)
        &&& has_optional(es, "splash"@, x.splash)
        &&& has_optional(es, "discovery_splash"@, x.discovery_splash)
        &&& has_optional(es, "owner"@, x.owner)
        &&& has_required(es, "owner_id"@, x.owner_id)
        &&& has_optional(es, "permissions"@, x.permissions)
        &&& has_required(es, "region"@, x.region)
        &&& has_optional(es, "afk_channel_id"@, x.afk_channel_id)
        &&& has_required(es, "afk_timeout"@, x.afk_timeout)
        &&& has_optional(es, "widget_enabled"@, x.widget_enabled)
        &&& has_optional(es, "widget_channel_id"@, x.widget_channel_id)
        &&& has_required(es, "verification_level"@, x.verification_level)
        &&& has_required(es, "default_message_notifications"@, x.default_message_notifications)
        &&& has_required(es, "explicit_content_filter"@, x.explicit_content_filter)
        &&& has_required(es, "roles"@, x.roles)
        &&& has_required(es, "mfa_level"@, x.mfa_level)
        &&& has_optional(es, "application_id"@, x.application_id)
        &&& has_optional(es, "system_channel_id"@, x.system_channel_id)
        &&& has_required(es, "system_channel_flags"@, x.system_channel_flags)
        &&& has_optional(es, "rules_channel_id"@, x.rules_channel_id)
        &&& has_optional(es, "joined_at"@, x.joined_at)
        &&& has_optional(es, "large"@, x.large)
        &&& has_optional(es, "unavailable"@, x.unavailable)
        &&& has_optional(es, "member_count"@, x.member_count)
        &&& has_defaulted(es, "members"@, x.members)
        &&& has_defaulted(es, "channels"@, x.channels)
        &&& has_optional(es, "max_members"@, x.max_members)
        &&& has_optional(es, "vanity_url_code"@, x.vanity_url_code)
        &&& has_optional(es, "description"@, x.description)
        &&& has_optional(es, "banner"@, x.banner)
        &&& has_required(es, "premium_tier"@, x.premium_tier)
        &&& has_optional(es, "premium_subscription_count"@, x.premium_subscription_count)
        &&& has_required(es, "preferred_locale"@, x.preferred_locale)
        &&& has_optional(es, "public_updates_channel_id"@, x.public_updates_channel_id)
        &&& has_optional(es, "max_video_channel_users"@, x.max_video_channel_users)
        &&& has_optional(es, "approximate_member_count"@, x.approximate_member_count)
        &&& has_optional(es, "approximate_presence_count"@, x.approximate_presence_count)
    }

    open spec fn rejection(j: Json) -> Option<DecodeError> {
        match j {
            Json::Object(es) => required_rejection::<GuildId>(es, "id").or_later(
                required_rejection::<String>(es, "name"),
            ).or_later(
                optional_rejection::<String>(es, "icon"),
            ).or_later(
                optional_rejection::<String>(es, "splash"),
            ).or_later(
                optional_rejection::<String>(es, "discovery_splash"),
            ).or_later(
                optional_rejection::<bool>(es, "owner"),
            ).or_later(
                required_rejection::<UserId>(es, "owner_id"),
            ).or_later(
                optional_rejection::<u64>(es, "permissions"),
            ).or_later(
                required_rejection::<String>(es, "region"),
            ).or_later(
                optional_rejection::<ChannelId>(es, "afk_channel_id"),
            ).or_later(
                required_rejection::<u64>(es, "afk_timeout"),
            ).or_later(
                optional_rejection::<bool>(es, "widget_enabled"),
            ).or_later(
                optional_rejection::<ChannelId>(es, "widget_channel_id"),
            ).or_later(
                required_rejection::<u8>(es, "verification_level"),
            ).or_later(
                required_rejection::<u8>(es, "default_message_notifications"),
            ).or_later(
                required_rejection::<u8>(es, "explicit_content_filter"),
            ).or_later(
                required_rejection::<Vec<Role>>(es, "roles"),
            ).or_later(
                required_rejection::<u8>(es, "mfa_level"),
            ).or_later(
                optional_rejection::<ApplicationId>(es, "application_id"),
            ).or_later(
                optional_rejection::<ChannelId>(es, "system_channel_id"),
            ).or_later(
                required_rejection::<u8>(es, "system_channel_flags"),
            ).or_later(
                optional_rejection::<ChannelId>(es, "rules_channel_id"),
            ).or_later(
                optional_rejection::<DateTime>(es, "joined_at"),
            ).or_later(
                optional_rejection::<bool>(es, "large"),
            ).or_later(
                optional_rejection::<bool>(es, "unavailable"),
            ).or_later(
                optional_rejection::<u16>(es, "member_count"),
            ).or_later(
                defaulted_rejection::<Vec<Member>>(es, "members"),
            ).or_later(
                defaulted_rejection::<Vec<Channel>>(es, "channels"),
            ).or_later(
                optional_rejection::<u32>(es, "max_members"),
            ).or_later(
                optional_rejection::<String>(es, "vanity_url_code"),
            ).or_later(
                optional_rejection::<String>(es, "description"),
            ).or_later(
                optional_rejection::<String>(es, "banner"),
            ).or_later(
                required_rejection::<u8>(es, "premium_tier"),
            ).or_later(
                optional_rejection::<u16>(es, "premium_subscription_count"),
            ).or_later(
                required_rejection::<String>(es, "preferred_locale"),
            ).or_later(
                optional_rejection::<ChannelId>(es, "public_updates_channel_id"),
            ).or_later(
                optional_rejection::<u16>(es, "max_video_channel_users"),
            ).or_later(
                optional_rejection::<u16>(es, "approximate_member_count"),
            ).or_later(
                optional_rejection::<u16>(es, "approximate_presence_count"),
            ),
            _ => Some(DecodeError::InvalidValue),
        }
    }

    fn decode(v: &Value) -> (r: Result<Self, DecodeError>) {
        let es = object_of(v)?;
        let id = required::<GuildId>(es, "id")?;
        let name = required::<String>(es, "name")?;
        let icon = optional::<String>(es, "icon")?;
        let splash = optional::<String>(es, "splash")?;
        let discovery_splash = optional::<String>(es, "discovery_splash")?;
        let owner = optional::<bool>(es, "owner")?;
        let owner_id = required::<UserId>(es, "owner_id")?;
        let permissions = optional::<u64>(es, "permissions")?;
        let region = required::<String>(es, "region")?;
        let afk_channel_id = optional::<ChannelId>(es, "afk_channel_id")?;
        let afk_timeout = required::<u64>(es, "afk_timeout")?;
        let widget_enabled = optional::<bool>(es, "widget_enabled")?;
        let widget_channel_id = optional::<ChannelId>(es, "widget_channel_id")?;
        let verification_level = required::<u8>(es, "verification_level")?;
        let default_message_notifications = required::<u8>(es, "default_message_notifications")?;
        let explicit_content_filter = required::<u8>(es, "explicit_content_filter")?;
        let roles = required::<Vec<Role>>(es, "roles")?;
        let mfa_level = required::<u8>(es, "mfa_level")?;
        let application_id = optional::<ApplicationId>(es, "application_id")?;
        let system_channel_id = optional::<ChannelId>(es, "system_channel_id")?;
        let system_channel_flags = required::<u8>(es, "system_channel_flags")?;
        let rules_channel_id = optional::<ChannelId>(es, "rules_channel_id")?;
        let joined_at = optional::<DateTime>(es, "joined_at")?;
        let large = optional::<bool>(es, "large")?;
        let unavailable = optional::<bool>(es, "unavailable")?;
        let member_count = optional::<u16>(es, "member_count")?;
        let members = defaulted::<Vec<Member>>(es, "members")?;
        let channels = defaulted::<Vec<Channel>>(es, "channels")?;
        let max_members = optional::<u32>(es, "max_members")?;
        let vanity_url_code = optional::<String>(es, "vanity_url_code")?;
        let description = optional::<String>(es, "description")?;
        let banner = optional::<String>(es, "banner")?;
        let premium_tier = required::<u8>(es, "premium_tier")?;
        let premium_subscription_count = optional::<u16>(es, "premium_subscription_count")?;
        let preferred_locale = required::<String>(es, "preferred_locale")?;
        let public_updates_channel_id = optional::<ChannelId>(es, "public_updates_channel_id")?;
        let max_video_channel_users = optional::<u16>(es, "max_video_channel_users")?;
        let approximate_member_count = optional::<u16>(es, "approximate_member_count")?;
        let approximate_presence_count = optional::<u16>(es, "approximate_presence_count")?;
        Ok(
            Guild {
                id,
                name,
                icon,
                splash,
                discovery_splash,
                owner,
                owner_id,
                permissions,
                region,
                afk_channel_id,
                afk_timeout,
                widget_enabled,
                widget_channel_id,
                verification_level,
                default_message_notifications,
                explicit_content_filter,
                roles,
                mfa_level,
                application_id,
                system_channel_id,
                system_channel_flags,
                rules_channel_id,
                joined_at,
                large,
                unavailable,
                member_count,
                members,
                channels,
                max_members,
                vanity_url_code,
                description,
                banner,
                premium_tier,
                premium_subscription_count,
                preferred_locale,
                public_updates_channel_id,
                max_video_channel_users,
                approximate_member_count,
                approximate_presence_count,
            },
        )
    }
}

/// A role of a guild.
#[derive(Clone, Debug)]
pub struct Role {
    pub id: RoleId,
    pub name: String,
    pub color: Color,
    pub hoist: bool,
    pub position: u16,
    pub permissions: String,
    pub managed: bool,
    pub mentionable: bool,
}

impl Decode for Role {
    open spec fn decodes(j: Json, x: Self) -> bool {
        &&& j matches Json::Object(es)
        &&& has_required(es, "id"@, x.id)
        &&& has_required(es, "name"@, x.name)
        &&& has_required(es, "color"@, x.color)
        &&& has_required(es, "hoist"@, x.hoist)
        &&& has_required(es, "position"@, x.position)
        &&& has_required(es, "permissions"@, x.permissions)
        &&& has_required(es, "managed"@, x.managed)
        &&& has_required(es, "mentionable"@, x.mentionable)
    }

    open spec fn rejection(j: Json) -> Option<DecodeError> {
        match j {
            Json::Object(es) => required_rejection::<RoleId>(es, "id").or_later(
                required_rejection::<String>(es, "name"),
            ).or_later(
                required_rejection::<Color>(es, "color"),
            ).or_later(
                required_rejection::<bool>(es, "hoist"),
            ).or_later(
                required_rejection::<u16>(es, "position"),
            ).or_later(
                required_rejection::<String>(es, "permissions"),
            ).or_later(
                required_rejection::<bool>(es, "managed"),
            ).or_later(
                required_rejection::<bool>(es, "mentionable"),
            ),
            _ => Some(DecodeError::InvalidValue),
        }
    }

    fn decode(v: &Value) -> (r: Result<Self, DecodeError>) {
        let es = object_of(v)?;
        let id = required::<RoleId>(es, "id")?;
        let name = required::<String>(es, "name")?;
        let color = required::<Color>(es, "color")?;
        let hoist = required::<bool>(es, "hoist")?;
        let position = required::<u16>(es, "position")?;
        let permissions = required::<String>(es, "permissions")?;
        let managed = required::<bool>(es, "managed")?;
        let mentionable = required::<bool>(es, "mentionable")?;
        Ok(Role { id, name, color, hoist, position, permissions, managed, mentionable })
    }
}

/// A user as a member of a guild.
#[derive(Clone, Debug)]
pub struct Member {
    pub user: Option<User>,
    pub nick: Option<String>,
    pub roles: IdSet<RoleId>,
    pub joined_at: DateTime,
    pub premium_since: Option<DateTime>,
    pub deaf: bool,
    pub mute: bool,
    pub pending: Option<bool>,
    pub permissions: Option<String>,
}

impl Decode for Member {
    open spec fn decodes(j: Json, x: Self) -> bool {
        &&& j matches Json::Object(es)
        &&& has_optional(es, "user"@, x.user)
        &&& has_optional(es, "nick"@, x.nick)
        &&& has_required(es, "roles"@, x.roles)
        &&& has_required(es, "joined_at"@, x.joined_at)
        &&& has_optional(es, "premium_since"@, x.premium_since)
        &&& has_required(es, "deaf"@, x.deaf)
        &&& has_required(es, "mute"@, x.mute)
        &&& has_optional(es, "pending"@, x.pending)
        &&& has_optional(es, "permissions"@, x.permissions)
    }

    open spec fn rejection(j: Json) -> Option<DecodeError> {
        match j {
            Json::Object(es) => optional_rejection::<User>(es, "user").or_later(
                optional_rejection::<String>(es, "nick"),
            ).or_later(
                required_rejection::<IdSet<RoleId>>(es, "roles"),
            ).or_later(
                required_rejection::<DateTime>(es, "joined_at"),
            ).or_later(
                optional_rejection::<DateTime>(es, "premium_since"),
            ).or_later(
                required_rejection::<bool>(es, "deaf"),
            ).or_later(
                required_rejection::<bool>(es, "mute"),
            ).or_later(
                optional_rejection::<bool>(es, "pending"),
            ).or_later(
                optional_rejection::<String>(es, "permissions"),
            ),
            _ => Some(DecodeError::InvalidValue),
        }
    }

    fn decode(v: &Value) -> (r: Result<Self, DecodeError>) {
        let es = object_of(v)?;
        let user = optional::<User>(es, "user")?;
        let nick = optional::<String>(es, "nick")?;
        let roles = required::<IdSet<RoleId>>(es, "roles")?;
        let joined_at = required::<DateTime>(es, "joined_at")?;
        let premium_since = optional::<DateTime>(es, "premium_since")?;
        let deaf = required::<bool>(es, "deaf")?;
        let mute = required::<bool>(es, "mute")?;
        let pending = optional::<bool>(es, "pending")?;
        let permissions = optional::<String>(es, "permissions")?;
        Ok(Member { user, nick, roles, joined_at, premium_since, deaf, mute, pending, permissions })
    }
}

impl Member {
    /// What a member is shown as: the nickname, or `??` where there is none,
    /// and then the user in brackets where the user is known.
    pub open spec fn spec_text(self) -> Seq<char> {
        let nick = match self.nick {
            Some(n) => n@,
            None => "??"@,
        };
        match self.user {
            Some(u) => nick + " ("@ + u.spec_text() + ")"@,
            None => nick,
        }
    }

    /// What the member is shown as.
    pub fn to_text(&self) -> (r: String)
        ensures
            r@ == self.spec_text(),
    {
        let mut out = match &self.nick {
            Some(n) => n.clone(),
            None => String::from_str("??"),
        };
        match &self.user {
            Some(u) => {
                out.append(" (");
                let name = u.to_text();
                out.append(name.as_str());
                out.append(")");
            },
            None => {},
        }
        out
    }
}

/// A user.
#[derive(Clone, Debug)]
pub struct User {
    pub id: UserId,
    pub username: String,
    pub discriminator: String,
    pub avatar: Option<String>,
    pub bot: Option<bool>,
    pub system: Option<bool>,
    pub mfa_enabled: Option<bool>,
    pub locale: Option<String>,
    pub verified: Option<bool>,
    pub email: Option<String>,
    pub flags: Option<UserFlags>,
    pub premium_type: Option<u64>,
    pub public_flags: Option<UserFlags>,
}

impl Decode for User {
    open spec fn decodes(j: Json, x: Self) -> bool {
        &&& j matches Json::Object(es)
        &&& has_required(es, "id"@, x.id)
        &&& has_required(es, "username"@, x.username)
        &&& has_required(es, "discriminator"@, x.discriminator)
        &&& has_optional(es, "avatar"@, x.avatar)
        &&& has_optional(es, "bot"@, x.bot)
        &&& has_optional(es, "system"@, x.system)
        &&& has_optional(es, "mfa_enabled"@, x.mfa_enabled)
        &&& has_optional(es, "locale"@, x.locale)
        &&& has_optional(es, "verified"@, x.verified)
        &&& has_optional(es, "email"@, x.email)
        &&& has_optional(es, "flags"@, x.flags)
        &&& has_optional(es, "premium_type"@, x.premium_type)
        &&& has_optional(es, "public_flags"@, x.public_flags)
    }

    open spec fn rejection(j: Json) -> Option<DecodeError> {
        match j {
            Json::Object(es) => required_rejection::<UserId>(es, "id").or_later(
                required_rejection::<String>(es, "username"),
            ).or_later(
                required_rejection::<String>(es, "discriminator"),
            ).or_later(
                optional_rejection::<String>(es, "avatar"),
            ).or_later(
                optional_rejection::<bool>(es, "bot"),
            ).or_later(
                optional_rejection::<bool>(es, "system"),
            ).or_later(
                optional_rejection::<bool>(es, "mfa_enabled"),
            ).or_later(
                optional_rejection::<String>(es, "locale"),
            ).or_later(
                optional_rejection::<bool>(es, "verified"),
            ).or_later(
                optional_rejection::<String>(es, "email"),
            ).or_later(
                optional_rejection::<UserFlags>(es, "flags"),
            ).or_later(
                optional_rejection::<u64>(es, "premium_type"),
            ).or_later(
                optional_rejection::<UserFlags>(es, "public_flags"),
            ),
            _ => Some(DecodeError::InvalidValue),
        }
    }

    fn decode(v: &Value) -> (r: Result<Self, DecodeError>) {
        let es = object_of(v)?;
        let id = required::<UserId>(es, "id")?;
        let username = required::<String>(es, "username")?;
        let discriminator = required::<String>(es, "discriminator")?;
        let avatar = optional::<String>(es, "avatar")?;
        let bot = optional::<bool>(es, "bot")?;
        let system = optional::<bool>(es, "system")?;
        let mfa_enabled = optional::<bool>(es, "mfa_enabled")?;
        let locale = optional::<String>(es, "locale")?;
        let verified = optional::<bool>(es, "verified")?;
        let email = optional::<String>(es, "email")?;
        let flags = optional::<UserFlags>(es, "flags")?;
        let premium_type = optional::<u64>(es, "premium_type")?;
        let public_flags = optional::<UserFlags>(es, "public_flags")?;
        Ok(
            User {
                id,
                username,
                discriminator,
                avatar,
                bot,
                system,
                mfa_enabled,
                locale,
                verified,
                email,
                flags,
                premium_type,
                public_flags,
            },
        )
    }
}

impl User {
    /// Whether the user is marked as a bot.
    pub fn is_bot(&self) -> (r: bool)
        ensures
            r == (self.bot == Some(true)),
    {
        match self.bot {
            Some(b) => b,
            None => false,
        }
    }

    /// Whether the user is marked as a part of the system.
    pub fn is_system(&self) -> (r: bool)
        ensures
            r == (self.system == Some(true)),
    {
        match self.system {
            Some(b) => b,
            None => false,
        }
    }

    /// What a user is shown as: the name, `#` and the discriminator.
    pub open spec fn spec_text(self) -> Seq<char> {
        self.username@ + "#"@ + self.discriminator@
    }

    /// What the user is shown as.
    pub fn to_text(&self) -> (r: String)
        ensures
            r@ == self.spec_text(),
    {
        let mut out = self.username.clone();
        out.append("#");
        out.append(self.discriminator.as_str());
        out
    }
}

/// A message.
#[derive(Clone, Debug)]
pub struct Message {
    pub id: MessageId,
    pub channel_id: ChannelId,
    pub guild_id: Option<GuildId>,
    pub author: Option<User>,
    pub member: Option<Member>,
    pub content: String,
    pub timestamp: Option<DateTime>,
    pub edited_timestamp: Option<DateTime>,
    pub tts: bool,
    pub mention_everyone: bool,
    pub mentions: Vec<User>,
    pub reactions: Vec<Reaction>,
    pub pinned: bool,
    pub webhook_id: Option<Snowflake>,
    pub message_type: MessageType,
    pub interaction: Option<MessageInteraction>,
    pub components: Vec<Component>,
}

impl Decode for Message {
    open spec fn decodes(j: Json, x: Self) -> bool {
        &&& j matches Json::Object(es)
        &&& has_required(es, "id"@, x.id)
        &&& has_required(es, "channel_id"@, x.channel_id)
        &&& has_optional(es, "guild_id"@, x.guild_id)
        &&& has_optional(es, "author"@, x.author)
        &&& has_optional(es, "member"@, x.member)
        &&& has_defaulted(es, "content"@, x.content)
        &&& has_optional(es, "timestamp"@, x.timestamp)
        &&& has_optional(es, "edited_timestamp"@, x.edited_timestamp)
        &&& has_defaulted(es, "tts"@, x.tts)
        &&& has_defaulted(es, "mention_everyone"@, x.mention_everyone)
        &&& has_defaulted(es, "mentions"@, x.mentions)
        &&& has_defaulted(es, "reactions"@, x.reactions)
        &&& has_defaulted(es, "pinned"@, x.pinned)
        &&& has_optional(es, "webhook_id"@, x.webhook_id)
        &&& has_required(es, "type"@, x.message_type)
        &&& has_optional(es, "interaction"@, x.interaction)
        &&& has_defaulted(es, "components"@, x.components)
    }

    open spec fn rejection(j: Json) -> Option<DecodeError> {
        match j {
            Json::Object(es) => required_rejection::<MessageId>(es, "id").or_later(
                required_rejection::<ChannelId>(es, "channel_id"),
            ).or_later(
                optional_rejection::<GuildId>(es, "guild_id"),
            ).or_later(
                optional_rejection::<User>(es, "author"),
            ).or_later(
                optional_rejection::<Member>(es, "member"),
            ).or_later(
                defaulted_rejection::<String>(es, "content"),
            ).or_later(
                optional_rejection::<DateTime>(es, "timestamp"),
            ).or_later(
                optional_rejection::<DateTime>(es, "edited_timestamp"),
            ).or_later(
                defaulted_rejection::<bool>(es, "tts"),
            ).or_later(
                defaulted_rejection::<bool>(es, "mention_everyone"),
            ).or_later(
                defaulted_rejection::<Vec<User>>(es, "mentions"),
            ).or_later(
                defaulted_rejection::<Vec<Reaction>>(es, "reactions"),
            ).or_later(
                defaulted_rejection::<bool>(es, "pinned"),
            ).or_later(
                optional_rejection::<Snowflake>(es, "webhook_id"),
            ).or_later(
                required_rejection::<MessageType>(es, "type"),
            ).or_later(
                optional_rejection::<MessageInteraction>(es, "interaction"),
            ).or_later(
                defaulted_rejection::<Vec<Component>>(es, "components"),
            ),
            _ => Some(DecodeError::InvalidValue),
        }
    }

    fn decode(v: &Value) -> (r: Result<Self, DecodeError>) {
        let es = object_of(v)?;
        let id = required::<MessageId>(es, "id")?;
        let channel_id = required::<ChannelId>(es, "channel_id")?;
        let guild_id = optional::<GuildId>(es, "guild_id")?;
        let author = optional::<User>(es, "author")?;
        let member = optional::<Member>(es, "member")?;
        let content = defaulted::<String>(es, "content")?;
        let timestamp = optional::<DateTime>(es, "timestamp")?;
        let edited_timestamp = optional::<DateTime>(es, "edited_timestamp")?;
        let tts = defaulted::<bool>(es, "tts")?;
        let mention_everyone = defaulted::<bool>(es, "mention_everyone")?;
        let mentions = defaulted::<Vec<User>>(es, "mentions")?;
        let reactions = defaulted::<Vec<Reaction>>(es, "reactions")?;
        let pinned = defaulted::<bool>(es, "pinned")?;
        let webhook_id = optional::<Snowflake>(es, "webhook_id")?;
        let message_type = required::<MessageType>(es, "type")?;
        let interaction = optional::<MessageInteraction>(es, "interaction")?;
        let components = defaulted::<Vec<Component>>(es, "components")?;
        Ok(
            Message {
                id,
                channel_id,
                guild_id,
                author,
                member,
                content,
                timestamp,
                edited_timestamp,
                tts,
                mention_everyone,
                mentions,
                reactions,
                pinned,
                webhook_id,
                message_type,
                interaction,
                components,
            },
        )
    }
}

impl From<&Message> for ChannelId {
    fn from(message: &Message) -> (r: Self) {
        message.channel_id
    }
}

impl FromSpecImpl<&Message> for ChannelId {
    open spec fn obeys_from_spec() -> bool {
        true
    }

    open spec fn from_spec(v: &Message) -> Self {
        v.channel_id
    }
}

impl Message {
    /// What the message says.
    pub fn to_text(&self) -> (r: String)
        ensures
            r@ == self.content@,
    {
        self.content.clone()
    }
}

/// The interaction that a message answers.
#[derive(Clone, Debug)]
pub struct MessageInteraction {
    pub id: InteractionId,
    pub interaction_type: InteractionType,
    pub name: String,
    pub user: User,
}

impl Decode for MessageInteraction {
    open spec fn decodes(j: Json, x: Self) -> bool {
        &&& j matches Json::Object(es)
        &&& has_required(es, "id"@, x.id)
        &&& has_required(es, "type"@, x.interaction_type)
        &&& has_required(es, "name"@, x.name)
        &&& has_required(es, "user"@, x.user)
    }

    open spec fn rejection(j: Json) -> Option<DecodeError> {
        match j {
            Json::Object(es) => required_rejection::<InteractionId>(es, "id").or_later(
                required_rejection::<InteractionType>(es, "type"),
            ).or_later(
                required_rejection::<String>(es, "name"),
            ).or_later(
                required_rejection::<User>(es, "user"),
            ),
            _ => Some(DecodeError::InvalidValue),
        }
    }

    fn decode(v: &Value) -> (r: Result<Self, DecodeError>) {
        let es = object_of(v)?;
        let id = required::<InteractionId>(es, "id")?;
        let interaction_type = required::<InteractionType>(es, "type")?;
        let name = required::<String>(es, "name")?;
        let user = required::<User>(es, "user")?;
        Ok(MessageInteraction { id, interaction_type, name, user })
    }
}

/// Rich content that stands in a message.
#[derive(Clone, Debug)]
pub struct Embed {
    pub title: Option<String>,
    pub description: Option<String>,
    pub url: Option<String>,
    pub timestamp: Option<DateTime>,
    pub color: Option<Color>,
    pub image: Option<EmbedImage>,
    pub thumbnail: Option<EmbedThumbnail>,
}

impl Decode for Embed {
    open spec fn decodes(j: Json, x: Self) -> bool {
        &&& j matches Json::Object(es)
        &&& has_optional(es, "title"@, x.title)
        &&& has_optional(es, "description"@, x.description)
        &&& has_optional(es, "url"@, x.url)
        &&& has_optional(es, "timestamp"@, x.timestamp)
        &&& has_optional(es, "color"@, x.color)
        &&& has_optional(es, "image"@, x.image)
        &&& has_optional(es, "thumbnail"@, x.thumbnail)
    }

    open spec fn rejection(j: Json) -> Option<DecodeError> {
        match j {
            Json::Object(es) => optional_rejection::<String>(es, "title").or_later(
                optional_rejection::<String>(es, "description"),
            ).or_later(
                optional_rejection::<String>(es, "url"),
            ).or_later(
                optional_rejection::<DateTime>(es, "timestamp"),
            ).or_later(
                optional_rejection::<Color>(es, "color"),
            ).or_later(
                optional_rejection::<EmbedImage>(es, "image"),
            ).or_later(
                optional_rejection::<EmbedThumbnail>(es, "thumbnail"),
            ),
            _ => Some(DecodeError::InvalidValue),
        }
    }

    fn decode(v: &Value) -> (r: Result<Self, DecodeError>) {
        let es = object_of(v)?;
        let title = optional::<String>(es, "title")?;
        let description = optional::<String>(es, "description")?;
        let url = optional::<String>(es, "url")?;
        let timestamp = optional::<DateTime>(es, "timestamp")?;
        let color = optional::<Color>(es, "color")?;
        let image = optional::<EmbedImage>(es, "image")?;
        let thumbnail = optional::<EmbedThumbnail>(es, "thumbnail")?;
        Ok(Embed { title, description, url, timestamp, color, image, thumbnail })
    }
}

impl Encode for Embed {
    open spec fn wire(&self) -> Json {
        Json::Object(
            Seq::empty() + maybe("title"@, self.title)
                + maybe("description"@, self.description)
                + maybe("url"@, self.url)
                + maybe("timestamp"@, self.timestamp)
                + maybe("color"@, self.color)
                + maybe("image"@, self.image)
                + maybe("thumbnail"@, self.thumbnail),
        )
    }

    fn encode(&self) -> (r: Value) {
        let mut es = fresh();
        put_some(&mut es, "title", &self.title);
        put_some(&mut es, "description", &self.description);
        put_some(&mut es, "url", &self.url);
        put_some(&mut es, "timestamp", &self.timestamp);
        put_some(&mut es, "color", &self.color);
        put_some(&mut es, "image", &self.image);
        put_some(&mut es, "thumbnail", &self.thumbnail);
        object(es)
    }
}

impl Embed {
    /// The embed that holds nothing.
    pub fn new() -> (r: Self)
        ensures
            r.title is None,
            r.description is None,
            r.url is None,
            r.timestamp is None,
            r.color is None,
            r.image is None,
            r.thumbnail is None,
    {
        Embed {
            title: None,
            description: None,
            url: None,
            timestamp: None,
            color: None,
            image: None,
            thumbnail: None,
        }
    }

    /// The embed with the title `title`.
    pub fn title(self, title: String) -> (r: Self)
        ensures
            r == (Embed { title: Some(title), ..self }),
    {
        let mut r = self;
        r.title = Some(title);
        r
    }

    /// The embed with the description `description`.
    pub fn description(self, description: String) -> (r: Self)
        ensures
            r == (Embed { description: Some(description), ..self }),
    {
        let mut r = self;
        r.description = Some(description);
        r
    }

    /// The embed with the address `url`.
    pub fn url(self, url: String) -> (r: Self)
        ensures
            r == (Embed { url: Some(url), ..self }),
    {
        let mut r = self;
        r.url = Some(url);
        r
    }

    /// The embed with the instant `timestamp`.
    pub fn timestamp(self, timestamp: DateTime) -> (r: Self)
        ensures
            r == (Embed { timestamp: Some(timestamp), ..self }),
    {
        let mut r = self;
        r.timestamp = Some(timestamp);
        r
    }

    /// The embed with the colour `color`.
    pub fn color(self, color: Color) -> (r: Self)
        ensures
            r == (Embed { color: Some(color), ..self }),
    {
        let mut r = self;
        r.color = Some(color);
        r
    }

    /// The embed with the image at the address `url`, of unknown size.
    pub fn image(self, url: String) -> (r: Self)
        ensures
            r == (Embed {
                image: Some(EmbedImage { url: Some(url), height: None, width: None }),
                ..self
            }),
    {
        let mut r = self;
        r.image = Some(EmbedImage { url: Some(url), height: None, width: None });
        r
    }
}

/// The image of an embed.
#[derive(Clone, Debug)]
pub struct EmbedImage {
    pub url: Option<String>,
    pub height: Option<u16>,
    pub width: Option<u16>,
}

impl Decode for EmbedImage {
    open spec fn decodes(j: Json, x: Self) -> bool {
        &&& j matches Json::Object(es)
        &&& has_optional(es, "url"@, x.url)
        &&& has_optional(es, "height"@, x.height)
        &&& has_optional(es, "width"@, x.width)
    }

    open spec fn rejection(j: Json) -> Option<DecodeError> {
        match j {
            Json::Object(es) => optional_rejection::<String>(es, "url").or_later(
                optional_rejection::<u16>(es, "height"),
            ).or_later(
                optional_rejection::<u16>(es, "width"),
            ),
            _ => Some(DecodeError::InvalidValue),
        }
    }

    fn decode(v: &Value) -> (r: Result<Self, DecodeError>) {
        let es = object_of(v)?;
        let url = optional::<String>(es, "url")?;
        let height = optional::<u16>(es, "height")?;
        let width = optional::<u16>(es, "width")?;
        Ok(EmbedImage { url, height, width })
    }
}

impl Encode for EmbedImage {
    open spec fn wire(&self) -> Json {
        Json::Object(
            Seq::empty() + one("url"@, self.url.wire())
                + one("height"@, self.height.wire())
                + one("width"@, self.width.wire()),
        )
    }

    fn encode(&self) -> (r: Value) {
        let mut es = fresh();
        put(&mut es, "url", &self.url);
        put(&mut es, "height", &self.height);
        put(&mut es, "width", &self.width);
        object(es)
    }
}

/// The small image of an embed.
#[derive(Clone, Debug)]
pub struct EmbedThumbnail {
    pub url: Option<String>,
}

impl Decode for EmbedThumbnail {
    open spec fn decodes(j: Json, x: Self) -> bool {
        &&& j matches Json::Object(es)
        &&& has_optional(es, "url"@, x.url)
    }

    open spec fn rejection(j: Json) -> Option<DecodeError> {
        match j {
            Json::Object(es) => optional_rejection::<String>(es, "url"),
            _ => Some(DecodeError::InvalidValue),
        }
    }

    fn decode(v: &Value) -> (r: Result<Self, DecodeError>) {
        let es = object_of(v)?;
        let url = optional::<String>(es, "url")?;
        Ok(EmbedThumbnail { url })
    }
}

impl Encode for EmbedThumbnail {
    open spec fn wire(&self) -> Json {
        Json::Object(
            Seq::empty() + one("url"@, self.url.wire()),
        )
    }

    fn encode(&self) -> (r: Value) {
        let mut es = fresh();
        put(&mut es, "url", &self.url);
        object(es)
    }
}

/// How often an emoji was put under a message.
#[derive(Clone, Debug)]
pub struct Reaction {
    pub count: u64,
    pub me: bool,
    pub emoji: PartialEmoji,
}

impl Decode for Reaction {
    open spec fn decodes(j: Json, x: Self) -> bool {
        &&& j matches Json::Object(es)
        &&& has_required(es, "count"@, x.count)
        &&& has_required(es, "me"@, x.me)
        &&& has_required(es, "emoji"@, x.emoji)
    }

    open spec fn rejection(j: Json) -> Option<DecodeError> {
        match j {
            Json::Object(es) => required_rejection::<u64>(es, "count").or_later(
                required_rejection::<bool>(es, "me"),
            ).or_later(
                required_rejection::<PartialEmoji>(es, "emoji"),
            ),
            _ => Some(DecodeError::InvalidValue),
        }
    }

    fn decode(v: &Value) -> (r: Result<Self, DecodeError>) {
        let es = object_of(v)?;
        let count = required::<u64>(es, "count")?;
        let me = required::<bool>(es, "me")?;
        let emoji = required::<PartialEmoji>(es, "emoji")?;
        Ok(Reaction { count, me, emoji })
    }
}

impl Encode for Reaction {
    open spec fn wire(&self) -> Json {
        Json::Object(
            Seq::empty() + one("count"@, self.count.wire())
                + one("me"@, self.me.wire())
                + one("emoji"@, self.emoji.wire()),
        )
    }

    fn encode(&self) -> (r: Value) {
        let mut es = fresh();
        put(&mut es, "count", &self.count);
        put(&mut es, "me", &self.me);
        put(&mut es, "emoji", &self.emoji);
        object(es)
    }
}

/// A command that an application offers.
#[derive(Clone, Debug)]
pub struct ApplicationCommand {
    pub id: Snowflake,
    pub application_id: ApplicationId,
    pub name: String,
    pub description: String,
    pub options: Vec<ApplicationCommandOption>,
}

impl Decode for ApplicationCommand {
    open spec fn decodes(j: Json, x: Self) -> bool {
        &&& j matches Json::Object(es)
        &&& has_required(es, "id"@, x.id)
        &&& has_required(es, "application_id"@, x.application_id)
        &&& has_required(es, "name"@, x.name)
        &&& has_required(es, "description"@, x.description)
        &&& has_defaulted(es, "options"@, x.options)
    }

    open spec fn rejection(j: Json) -> Option<DecodeError> {
        match j {
            Json::Object(es) => required_rejection::<Snowflake>(es, "id").or_later(
                required_rejection::<ApplicationId>(es, "application_id"),
            ).or_later(
                required_rejection::<String>(es, "name"),
            ).or_later(
                required_rejection::<String>(es, "description"),
            ).or_later(
                defaulted_rejection::<Vec<ApplicationCommandOption>>(es, "options"),
            ),
            _ => Some(DecodeError::InvalidValue),
        }
    }

    fn decode(v: &Value) -> (r: Result<Self, DecodeError>) {
        let es = object_of(v)?;
        let id = required::<Snowflake>(es, "id")?;
        let application_id = required::<ApplicationId>(es, "application_id")?;
        let name = required::<String>(es, "name")?;
        let description = required::<String>(es, "description")?;
        let options = defaulted::<Vec<ApplicationCommandOption>>(es, "options")?;
        Ok(ApplicationCommand { id, application_id, name, description, options })
    }
}

/// One of the values that an option can take.
#[derive(Clone, Debug)]
pub struct ApplicationCommandOptionChoice {
    pub name: String,
    pub value: String,
}

impl Decode for ApplicationCommandOptionChoice {
    open spec fn decodes(j: Json, x: Self) -> bool {
        &&& j matches Json::Object(es)
        &&& has_required(es, "name"@, x.name)
        &&& has_required(es, "value"@, x.value)
    }

    open spec fn rejection(j: Json) -> Option<DecodeError> {
        match j {
            Json::Object(es) => required_rejection::<String>(es, "name").or_later(
                required_rejection::<String>(es, "value"),
            ),
            _ => Some(DecodeError::InvalidValue),
        }
    }

    fn decode(v: &Value) -> (r: Result<Self, DecodeError>) {
        let es = object_of(v)?;
        let name = required::<String>(es, "name")?;
        let value = required::<String>(es, "value")?;
        Ok(ApplicationCommandOptionChoice { name, value })
    }
}

impl Encode for ApplicationCommandOptionChoice {
    open spec fn wire(&self) -> Json {
        Json::Object(
            Seq::empty() + one("name"@, self.name.wire())
                + one("value"@, self.value.wire()),
        )
    }

    fn encode(&self) -> (r: Value) {
        let mut es = fresh();
        put(&mut es, "name", &self.name);
        put(&mut es, "value", &self.value);
        object(es)
    }
}

/// A use of a command or of a message component.
#[derive(Clone, Debug)]
pub struct Interaction {
    pub id: InteractionId,
    pub application_id: Snowflake,
    pub interaction_type: InteractionType,
    pub data: InteractionData,
    pub guild_id: Option<GuildId>,
    pub channel_id: Option<ChannelId>,
    pub member: Option<Member>,
    pub user: Option<User>,
    pub token: String,
    pub version: u8,
    pub message: Option<Message>,
}

impl Decode for Interaction {
    open spec fn decodes(j: Json, x: Self) -> bool {
        &&& j matches Json::Object(es)
        &&& has_required(es, "id"@, x.id)
        &&& has_required(es, "application_id"@, x.application_id)
        &&& has_required(es, "type"@, x.interaction_type)
        &&& has_required(es, "data"@, x.data)
        &&& has_optional(es, "guild_id"@, x.guild_id)
        &&& has_optional(es, "channel_id"@, x.channel_id)
        &&& has_optional(es, "member"@, x.member)
        &&& has_optional(es, "user"@, x.user)
        &&& has_required(es, "token"@, x.token)
        &&& has_required(es, "version"@, x.version)
        &&& has_optional(es, "message"@, x.message)
    }

    open spec fn rejection(j: Json) -> Option<DecodeError> {
        match j {
            Json::Object(es) => required_rejection::<InteractionId>(es, "id").or_later(
                required_rejection::<Snowflake>(es, "application_id"),
            ).or_later(
                required_rejection::<InteractionType>(es, "type"),
            ).or_later(
                required_rejection::<InteractionData>(es, "data"),
            ).or_later(
                optional_rejection::<GuildId>(es, "guild_id"),
            ).or_later(
                optional_rejection::<ChannelId>(es, "channel_id"),
            ).or_later(
                optional_rejection::<Member>(es, "member"),
            ).or_later(
                optional_rejection::<User>(es, "user"),
            ).or_later(
                required_rejection::<String>(es, "token"),
            ).or_later(
                required_rejection::<u8>(es, "version"),
            ).or_later(
                optional_rejection::<Message>(es, "message"),
            ),
            _ => Some(DecodeError::InvalidValue),
        }
    }

    fn decode(v: &Value) -> (r: Result<Self, DecodeError>) {
        let es = object_of(v)?;
        let id = required::<InteractionId>(es, "id")?;
        let application_id = required::<Snowflake>(es, "application_id")?;
        let interaction_type = required::<InteractionType>(es, "type")?;
        let data = required::<InteractionData>(es, "data")?;
        let guild_id = optional::<GuildId>(es, "guild_id")?;
        let channel_id = optional::<ChannelId>(es, "channel_id")?;
        let member = optional::<Member>(es, "member")?;
        let user = optional::<User>(es, "user")?;
        let token = required::<String>(es, "token")?;
        let version = required::<u8>(es, "version")?;
        let message = optional::<Message>(es, "message")?;
        Ok(
            Interaction {
                id,
                application_id,
                interaction_type,
                data,
                guild_id,
                channel_id,
                member,
                user,
                token,
                version,
                message,
            },
        )
    }
}

impl Interaction {
    /// Whether the interaction is of the kind `Component`.
    pub fn is_command_interaction(&self) -> (r: bool)
        ensures
            r == (self.interaction_type == InteractionType::Component),
    {
        self.interaction_type == InteractionType::Component
    }

    /// Whether the interaction is of the kind `Component`.
    pub fn is_component_interaction(&self) -> (r: bool)
        ensures
            r == (self.interaction_type == InteractionType::Component),
    {
        self.interaction_type == InteractionType::Component
    }
}

/// What an interaction was made with.
#[derive(Clone, Debug)]
pub struct InteractionData {
    pub id: Option<Snowflake>,
    pub name: Option<String>,
    pub options: Vec<InteractionDataOption>,
    pub values: Vec<String>,
    pub custom_id: Option<String>,
    pub component_type: Option<ComponentType>,
}

impl Decode for InteractionData {
    open spec fn decodes(j: Json, x: Self) -> bool {
        &&& j matches Json::Object(es)
        &&& has_optional(es, "id"@, x.id)
        &&& has_optional(es, "name"@, x.name)
        &&& has_defaulted(es, "options"@, x.options)
        &&& has_defaulted(es, "values"@, x.values)
        &&& has_optional(es, "custom_id"@, x.custom_id)
        &&& has_optional(es, "component_type"@, x.component_type)
    }

    open spec fn rejection(j: Json) -> Option<DecodeError> {
        match j {
            Json::Object(es) => optional_rejection::<Snowflake>(es, "id").or_later(
                optional_rejection::<String>(es, "name"),
            ).or_later(
                defaulted_rejection::<Vec<InteractionDataOption>>(es, "options"),
            ).or_later(
                defaulted_rejection::<Vec<String>>(es, "values"),
            ).or_later(
                optional_rejection::<String>(es, "custom_id"),
            ).or_later(
                optional_rejection::<ComponentType>(es, "component_type"),
            ),
            _ => Some(DecodeError::InvalidValue),
        }
    }

    fn decode(v: &Value) -> (r: Result<Self, DecodeError>) {
        let es = object_of(v)?;
        let id = optional::<Snowflake>(es, "id")?;
        let name = optional::<String>(es, "name")?;
        let options = defaulted::<Vec<InteractionDataOption>>(es, "options")?;
        let values = defaulted::<Vec<String>>(es, "values")?;
        let custom_id = optional::<String>(es, "custom_id")?;
        let component_type = optional::<ComponentType>(es, "component_type")?;
        Ok(InteractionData { id, name, options, values, custom_id, component_type })
    }
}

/// Where and how a user is connected to voice.
#[derive(Clone, Debug)]
pub struct VoiceState {
    pub guild_id: Option<GuildId>,
    pub channel_id: Option<ChannelId>,
    pub user_id: UserId,
    pub member: Option<Member>,
    pub session_id: String,
    pub deaf: bool,
    pub mute: bool,
    pub self_deaf: bool,
    pub self_mute: bool,
    pub self_stream: bool,
    pub self_video: bool,
    pub suppress: bool,
    pub request_to_speak_timestamp: Option<DateTime>,
}

impl Decode for VoiceState {
    open spec fn decodes(j: Json, x: Self) -> bool {
        &&& j matches Json::Object(es)
        &&& has_optional(es, "guild_id"@, x.guild_id)
        &&& has_optional(es, "channel_id"@, x.channel_id)
        &&& has_required(es, "user_id"@, x.user_id)
        &&& has_optional(es, "member"@, x.member)
        &&& has_required(es, "session_id"@, x.session_id)
        &&& has_required(es, "deaf"@, x.deaf)
        &&& has_required(es, "mute"@, x.mute)
        &&& has_required(es, "self_deaf"@, x.self_deaf)
        &&& has_required(es, "self_mute"@, x.self_mute)
        &&& has_defaulted(es, "self_stream"@, x.self_stream)
        &&& has_required(es, "self_video"@, x.self_video)
        &&& has_required(es, "suppress"@, x.suppress)
        &&& has_optional(es, "request_to_speak_timestamp"@, x.request_to_speak_timestamp)
    }

    open spec fn rejection(j: Json) -> Option<DecodeError> {
        match j {
            Json::Object(es) => optional_rejection::<GuildId>(es, "guild_id").or_later(
                optional_rejection::<ChannelId>(es, "channel_id"),
            ).or_later(
                required_rejection::<UserId>(es, "user_id"),
            ).or_later(
                optional_rejection::<Member>(es, "member"),
            ).or_later(
                required_rejection::<String>(es, "session_id"),
            ).or_later(
                required_rejection::<bool>(es, "deaf"),
            ).or_later(
                required_rejection::<bool>(es, "mute"),
            ).or_later(
                required_rejection::<bool>(es, "self_deaf"),
            ).or_later(
                required_rejection::<bool>(es, "self_mute"),
            ).or_later(
                defaulted_rejection::<bool>(es, "self_stream"),
            ).or_later(
                required_rejection::<bool>(es, "self_video"),
            ).or_later(
                required_rejection::<bool>(es, "suppress"),
            ).or_later(
                optional_rejection::<DateTime>(es, "request_to_speak_timestamp"),
            ),
            _ => Some(DecodeError::InvalidValue),
        }
    }

    fn decode(v: &Value) -> (r: Result<Self, DecodeError>) {
        let es = object_of(v)?;
        let guild_id = optional::<GuildId>(es, "guild_id")?;
        let channel_id = optional::<ChannelId>(es, "channel_id")?;
        let user_id = required::<UserId>(es, "user_id")?;
        let member = optional::<Member>(es, "member")?;
        let session_id = required::<String>(es, "session_id")?;
        let deaf = required::<bool>(es, "deaf")?;
        let mute = required::<bool>(es, "mute")?;
        let self_deaf = required::<bool>(es, "self_deaf")?;
        let self_mute = required::<bool>(es, "self_mute")?;
        let self_stream = defaulted::<bool>(es, "self_stream")?;
        let self_video = required::<bool>(es, "self_video")?;
        let suppress = required::<bool>(es, "suppress")?;
        let request_to_speak_timestamp = optional::<DateTime>(es, "request_to_speak_timestamp")?;
        Ok(
            VoiceState {
                guild_id,
                channel_id,
                user_id,
                member,
                session_id,
                deaf,
                mute,
                self_deaf,
                self_mute,
                self_stream,
                self_video,
                suppress,
                request_to_speak_timestamp,
            },
        )
    }
}

/// Which mentions in a message may notify.
#[derive(Clone, Debug)]
pub struct AllowedMentions {
    pub parse: Option<Vec<String>>,
}

impl Encode for AllowedMentions {
    open spec fn wire(&self) -> Json {
        Json::Object(
            Seq::empty() + maybe("parse"@, self.parse),
        )
    }

    fn encode(&self) -> (r: Value) {
        let mut es = fresh();
        put_some(&mut es, "parse", &self.parse);
        object(es)
    }
}

impl AllowedMentions {
    /// No mention may notify.
    pub fn none() -> (r: Self)
        ensures
            r.parse matches Some(kinds) && kinds@.len() == 0,
    {
        AllowedMentions { parse: Some(Vec::new()) }
    }
}

/// One choice of a select menu.
#[derive(Clone, Debug)]
pub struct SelectOption {
    pub label: String,
    pub value: String,
    pub description: Option<String>,
    pub emoji: Option<PartialEmoji>,
    pub default: bool,
}

impl Decode for SelectOption {
    open spec fn decodes(j: Json, x: Self) -> bool {
        &&& j matches Json::Object(es)
        &&& has_required(es, "label"@, x.label)
        &&& has_required(es, "value"@, x.value)
        &&& has_optional(es, "description"@, x.description)
        &&& has_optional(es, "emoji"@, x.emoji)
        &&& has_defaulted(es, "default"@, x.default)
    }

    open spec fn rejection(j: Json) -> Option<DecodeError> {
        match j {
            Json::Object(es) => required_rejection::<String>(es, "label").or_later(
                required_rejection::<String>(es, "value"),
            ).or_later(
                optional_rejection::<String>(es, "description"),
            ).or_later(
                optional_rejection::<PartialEmoji>(es, "emoji"),
            ).or_later(
                defaulted_rejection::<bool>(es, "default"),
            ),
            _ => Some(DecodeError::InvalidValue),
        }
    }

    fn decode(v: &Value) -> (r: Result<Self, DecodeError>) {
        let es = object_of(v)?;
        let label = required::<String>(es, "label")?;
        let value = required::<String>(es, "value")?;
        let description = optional::<String>(es, "description")?;
        let emoji = optional::<PartialEmoji>(es, "emoji")?;
        let default = defaulted::<bool>(es, "default")?;
        Ok(SelectOption { label, value, description, emoji, default })
    }
}

impl Encode for SelectOption {
    open spec fn wire(&self) -> Json {
        Json::Object(
            Seq::empty() + one("label"@, self.label.wire())
                + one("value"@, self.value.wire())
                + maybe("description"@, self.description)
                + maybe("emoji"@, self.emoji)
                + one("default"@, self.default.wire()),
        )
    }

    fn encode(&self) -> (r: Value) {
        let mut es = fresh();
        put(&mut es, "label", &self.label);
        put(&mut es, "value", &self.value);
        put_some(&mut es, "description", &self.description);
        put_some(&mut es, "emoji", &self.emoji);
        put(&mut es, "default", &self.default);
        object(es)
    }
}

/// An emoji, known by its identifier or by its glyph.
#[derive(Clone, Debug)]
pub struct PartialEmoji {
    pub id: Option<Snowflake>,
    pub name: Option<String>,
    pub animated: bool,
}

impl Decode for PartialEmoji {
    open spec fn decodes(j: Json, x: Self) -> bool {
        &&& j matches Json::Object(es)
        &&& has_optional(es, "id"@, x.id)
        &&& has_optional(es, "name"@, x.name)
        &&& has_defaulted(es, "animated"@, x.animated)
    }

    open spec fn rejection(j: Json) -> Option<DecodeError> {
        match j {
            Json::Object(es) => optional_rejection::<Snowflake>(es, "id").or_later(
                optional_rejection::<String>(es, "name"),
            ).or_later(
                defaulted_rejection::<bool>(es, "animated"),
            ),
            _ => Some(DecodeError::InvalidValue),
        }
    }

    fn decode(v: &Value) -> (r: Result<Self, DecodeError>) {
        let es = object_of(v)?;
        let id = optional::<Snowflake>(es, "id")?;
        let name = optional::<String>(es, "name")?;
        let animated = defaulted::<bool>(es, "animated")?;
        Ok(PartialEmoji { id, name, animated })
    }
}

impl Encode for PartialEmoji {
    open spec fn wire(&self) -> Json {
        Json::Object(
            Seq::empty() + one("id"@, self.id.wire())
                + one("name"@, self.name.wire())
                + one("animated"@, self.animated.wire()),
        )
    }

    fn encode(&self) -> (r: Value) {
        let mut es = fresh();
        put(&mut es, "id", &self.id);
        put(&mut es, "name", &self.name);
        put(&mut es, "animated", &self.animated);
        object(es)
    }
}

/// The glyph of the emoji that the emoji crate lists under the text `s`, or
/// `None` where it lists none under it.
pub uninterp spec fn listed_glyph(s: Seq<char>) -> Option<Seq<char>>;

/// `emoji::lookup_by_glyph::lookup`, which looks a text up in the crate's
/// table of glyphs, and the field `glyph` of what it finds. The contract
/// names the result.
#[verifier::external_body]
fn lookup_glyph(s: &str) -> (r: Option<String>)
    ensures
        match r {
            Some(g) => listed_glyph(s@) == Some(g@),
            None => listed_glyph(s@) is None,
        },
{
    match emoji::lookup_by_glyph::lookup(s) {
        Some(found) => Some(String::from(found.glyph)),
        None => None,
    }
}

impl From<Snowflake> for PartialEmoji {
    fn from(id: Snowflake) -> (r: Self) {
        PartialEmoji::from_id(id)
    }
}

impl FromSpecImpl<Snowflake> for PartialEmoji {
    open spec fn obeys_from_spec() -> bool {
        true
    }

    open spec fn from_spec(v: Snowflake) -> Self {
        PartialEmoji { id: Some(v), name: None, animated: false }
    }
}

impl TryFrom<String> for PartialEmoji {
    type Error = ();

    fn try_from(value: String) -> (r: Result<Self, ()>)
        ensures
            match parse_decimal(value@) {
                Some(n) => r matches Ok(e) && e.id == Some(Snowflake(n)) && e.name is None
                    && !e.animated,
                None => match listed_glyph(value@) {
                    Some(g) => r matches Ok(e) && e.id is None && (e.name matches Some(name)
                        && name@ == g) && !e.animated,
                    None => r is Err,
                },
            },
    {
        match PartialEmoji::from_text(value.as_str()) {
            Some(e) => Ok(e),
            None => Err(()),
        }
    }
}

impl TryFromSpecImpl<String> for PartialEmoji {
    open spec fn obeys_try_from_spec() -> bool {
        false
    }

    open spec fn try_from_spec(v: String) -> Result<Self, ()> {
        Err(())
    }
}

impl PartialEmoji {
    /// The custom emoji with the identifier `id`.
    pub fn from_id(id: Snowflake) -> (r: Self)
        ensures
            r.id == Some(id),
            r.name is None,
            !r.animated,
    {
        PartialEmoji { id: Some(id), name: None, animated: false }
    }

    /// The standard emoji with the glyph `glyph`.
    pub fn from_glyph(glyph: String) -> (r: Self)
        ensures
            r.id is None,
            r.name == Some(glyph),
            !r.animated,
    {
        PartialEmoji { id: None, name: Some(glyph), animated: false }
    }

    /// The emoji that a text stands for, given the identifier that the text
    /// holds in base 10 and the glyph that was found under the text: the
    /// custom emoji where there is an identifier, else the standard emoji
    /// where there is a glyph.
    pub fn from_parts(id: Option<Snowflake>, glyph: Option<String>) -> (r: Option<Self>)
        ensures
            match (id, glyph) {
                (Some(i), _) => r matches Some(e) && e.id == Some(i) && e.name is None
                    && !e.animated,
                (None, Some(g)) => r matches Some(e) && e.id is None && e.name == Some(g)
                    && !e.animated,
                (None, None) => r is None,
            },
    {
        match id {
            Some(i) => Some(PartialEmoji::from_id(i)),
            None => match glyph {
                Some(g) => Some(PartialEmoji::from_glyph(g)),
                None => None,
            },
        }
    }

    /// The emoji that the text `value` stands for: the custom emoji whose
    /// identifier it holds in base 10, or else the standard emoji whose
    /// glyph it is.
    pub fn from_text(value: &str) -> (r: Option<Self>)
        ensures
            match parse_decimal(value@) {
                Some(n) => r matches Some(e) && e.id == Some(Snowflake(n)) && e.name is None
                    && !e.animated,
                None => match listed_glyph(value@) {
                    Some(g) => r matches Some(e) && e.id is None && (e.name matches Some(name)
                        && name@ == g) && !e.animated,
                    None => r is None,
                },
            },
    {
        match Snowflake::from_text(value) {
            Some(id) => PartialEmoji::from_parts(Some(id), None),
            None => PartialEmoji::from_parts(None, lookup_glyph(value)),
        }
    }
}

/// An option of an application command.
#[derive(Debug)]
pub struct ApplicationCommandOption {
    pub option_type: ApplicationCommandOptionType,
    pub name: String,
    pub description: String,
    pub required: bool,
    pub choices: Vec<ApplicationCommandOptionChoice>,
    pub options: Vec<ApplicationCommandOption>,
}

impl Clone for ApplicationCommandOption {
    fn clone(&self) -> (r: Self)
        decreases self,
    {
        let mut options: Vec<ApplicationCommandOption> = Vec::new();
        let mut i: usize = 0;
        while i < self.options.len()
            invariant
                i <= self.options.len(),
            decreases self.options.len() - i,
        {
            options.push(self.options[i].clone());
            i = i + 1;
        }
        ApplicationCommandOption {
            option_type: self.option_type.clone(),
            name: self.name.clone(),
            description: self.description.clone(),
            required: self.required.clone(),
            choices: self.choices.clone(),
            options,
        }
    }
}

impl ApplicationCommandOption {
    /// Whether `j` is a wire form of `x`.
    pub open spec fn reads(j: Json, x: Self) -> bool
        decreases x,
    {
        &&& j matches Json::Object(es)
        &&& has_required(es, "type"@, x.option_type)
        &&& has_required(es, "name"@, x.name)
        &&& has_required(es, "description"@, x.description)
        &&& has_defaulted(es, "required"@, x.required)
        &&& has_defaulted(es, "choices"@, x.choices)
        &&& match lookup(es, "options"@) {
            Lookup::Absent => x.options@.len() == 0,
            Lookup::Once(l) => (l matches Json::List(items) && (items.len() == x.options@.len()
                && forall|i: int|
                0 <= i < x.options@.len() ==> Self::reads(#[trigger] items[i], x.options@[i]))),
            Lookup::Repeated => false,
        }
    }

    /// Whether `items` are wire forms of the values `xs`, one for one.
    pub open spec fn reads_each(items: Seq<Json>, xs: Seq<Self>) -> bool {
        &&& items.len() == xs.len()
        &&& forall|i: int| 0 <= i < xs.len() ==> Self::reads(#[trigger] items[i], xs[i])
    }

    /// Whether `j` is a list of wire forms of the values `xs`, one for one.
    pub open spec fn reads_list(j: Json, xs: Seq<Self>) -> bool {
        j matches Json::List(items) && Self::reads_each(items, xs)
    }

    /// The error that reading `j` ends in, or `None` where `j` is read.
    pub open spec fn rejects(j: Json) -> Option<DecodeError>
        decreases j, 0nat,
    {
        match j {
            Json::Object(es) =>
                required_rejection::<ApplicationCommandOptionType>(es, "type").or_later(
                required_rejection::<String>(es, "name"),
            ).or_later(
                required_rejection::<String>(es, "description"),
            ).or_later(
                defaulted_rejection::<bool>(es, "required"),
            ).or_later(
                defaulted_rejection::<Vec<ApplicationCommandOptionChoice>>(es, "choices"),
            ).or_later(
                match lookup(es, "options"@) {
                    Lookup::Absent => None,
                    Lookup::Once(Json::List(items)) => {
                        proof {
                            lemma_lookup_decreases(es, "options"@);
                        }
                        Self::first_rejects(items, 0)
                    },
                    Lookup::Once(_) => Some(DecodeError::InvalidValue),
                    Lookup::Repeated => Some(DecodeError::DuplicateField("options")),
                },
            ),
            _ => Some(DecodeError::InvalidValue),
        }
    }

    /// The error of the first item from the place `from` on that is refused,
    /// or `None` where each of them is read.
    pub open spec fn first_rejects(items: Seq<Json>, from: int) -> Option<DecodeError>
        decreases items, items.len() - from,
    {
        if 0 <= from < items.len() {
            Self::rejects(items[from]).or_later(Self::first_rejects(items, from + 1))
        } else {
            None
        }
    }

    /// The error of reading a list of values from `j`: `j` is no list, or
    /// one of its items is refused.
    pub open spec fn list_rejects(j: Json) -> Option<DecodeError> {
        match j {
            Json::List(items) => Self::first_rejects(items, 0),
            _ => Some(DecodeError::InvalidValue),
        }
    }

    /// Items that are read do not count for the first refusal.
    pub proof fn lemma_rejects_skip(items: Seq<Json>, n: int)
        requires
            0 <= n <= items.len(),
            forall|k: int| 0 <= k < n ==> Self::rejects(#[trigger] items[k]) is None,
        ensures
            Self::first_rejects(items, 0) == Self::first_rejects(items, n),
        decreases n,
    {
        if n > 0 {
            Self::lemma_rejects_skip(items, n - 1);
            assert(Self::rejects(items[n - 1]) is None);
        }
    }

    /// Reads a list of values from `l`.
    pub fn read_list(l: &Value) -> (r: Result<Vec<Self>, DecodeError>)
        ensures
            match r {
                Ok(xs) => Self::list_rejects(l@) is None && Self::reads_list(l@, xs@),
                Err(e) => Self::list_rejects(l@) == Some(e) && forall|xs: Seq<Self>|
                    !Self::reads_list(l@, xs),
            },
        decreases l, 1nat,
    {
        proof {
            lemma_scalar_view(*l);
        }
        match l {
            Value::List(list) => {
                proof {
                    lemma_list_view(*list);
                }
                let ghost items = items_view(list@);
                let mut out: Vec<Self> = Vec::new();
                let mut i: usize = 0;
                while i < list.len()
                    invariant
                        i <= list.len(),
                        out@.len() == i,
                        items == items_view(list@),
                        l@ == Json::List(items),
                        *l == Value::List(*list),
                        forall|k: int| 0 <= k < i ==> Self::reads(#[trigger] items[k], out@[k]),
                        forall|k: int| 0 <= k < i ==> Self::rejects(#[trigger] items[k]) is None,
                    decreases list.len() - i,
                {
                    assert(l->List_0 == *list);
                    assert(items[i as int] == list@[i as int]@);
                    match Self::read(&list[i]) {
                        Ok(x) => {
                            out.push(x);
                        },
                        Err(e) => {
                            proof {
                                Self::lemma_rejects_skip(items, i as int);
                                assert forall|xs: Seq<Self>| !Self::reads_list(l@, xs) by {
                                    if Self::reads_each(items, xs) {
                                        assert(Self::reads(items[i as int], xs[i as int]));
                                    }
                                }
                            }
                            return Err(e);
                        },
                    }
                    i = i + 1;
                }
                proof {
                    Self::lemma_rejects_skip(items, items.len() as int);
                }
                Ok(out)
            },
            _ => Err(DecodeError::InvalidValue),
        }
    }

    /// Reads a value from `v`. It fails with the error that `rejects` gives,
    /// and then `v` is the wire form of no value.
    pub fn read(v: &Value) -> (r: Result<Self, DecodeError>)
        ensures
            match r {
                Ok(x) => Self::reads(v@, x) && Self::rejects(v@) is None,
                Err(e) => Self::rejects(v@) == Some(e) && forall|x: Self| !Self::reads(v@, x),
            },
        decreases v, 0nat,
    {
        let es = object_of(v)?;
        let option_type = required::<ApplicationCommandOptionType>(es, "type")?;
        let name = required::<String>(es, "name")?;
        let description = required::<String>(es, "description")?;
        let required = defaulted::<bool>(es, "required")?;
        let choices = defaulted::<Vec<ApplicationCommandOptionChoice>>(es, "choices")?;
        let options = match find(es, "options")? {
            None => Vec::new(),
            Some(l) => {
                proof {
                    let k = choose|k: int| 0 <= k < es@.len() && (#[trigger] es@[k]).value == *l;
                    assert(v->Object_0 == *es);
                    assert(es[k].value == *l);
                }
                match Self::read_list(l) {
                    Ok(xs) => xs,
                    Err(e) => {
                        proof {
                            assert forall|x: Self| !Self::reads(v@, x) by {
                                if Self::reads(v@, x) {
                                    assert(Self::reads_list(l@, x.options@));
                                }
                            }
                        }
                        return Err(e);
                    },
                }
            },
        };
        Ok(ApplicationCommandOption { option_type, name, description, required, choices, options })
    }

    /// The wire form of `x`.
    pub open spec fn written(x: Self) -> Json
        decreases x,
    {
        Json::Object(
            Seq::empty() + one("type"@, x.option_type.wire())
                + one("name"@, x.name.wire())
                + one("description"@, x.description.wire())
                + one("required"@, x.required.wire())
                + one("choices"@, x.choices.wire())
                + one("options"@, Self::written_list(x.options)),
        )
    }

    /// The wire form of a list of values.
    pub open spec fn written_list(xs: Vec<Self>) -> Json
        decreases xs,
    {
        Json::List(
            Seq::new(
                xs@.len(),
                |i: int|
                    if 0 <= i < xs@.len() {
                        Self::written(xs@[i])
                    } else {
                        Json::Null
                    },
            ),
        )
    }

    /// Writes `self` as a wire value.
    pub fn write(&self) -> (r: Value)
        ensures
            r@ == Self::written(*self),
        decreases self,
    {
        let mut es = fresh();
        put(&mut es, "type", &self.option_type);
        put(&mut es, "name", &self.name);
        put(&mut es, "description", &self.description);
        put(&mut es, "required", &self.required);
        put(&mut es, "choices", &self.choices);
        let mut list: Vec<Value> = Vec::new();
        let mut i: usize = 0;
        while i < self.options.len()
            invariant
                i <= self.options.len(),
                list@.len() == i,
                forall|k: int| 0 <= k < i ==> (#[trigger] list@[k])@
                    == Self::written(self.options@[k]),
            decreases self.options.len() - i,
        {
            list.push(self.options[i].write());
            i = i + 1;
        }
        assert(items_view(list@) =~= Self::written_list(self.options)->List_0);
        put_value(&mut es, "options", list_of_values(list));
        object(es)
    }
}

impl Decode for ApplicationCommandOption {
    open spec fn decodes(j: Json, x: Self) -> bool {
        ApplicationCommandOption::reads(j, x)
    }

    open spec fn rejection(j: Json) -> Option<DecodeError> {
        ApplicationCommandOption::rejects(j)
    }

    fn decode(v: &Value) -> (r: Result<Self, DecodeError>) {
        ApplicationCommandOption::read(v)
    }
}

impl Encode for ApplicationCommandOption {
    open spec fn wire(&self) -> Json {
        ApplicationCommandOption::written(*self)
    }

    fn encode(&self) -> (r: Value) {
        self.write()
    }
}

/// An option that an interaction was made with.
#[derive(Debug)]
pub struct InteractionDataOption {
    pub name: String,
    pub value: Option<String>,
    pub options: Vec<InteractionDataOption>,
}

impl Clone for InteractionDataOption {
    fn clone(&self) -> (r: Self)
        decreases self,
    {
        let mut options: Vec<InteractionDataOption> = Vec::new();
        let mut i: usize = 0;
        while i < self.options.len()
            invariant
                i <= self.options.len(),
            decreases self.options.len() - i,
        {
            options.push(self.options[i].clone());
            i = i + 1;
        }
        InteractionDataOption {
            name: self.name.clone(),
            value: self.value.clone(),
            options,
        }
    }
}

impl InteractionDataOption {
    /// Whether `j` is a wire form of `x`.
    pub open spec fn reads(j: Json, x: Self) -> bool
        decreases x,
    {
        &&& j matches Json::Object(es)
        &&& has_required(es, "name"@, x.name)
        &&& has_optional(es, "value"@, x.value)
        &&& match lookup(es, "options"@) {
            Lookup::Absent => x.options@.len() == 0,
            Lookup::Once(l) => (l matches Json::List(items) && (items.len() == x.options@.len()
                && forall|i: int|
                0 <= i < x.options@.len() ==> Self::reads(#[trigger] items[i], x.options@[i]))),
            Lookup::Repeated => false,
        }
    }

    /// Whether `items` are wire forms of the values `xs`, one for one.
    pub open spec fn reads_each(items: Seq<Json>, xs: Seq<Self>) -> bool {
        &&& items.len() == xs.len()
        &&& forall|i: int| 0 <= i < xs.len() ==> Self::reads(#[trigger] items[i], xs[i])
    }

    /// Whether `j` is a list of wire forms of the values `xs`, one for one.
    pub open spec fn reads_list(j: Json, xs: Seq<Self>) -> bool {
        j matches Json::List(items) && Self::reads_each(items, xs)
    }

    /// The error that reading `j` ends in, or `None` where `j` is read.
    pub open spec fn rejects(j: Json) -> Option<DecodeError>
        decreases j, 0nat,
    {
        match j {
            Json::Object(es) => required_rejection::<String>(es, "name").or_later(
                optional_rejection::<String>(es, "value"),
            ).or_later(
                match lookup(es, "options"@) {
                    Lookup::Absent => None,
                    Lookup::Once(Json::List(items)) => {
                        proof {
                            lemma_lookup_decreases(es, "options"@);
                        }
                        Self::first_rejects(items, 0)
                    },
                    Lookup::Once(_) => Some(DecodeError::InvalidValue),
                    Lookup::Repeated => Some(DecodeError::DuplicateField("options")),
                },
            ),
            _ => Some(DecodeError::InvalidValue),
        }
    }

    /// The error of the first item from the place `from` on that is refused,
    /// or `None` where each of them is read.
    pub open spec fn first_rejects(items: Seq<Json>, from: int) -> Option<DecodeError>
        decreases items, items.len() - from,
    {
        if 0 <= from < items.len() {
            Self::rejects(items[from]).or_later(Self::first_rejects(items, from + 1))
        } else {
            None
        }
    }

    /// The error of reading a list of values from `j`: `j` is no list, or
    /// one of its items is refused.
    pub open spec fn list_rejects(j: Json) -> Option<DecodeError> {
        match j {
            Json::List(items) => Self::first_rejects(items, 0),
            _ => Some(DecodeError::InvalidValue),
        }
    }

    /// Items that are read do not count for the first refusal.
    pub proof fn lemma_rejects_skip(items: Seq<Json>, n: int)
        requires
            0 <= n <= items.len(),
            forall|k: int| 0 <= k < n ==> Self::rejects(#[trigger] items[k]) is None,
        ensures
            Self::first_rejects(items, 0) == Self::first_rejects(items, n),
        decreases n,
    {
        if n > 0 {
            Self::lemma_rejects_skip(items, n - 1);
            assert(Self::rejects(items[n - 1]) is None);
        }
    }

    /// Reads a list of values from `l`.
    pub fn read_list(l: &Value) -> (r: Result<Vec<Self>, DecodeError>)
        ensures
            match r {
                Ok(xs) => Self::list_rejects(l@) is None && Self::reads_list(l@, xs@),
                Err(e) => Self::list_rejects(l@) == Some(e) && forall|xs: Seq<Self>|
                    !Self::reads_list(l@, xs),
            },
        decreases l, 1nat,
    {
        proof {
            lemma_scalar_view(*l);
        }
        match l {
            Value::List(list) => {
                proof {
                    lemma_list_view(*list);
                }
                let ghost items = items_view(list@);
                let mut out: Vec<Self> = Vec::new();
                let mut i: usize = 0;
                while i < list.len()
                    invariant
                        i <= list.len(),
                        out@.len() == i,
                        items == items_view(list@),
                        l@ == Json::List(items),
                        *l == Value::List(*list),
                        forall|k: int| 0 <= k < i ==> Self::reads(#[trigger] items[k], out@[k]),
                        forall|k: int| 0 <= k < i ==> Self::rejects(#[trigger] items[k]) is None,
                    decreases list.len() - i,
                {
                    assert(l->List_0 == *list);
                    assert(items[i as int] == list@[i as int]@);
                    match Self::read(&list[i]) {
                        Ok(x) => {
                            out.push(x);
                        },
                        Err(e) => {
                            proof {
                                Self::lemma_rejects_skip(items, i as int);
                                assert forall|xs: Seq<Self>| !Self::reads_list(l@, xs) by {
                                    if Self::reads_each(items, xs) {
                                        assert(Self::reads(items[i as int], xs[i as int]));
                                    }
                                }
                            }
                            return Err(e);
                        },
                    }
                    i = i + 1;
                }
                proof {
                    Self::lemma_rejects_skip(items, items.len() as int);
                }
                Ok(out)
            },
            _ => Err(DecodeError::InvalidValue),
        }
    }

    /// Reads a value from `v`. It fails with the error that `rejects` gives,
    /// and then `v` is the wire form of no value.
    pub fn read(v: &Value) -> (r: Result<Self, DecodeError>)
        ensures
            match r {
                Ok(x) => Self::reads(v@, x) && Self::rejects(v@) is None,
                Err(e) => Self::rejects(v@) == Some(e) && forall|x: Self| !Self::reads(v@, x),
            },
        decreases v, 0nat,
    {
        let es = object_of(v)?;
        let name = required::<String>(es, "name")?;
        let value = optional::<String>(es, "value")?;
        let options = match find(es, "options")? {
            None => Vec::new(),
            Some(l) => {
                proof {
                    let k = choose|k: int| 0 <= k < es@.len() && (#[trigger] es@[k]).value == *l;
                    assert(v->Object_0 == *es);
                    assert(es[k].value == *l);
                }
                match Self::read_list(l) {
                    Ok(xs) => xs,
                    Err(e) => {
                        proof {
                            assert forall|x: Self| !Self::reads(v@, x) by {
                                if Self::reads(v@, x) {
                                    assert(Self::reads_list(l@, x.options@));
                                }
                            }
                        }
                        return Err(e);
                    },
                }
            },
        };
        Ok(InteractionDataOption { name, value, options })
    }
}

impl Decode for InteractionDataOption {
    open spec fn decodes(j: Json, x: Self) -> bool {
        InteractionDataOption::reads(j, x)
    }

    open spec fn rejection(j: Json) -> Option<DecodeError> {
        InteractionDataOption::rejects(j)
    }

    fn decode(v: &Value) -> (r: Result<Self, DecodeError>) {
        InteractionDataOption::read(v)
    }
}

/// A part of a message that a user can act on.
#[derive(Debug)]
pub struct Component {
    pub component_type: ComponentType,
    pub style: Option<ButtonStyle>,
    pub label: Option<String>,
    pub emoji: Option<PartialEmoji>,
    pub custom_id: Option<String>,
    pub url: Option<String>,
    pub disabled: Option<bool>,
    pub default: Option<bool>,
    pub components: Vec<Component>,
    pub options: Vec<SelectOption>,
    pub placeholder: Option<String>,
}

impl Clone for Component {
    fn clone(&self) -> (r: Self)
        decreases self,
    {
        let mut components: Vec<Component> = Vec::new();
        let mut i: usize = 0;
        while i < self.components.len()
            invariant
                i <= self.components.len(),
            decreases self.components.len() - i,
        {
            components.push(self.components[i].clone());
            i = i + 1;
        }
        Component {
            component_type: self.component_type.clone(),
            style: self.style.clone(),
            label: self.label.clone(),
            emoji: self.emoji.clone(),
            custom_id: self.custom_id.clone(),
            url: self.url.clone(),
            disabled: self.disabled.clone(),
            default: self.default.clone(),
            components,
            options: self.options.clone(),
            placeholder: self.placeholder.clone(),
        }
    }
}

impl Component {
    /// Whether `j` is a wire form of `x`.
    pub open spec fn reads(j: Json, x: Self) -> bool
        decreases x,
    {
        &&& j matches Json::Object(es)
        &&& has_required(es, "type"@, x.component_type)
        &&& has_optional(es, "style"@, x.style)
        &&& has_optional(es, "label"@, x.label)
        &&& has_optional(es, "emoji"@, x.emoji)
        &&& has_optional(es, "custom_id"@, x.custom_id)
        &&& has_optional(es, "url"@, x.url)
        &&& has_optional(es, "disabled"@, x.disabled)
        &&& has_optional(es, "default"@, x.default)
        &&& match lookup(es, "components"@) {
            Lookup::Absent => x.components@.len() == 0,
            Lookup::Once(l) => (l matches Json::List(items) && (items.len() == x.components@.len()
                && forall|i: int|
                0 <= i < x.components@.len()
                    ==> Self::reads(#[trigger] items[i], x.components@[i]))),
            Lookup::Repeated => false,
        }
        &&& has_defaulted(es, "options"@, x.options)
        &&& has_optional(es, "placeholder"@, x.placeholder)
    }

    /// Whether `items` are wire forms of the values `xs`, one for one.
    pub open spec fn reads_each(items: Seq<Json>, xs: Seq<Self>) -> bool {
        &&& items.len() == xs.len()
        &&& forall|i: int| 0 <= i < xs.len() ==> Self::reads(#[trigger] items[i], xs[i])
    }

    /// Whether `j` is a list of wire forms of the values `xs`, one for one.
    pub open spec fn reads_list(j: Json, xs: Seq<Self>) -> bool {
        j matches Json::List(items) && Self::reads_each(items, xs)
    }

    /// The error that reading `j` ends in, or `None` where `j` is read.
    pub open spec fn rejects(j: Json) -> Option<DecodeError>
        decreases j, 0nat,
    {
        match j {
            Json::Object(es) => required_rejection::<ComponentType>(es, "type").or_later(
                optional_rejection::<ButtonStyle>(es, "style"),
            ).or_later(
                optional_rejection::<String>(es, "label"),
            ).or_later(
                optional_rejection::<PartialEmoji>(es, "emoji"),
            ).or_later(
                optional_rejection::<String>(es, "custom_id"),
            ).or_later(
                optional_rejection::<String>(es, "url"),
            ).or_later(
                optional_rejection::<bool>(es, "disabled"),
            ).or_later(
                optional_rejection::<bool>(es, "default"),
            ).or_later(
                match lookup(es, "components"@) {
                    Lookup::Absent => None,
                    Lookup::Once(Json::List(items)) => {
                        proof {
                            lemma_lookup_decreases(es, "components"@);
                        }
                        Self::first_rejects(items, 0)
                    },
                    Lookup::Once(_) => Some(DecodeError::InvalidValue),
                    Lookup::Repeated => Some(DecodeError::DuplicateField("components")),
                },
            ).or_later(
                defaulted_rejection::<Vec<SelectOption>>(es, "options"),
            ).or_later(
                optional_rejection::<String>(es, "placeholder"),
            ),
            _ => Some(DecodeError::InvalidValue),
        }
    }

    /// The error of the first item from the place `from` on that is refused,
    /// or `None` where each of them is read.
    pub open spec fn first_rejects(items: Seq<Json>, from: int) -> Option<DecodeError>
        decreases items, items.len() - from,
    {
        if 0 <= from < items.len() {
            Self::rejects(items[from]).or_later(Self::first_rejects(items, from + 1))
        } else {
            None
        }
    }

    /// The error of reading a list of values from `j`: `j` is no list, or
    /// one of its items is refused.
    pub open spec fn list_rejects(j: Json) -> Option<DecodeError> {
        match j {
            Json::List(items) => Self::first_rejects(items, 0),
            _ => Some(DecodeError::InvalidValue),
        }
    }

    /// Items that are read do not count for the first refusal.
    pub proof fn lemma_rejects_skip(items: Seq<Json>, n: int)
        requires
            0 <= n <= items.len(),
            forall|k: int| 0 <= k < n ==> Self::rejects(#[trigger] items[k]) is None,
        ensures
            Self::first_rejects(items, 0) == Self::first_rejects(items, n),
        decreases n,
    {
        if n > 0 {
            Self::lemma_rejects_skip(items, n - 1);
            assert(Self::rejects(items[n - 1]) is None);
        }
    }

    /// Reads a list of values from `l`.
    pub fn read_list(l: &Value) -> (r: Result<Vec<Self>, DecodeError>)
        ensures
            match r {
                Ok(xs) => Self::list_rejects(l@) is None && Self::reads_list(l@, xs@),
                Err(e) => Self::list_rejects(l@) == Some(e) && forall|xs: Seq<Self>|
                    !Self::reads_list(l@, xs),
            },
        decreases l, 1nat,
    {
        proof {
            lemma_scalar_view(*l);
        }
        match l {
            Value::List(list) => {
                proof {
                    lemma_list_view(*list);
                }
                let ghost items = items_view(list@);
                let mut out: Vec<Self> = Vec::new();
                let mut i: usize = 0;
                while i < list.len()
                    invariant
                        i <= list.len(),
                        out@.len() == i,
                        items == items_view(list@),
                        l@ == Json::List(items),
                        *l == Value::List(*list),
                        forall|k: int| 0 <= k < i ==> Self::reads(#[trigger] items[k], out@[k]),
                        forall|k: int| 0 <= k < i ==> Self::rejects(#[trigger] items[k]) is None,
                    decreases list.len() - i,
                {
                    assert(l->List_0 == *list);
                    assert(items[i as int] == list@[i as int]@);
                    match Self::read(&list[i]) {
                        Ok(x) => {
                            out.push(x);
                        },
                        Err(e) => {
                            proof {
                                Self::lemma_rejects_skip(items, i as int);
                                assert forall|xs: Seq<Self>| !Self::reads_list(l@, xs) by {
                                    if Self::reads_each(items, xs) {
                                        assert(Self::reads(items[i as int], xs[i as int]));
                                    }
                                }
                            }
                            return Err(e);
                        },
                    }
                    i = i + 1;
                }
                proof {
                    Self::lemma_rejects_skip(items, items.len() as int);
                }
                Ok(out)
            },
            _ => Err(DecodeError::InvalidValue),
        }
    }

    /// Reads a value from `v`. It fails with the error that `rejects` gives,
    /// and then `v` is the wire form of no value.
    pub fn read(v: &Value) -> (r: Result<Self, DecodeError>)
        ensures
            match r {
                Ok(x) => Self::reads(v@, x) && Self::rejects(v@) is None,
                Err(e) => Self::rejects(v@) == Some(e) && forall|x: Self| !Self::reads(v@, x),
            },
        decreases v, 0nat,
    {
        let es = object_of(v)?;
        let component_type = required::<ComponentType>(es, "type")?;
        let style = optional::<ButtonStyle>(es, "style")?;
        let label = optional::<String>(es, "label")?;
        let emoji = optional::<PartialEmoji>(es, "emoji")?;
        let custom_id = optional::<String>(es, "custom_id")?;
        let url = optional::<String>(es, "url")?;
        let disabled = optional::<bool>(es, "disabled")?;
        let default = optional::<bool>(es, "default")?;
        let components = match find(es, "components")? {
            None => Vec::new(),
            Some(l) => {
                proof {
                    let k = choose|k: int| 0 <= k < es@.len() && (#[trigger] es@[k]).value == *l;
                    assert(v->Object_0 == *es);
                    assert(es[k].value == *l);
                }
                match Self::read_list(l) {
                    Ok(xs) => xs,
                    Err(e) => {
                        proof {
                            assert forall|x: Self| !Self::reads(v@, x) by {
                                if Self::reads(v@, x) {
                                    assert(Self::reads_list(l@, x.components@));
                                }
                            }
                        }
                        return Err(e);
                    },
                }
            },
        };
        let options = defaulted::<Vec<SelectOption>>(es, "options")?;
        let placeholder = optional::<String>(es, "placeholder")?;
        Ok(
            Component {
                component_type,
                style,
                label,
                emoji,
                custom_id,
                url,
                disabled,
                default,
                components,
                options,
                placeholder,
            },
        )
    }

    /// The wire form of `x`.
    pub open spec fn written(x: Self) -> Json
        decreases x,
    {
        Json::Object(
            Seq::empty() + one("type"@, x.component_type.wire())
                + maybe("style"@, x.style)
                + maybe("label"@, x.label)
                + maybe("emoji"@, x.emoji)
                + maybe("custom_id"@, x.custom_id)
                + maybe("url"@, x.url)
                + maybe("disabled"@, x.disabled)
                + maybe("default"@, x.default)
                + (if x.components@.len() == 0 {
                Seq::empty()
            } else {
                one("components"@, Self::written_list(x.components))
            })
                + unless_empty("options"@, x.options)
                + maybe("placeholder"@, x.placeholder),
        )
    }

    /// The wire form of a list of values.
    pub open spec fn written_list(xs: Vec<Self>) -> Json
        decreases xs,
    {
        Json::List(
            Seq::new(
                xs@.len(),
                |i: int|
                    if 0 <= i < xs@.len() {
                        Self::written(xs@[i])
                    } else {
                        Json::Null
                    },
            ),
        )
    }

    /// Writes `self` as a wire value.
    pub fn write(&self) -> (r: Value)
        ensures
            r@ == Self::written(*self),
        decreases self,
    {
        let mut es = fresh();
        put(&mut es, "type", &self.component_type);
        put_some(&mut es, "style", &self.style);
        put_some(&mut es, "label", &self.label);
        put_some(&mut es, "emoji", &self.emoji);
        put_some(&mut es, "custom_id", &self.custom_id);
        put_some(&mut es, "url", &self.url);
        put_some(&mut es, "disabled", &self.disabled);
        put_some(&mut es, "default", &self.default);
        if self.components.len() > 0 {
            let mut list: Vec<Value> = Vec::new();
            let mut i: usize = 0;
            while i < self.components.len()
                invariant
                    i <= self.components.len(),
                    list@.len() == i,
                    forall|k: int| 0 <= k < i ==> (#[trigger] list@[k])@
                        == Self::written(self.components@[k]),
                decreases self.components.len() - i,
            {
                list.push(self.components[i].write());
                i = i + 1;
            }
            assert(items_view(list@) =~= Self::written_list(self.components)->List_0);
            put_value(&mut es, "components", list_of_values(list));
        }
        put_filled(&mut es, "options", &self.options);
        put_some(&mut es, "placeholder", &self.placeholder);
        object(es)
    }
}

impl Decode for Component {
    open spec fn decodes(j: Json, x: Self) -> bool {
        Component::reads(j, x)
    }

    open spec fn rejection(j: Json) -> Option<DecodeError> {
        Component::rejects(j)
    }

    fn decode(v: &Value) -> (r: Result<Self, DecodeError>) {
        Component::read(v)
    }
}

impl Encode for Component {
    open spec fn wire(&self) -> Json {
        Component::written(*self)
    }

    fn encode(&self) -> (r: Value) {
        self.write()
    }
}

} // verus!
