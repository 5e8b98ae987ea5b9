//! Types and codecs for a JSON-framed gateway protocol: identifiers, flag
//! sets, colours and timestamps, the inbound event decoders of the main and
//! the voice gateway, and the outbound command envelopes.
//!
//! Wire documents are handled as [`wire::Value`] trees. Turning text into such
//! a tree and back is left to the caller.

pub mod color;
pub mod command;
pub mod datetime;
pub mod event;
pub mod flags;
pub mod idset;
pub mod kinds;
pub mod request;
pub mod snowflake;
pub mod text;
pub mod types;
pub mod voice;
pub mod wire;

pub use color::Color;
pub use command::Command;
pub use datetime::{DateTime, Elapsed};
pub use event::{Event, Payload};
pub use flags::{BitFlags, BitFlagsVisitor, Intents, MessageFlags, SpeakingFlags, UserFlags};
pub use idset::IdSet;
pub use kinds::{
    ApplicationCommandOptionType, ButtonStyle, ChannelType, ComponentType, InteractionResponseType,
    InteractionType, MessageType, Status,
};
pub use snowflake::{
    ApplicationId, ChannelId, GuildId, InteractionId, MessageId, RoleId, Snowflake, UserId,
};
pub use types::{
    AllowedMentions, Application, ApplicationCommand, ApplicationCommandOption,
    ApplicationCommandOptionChoice, Channel, Component, Embed, EmbedImage, EmbedThumbnail, Guild,
    Interaction, InteractionData, InteractionDataOption, Member, Message, MessageInteraction,
    PartialEmoji, Reaction, Role, SelectOption, User, VoiceState,
};
pub use wire::{Decode, DecodeError, Encode, Entry, Json, Number, SecretKey, Value};
