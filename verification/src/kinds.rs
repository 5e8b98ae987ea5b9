//! Closed sets of kinds that travel as small numbers or as fixed words.
//! A number that names no kind reads as `Unknown`, and `Unknown` is written
//! as 255.

use crate::text::same_text;
use crate::wire::{
    as_text, as_unsigned, error_of, unsigned, Decode, DecodeError, Encode, Json, Value,
};
use vstd::prelude::*;
use vstd::string::*;

verus! {

/// What reading `j` as a kind's number gives: the number of an unsigned
/// token that fits in 8 bits, and `InvalidValue` for every other token.
pub open spec fn decoded_repr(j: Json) -> Result<u8, DecodeError> {
    match j {
        Json::Unsigned(n) => if n <= 255 {
            Ok(n as u8)
        } else {
            Err(DecodeError::InvalidValue)
        },
        _ => Err(DecodeError::InvalidValue),
    }
}

/// Reads a kind's number.
pub fn decode_repr(v: &Value) -> (r: Result<u8, DecodeError>)
    ensures
        r == decoded_repr(v@),
{
    match as_unsigned(v) {
        Some(n) => if n <= 255 {
            Ok(n as u8)
        } else {
            Err(DecodeError::InvalidValue)
        },
        None => Err(DecodeError::InvalidValue),
    }
}

/// The kind of a channel.
#[derive(Clone, Copy, Debug, PartialEq, Eq, Structural)]
pub enum ChannelType {
    GuildText,
    DirectMessage,
    GuildVoice,
    GroupDirectMessage,
    GuildCategory,
    GuildNews,
    GuildStore,
    GuildNewsThread,
    GuildPublicThread,
    GuildPrivateThread,
    GuildStageVoice,
    GuildDirectory,
    GuildForum,
    Unknown,
}

impl ChannelType {
    /// The number that stands for the kind on the wire.
    pub open spec fn spec_repr(self) -> u8 {
        match self {
            ChannelType::GuildText => 0,
            ChannelType::DirectMessage => 1,
            ChannelType::GuildVoice => 2,
            ChannelType::GroupDirectMessage => 3,
            ChannelType::GuildCategory => 4,
            ChannelType::GuildNews => 5,
            ChannelType::GuildStore => 6,
            ChannelType::GuildNewsThread => 10,
            ChannelType::GuildPublicThread => 11,
            ChannelType::GuildPrivateThread => 12,
            ChannelType::GuildStageVoice => 13,
            ChannelType::GuildDirectory => 14,
            ChannelType::GuildForum => 15,
            ChannelType::Unknown => 255,
        }
    }

    /// The kind that the number `n` stands for.
    pub open spec fn of_repr(n: u8) -> ChannelType {
        if n == 0 {
            ChannelType::GuildText
        } else if n == 1 {
            ChannelType::DirectMessage
        } else if n == 2 {
            ChannelType::GuildVoice
        } else if n == 3 {
            ChannelType::GroupDirectMessage
        } else if n == 4 {
            ChannelType::GuildCategory
        } else if n == 5 {
            ChannelType::GuildNews
        } else if n == 6 {
            ChannelType::GuildStore
        } else if n == 10 {
            ChannelType::GuildNewsThread
        } else if n == 11 {
            ChannelType::GuildPublicThread
        } else if n == 12 {
            ChannelType::GuildPrivateThread
        } else if n == 13 {
            ChannelType::GuildStageVoice
        } else if n == 14 {
            ChannelType::GuildDirectory
        } else if n == 15 {
            ChannelType::GuildForum
        } else {
            ChannelType::Unknown
        }
    }

    /// The number that stands for the kind on the wire.
    pub fn repr(&self) -> (r: u8)
        ensures
            r == self.spec_repr(),
    {
        match self {
            ChannelType::GuildText => 0,
            ChannelType::DirectMessage => 1,
            ChannelType::GuildVoice => 2,
            ChannelType::GroupDirectMessage => 3,
            ChannelType::GuildCategory => 4,
            ChannelType::GuildNews => 5,
            ChannelType::GuildStore => 6,
            ChannelType::GuildNewsThread => 10,
            ChannelType::GuildPublicThread => 11,
            ChannelType::GuildPrivateThread => 12,
            ChannelType::GuildStageVoice => 13,
            ChannelType::GuildDirectory => 14,
            ChannelType::GuildForum => 15,
            ChannelType::Unknown => 255,
        }
    }

    /// The kind that the number `n` stands for.
    pub fn from_repr(n: u8) -> (r: ChannelType)
        ensures
            r == ChannelType::of_repr(n),
    {
        if n == 0 {
            ChannelType::GuildText
        } else if n == 1 {
            ChannelType::DirectMessage
        } else if n == 2 {
            ChannelType::GuildVoice
        } else if n == 3 {
            ChannelType::GroupDirectMessage
        } else if n == 4 {
            ChannelType::GuildCategory
        } else if n == 5 {
            ChannelType::GuildNews
        } else if n == 6 {
            ChannelType::GuildStore
        } else if n == 10 {
            ChannelType::GuildNewsThread
        } else if n == 11 {
            ChannelType::GuildPublicThread
        } else if n == 12 {
            ChannelType::GuildPrivateThread
        } else if n == 13 {
            ChannelType::GuildStageVoice
        } else if n == 14 {
            ChannelType::GuildDirectory
        } else if n == 15 {
            ChannelType::GuildForum
        } else {
            ChannelType::Unknown
        }
    }
}

impl Decode for ChannelType {
    open spec fn decodes(j: Json, x: Self) -> bool {
        decoded_repr(j) matches Ok(n) && x == ChannelType::of_repr(n)
    }

    open spec fn rejection(j: Json) -> Option<DecodeError> {
        error_of(decoded_repr(j))
    }

    fn decode(v: &Value) -> (r: Result<Self, DecodeError>)
        ensures
            match r {
                Ok(x) => decoded_repr(v@) matches Ok(n) && x == ChannelType::of_repr(n),
                Err(e) => decoded_repr(v@) == Err::<u8, DecodeError>(e),
            },
    {
        match decode_repr(v) {
            Ok(n) => Ok(ChannelType::from_repr(n)),
            Err(e) => Err(e),
        }
    }
}

impl Encode for ChannelType {
    open spec fn wire(&self) -> Json {
        Json::Unsigned(self.spec_repr() as u64)
    }

    fn encode(&self) -> (r: Value) {
        unsigned(self.repr() as u64)
    }
}

impl ChannelType {
    /// A kind other than `Unknown` is read back from the number that it is
    /// written as.
    pub proof fn lemma_repr_round_trip(self)
        ensures
            self != ChannelType::Unknown ==> ChannelType::of_repr(self.spec_repr()) == self,
    {
    }
}

/// The kind of a message.
#[derive(Clone, Copy, Debug, PartialEq, Eq, Structural)]
pub enum MessageType {
    Default,
    RecipientAdd,
    RecipientRemove,
    Call,
    ChannelNameChange,
    ChannelIconChange,
    ChannelPinnedMessage,
    GuildMemberJoin,
    UserPremiumGuildSubscription,
    UserPremiumGuildSubscriptionTier1,
    UserPremiumGuildSubscriptionTier2,
    UserPremiumGuildSubscriptionTier3,
    ChannelFollowAdd,
    GuildDiscoveryDisqualified,
    GuildDiscoveryRequalified,
    GuildDiscoveryGracePeriodInitialWarning,
    GuildDiscoveryGracePeriodFinalWarning,
    ThreadCreated,
    Reply,
    ApplicationCommand,
    ThreadStarterMessage,
    GuildInviteReminder,
    ContextMenuCommand,
    AutoModerationAction,
    RoleSubscriptionPurchase,
    InteractionPremiumUpsell,
    StageStart,
    StageEnd,
    StageSpeaker,
    StageTopic,
    GuildApplicationPremiumSubscription,
    Unknown,
}

impl MessageType {
    /// The number that stands for the kind on the wire.
    pub open spec fn spec_repr(self) -> u8 {
        match self {
            MessageType::Default => 0,
            MessageType::RecipientAdd => 1,
            MessageType::RecipientRemove => 2,
            MessageType::Call => 3,
            MessageType::ChannelNameChange => 4,
            MessageType::ChannelIconChange => 5,
            MessageType::ChannelPinnedMessage => 6,
            MessageType::GuildMemberJoin => 7,
            MessageType::UserPremiumGuildSubscription => 8,
            MessageType::UserPremiumGuildSubscriptionTier1 => 9,
            MessageType::UserPremiumGuildSubscriptionTier2 => 10,
            MessageType::UserPremiumGuildSubscriptionTier3 => 11,
            MessageType::ChannelFollowAdd => 12,
            MessageType::GuildDiscoveryDisqualified => 14,
            MessageType::GuildDiscoveryRequalified => 15,
            MessageType::GuildDiscoveryGracePeriodInitialWarning => 16,
            MessageType::GuildDiscoveryGracePeriodFinalWarning => 17,
            MessageType::ThreadCreated => 18,
            MessageType::Reply => 19,
            MessageType::ApplicationCommand => 20,
            MessageType::ThreadStarterMessage => 21,
            MessageType::GuildInviteReminder => 22,
            MessageType::ContextMenuCommand => 23,
            MessageType::AutoModerationAction => 24,
            MessageType::RoleSubscriptionPurchase => 25,
            MessageType::InteractionPremiumUpsell => 26,
            MessageType::StageStart => 27,
            MessageType::StageEnd => 28,
            MessageType::StageSpeaker => 29,
            MessageType::StageTopic => 31,
            MessageType::GuildApplicationPremiumSubscription => 32,
            MessageType::Unknown => 255,
        }
    }

    /// The kind that the number `n` stands for.
    pub open spec fn of_repr(n: u8) -> MessageType {
        if n == 0 {
            MessageType::Default
        } else if n == 1 {
            MessageType::RecipientAdd
        } else if n == 2 {
            MessageType::RecipientRemove
        } else if n == 3 {
            MessageType::Call
        } else if n == 4 {
            MessageType::ChannelNameChange
        } else if n == 5 {
            MessageType::ChannelIconChange
        } else if n == 6 {
            MessageType::ChannelPinnedMessage
        } else if n == 7 {
            MessageType::GuildMemberJoin
        } else if n == 8 {
            MessageType::UserPremiumGuildSubscription
        } else if n == 9 {
            MessageType::UserPremiumGuildSubscriptionTier1
        } else if n == 10 {
            MessageType::UserPremiumGuildSubscriptionTier2
        } else if n == 11 {
            MessageType::UserPremiumGuildSubscriptionTier3
        } else if n == 12 {
            MessageType::ChannelFollowAdd
        } else if n == 14 {
            MessageType::GuildDiscoveryDisqualified
        } else if n == 15 {
            MessageType::GuildDiscoveryRequalified
        } else if n == 16 {
            MessageType::GuildDiscoveryGracePeriodInitialWarning
        } else if n == 17 {
            MessageType::GuildDiscoveryGracePeriodFinalWarning
        } else if n == 18 {
            MessageType::ThreadCreated
        } else if n == 19 {
            MessageType::Reply
        } else if n == 20 {
            MessageType::ApplicationCommand
        } else if n == 21 {
            MessageType::ThreadStarterMessage
        } else if n == 22 {
            MessageType::GuildInviteReminder
        } else if n == 23 {
            MessageType::ContextMenuCommand
        } else if n == 24 {
            MessageType::AutoModerationAction
        } else if n == 25 {
            MessageType::RoleSubscriptionPurchase
        } else if n == 26 {
            MessageType::InteractionPremiumUpsell
        } else if n == 27 {
            MessageType::StageStart
        } else if n == 28 {
            MessageType::StageEnd
        } else if n == 29 {
            MessageType::StageSpeaker
        } else if n == 31 {
            MessageType::StageTopic
        } else if n == 32 {
            MessageType::GuildApplicationPremiumSubscription
        } else {
            MessageType::Unknown
        }
    }

    /// The number that stands for the kind on the wire.
    pub fn repr(&self) -> (r: u8)
        ensures
            r == self.spec_repr(),
    {
        match self {
            MessageType::Default => 0,
            MessageType::RecipientAdd => 1,
            MessageType::RecipientRemove => 2,
            MessageType::Call => 3,
            MessageType::ChannelNameChange => 4,
            MessageType::ChannelIconChange => 5,
            MessageType::ChannelPinnedMessage => 6,
            MessageType::GuildMemberJoin => 7,
            MessageType::UserPremiumGuildSubscription => 8,
            MessageType::UserPremiumGuildSubscriptionTier1 => 9,
            MessageType::UserPremiumGuildSubscriptionTier2 => 10,
            MessageType::UserPremiumGuildSubscriptionTier3 => 11,
            MessageType::ChannelFollowAdd => 12,
            MessageType::GuildDiscoveryDisqualified => 14,
            MessageType::GuildDiscoveryRequalified => 15,
            MessageType::GuildDiscoveryGracePeriodInitialWarning => 16,
            MessageType::GuildDiscoveryGracePeriodFinalWarning => 17,
            MessageType::ThreadCreated => 18,
            MessageType::Reply => 19,
            MessageType::ApplicationCommand => 20,
            MessageType::ThreadStarterMessage => 21,
            MessageType::GuildInviteReminder => 22,
            MessageType::ContextMenuCommand => 23,
            MessageType::AutoModerationAction => 24,
            MessageType::RoleSubscriptionPurchase => 25,
            MessageType::InteractionPremiumUpsell => 26,
            MessageType::StageStart => 27,
            MessageType::StageEnd => 28,
            MessageType::StageSpeaker => 29,
            MessageType::StageTopic => 31,
            MessageType::GuildApplicationPremiumSubscription => 32,
            MessageType::Unknown => 255,
        }
    }

    /// The kind that the number `n` stands for.
    pub fn from_repr(n: u8) -> (r: MessageType)
        ensures
            r == MessageType::of_repr(n),
    {
        if n == 0 {
            MessageType::Default
        } else if n == 1 {
            MessageType::RecipientAdd
        } else if n == 2 {
            MessageType::RecipientRemove
        } else if n == 3 {
            MessageType::Call
        } else if n == 4 {
            MessageType::ChannelNameChange
        } else if n == 5 {
            MessageType::ChannelIconChange
        } else if n == 6 {
            MessageType::ChannelPinnedMessage
        } else if n == 7 {
            MessageType::GuildMemberJoin
        } else if n == 8 {
            MessageType::UserPremiumGuildSubscription
        } else if n == 9 {
            MessageType::UserPremiumGuildSubscriptionTier1
        } else if n == 10 {
            MessageType::UserPremiumGuildSubscriptionTier2
        } else if n == 11 {
            MessageType::UserPremiumGuildSubscriptionTier3
        } else if n == 12 {
            MessageType::ChannelFollowAdd
        } else if n == 14 {
            MessageType::GuildDiscoveryDisqualified
        } else if n == 15 {
            MessageType::GuildDiscoveryRequalified
        } else if n == 16 {
            MessageType::GuildDiscoveryGracePeriodInitialWarning
        } else if n == 17 {
            MessageType::GuildDiscoveryGracePeriodFinalWarning
        } else if n == 18 {
            MessageType::ThreadCreated
        } else if n == 19 {
            MessageType::Reply
        } else if n == 20 {
            MessageType::ApplicationCommand
        } else if n == 21 {
            MessageType::ThreadStarterMessage
        } else if n == 22 {
            MessageType::GuildInviteReminder
        } else if n == 23 {
            MessageType::ContextMenuCommand
        } else if n == 24 {
            MessageType::AutoModerationAction
        } else if n == 25 {
            MessageType::RoleSubscriptionPurchase
        } else if n == 26 {
            MessageType::InteractionPremiumUpsell
        } else if n == 27 {
            MessageType::StageStart
        } else if n == 28 {
            MessageType::StageEnd
        } else if n == 29 {
            MessageType::StageSpeaker
        } else if n == 31 {
            MessageType::StageTopic
        } else if n == 32 {
            MessageType::GuildApplicationPremiumSubscription
        } else {
            MessageType::Unknown
        }
    }

    /// Whether a message of this kind holds text that a user wrote: one that
    /// is `Default`, `Reply`, `ApplicationCommand` or `ThreadStarterMessage`.
    pub fn is_textual(&self) -> (r: bool)
        ensures
            r == (*self == MessageType::Default || *self == MessageType::Reply || *self
                == MessageType::ApplicationCommand || *self == MessageType::ThreadStarterMessage),
    {
        match self {
            MessageType::Default
            | MessageType::Reply
            | MessageType::ApplicationCommand
            | MessageType::ThreadStarterMessage => true,
            _ => false,
        }
    }
}

impl Decode for MessageType {
    open spec fn decodes(j: Json, x: Self) -> bool {
        decoded_repr(j) matches Ok(n) && x == MessageType::of_repr(n)
    }

    open spec fn rejection(j: Json) -> Option<DecodeError> {
        error_of(decoded_repr(j))
    }

    fn decode(v: &Value) -> (r: Result<Self, DecodeError>)
        ensures
            match r {
                Ok(x) => decoded_repr(v@) matches Ok(n) && x == MessageType::of_repr(n),
                Err(e) => decoded_repr(v@) == Err::<u8, DecodeError>(e),
            },
    {
        match decode_repr(v) {
            Ok(n) => Ok(MessageType::from_repr(n)),
            Err(e) => Err(e),
        }
    }
}

impl Encode for MessageType {
    open spec fn wire(&self) -> Json {
        Json::Unsigned(self.spec_repr() as u64)
    }

    fn encode(&self) -> (r: Value) {
        unsigned(self.repr() as u64)
    }
}

impl MessageType {
    /// A kind other than `Unknown` is read back from the number that it is
    /// written as.
    pub proof fn lemma_repr_round_trip(self)
        ensures
            self != MessageType::Unknown ==> MessageType::of_repr(self.spec_repr()) == self,
    {
    }
}

/// The kind of an option of an application command.
#[derive(Clone, Copy, Debug, PartialEq, Eq, Structural)]
pub enum ApplicationCommandOptionType {
    SubCommand,
    SubCommandGroup,
    String,
    Integer,
    Boolean,
    User,
    Channel,
    Role,
    Unknown,
}

impl ApplicationCommandOptionType {
    /// The number that stands for the kind on the wire.
    pub open spec fn spec_repr(self) -> u8 {
        match self {
            ApplicationCommandOptionType::SubCommand => 1,
            ApplicationCommandOptionType::SubCommandGroup => 2,
            ApplicationCommandOptionType::String => 3,
            ApplicationCommandOptionType::Integer => 4,
            ApplicationCommandOptionType::Boolean => 5,
            ApplicationCommandOptionType::User => 6,
            ApplicationCommandOptionType::Channel => 7,
            ApplicationCommandOptionType::Role => 8,
            ApplicationCommandOptionType::Unknown => 255,
        }
    }

    /// The kind that the number `n` stands for.
    pub open spec fn of_repr(n: u8) -> ApplicationCommandOptionType {
        if n == 1 {
            ApplicationCommandOptionType::SubCommand
        } else if n == 2 {
            ApplicationCommandOptionType::SubCommandGroup
        } else if n == 3 {
            ApplicationCommandOptionType::String
        } else if n == 4 {
            ApplicationCommandOptionType::Integer
        } else if n == 5 {
            ApplicationCommandOptionType::Boolean
        } else if n == 6 {
            ApplicationCommandOptionType::User
        } else if n == 7 {
            ApplicationCommandOptionType::Channel
        } else if n == 8 {
            ApplicationCommandOptionType::Role
        } else {
            ApplicationCommandOptionType::Unknown
        }
    }

    /// The number that stands for the kind on the wire.
    pub fn repr(&self) -> (r: u8)
        ensures
            r == self.spec_repr(),
    {
        match self {
            ApplicationCommandOptionType::SubCommand => 1,
            ApplicationCommandOptionType::SubCommandGroup => 2,
            ApplicationCommandOptionType::String => 3,
            ApplicationCommandOptionType::Integer => 4,
            ApplicationCommandOptionType::Boolean => 5,
            ApplicationCommandOptionType::User => 6,
            ApplicationCommandOptionType::Channel => 7,
            ApplicationCommandOptionType::Role => 8,
            ApplicationCommandOptionType::Unknown => 255,
        }
    }

    /// The kind that the number `n` stands for.
    pub fn from_repr(n: u8) -> (r: ApplicationCommandOptionType)
        ensures
            r == ApplicationCommandOptionType::of_repr(n),
    {
        if n == 1 {
            ApplicationCommandOptionType::SubCommand
        } else if n == 2 {
            ApplicationCommandOptionType::SubCommandGroup
        } else if n == 3 {
            ApplicationCommandOptionType::String
        } else if n == 4 {
            ApplicationCommandOptionType::Integer
        } else if n == 5 {
            ApplicationCommandOptionType::Boolean
        } else if n == 6 {
            ApplicationCommandOptionType::User
        } else if n == 7 {
            ApplicationCommandOptionType::Channel
        } else if n == 8 {
            ApplicationCommandOptionType::Role
        } else {
            ApplicationCommandOptionType::Unknown
        }
    }
}

impl Decode for ApplicationCommandOptionType {
    open spec fn decodes(j: Json, x: Self) -> bool {
        decoded_repr(j) matches Ok(n) && x == ApplicationCommandOptionType::of_repr(n)
    }

    open spec fn rejection(j: Json) -> Option<DecodeError> {
        error_of(decoded_repr(j))
    }

    fn decode(v: &Value) -> (r: Result<Self, DecodeError>)
        ensures
            match r {
                Ok(x) => decoded_repr(v@) matches Ok(n) && x
                    == ApplicationCommandOptionType::of_repr(n),
                Err(e) => decoded_repr(v@) == Err::<u8, DecodeError>(e),
            },
    {
        match decode_repr(v) {
            Ok(n) => Ok(ApplicationCommandOptionType::from_repr(n)),
            Err(e) => Err(e),
        }
    }
}

impl Encode for ApplicationCommandOptionType {
    open spec fn wire(&self) -> Json {
        Json::Unsigned(self.spec_repr() as u64)
    }

    fn encode(&self) -> (r: Value) {
        unsigned(self.repr() as u64)
    }
}

impl ApplicationCommandOptionType {
    /// A kind other than `Unknown` is read back from the number that it is
    /// written as.
    pub proof fn lemma_repr_round_trip(self)
        ensures
            self != ApplicationCommandOptionType::Unknown
                ==> ApplicationCommandOptionType::of_repr(self.spec_repr()) == self,
    {
    }
}

/// The kind of an interaction.
#[derive(Clone, Copy, Debug, PartialEq, Eq, Structural)]
pub enum InteractionType {
    Ping,
    Command,
    Component,
    Unknown,
}

impl InteractionType {
    /// The number that stands for the kind on the wire.
    pub open spec fn spec_repr(self) -> u8 {
        match self {
            InteractionType::Ping => 1,
            InteractionType::Command => 2,
            InteractionType::Component => 3,
            InteractionType::Unknown => 255,
        }
    }

    /// The kind that the number `n` stands for.
    pub open spec fn of_repr(n: u8) -> InteractionType {
        if n == 1 {
            InteractionType::Ping
        } else if n == 2 {
            InteractionType::Command
        } else if n == 3 {
            InteractionType::Component
        } else {
            InteractionType::Unknown
        }
    }

    /// The number that stands for the kind on the wire.
    pub fn repr(&self) -> (r: u8)
        ensures
            r == self.spec_repr(),
    {
        match self {
            InteractionType::Ping => 1,
            InteractionType::Command => 2,
            InteractionType::Component => 3,
            InteractionType::Unknown => 255,
        }
    }

    /// The kind that the number `n` stands for.
    pub fn from_repr(n: u8) -> (r: InteractionType)
        ensures
            r == InteractionType::of_repr(n),
    {
        if n == 1 {
            InteractionType::Ping
        } else if n == 2 {
            InteractionType::Command
        } else if n == 3 {
            InteractionType::Component
        } else {
            InteractionType::Unknown
        }
    }

    /// Whether this is the kind of a command.
    pub fn is_command_interaction(&self) -> (r: bool)
        ensures
            r == (*self == InteractionType::Command),
    {
        *self == InteractionType::Command
    }

    /// Whether this is the kind of a message component.
    pub fn is_component_interaction(&self) -> (r: bool)
        ensures
            r == (*self == InteractionType::Component),
    {
        *self == InteractionType::Component
    }
}

impl Decode for InteractionType {
    open spec fn decodes(j: Json, x: Self) -> bool {
        decoded_repr(j) matches Ok(n) && x == InteractionType::of_repr(n)
    }

    open spec fn rejection(j: Json) -> Option<DecodeError> {
        error_of(decoded_repr(j))
    }

    fn decode(v: &Value) -> (r: Result<Self, DecodeError>)
        ensures
            match r {
                Ok(x) => decoded_repr(v@) matches Ok(n) && x == InteractionType::of_repr(n),
                Err(e) => decoded_repr(v@) == Err::<u8, DecodeError>(e),
            },
    {
        match decode_repr(v) {
            Ok(n) => Ok(InteractionType::from_repr(n)),
            Err(e) => Err(e),
        }
    }
}

impl Encode for InteractionType {
    open spec fn wire(&self) -> Json {
        Json::Unsigned(self.spec_repr() as u64)
    }

    fn encode(&self) -> (r: Value) {
        unsigned(self.repr() as u64)
    }
}

impl InteractionType {
    /// A kind other than `Unknown` is read back from the number that it is
    /// written as.
    pub proof fn lemma_repr_round_trip(self)
        ensures
            self != InteractionType::Unknown ==> InteractionType::of_repr(self.spec_repr()) == self,
    {
    }
}

/// The kind of an answer to an interaction.
#[derive(Clone, Copy, Debug, PartialEq, Eq, Structural)]
pub enum InteractionResponseType {
    Pong,
    ChannelMessage,
    DeferredChannelMessage,
    DeferredUpdateMessage,
    UpdateMessage,
    Unknown,
}

impl InteractionResponseType {
    /// The number that stands for the kind on the wire.
    pub open spec fn spec_repr(self) -> u8 {
        match self {
            InteractionResponseType::Pong => 1,
            InteractionResponseType::ChannelMessage => 4,
            InteractionResponseType::DeferredChannelMessage => 5,
            InteractionResponseType::DeferredUpdateMessage => 6,
            InteractionResponseType::UpdateMessage => 7,
            InteractionResponseType::Unknown => 255,
        }
    }

    /// The kind that the number `n` stands for.
    pub open spec fn of_repr(n: u8) -> InteractionResponseType {
        if n == 1 {
            InteractionResponseType::Pong
        } else if n == 4 {
            InteractionResponseType::ChannelMessage
        } else if n == 5 {
            InteractionResponseType::DeferredChannelMessage
        } else if n == 6 {
            InteractionResponseType::DeferredUpdateMessage
        } else if n == 7 {
            InteractionResponseType::UpdateMessage
        } else {
            InteractionResponseType::Unknown
        }
    }

    /// The number that stands for the kind on the wire.
    pub fn repr(&self) -> (r: u8)
        ensures
            r == self.spec_repr(),
    {
        match self {
            InteractionResponseType::Pong => 1,
            InteractionResponseType::ChannelMessage => 4,
            InteractionResponseType::DeferredChannelMessage => 5,
            InteractionResponseType::DeferredUpdateMessage => 6,
            InteractionResponseType::UpdateMessage => 7,
            InteractionResponseType::Unknown => 255,
        }
    }

    /// The kind that the number `n` stands for.
    pub fn from_repr(n: u8) -> (r: InteractionResponseType)
        ensures
            r == InteractionResponseType::of_repr(n),
    {
        if n == 1 {
            InteractionResponseType::Pong
        } else if n == 4 {
            InteractionResponseType::ChannelMessage
        } else if n == 5 {
            InteractionResponseType::DeferredChannelMessage
        } else if n == 6 {
            InteractionResponseType::DeferredUpdateMessage
        } else if n == 7 {
            InteractionResponseType::UpdateMessage
        } else {
            InteractionResponseType::Unknown
        }
    }
}

impl Decode for InteractionResponseType {
    open spec fn decodes(j: Json, x: Self) -> bool {
        decoded_repr(j) matches Ok(n) && x == InteractionResponseType::of_repr(n)
    }

    open spec fn rejection(j: Json) -> Option<DecodeError> {
        error_of(decoded_repr(j))
    }

    fn decode(v: &Value) -> (r: Result<Self, DecodeError>)
        ensures
            match r {
                Ok(x) => decoded_repr(v@) matches Ok(n) && x == InteractionResponseType::of_repr(n),
                Err(e) => decoded_repr(v@) == Err::<u8, DecodeError>(e),
            },
    {
        match decode_repr(v) {
            Ok(n) => Ok(InteractionResponseType::from_repr(n)),
            Err(e) => Err(e),
        }
    }
}

impl Encode for InteractionResponseType {
    open spec fn wire(&self) -> Json {
        Json::Unsigned(self.spec_repr() as u64)
    }

    fn encode(&self) -> (r: Value) {
        unsigned(self.repr() as u64)
    }
}

impl InteractionResponseType {
    /// A kind other than `Unknown` is read back from the number that it is
    /// written as.
    pub proof fn lemma_repr_round_trip(self)
        ensures
            self != InteractionResponseType::Unknown
                ==> InteractionResponseType::of_repr(self.spec_repr()) == self,
    {
    }
}

/// The kind of a message component.
#[derive(Clone, Copy, Debug, PartialEq, Eq, Structural)]
pub enum ComponentType {
    ActionRow,
    Button,
    StringSelect,
    TextInput,
    UserSelect,
    RoleSelect,
    MentionableSelect,
    ChannelSelect,
    Unknown,
}

impl ComponentType {
    /// The number that stands for the kind on the wire.
    pub open spec fn spec_repr(self) -> u8 {
        match self {
            ComponentType::ActionRow => 1,
            ComponentType::Button => 2,
            ComponentType::StringSelect => 3,
            ComponentType::TextInput => 4,
            ComponentType::UserSelect => 5,
            ComponentType::RoleSelect => 6,
            ComponentType::MentionableSelect => 7,
            ComponentType::ChannelSelect => 8,
            ComponentType::Unknown => 255,
        }
    }

    /// The kind that the number `n` stands for.
    pub open spec fn of_repr(n: u8) -> ComponentType {
        if n == 1 {
            ComponentType::ActionRow
        } else if n == 2 {
            ComponentType::Button
        } else if n == 3 {
            ComponentType::StringSelect
        } else if n == 4 {
            ComponentType::TextInput
        } else if n == 5 {
            ComponentType::UserSelect
        } else if n == 6 {
            ComponentType::RoleSelect
        } else if n == 7 {
            ComponentType::MentionableSelect
        } else if n == 8 {
            ComponentType::ChannelSelect
        } else {
            ComponentType::Unknown
        }
    }

    /// The number that stands for the kind on the wire.
    pub fn repr(&self) -> (r: u8)
        ensures
            r == self.spec_repr(),
    {
        match self {
            ComponentType::ActionRow => 1,
            ComponentType::Button => 2,
            ComponentType::StringSelect => 3,
            ComponentType::TextInput => 4,
            ComponentType::UserSelect => 5,
            ComponentType::RoleSelect => 6,
            ComponentType::MentionableSelect => 7,
            ComponentType::ChannelSelect => 8,
            ComponentType::Unknown => 255,
        }
    }

    /// The kind that the number `n` stands for.
    pub fn from_repr(n: u8) -> (r: ComponentType)
        ensures
            r == ComponentType::of_repr(n),
    {
        if n == 1 {
            ComponentType::ActionRow
        } else if n == 2 {
            ComponentType::Button
        } else if n == 3 {
            ComponentType::StringSelect
        } else if n == 4 {
            ComponentType::TextInput
        } else if n == 5 {
            ComponentType::UserSelect
        } else if n == 6 {
            ComponentType::RoleSelect
        } else if n == 7 {
            ComponentType::MentionableSelect
        } else if n == 8 {
            ComponentType::ChannelSelect
        } else {
            ComponentType::Unknown
        }
    }
}

impl Decode for ComponentType {
    open spec fn decodes(j: Json, x: Self) -> bool {
        decoded_repr(j) matches Ok(n) && x == ComponentType::of_repr(n)
    }

    open spec fn rejection(j: Json) -> Option<DecodeError> {
        error_of(decoded_repr(j))
    }

    fn decode(v: &Value) -> (r: Result<Self, DecodeError>)
        ensures
            match r {
                Ok(x) => decoded_repr(v@) matches Ok(n) && x == ComponentType::of_repr(n),
                Err(e) => decoded_repr(v@) == Err::<u8, DecodeError>(e),
            },
    {
        match decode_repr(v) {
            Ok(n) => Ok(ComponentType::from_repr(n)),
            Err(e) => Err(e),
        }
    }
}

impl Encode for ComponentType {
    open spec fn wire(&self) -> Json {
        Json::Unsigned(self.spec_repr() as u64)
    }

    fn encode(&self) -> (r: Value) {
        unsigned(self.repr() as u64)
    }
}

impl ComponentType {
    /// A kind other than `Unknown` is read back from the number that it is
    /// written as.
    pub proof fn lemma_repr_round_trip(self)
        ensures
            self != ComponentType::Unknown ==> ComponentType::of_repr(self.spec_repr()) == self,
    {
    }
}

/// The look of a button.
#[derive(Clone, Copy, Debug, PartialEq, Eq, Structural)]
pub enum ButtonStyle {
    Primary,
    Secondary,
    Success,
    Danger,
    Link,
    Unknown,
}

impl ButtonStyle {
    /// The number that stands for the kind on the wire.
    pub open spec fn spec_repr(self) -> u8 {
        match self {
            ButtonStyle::Primary => 1,
            ButtonStyle::Secondary => 2,
            ButtonStyle::Success => 3,
            ButtonStyle::Danger => 4,
            ButtonStyle::Link => 5,
            ButtonStyle::Unknown => 255,
        }
    }

    /// The kind that the number `n` stands for.
    pub open spec fn of_repr(n: u8) -> ButtonStyle {
        if n == 1 {
            ButtonStyle::Primary
        } else if n == 2 {
            ButtonStyle::Secondary
        } else if n == 3 {
            ButtonStyle::Success
        } else if n == 4 {
            ButtonStyle::Danger
        } else if n == 5 {
            ButtonStyle::Link
        } else {
            ButtonStyle::Unknown
        }
    }

    /// The number that stands for the kind on the wire.
    pub fn repr(&self) -> (r: u8)
        ensures
            r == self.spec_repr(),
    {
        match self {
            ButtonStyle::Primary => 1,
            ButtonStyle::Secondary => 2,
            ButtonStyle::Success => 3,
            ButtonStyle::Danger => 4,
            ButtonStyle::Link => 5,
            ButtonStyle::Unknown => 255,
        }
    }

    /// The kind that the number `n` stands for.
    pub fn from_repr(n: u8) -> (r: ButtonStyle)
        ensures
            r == ButtonStyle::of_repr(n),
    {
        if n == 1 {
            ButtonStyle::Primary
        } else if n == 2 {
            ButtonStyle::Secondary
        } else if n == 3 {
            ButtonStyle::Success
        } else if n == 4 {
            ButtonStyle::Danger
        } else if n == 5 {
            ButtonStyle::Link
        } else {
            ButtonStyle::Unknown
        }
    }
}

impl Decode for ButtonStyle {
    open spec fn decodes(j: Json, x: Self) -> bool {
        decoded_repr(j) matches Ok(n) && x == ButtonStyle::of_repr(n)
    }

    open spec fn rejection(j: Json) -> Option<DecodeError> {
        error_of(decoded_repr(j))
    }

    fn decode(v: &Value) -> (r: Result<Self, DecodeError>)
        ensures
            match r {
                Ok(x) => decoded_repr(v@) matches Ok(n) && x == ButtonStyle::of_repr(n),
                Err(e) => decoded_repr(v@) == Err::<u8, DecodeError>(e),
            },
    {
        match decode_repr(v) {
            Ok(n) => Ok(ButtonStyle::from_repr(n)),
            Err(e) => Err(e),
        }
    }
}

impl Encode for ButtonStyle {
    open spec fn wire(&self) -> Json {
        Json::Unsigned(self.spec_repr() as u64)
    }

    fn encode(&self) -> (r: Value) {
        unsigned(self.repr() as u64)
    }
}

impl ButtonStyle {
    /// A kind other than `Unknown` is read back from the number that it is
    /// written as.
    pub proof fn lemma_repr_round_trip(self)
        ensures
            self != ButtonStyle::Unknown ==> ButtonStyle::of_repr(self.spec_repr()) == self,
    {
    }
}

/// Whether a user is there.
#[derive(Clone, Copy, Debug, PartialEq, Eq, Structural)]
pub enum Status {
    Online,
    DoNotDisturb,
    Idle,
    Invisible,
    Offline,
}

impl Status {
    /// The word that stands for the status on the wire.
    pub open spec fn spec_name(self) -> Seq<char> {
        match self {
            Status::Online => "online"@,
            Status::DoNotDisturb => "dnd"@,
            Status::Idle => "idle"@,
            Status::Invisible => "invisible"@,
            Status::Offline => "offline"@,
        }
    }

    /// The word that stands for the status on the wire.
    pub fn name(&self) -> (r: &'static str)
        ensures
            r@ == self.spec_name(),
    {
        match self {
            Status::Online => "online",
            Status::DoNotDisturb => "dnd",
            Status::Idle => "idle",
            Status::Invisible => "invisible",
            Status::Offline => "offline",
        }
    }

    /// Whether `s` is the word of a status.
    pub open spec fn is_name(s: Seq<char>) -> bool {
        s == "online"@ || s == "dnd"@ || s == "idle"@ || s == "invisible"@ || s == "offline"@
    }

    /// The status that the word `s` stands for, if it stands for one.
    pub fn from_name(s: &str) -> (r: Option<Status>)
        ensures
            match r {
                Some(x) => s@ == x.spec_name() && Status::is_name(s@),
                None => !Status::is_name(s@) && forall|x: Status| s@ != x.spec_name(),
            },
    {
        if same_text(s, "online") {
            Some(Status::Online)
        } else if same_text(s, "dnd") {
            Some(Status::DoNotDisturb)
        } else if same_text(s, "idle") {
            Some(Status::Idle)
        } else if same_text(s, "invisible") {
            Some(Status::Invisible)
        } else if same_text(s, "offline") {
            Some(Status::Offline)
        } else {
            None
        }
    }
}

impl Decode for Status {
    open spec fn decodes(j: Json, x: Self) -> bool {
        j == Json::Text(x.spec_name())
    }

    open spec fn rejection(j: Json) -> Option<DecodeError> {
        match j {
            Json::Text(s) => if Status::is_name(s) {
                None
            } else {
                Some(DecodeError::InvalidValue)
            },
            _ => Some(DecodeError::InvalidValue),
        }
    }

    fn decode(v: &Value) -> (r: Result<Self, DecodeError>) {
        match as_text(v) {
            Some(s) => match Status::from_name(s.as_str()) {
                Some(x) => Ok(x),
                None => Err(DecodeError::InvalidValue),
            },
            None => Err(DecodeError::InvalidValue),
        }
    }
}

impl Encode for Status {
    open spec fn wire(&self) -> Json {
        Json::Text(self.spec_name())
    }

    fn encode(&self) -> (r: Value) {
        crate::wire::text(self.name())
    }
}

} // verus!
