//! What is sent to make or change commands, messages and bans.

use crate::kinds::InteractionResponseType;
use crate::types::{AllowedMentions, ApplicationCommandOption, Component, Embed};
use crate::wire::{
    fresh, maybe, object, one, put, put_filled, put_some, unless_empty, Encode, Json, Value,
};
use vstd::prelude::*;

verus! {

/// Makes an application command.
#[derive(Clone, Debug)]
pub struct CreateCommand<'a> {
    pub name: &'a str,
    pub description: &'a str,
    pub options: Vec<ApplicationCommandOption>,
}

impl<'a> Encode for CreateCommand<'a> {
    open spec fn wire(&self) -> Json {
        Json::Object(
            Seq::empty() + one("name"@, self.name.wire())
                + one("description"@, self.description.wire())
                + one("options"@, self.options.wire()),
        )
    }

    fn encode(&self) -> (r: Value) {
        let mut es = fresh();
        put(&mut es, "name", &self.name);
        put(&mut es, "description", &self.description);
        put(&mut es, "options", &self.options);
        object(es)
    }
}

/// A file that goes with a message.
#[derive(Clone, Debug)]
pub struct Attachment {
    pub name: String,
    pub data: Vec<u8>,
}

impl Encode for Attachment {
    open spec fn wire(&self) -> Json {
        Json::Object(
            Seq::empty() + one("name"@, self.name.wire())
                + one("data"@, self.data.wire()),
        )
    }

    fn encode(&self) -> (r: Value) {
        let mut es = fresh();
        put(&mut es, "name", &self.name);
        put(&mut es, "data", &self.data);
        object(es)
    }
}

/// Sends a message.
#[derive(Clone, Debug)]
pub struct CreateMessage {
    pub content: Option<String>,
    pub embeds: Vec<Embed>,
    pub components: Vec<Component>,
}

impl Encode for CreateMessage {
    open spec fn wire(&self) -> Json {
        Json::Object(
            Seq::empty() + maybe("content"@, self.content)
                + unless_empty("embeds"@, self.embeds)
                + unless_empty("components"@, self.components),
        )
    }

    fn encode(&self) -> (r: Value) {
        let mut es = fresh();
        put_some(&mut es, "content", &self.content);
        put_filled(&mut es, "embeds", &self.embeds);
        put_filled(&mut es, "components", &self.components);
        object(es)
    }
}

/// Changes a message.
#[derive(Clone, Debug)]
pub struct EditMessage {
    pub content: Option<String>,
    pub embeds: Option<Vec<Embed>>,
    pub components: Option<Vec<Component>>,
}

impl Encode for EditMessage {
    open spec fn wire(&self) -> Json {
        Json::Object(
            Seq::empty() + maybe("content"@, self.content)
                + maybe("embeds"@, self.embeds)
                + maybe("components"@, self.components),
        )
    }

    fn encode(&self) -> (r: Value) {
        let mut es = fresh();
        put_some(&mut es, "content", &self.content);
        put_some(&mut es, "embeds", &self.embeds);
        put_some(&mut es, "components", &self.components);
        object(es)
    }
}

/// Bans a user from a guild.
#[derive(Clone, Debug)]
pub struct CreateGuildBan<'a> {
    pub delete_message_days: Option<u8>,
    pub reason: Option<&'a str>,
}

impl<'a> Encode for CreateGuildBan<'a> {
    open spec fn wire(&self) -> Json {
        Json::Object(
            Seq::empty() + maybe("delete_message_days"@, self.delete_message_days)
                + maybe("reason"@, self.reason),
        )
    }

    fn encode(&self) -> (r: Value) {
        let mut es = fresh();
        put_some(&mut es, "delete_message_days", &self.delete_message_days);
        put_some(&mut es, "reason", &self.reason);
        object(es)
    }
}

/// Answers an interaction.
#[derive(Clone, Debug)]
pub struct InteractionResponse<'a> {
    pub response_type: InteractionResponseType,
    pub data: Option<InteractionCallbackData<'a>>,
}

impl<'a> Encode for InteractionResponse<'a> {
    open spec fn wire(&self) -> Json {
        Json::Object(
            Seq::empty() + one("type"@, self.response_type.wire())
                + maybe("data"@, self.data),
        )
    }

    fn encode(&self) -> (r: Value) {
        let mut es = fresh();
        put(&mut es, "type", &self.response_type);
        put_some(&mut es, "data", &self.data);
        object(es)
    }
}

/// The message that answers an interaction.
#[derive(Clone, Debug)]
pub struct InteractionCallbackData<'a> {
    pub tts: bool,
    pub content: Option<&'a str>,
    pub embeds: Option<Vec<Embed>>,
    pub allowed_mentions: Option<AllowedMentions>,
    pub flags: Option<u32>,
    pub components: Option<Vec<Component>>,
}

impl<'a> Encode for InteractionCallbackData<'a> {
    open spec fn wire(&self) -> Json {
        Json::Object(
            Seq::empty() + one("tts"@, self.tts.wire())
                + maybe("content"@, self.content)
                + maybe("embeds"@, self.embeds)
                + maybe("allowed_mentions"@, self.allowed_mentions)
                + maybe("flags"@, self.flags)
                + maybe("components"@, self.components),
        )
    }

    fn encode(&self) -> (r: Value) {
        let mut es = fresh();
        put(&mut es, "tts", &self.tts);
        put_some(&mut es, "content", &self.content);
        put_some(&mut es, "embeds", &self.embeds);
        put_some(&mut es, "allowed_mentions", &self.allowed_mentions);
        put_some(&mut es, "flags", &self.flags);
        put_some(&mut es, "components", &self.components);
        object(es)
    }
}

impl Default for InteractionCallbackData<'_> {
    fn default() -> (r: Self)
        ensures
            !r.tts,
            r.content is None,
            r.embeds is None,
            r.allowed_mentions is None,
            r.flags is None,
            r.components is None,
    {
        InteractionCallbackData {
            tts: false,
            content: None,
            embeds: None,
            allowed_mentions: None,
            flags: None,
            components: None,
        }
    }
}

} // verus!
