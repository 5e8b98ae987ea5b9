use gateway_codec::command::{
    Command, ConnectionProperties, Heartbeat, Identify, RequestGuildMembers, Resume, UpdateStatus,
    UpdateVoiceState,
};
use gateway_codec::flags::Intents;
use gateway_codec::idset::IdSet;
use gateway_codec::kinds::{ApplicationCommandOptionType, InteractionResponseType, Status};
use gateway_codec::request::{
    Attachment, CreateCommand, CreateGuildBan, CreateMessage, EditMessage, InteractionCallbackData,
    InteractionResponse,
};
use gateway_codec::snowflake::{ChannelId, GuildId, UserId};
use gateway_codec::types::{AllowedMentions, ApplicationCommandOption, Embed};
use gateway_codec::wire::{Encode, Entry, Value};

fn text(s: &str) -> Value {
    Value::Text(s.to_string())
}

fn obj(entries: Vec<(&str, Value)>) -> Value {
    Value::Object(
        entries
            .into_iter()
            .map(|(k, v)| Entry { key: k.to_string(), value: v })
            .collect(),
    )
}

fn properties() -> ConnectionProperties {
    ConnectionProperties {
        os: "linux".to_string(),
        browser: "lib".to_string(),
        device: "lib".to_string(),
    }
}

#[test]
fn heartbeat_envelope() {
    let command = Command::heartbeat(5u64);
    assert_eq!(command.op(), 1);
    assert_eq!(Command::heartbeat(Heartbeat::from(5)).encode(), command.encode());
    assert!(command.is_heartbeat());
    assert_eq!(
        command.encode(),
        obj(vec![("op", Value::Unsigned(1)), ("d", Value::Unsigned(5))])
    );
    assert_eq!(command.to_text(), "Heartbeat(5)");
    assert_eq!(Heartbeat { sequence: 0 }.to_text(), "0");
}

#[test]
fn operation_codes() {
    let status = UpdateStatus { since: None, status: Status::Online, afk: false };
    let commands = [
        (Command::from(Heartbeat { sequence: 1 }), 1, "Heartbeat(1)"),
        (
            Command::from(Identify {
                token: "t".to_string(),
                properties: properties(),
                compress: None,
                large_threshold: None,
                shard: None,
                presence: None,
                guild_subscriptions: None,
                intents: None,
            }),
            2,
            "Identify",
        ),
        (Command::from(status.clone()), 3, "UpdateStatus"),
        (
            Command::from(UpdateVoiceState {
                guild_id: GuildId::from(1u64),
                channel_id: None,
                self_mute: false,
                self_deaf: true,
            }),
            4,
            "UpdateVoiceState",
        ),
        (
            Command::from(Resume { token: "t".to_string(), session_id: "s".to_string(), seq: 9 }),
            6,
            "Resume",
        ),
        (
            Command::from(RequestGuildMembers {
                guild_id: GuildId::from(1u64),
                query: String::new(),
                limit: 0,
                presences: None,
                user_ids: IdSet::new(),
                nonce: None,
            }),
            8,
            "RequestGuildMembers",
        ),
    ];
    for (command, op, shown) in commands {
        assert_eq!(command.op(), op);
        assert_eq!(command.is_heartbeat(), op == 1);
        assert_eq!(command.to_text(), shown);
        match command.encode() {
            Value::Object(entries) => {
                assert_eq!(entries.len(), 2);
                assert_eq!(entries[0], Entry { key: "op".to_string(), value: Value::Unsigned(op as u64) });
                assert_eq!(entries[1].key, "d");
            }
            other => panic!("not an object: {:?}", other),
        }
    }
}

#[test]
fn identify_leaves_out_what_is_not_set() {
    let bare = Identify {
        token: "t".to_string(),
        properties: properties(),
        compress: None,
        large_threshold: None,
        shard: None,
        presence: None,
        guild_subscriptions: None,
        intents: None,
    };
    let props = obj(vec![("$os", text("linux")), ("$browser", text("lib")), ("$device", text("lib"))]);
    assert_eq!(
        bare.encode(),
        obj(vec![("token", text("t")), ("properties", obj(vec![("$os", text("linux")), ("$browser", text("lib")), ("$device", text("lib"))]))])
    );
    let full = Identify {
        token: "t".to_string(),
        properties: properties(),
        compress: Some(false),
        large_threshold: Some(250),
        shard: Some((1, 4)),
        presence: Some(UpdateStatus { since: Some(3), status: Status::DoNotDisturb, afk: true }),
        guild_subscriptions: Some(true),
        intents: Some(Intents::from_bits(Intents::GUILD_ALL).unwrap()),
    };
    assert_eq!(
        Command::Identify(full).encode(),
        obj(vec![
            ("op", Value::Unsigned(2)),
            (
                "d",
                obj(vec![
                    ("token", text("t")),
                    ("properties", props),
                    ("compress", Value::Bool(false)),
                    ("large_threshold", Value::Unsigned(250)),
                    ("shard", Value::List(vec![Value::Unsigned(1), Value::Unsigned(4)])),
                    (
                        "presence",
                        obj(vec![
                            ("since", Value::Unsigned(3)),
                            ("status", text("dnd")),
                            ("afk", Value::Bool(true)),
                        ])
                    ),
                    ("guild_subscriptions", Value::Bool(true)),
                    ("intents", Value::Unsigned(69631)),
                ])
            ),
        ])
    );
}

#[test]
fn other_gateway_payloads() {
    assert_eq!(
        UpdateStatus { since: None, status: Status::Idle, afk: false }.encode(),
        obj(vec![("since", Value::Null), ("status", text("idle")), ("afk", Value::Bool(false))])
    );
    assert_eq!(
        UpdateVoiceState {
            guild_id: GuildId::from(1u64),
            channel_id: Some(ChannelId::from(2u64)),
            self_mute: true,
            self_deaf: false,
        }
        .encode(),
        obj(vec![
            ("guild_id", text("1")),
            ("channel_id", text("2")),
            ("self_mute", Value::Bool(true)),
            ("self_deaf", Value::Bool(false)),
        ])
    );
    assert_eq!(
        Resume { token: "t".to_string(), session_id: "s".to_string(), seq: 12 }.encode(),
        obj(vec![("token", text("t")), ("session_id", text("s")), ("seq", Value::Unsigned(12))])
    );
    let mut users = IdSet::new();
    users.insert(UserId::from(4u64));
    users.insert(UserId::from(5u64));
    users.insert(UserId::from(4u64));
    assert_eq!(
        RequestGuildMembers {
            guild_id: GuildId::from(1u64),
            query: "a".to_string(),
            limit: 10,
            presences: Some(true),
            user_ids: users,
            nonce: Some("n".to_string()),
        }
        .encode(),
        obj(vec![
            ("guild_id", text("1")),
            ("query", text("a")),
            ("limit", Value::Unsigned(10)),
            ("presences", Value::Bool(true)),
            ("user_ids", Value::List(vec![text("4"), text("5")])),
            ("nonce", text("n")),
        ])
    );
    assert_eq!(
        RequestGuildMembers {
            guild_id: GuildId::from(1u64),
            query: String::new(),
            limit: 0,
            presences: None,
            user_ids: IdSet::new(),
            nonce: None,
        }
        .encode(),
        obj(vec![("guild_id", text("1")), ("query", text("")), ("limit", Value::Unsigned(0))])
    );
}

#[test]
fn requests() {
    let option = ApplicationCommandOption {
        option_type: ApplicationCommandOptionType::String,
        name: "n".to_string(),
        description: "d".to_string(),
        required: true,
        choices: vec![],
        options: vec![],
    };
    assert_eq!(
        CreateCommand { name: "ping", description: "pong", options: vec![option] }.encode(),
        obj(vec![
            ("name", text("ping")),
            ("description", text("pong")),
            (
                "options",
                Value::List(vec![obj(vec![
                    ("type", Value::Unsigned(3)),
                    ("name", text("n")),
                    ("description", text("d")),
                    ("required", Value::Bool(true)),
                    ("choices", Value::List(vec![])),
                    ("options", Value::List(vec![])),
                ])])
            ),
        ])
    );
    assert_eq!(
        Attachment { name: "f".to_string(), data: vec![1, 2, 255] }.encode(),
        obj(vec![
            ("name", text("f")),
            ("data", Value::List(vec![Value::Unsigned(1), Value::Unsigned(2), Value::Unsigned(255)])),
        ])
    );
    assert_eq!(
        CreateMessage { content: None, embeds: vec![], components: vec![] }.encode(),
        obj(vec![])
    );
    assert_eq!(
        CreateMessage { content: Some("hi".to_string()), embeds: vec![Embed::new()], components: vec![] }
            .encode(),
        obj(vec![("content", text("hi")), ("embeds", Value::List(vec![obj(vec![])]))])
    );
    assert_eq!(
        EditMessage { content: None, embeds: Some(vec![]), components: None }.encode(),
        obj(vec![("embeds", Value::List(vec![]))])
    );
    assert_eq!(
        CreateGuildBan { delete_message_days: Some(7), reason: Some("spam") }.encode(),
        obj(vec![("delete_message_days", Value::Unsigned(7)), ("reason", text("spam"))])
    );
    assert_eq!(CreateGuildBan { delete_message_days: None, reason: None }.encode(), obj(vec![]));
    let data = InteractionCallbackData {
        content: Some("c"),
        allowed_mentions: Some(AllowedMentions::none()),
        flags: Some(64),
        ..Default::default()
    };
    assert_eq!(
        InteractionResponse { response_type: InteractionResponseType::ChannelMessage, data: Some(data) }
            .encode(),
        obj(vec![
            ("type", Value::Unsigned(4)),
            (
                "data",
                obj(vec![
                    ("tts", Value::Bool(false)),
                    ("content", text("c")),
                    ("allowed_mentions", obj(vec![("parse", Value::List(vec![]))])),
                    ("flags", Value::Unsigned(64)),
                ])
            ),
        ])
    );
    assert_eq!(
        InteractionResponse { response_type: InteractionResponseType::Pong, data: None }.encode(),
        obj(vec![("type", Value::Unsigned(1))])
    );
}
