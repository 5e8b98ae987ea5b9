use gateway_codec::event::{
    event_kind, tag_kind, Event, EventError, EventKind, Payload,
};
use gateway_codec::snowflake::GuildId;
use gateway_codec::wire::{Decode, DecodeError, Entry, Value};

fn tree(v: &serde_json::Value) -> Value {
    match v {
        serde_json::Value::Null => Value::Null,
        serde_json::Value::Bool(b) => Value::Bool(*b),
        serde_json::Value::Number(n) => {
            if let Some(u) = n.as_u64() {
                Value::Unsigned(u)
            } else if let Some(i) = n.as_i64() {
                Value::Signed(i)
            } else {
                Value::Real(n.as_f64().unwrap().to_bits())
            }
        }
        serde_json::Value::String(s) => Value::Text(s.clone()),
        serde_json::Value::Array(a) => Value::List(a.iter().map(tree).collect()),
        serde_json::Value::Object(m) => Value::Object(
            m.iter()
                .map(|(k, v)| Entry { key: k.clone(), value: tree(v) })
                .collect(),
        ),
    }
}

fn parse(json: &str) -> Value {
    tree(&serde_json::from_str::<serde_json::Value>(json).unwrap())
}

fn text(s: &str) -> Value {
    Value::Text(s.to_string())
}

fn obj(entries: Vec<(&str, Value)>) -> Value {
    Value::Object(
        entries
            .into_iter()
            .map(|(k, v)| Entry { key: k.to_string(), value: v })
            .collect(),
    )
}

const READY: &str = r#"{"v":9,"user":{"id":"80351110224678912","username":"Nelly","discriminator":"1337","avatar":null,"bot":true},"guilds":[{"id":"41771983423143937","unavailable":true},{"id":"41771983423143938","unavailable":true},{"id":"41771983423143937"}],"session_id":"abc","shard":[0,2],"application":{"id":"80351110224678912","flags":0}}"#;

fn frame(op: u64, t: Option<&str>, s: Option<u64>, d: Value) -> Value {
    let mut entries = vec![("op", Value::Unsigned(op))];
    if let Some(t) = t {
        entries.push(("t", text(t)));
    }
    if let Some(s) = s {
        entries.push(("s", Value::Unsigned(s)));
    }
    entries.push(("d", d));
    obj(entries)
}

#[test]
fn dispatch_ready() {
    let v = frame(0, Some("READY"), Some(1), parse(READY));
    let payload = Payload::decode(&v).unwrap();
    assert_eq!(payload.sequence, Some(1));
    assert_eq!(payload.event.kind(), EventKind::Ready);
    assert_eq!(payload.to_text(), "Ready(username=Nelly)@1");
    assert!(payload.event.guild_id().is_none());
    let ready = payload.event.expect_ready().unwrap();
    assert_eq!(ready.v, 9);
    assert_eq!(ready.user.username, "Nelly");
    assert_eq!(ready.guilds.len(), 2);
    assert!(ready.guilds.contains(&GuildId::from(41771983423143937u64)));
    assert!(ready.guilds.contains(&GuildId::from(41771983423143938u64)));
    assert_eq!(ready.session_id, "abc");
    assert_eq!(ready.shard, Some((0, 2)));
    assert_eq!(ready.application.id.value(), 80351110224678912);
}

#[test]
fn dispatch_ready_from_text() {
    let json = format!(r#"{{"op":0,"t":"READY","s":1,"d":{}}}"#, READY);
    let payload = Payload::decode_frame(&parse(&json)).unwrap();
    assert_eq!(payload.sequence, Some(1));
    assert!(matches!(payload.event, Event::Ready(_)));
}

#[test]
fn keys_may_come_in_any_order() {
    let d = parse(READY);
    let orders: Vec<Vec<&str>> = vec![
        vec!["d", "op", "t", "s"],
        vec!["d", "s", "t", "op"],
        vec!["t", "d", "s", "op"],
        vec!["s", "op", "d", "t"],
    ];
    for order in orders {
        let mut entries = Vec::new();
        for key in order {
            let value = match key {
                "d" => parse(READY),
                "op" => Value::Unsigned(0),
                "t" => text("READY"),
                _ => Value::Unsigned(1),
            };
            entries.push((key, value));
        }
        let payload = Payload::decode(&obj(entries)).unwrap();
        assert_eq!(payload.sequence, Some(1));
        assert_eq!(payload.event.kind(), EventKind::Ready);
    }
    assert_eq!(d, parse(READY));
}

#[test]
fn unknown_dispatch() {
    let v = frame(0, Some("SOME_NEW_EVENT"), Some(2), parse(r#"{"anything":1}"#));
    let payload = Payload::decode(&v).unwrap();
    assert_eq!(payload.sequence, Some(2));
    match &payload.event {
        Event::Unknown(tag) => assert_eq!(tag, "SOME_NEW_EVENT"),
        _ => panic!("not unknown"),
    }
    assert_eq!(payload.to_text(), "Unknown(SOME_NEW_EVENT)@2");
    assert_eq!(payload.event.kind(), EventKind::Unknown);
}

#[test]
fn unknown_op() {
    let payload = Payload::decode(&parse(r#"{"op":42,"d":{}}"#)).unwrap();
    assert_eq!(payload.sequence, None);
    match &payload.event {
        Event::Unknown(tag) => assert_eq!(tag, "42"),
        _ => panic!("not unknown"),
    }
    let tagged = Payload::decode(&parse(r#"{"op":7,"t":"RECONNECT","d":null}"#)).unwrap();
    match &tagged.event {
        Event::Unknown(tag) => assert_eq!(tag, "7"),
        _ => panic!("not unknown"),
    }
    let top = Payload::decode(&parse(r#"{"op":255,"d":[1,2]}"#)).unwrap();
    assert_eq!(top.event.to_text(), "Unknown(255)");
}

#[test]
fn missing_field() {
    assert_eq!(
        Payload::decode(&parse(r#"{"op":0,"t":"READY"}"#)).err(),
        Some(DecodeError::MissingField("d"))
    );
    assert_eq!(
        Payload::decode(&parse(r#"{"op":0,"d":{}}"#)).err(),
        Some(DecodeError::MissingField("t"))
    );
    assert_eq!(
        Payload::decode(&parse(r#"{"op":0,"t":null,"d":{}}"#)).err(),
        Some(DecodeError::MissingField("t"))
    );
    assert_eq!(
        Payload::decode(&parse(r#"{"t":"READY","d":{}}"#)).err(),
        Some(DecodeError::MissingField("op"))
    );
    assert_eq!(
        Payload::decode(&parse(r#"{}"#)).err(),
        Some(DecodeError::MissingField("d"))
    );
}

#[test]
fn duplicate_field() {
    let twice_op = obj(vec![
        ("op", Value::Unsigned(0)),
        ("op", Value::Unsigned(0)),
        ("t", text("READY")),
        ("d", parse(READY)),
    ]);
    assert_eq!(Payload::decode(&twice_op).err(), Some(DecodeError::DuplicateField("op")));
    for key in ["t", "s", "d"] {
        let mut entries = vec![
            ("op", Value::Unsigned(11)),
            ("t", Value::Null),
            ("s", Value::Null),
            ("d", Value::Null),
        ];
        entries.push((key, Value::Null));
        assert_eq!(
            Payload::decode(&obj(entries)).err(),
            Some(DecodeError::DuplicateField(key))
        );
    }
    let other = obj(vec![
        ("x", Value::Null),
        ("op", Value::Unsigned(11)),
        ("x", Value::Null),
        ("d", Value::Null),
    ]);
    assert!(Payload::decode(&other).unwrap().event.is_heartbeat_ack());
}

#[test]
fn invalid_envelope_values() {
    for json in [
        r#"{"op":"0","d":{}}"#,
        r#"{"op":256,"d":{}}"#,
        r#"{"op":-1,"d":{}}"#,
        r#"{"op":null,"d":{}}"#,
        r#"{"op":1.5,"d":{}}"#,
        r#"{"op":0,"t":5,"d":{}}"#,
        r#"{"op":0,"t":"READY","s":"1","d":{}}"#,
        r#"{"op":0,"t":"READY","s":-1,"d":{}}"#,
        r#"[]"#,
        r#"null"#,
        r#""frame""#,
    ] {
        assert_eq!(
            Payload::decode(&parse(json)).err(),
            Some(DecodeError::InvalidValue),
            "{}",
            json
        );
    }
}

#[test]
fn operations_without_type_tag() {
    let hello = Payload::decode(&parse(r#"{"op":10,"d":{"heartbeat_interval":41250},"s":null,"t":null}"#))
        .unwrap();
    assert_eq!(hello.sequence, None);
    assert_eq!(hello.to_text(), "Hello");
    assert_eq!(hello.event.expect_hello().unwrap().heartbeat_interval, 41250);
    let invalid = Payload::decode(&parse(r#"{"op":9,"d":false}"#)).unwrap();
    match invalid.event {
        Event::InvalidSession(ref s) => assert!(!s.resumable),
        _ => panic!("not an invalid session"),
    }
    let ack = Payload::decode(&parse(r#"{"op":11,"d":{"whatever":[1]}}"#)).unwrap();
    assert!(ack.event.is_heartbeat_ack());
    assert_eq!(ack.event.to_text(), "HeartbeatAck");
    assert_eq!(
        Payload::decode(&parse(r#"{"op":10,"d":{}}"#)).err(),
        Some(DecodeError::MissingField("heartbeat_interval"))
    );
    assert_eq!(
        Payload::decode(&parse(r#"{"op":9,"d":null}"#)).err(),
        Some(DecodeError::InvalidValue)
    );
}

#[test]
fn sequence_only_on_dispatch() {
    let ack = Payload::decode(&parse(r#"{"op":11,"s":5,"d":null}"#)).unwrap();
    assert_eq!(ack.sequence, None);
    let resumed = Payload::decode(&parse(r#"{"op":0,"t":"RESUMED","s":5,"d":{"x":1}}"#)).unwrap();
    assert_eq!(resumed.sequence, Some(5));
    assert!(matches!(resumed.event, Event::Resumed));
    let unnumbered = Payload::decode(&parse(r#"{"op":0,"t":"RESUMED","d":null}"#)).unwrap();
    assert_eq!(unnumbered.sequence, None);
    assert_eq!(unnumbered.to_text(), "Resumed");
}

#[test]
fn dispatch_table() {
    let table = [
        ("READY", EventKind::Ready),
        ("RESUMED", EventKind::Resumed),
        ("GUILD_CREATE", EventKind::GuildCreate),
        ("GUILD_UPDATE", EventKind::GuildUpdate),
        ("GUILD_DELETE", EventKind::GuildDelete),
        ("MESSAGE_CREATE", EventKind::MessageCreate),
        ("MESSAGE_UPDATE", EventKind::MessageUpdate),
        ("MESSAGE_DELETE", EventKind::MessageDelete),
        ("GUILD_MEMBER_ADD", EventKind::GuildMemberAdd),
        ("GUILD_MEMBER_UPDATE", EventKind::GuildMemberUpdate),
        ("GUILD_MEMBER_REMOVE", EventKind::GuildMemberRemove),
        ("GUILD_MEMBERS_CHUNK", EventKind::GuildMembersChunk),
        ("GUILD_ROLE_CREATE", EventKind::GuildRoleCreate),
        ("GUILD_ROLE_UPDATE", EventKind::GuildRoleUpdate),
        ("GUILD_ROLE_DELETE", EventKind::GuildRoleDelete),
        ("CHANNEL_CREATE", EventKind::ChannelCreate),
        ("CHANNEL_UPDATE", EventKind::ChannelUpdate),
        ("CHANNEL_DELETE", EventKind::ChannelDelete),
        ("APPLICATION_COMMAND_CREATE", EventKind::ApplicationCommandCreate),
        ("APPLICATION_COMMAND_UPDATE", EventKind::ApplicationCommandUpdate),
        ("APPLICATION_COMMAND_DELETE", EventKind::ApplicationCommandDelete),
        ("INTERACTION_CREATE", EventKind::InteractionCreate),
        ("VOICE_STATE_UPDATE", EventKind::VoiceStateUpdate),
        ("VOICE_SERVER_UPDATE", EventKind::VoiceServerUpdate),
        ("MESSAGE_DELETE_BULK", EventKind::Unknown),
        ("ready", EventKind::Unknown),
        ("", EventKind::Unknown),
    ];
    for (tag, kind) in table {
        assert_eq!(tag_kind(tag), kind, "{}", tag);
        assert_eq!(event_kind(0, &Some(tag.to_string())), Ok(kind));
    }
    assert_eq!(event_kind(9, &None), Ok(EventKind::InvalidSession));
    assert_eq!(event_kind(10, &Some("READY".to_string())), Ok(EventKind::Hello));
    assert_eq!(event_kind(11, &None), Ok(EventKind::HeartbeatAck));
    assert_eq!(event_kind(0, &None), Err(DecodeError::MissingField("t")));
    for op in [1u8, 2, 3, 4, 5, 6, 7, 8, 12, 200, 255] {
        assert_eq!(event_kind(op, &Some("READY".to_string())), Ok(EventKind::Unknown));
    }
}

#[test]
fn guild_of_each_event() {
    let cases = [
        ("GUILD_DELETE", r#"{"id":"5"}"#, Some(5u64), "GuildDelete(id=5)"),
        ("MESSAGE_DELETE", r#"{"id":"1","channel_id":"2","guild_id":"3"}"#, Some(3), "MessageDelete(channel_id=2, id=1)"),
        ("MESSAGE_DELETE", r#"{"id":"1","channel_id":"2"}"#, None, "MessageDelete(channel_id=2, id=1)"),
        ("MESSAGE_UPDATE", r#"{"id":"1","channel_id":"2","guild_id":"4","content":"x"}"#, Some(4), "MessageUpdate(channel_id=2)"),
        ("MESSAGE_CREATE", r#"{"id":"1","channel_id":"2","type":0,"content":"hi","author":{"id":"9","username":"u","discriminator":"7"}}"#, None, "MessageCreate(user=u#7, channel_id=2)"),
        ("MESSAGE_CREATE", r#"{"id":"1","channel_id":"2","type":0,"guild_id":"8"}"#, Some(8), "MessageCreate(user=?, channel_id=2)"),
        ("GUILD_ROLE_DELETE", r#"{"guild_id":"6","role_id":"7"}"#, Some(6), "GuildRoleDelete(guild=6, role=7)"),
        ("GUILD_ROLE_CREATE", r#"{"guild_id":"6","role":{"id":"2","name":"m","color":0,"hoist":false,"position":1,"permissions":"0","managed":false,"mentionable":false}}"#, Some(6), "GuildRoleCreate(guild=6, role=2)"),
        ("GUILD_MEMBER_REMOVE", r#"{"guild_id":"6","user":{"id":"9","username":"u","discriminator":"7"}}"#, Some(6), "GuildMemberRemove(guild=6, user=u#7)"),
        ("GUILD_MEMBER_ADD", r#"{"guild_id":"6","roles":[],"joined_at":"2020-01-01T00:00:00Z","deaf":false,"mute":false,"nick":"nn","user":{"id":"9","username":"u","discriminator":"7"}}"#, Some(6), "GuildMemberAdd(guild=6, user=nn (u#7))"),
        ("GUILD_MEMBER_UPDATE", r#"{"guild_id":"6","roles":["1"],"user":{"id":"9","username":"u","discriminator":"7"}}"#, Some(6), "GuildMemberUpdate(guild=6, user=u#7)"),
        ("GUILD_MEMBERS_CHUNK", r#"{"guild_id":"6","members":[],"chunk_index":0,"chunk_count":3}"#, Some(6), "GuildMembersChunk(guild=6, chunk=0/3)"),
        ("CHANNEL_CREATE", r#"{"id":"3","type":1}"#, None, "ChannelCreate(id=3)"),
        ("CHANNEL_UPDATE", r#"{"id":"3","type":0,"guild_id":"2"}"#, Some(2), "ChannelUpdate(id=3)"),
        ("CHANNEL_DELETE", r#"{"id":"3","type":0,"guild_id":"2"}"#, Some(2), "ChannelDelete(id=3)"),
        ("APPLICATION_COMMAND_CREATE", r#"{"id":"1","application_id":"2","name":"ping","description":"d","guild_id":"4"}"#, Some(4), "ApplicationCommandCreate(command=ping)"),
        ("APPLICATION_COMMAND_DELETE", r#"{"id":"1","application_id":"2","name":"ping","description":"d"}"#, None, "ApplicationCommandDelete(command=ping)"),
        ("INTERACTION_CREATE", r#"{"id":"1","application_id":"2","type":2,"data":{"name":"ping"},"token":"t","version":1,"guild_id":"7","user":{"id":"9","username":"u","discriminator":"7"}}"#, Some(7), "InteractionCreate(command=ping, user=u#7)"),
        ("VOICE_STATE_UPDATE", r#"{"guild_id":"5","user_id":"3","session_id":"s","deaf":false,"mute":false,"self_deaf":true,"self_mute":false,"self_video":false,"suppress":false}"#, Some(5), "VoiceStateUpdate(guild=5)"),
        ("VOICE_STATE_UPDATE", r#"{"user_id":"3","session_id":"s","deaf":false,"mute":false,"self_deaf":true,"self_mute":false,"self_video":false,"suppress":false}"#, None, "VoiceStateUpdate"),
        ("VOICE_SERVER_UPDATE", r#"{"token":"t","guild_id":"5","endpoint":null}"#, Some(5), "VoiceServerUpdate(guild=5)"),
        ("RESUMED", r#"null"#, None, "Resumed"),
        ("SOMETHING", r#"{"guild_id":"5"}"#, None, "Unknown(SOMETHING)"),
    ];
    for (tag, d, guild, shown) in cases {
        let payload = Payload::decode(&frame(0, Some(tag), Some(3), parse(d)))
            .unwrap_or_else(|e| panic!("{}: {:?}", tag, e));
        assert_eq!(payload.event.guild_id(), guild.map(GuildId::from), "{}", tag);
        assert_eq!(payload.event.to_text(), shown);
        assert_eq!(payload.event.kind(), tag_kind(tag));
        assert_eq!(payload.sequence, Some(3));
    }
}

#[test]
fn data_errors_reach_the_caller() {
    assert_eq!(
        Payload::decode(&frame(0, Some("GUILD_DELETE"), Some(1), parse(r#"{}"#))).err(),
        Some(DecodeError::MissingField("id"))
    );
    assert_eq!(
        Payload::decode(&frame(0, Some("GUILD_DELETE"), Some(1), parse(r#"{"id":"x"}"#))).err(),
        Some(DecodeError::InvalidValue)
    );
    assert_eq!(
        Payload::decode(&frame(0, Some("READY"), Some(1), Value::Null)).err(),
        Some(DecodeError::InvalidValue)
    );
    let no_guilds = READY.replace(r#""guilds""#, r#""gilds""#);
    assert_eq!(
        Payload::decode(&frame(0, Some("READY"), Some(1), parse(&no_guilds))).err(),
        Some(DecodeError::MissingField("guilds"))
    );
    let bad_guild = READY.replace(r#"{"id":"41771983423143938","unavailable":true}"#, r#"{"unavailable":true}"#);
    assert_eq!(
        Payload::decode(&frame(0, Some("READY"), Some(1), parse(&bad_guild))).err(),
        Some(DecodeError::MissingField("id"))
    );
}

#[test]
fn accessor_misuse_is_a_local_error() {
    let ack = Payload::decode(&parse(r#"{"op":11,"d":null}"#)).unwrap();
    assert_eq!(ack.event.clone().expect_hello().err(), Some(EventError));
    assert_eq!(ack.event.clone().expect_ready().err(), Some(EventError));
    let hello = Payload::decode(&parse(r#"{"op":10,"d":{"heartbeat_interval":1}}"#)).unwrap();
    assert!(!hello.event.is_heartbeat_ack());
    assert!(hello.event.clone().expect_ready().is_err());
    assert!(hello.event.expect_hello().is_ok());
}

#[test]
fn decode_as_passes_over_data() {
    let e = Event::decode_as(EventKind::Unknown, 0, Some("X".to_string()), &Value::Null).unwrap();
    assert_eq!(e.to_text(), "Unknown(X)");
    let f = Event::decode_as(EventKind::Unknown, 12, None, &Value::Null).unwrap();
    assert_eq!(f.to_text(), "Unknown(12)");
    assert!(Event::decode_as(EventKind::HeartbeatAck, 11, None, &text("x")).unwrap().is_heartbeat_ack());
    assert!(Event::decode_as(EventKind::Hello, 10, None, &Value::Null).is_err());
}
