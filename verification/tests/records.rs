use gateway_codec::kinds::{ButtonStyle, ChannelType, ComponentType, InteractionType};
use gateway_codec::snowflake::{ChannelId, RoleId, Snowflake, UserId};
use gateway_codec::types::{
    AllowedMentions, Application, ApplicationCommand, ApplicationCommandOption, Channel, Component,
    Embed, Guild, Interaction, InteractionDataOption, Member, Message, PartialEmoji, Reaction, Role,
    SelectOption, User, VoiceState,
};
use gateway_codec::wire::{Decode, DecodeError, Encode, Entry, Value};
use gateway_codec::{Color, DateTime, UserFlags};

fn tree(v: &serde_json::Value) -> Value {
    match v {
        serde_json::Value::Null => Value::Null,
        serde_json::Value::Bool(b) => Value::Bool(*b),
        serde_json::Value::Number(n) => {
            if let Some(u) = n.as_u64() {
                Value::Unsigned(u)
            } else if let Some(i) = n.as_i64() {
                Value::Signed(i)
            } else {
                Value::Real(n.as_f64().unwrap().to_bits())
            }
        }
        serde_json::Value::String(s) => Value::Text(s.clone()),
        serde_json::Value::Array(a) => Value::List(a.iter().map(tree).collect()),
        serde_json::Value::Object(m) => Value::Object(
            m.iter()
                .map(|(k, v)| Entry { key: k.clone(), value: tree(v) })
                .collect(),
        ),
    }
}

fn parse(json: &str) -> Value {
    tree(&serde_json::from_str::<serde_json::Value>(json).unwrap())
}

fn text(s: &str) -> Value {
    Value::Text(s.to_string())
}

fn obj(entries: Vec<(&str, Value)>) -> Value {
    Value::Object(
        entries
            .into_iter()
            .map(|(k, v)| Entry { key: k.to_string(), value: v })
            .collect(),
    )
}

#[test]
fn user() {
    let json = r#"{"verified":true,"username":"[DEV] Galaxy of Dreams","mfa_enabled":true,"id":"292738137426362368","global_name":null,"flags":0,"email":null,"discriminator":"6948","bot":true,"avatar":null}"#;
    let user: User = User::decode(&parse(json)).unwrap();
    assert_eq!(user.id, UserId::from(292738137426362368u64));
    assert_eq!(user.username, "[DEV] Galaxy of Dreams");
    assert_eq!(user.discriminator, "6948");
    assert_eq!(user.verified, Some(true));
    assert_eq!(user.mfa_enabled, Some(true));
    assert_eq!(user.bot, Some(true));
    assert_eq!(user.email, None);
    assert_eq!(user.avatar, None);
    assert_eq!(user.flags, Some(UserFlags::empty()));
    assert_eq!(user.public_flags, None);
    assert!(user.is_bot());
    assert!(!user.is_system());
    assert_eq!(user.to_text(), "[DEV] Galaxy of Dreams#6948");
}

#[test]
fn member() {
    let json = r#"{"user":{"username":"anon","public_flags":4195072,"id":"1","global_name":"anon","display_name":"anon","discriminator":"0","bot":false,"avatar_decoration":null},"roles":[],"premium_since":null,"pending":false,"nick":null,"mute":false,"joined_at":"2023-01-01T00:00:00.000000+00:00","flags":0,"deaf":false,"communication_disabled_until":null,"avatar":null}"#;
    let member: Member = Member::decode(&parse(json)).unwrap();
    let user = member.user.clone().unwrap();
    assert_eq!(user.id, UserId::from(1u64));
    assert_eq!(user.public_flags.unwrap().bits(), 4195072);
    assert!(!user.is_bot());
    assert!(member.roles.is_empty());
    assert_eq!(member.premium_since, None);
    assert_eq!(member.pending, Some(false));
    assert_eq!(member.nick, None);
    assert!(!member.mute && !member.deaf);
    assert_eq!(member.joined_at.seconds(), 1_672_531_200);
    assert_eq!(member.to_text(), "?? (anon#0)");
}

#[test]
fn user_needs_its_required_keys() {
    let missing = parse(r#"{"username":"a","discriminator":"1"}"#);
    assert_eq!(User::decode(&missing).err(), Some(DecodeError::MissingField("id")));
    let twice = obj(vec![
        ("id", text("1")),
        ("username", text("a")),
        ("username", text("b")),
        ("discriminator", text("1")),
    ]);
    assert_eq!(User::decode(&twice).err(), Some(DecodeError::DuplicateField("username")));
    let wrong = parse(r#"{"id":"1","username":5,"discriminator":"1"}"#);
    assert_eq!(User::decode(&wrong).err(), Some(DecodeError::InvalidValue));
    assert_eq!(User::decode(&Value::Null).err(), Some(DecodeError::InvalidValue));
    assert_eq!(User::decode(&Value::List(vec![])).err(), Some(DecodeError::InvalidValue));
    let null_name = parse(r#"{"id":"1","username":null,"discriminator":"1"}"#);
    assert_eq!(User::decode(&null_name).err(), Some(DecodeError::InvalidValue));
}

#[test]
fn member_roles_are_a_set() {
    let json = r#"{"roles":["5","6","5"],"joined_at":"2020-02-02T02:02:02Z","deaf":true,"mute":false,"nick":"n"}"#;
    let member = Member::decode(&parse(json)).unwrap();
    assert_eq!(member.roles.len(), 2);
    assert!(member.roles.contains(&RoleId::from(5u64)));
    assert!(member.roles.contains(&RoleId::from(6u64)));
    assert!(member.user.is_none());
    assert_eq!(member.to_text(), "n");
    assert!(member.deaf);
}

#[test]
fn channel_with_and_without_optional_keys() {
    let full = parse(
        r#"{"id":"41771983423143937","type":0,"guild_id":"41771983423143937","position":6,"name":"general","topic":"24/7 chat","nsfw":true,"rate_limit_per_user":2,"parent_id":"399942396007890945","later":1}"#,
    );
    let c = Channel::decode(&full).unwrap();
    assert_eq!(c.channel_type, ChannelType::GuildText);
    assert_eq!(c.guild_id.unwrap().value(), 41771983423143937);
    assert_eq!(c.position, Some(6));
    assert_eq!(c.name.as_deref(), Some("general"));
    assert_eq!(c.nsfw, Some(true));
    assert_eq!(c.bitrate, None);
    assert_eq!(c.parent_id.unwrap().value(), 399942396007890945);
    assert_eq!(c.to_text(), "general");
    let bare = Channel::decode(&parse(r#"{"id":1,"type":1}"#)).unwrap();
    assert_eq!(bare.channel_type, ChannelType::DirectMessage);
    assert!(bare.guild_id.is_none() && bare.name.is_none());
    assert_eq!(bare.to_text(), "??");
    let big = parse(r#"{"id":1,"type":1,"position":65536}"#);
    assert_eq!(Channel::decode(&big).err(), Some(DecodeError::InvalidValue));
    let odd = Channel::decode(&parse(r#"{"id":1,"type":99}"#)).unwrap();
    assert_eq!(odd.channel_type, ChannelType::Unknown);
}

#[test]
fn role_and_guild() {
    let role_json = r#"{"id":"2","name":"mods","color":3447003,"hoist":true,"position":1,"permissions":"66321471","managed":false,"mentionable":false}"#;
    let role = Role::decode(&parse(role_json)).unwrap();
    assert_eq!(role.color.value(), Color::BLUE);
    assert_eq!(role.permissions, "66321471");
    let bad_color = r#"{"id":"2","name":"mods","color":16777216,"hoist":true,"position":1,"permissions":"0","managed":false,"mentionable":false}"#;
    assert_eq!(Role::decode(&parse(bad_color)).err(), Some(DecodeError::InvalidValue));
    let guild_json = format!(
        r#"{{"id":"9","name":"g","icon":null,"splash":null,"discovery_splash":null,"owner_id":"3","region":"eu","afk_channel_id":null,"afk_timeout":300,"verification_level":1,"default_message_notifications":0,"explicit_content_filter":2,"roles":[{}],"mfa_level":0,"application_id":null,"system_channel_id":"4","system_channel_flags":0,"rules_channel_id":null,"vanity_url_code":null,"description":null,"banner":null,"premium_tier":3,"preferred_locale":"en-US","public_updates_channel_id":null,"joined_at":"2021-03-04T05:06:07.5Z","member_count":12,"channels":[{{"id":"4","type":0}}]}}"#,
        role_json
    );
    let guild = Guild::decode(&parse(&guild_json)).unwrap();
    assert_eq!(guild.id.value(), 9);
    assert_eq!(guild.roles.len(), 1);
    assert_eq!(guild.roles[0].name, "mods");
    assert!(guild.members.is_empty());
    assert_eq!(guild.channels.len(), 1);
    assert_eq!(guild.member_count, Some(12));
    assert_eq!(guild.joined_at.unwrap().nanos(), 500_000_000);
    assert_eq!(guild.system_channel_id.unwrap().value(), 4);
    assert_eq!(guild.premium_tier, 3);
    let no_roles = guild_json.replace(r#""roles":["#, r#""rolls":["#);
    assert_eq!(
        Guild::decode(&parse(&no_roles)).err(),
        Some(DecodeError::MissingField("roles"))
    );
}

#[test]
fn message_defaults() {
    let json = r#"{"id":"10","channel_id":"11","edited_timestamp":null,"type":19,"author":{"id":"1","username":"u","discriminator":"0001"},"reactions":[{"count":2,"me":false,"emoji":{"id":null,"name":"🔥"}}],"components":[{"type":1,"components":[{"type":2,"style":1,"label":"ok","custom_id":"b"}]}]}"#;
    let m = Message::decode(&parse(json)).unwrap();
    assert_eq!(m.content, "");
    assert!(!m.tts && !m.pinned && !m.mention_everyone);
    assert!(m.mentions.is_empty());
    assert!(m.message_type.is_textual());
    assert_eq!(m.reactions.len(), 1);
    assert_eq!(m.reactions[0].count, 2);
    assert_eq!(m.reactions[0].emoji.name.as_deref(), Some("🔥"));
    assert!(!m.reactions[0].emoji.animated);
    assert_eq!(m.components.len(), 1);
    assert_eq!(m.components[0].component_type, ComponentType::ActionRow);
    assert_eq!(m.components[0].components[0].style, Some(ButtonStyle::Primary));
    assert_eq!(m.components[0].components[0].label.as_deref(), Some("ok"));
    assert_eq!(ChannelId::from(&m).value(), 11);
    assert_eq!(m.to_text(), "");
    let null_content = r#"{"id":"10","channel_id":"11","type":0,"content":null}"#;
    assert_eq!(Message::decode(&parse(null_content)).err(), Some(DecodeError::InvalidValue));
}

#[test]
fn nested_options_are_read_to_any_depth() {
    let json = r#"{"type":2,"name":"a","description":"d","options":[{"type":1,"name":"b","description":"e","required":true,"choices":[{"name":"x","value":"y"}],"options":[{"type":3,"name":"c","description":"f"}]}]}"#;
    let value = parse(json);
    let o = ApplicationCommandOption::decode(&value).unwrap();
    assert_eq!(o.options.len(), 1);
    assert!(o.options[0].required);
    assert_eq!(o.options[0].choices[0].value, "y");
    assert_eq!(o.options[0].options[0].name, "c");
    assert!(o.options[0].options[0].options.is_empty());
    let copy = o.clone();
    assert_eq!(copy.options[0].options[0].description, "f");
    let written = o.encode();
    let again = ApplicationCommandOption::decode(&written).unwrap();
    assert_eq!(again.encode(), written);
    let bad = r#"{"type":2,"name":"a","description":"d","options":[{"type":1,"name":"b"}]}"#;
    assert_eq!(
        ApplicationCommandOption::decode(&parse(bad)).err(),
        Some(DecodeError::MissingField("description"))
    );
    let not_list = r#"{"type":2,"name":"a","description":"d","options":{}}"#;
    assert_eq!(
        ApplicationCommandOption::decode(&parse(not_list)).err(),
        Some(DecodeError::InvalidValue)
    );
    let data = r#"{"name":"n","options":[{"name":"m","value":"v","options":[]}]}"#;
    let d = InteractionDataOption::decode(&parse(data)).unwrap();
    assert_eq!(d.options[0].value.as_deref(), Some("v"));
    assert!(d.value.is_none());
}

#[test]
fn component_writes_what_it_holds() {
    let button = Component {
        component_type: ComponentType::Button,
        style: Some(ButtonStyle::Danger),
        label: Some("stop".to_string()),
        emoji: None,
        custom_id: Some("s".to_string()),
        url: None,
        disabled: Some(false),
        default: None,
        components: vec![],
        options: vec![],
        placeholder: None,
    };
    let row = Component {
        component_type: ComponentType::ActionRow,
        style: None,
        label: None,
        emoji: None,
        custom_id: None,
        url: None,
        disabled: None,
        default: None,
        components: vec![button.clone()],
        options: vec![SelectOption {
            label: "l".to_string(),
            value: "v".to_string(),
            description: None,
            emoji: None,
            default: true,
        }],
        placeholder: None,
    };
    assert_eq!(
        button.encode(),
        obj(vec![
            ("type", Value::Unsigned(2)),
            ("style", Value::Unsigned(4)),
            ("label", text("stop")),
            ("custom_id", text("s")),
            ("disabled", Value::Bool(false)),
        ])
    );
    assert_eq!(
        row.encode(),
        obj(vec![
            ("type", Value::Unsigned(1)),
            ("components", Value::List(vec![button.encode()])),
            (
                "options",
                Value::List(vec![obj(vec![
                    ("label", text("l")),
                    ("value", text("v")),
                    ("default", Value::Bool(true)),
                ])])
            ),
        ])
    );
    let back = Component::decode(&row.encode()).unwrap();
    assert_eq!(back.components[0].label.as_deref(), Some("stop"));
    assert!(back.options[0].default);
}

#[test]
fn embed_builders_and_wire_form() {
    let empty = Embed::new();
    assert_eq!(empty.encode(), obj(vec![]));
    let when = DateTime::from_timestamp(1_462_015_105, 796_000_000).unwrap();
    let embed = Embed::new()
        .title("t".to_string())
        .description("d".to_string())
        .url("https://example.org".to_string())
        .timestamp(when)
        .color(Color::from_rgb(1, 2, 3))
        .image("https://example.org/i.png".to_string());
    assert_eq!(
        embed.encode(),
        obj(vec![
            ("title", text("t")),
            ("description", text("d")),
            ("url", text("https://example.org")),
            ("timestamp", text("2016-04-30T11:18:25.796Z")),
            ("color", Value::Unsigned(0x010203)),
            (
                "image",
                obj(vec![
                    ("url", text("https://example.org/i.png")),
                    ("height", Value::Null),
                    ("width", Value::Null),
                ])
            ),
        ])
    );
    let back = Embed::decode(&embed.encode()).unwrap();
    assert_eq!(back.title.as_deref(), Some("t"));
    assert!(back.timestamp.unwrap().same(&when));
    assert_eq!(back.color, Some(Color::from_rgb(1, 2, 3)));
    assert_eq!(back.image.unwrap().height, None);
    assert!(back.thumbnail.is_none());
    let read = Embed::decode(&parse(r#"{"thumbnail":{"url":"u"},"title":null}"#)).unwrap();
    assert_eq!(read.thumbnail.unwrap().url.as_deref(), Some("u"));
    assert!(read.title.is_none());
}

#[test]
fn emoji_from_text() {
    let custom = PartialEmoji::from_text("41771983429993937").unwrap();
    assert_eq!(custom.id, Some(Snowflake::from(41771983429993937)));
    assert!(custom.name.is_none() && !custom.animated);
    let standard = PartialEmoji::from_text("😀").unwrap();
    assert!(standard.id.is_none());
    assert_eq!(standard.name.as_deref(), Some("😀"));
    assert!(PartialEmoji::from_text("not an emoji").is_none());
    assert!(PartialEmoji::from_text("").is_none());
    assert!(PartialEmoji::from_parts(None, None).is_none());
    let both = PartialEmoji::from_parts(Some(Snowflake::from(3)), Some("x".to_string())).unwrap();
    assert_eq!(both.id, Some(Snowflake::from(3)));
    assert!(both.name.is_none());
    assert_eq!(
        PartialEmoji::from_id(Snowflake::from(5)).encode(),
        obj(vec![("id", text("5")), ("name", Value::Null), ("animated", Value::Bool(false))])
    );
    assert_eq!(PartialEmoji::from_glyph("🔥".to_string()).name.as_deref(), Some("🔥"));
    assert_eq!(PartialEmoji::from(Snowflake::from(8)).id, Some(Snowflake::from(8)));
    assert_eq!(PartialEmoji::try_from("12".to_string()).unwrap().id, Some(Snowflake::from(12)));
    assert_eq!(
        PartialEmoji::try_from("👍".to_string()).unwrap().name.as_deref(),
        Some("👍")
    );
    assert!(PartialEmoji::try_from("thumbs up".to_string()).is_err());
    let r = Reaction::decode(&parse(r#"{"count":1,"me":true,"emoji":{"name":"x","animated":true}}"#))
        .unwrap();
    assert!(r.emoji.animated && r.me);
}

#[test]
fn allowed_mentions_none() {
    let none = AllowedMentions::none();
    assert_eq!(none.parse, Some(vec![]));
    assert_eq!(none.encode(), obj(vec![("parse", Value::List(vec![]))]));
    assert_eq!(AllowedMentions { parse: None }.encode(), obj(vec![]));
}

#[test]
fn interaction_kind_checks() {
    let json = r#"{"id":"1","application_id":"2","type":3,"data":{"custom_id":"c","component_type":2,"values":["a","b"]},"token":"t","version":1,"guild_id":"7"}"#;
    let i = Interaction::decode(&parse(json)).unwrap();
    assert_eq!(i.interaction_type, InteractionType::Component);
    assert!(i.is_component_interaction());
    assert!(i.is_command_interaction());
    assert_eq!(i.data.values, vec!["a".to_string(), "b".to_string()]);
    assert_eq!(i.data.component_type, Some(ComponentType::Button));
    assert_eq!(i.guild_id.unwrap().value(), 7);
    let command = json.replace(r#""type":3"#, r#""type":2"#);
    let c = Interaction::decode(&parse(&command)).unwrap();
    assert!(!c.is_command_interaction());
    assert!(!c.is_component_interaction());
}

#[test]
fn other_records() {
    let app = Application::decode(&parse(r#"{"id":"5","flags":565248}"#)).unwrap();
    assert_eq!((app.id.value(), app.flags), (5, 565248));
    let cmd = ApplicationCommand::decode(&parse(
        r#"{"id":"1","application_id":"2","name":"ping","description":"pong"}"#,
    ))
    .unwrap();
    assert!(cmd.options.is_empty());
    assert_eq!(cmd.name, "ping");
    let vs = VoiceState::decode(&parse(
        r#"{"channel_id":null,"user_id":"3","session_id":"s","deaf":false,"mute":false,"self_deaf":true,"self_mute":false,"self_video":false,"suppress":false}"#,
    ))
    .unwrap();
    assert!(vs.channel_id.is_none() && vs.guild_id.is_none());
    assert!(vs.self_deaf && !vs.self_stream);
    assert_eq!(vs.user_id.value(), 3);
}
