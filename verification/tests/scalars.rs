use chrono::{NaiveDate, Utc};
use gateway_codec::color::{Color, MAX_COLOR};
use gateway_codec::datetime::DateTime;
use gateway_codec::flags::{
    decode_strict, decode_truncating, BitFlagsVisitor, Intents, MessageFlags, SpeakingFlags,
    UserFlags,
};
use gateway_codec::idset::IdSet;
use gateway_codec::kinds::{ChannelType, InteractionType, MessageType, Status};
use gateway_codec::snowflake::{ChannelId, GuildId, RoleId, Snowflake, UserId};
use gateway_codec::text::{parse_u64, render_u64};
use gateway_codec::wire::{Decode, DecodeError, Encode, Value};

fn text(s: &str) -> Value {
    Value::Text(s.to_string())
}

#[test]
fn snowflake() {
    let id = Snowflake::from(175_928_847_299_117_063);
    let time = NaiveDate::from_ymd_opt(2016, 4, 30)
        .unwrap()
        .and_hms_milli_opt(11, 18, 25, 796)
        .unwrap();
    let time: chrono::DateTime<Utc> = time.and_utc();
    let made = id.date_time();
    let inner = chrono::DateTime::from_timestamp(made.seconds(), made.nanos()).unwrap();
    assert_eq!(inner, time);
    assert_eq!(id.worker(), 1);
    assert_eq!(id.process(), 0);
    assert_eq!(id.increment(), 7);
}

#[test]
fn bitflags() {
    let all = Intents::from_bits(Intents::GUILD_ALL).unwrap();
    assert_eq!(all.encode(), Value::Unsigned(69631));
    let back = Intents::decode(&Value::Unsigned(69631)).unwrap();
    assert_eq!(back, all);
    assert_eq!(back.bits(), 69631);
}

#[test]
fn snowflake_timestamp_text() {
    let id = Snowflake::from(175_928_847_299_117_063);
    assert_eq!(id.date_time().to_text(), "2016-04-30T11:18:25.796Z");
    assert_eq!(id.date_time().seconds(), 1_462_015_105);
    assert_eq!(id.date_time().nanos(), 796_000_000);
}

#[test]
fn snowflake_extremes() {
    let zero = Snowflake::from(0);
    assert_eq!(zero.date_time().seconds(), 1_420_070_400);
    assert_eq!(zero.worker(), 0);
    let top = Snowflake::from(u64::MAX);
    assert_eq!(top.worker(), 31);
    assert_eq!(top.process(), 31);
    assert_eq!(top.increment(), 4095);
    assert_eq!(top.date_time().seconds(), 5_818_116_911);
    assert_eq!(top.date_time().nanos(), 103_000_000);
}

#[test]
fn snowflake_round_trip_from_text() {
    for v in [0u64, 1, 9, 10, 175_928_847_299_117_063, u64::MAX] {
        let id = Snowflake::decode(&text(&v.to_string())).unwrap();
        assert_eq!(id.value(), v);
        assert_eq!(id.encode(), text(&v.to_string()));
    }
}

#[test]
fn snowflake_round_trip_from_number() {
    for v in [0u64, 42, 292_738_137_426_362_368, u64::MAX] {
        let id = Snowflake::decode(&Value::Unsigned(v)).unwrap();
        assert_eq!(id.value(), v);
        assert_eq!(id.encode(), text(&v.to_string()));
    }
}

#[test]
fn snowflake_refuses_other_tokens() {
    assert_eq!(Snowflake::decode(&text("12a")), Err(DecodeError::InvalidValue));
    assert_eq!(Snowflake::decode(&text("")), Err(DecodeError::InvalidValue));
    assert_eq!(Snowflake::decode(&text("-1")), Err(DecodeError::InvalidValue));
    assert_eq!(
        Snowflake::decode(&text("18446744073709551616")),
        Err(DecodeError::InvalidValue)
    );
    assert_eq!(Snowflake::decode(&Value::Null), Err(DecodeError::InvalidValue));
    assert_eq!(Snowflake::decode(&Value::Signed(-4)), Err(DecodeError::InvalidValue));
    assert_eq!(Snowflake::decode(&Value::Bool(true)), Err(DecodeError::InvalidValue));
    assert_eq!(Snowflake::decode(&Value::List(vec![])), Err(DecodeError::InvalidValue));
}

#[test]
fn typed_identifiers_share_the_wire_form() {
    let channel = ChannelId::decode(&text("81384788765712384")).unwrap();
    let role = RoleId::decode(&Value::Unsigned(81384788765712384)).unwrap();
    assert_eq!(channel.value(), role.value());
    assert_eq!(channel.encode(), role.encode());
    assert_eq!(channel.snowflake(), Snowflake::from(81384788765712384));
    assert_eq!(u64::from(GuildId::from(7u64)), 7);
    assert_eq!(GuildId::from(&Snowflake::from(7)), GuildId::from(Snowflake::from(7)));
    assert_eq!(GuildId::from(&GuildId::from(7u64)).value(), 7);
    assert_eq!(UserId::from_text("15").unwrap().to_text(), "15");
    assert!(UserId::from_text("x").is_none());
}

#[test]
fn decimal_text() {
    assert_eq!(render_u64(0), "0");
    assert_eq!(render_u64(7), "7");
    assert_eq!(render_u64(1000), "1000");
    assert_eq!(render_u64(u64::MAX), "18446744073709551615");
    assert_eq!(parse_u64("0"), Some(0));
    assert_eq!(parse_u64("+17"), Some(17));
    assert_eq!(parse_u64("007"), Some(7));
    assert_eq!(parse_u64("18446744073709551615"), Some(u64::MAX));
    assert_eq!(parse_u64("18446744073709551616"), None);
    assert_eq!(parse_u64("+"), None);
    assert_eq!(parse_u64(""), None);
    assert_eq!(parse_u64("1 "), None);
    assert_eq!(parse_u64("١٢"), None);
    for s in ["0", "+17", "007", "", "+", "-3", "99999999999999999999", "12x"] {
        assert_eq!(parse_u64(s), s.parse::<u64>().ok());
    }
}

#[test]
fn snowflake_database_form() {
    assert_eq!(Snowflake::from_signed(-1).value(), u64::MAX);
    assert_eq!(Snowflake::from(u64::MAX).to_signed(), -1);
    assert_eq!(Snowflake::from_signed(5).to_signed(), 5);
}

#[test]
fn strict_flags_refuse_unknown_bits() {
    assert_eq!(
        Intents::decode(&Value::Unsigned(1 << 17)),
        Err(DecodeError::InvalidValue)
    );
    assert_eq!(
        Intents::decode(&Value::Unsigned(1 << 32)),
        Err(DecodeError::InvalidValue)
    );
    assert_eq!(
        SpeakingFlags::decode(&Value::Unsigned(8)),
        Err(DecodeError::InvalidValue)
    );
    assert_eq!(
        MessageFlags::decode(&Value::Unsigned(32)),
        Err(DecodeError::InvalidValue)
    );
    assert_eq!(MessageFlags::decode(&text("1")), Err(DecodeError::InvalidValue));
    assert_eq!(
        decode_strict::<Intents>(&Value::Unsigned(Intents::ALL as u64 + (1 << 30))),
        Err(DecodeError::InvalidValue)
    );
}

#[test]
fn strict_flags_round_trip() {
    for bits in [0u32, 1, 5, 7] {
        let flags = SpeakingFlags::decode(&Value::Unsigned(bits as u64)).unwrap();
        assert_eq!(flags.bits(), bits);
        assert_eq!(flags.encode(), Value::Unsigned(bits as u64));
    }
    let all = Intents::decode(&Value::Unsigned(Intents::ALL as u64)).unwrap();
    assert_eq!(all.encode(), Value::Unsigned(Intents::ALL as u64));
    assert_eq!(all, Intents::all());
    assert_eq!(MessageFlags::decode(&Value::Unsigned(31)).unwrap().bits(), 31);
}

#[test]
fn truncating_flags_drop_unknown_bits() {
    let input: u64 = (1 << 40) | (1 << 5) | UserFlags::VERIFIED_BOT as u64 | 1;
    let flags = UserFlags::decode(&Value::Unsigned(input)).unwrap();
    assert_eq!(flags.bits(), UserFlags::VERIFIED_BOT | UserFlags::DISCORD_EMPLOYEE);
    let written = match flags.encode() {
        Value::Unsigned(n) => n,
        other => panic!("not a number: {:?}", other),
    };
    assert_eq!(written ^ input, (1 << 40) | (1 << 5));
    assert_eq!(
        UserFlags::decode(&Value::Unsigned(u64::MAX)).unwrap().bits(),
        UserFlags::ALL_BITS
    );
    assert_eq!(UserFlags::decode(&Value::Unsigned(4195072)).unwrap().bits(), 4195072);
    assert_eq!(UserFlags::decode(&Value::Null), Err(DecodeError::InvalidValue));
    assert_eq!(
        decode_truncating::<SpeakingFlags>(&Value::Unsigned(0xF9)).unwrap().bits(),
        1
    );
}

#[test]
fn flag_visitor_policies() {
    let visitor: BitFlagsVisitor<Intents> = BitFlagsVisitor::new();
    assert_eq!(visitor.visit_strict(3).unwrap().bits(), 3);
    assert_eq!(visitor.visit_strict(1 << 19), Err(DecodeError::InvalidValue));
    assert_eq!(visitor.visit_truncating((1 << 19) | 2).bits(), 2);
}

#[test]
fn flag_set_operations() {
    let a = Intents::from_bits(Intents::GUILDS | Intents::GUILD_MESSAGES).unwrap();
    let b = Intents::from_bits(Intents::GUILD_MESSAGES | Intents::DIRECT_MESSAGES).unwrap();
    assert_eq!(a.union(&b).bits(), 1 | (1 << 9) | (1 << 12));
    assert_eq!(a.intersection(&b).bits(), 1 << 9);
    assert_eq!(a.difference(&b).bits(), 1);
    assert!(a.contains(&Intents::from_bits(Intents::GUILDS).unwrap()));
    assert!(!a.contains(&b));
    assert!(Intents::empty().is_empty());
    assert!(Intents::from_bits(1 << 18).is_none());
    assert_eq!(Intents::from_bits_truncate(u32::MAX).bits(), Intents::ALL_BITS);
    assert_eq!(Intents::ALL, Intents::ALL_BITS);
    assert_eq!(Intents::DIRECT_MESSAGE_ALL, 7 << 12);
}

#[test]
fn color_bounds() {
    assert_eq!(Color::decode(&Value::Unsigned(16777215)).unwrap().value(), 16777215);
    assert_eq!(Color::decode(&Value::Unsigned(16777216)), Err(DecodeError::InvalidValue));
    assert_eq!(Color::decode(&Value::Unsigned(0)).unwrap().value(), 0);
    assert_eq!(Color::decode(&text("#ffffff")), Err(DecodeError::InvalidValue));
    assert_eq!(Color::decode(&Value::Signed(-1)), Err(DecodeError::InvalidValue));
    assert!(Color::from_u32(MAX_COLOR).is_some());
    assert!(Color::from_u32(MAX_COLOR + 1).is_none());
    assert!(Color::from_u64(u64::MAX).is_none());
    assert_eq!(Color::from_u64(0x5865f2).unwrap().value(), Color::BLURPLE);
}

#[test]
fn color_prefixes_agree() {
    let a = Color::from_text("#1a2b3c").unwrap();
    let b = Color::from_text("0x1a2b3c").unwrap();
    let c = Color::from_text("1A2B3C").unwrap();
    assert_eq!(a, b);
    assert_eq!(a, c);
    assert_eq!(a.value(), 0x1a2b3c);
    assert_eq!(a.encode(), Value::Unsigned(0x1a2b3c));
}

#[test]
fn color_text_is_six_hex_digits() {
    for bad in ["", "#", "0x", "#12345", "#1234567", "#12345g", "0X1a2b3c", "#+1a2b3", "1a2b3", "#ééé"] {
        assert!(Color::from_text(bad).is_none(), "{}", bad);
    }
    assert_eq!(Color::from_text("000000").unwrap().value(), 0);
    assert_eq!(Color::from_text("#FFFFFF").unwrap().value(), MAX_COLOR);
    assert_eq!(Color::from_text("0x0x1234"), None);
    assert_eq!("#5865f2".parse::<Color>(), Ok(Color::named(Color::BLURPLE)));
    assert_eq!("5865f".parse::<Color>(), Err(()));
    assert_eq!(Color::try_from(0xffffffu32).unwrap().value(), MAX_COLOR);
    assert_eq!(Color::try_from(0x1000000u32), Err(()));
    assert_eq!(Color::try_from(7u64).unwrap().value(), 7);
    assert_eq!(Color::try_from(u64::MAX), Err(()));
}

#[test]
fn color_parts_and_text() {
    let c = Color::from_rgb(0x1a, 0x2b, 0x3c);
    assert_eq!(c.value(), 0x1a2b3c);
    assert_eq!(c.rgb(), [0x1a, 0x2b, 0x3c]);
    assert_eq!(c.to_text(), "#1a2b3c");
    assert_eq!(Color::from_rgb(0, 0, 0).to_text(), "#000000");
    assert_eq!(Color::from_rgb(255, 255, 255).value(), Color::WHITE);
    assert_eq!(Color::default().value(), Color::DEFAULT);
    assert_eq!(u32::from(Color::named(Color::RED)), 0xed4245);
    assert_eq!(Color::named(Color::NOT_QUITE_BLACK).rgb(), [0x23, 0x27, 0x2a]);
}

#[test]
fn timestamp_reads_iso_8601() {
    let t = DateTime::decode(&text("2023-01-01T00:00:00.000000+00:00")).unwrap();
    assert_eq!(t.seconds(), 1_672_531_200);
    assert_eq!(t.nanos(), 0);
    let u = DateTime::decode(&text("2016-04-30T13:18:25.796+02:00")).unwrap();
    assert_eq!(u.seconds(), 1_462_015_105);
    assert_eq!(u.nanos(), 796_000_000);
    assert_eq!(u.encode(), text("2016-04-30T11:18:25.796Z"));
    assert_eq!(DateTime::decode(&text("yesterday")), Err(DecodeError::InvalidValue));
    assert_eq!(DateTime::decode(&text("")), Err(DecodeError::InvalidValue));
    assert_eq!(DateTime::decode(&Value::Unsigned(5)), Err(DecodeError::InvalidValue));
}

#[test]
fn timestamp_range_and_order() {
    assert!(DateTime::from_timestamp(0, 0).is_some());
    assert!(DateTime::from_timestamp(8_210_266_876_799, 999_999_999).is_some());
    assert!(DateTime::from_timestamp(8_210_266_876_800, 0).is_none());
    assert!(DateTime::from_timestamp(-8_334_601_228_800, 0).is_some());
    assert!(DateTime::from_timestamp(-8_334_601_228_801, 0).is_none());
    assert!(DateTime::from_timestamp(59, 1_500_000_000).is_some());
    assert!(DateTime::from_timestamp(58, 1_500_000_000).is_none());
    assert!(DateTime::from_timestamp(-1, 1_000_000_000).is_some());
    assert!(DateTime::from_timestamp(0, 2_000_000_000).is_none());
    for (s, n) in [(0i64, 0u32), (8_210_266_876_799, 999_999_999), (8_210_266_876_800, 0),
        (-8_334_601_228_800, 0), (-8_334_601_228_801, 0), (59, 1_500_000_000),
        (58, 1_500_000_000), (-1, 1_000_000_000), (-2, 1_000_000_000)] {
        assert_eq!(
            DateTime::from_timestamp(s, n).is_some(),
            chrono::DateTime::from_timestamp(s, n).is_some(),
            "{} {}", s, n
        );
    }
    let a = DateTime::from_timestamp(10, 5).unwrap();
    let b = DateTime::from_timestamp(10, 6).unwrap();
    let c = DateTime::from_timestamp(11, 0).unwrap();
    assert!(a.before(&b) && b.before(&c) && a.before(&c));
    assert!(!b.before(&a) && !a.before(&a));
    assert!(a.same(&a) && !a.same(&b));
    assert_eq!(DateTime::from_millis(1_462_015_105_796).seconds(), 1_462_015_105);
}

#[test]
fn timestamp_difference() {
    let a = DateTime::from_timestamp(100, 500_000_000).unwrap();
    let b = DateTime::from_timestamp(40, 250_000_000).unwrap();
    let d = a.since(&b);
    assert_eq!((d.seconds, d.nanos), (60, 250_000_000));
    let e = b.since(&a);
    assert_eq!((e.seconds, e.nanos), (-60, -250_000_000));
    let passed = DateTime::from_timestamp(0, 0).unwrap().time_passed();
    assert!(passed.seconds > 1_600_000_000);
    assert!(DateTime::now().seconds() > 1_600_000_000);
}

#[test]
fn kinds_by_number() {
    assert_eq!(ChannelType::decode(&Value::Unsigned(0)).unwrap(), ChannelType::GuildText);
    assert_eq!(ChannelType::decode(&Value::Unsigned(15)).unwrap(), ChannelType::GuildForum);
    assert_eq!(ChannelType::decode(&Value::Unsigned(7)).unwrap(), ChannelType::Unknown);
    assert_eq!(ChannelType::decode(&Value::Unsigned(255)).unwrap(), ChannelType::Unknown);
    assert_eq!(ChannelType::decode(&Value::Unsigned(256)), Err(DecodeError::InvalidValue));
    assert_eq!(ChannelType::decode(&text("0")), Err(DecodeError::InvalidValue));
    assert_eq!(ChannelType::GuildVoice.encode(), Value::Unsigned(2));
    assert_eq!(ChannelType::Unknown.encode(), Value::Unsigned(255));
    assert_eq!(MessageType::from_repr(19), MessageType::Reply);
    assert_eq!(MessageType::from_repr(13), MessageType::Unknown);
    assert_eq!(MessageType::StageTopic.repr(), 31);
    assert!(MessageType::Default.is_textual());
    assert!(MessageType::Reply.is_textual());
    assert!(MessageType::ApplicationCommand.is_textual());
    assert!(MessageType::ThreadStarterMessage.is_textual());
    assert!(!MessageType::Call.is_textual());
    assert!(!MessageType::Unknown.is_textual());
    assert!(InteractionType::Command.is_command_interaction());
    assert!(!InteractionType::Command.is_component_interaction());
    assert!(InteractionType::Component.is_component_interaction());
    assert!(!InteractionType::Ping.is_command_interaction());
}

#[test]
fn status_by_word() {
    assert_eq!(Status::decode(&text("dnd")).unwrap(), Status::DoNotDisturb);
    assert_eq!(Status::decode(&text("online")).unwrap(), Status::Online);
    assert_eq!(Status::decode(&text("Online")), Err(DecodeError::InvalidValue));
    assert_eq!(Status::decode(&Value::Unsigned(0)), Err(DecodeError::InvalidValue));
    assert_eq!(Status::Invisible.encode(), text("invisible"));
    assert_eq!(Status::Idle.name(), "idle");
    assert_eq!(Status::from_name("offline"), Some(Status::Offline));
}

#[test]
fn identifier_sets_keep_each_member_once() {
    let list = Value::List(vec![text("3"), Value::Unsigned(1), text("3"), text("2"), text("1")]);
    let set = IdSet::<RoleId>::decode(&list).unwrap();
    assert_eq!(set.len(), 3);
    assert!(set.contains(&RoleId::from(1u64)));
    assert!(set.contains(&RoleId::from(2u64)));
    assert!(set.contains(&RoleId::from(3u64)));
    assert!(!set.contains(&RoleId::from(4u64)));
    assert_eq!(set.get(0), RoleId::from(3u64));
    assert_eq!(set.encode(), Value::List(vec![text("3"), text("1"), text("2")]));
    let mut grown = set.clone();
    assert!(grown.insert(RoleId::from(9u64)));
    assert!(!grown.insert(RoleId::from(9u64)));
    assert_eq!(grown.len(), 4);
    assert!(IdSet::<RoleId>::decode(&Value::List(vec![])).unwrap().is_empty());
    assert!(IdSet::<RoleId>::decode(&Value::List(vec![text("x")])).is_err());
    assert!(IdSet::<RoleId>::decode(&text("1")).is_err());
}
