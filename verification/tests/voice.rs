use gateway_codec::flags::SpeakingFlags;
use gateway_codec::snowflake::{GuildId, UserId};
use gateway_codec::voice::command::{
    Command, Heartbeat, Identify, Resume, SelectProtocol, SelectProtocolData,
};
use gateway_codec::voice::{Event, EventError, Speaking};
use gateway_codec::wire::{Decode, DecodeError, Encode, Entry, Number, Value};

fn text(s: &str) -> Value {
    Value::Text(s.to_string())
}

fn obj(entries: Vec<(&str, Value)>) -> Value {
    Value::Object(
        entries
            .into_iter()
            .map(|(k, v)| Entry { key: k.to_string(), value: v })
            .collect(),
    )
}

fn frame(op: u64, d: Value) -> Value {
    obj(vec![("op", Value::Unsigned(op)), ("d", d)])
}

#[test]
fn voice_hello() {
    let d = obj(vec![("heartbeat_interval", Value::Real(41250.0f64.to_bits()))]);
    let event = Event::decode(&frame(8, d)).unwrap();
    let hello = event.expect_hello().unwrap();
    match hello.heartbeat_interval {
        Number::Real(bits) => assert_eq!(f64::from_bits(bits), 41250.0),
        other => panic!("not a real number: {:?}", other),
    }
    let whole = Event::decode(&frame(8, obj(vec![("heartbeat_interval", Value::Unsigned(5000))])))
        .unwrap();
    assert_eq!(whole.expect_hello().unwrap().heartbeat_interval, Number::Unsigned(5000));
    assert_eq!(
        Event::decode(&frame(8, obj(vec![("heartbeat_interval", text("1"))]))).err(),
        Some(DecodeError::InvalidValue)
    );
}

#[test]
fn voice_table() {
    let ready = obj(vec![
        ("ssrc", Value::Unsigned(1)),
        ("ip", text("127.0.0.1")),
        ("port", Value::Unsigned(1234)),
        ("modes", Value::List(vec![text("xsalsa20_poly1305"), text("plain")])),
        ("heartbeat_interval", Value::Unsigned(1)),
    ]);
    let e = Event::decode(&frame(2, ready)).unwrap();
    assert!(e.is_ready_kind() && !e.is_heartbeat_ack());
    let r = e.expect_ready().unwrap();
    assert_eq!((r.ssrc, r.port), (1, 1234));
    assert_eq!(r.ip, "127.0.0.1");
    assert_eq!(r.modes, vec!["xsalsa20_poly1305".to_string(), "plain".to_string()]);

    let key: Vec<Value> = (0..32).map(|i| Value::Unsigned(i)).collect();
    let description = obj(vec![("mode", text("plain")), ("secret_key", Value::List(key))]);
    match Event::decode(&frame(4, description)).unwrap() {
        Event::SessionDescription(s) => {
            assert_eq!(s.mode, "plain");
            assert_eq!(s.secret_key.bytes[0], 0);
            assert_eq!(s.secret_key.bytes[31], 31);
            assert_eq!(s.to_text(), "SessionDescription { mode: plain }");
        }
        _ => panic!("not a session description"),
    }

    let speaking = obj(vec![("speaking", Value::Unsigned(5)), ("ssrc", Value::Unsigned(9))]);
    match Event::decode(&frame(5, speaking)).unwrap() {
        Event::Speaking(s) => {
            assert_eq!(s.speaking.bits(), 5);
            assert_eq!((s.delay, s.ssrc), (0, 9));
        }
        _ => panic!("not speaking"),
    }

    let ack = Event::decode(&frame(6, Value::Unsigned(77))).unwrap();
    assert!(ack.is_heartbeat_ack());
    match ack {
        Event::HeartbeatAck(a) => assert_eq!(a.nonce, 77),
        _ => panic!("not an ack"),
    }

    let resumed = Event::decode(&frame(9, obj(vec![("x", Value::Null)]))).unwrap();
    assert!(resumed.is_ready_kind());
    assert_eq!(resumed.expect_resumed(), Ok(()));

    for op in [0u64, 1, 3, 7, 10, 13, 255] {
        match Event::decode(&frame(op, text("anything"))).unwrap() {
            Event::Unknown(code) => assert_eq!(code as u64, op),
            _ => panic!("not unknown"),
        }
    }
}

#[test]
fn voice_frame_rules() {
    assert_eq!(
        Event::decode(&obj(vec![("op", Value::Unsigned(8))])).err(),
        Some(DecodeError::MissingField("d"))
    );
    assert_eq!(
        Event::decode(&obj(vec![("d", Value::Null)])).err(),
        Some(DecodeError::MissingField("op"))
    );
    assert_eq!(
        Event::decode(&obj(vec![
            ("op", Value::Unsigned(9)),
            ("d", Value::Null),
            ("op", Value::Unsigned(9)),
        ]))
        .err(),
        Some(DecodeError::DuplicateField("op"))
    );
    assert_eq!(
        Event::decode(&obj(vec![
            ("d", Value::Null),
            ("op", Value::Unsigned(9)),
            ("d", Value::Null),
        ]))
        .err(),
        Some(DecodeError::DuplicateField("d"))
    );
    assert_eq!(
        Event::decode(&obj(vec![("op", Value::Unsigned(256)), ("d", Value::Null)])).err(),
        Some(DecodeError::InvalidValue)
    );
    assert_eq!(Event::decode(&Value::Null).err(), Some(DecodeError::InvalidValue));
    let reordered = obj(vec![
        ("d", Value::Unsigned(3)),
        ("seq", Value::Unsigned(1)),
        ("op", Value::Unsigned(6)),
    ]);
    assert!(Event::decode(&reordered).unwrap().is_heartbeat_ack());
    let short_key = obj(vec![
        ("mode", text("plain")),
        ("secret_key", Value::List(vec![Value::Unsigned(1)])),
    ]);
    assert_eq!(Event::decode(&frame(4, short_key)).err(), Some(DecodeError::InvalidValue));
    let wide_flags = obj(vec![("speaking", Value::Unsigned(8)), ("ssrc", Value::Unsigned(9))]);
    assert_eq!(Event::decode(&frame(5, wide_flags)).err(), Some(DecodeError::InvalidValue));
}

#[test]
fn voice_accessor_misuse() {
    let e = Event::decode(&frame(9, Value::Null)).unwrap();
    assert_eq!(e.clone().expect_hello().err(), Some(EventError));
    assert_eq!(e.clone().expect_ready().err(), Some(EventError));
    let u = Event::decode(&frame(200, Value::Null)).unwrap();
    assert_eq!(u.clone().expect_resumed(), Err(EventError));
    assert!(!u.is_ready_kind());
    assert_eq!(EventError.to_text(), "Event error");
}

#[test]
fn voice_heartbeat_envelope() {
    let command = Command::from(Heartbeat::new(7));
    assert_eq!(command.op(), 3);
    assert!(command.is_heartbeat());
    assert_eq!(
        command.encode(),
        obj(vec![("op", Value::Unsigned(3)), ("d", Value::Unsigned(7))])
    );
}

#[test]
fn voice_command_envelopes() {
    let identify = Command::Identify(Identify {
        guild_id: GuildId::from(1u64),
        user_id: UserId::from(2u64),
        session_id: "s".to_string(),
        token: "t".to_string(),
    });
    assert_eq!(identify.op(), 0);
    assert!(!identify.is_heartbeat());
    assert_eq!(
        identify.encode(),
        obj(vec![
            ("op", Value::Unsigned(0)),
            (
                "d",
                obj(vec![
                    ("server_id", text("1")),
                    ("user_id", text("2")),
                    ("session_id", text("s")),
                    ("token", text("t")),
                ])
            ),
        ])
    );
    let select = Command::SelectProtocol(SelectProtocol {
        protocol: "udp".to_string(),
        data: SelectProtocolData { address: "1.2.3.4".to_string(), port: 80, mode: "m".to_string() },
    });
    assert_eq!(select.op(), 1);
    assert_eq!(
        select.encode(),
        obj(vec![
            ("op", Value::Unsigned(1)),
            (
                "d",
                obj(vec![
                    ("protocol", text("udp")),
                    (
                        "data",
                        obj(vec![
                            ("address", text("1.2.3.4")),
                            ("port", Value::Unsigned(80)),
                            ("mode", text("m")),
                        ])
                    ),
                ])
            ),
        ])
    );
    let speaking = Command::Speaking(Speaking {
        speaking: SpeakingFlags::from_bits(SpeakingFlags::MICROPHONE).unwrap(),
        delay: 0,
        ssrc: 4,
    });
    assert_eq!(speaking.op(), 5);
    assert_eq!(
        speaking.encode(),
        obj(vec![
            ("op", Value::Unsigned(5)),
            (
                "d",
                obj(vec![
                    ("speaking", Value::Unsigned(1)),
                    ("delay", Value::Unsigned(0)),
                    ("ssrc", Value::Unsigned(4)),
                ])
            ),
        ])
    );
    let resume = Command::from(Resume {
        guild_id: GuildId::from(1u64),
        session_id: "s".to_string(),
        token: "t".to_string(),
    });
    assert_eq!(resume.op(), 7);
    assert_eq!(
        resume.encode(),
        obj(vec![
            ("op", Value::Unsigned(7)),
            (
                "d",
                obj(vec![("server_id", text("1")), ("session_id", text("s")), ("token", text("t"))])
            ),
        ])
    );
}
