use gateway_codec::wire::{
    as_bool, as_text, as_unsigned, defaulted, entry, find, fresh, is_null, list, list_of, null,
    object, object_of, optional, owned_text, put, put_filled, put_some, put_value, required, text,
    unsigned, boolean, Decode, DecodeError, Encode, Entry, Number, SecretKey, Value,
};

fn sample() -> Vec<Entry> {
    vec![
        entry("a", Value::Unsigned(1)),
        entry("b", Value::Null),
        entry("a", Value::Unsigned(2)),
        entry("c", Value::Text("x".to_string())),
        entry("d", Value::List(vec![Value::Bool(true), Value::Bool(false)])),
    ]
}

#[test]
fn finding_keys() {
    let entries = sample();
    assert_eq!(find(&entries, "a"), Err(DecodeError::DuplicateField("a")));
    assert_eq!(find(&entries, "b"), Ok(Some(&Value::Null)));
    assert_eq!(find(&entries, "c"), Ok(Some(&Value::Text("x".to_string()))));
    assert_eq!(find(&entries, "e"), Ok(None));
    assert_eq!(find(&Vec::new(), "a"), Ok(None));
}

#[test]
fn reading_keys() {
    let entries = sample();
    assert_eq!(required::<String>(&entries, "c"), Ok("x".to_string()));
    assert_eq!(required::<String>(&entries, "e"), Err(DecodeError::MissingField("e")));
    assert_eq!(required::<String>(&entries, "b"), Err(DecodeError::InvalidValue));
    assert_eq!(required::<u64>(&entries, "a"), Err(DecodeError::DuplicateField("a")));
    assert_eq!(optional::<String>(&entries, "c"), Ok(Some("x".to_string())));
    assert_eq!(optional::<String>(&entries, "b"), Ok(None));
    assert_eq!(optional::<String>(&entries, "e"), Ok(None));
    assert_eq!(optional::<u64>(&entries, "c"), Err(DecodeError::InvalidValue));
    assert_eq!(optional::<u64>(&entries, "a"), Err(DecodeError::DuplicateField("a")));
    assert_eq!(defaulted::<String>(&entries, "e"), Ok(String::new()));
    assert_eq!(defaulted::<bool>(&entries, "e"), Ok(false));
    assert_eq!(defaulted::<u32>(&entries, "e"), Ok(0));
    assert_eq!(defaulted::<Vec<bool>>(&entries, "e"), Ok(vec![]));
    assert_eq!(defaulted::<Vec<bool>>(&entries, "d"), Ok(vec![true, false]));
    assert_eq!(defaulted::<String>(&entries, "b"), Err(DecodeError::InvalidValue));
    assert_eq!(defaulted::<String>(&entries, "a"), Err(DecodeError::DuplicateField("a")));
}

#[test]
fn numbers_by_width() {
    assert_eq!(u8::decode(&Value::Unsigned(255)), Ok(255));
    assert_eq!(u8::decode(&Value::Unsigned(256)), Err(DecodeError::InvalidValue));
    assert_eq!(u16::decode(&Value::Unsigned(65535)), Ok(65535));
    assert_eq!(u16::decode(&Value::Unsigned(65536)), Err(DecodeError::InvalidValue));
    assert_eq!(u32::decode(&Value::Unsigned(4294967295)), Ok(4294967295));
    assert_eq!(u32::decode(&Value::Unsigned(4294967296)), Err(DecodeError::InvalidValue));
    assert_eq!(u64::decode(&Value::Unsigned(u64::MAX)), Ok(u64::MAX));
    assert_eq!(u64::decode(&Value::Signed(-1)), Err(DecodeError::InvalidValue));
    assert_eq!(u64::decode(&Value::Real(1.0f64.to_bits())), Err(DecodeError::InvalidValue));
    assert_eq!(u64::decode(&Value::Text("1".to_string())), Err(DecodeError::InvalidValue));
    assert_eq!(bool::decode(&Value::Unsigned(1)), Err(DecodeError::InvalidValue));
    assert_eq!(String::decode(&Value::Null), Err(DecodeError::InvalidValue));
    assert_eq!(Number::decode(&Value::Signed(-3)), Ok(Number::Signed(-3)));
    assert_eq!(Number::decode(&Value::Real(7)), Ok(Number::Real(7)));
    assert_eq!(Number::decode(&Value::Null), Err(DecodeError::InvalidValue));
    assert_eq!(7u8.encode(), Value::Unsigned(7));
    assert_eq!(7u16.encode(), Value::Unsigned(7));
    assert_eq!(7u32.encode(), Value::Unsigned(7));
    assert_eq!(7u64.encode(), Value::Unsigned(7));
    assert_eq!(true.encode(), Value::Bool(true));
    assert_eq!("s".encode(), Value::Text("s".to_string()));
    assert_eq!("s".to_string().encode(), Value::Text("s".to_string()));
}

#[test]
fn lists_pairs_and_keys() {
    let l = Value::List(vec![Value::Unsigned(1), Value::Unsigned(2)]);
    assert_eq!(Vec::<u8>::decode(&l), Ok(vec![1, 2]));
    assert_eq!(<(u8, u8)>::decode(&l), Ok((1, 2)));
    assert_eq!((1u8, 2u8).encode(), l);
    assert_eq!(vec![1u8, 2].encode(), l);
    let mixed = Value::List(vec![Value::Unsigned(1), Value::Null, Value::Unsigned(300)]);
    assert_eq!(Vec::<u8>::decode(&mixed), Err(DecodeError::InvalidValue));
    assert_eq!(<(u8, u8)>::decode(&mixed), Err(DecodeError::InvalidValue));
    assert_eq!(Vec::<Option<u8>>::decode(&Value::List(vec![Value::Null, Value::Unsigned(4)])), Ok(vec![None, Some(4)]));
    assert_eq!(Vec::<u8>::decode(&Value::Null), Err(DecodeError::InvalidValue));
    assert_eq!(Option::<u8>::decode(&Value::Null), Ok(None));
    assert_eq!(Option::<u8>::decode(&Value::Unsigned(3)), Ok(Some(3)));
    assert_eq!(Some(3u8).encode(), Value::Unsigned(3));
    assert_eq!(None::<u8>.encode(), Value::Null);
    let key: Vec<Value> = (0..32).map(|i| Value::Unsigned(255 - i)).collect();
    let read = SecretKey::decode(&Value::List(key)).unwrap();
    assert_eq!(read.bytes[0], 255);
    assert_eq!(read.bytes[31], 224);
    let long: Vec<Value> = (0..33).map(Value::Unsigned).collect();
    assert!(SecretKey::decode(&Value::List(long)).is_err());
    let wide: Vec<Value> = (0..32).map(|i| Value::Unsigned(i * 10)).collect();
    assert!(SecretKey::decode(&Value::List(wide)).is_err());
}

#[test]
fn building_and_taking_apart() {
    let mut entries = fresh();
    put(&mut entries, "n", &5u8);
    put_some(&mut entries, "some", &Some(true));
    put_some(&mut entries, "none", &None::<bool>);
    put_filled(&mut entries, "filled", &vec![1u8]);
    put_filled(&mut entries, "empty", &Vec::<u8>::new());
    put_value(&mut entries, "v", null());
    let v = object(entries);
    assert_eq!(
        v,
        Value::Object(vec![
            entry("n", unsigned(5)),
            entry("some", boolean(true)),
            entry("filled", list(vec![unsigned(1)])),
            entry("v", Value::Null),
        ])
    );
    assert_eq!(object_of(&v).unwrap().len(), 4);
    assert_eq!(object_of(&Value::Null), Err(DecodeError::InvalidValue));
    assert_eq!(list_of(&list(vec![null()])).unwrap().len(), 1);
    assert!(list_of(&v).is_none());
    assert!(is_null(&null()) && !is_null(&v));
    assert_eq!(as_bool(&boolean(false)), Some(false));
    assert_eq!(as_bool(&unsigned(0)), None);
    assert_eq!(as_unsigned(&unsigned(9)), Some(9));
    assert_eq!(as_unsigned(&Value::Signed(9)), None);
    assert_eq!(as_text(&text("t")), Some(&"t".to_string()));
    assert_eq!(as_text(&owned_text("t".to_string())), Some(&"t".to_string()));
    assert_eq!(as_text(&null()), None);
    let copy = v.clone();
    assert_eq!(copy, v);
    let deep = list(vec![v.clone(), text("x"), Value::Signed(-1), Value::Real(3)]);
    assert_eq!(deep.clone(), deep);
}
