use grohuh::json::{int_field, member, Json, Number};
use grohuh::reading::{decode, decode_document, DataRecord, DecodeError, Field, GrowattMessage};

fn text(s: &str) -> Json {
    Json::String(s.to_string())
}

fn num(i: u64) -> Json {
    Json::Number(Number::PosInt(i))
}

fn object(members: Vec<(&str, Json)>) -> Json {
    Json::Object(members.into_iter().map(|(k, v)| (k.to_string(), v)).collect())
}

fn lookup<'a>(members: &'a Vec<(String, Json)>, name: &str) -> Option<&'a Json> {
    member(members, &name.to_string())
}

const GOOD: &[u8] =
    br#"{"device":"ABC123","time":"2023-05-01T12:00:00","buffered":"no","values":{"SOC":92,"pvstatus":1}}"#;

#[test]
fn decodes_a_reading() {
    let msg = decode(GOOD).unwrap();
    assert_eq!(msg.device, "ABC123");
    assert_eq!(msg.time, "2023-05-01T12:00:00");
    assert_eq!(msg.buffered, "no");
    assert_eq!(msg.values.len(), 2);
    assert_eq!(lookup(&msg.values, "SOC"), Some(&num(92)));
    assert_eq!(lookup(&msg.values, "pvstatus"), Some(&num(1)));
}

#[test]
fn payload_that_is_not_json_is_a_syntax_error() {
    assert_eq!(decode(b""), Err(DecodeError::Syntax));
    assert_eq!(decode(b"{"), Err(DecodeError::Syntax));
    assert_eq!(decode(b"not json"), Err(DecodeError::Syntax));
    assert_eq!(decode(b"{} trailing"), Err(DecodeError::Syntax));
    assert_eq!(decode(&[0xff, 0xfe]), Err(DecodeError::Syntax));
    assert_eq!(decode(br#"{"device": }"#), Err(DecodeError::Syntax));
}

#[test]
fn payload_that_is_not_an_object_is_refused() {
    assert_eq!(decode(b"null"), Err(DecodeError::NotAnObject));
    assert_eq!(decode(b"42"), Err(DecodeError::NotAnObject));
    assert_eq!(decode(br#""device""#), Err(DecodeError::NotAnObject));
    assert_eq!(decode(br#"["no","ABC","t",{}]"#), Err(DecodeError::NotAnObject));
}

#[test]
fn missing_device_is_refused() {
    assert_eq!(
        decode(br#"{"time":"t","buffered":"no","values":{}}"#),
        Err(DecodeError::Missing(Field::Device))
    );
}

#[test]
fn missing_time_is_refused() {
    assert_eq!(
        decode(br#"{"device":"d","buffered":"no","values":{}}"#),
        Err(DecodeError::Missing(Field::Time))
    );
}

#[test]
fn missing_buffered_is_refused() {
    assert_eq!(
        decode(br#"{"device":"d","time":"t","values":{}}"#),
        Err(DecodeError::Missing(Field::Buffered))
    );
}

#[test]
fn missing_values_is_refused() {
    assert_eq!(
        decode(br#"{"device":"d","time":"t","buffered":"no"}"#),
        Err(DecodeError::Missing(Field::Values))
    );
}

#[test]
fn values_that_are_no_mapping_are_refused() {
    for bad in ["null", "7", "\"x\"", "[1,2]", "true"] {
        let payload = format!(r#"{{"device":"d","time":"t","buffered":"no","values":{}}}"#, bad);
        assert_eq!(decode(payload.as_bytes()), Err(DecodeError::Invalid(Field::Values)));
    }
}

#[test]
fn envelope_members_must_be_strings() {
    assert_eq!(
        decode(br#"{"device":1,"time":"t","buffered":"no","values":{}}"#),
        Err(DecodeError::Invalid(Field::Device))
    );
    assert_eq!(
        decode(br#"{"device":"d","time":null,"buffered":"no","values":{}}"#),
        Err(DecodeError::Invalid(Field::Time))
    );
    assert_eq!(
        decode(br#"{"device":"d","time":"t","buffered":false,"values":{}}"#),
        Err(DecodeError::Invalid(Field::Buffered))
    );
}

#[test]
fn first_fault_in_field_order_is_reported() {
    assert_eq!(decode(b"{}"), Err(DecodeError::Missing(Field::Buffered)));
    assert_eq!(decode(br#"{"buffered":"no"}"#), Err(DecodeError::Missing(Field::Device)));
    assert_eq!(
        decode(br#"{"values":3,"time":4,"device":"d","buffered":"no"}"#),
        Err(DecodeError::Invalid(Field::Time))
    );
    assert_eq!(
        decode(br#"{"values":3,"device":5}"#),
        Err(DecodeError::Missing(Field::Buffered))
    );
}

#[test]
fn unknown_values_are_kept_as_they_came() {
    let payload = br#"{"device":"d","time":"t","buffered":"yes","values":{
        "SOC": 55, "brandnew": -3, "ratio": 1.5, "note": "hi", "flags": [true, null],
        "nested": {"a": {"b": 1}}, "big": 18446744073709551615}}"#;
    let msg = decode(payload).unwrap();
    assert_eq!(msg.values.len(), 7);
    assert_eq!(lookup(&msg.values, "SOC"), Some(&num(55)));
    assert_eq!(lookup(&msg.values, "brandnew"), Some(&Json::Number(Number::NegInt(-3))));
    assert_eq!(
        lookup(&msg.values, "ratio"),
        Some(&Json::Number(Number::Float(1.5f64.to_bits())))
    );
    assert_eq!(lookup(&msg.values, "note"), Some(&text("hi")));
    assert_eq!(
        lookup(&msg.values, "flags"),
        Some(&Json::Array(vec![Json::Bool(true), Json::Null]))
    );
    assert_eq!(
        lookup(&msg.values, "nested"),
        Some(&object(vec![("a", object(vec![("b", num(1))]))]))
    );
    assert_eq!(lookup(&msg.values, "big"), Some(&num(u64::MAX)));
    assert_eq!(lookup(&msg.values, "absent"), None);
}

#[test]
fn unknown_values_reach_the_persisted_document() {
    let payload = br#"{"device":"d","time":"t","buffered":"yes","values":{"SOC":55,"brandnew":-3,"ratio":0.25}}"#;
    let doc = DataRecord::from(decode(payload).unwrap()).into_document();
    let members = match doc {
        Json::Object(members) => members,
        other => panic!("not an object: {:?}", other),
    };
    assert_eq!(members.len(), 6);
    assert_eq!(lookup(&members, "buffered"), Some(&text("yes")));
    assert_eq!(lookup(&members, "device"), Some(&text("d")));
    assert_eq!(lookup(&members, "time"), Some(&text("t")));
    assert_eq!(lookup(&members, "SOC"), Some(&num(55)));
    assert_eq!(lookup(&members, "brandnew"), Some(&Json::Number(Number::NegInt(-3))));
    assert_eq!(
        lookup(&members, "ratio"),
        Some(&Json::Number(Number::Float(0.25f64.to_bits())))
    );
    assert_eq!(lookup(&members, "values"), None);
}

#[test]
fn unknown_top_level_members_are_ignored() {
    let payload = br#"{"extra":[1,2],"device":"d","time":"t","buffered":"no","values":{},"more":null}"#;
    let msg = decode(payload).unwrap();
    assert_eq!(
        msg,
        GrowattMessage {
            buffered: "no".to_string(),
            device: "d".to_string(),
            time: "t".to_string(),
            values: vec![],
        }
    );
}

#[test]
fn decoding_twice_gives_the_same_reading() {
    let first = decode(GOOD);
    let second = decode(GOOD);
    assert!(first.is_ok());
    assert_eq!(first, second);
    assert_eq!(decode(b"{}"), decode(b"{}"));
    assert_eq!(decode(b"]"), decode(b"]"));
}

#[test]
fn envelope_strings_pass_through_verbatim() {
    let payload = "{\"device\":\"\",\"time\":\"\\u00e9t\\u00e9 \\n\",\"buffered\":\"YES\",\"values\":{}}";
    let msg = decode(payload.as_bytes()).unwrap();
    assert_eq!(msg.device, "");
    assert_eq!(msg.time, "\u{e9}t\u{e9} \n");
    assert_eq!(msg.buffered, "YES");
}

#[test]
fn decode_document_reads_a_hand_built_value() {
    let doc = object(vec![
        ("values", object(vec![("SOC", num(91))])),
        ("time", text("now")),
        ("device", text("dev")),
        ("buffered", text("no")),
    ]);
    let msg = decode_document(doc).unwrap();
    assert_eq!(msg.device, "dev");
    assert_eq!(msg.time, "now");
    assert_eq!(msg.buffered, "no");
    assert_eq!(msg.values, vec![("SOC".to_string(), num(91))]);
}

#[test]
fn decode_document_takes_the_last_of_members_with_one_name() {
    let doc = object(vec![
        ("device", num(1)),
        ("device", text("second")),
        ("time", text("t")),
        ("buffered", text("no")),
        ("values", object(vec![])),
    ]);
    assert_eq!(decode_document(doc).unwrap().device, "second");
    let doc = object(vec![
        ("device", text("first")),
        ("device", num(2)),
        ("time", text("t")),
        ("buffered", text("no")),
        ("values", object(vec![])),
    ]);
    assert_eq!(decode_document(doc), Err(DecodeError::Invalid(Field::Device)));
}

#[test]
fn decode_document_refuses_what_is_no_object() {
    assert_eq!(decode_document(Json::Null), Err(DecodeError::NotAnObject));
    assert_eq!(decode_document(Json::Array(vec![])), Err(DecodeError::NotAnObject));
    assert_eq!(decode_document(text("x")), Err(DecodeError::NotAnObject));
}

#[test]
fn record_is_the_message_field_by_field() {
    let msg = decode(GOOD).unwrap();
    let record = DataRecord::from(msg);
    assert_eq!(record.buffered, "no");
    assert_eq!(record.device, "ABC123");
    assert_eq!(record.time, "2023-05-01T12:00:00");
    assert_eq!(record.values.len(), 2);
    assert_eq!(lookup(&record.values, "SOC"), Some(&num(92)));
}

#[test]
fn soc_is_tracked_where_it_is_an_integer() {
    let soc_of = |values: &str| {
        let payload = format!(r#"{{"device":"d","time":"t","buffered":"no","values":{}}}"#, values);
        DataRecord::from(decode(payload.as_bytes()).unwrap()).track().soc
    };
    assert_eq!(soc_of(r#"{"SOC":92}"#), Some(92));
    assert_eq!(soc_of(r#"{"SOC":0}"#), Some(0));
    assert_eq!(soc_of(r#"{"SOC":-5}"#), Some(-5));
    assert_eq!(soc_of(r#"{"SOC":9223372036854775807}"#), Some(i64::MAX));
    assert_eq!(soc_of(r#"{"SOC":-9223372036854775808}"#), Some(i64::MIN));
    assert_eq!(soc_of(r#"{"SOC":9223372036854775808}"#), None);
    assert_eq!(soc_of(r#"{"SOC":92.0}"#), None);
    assert_eq!(soc_of(r#"{"SOC":"92"}"#), None);
    assert_eq!(soc_of(r#"{"SOC":null}"#), None);
    assert_eq!(soc_of(r#"{"soc":92}"#), None);
    assert_eq!(soc_of(r#"{}"#), None);
}

#[test]
fn document_is_flat_with_the_envelope_first() {
    let record = DataRecord {
        buffered: "no".to_string(),
        device: "d".to_string(),
        time: "t".to_string(),
        values: vec![("a".to_string(), num(1)), ("b".to_string(), num(2))],
    };
    assert_eq!(
        record.into_document(),
        object(vec![
            ("buffered", text("no")),
            ("device", text("d")),
            ("time", text("t")),
            ("a", num(1)),
            ("b", num(2)),
        ])
    );
}

#[test]
fn value_named_like_an_envelope_member_takes_its_place() {
    let record = DataRecord {
        buffered: "no".to_string(),
        device: "d".to_string(),
        time: "t".to_string(),
        values: vec![("device".to_string(), num(7))],
    };
    let members = match record.into_document() {
        Json::Object(members) => members,
        other => panic!("not an object: {:?}", other),
    };
    assert_eq!(lookup(&members, "device"), Some(&num(7)));
    assert_eq!(lookup(&members, "time"), Some(&text("t")));
}

#[test]
fn numbers_keep_their_form() {
    assert_eq!(Json::parse(b"0"), Some(num(0)));
    assert_eq!(Json::parse(b"-1"), Some(Json::Number(Number::NegInt(-1))));
    assert_eq!(Json::parse(b"-0"), Some(Json::Number(Number::Float((-0.0f64).to_bits()))));
    assert_eq!(Json::parse(b"2.5e3"), Some(Json::Number(Number::Float(2500.0f64.to_bits()))));
    assert_eq!(Json::parse(b"1e999"), None);
    assert_eq!(Json::parse(b" [ ] "), Some(Json::Array(vec![])));
    assert_eq!(Json::parse(b"nul"), None);
}

#[test]
fn parsed_object_has_each_name_once() {
    let doc = Json::parse(br#"{"a":1,"b":2,"a":3}"#).unwrap();
    let members = match doc {
        Json::Object(members) => members,
        other => panic!("not an object: {:?}", other),
    };
    assert_eq!(members.len(), 2);
    assert_eq!(lookup(&members, "a"), Some(&num(3)));
    assert_eq!(lookup(&members, "b"), Some(&num(2)));
}

#[test]
fn as_i64_takes_integers_in_range() {
    assert_eq!(num(5).as_i64(), Some(5));
    assert_eq!(num(i64::MAX as u64).as_i64(), Some(i64::MAX));
    assert_eq!(num(i64::MAX as u64 + 1).as_i64(), None);
    assert_eq!(Json::Number(Number::NegInt(-8)).as_i64(), Some(-8));
    assert_eq!(Json::Number(Number::Float(5.0f64.to_bits())).as_i64(), None);
    assert_eq!(text("5").as_i64(), None);
    assert_eq!(Json::Null.as_i64(), None);
    assert_eq!(Json::Bool(true).as_i64(), None);
}

#[test]
fn member_lookup_takes_the_last_match() {
    let members = vec![
        ("k".to_string(), num(1)),
        ("other".to_string(), num(2)),
        ("k".to_string(), num(3)),
    ];
    assert_eq!(lookup(&members, "k"), Some(&num(3)));
    assert_eq!(lookup(&members, "other"), Some(&num(2)));
    assert_eq!(lookup(&members, "K"), None);
    assert_eq!(lookup(&vec![], "k"), None);
    assert_eq!(int_field(&members, "k"), Some(3));
    assert_eq!(int_field(&members, "none"), None);
}

#[test]
fn deeply_nested_payload_is_a_syntax_error_not_a_crash() {
    let mut payload = String::from(r#"{"device":"d","time":"t","buffered":"no","values":{"deep":"#);
    for _ in 0..200 {
        payload.push('[');
    }
    for _ in 0..200 {
        payload.push(']');
    }
    payload.push_str("}}");
    assert_eq!(decode(payload.as_bytes()), Err(DecodeError::Syntax));
}

#[test]
fn copy_of_a_value_is_the_same_value() {
    let doc = Json::parse(
        br#"{"a":[1,-2,3.5,"x",null,true,{"b":{"c":[]}}],"d":{"e":"f"},"g":18446744073709551615}"#,
    )
    .unwrap();
    assert_eq!(doc.clone(), doc);
    assert_eq!(Json::Null.clone(), Json::Null);
    assert_eq!(text("abc").clone(), text("abc"));
    assert_eq!(Json::Array(vec![]).clone(), Json::Array(vec![]));
}

#[test]
fn copy_of_a_reading_is_the_same_reading() {
    let msg = decode(GOOD).unwrap();
    let copy = msg.clone();
    assert_eq!(copy, msg);
    let record = DataRecord::from(msg);
    assert_eq!(record.clone(), record);
    assert_eq!(record.clone().into_document(), DataRecord::from(copy).into_document());
}
