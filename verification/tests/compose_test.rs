use async_sockets::{EventSchema, EventValue, JsonValue, VariantDecl, VariantFields};
use serde_json::Value;

fn to_serde(v: &JsonValue) -> Value {
    match v {
        JsonValue::Null => Value::Null,
        JsonValue::Bool(b) => Value::Bool(*b),
        JsonValue::Number(n) => serde_json::from_str(n).unwrap(),
        JsonValue::Str(s) | JsonValue::Escaped(s) => Value::String(s.clone()),
        JsonValue::Array(items) => Value::Array(items.iter().map(to_serde).collect()),
        JsonValue::Object(entries) => {
            let mut m = serde_json::Map::new();
            for (k, v) in entries {
                m.insert(k.clone(), to_serde(v));
            }
            Value::Object(m)
        }
    }
}

fn from_serde(v: Value) -> JsonValue {
    match v {
        Value::Null => JsonValue::Null,
        Value::Bool(b) => JsonValue::Bool(b),
        Value::Number(n) => JsonValue::Number(n.to_string()),
        Value::String(s) => JsonValue::Str(s),
        Value::Array(items) => JsonValue::Array(items.into_iter().map(from_serde).collect()),
        Value::Object(m) => JsonValue::Object(m.into_iter().map(|(k, v)| (k, from_serde(v))).collect()),
    }
}

fn schema(variants: &[(&str, &[&str])]) -> EventSchema {
    let decls = variants
        .iter()
        .map(|(name, fields)| VariantDecl {
            name: name.to_string(),
            fields: VariantFields::Named(fields.iter().map(|f| f.to_string()).collect()),
        })
        .collect();
    EventSchema::new(decls).unwrap()
}

fn event(variant: usize, args: &[Value]) -> EventValue {
    EventValue { variant, args: args.iter().cloned().map(from_serde).collect() }
}

/// Writes an event, reads the text back, and finds the same event.
fn check_composes(schema: &EventSchema, variant: usize, args: &[Value]) {
    let ser = serde_json::to_string(&to_serde(&schema.encode_event(event(variant, args)))).unwrap();
    let de = schema.decode_event(from_serde(serde_json::from_str(&ser).unwrap())).unwrap();
    assert_eq!(de.variant, variant);
    assert_eq!(de.args.iter().map(to_serde).collect::<Vec<_>>(), args.to_vec());
}

/// Reads an event from a text and writes it back as the same text.
fn check_composes_str(schema: &EventSchema, ser: &str) {
    let de = schema.decode_event(from_serde(serde_json::from_str(ser).unwrap())).unwrap();
    let re_ser = serde_json::to_string(&to_serde(&schema.encode_event(de))).unwrap();
    assert_eq!(ser, re_ser);
}

fn response_text(schema: &EventSchema, variant: usize, args: &[Value]) -> String {
    serde_json::to_string(&to_serde(&schema.encode_response(event(variant, args)))).unwrap()
}

fn t1(v1: u16, v2: bool, s: &str, n: u64) -> Value {
    let mut m = serde_json::Map::new();
    m.insert("v1".to_string(), Value::from(v1));
    m.insert("v2".to_string(), Value::from(v2));
    m.insert("v3".to_string(), Value::Array(vec![Value::from(s), Value::from(n)]));
    Value::Object(m)
}

#[test]
fn compose_simple() {
    let test = schema(&[("TestMsg1", &["id"])]);

    check_composes(&test, 0, &[Value::from(45u64)]);
    check_composes_str(&test, r#"{"event":"test_msg1","args":[10]}"#);
}

#[test]
fn compose_large() {
    let test = schema(&[("TestMsg1", &["id", "name", "tag"])]);

    check_composes(
        &test,
        0,
        &[
            Value::from(vec![1u64, 2, 3, 4, 8, 10, 200, 19392]),
            Value::from("test message!"),
            Value::from(true),
        ],
    );
    check_composes_str(
        &test,
        r#"{"event":"test_msg1","args":[[8,16,24,32,40,48,56,64],"new string",false]}"#,
    );
}

#[test]
fn compose_composite() {
    let enum_name = schema(&[("MessageOne", &["t1", "t2"])]);

    check_composes(&enum_name, 0, &[t1(84, true, "hi bokus", 1023), Value::from(false)]);
    check_composes_str(
        &enum_name,
        r#"{"event":"message_one","args":[{"v1":101,"v2":false,"v3":["new message",1010101]},true]}"#,
    );
}

#[test]
fn compose_multiple_messages() {
    let new_message = schema(&[("First", &["id"]), ("Second", &["json"]), ("Third", &["done"])]);

    check_composes(&new_message, 0, &[Value::from("1209fj0d-90-fd")]);
    check_composes_str(&new_message, r#"{"event":"first","args":["big string"]}"#);

    check_composes(&new_message, 1, &[Value::from("{ \"is this a test\": true }")]);
    check_composes_str(&new_message, r#"{"event":"second","args":["another string"]}"#);

    check_composes(&new_message, 2, &[Value::from(true)]);
    check_composes_str(&new_message, r#"{"event":"third","args":[false]}"#);
}

#[test]
fn responder_simple() {
    let test = schema(&[("TestMsg1", &["id"])]);

    let ser = response_text(&test, 0, &[Value::from(45u64)]);
    assert_eq!(ser, r#"{"id":45}"#);
}

#[test]
fn responder_large() {
    let test = schema(&[("TestMsg1", &["id", "name", "tag"])]);

    let ser = response_text(
        &test,
        0,
        &[
            Value::from(vec![1u64, 2, 3, 4, 8, 10, 200, 19392]),
            Value::from("test message!"),
            Value::from(true),
        ],
    );
    assert_eq!(ser, r#"{"id":[1,2,3,4,8,10,200,19392],"name":"test message!","tag":true}"#);
}

#[test]
fn responder_composite() {
    let enum_name = schema(&[("MessageOne", &["t1", "t2"])]);

    let ser = response_text(&enum_name, 0, &[t1(84, true, "hi bokus", 1023), Value::from(false)]);
    assert_eq!(ser, r#"{"t1":{"v1":84,"v2":true,"v3":["hi bokus",1023]},"t2":false}"#,);
}

#[test]
fn responders_multiple_messages() {
    let new_message = schema(&[("First", &["id"]), ("Second", &["json"]), ("Third", &["done"])]);

    let ser = response_text(&new_message, 0, &[Value::from("1209fj0d-90-fd")]);
    assert_eq!(ser, r#"{"id":"1209fj0d-90-fd"}"#);

    let ser = response_text(&new_message, 1, &[Value::from("{ \"is this a test\": true }")]);
    assert_eq!(ser, r#"{"json":"{ \"is this a test\": true }"}"#);

    let ser = response_text(&new_message, 2, &[Value::from(true)]);
    assert_eq!(ser, r#"{"done":true}"#);
}
