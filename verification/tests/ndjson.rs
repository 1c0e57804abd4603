use protoglot::ndjson::Event;
use protoglot::ndjson::NdJsonSerializer;
use protoglot::ndjson::Serializer;

fn expected_line(entries: &[(&str, serde_json::Value)]) -> String {
    let mut map = serde_json::Map::new();
    for (key, value) in entries {
        map.insert(key.to_string(), value.clone());
    }
    format!("{}\n", serde_json::Value::Object(map))
}

#[test]
fn test_serialize_mandatory_fields() {
    let event = Event {
        timestamp: 1623456789,
        message: "Test message".to_string(),
        index: None,
        source: None,
        sourcetype: None,
        hostname: None,
        facility: None,
        severity: None,
        application_name: None,
        process_id: None,
        message_id: None,
        fields: Vec::new(),
    };

    let serializer = NdJsonSerializer;
    let serialized = serializer.serialize(&event);

    let expected = expected_line(&[
        ("_time", serde_json::Value::from(1623456789u64)),
        ("message", serde_json::Value::from("Test message")),
    ]);
    assert_eq!(String::from_utf8(serialized).unwrap(), expected);
}

#[test]
fn test_serialize_optional_fields() {
    let event = Event {
        timestamp: 1623456789,
        message: "Test message".to_string(),
        index: Some("test_index".to_string()),
        source: Some("test_source".to_string()),
        sourcetype: Some("test_sourcetype".to_string()),
        hostname: Some("test_hostname".to_string()),
        facility: Some(1),
        severity: Some(2),
        application_name: Some("test_app".to_string()),
        process_id: Some(123),
        message_id: Some("test_message_id".to_string()),
        fields: Vec::new(),
    };

    let serializer = NdJsonSerializer;
    let serialized = serializer.serialize(&event);

    let expected = expected_line(&[
        ("_time", serde_json::Value::from(1623456789u64)),
        ("message", serde_json::Value::from("Test message")),
        ("index", serde_json::Value::from("test_index")),
        ("source", serde_json::Value::from("test_source")),
        ("sourcetype", serde_json::Value::from("test_sourcetype")),
        ("hostname", serde_json::Value::from("test_hostname")),
        ("pri", serde_json::Value::from(1u64)),
        ("severity", serde_json::Value::from(2u64)),
        ("application_name", serde_json::Value::from("test_app")),
        ("process_id", serde_json::Value::from(123u64)),
        ("message_id", serde_json::Value::from("test_message_id")),
    ]);
    assert_eq!(String::from_utf8(serialized).unwrap(), expected);
}

#[test]
fn test_serialize_custom_fields() {
    let mut event = Event::new(1623456789, "Test message".to_string());
    event.fields.push((
        "custom_field1".to_string(),
        serde_json::Value::from("custom_value1"),
    ));
    event
        .fields
        .push(("custom_field2".to_string(), serde_json::Value::from(42u64)));

    let serializer = NdJsonSerializer;
    let serialized = serializer.serialize(&event);

    let expected = expected_line(&[
        ("_time", serde_json::Value::from(1623456789u64)),
        ("message", serde_json::Value::from("Test message")),
        ("custom_field1", serde_json::Value::from("custom_value1")),
        ("custom_field2", serde_json::Value::from(42u64)),
    ]);
    assert_eq!(String::from_utf8(serialized).unwrap(), expected);
}

#[test]
fn serialized_event_is_one_object_and_a_newline() {
    let event = Event::new(7, "m".to_string());
    let serialized = NdJsonSerializer.serialize(&event);
    assert_eq!(serialized.first(), Some(&b'{'));
    assert_eq!(serialized[serialized.len() - 2], b'}');
    assert_eq!(serialized.last(), Some(&b'\n'));
    // Exactly one line: no newline inside the object.
    assert_eq!(
        serialized.iter().filter(|b| **b == b'\n').count(),
        1
    );
}

#[test]
fn later_custom_field_overrides_a_fixed_key() {
    // A custom field under a fixed key replaces the fixed entry, as the
    // custom fields come last.
    let mut event = Event::new(1, "original".to_string());
    event.fields.push((
        "message".to_string(),
        serde_json::Value::from("overridden"),
    ));
    let serialized = NdJsonSerializer.serialize(&event);
    let expected = expected_line(&[
        ("_time", serde_json::Value::from(1u64)),
        ("message", serde_json::Value::from("overridden")),
    ]);
    assert_eq!(String::from_utf8(serialized).unwrap(), expected);
}
