use protoglot::config_types::MessageType;
use protoglot::validate::validate_message;
use protoglot::validate::validate_ndjson;
use protoglot::validate::validate_syslog3164;
use protoglot::validate::validate_syslog5424;

#[test]
fn syslog3164_accepts_bracketed_priority() {
    assert!(validate_message(b"<34>host app: hi\n", &MessageType::Syslog3164));
}

#[test]
fn syslog3164_rejects_missing_brackets() {
    assert!(!validate_message(b"no-brackets", &MessageType::Syslog3164));
}

#[test]
fn syslog3164_needs_both_bytes() {
    assert!(!validate_syslog3164(b""));
    assert!(!validate_syslog3164(b"<13"));
    assert!(!validate_syslog3164(b"13>"));
    assert!(validate_syslog3164(b"<>"));
}

#[test]
fn syslog5424_accepts_full_header() {
    assert!(validate_message(
        b"<165>1 2024-07-08T09:10:11Z host app 123 - - hi",
        &MessageType::Syslog5424
    ));
}

#[test]
fn syslog5424_rejects_three_tokens() {
    assert!(!validate_message(b"<165>1 hi", &MessageType::Syslog5424));
}

#[test]
fn syslog5424_needs_version_marker() {
    // Seven tokens but no ">1 " substring.
    assert!(!validate_syslog5424(b"<165>2 a b c d e f"));
    // Not starting with '<'.
    assert!(!validate_syslog5424(b"165>1 a b c d e f g"));
}

#[test]
fn syslog5424_tolerates_malformed_utf8() {
    // The invalid byte decodes to a replacement character; the header
    // still has the required shape and token count.
    assert!(validate_syslog5424(b"<165>1 2024-07-08T09:10:11Z host app 123 - \xff"));
}

#[test]
fn ndjson_matches_json_parse_outcome() {
    assert!(validate_ndjson(b"{\"a\":1}"));
    assert!(validate_ndjson(b"[1,2,3]"));
    assert!(validate_ndjson(b"123"));
    assert!(validate_ndjson(b"\"scalar\""));
    assert!(!validate_ndjson(b"{bad"));
    assert!(!validate_ndjson(b""));
    assert!(!validate_ndjson(b"{\"a\":1} trailing"));
}

#[test]
fn ndjson_dispatch_through_validate_message() {
    assert!(validate_message(b"{\"k\":\"v\"}", &MessageType::NdJson));
    assert!(!validate_message(b"not json", &MessageType::NdJson));
}
