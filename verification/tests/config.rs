use protoglot::config_types::MessageType;
use protoglot::config_types::ParseError;
use protoglot::config_types::Protocol;
use protoglot::listen_address::ListenAddress;

#[test]
fn protocol_parse_ignores_case() {
    assert_eq!(Protocol::try_from("tcp"), Ok(Protocol::Tcp));
    assert_eq!(Protocol::try_from("TCP"), Ok(Protocol::Tcp));
    assert_eq!(Protocol::try_from("Udp"), Ok(Protocol::Udp));
    assert_eq!(Protocol::try_from("hTTp"), Ok(Protocol::Http));
    assert_eq!(Protocol::try_from("quic"), Err(ParseError::InvalidProtocol));
    assert_eq!(Protocol::try_from(""), Err(ParseError::InvalidProtocol));
}

#[test]
fn protocol_names() {
    assert_eq!(Protocol::Tcp.name(), "tcp");
    assert_eq!(Protocol::Udp.name(), "udp");
    assert_eq!(Protocol::Http.name(), "http");
}

#[test]
fn message_type_parse_is_exact() {
    assert_eq!(MessageType::try_from("syslog3164"), Ok(MessageType::Syslog3164));
    assert_eq!(MessageType::try_from("syslog5424"), Ok(MessageType::Syslog5424));
    assert_eq!(MessageType::try_from("ndjson"), Ok(MessageType::NdJson));
    assert_eq!(
        MessageType::try_from("NDJSON"),
        Err(ParseError::InvalidMessageType)
    );
    assert_eq!(
        MessageType::try_from("syslog"),
        Err(ParseError::InvalidMessageType)
    );
}

#[test]
fn message_type_names() {
    assert_eq!(MessageType::Syslog3164.name(), "syslog3164");
    assert_eq!(MessageType::Syslog5424.name(), "syslog5424");
    assert_eq!(MessageType::NdJson.name(), "ndjson");
}

#[test]
fn listen_address_parses_full_form() {
    let a = ListenAddress::from_str("tcp://127.0.0.1:4242").unwrap();
    assert_eq!(a.host, "127.0.0.1");
    assert_eq!(a.port, 4242);
    assert_eq!(a.protocol, Protocol::Tcp);

    let b = ListenAddress::from_str("HTTP://localhost:8080").unwrap();
    assert_eq!(b.host, "localhost");
    assert_eq!(b.port, 8080);
    assert_eq!(b.protocol, Protocol::Http);
}

#[test]
fn listen_address_accepts_padded_and_signed_ports() {
    assert_eq!(ListenAddress::from_str("udp://h:0042").unwrap().port, 42);
    assert_eq!(ListenAddress::from_str("udp://h:+42").unwrap().port, 42);
}

#[test]
fn listen_address_rejects_bad_forms() {
    assert_eq!(
        ListenAddress::from_str("no-separator").unwrap_err(),
        ParseError::InvalidListenAddress
    );
    assert_eq!(
        ListenAddress::from_str("xyz://h:1").unwrap_err(),
        ParseError::InvalidProtocol
    );
    assert_eq!(
        ListenAddress::from_str("tcp://h:1:2").unwrap_err(),
        ParseError::InvalidListenAddress
    );
    assert_eq!(
        ListenAddress::from_str("tcp://a://b:1").unwrap_err(),
        ParseError::InvalidListenAddress
    );
    assert_eq!(
        ListenAddress::from_str("tcp://hostport").unwrap_err(),
        ParseError::InvalidListenAddress
    );
    assert_eq!(
        ListenAddress::from_str("tcp://h:65536").unwrap_err(),
        ParseError::InvalidPort
    );
    assert_eq!(
        ListenAddress::from_str("tcp://h:").unwrap_err(),
        ParseError::InvalidPort
    );
    assert_eq!(
        ListenAddress::from_str("tcp://h:4x2").unwrap_err(),
        ParseError::InvalidPort
    );
}

#[test]
fn listen_address_default_is_tcp_any() {
    let d = ListenAddress::default();
    assert_eq!(d.host, "0.0.0.0");
    assert_eq!(d.port, 4242);
    assert_eq!(d.protocol, Protocol::Tcp);
}
