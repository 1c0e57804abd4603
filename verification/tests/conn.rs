use protoglot::config_types::MessageType;
use protoglot::config_types::Protocol;
use protoglot::conn::CertType;
use protoglot::conn::HttpVersion;
use protoglot::conn::TcpAbsorber;
use protoglot::conn::TcpConnState;
use protoglot::conn::conn_options_from_config;
use protoglot::conn::process_message;
use protoglot::listen_address::ListenAddress;
use protoglot::settings::AbsorberConfig;
use protoglot::stats::AbsorberStats;
use protoglot::stats::StatsMessage;

#[test]
fn tcp_connection_counts_two_messages() {
    // The bytes of one connection, followed by the aggregator applying
    // the produced commands.
    let mut conn = TcpConnState::new(MessageType::Syslog3164);
    let commands = conn.on_bytes(b"<1>a\n<2>b\n");
    assert_eq!(commands.len(), 2);

    let mut stats = AbsorberStats::new();
    for command in &commands {
        stats.apply(command);
    }
    assert_eq!(stats.total_events, 2);
    assert_eq!(stats.total_bytes, 10);
}

#[test]
fn tcp_connection_keeps_partial_messages_across_reads() {
    let mut conn = TcpConnState::new(MessageType::Syslog3164);
    assert_eq!(conn.on_bytes(b"<1>a").len(), 0);
    let commands = conn.on_bytes(b"\n");
    assert_eq!(
        commands,
        vec![StatsMessage::Increment { events: 1, bytes: 5 }]
    );
}

#[test]
fn tcp_connection_drops_invalid_messages_silently() {
    let mut conn = TcpConnState::new(MessageType::Syslog3164);
    let commands = conn.on_bytes(b"bad\n<1>x\n");
    assert_eq!(
        commands,
        vec![StatsMessage::Increment { events: 1, bytes: 5 }]
    );
}

#[test]
fn datagram_processing_counts_only_valid_payloads() {
    assert_eq!(
        process_message(b"<1>hello", &MessageType::Syslog3164),
        Some(StatsMessage::Increment { events: 1, bytes: 8 })
    );
    assert_eq!(process_message(b"hello", &MessageType::Syslog3164), None);
}

fn config_with(https: bool, http2: bool, self_signed: bool, private_ca: bool) -> AbsorberConfig {
    AbsorberConfig {
        listen_addresses: vec![
            ListenAddress {
                host: "0.0.0.0".to_string(),
                port: 9514,
                protocol: Protocol::Tcp,
            },
            ListenAddress {
                host: "127.0.0.1".to_string(),
                port: 8080,
                protocol: Protocol::Http,
            },
        ],
        update_interval: 5000,
        message_type: MessageType::Syslog3164,
        http2,
        https,
        self_signed,
        private_ca,
        token: Some("Bearer abc".to_string()),
    }
}

#[test]
fn conn_options_carry_address_protocol_and_token() {
    let opts = conn_options_from_config(&config_with(false, false, false, false));
    assert_eq!(opts.len(), 2);
    assert_eq!(opts[0].addr.host, "0.0.0.0");
    assert_eq!(opts[0].addr.port, 9514);
    assert_eq!(opts[0].protocol, Protocol::Tcp);
    assert_eq!(opts[0].cert_type, CertType::NoTls);
    assert_eq!(opts[0].http_version, HttpVersion::Http11);
    assert_eq!(opts[1].protocol, Protocol::Http);
    assert_eq!(opts[1].token.as_deref(), Some("Bearer abc"));
}

#[test]
fn conn_options_pick_the_certificate_strategy() {
    let opts = conn_options_from_config(&config_with(true, false, true, false));
    assert_eq!(opts[0].cert_type, CertType::SelfSigned);
    let opts = conn_options_from_config(&config_with(true, false, false, true));
    assert_eq!(opts[0].cert_type, CertType::PrivateCa);
    let opts = conn_options_from_config(&config_with(true, false, false, false));
    assert_eq!(opts[0].cert_type, CertType::PublicCa);
    // HTTP/2 implies TLS even without the https flag.
    let opts = conn_options_from_config(&config_with(false, true, false, false));
    assert_eq!(opts[0].cert_type, CertType::PublicCa);
    assert_eq!(opts[0].http_version, HttpVersion::Http2);
}

#[test]
fn tcp_absorber_build_takes_the_address() {
    let opts = conn_options_from_config(&config_with(false, false, false, false));
    let absorber = TcpAbsorber::build(opts.into_iter().next().unwrap(), MessageType::NdJson);
    assert_eq!(absorber.address, "0.0.0.0");
    assert_eq!(absorber.port, 9514);
    assert_eq!(absorber.message_type, MessageType::NdJson);
}
