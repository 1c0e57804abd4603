use protoglot::cli::CliArgs;
use protoglot::cli::Commands;
use protoglot::config_types::MessageType;
use protoglot::config_types::Protocol;
use protoglot::listen_address::ListenAddress;
use protoglot::settings::AbsorberConfig;
use protoglot::settings::EmitterConfig;
use protoglot::settings::FullConfig;
use protoglot::settings::PartialAbsorberConfig;
use protoglot::settings::PartialEmitterConfig;
use protoglot::settings::default_cycle_delay;
use protoglot::settings::default_events_per_cycle;
use protoglot::settings::default_num_cycles;
use protoglot::settings::default_num_emitters;
use protoglot::settings::default_tls;
use protoglot::settings::AppMode;
use protoglot::settings::AppSettings;

fn empty_absorber_partial() -> PartialAbsorberConfig {
    PartialAbsorberConfig {
        listen_addresses: None,
        update_interval: None,
        message_type: None,
        http2: None,
        https: None,
        self_signed: None,
        private_ca: None,
        token: None,
    }
}

fn empty_emitter_partial() -> PartialEmitterConfig {
    PartialEmitterConfig {
        host: None,
        port: None,
        rate: None,
        tls: None,
        protocol: None,
        message_type: None,
        num_emitters: None,
        events_per_cycle: None,
        num_cycles: None,
        cycle_delay: None,
    }
}

#[test]
fn absorber_defaults() {
    let d = AbsorberConfig::default();
    assert!(d.listen_addresses.is_empty());
    assert_eq!(d.update_interval, 5000);
    assert_eq!(d.message_type, MessageType::Syslog3164);
    assert!(!d.http2 && !d.https && !d.self_signed && !d.private_ca);
    assert!(d.token.is_none());
}

#[test]
fn absorber_merge_overrides_only_set_fields() {
    let base = AbsorberConfig::default();
    let partial = PartialAbsorberConfig {
        update_interval: Some(250),
        https: Some(true),
        token: Some(Some("Bearer abc".to_string())),
        ..empty_absorber_partial()
    };
    let merged = base.merge(partial);
    assert_eq!(merged.update_interval, 250);
    assert!(merged.https);
    assert_eq!(merged.token.as_deref(), Some("Bearer abc"));
    // Unset fields keep the defaults.
    assert_eq!(merged.message_type, MessageType::Syslog3164);
    assert!(!merged.http2);
}

#[test]
fn absorber_merge_from_skips_missing_halves() {
    let base = AbsorberConfig::default();
    let merged = base.merge_from(None);
    assert_eq!(merged.update_interval, 5000);
    let merged = merged.merge_from(Some(FullConfig { emitter: None, absorber: None }));
    assert_eq!(merged.update_interval, 5000);
    let merged = merged.merge_from(Some(FullConfig {
        emitter: None,
        absorber: Some(PartialAbsorberConfig {
            update_interval: Some(99),
            ..empty_absorber_partial()
        }),
    }));
    assert_eq!(merged.update_interval, 99);
}

#[test]
fn absorber_resolve_layers_in_order() {
    let standard = Some(FullConfig {
        emitter: None,
        absorber: Some(PartialAbsorberConfig {
            update_interval: Some(1000),
            http2: Some(true),
            ..empty_absorber_partial()
        }),
    });
    let passed = Some(FullConfig {
        emitter: None,
        absorber: Some(PartialAbsorberConfig {
            update_interval: Some(2000),
            ..empty_absorber_partial()
        }),
    });
    let cli = PartialAbsorberConfig {
        update_interval: Some(3000),
        ..empty_absorber_partial()
    };
    let r = AbsorberConfig::resolve(AbsorberConfig::default(), standard, passed, cli);
    // The command line wins; untouched fields keep the nearest earlier layer.
    assert_eq!(r.update_interval, 3000);
    assert!(r.http2);
}

#[test]
fn emitter_defaults() {
    let d = EmitterConfig::default();
    assert_eq!(d.host, "localhost");
    assert_eq!(d.port, 9514);
    assert_eq!(d.rate, 1000);
    assert!(!d.tls);
    assert_eq!(d.protocol, Protocol::Tcp);
    assert_eq!(d.message_type, MessageType::Syslog3164);
    assert_eq!(d.num_emitters, 1);
    assert_eq!(d.events_per_cycle, 10000);
    assert_eq!(d.num_cycles, 1);
    assert_eq!(d.cycle_delay, 10000);
}

#[test]
fn emitter_merge_overrides_only_set_fields() {
    let base = EmitterConfig::default();
    let merged = base.merge(PartialEmitterConfig {
        host: Some("example.com".to_string()),
        rate: Some(50),
        ..empty_emitter_partial()
    });
    assert_eq!(merged.host, "example.com");
    assert_eq!(merged.rate, 50);
    assert_eq!(merged.port, 9514);
}

#[test]
fn serde_defaults_match_documented_values() {
    assert!(!default_tls());
    assert_eq!(default_cycle_delay(), 0);
    assert_eq!(default_num_cycles(), 1);
    assert_eq!(default_events_per_cycle(), 10000);
    assert_eq!(default_num_emitters(), 1);
}

#[test]
fn partial_emitter_from_cli_copies_fields() {
    let args = CliArgs {
        file: None,
        host: Some("h".to_string()),
        port: Some(99),
        rate: Some(7),
        tls: Some(true),
        protocol: Some(Protocol::Udp),
        message_type: Some(MessageType::NdJson),
        num_emitters: None,
        events_per_cycle: Some(5),
        num_cycles: None,
        cycle_delay: Some(1),
        verbose: 0,
        command: None,
    };
    let p = PartialEmitterConfig::from(args);
    assert_eq!(p.host.as_deref(), Some("h"));
    assert_eq!(p.port, Some(99));
    assert_eq!(p.rate, Some(7));
    assert_eq!(p.tls, Some(true));
    assert_eq!(p.protocol, Some(Protocol::Udp));
    assert_eq!(p.message_type, Some(MessageType::NdJson));
    assert_eq!(p.num_emitters, None);
    assert_eq!(p.events_per_cycle, Some(5));
    assert_eq!(p.num_cycles, None);
    assert_eq!(p.cycle_delay, Some(1));
}

#[test]
fn partial_absorber_from_absorber_command_parses_addresses() {
    let cmd = Commands::Absorber {
        update_interval: Some(1234),
        listen_addresses: Some(vec![
            "tcp://0.0.0.0:9514".to_string(),
            "udp://0.0.0.0:9515".to_string(),
        ]),
        message_type: Some(MessageType::Syslog5424),
        http2: Some(false),
        https: Some(true),
        self_signed: Some(true),
        private_ca: None,
        auth: None,
    };
    let p = PartialAbsorberConfig::from(Some(cmd));
    assert_eq!(p.update_interval, Some(1234));
    assert_eq!(p.message_type, Some(MessageType::Syslog5424));
    assert_eq!(p.https, Some(true));
    let addrs: Vec<ListenAddress> = p.listen_addresses.unwrap();
    assert_eq!(addrs.len(), 2);
    assert_eq!(addrs[0].protocol, Protocol::Tcp);
    assert_eq!(addrs[0].port, 9514);
    assert_eq!(addrs[1].protocol, Protocol::Udp);
    assert_eq!(addrs[1].host, "0.0.0.0");
}

#[test]
fn partial_absorber_from_bad_address_drops_the_list() {
    let cmd = Commands::Absorber {
        update_interval: None,
        listen_addresses: Some(vec!["tcp://ok:1".to_string(), "broken".to_string()]),
        message_type: None,
        http2: None,
        https: None,
        self_signed: None,
        private_ca: None,
        auth: None,
    };
    let p = PartialAbsorberConfig::from(Some(cmd));
    assert!(p.listen_addresses.is_none());
}

#[test]
fn partial_absorber_from_other_commands_sets_nothing() {
    let p = PartialAbsorberConfig::from(None);
    assert!(p.listen_addresses.is_none());
    assert!(p.update_interval.is_none());
    let p = PartialAbsorberConfig::from(Some(Commands::Config { overwrite: Some(true) }));
    assert!(p.update_interval.is_none());
}

#[test]
fn app_settings_resolve_picks_the_absorber_half() {
    let args = CliArgs {
        file: None,
        host: None,
        port: None,
        rate: None,
        tls: None,
        protocol: None,
        message_type: None,
        num_emitters: None,
        events_per_cycle: None,
        num_cycles: None,
        cycle_delay: None,
        verbose: 0,
        command: Some(Commands::Absorber {
            update_interval: Some(777),
            listen_addresses: None,
            message_type: None,
            http2: None,
            https: None,
            self_signed: None,
            private_ca: None,
            auth: None,
        }),
    };
    let settings = AppSettings::resolve(
        args,
        EmitterConfig::default(),
        AbsorberConfig::default(),
        None,
        None,
    );
    assert_eq!(settings.mode, AppMode::Absorber);
    assert!(settings.emitter.is_none());
    let absorber = settings.absorber.unwrap();
    assert_eq!(absorber.update_interval, 777);
    assert_eq!(absorber.message_type, MessageType::Syslog3164);
}

#[test]
fn app_settings_resolve_defaults_to_the_emitter_half() {
    let args = CliArgs {
        file: None,
        host: Some("target".to_string()),
        port: Some(514),
        rate: None,
        tls: None,
        protocol: None,
        message_type: None,
        num_emitters: None,
        events_per_cycle: None,
        num_cycles: None,
        cycle_delay: None,
        verbose: 0,
        command: None,
    };
    let settings = AppSettings::resolve(
        args,
        EmitterConfig::default(),
        AbsorberConfig::default(),
        None,
        None,
    );
    assert_eq!(settings.mode, AppMode::Emitter);
    assert!(settings.absorber.is_none());
    let emitter = settings.emitter.unwrap();
    assert_eq!(emitter.host, "target");
    assert_eq!(emitter.port, 514);
    assert_eq!(emitter.rate, 1000);
}
