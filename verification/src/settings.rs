//! Configuration for the emitter and absorber halves: full configurations
//! with defaults, partial configurations as a file or the command line
//! supplies them, and the layering that merges one over the other.

use vstd::prelude::*;

use crate::config_types::MessageType;
use crate::config_types::Protocol;
use crate::listen_address::ListenAddress;

verus! {

/// A fully resolved absorber configuration.
#[derive(Clone, Debug)]
pub struct AbsorberConfig {
    pub listen_addresses: Vec<ListenAddress>,
    pub update_interval: u64,
    pub message_type: MessageType,
    /// An HTTP/2 listener implies TLS.
    pub http2: bool,
    pub https: bool,
    pub self_signed: bool,
    pub private_ca: bool,
    /// The full credential an HTTP request must present, or nothing when
    /// requests go unchecked.
    pub token: Option<String>,
}

/// The absorber fields a configuration source may set; an unset field
/// leaves the previous value.
#[derive(Clone, Debug)]
pub struct PartialAbsorberConfig {
    pub listen_addresses: Option<Vec<ListenAddress>>,
    pub update_interval: Option<u64>,
    pub message_type: Option<MessageType>,
    pub http2: Option<bool>,
    pub https: Option<bool>,
    pub self_signed: Option<bool>,
    pub private_ca: Option<bool>,
    pub token: Option<Option<String>>,
}

/// A fully resolved emitter configuration.
#[derive(Clone, Debug)]
pub struct EmitterConfig {
    pub host: String,
    pub port: u16,
    pub rate: u64,
    pub tls: bool,
    pub protocol: Protocol,
    pub message_type: MessageType,
    pub num_emitters: u64,
    pub events_per_cycle: u64,
    pub num_cycles: u64,
    pub cycle_delay: u64,
}

/// The emitter fields a configuration source may set.
#[derive(Clone, Debug)]
pub struct PartialEmitterConfig {
    pub host: Option<String>,
    pub port: Option<u16>,
    pub rate: Option<u64>,
    pub tls: Option<bool>,
    pub protocol: Option<Protocol>,
    pub message_type: Option<MessageType>,
    pub num_emitters: Option<u64>,
    pub events_per_cycle: Option<u64>,
    pub num_cycles: Option<u64>,
    pub cycle_delay: Option<u64>,
}

/// What one configuration file may hold: either half, or both.
#[derive(Clone, Debug)]
pub struct FullConfig {
    pub emitter: Option<PartialEmitterConfig>,
    pub absorber: Option<PartialAbsorberConfig>,
}

/// Which half of the tool runs.
#[derive(Clone, Copy, Debug, PartialEq, Eq, Structural)]
pub enum AppMode {
    Emitter,
    Absorber,
}

/// The resolved settings the process starts with.
#[derive(Clone, Debug)]
pub struct AppSettings {
    pub mode: AppMode,
    pub emitter: Option<EmitterConfig>,
    pub absorber: Option<AbsorberConfig>,
}

/// `base` with every field that `other` sets replaced.
pub open spec fn absorber_merged(
    base: AbsorberConfig,
    other: PartialAbsorberConfig,
) -> AbsorberConfig {
    AbsorberConfig {
        listen_addresses: match other.listen_addresses {
            Some(v) => v,
            None => base.listen_addresses,
        },
        update_interval: match other.update_interval {
            Some(v) => v,
            None => base.update_interval,
        },
        message_type: match other.message_type {
            Some(v) => v,
            None => base.message_type,
        },
        http2: match other.http2 {
            Some(v) => v,
            None => base.http2,
        },
        https: match other.https {
            Some(v) => v,
            None => base.https,
        },
        self_signed: match other.self_signed {
            Some(v) => v,
            None => base.self_signed,
        },
        private_ca: match other.private_ca {
            Some(v) => v,
            None => base.private_ca,
        },
        token: match other.token {
            Some(v) => v,
            None => base.token,
        },
    }
}

/// `base` with the absorber half of `other` merged in, when there is one.
pub open spec fn absorber_merged_from(
    base: AbsorberConfig,
    other: Option<FullConfig>,
) -> AbsorberConfig {
    match other {
        Some(fc) => match fc.absorber {
            Some(p) => absorber_merged(base, p),
            None => base,
        },
        None => base,
    }
}

impl Default for AbsorberConfig {
    /// The built-in defaults: no listeners, a five-second reporting
    /// interval, RFC 3164 validation, no TLS and no authorization.
    fn default() -> (r: AbsorberConfig)
        ensures
            r.listen_addresses@.len() == 0,
            r.update_interval == 5000,
            r.message_type == MessageType::Syslog3164,
            !r.http2,
            !r.https,
            !r.self_signed,
            !r.private_ca,
            r.token is None,
    {
        AbsorberConfig {
            listen_addresses: Vec::new(),
            update_interval: 5000,
            message_type: MessageType::Syslog3164,
            http2: false,
            https: false,
            self_signed: false,
            private_ca: false,
            token: None,
        }
    }
}

impl AbsorberConfig {
    /// Replaces every field that `other` sets and keeps the rest.
    pub fn merge(self, other: PartialAbsorberConfig) -> (r: AbsorberConfig)
        ensures
            r == absorber_merged(self, other),
    {
        let mut merged = self;
        let PartialAbsorberConfig {
            listen_addresses,
            update_interval,
            message_type,
            http2,
            https,
            self_signed,
            private_ca,
            token,
        } = other;
        if let Some(v) = listen_addresses {
            merged.listen_addresses = v;
        }
        if let Some(v) = update_interval {
            merged.update_interval = v;
        }
        if let Some(v) = message_type {
            merged.message_type = v;
        }
        if let Some(v) = http2 {
            merged.http2 = v;
        }
        if let Some(v) = https {
            merged.https = v;
        }
        if let Some(v) = self_signed {
            merged.self_signed = v;
        }
        if let Some(v) = private_ca {
            merged.private_ca = v;
        }
        if let Some(v) = token {
            merged.token = v;
        }
        merged
    }

    /// Merges the absorber half of a loaded configuration file, when the
    /// file and that half exist.
    pub fn merge_from(self, other: Option<FullConfig>) -> (r: AbsorberConfig)
        ensures
            r == absorber_merged_from(self, other),
    {
        if let Some(full_config) = other {
            if let Some(absorber_config) = full_config.absorber {
                return self.merge(absorber_config);
            }
        }
        self
    }

    /// Layers the standard configuration file, then a passed-in file,
    /// then the command line over `base`, in that order.
    pub fn resolve(
        base: AbsorberConfig,
        standard_file: Option<FullConfig>,
        passed_file: Option<FullConfig>,
        cli: PartialAbsorberConfig,
    ) -> (r: AbsorberConfig)
        ensures
            r == absorber_merged(
                absorber_merged_from(absorber_merged_from(base, standard_file), passed_file),
                cli,
            ),
    {
        base.merge_from(standard_file).merge_from(passed_file).merge(cli)
    }
}

/// `base` with every field that `other` sets replaced.
pub open spec fn emitter_merged(
    base: EmitterConfig,
    other: PartialEmitterConfig,
) -> EmitterConfig {
    EmitterConfig {
        host: match other.host {
            Some(v) => v,
            None => base.host,
        },
        port: match other.port {
            Some(v) => v,
            None => base.port,
        },
        rate: match other.rate {
            Some(v) => v,
            None => base.rate,
        },
        tls: match other.tls {
            Some(v) => v,
            None => base.tls,
        },
        protocol: match other.protocol {
            Some(v) => v,
            None => base.protocol,
        },
        message_type: match other.message_type {
            Some(v) => v,
            None => base.message_type,
        },
        num_emitters: match other.num_emitters {
            Some(v) => v,
            None => base.num_emitters,
        },
        events_per_cycle: match other.events_per_cycle {
            Some(v) => v,
            None => base.events_per_cycle,
        },
        num_cycles: match other.num_cycles {
            Some(v) => v,
            None => base.num_cycles,
        },
        cycle_delay: match other.cycle_delay {
            Some(v) => v,
            None => base.cycle_delay,
        },
    }
}

/// `base` with the emitter half of `other` merged in, when there is one.
pub open spec fn emitter_merged_from(
    base: EmitterConfig,
    other: Option<FullConfig>,
) -> EmitterConfig {
    match other {
        Some(fc) => match fc.emitter {
            Some(p) => emitter_merged(base, p),
            None => base,
        },
        None => base,
    }
}

impl Default for EmitterConfig {
    /// The built-in defaults: one emitter sending RFC 3164 messages over
    /// plain TCP to localhost.
    fn default() -> (r: EmitterConfig)
        ensures
            r.host@ == "localhost"@,
            r.port == 9514,
            r.rate == 1000,
            !r.tls,
            r.protocol == Protocol::Tcp,
            r.message_type == MessageType::Syslog3164,
            r.num_emitters == 1,
            r.events_per_cycle == 10000,
            r.num_cycles == 1,
            r.cycle_delay == 10000,
    {
        EmitterConfig {
            host: "localhost".to_owned(),
            port: 9514,
            rate: 1000,
            tls: false,
            protocol: Protocol::Tcp,
            message_type: MessageType::Syslog3164,
            num_emitters: 1,
            events_per_cycle: 10000,
            num_cycles: 1,
            cycle_delay: 10000,
        }
    }
}

impl EmitterConfig {
    /// Replaces every field that `other` sets and keeps the rest.
    pub fn merge(self, other: PartialEmitterConfig) -> (r: EmitterConfig)
        ensures
            r == emitter_merged(self, other),
    {
        let mut merged = self;
        if let Some(v) = other.host {
            merged.host = v;
        }
        if let Some(v) = other.port {
            merged.port = v;
        }
        if let Some(v) = other.rate {
            merged.rate = v;
        }
        if let Some(v) = other.tls {
            merged.tls = v;
        }
        if let Some(v) = other.protocol {
            merged.protocol = v;
        }
        if let Some(v) = other.message_type {
            merged.message_type = v;
        }
        if let Some(v) = other.num_emitters {
            merged.num_emitters = v;
        }
        if let Some(v) = other.events_per_cycle {
            merged.events_per_cycle = v;
        }
        if let Some(v) = other.num_cycles {
            merged.num_cycles = v;
        }
        if let Some(v) = other.cycle_delay {
            merged.cycle_delay = v;
        }
        merged
    }

    /// Merges the emitter half of a loaded configuration file, when the
    /// file and that half exist.
    pub fn merge_from(self, other: Option<FullConfig>) -> (r: EmitterConfig)
        ensures
            r == emitter_merged_from(self, other),
    {
        if let Some(full_config) = other {
            if let Some(emitter_config) = full_config.emitter {
                return self.merge(emitter_config);
            }
        }
        self
    }

    /// Layers the standard configuration file, then a passed-in file,
    /// then the command line over `base`, in that order.
    pub fn resolve(
        base: EmitterConfig,
        standard_file: Option<FullConfig>,
        passed_file: Option<FullConfig>,
        cli: PartialEmitterConfig,
    ) -> (r: EmitterConfig)
        ensures
            r == emitter_merged(
                emitter_merged_from(emitter_merged_from(base, standard_file), passed_file),
                cli,
            ),
    {
        base.merge_from(standard_file).merge_from(passed_file).merge(cli)
    }
}

/// The settings an older, emitter-only configuration file holds.
#[derive(Clone, Debug)]
pub struct Settings {
    pub emitters: Vec<EmitterSettings>,
}

/// One emitter as that older file describes it, with protocol and message
/// type still as text.
#[derive(Clone, Debug)]
pub struct EmitterSettings {
    pub host: String,
    pub port: u16,
    pub rate: u64,
    pub tls: bool,
    pub protocol: String,
    pub message_type: String,
    pub num_emitters: u64,
    pub events_per_cycle: u64,
    pub num_cycles: u64,
    pub cycle_delay: u64,
}

/// The default for an emitter's TLS flag: off.
pub fn default_tls() -> (r: bool)
    ensures
        r == false,
{
    false
}

/// The default delay between cycles: none.
pub fn default_cycle_delay() -> (r: u64)
    ensures
        r == 0,
{
    0
}

/// The default number of cycles: one.
pub fn default_num_cycles() -> (r: u64)
    ensures
        r == 1,
{
    1
}

/// The default number of events per cycle.
pub fn default_events_per_cycle() -> (r: u64)
    ensures
        r == 10000,
{
    10000
}

/// The default number of parallel emitters: one.
pub fn default_num_emitters() -> (r: u64)
    ensures
        r == 1,
{
    1
}

} // verus!
