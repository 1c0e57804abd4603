//! The command-line surface as plain data, and its conversion into the
//! partial configurations that the layering in [`crate::settings`] takes.
//!
//! Argument parsing itself happens outside the library; what arrives here
//! is already structured.

use vstd::prelude::*;

use crate::config_types::MessageType;
use crate::config_types::Protocol;
use crate::listen_address::ListenAddress;
use crate::listen_address::parse_listen;
use crate::settings::AbsorberConfig;
use crate::settings::AppMode;
use crate::settings::AppSettings;
use crate::settings::EmitterConfig;
use crate::settings::FullConfig;
use crate::settings::PartialAbsorberConfig;
use crate::settings::PartialEmitterConfig;
use crate::settings::absorber_merged;
use crate::settings::absorber_merged_from;
use crate::settings::emitter_merged;
use crate::settings::emitter_merged_from;

verus! {

use vstd::utf8::encode_utf8;

/// How an HTTP listener checks requests.
#[derive(Clone, Copy, Debug, PartialEq, Eq, Structural)]
pub enum HttpAuth {
    Disabled,
    Basic,
    Token,
}

/// Every argument the command line can carry.
#[derive(Clone, Debug)]
pub struct CliArgs {
    /// Path to a configuration file.
    pub file: Option<String>,
    pub host: Option<String>,
    pub port: Option<u16>,
    /// Events per second.
    pub rate: Option<u64>,
    pub tls: Option<bool>,
    pub protocol: Option<Protocol>,
    pub message_type: Option<MessageType>,
    pub num_emitters: Option<u64>,
    pub events_per_cycle: Option<u64>,
    pub num_cycles: Option<u64>,
    /// Delay between cycles in milliseconds.
    pub cycle_delay: Option<u64>,
    /// Output verbosity, counted.
    pub verbose: u8,
    pub command: Option<Commands>,
}

/// The subcommands.
#[derive(Clone, Debug)]
pub enum Commands {
    /// Run the absorber instead of the emitter.
    Absorber {
        update_interval: Option<u64>,
        listen_addresses: Option<Vec<String>>,
        message_type: Option<MessageType>,
        http2: Option<bool>,
        https: Option<bool>,
        self_signed: Option<bool>,
        private_ca: Option<bool>,
        auth: Option<HttpAuth>,
    },
    /// Write the default configuration file.
    Config { overwrite: Option<bool> },
}

/// `r` holds exactly the emitter fields the command line sets.
pub open spec fn cli_sets_emitter(value: CliArgs, r: PartialEmitterConfig) -> bool {
    &&& r.host == value.host
    &&& r.port == value.port
    &&& r.rate == value.rate
    &&& r.tls == value.tls
    &&& r.protocol == value.protocol
    &&& r.message_type == value.message_type
    &&& r.num_emitters == value.num_emitters
    &&& r.events_per_cycle == value.events_per_cycle
    &&& r.num_cycles == value.num_cycles
    &&& r.cycle_delay == value.cycle_delay
}

impl PartialEmitterConfig {
    /// The emitter fields the command line sets.
    pub fn from(value: CliArgs) -> (r: PartialEmitterConfig)
        ensures
            cli_sets_emitter(value, r),
    {
        PartialEmitterConfig {
            host: value.host,
            port: value.port,
            rate: value.rate,
            tls: value.tls,
            protocol: value.protocol,
            message_type: value.message_type,
            num_emitters: value.num_emitters,
            events_per_cycle: value.events_per_cycle,
            num_cycles: value.num_cycles,
            cycle_delay: value.cycle_delay,
        }
    }
}

/// Every listen-address text parses.
pub open spec fn all_addresses_parse(strs: Seq<String>) -> bool {
    forall|i: int| 0 <= i < strs.len() ==> parse_listen(encode_utf8(#[trigger] strs[i]@)) is Ok
}

/// `out[i]` is what `strs[i]` parses to.
pub open spec fn addresses_match(strs: Seq<String>, out: Seq<ListenAddress>) -> bool {
    &&& out.len() == strs.len()
    &&& forall|i: int|
        0 <= i < strs.len() ==> {
            &&& parse_listen(encode_utf8(strs[i]@)) matches Ok(t)
            &&& (#[trigger] out[i]).protocol == t.0
            &&& encode_utf8(out[i].host@) == t.1
            &&& out[i].port == t.2
        }
}

/// Parses a list of listen-address texts; one failure drops the whole
/// list.  A missing list comes back as an empty one.
fn parse_addresses(strs: &Vec<String>) -> (r: Option<Vec<ListenAddress>>)
    ensures
        r is Some <==> all_addresses_parse(strs@),
        r matches Some(out) ==> addresses_match(strs@, out@),
{
    let mut out: Vec<ListenAddress> = Vec::new();
    let mut i: usize = 0;
    while i < strs.len()
        invariant
            i <= strs@.len(),
            out@.len() == i,
            forall|j: int|
                0 <= j < i ==> {
                    &&& parse_listen(encode_utf8(#[trigger] strs@[j]@)) matches Ok(t)
                    &&& out@[j].protocol == t.0
                    &&& encode_utf8(out@[j].host@) == t.1
                    &&& out@[j].port == t.2
                },
        decreases strs@.len() - i,
    {
        match ListenAddress::from_str(strs[i].as_str()) {
            Ok(a) => {
                out.push(a);
            },
            Err(_) => {
                proof {
                    assert(parse_listen(encode_utf8(strs@[i as int]@)) is Err);
                }
                return None;
            },
        }
        i = i + 1;
    }
    Some(out)
}

/// `r` holds exactly the absorber fields an absorber subcommand sets:
/// listen-address texts parsed (one failure drops the whole list), the
/// other fields copied; any other command sets nothing.
pub open spec fn command_sets_absorber(value: Option<Commands>, r: PartialAbsorberConfig) -> bool {
    match value {
                Some(
                    Commands::Absorber {
                        update_interval,
                        listen_addresses,
                        message_type,
                        http2,
                        https,
                        self_signed,
                        private_ca,
                        auth,
                    },
                ) => {
                    &&& r.update_interval == update_interval
                    &&& r.message_type == message_type
                    &&& r.http2 == http2
                    &&& r.https == https
                    &&& r.self_signed == self_signed
                    &&& r.private_ca == private_ca
                    &&& r.token is None
                    &&& ({
                        let strs = match listen_addresses {
                            Some(v) => v@,
                            None => Seq::<String>::empty(),
                        };
                        &&& r.listen_addresses is Some <==> all_addresses_parse(strs)
                        &&& r.listen_addresses matches Some(out) ==> addresses_match(
                            strs,
                            out@,
                        )
                    })
                },
        _ => {
            &&& r.listen_addresses is None
            &&& r.update_interval is None
            &&& r.message_type is None
            &&& r.http2 is None
            &&& r.https is None
            &&& r.self_signed is None
            &&& r.private_ca is None
            &&& r.token is None
        },
    }
}

impl PartialAbsorberConfig {
    /// The absorber fields an absorber subcommand sets, as
    /// [`command_sets_absorber`] states them.
    pub fn from(value: Option<Commands>) -> (r: PartialAbsorberConfig)
        ensures
            command_sets_absorber(value, r),
    {
        if let Some(
            Commands::Absorber {
                update_interval,
                listen_addresses,
                message_type,
                http2,
                https,
                self_signed,
                private_ca,
                auth: _,
            },
        ) = value {
            let strs = match listen_addresses {
                Some(v) => v,
                None => Vec::new(),
            };
            let parsed = parse_addresses(&strs);
            return PartialAbsorberConfig {
                listen_addresses: parsed,
                update_interval,
                message_type,
                http2,
                https,
                self_signed,
                private_ca,
                token: None,
            };
        }
        PartialAbsorberConfig {
            listen_addresses: None,
            update_interval: None,
            message_type: None,
            http2: None,
            https: None,
            self_signed: None,
            private_ca: None,
            token: None,
        }
    }
}

impl AppSettings {
    /// Resolves the process settings from parsed arguments and loaded
    /// configuration files: an absorber subcommand selects the absorber
    /// half, anything else the emitter half; either way the built-in
    /// defaults, the standard file, the passed-in file and the command
    /// line are layered in that order.
    pub fn resolve(
        args: CliArgs,
        emitter_base: EmitterConfig,
        absorber_base: AbsorberConfig,
        standard_file: Option<FullConfig>,
        passed_file: Option<FullConfig>,
    ) -> (r: AppSettings)
        ensures
            match args.command {
                Some(Commands::Absorber { .. }) => {
                    &&& r.mode == AppMode::Absorber
                    &&& r.emitter is None
                    &&& r.absorber matches Some(c) && exists|p: PartialAbsorberConfig|
                        #[trigger] command_sets_absorber(args.command, p) && c
                            == absorber_merged(
                            absorber_merged_from(
                                absorber_merged_from(absorber_base, standard_file),
                                passed_file,
                            ),
                            p,
                        )
                },
                _ => {
                    &&& r.mode == AppMode::Emitter
                    &&& r.absorber is None
                    &&& r.emitter matches Some(c) && exists|p: PartialEmitterConfig|
                        #[trigger] cli_sets_emitter(args, p) && c == emitter_merged(
                            emitter_merged_from(
                                emitter_merged_from(emitter_base, standard_file),
                                passed_file,
                            ),
                            p,
                        )
                },
            },
    {
        let is_absorber = matches!(&args.command, Some(Commands::Absorber { .. }));
        if is_absorber {
            let cli_partial = PartialAbsorberConfig::from(args.command);
            let config = AbsorberConfig::resolve(
                absorber_base,
                standard_file,
                passed_file,
                cli_partial,
            );
            AppSettings { mode: AppMode::Absorber, emitter: None, absorber: Some(config) }
        } else {
            let cli_partial = PartialEmitterConfig::from(args);
            let config = EmitterConfig::resolve(
                emitter_base,
                standard_file,
                passed_file,
                cli_partial,
            );
            AppSettings { mode: AppMode::Emitter, emitter: Some(config), absorber: None }
        }
    }
}

} // verus!
