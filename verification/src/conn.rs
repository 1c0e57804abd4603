//! Per-listener connection options derived from the absorber
//! configuration, and the TCP and UDP message-handling logic that every
//! connection task runs.
//!
//! Sockets and tasks live outside the library; what stands here is what
//! each received chunk or datagram does to the connection's framing
//! buffer and which counter commands it produces.

use vstd::prelude::*;

use crate::config_types::MessageType;
use crate::config_types::Protocol;
use crate::framing::drain_messages;
use crate::framing::drain_rest;
use crate::framing::extract_message;
use crate::framing::lemma_extract_some;
use crate::listen_address::ListenAddress;
use crate::settings::AbsorberConfig;
use crate::stats::StatsMessage;
use crate::validate::valid_message;
use crate::validate::validate_message;

verus! {

/// Which HTTP version a listener serves once TLS is negotiated.
#[derive(Clone, Copy, Debug, PartialEq, Eq, Structural)]
pub enum HttpVersion {
    Http11,
    Http2,
}

/// How a listener comes by its TLS material.
#[derive(Clone, Copy, Debug, PartialEq, Eq, Structural)]
pub enum CertType {
    /// Serve unencrypted.
    NoTls,
    /// Generate a fresh self-signed leaf certificate.
    SelfSigned,
    /// Generate a private CA and a leaf certificate signed by it.
    PrivateCa,
    /// Pull a certificate bundle from a remote archive.
    PublicCa,
}

/// Everything one listener task needs: derived once from configuration
/// and owned by that task.
#[derive(Clone, Debug)]
pub struct ConnOptions {
    pub http_version: HttpVersion,
    pub addr: ListenAddress,
    pub cert_type: CertType,
    pub protocol: Protocol,
    pub token: Option<String>,
}

/// The certificate strategy a configuration asks for: TLS only when HTTPS
/// or HTTP/2 is on; then self-signed or private-CA when requested, and a
/// remote bundle otherwise.
pub open spec fn cert_type_of(config: AbsorberConfig) -> CertType {
    if config.https || config.http2 {
        if config.self_signed {
            CertType::SelfSigned
        } else if config.private_ca {
            CertType::PrivateCa
        } else {
            CertType::PublicCa
        }
    } else {
        CertType::NoTls
    }
}

/// The HTTP version a configuration asks for.
pub open spec fn http_version_of(config: AbsorberConfig) -> HttpVersion {
    if config.http2 {
        HttpVersion::Http2
    } else {
        HttpVersion::Http11
    }
}

impl ListenAddress {
    /// A copy with the same host, port and protocol.
    pub fn duplicate(&self) -> (r: ListenAddress)
        ensures
            r.host@ == self.host@,
            r.port == self.port,
            r.protocol == self.protocol,
    {
        ListenAddress { host: self.host.clone(), port: self.port, protocol: self.protocol }
    }
}

/// A copy of an optional token with the same text.
fn clone_token(token: &Option<String>) -> (r: Option<String>)
    ensures
        match token {
            Some(t) => r matches Some(s) && s@ == t@,
            None => r is None,
        },
{
    match token {
        Some(t) => Some(t.clone()),
        None => None,
    }
}

/// One bundle of connection options per configured listen address, each
/// carrying the configuration's certificate strategy, HTTP version and
/// token.
pub fn conn_options_from_config(config: &AbsorberConfig) -> (r: Vec<ConnOptions>)
    ensures
        r@.len() == config.listen_addresses@.len(),
        forall|i: int|
            0 <= i < r@.len() ==> {
                &&& (#[trigger] r@[i]).http_version == http_version_of(*config)
                &&& r@[i].cert_type == cert_type_of(*config)
                &&& r@[i].protocol == config.listen_addresses@[i].protocol
                &&& r@[i].addr.host@ == config.listen_addresses@[i].host@
                &&& r@[i].addr.port == config.listen_addresses@[i].port
                &&& r@[i].addr.protocol == config.listen_addresses@[i].protocol
                &&& match config.token {
                    Some(t) => r@[i].token matches Some(s) && s@ == t@,
                    None => r@[i].token is None,
                }
            },
{
    let http_version = if config.http2 {
        HttpVersion::Http2
    } else {
        HttpVersion::Http11
    };
    let cert_type = if config.https || config.http2 {
        if config.self_signed {
            CertType::SelfSigned
        } else if config.private_ca {
            CertType::PrivateCa
        } else {
            CertType::PublicCa
        }
    } else {
        CertType::NoTls
    };
    let mut out: Vec<ConnOptions> = Vec::new();
    let mut i: usize = 0;
    while i < config.listen_addresses.len()
        invariant
            i <= config.listen_addresses@.len(),
            out@.len() == i,
            http_version == http_version_of(*config),
            cert_type == cert_type_of(*config),
            forall|j: int|
                0 <= j < i ==> {
                    &&& (#[trigger] out@[j]).http_version == http_version_of(*config)
                    &&& out@[j].cert_type == cert_type_of(*config)
                    &&& out@[j].protocol == config.listen_addresses@[j].protocol
                    &&& out@[j].addr.host@ == config.listen_addresses@[j].host@
                    &&& out@[j].addr.port == config.listen_addresses@[j].port
                    &&& out@[j].addr.protocol == config.listen_addresses@[j].protocol
                    &&& match config.token {
                        Some(t) => out@[j].token matches Some(s) && s@ == t@,
                        None => out@[j].token is None,
                    }
                },
        decreases config.listen_addresses@.len() - i,
    {
        let addr = config.listen_addresses[i].duplicate();
        let protocol = addr.protocol;
        out.push(
            ConnOptions {
                http_version,
                addr,
                cert_type,
                protocol,
                token: clone_token(&config.token),
            },
        );
        i = i + 1;
    }
    out
}

/// A TCP listener's address and message policy.
#[derive(Clone, Debug)]
pub struct TcpAbsorber {
    pub address: String,
    pub port: u16,
    pub message_type: MessageType,
}

impl TcpAbsorber {
    /// Takes the listener's address and policy out of its connection
    /// options.
    pub fn build(opts: ConnOptions, message_type: MessageType) -> (r: TcpAbsorber)
        ensures
            r.address@ == opts.addr.host@,
            r.port == opts.addr.port,
            r.message_type == message_type,
    {
        TcpAbsorber { address: opts.addr.host, port: opts.addr.port, message_type }
    }
}

/// The counter command one message produces: one event of the message's
/// length when it is valid, nothing when it is not.
pub fn process_message(message: &[u8], typ: &MessageType) -> (r: Option<StatsMessage>)
    ensures
        r is Some <==> valid_message(message@, *typ),
        r matches Some(m) ==> m == (StatsMessage::Increment {
            events: 1usize,
            bytes: message@.len() as usize,
        }),
{
    if validate_message(message, typ) {
        Some(StatsMessage::Increment { events: 1, bytes: message.len() })
    } else {
        None
    }
}

/// The counter commands a run of framed messages produces: one increment
/// per valid message, in order; invalid messages are dropped silently.
pub open spec fn increments_of(msgs: Seq<Seq<u8>>, typ: MessageType) -> Seq<StatsMessage>
    decreases msgs.len(),
{
    if msgs.len() == 0 {
        Seq::<StatsMessage>::empty()
    } else {
        let head: Seq<StatsMessage> = if valid_message(msgs[0], typ) {
            seq![
                StatsMessage::Increment { events: 1usize, bytes: msgs[0].len() as usize },
            ]
        } else {
            Seq::<StatsMessage>::empty()
        };
        head + increments_of(msgs.drop_first(), typ)
    }
}

/// The commands of two runs laid end to end.
pub proof fn lemma_increments_append(a: Seq<Seq<u8>>, b: Seq<Seq<u8>>, typ: MessageType)
    ensures
        increments_of(a + b, typ) == increments_of(a, typ) + increments_of(b, typ),
    decreases a.len(),
{
    if a.len() == 0 {
        assert(a + b =~= b);
        assert(Seq::<StatsMessage>::empty() + increments_of(b, typ) =~= increments_of(b, typ));
    } else {
        assert((a + b).drop_first() =~= a.drop_first() + b);
        lemma_increments_append(a.drop_first(), b, typ);
        assert((increments_of(seq![a[0]].drop_first(), typ)) =~= Seq::<StatsMessage>::empty());
        assert(increments_of(a, typ) + increments_of(b, typ) =~= (if valid_message(a[0], typ) {
            seq![StatsMessage::Increment { events: 1usize, bytes: a[0].len() as usize }]
        } else {
            Seq::<StatsMessage>::empty()
        }) + (increments_of(a.drop_first(), typ) + increments_of(b, typ)));
    }
}

/// One TCP connection's framing buffer and message policy.
pub struct TcpConnState {
    pub buf: Vec<u8>,
    pub message_type: MessageType,
}

impl TcpConnState {
    /// A fresh connection with an empty buffer.
    pub fn new(message_type: MessageType) -> (r: TcpConnState)
        ensures
            r.buf@.len() == 0,
            r.message_type == message_type,
    {
        TcpConnState { buf: Vec::new(), message_type }
    }

    /// Takes in the bytes of one read, frames every message they
    /// complete, and hands back one increment per valid message.  Invalid
    /// messages are dropped with no command and no error; incomplete
    /// bytes stay in the buffer for the next read.
    pub fn on_bytes(&mut self, data: &[u8]) -> (r: Vec<StatsMessage>)
        ensures
            ({
                let combined = old(self).buf@ + data@;
                &&& final(self).message_type == old(self).message_type
                &&& final(self).buf@ == drain_rest(combined)
                &&& r@ == increments_of(drain_messages(combined), old(self).message_type)
            }),
    {
        let ghost combined = old(self).buf@ + data@;
        let ghost mut processed: Seq<Seq<u8>> = Seq::empty();
        let mut out: Vec<StatsMessage> = Vec::new();
        crate::httpd::push_bytes(&mut self.buf, data);
        proof {
            assert(Seq::<Seq<u8>>::empty() + drain_messages(self.buf@) =~= drain_messages(
                self.buf@,
            ));
        }
        let mut done = false;
        while !done
            invariant
                combined == old(self).buf@ + data@,
                self.message_type == old(self).message_type,
                drain_messages(combined) == processed + drain_messages(self.buf@),
                drain_rest(combined) == drain_rest(self.buf@),
                out@ == increments_of(processed, old(self).message_type),
                done ==> drain_messages(self.buf@) =~= Seq::<Seq<u8>>::empty() && drain_rest(
                    self.buf@,
                ) == self.buf@,
            decreases self.buf@.len() + (if done { 0int } else { 1int }),
        {
            let ghost buf_before = self.buf@;
            match extract_message(&mut self.buf, false) {
                Some(m) => {
                    proof {
                        lemma_extract_some(buf_before, false);
                        assert(drain_messages(buf_before) == seq![m@] + drain_messages(
                            self.buf@,
                        ));
                        assert(drain_rest(buf_before) == drain_rest(self.buf@));
                        assert(processed + (seq![m@] + drain_messages(self.buf@)) =~= (processed
                            + seq![m@]) + drain_messages(self.buf@));
                        lemma_increments_append(processed, seq![m@], self.message_type);
                        assert(increments_of(seq![m@].drop_first(), self.message_type)
                            =~= Seq::<StatsMessage>::empty());
                    }
                    match process_message(m.as_slice(), &self.message_type) {
                        Some(cmd) => {
                            out.push(cmd);
                            proof {
                                assert(increments_of(seq![m@], self.message_type) =~= seq![
                                    StatsMessage::Increment {
                                        events: 1usize,
                                        bytes: m@.len() as usize,
                                    },
                                ]);
                            }
                        },
                        None => {
                            proof {
                                assert(increments_of(seq![m@], self.message_type)
                                    =~= Seq::<StatsMessage>::empty());
                                assert(out@ + Seq::<StatsMessage>::empty() =~= out@);
                            }
                        },
                    }
                    proof {
                        processed = processed + seq![m@];
                    }
                },
                None => {
                    done = true;
                },
            }
        }
        proof {
            assert(processed + Seq::<Seq<u8>>::empty() =~= processed);
        }
        out
    }
}

} // verus!
