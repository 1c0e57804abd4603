//! The closed sets of wire protocols and message types a listener can be
//! configured with, and their textual forms.

use vstd::prelude::*;

verus! {

use vstd::string::StringSliceAdditionalSpecFns;

/// A wire protocol a listener can serve.
#[derive(Clone, Copy, Debug, PartialEq, Eq, Structural)]
pub enum Protocol {
    Tcp,
    Udp,
    Http,
}

/// The message-type policy a validator applies.
#[derive(Clone, Copy, Debug, PartialEq, Eq, Structural)]
pub enum MessageType {
    Syslog3164,
    Syslog5424,
    NdJson,
}

/// Why a piece of configuration text was rejected.
#[derive(Clone, Copy, Debug, PartialEq, Eq, Structural)]
pub enum ParseError {
    InvalidProtocol,
    InvalidMessageType,
    InvalidListenAddress,
    InvalidPort,
}

/// ASCII upper-case letters folded to lower case; all other bytes kept.
pub open spec fn ascii_lower(b: u8) -> u8 {
    if 65 <= b <= 90 {
        (b + 32) as u8
    } else {
        b
    }
}

/// `s` folded byte by byte with `ascii_lower`.
pub open spec fn lower_seq(s: Seq<u8>) -> Seq<u8> {
    s.map(|i: int, b: u8| ascii_lower(b))
}

/// The bytes of the protocol name `tcp`.
pub open spec fn tcp_bytes() -> Seq<u8> {
    seq![116u8, 99u8, 112u8]
}

/// The bytes of the protocol name `udp`.
pub open spec fn udp_bytes() -> Seq<u8> {
    seq![117u8, 100u8, 112u8]
}

/// The bytes of the protocol name `http`.
pub open spec fn http_bytes() -> Seq<u8> {
    seq![104u8, 116u8, 116u8, 112u8]
}

/// Which protocol a piece of text names, after ASCII case folding.
pub open spec fn protocol_of(s: Seq<u8>) -> Option<Protocol> {
    if lower_seq(s) == tcp_bytes() {
        Some(Protocol::Tcp)
    } else if lower_seq(s) == udp_bytes() {
        Some(Protocol::Udp)
    } else if lower_seq(s) == http_bytes() {
        Some(Protocol::Http)
    } else {
        None
    }
}

/// True iff `a` and `b` hold the same bytes after ASCII case folding.
pub fn eq_ignore_case_bytes(a: &[u8], b: &[u8]) -> (r: bool)
    ensures
        r == (lower_seq(a@) == lower_seq(b@)),
{
    if a.len() != b.len() {
        assert(lower_seq(a@).len() != lower_seq(b@).len());
        return false;
    }
    let mut i: usize = 0;
    while i < a.len()
        invariant
            i <= a@.len(),
            a@.len() == b@.len(),
            forall|j: int| 0 <= j < i ==> ascii_lower(a@[j]) == ascii_lower(b@[j]),
        decreases a@.len() - i,
    {
        let ab = a[i];
        let bb = b[i];
        let la = if 65 <= ab && ab <= 90 {
            ab + 32
        } else {
            ab
        };
        let lb = if 65 <= bb && bb <= 90 {
            bb + 32
        } else {
            bb
        };
        if la != lb {
            assert(lower_seq(a@)[i as int] != lower_seq(b@)[i as int]);
            return false;
        }
        i = i + 1;
    }
    proof {
        assert(lower_seq(a@) =~= lower_seq(b@));
    }
    true
}

/// True iff `a` and `b` hold exactly the same bytes.
pub fn bytes_eq(a: &[u8], b: &[u8]) -> (r: bool)
    ensures
        r == (a@ == b@),
{
    if a.len() != b.len() {
        return false;
    }
    let mut i: usize = 0;
    while i < a.len()
        invariant
            i <= a@.len(),
            a@.len() == b@.len(),
            forall|j: int| 0 <= j < i ==> a@[j] == b@[j],
        decreases a@.len() - i,
    {
        if a[i] != b[i] {
            return false;
        }
        i = i + 1;
    }
    proof {
        assert(a@ =~= b@);
    }
    true
}

/// Which protocol the bytes name, ignoring ASCII case.
pub fn eq_to_protocol(bytes: &[u8]) -> (r: Option<Protocol>)
    ensures
        r == protocol_of(bytes@),
{
    proof {
        assert(lower_seq(tcp_bytes()) =~= tcp_bytes());
        assert(lower_seq(udp_bytes()) =~= udp_bytes());
        assert(lower_seq(http_bytes()) =~= http_bytes());
    }
    let tcp: [u8; 3] = [116u8, 99u8, 112u8];
    let udp: [u8; 3] = [117u8, 100u8, 112u8];
    let http: [u8; 4] = [104u8, 116u8, 116u8, 112u8];
    proof {
        assert(tcp@ =~= tcp_bytes());
        assert(udp@ =~= udp_bytes());
        assert(http@ =~= http_bytes());
    }
    if eq_ignore_case_bytes(bytes, tcp.as_slice()) {
        Some(Protocol::Tcp)
    } else if eq_ignore_case_bytes(bytes, udp.as_slice()) {
        Some(Protocol::Udp)
    } else if eq_ignore_case_bytes(bytes, http.as_slice()) {
        Some(Protocol::Http)
    } else {
        None
    }
}

impl Protocol {
    /// Parses a protocol name, ignoring ASCII case, as listener
    /// configuration writes it (`tcp`, `udp`, `http`).
    pub fn try_from(value: &str) -> (r: Result<Protocol, ParseError>)
        ensures
            match r {
                Ok(p) => protocol_of(value.spec_bytes()) == Some(p),
                Err(e) => protocol_of(value.spec_bytes()) is None && e
                    == ParseError::InvalidProtocol,
            },
    {
        match eq_to_protocol(value.as_bytes()) {
            Some(p) => Ok(p),
            None => Err(ParseError::InvalidProtocol),
        }
    }

    /// The protocol's name as configuration text writes it.
    pub fn name(&self) -> (r: &'static str)
        ensures
            match self {
                Protocol::Tcp => r@ == "tcp"@,
                Protocol::Udp => r@ == "udp"@,
                Protocol::Http => r@ == "http"@,
            },
    {
        match self {
            Protocol::Tcp => "tcp",
            Protocol::Udp => "udp",
            Protocol::Http => "http",
        }
    }
}

/// The bytes of the message-type name `syslog3164`.
pub open spec fn syslog3164_bytes() -> Seq<u8> {
    seq![115u8, 121u8, 115u8, 108u8, 111u8, 103u8, 51u8, 49u8, 54u8, 52u8]
}

/// The bytes of the message-type name `syslog5424`.
pub open spec fn syslog5424_bytes() -> Seq<u8> {
    seq![115u8, 121u8, 115u8, 108u8, 111u8, 103u8, 53u8, 52u8, 50u8, 52u8]
}

/// The bytes of the message-type name `ndjson`.
pub open spec fn ndjson_bytes() -> Seq<u8> {
    seq![110u8, 100u8, 106u8, 115u8, 111u8, 110u8]
}

/// Which message type a piece of text names, matched exactly.
pub open spec fn message_type_of(s: Seq<u8>) -> Option<MessageType> {
    if s == syslog3164_bytes() {
        Some(MessageType::Syslog3164)
    } else if s == syslog5424_bytes() {
        Some(MessageType::Syslog5424)
    } else if s == ndjson_bytes() {
        Some(MessageType::NdJson)
    } else {
        None
    }
}

impl MessageType {
    /// Parses a message-type name exactly as configuration text writes it
    /// (`syslog3164`, `syslog5424`, `ndjson`).
    pub fn try_from(value: &str) -> (r: Result<MessageType, ParseError>)
        ensures
            match r {
                Ok(t) => message_type_of(value.spec_bytes()) == Some(t),
                Err(e) => message_type_of(value.spec_bytes()) is None && e
                    == ParseError::InvalidMessageType,
            },
    {
        let bytes = value.as_bytes();
        if bytes_eq(
            bytes,
            &[115u8, 121u8, 115u8, 108u8, 111u8, 103u8, 51u8, 49u8, 54u8, 52u8],
        ) {
            Ok(MessageType::Syslog3164)
        } else if bytes_eq(
            bytes,
            &[115u8, 121u8, 115u8, 108u8, 111u8, 103u8, 53u8, 52u8, 50u8, 52u8],
        ) {
            Ok(MessageType::Syslog5424)
        } else if bytes_eq(bytes, &[110u8, 100u8, 106u8, 115u8, 111u8, 110u8]) {
            Ok(MessageType::NdJson)
        } else {
            Err(ParseError::InvalidMessageType)
        }
    }

    /// The message type's name as configuration text writes it.
    pub fn name(&self) -> (r: &'static str)
        ensures
            match self {
                MessageType::Syslog3164 => r@ == "syslog3164"@,
                MessageType::Syslog5424 => r@ == "syslog5424"@,
                MessageType::NdJson => r@ == "ndjson"@,
            },
    {
        match self {
            MessageType::Syslog3164 => "syslog3164",
            MessageType::Syslog5424 => "syslog5424",
            MessageType::NdJson => "ndjson",
        }
    }
}

} // verus!
