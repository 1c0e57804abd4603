//! A listener's address: host, port and wire protocol, parsed from the
//! `protocol://host:port` form that configuration text uses.

use vstd::prelude::*;

use crate::config_types::ParseError;
use crate::config_types::Protocol;
use crate::config_types::protocol_of;

verus! {

use vstd::slice::slice_subrange;
use vstd::string::StringSliceAdditionalSpecFns;
use vstd::utf8::encode_utf8;
use vstd::utf8::valid_utf8;

/// One configured listener address.
#[derive(Clone, Debug)]
pub struct ListenAddress {
    pub host: String,
    pub port: u16,
    pub protocol: Protocol,
}

impl Default for ListenAddress {
    /// Listens for TCP on every interface at port 4242.
    fn default() -> (r: ListenAddress)
        ensures
            r.host@ == "0.0.0.0"@,
            r.port == 4242,
            r.protocol == Protocol::Tcp,
    {
        ListenAddress { host: "0.0.0.0".to_owned(), port: 4242, protocol: Protocol::Tcp }
    }
}

/// The three-byte separator `://` starts at `k`.
pub open spec fn sep_at(s: Seq<u8>, k: int) -> bool {
    &&& 0 <= k
    &&& k + 3 <= s.len()
    &&& s[k] == 58u8
    &&& s[k + 1] == 47u8
    &&& s[k + 2] == 47u8
}

/// A colon byte sits at `c`.
pub open spec fn colon_at(s: Seq<u8>, c: int) -> bool {
    0 <= c < s.len() && s[c] == 58u8
}

/// A decimal digit byte.
pub open spec fn dec_digit(b: u8) -> bool {
    48 <= b <= 57
}

/// The value of a run of decimal digit bytes.
pub open spec fn dec_val(s: Seq<u8>) -> int
    decreases s.len(),
{
    if s.len() == 0 {
        0
    } else {
        dec_val(s.drop_last()) * 10 + (s.last() - 48)
    }
}

/// The digit run of a port number: what stands after an optional leading
/// plus sign.
pub open spec fn digits_of(s: Seq<u8>) -> Seq<u8> {
    if s.len() > 0 && s[0] == 43u8 {
        s.drop_first()
    } else {
        s
    }
}

/// How a port number reads: an optional leading plus sign, then at least
/// one decimal digit, with a value of at most 65535.
pub open spec fn parse_u16(s: Seq<u8>) -> Option<u16> {
    let digits = digits_of(s);
    if digits.len() > 0 && (forall|i: int| 0 <= i < digits.len() ==> dec_digit(#[trigger] digits[i]))
        && dec_val(digits) <= 65535 {
        Some(dec_val(digits) as u16)
    } else {
        None
    }
}

/// How a listen address reads: exactly one `://` separating a protocol
/// name from the rest, and exactly one colon separating the host from the
/// port.  The host's bytes must decode as text.
pub open spec fn parse_listen(s: Seq<u8>) -> Result<(Protocol, Seq<u8>, u16), ParseError> {
    if exists|k: int| #[trigger] sep_at(s, k) && (forall|j: int| sep_at(s, j) ==> j == k) {
        let k = choose|k: int| #[trigger] sep_at(s, k) && (forall|j: int| sep_at(s, j) ==> j == k);
        let rest = s.subrange(k + 3, s.len() as int);
        match protocol_of(s.subrange(0, k)) {
            None => Err(ParseError::InvalidProtocol),
            Some(p) => {
                if exists|c: int| #[trigger] colon_at(rest, c) && (forall|j: int|
                    colon_at(rest, j) ==> j == c) {
                    let c = choose|c: int|
                        #[trigger] colon_at(rest, c) && (forall|j: int|
                            colon_at(rest, j) ==> j == c);
                    let host = rest.subrange(0, c);
                    if !valid_utf8(host) {
                        Err(ParseError::InvalidListenAddress)
                    } else {
                        match parse_u16(rest.subrange(c + 1, rest.len() as int)) {
                            Some(port) => Ok((p, host, port)),
                            None => Err(ParseError::InvalidPort),
                        }
                    }
                } else {
                    Err(ParseError::InvalidListenAddress)
                }
            },
        }
    } else {
        Err(ParseError::InvalidListenAddress)
    }
}

/// Relies on String::from_utf8: it succeeds exactly on valid UTF-8 input
/// and keeps the bytes as they are.
#[verifier::external_body]
fn bytes_to_string(b: Vec<u8>) -> (r: Option<String>)
    ensures
        r is Some <==> valid_utf8(b@),
        r matches Some(s) ==> encode_utf8(s@) == b@,
{
    String::from_utf8(b).ok()
}

/// Copies `slice[from..to]` into a fresh vector.
fn copy_range(slice: &[u8], from: usize, to: usize) -> (r: Vec<u8>)
    requires
        from <= to <= slice@.len(),
    ensures
        r@ == slice@.subrange(from as int, to as int),
{
    let mut out: Vec<u8> = Vec::new();
    let mut i: usize = from;
    while i < to
        invariant
            from <= i <= to <= slice@.len(),
            out@ == slice@.subrange(from as int, i as int),
        decreases to - i,
    {
        out.push(slice[i]);
        proof {
            assert(slice@.subrange(from as int, i as int) + seq![slice@[i as int]]
                =~= slice@.subrange(from as int, i as int + 1));
        }
        i = i + 1;
    }
    out
}

/// Parses the digits of a port number.
fn parse_port(bytes: &[u8]) -> (r: Option<u16>)
    ensures
        r == parse_u16(bytes@),
{
    let digits: &[u8] = if bytes.len() > 0 && bytes[0] == 43u8 {
        slice_subrange(bytes, 1, bytes.len())
    } else {
        slice_subrange(bytes, 0, bytes.len())
    };
    proof {
        if bytes@.len() > 0 && bytes@[0] == 43u8 {
            assert(digits@ =~= bytes@.drop_first());
        } else {
            assert(digits@ =~= bytes@);
        }
    }
    if digits.len() == 0 {
        return None;
    }
    let mut val: u32 = 0;
    let mut too_big: bool = false;
    let mut i: usize = 0;
    proof {
        assert(digits@.subrange(0, 0) =~= Seq::<u8>::empty());
    }
    while i < digits.len()
        invariant
            digits@ == digits_of(bytes@),
            digits@.len() > 0,
            i <= digits@.len(),
            forall|j: int| 0 <= j < i ==> dec_digit(#[trigger] digits@[j]),
            too_big <==> dec_val(digits@.subrange(0, i as int)) > 65535,
            !too_big ==> val == dec_val(digits@.subrange(0, i as int)),
            val <= 65535,
        decreases digits@.len() - i,
    {
        let b = digits[i];
        if b < 48u8 || b > 57u8 {
            proof {
                assert(!dec_digit(digits_of(bytes@)[i as int]));
            }
            return None;
        }
        proof {
            let pre = digits@.subrange(0, i as int + 1);
            assert(pre.drop_last() =~= digits@.subrange(0, i as int));
            assert(pre.last() == digits@[i as int]);
        }
        if too_big {
        } else {
            let next = val * 10 + (b - 48u8) as u32;
            if next > 65535 {
                too_big = true;
            } else {
                val = next;
            }
        }
        i = i + 1;
    }
    proof {
        assert(digits@.subrange(0, digits@.len() as int) =~= digits@);
    }
    if too_big {
        None
    } else {
        Some(val as u16)
    }
}

/// Finds the only `://` separator, or reports that there is none or more
/// than one.
fn find_unique_sep(bytes: &[u8]) -> (r: Option<usize>)
    ensures
        match r {
            Some(k) => sep_at(bytes@, k as int) && (forall|j: int|
                sep_at(bytes@, j) ==> j == k as int),
            None => !(exists|k: int|
                #[trigger] sep_at(bytes@, k) && (forall|j: int| sep_at(bytes@, j) ==> j == k)),
        },
{
    let mut k: usize = 0;
    let mut found: bool = false;
    while !found && bytes.len() - k >= 3
        invariant
            k <= bytes@.len(),
            !found ==> forall|j: int| 0 <= j < k ==> !sep_at(bytes@, j),
            found ==> sep_at(bytes@, k as int) && (forall|j: int|
                0 <= j < k ==> !sep_at(bytes@, j)),
        decreases bytes@.len() - k, (if found {
            0int
        } else {
            1int
        }),
    {
        if bytes[k] == 58u8 && bytes[k + 1] == 47u8 && bytes[k + 2] == 47u8 {
            found = true;
        } else {
            k = k + 1;
        }
    }
    if !found {
        proof {
            assert forall|j: int| !sep_at(bytes@, j) by {
                if 0 <= j && j + 3 <= bytes@.len() {
                    assert(!sep_at(bytes@, j));
                }
            }
        }
        return None;
    }
    let n = bytes.len();
    proof {
        assert(k as int + 3 <= n as int);
    }
    let mut j: usize = k + 1;
    while bytes.len() - j >= 3
        invariant
            k < j,
            j <= bytes@.len(),
            sep_at(bytes@, k as int),
            forall|i: int| 0 <= i < k ==> !sep_at(bytes@, i),
            forall|i: int| k < i < j ==> !sep_at(bytes@, i),
        decreases bytes@.len() - j,
    {
        if bytes[j] == 58u8 && bytes[j + 1] == 47u8 && bytes[j + 2] == 47u8 {
            proof {
                assert(sep_at(bytes@, j as int));
                assert forall|k2: int|
                    !(#[trigger] sep_at(bytes@, k2) && (forall|i: int|
                        sep_at(bytes@, i) ==> i == k2)) by {
                    if sep_at(bytes@, k2) {
                        if k2 == k as int {
                            assert(sep_at(bytes@, j as int) && j as int != k2);
                        } else {
                            assert(sep_at(bytes@, k as int) && k as int != k2);
                        }
                    }
                }
            }
            return None;
        }
        j = j + 1;
    }
    proof {
        assert forall|i: int| sep_at(bytes@, i) implies i == k as int by {
            if i < k as int {
                assert(!sep_at(bytes@, i));
            } else if (k as int) < i {
                assert(!sep_at(bytes@, i));
            }
        }
    }
    Some(k)
}

/// Finds the only colon of `bytes`, or reports that there is none or more
/// than one.
fn find_unique_colon(bytes: &[u8]) -> (r: Option<usize>)
    ensures
        match r {
            Some(c) => colon_at(bytes@, c as int) && (forall|j: int|
                colon_at(bytes@, j) ==> j == c as int),
            None => !(exists|c: int|
                #[trigger] colon_at(bytes@, c) && (forall|j: int|
                    colon_at(bytes@, j) ==> j == c)),
        },
{
    let mut c: usize = 0;
    let mut found: bool = false;
    while !found && c < bytes.len()
        invariant
            c <= bytes@.len(),
            !found ==> forall|j: int| 0 <= j < c ==> !colon_at(bytes@, j),
            found ==> colon_at(bytes@, c as int) && (forall|j: int|
                0 <= j < c ==> !colon_at(bytes@, j)),
        decreases bytes@.len() - c, (if found {
            0int
        } else {
            1int
        }),
    {
        if bytes[c] == 58u8 {
            found = true;
        } else {
            c = c + 1;
        }
    }
    if !found {
        return None;
    }
    let n = bytes.len();
    proof {
        assert((c as int) < n as int);
    }
    let mut j: usize = c + 1;
    while j < bytes.len()
        invariant
            c < j,
            j <= bytes@.len(),
            colon_at(bytes@, c as int),
            forall|i: int| 0 <= i < c ==> !colon_at(bytes@, i),
            forall|i: int| c < i < j ==> !colon_at(bytes@, i),
        decreases bytes@.len() - j,
    {
        if bytes[j] == 58u8 {
            proof {
                assert(colon_at(bytes@, j as int));
                assert forall|c2: int|
                    !(#[trigger] colon_at(bytes@, c2) && (forall|i: int|
                        colon_at(bytes@, i) ==> i == c2)) by {
                    if colon_at(bytes@, c2) {
                        if c2 == c as int {
                            assert(colon_at(bytes@, j as int) && j as int != c2);
                        } else {
                            assert(colon_at(bytes@, c as int) && c as int != c2);
                        }
                    }
                }
            }
            return None;
        }
        j = j + 1;
    }
    proof {
        assert forall|i: int| colon_at(bytes@, i) implies i == c as int by {
            if i < c as int {
                assert(!colon_at(bytes@, i));
            } else if (c as int) < i {
                assert(!colon_at(bytes@, i));
            }
        }
    }
    Some(c)
}

impl ListenAddress {
    /// Parses `protocol://host:port`, as [`parse_listen`] states it: the
    /// protocol name before the only `://`, then the host, then a port
    /// number after the only colon of the remainder.
    pub fn from_str(s: &str) -> (r: Result<ListenAddress, ParseError>)
        ensures
            match r {
                Ok(a) => {
                    &&& parse_listen(s.spec_bytes()) matches Ok(t)
                    &&& t.0 == a.protocol
                    &&& encode_utf8(a.host@) == t.1
                    &&& t.2 == a.port
                },
                Err(e) => parse_listen(s.spec_bytes()) == Err::<(Protocol, Seq<u8>, u16),
                    ParseError>(e),
            },
    {
        let bytes = s.as_bytes();
        let ghost bs = s.spec_bytes();
        let k = match find_unique_sep(bytes) {
            Some(k) => k,
            None => {
                return Err(ParseError::InvalidListenAddress);
            },
        };
        proof {
            let kk = choose|kc: int|
                #[trigger] sep_at(bs, kc) && (forall|i: int| sep_at(bs, i) ==> i == kc);
            assert(sep_at(bs, k as int) && (forall|i: int| sep_at(bs, i) ==> i == k as int));
            assert(kk == k as int);
        }
        let n = bytes.len();
        proof {
            assert(k as int + 3 <= n as int);
        }
        let proto_part = slice_subrange(bytes, 0, k);
        let proto = match crate::config_types::eq_to_protocol(proto_part) {
            Some(p) => p,
            None => {
                return Err(ParseError::InvalidProtocol);
            },
        };
        let rest_part = slice_subrange(bytes, k + 3, bytes.len());
        let ghost rest = bs.subrange(k as int + 3, bs.len() as int);
        let c = match find_unique_colon(rest_part) {
            Some(c) => c,
            None => {
                return Err(ParseError::InvalidListenAddress);
            },
        };
        proof {
            let cc = choose|cx: int|
                #[trigger] colon_at(rest, cx) && (forall|i: int| colon_at(rest, i) ==> i == cx);
            assert(colon_at(rest, c as int) && (forall|i: int| colon_at(rest, i) ==> i == c as int));
            assert(cc == c as int);
        }
        let host_bytes = copy_range(rest_part, 0, c);
        let host = match bytes_to_string(host_bytes) {
            Some(h) => h,
            None => {
                return Err(ParseError::InvalidListenAddress);
            },
        };
        let port_part = slice_subrange(rest_part, c + 1, rest_part.len());
        let port = match parse_port(port_part) {
            Some(p) => p,
            None => {
                return Err(ParseError::InvalidPort);
            },
        };
        Ok(ListenAddress { host, port, protocol: proto })
    }
}

} // verus!
