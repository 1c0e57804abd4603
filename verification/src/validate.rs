//! Structural message validation: classifies a framed message buffer as
//! acceptable or not for a configured message type.
//!
//! The checks are deliberately cheap: they reject obviously malformed
//! traffic rather than enforce full protocol conformance.

use vstd::prelude::*;

use crate::config_types::MessageType;

verus! {

/// Whether a byte sequence parses as one well-formed JSON document.
pub uninterp spec fn json_ok(bytes: Seq<u8>) -> bool;

/// The characters a byte sequence decodes to as UTF-8, with malformed
/// sequences replaced rather than rejected.
pub uninterp spec fn lossy_utf8(bytes: Seq<u8>) -> Seq<char>;

/// Whether a character counts as whitespace for token splitting.
pub uninterp spec fn unicode_whitespace(c: char) -> bool;

/// Relies on serde_json::from_slice::<serde_json::Value>: whether the
/// bytes parse as one JSON document, an outcome that depends on the
/// bytes alone.  This call is itself the validity oracle the contracts
/// speak of; note that the parser also bounds nesting depth.
#[verifier::external_body]
fn json_parses(bytes: &[u8]) -> (r: bool)
    ensures
        r == json_ok(bytes@),
{
    serde_json::from_slice::<serde_json::Value>(bytes).is_ok()
}

/// Relies on String::from_utf8_lossy: the decoded text depends on the
/// bytes alone, and empty input decodes to empty text.
#[verifier::external_body]
pub(crate) fn utf8_lossy_chars(bytes: &[u8]) -> (r: Vec<char>)
    ensures
        r@ == lossy_utf8(bytes@),
        bytes@.len() == 0 ==> r@.len() == 0,
{
    String::from_utf8_lossy(bytes).chars().collect()
}

/// Relies on char::is_whitespace as documented: whether the character has
/// the Unicode whitespace property, a function of the character alone.
pub assume_specification[ char::is_whitespace ](c: char) -> (r: bool)
    ensures
        r == unicode_whitespace(c),
;

/// A structurally plausible RFC 3164 syslog message: starts with `<` and
/// has a `>` byte somewhere.
pub open spec fn syslog3164_valid(m: Seq<u8>) -> bool {
    &&& m.len() > 0
    &&& m[0] == 60u8
    &&& exists|i: int| 0 <= i < m.len() && #[trigger] m[i] == 62u8
}

/// The number of maximal whitespace-separated tokens of the text left of
/// `s`, when the character before `s` counts as whitespace iff `in_ws`.
pub open spec fn count_tokens_from(s: Seq<char>, in_ws: bool) -> nat
    decreases s.len(),
{
    if s.len() == 0 {
        0
    } else {
        let c_ws = unicode_whitespace(s[0]);
        let add: nat = if in_ws && !c_ws {
            1
        } else {
            0
        };
        add + count_tokens_from(s.drop_first(), c_ws)
    }
}

/// The number of maximal whitespace-separated tokens of `s`.
pub open spec fn count_tokens(s: Seq<char>) -> nat {
    count_tokens_from(s, true)
}

/// Whether the text holds `>1 ` as a substring.
pub open spec fn contains_gt1sp(s: Seq<char>) -> bool {
    exists|k: int|
        0 <= k && k + 3 <= s.len() && #[trigger] s[k] == '>' && s[k + 1] == '1' && s[k + 2]
            == ' '
}

/// A structurally plausible RFC 5424 syslog message, judged on the lossy
/// UTF-8 decoding of its bytes: starts with `<`, holds `>1 `, and splits
/// into at least seven whitespace-separated tokens.
pub open spec fn syslog5424_valid(m: Seq<u8>) -> bool {
    let s = lossy_utf8(m);
    &&& s.len() > 0
    &&& s[0] == '<'
    &&& contains_gt1sp(s)
    &&& count_tokens(s) >= 7
}

/// What the configured message type accepts.
pub open spec fn valid_message(m: Seq<u8>, typ: MessageType) -> bool {
    match typ {
        MessageType::Syslog3164 => syslog3164_valid(m),
        MessageType::Syslog5424 => syslog5424_valid(m),
        MessageType::NdJson => json_ok(m),
    }
}

/// Checks the RFC 3164 shape: a `<` first byte and a `>` byte anywhere.
pub fn validate_syslog3164(message: &[u8]) -> (r: bool)
    ensures
        r == syslog3164_valid(message@),
{
    if message.len() == 0 || message[0] != 60u8 {
        return false;
    }
    let mut i: usize = 0;
    while i < message.len()
        invariant
            i <= message@.len(),
            message@.len() > 0,
            message@[0] == 60u8,
            forall|j: int| 0 <= j < i ==> message@[j] != 62u8,
        decreases message@.len() - i,
    {
        if message[i] == 62u8 {
            proof {
                assert(0 <= (i as int) < message@.len() && message@[i as int] == 62u8);
            }
            return true;
        }
        i = i + 1;
    }
    false
}

/// Counts the whitespace-separated tokens of `chars`.
fn count_ws_tokens(chars: &Vec<char>) -> (r: usize)
    ensures
        r == count_tokens(chars@),
{
    let mut count: usize = 0;
    let mut in_ws: bool = true;
    let mut i: usize = 0;
    proof {
        assert(chars@.skip(0) =~= chars@);
    }
    while i < chars.len()
        invariant
            i <= chars@.len(),
            count <= i,
            count + count_tokens_from(chars@.skip(i as int), in_ws) == count_tokens(chars@),
        decreases chars@.len() - i,
    {
        proof {
            assert(chars@.skip(i as int).drop_first() =~= chars@.skip(i as int + 1));
            assert(chars@.skip(i as int)[0] == chars@[i as int]);
        }
        let c_ws = chars[i].is_whitespace();
        if in_ws && !c_ws {
            count = count + 1;
        }
        in_ws = c_ws;
        i = i + 1;
    }
    proof {
        assert(chars@.skip(i as int) =~= Seq::<char>::empty());
    }
    count
}

/// Looks for the substring `>1 ` in `chars`.
fn find_gt1sp(chars: &Vec<char>) -> (r: bool)
    ensures
        r == contains_gt1sp(chars@),
{
    if chars.len() < 3 {
        return false;
    }
    let mut k: usize = 0;
    while k < chars.len() - 2
        invariant
            chars@.len() >= 3,
            k + 2 <= chars@.len(),
            forall|j: int|
                0 <= j < k ==> !(#[trigger] chars@[j] == '>' && chars@[j + 1] == '1'
                    && chars@[j + 2] == ' '),
        decreases chars@.len() - k,
    {
        if chars[k] == '>' && chars[k + 1] == '1' && chars[k + 2] == ' ' {
            return true;
        }
        k = k + 1;
    }
    false
}

/// Checks the RFC 5424 shape on the lossily decoded text: a leading `<`,
/// the substring `>1 `, and at least seven whitespace-separated tokens.
pub fn validate_syslog5424(message: &[u8]) -> (r: bool)
    ensures
        r == syslog5424_valid(message@),
{
    let chars = utf8_lossy_chars(message);
    if chars.len() == 0 || chars[0] != '<' {
        return false;
    }
    if !find_gt1sp(&chars) {
        return false;
    }
    count_ws_tokens(&chars) >= 7
}

/// Checks that the bytes form one well-formed JSON document.
pub fn validate_ndjson(message: &[u8]) -> (r: bool)
    ensures
        r == json_ok(message@),
{
    json_parses(message)
}

/// Classifies a message buffer as structurally valid or invalid for the
/// configured message type.
pub fn validate_message(message: &[u8], typ: &MessageType) -> (r: bool)
    ensures
        r == valid_message(message@, *typ),
{
    match typ {
        MessageType::Syslog3164 => validate_syslog3164(message),
        MessageType::Syslog5424 => validate_syslog5424(message),
        MessageType::NdJson => validate_ndjson(message),
    }
}

} // verus!
