//! RFC 3164 syslog events on the emitter side: the event's fields and
//! its wire form, rendered digit by digit.
//!
//! The timestamp stands as broken-out calendar fields; converting a
//! clock reading into them happens outside the library.

use vstd::prelude::*;

use crate::generators::RandomStringGenerator;

verus! {

use vstd::string::StringExecFns;
use vstd::utf8::encode_utf8;

/// The digit character of one decimal digit.
pub open spec fn digit_char(d: nat) -> char {
    if d == 0 {
        '0'
    } else if d == 1 {
        '1'
    } else if d == 2 {
        '2'
    } else if d == 3 {
        '3'
    } else if d == 4 {
        '4'
    } else if d == 5 {
        '5'
    } else if d == 6 {
        '6'
    } else if d == 7 {
        '7'
    } else if d == 8 {
        '8'
    } else {
        '9'
    }
}

/// The decimal digits of `n`, most significant first.
pub open spec fn dec_str(n: nat) -> Seq<char>
    decreases n,
{
    if n < 10 {
        seq![digit_char(n)]
    } else {
        dec_str(n / 10) + seq![digit_char(n % 10)]
    }
}

/// `n` as two characters, zero-padded.
pub open spec fn pad2(n: nat) -> Seq<char> {
    if n < 10 {
        seq!['0', digit_char(n)]
    } else {
        dec_str(n)
    }
}

/// `n` as two characters, space-padded, as the day of a syslog
/// timestamp is written.
pub open spec fn day_pad(n: nat) -> Seq<char> {
    if n < 10 {
        seq![' ', digit_char(n)]
    } else {
        dec_str(n)
    }
}

/// The three-letter abbreviation of month `m`.
pub open spec fn month_abbrev(m: nat) -> Seq<char> {
    if m == 1 {
        seq!['J', 'a', 'n']
    } else if m == 2 {
        seq!['F', 'e', 'b']
    } else if m == 3 {
        seq!['M', 'a', 'r']
    } else if m == 4 {
        seq!['A', 'p', 'r']
    } else if m == 5 {
        seq!['M', 'a', 'y']
    } else if m == 6 {
        seq!['J', 'u', 'n']
    } else if m == 7 {
        seq!['J', 'u', 'l']
    } else if m == 8 {
        seq!['A', 'u', 'g']
    } else if m == 9 {
        seq!['S', 'e', 'p']
    } else if m == 10 {
        seq!['O', 'c', 't']
    } else if m == 11 {
        seq!['N', 'o', 'v']
    } else {
        seq!['D', 'e', 'c']
    }
}

/// One RFC 3164 syslog event, its timestamp already broken out into
/// calendar fields.
#[derive(Clone, Debug)]
pub struct Syslog3164 {
    pub month: u8,
    pub day: u8,
    pub hour: u8,
    pub minute: u8,
    pub second: u8,
    pub message: String,
    pub facility: u8,
    pub severity: u8,
    pub app_name: String,
    pub pid: u16,
    pub hostname: String,
}

/// The wire form of an event: priority in angle brackets, the timestamp,
/// hostname, application name and process id, then the message, ending
/// in a newline.
pub open spec fn serialized(e: Syslog3164) -> Seq<char> {
    seq!['<'] + dec_str((e.facility * 8 + e.severity) as nat) + seq!['>'] + month_abbrev(
        e.month as nat,
    ) + seq![' '] + day_pad(e.day as nat) + seq![' '] + pad2(e.hour as nat) + seq![':'] + pad2(
        e.minute as nat,
    ) + seq![':'] + pad2(e.second as nat) + seq![' '] + e.hostname@ + seq![' '] + e.app_name@
        + seq!['['] + dec_str(e.pid as nat) + seq![']', ':', ' '] + e.message@ + seq!['\n']
}

/// Relies on String::into_bytes as documented: the string's UTF-8 bytes.
pub assume_specification[ String::into_bytes ](s: String) -> (r: Vec<u8>)
    ensures
        r@ == encode_utf8(s@),
;

/// One decimal digit as text.
fn digit_str(d: u64) -> (r: &'static str)
    requires
        d < 10,
    ensures
        r@ == seq![digit_char(d as nat)],
{
    proof {
        reveal_strlit("0");
        reveal_strlit("1");
        reveal_strlit("2");
        reveal_strlit("3");
        reveal_strlit("4");
        reveal_strlit("5");
        reveal_strlit("6");
        reveal_strlit("7");
        reveal_strlit("8");
        reveal_strlit("9");
        assert("0"@ =~= seq!['0']);
        assert("1"@ =~= seq!['1']);
        assert("2"@ =~= seq!['2']);
        assert("3"@ =~= seq!['3']);
        assert("4"@ =~= seq!['4']);
        assert("5"@ =~= seq!['5']);
        assert("6"@ =~= seq!['6']);
        assert("7"@ =~= seq!['7']);
        assert("8"@ =~= seq!['8']);
        assert("9"@ =~= seq!['9']);
    }
    if d == 0 {
        "0"
    } else if d == 1 {
        "1"
    } else if d == 2 {
        "2"
    } else if d == 3 {
        "3"
    } else if d == 4 {
        "4"
    } else if d == 5 {
        "5"
    } else if d == 6 {
        "6"
    } else if d == 7 {
        "7"
    } else if d == 8 {
        "8"
    } else {
        "9"
    }
}

/// Appends the decimal digits of `n`.
fn push_dec(out: &mut String, n: u64)
    ensures
        final(out)@ == old(out)@ + dec_str(n as nat),
    decreases n,
{
    if n < 10 {
        out.append(digit_str(n));
    } else {
        push_dec(out, n / 10);
        out.append(digit_str(n % 10));
        proof {
            assert((old(out)@ + dec_str((n / 10) as nat)) + seq![digit_char((n % 10) as nat)]
                =~= old(out)@ + (dec_str((n / 10) as nat) + seq![digit_char((n % 10) as nat)]));
        }
    }
}

/// Appends `n` as two characters, zero-padded.
fn push_pad2(out: &mut String, n: u64)
    requires
        n < 100,
    ensures
        final(out)@ == old(out)@ + pad2(n as nat),
{
    if n < 10 {
        proof {
            reveal_strlit("0");
            assert("0"@ =~= seq!['0']);
        }
        out.append("0");
        out.append(digit_str(n));
        proof {
            assert((old(out)@ + seq!['0']) + seq![digit_char(n as nat)] =~= old(out)@ + seq![
                '0',
                digit_char(n as nat),
            ]);
        }
    } else {
        push_dec(out, n);
    }
}

/// Appends `n` as two characters, space-padded.
fn push_day(out: &mut String, n: u64)
    requires
        n < 100,
    ensures
        final(out)@ == old(out)@ + day_pad(n as nat),
{
    if n < 10 {
        proof {
            reveal_strlit(" ");
            assert(" "@ =~= seq![' ']);
        }
        out.append(" ");
        out.append(digit_str(n));
        proof {
            assert((old(out)@ + seq![' ']) + seq![digit_char(n as nat)] =~= old(out)@ + seq![
                ' ',
                digit_char(n as nat),
            ]);
        }
    } else {
        push_dec(out, n);
    }
}

/// The month's three-letter abbreviation as text.
fn month_str(m: u8) -> (r: &'static str)
    requires
        1 <= m <= 12,
    ensures
        r@ == month_abbrev(m as nat),
{
    proof {
        reveal_strlit("Jan");
        reveal_strlit("Feb");
        reveal_strlit("Mar");
        reveal_strlit("Apr");
        reveal_strlit("May");
        reveal_strlit("Jun");
        reveal_strlit("Jul");
        reveal_strlit("Aug");
        reveal_strlit("Sep");
        reveal_strlit("Oct");
        reveal_strlit("Nov");
        reveal_strlit("Dec");
        assert("Jan"@ =~= seq!['J', 'a', 'n']);
        assert("Feb"@ =~= seq!['F', 'e', 'b']);
        assert("Mar"@ =~= seq!['M', 'a', 'r']);
        assert("Apr"@ =~= seq!['A', 'p', 'r']);
        assert("May"@ =~= seq!['M', 'a', 'y']);
        assert("Jun"@ =~= seq!['J', 'u', 'n']);
        assert("Jul"@ =~= seq!['J', 'u', 'l']);
        assert("Aug"@ =~= seq!['A', 'u', 'g']);
        assert("Sep"@ =~= seq!['S', 'e', 'p']);
        assert("Oct"@ =~= seq!['O', 'c', 't']);
        assert("Nov"@ =~= seq!['N', 'o', 'v']);
        assert("Dec"@ =~= seq!['D', 'e', 'c']);
    }
    if m == 1 {
        "Jan"
    } else if m == 2 {
        "Feb"
    } else if m == 3 {
        "Mar"
    } else if m == 4 {
        "Apr"
    } else if m == 5 {
        "May"
    } else if m == 6 {
        "Jun"
    } else if m == 7 {
        "Jul"
    } else if m == 8 {
        "Aug"
    } else if m == 9 {
        "Sep"
    } else if m == 10 {
        "Oct"
    } else if m == 11 {
        "Nov"
    } else {
        "Dec"
    }
}

impl Syslog3164 {
    /// Renders the event in its RFC 3164 wire form, as [`serialized`]
    /// states it, and hands back the UTF-8 bytes.
    pub fn serialize(&self) -> (r: Vec<u8>)
        requires
            1 <= self.month <= 12,
            1 <= self.day <= 31,
            self.hour < 24,
            self.minute < 60,
            self.second < 60,
            self.facility < 24,
            self.severity < 8,
        ensures
            r@ == encode_utf8(serialized(*self)),
    {
        proof {
            reveal_strlit("<");
            reveal_strlit(">");
            reveal_strlit(" ");
            reveal_strlit(":");
            reveal_strlit("[");
            reveal_strlit("]: ");
            reveal_strlit("\n");
            assert("<"@ =~= seq!['<']);
            assert(">"@ =~= seq!['>']);
            assert(" "@ =~= seq![' ']);
            assert(":"@ =~= seq![':']);
            assert("["@ =~= seq!['[']);
            assert("]: "@ =~= seq![']', ':', ' ']);
            assert("\n"@ =~= seq!['\n']);
        }
        let pri: u64 = self.facility as u64 * 8 + self.severity as u64;
        let mut s = String::new();
        s.append("<");
        proof {
            assert(s@ =~= seq!['<']);
        }
        push_dec(&mut s, pri);
        s.append(">");
        s.append(month_str(self.month));
        s.append(" ");
        push_day(&mut s, self.day as u64);
        s.append(" ");
        push_pad2(&mut s, self.hour as u64);
        s.append(":");
        push_pad2(&mut s, self.minute as u64);
        s.append(":");
        push_pad2(&mut s, self.second as u64);
        s.append(" ");
        s.append(self.hostname.as_str());
        s.append(" ");
        s.append(self.app_name.as_str());
        s.append("[");
        push_dec(&mut s, self.pid as u64);
        s.append("]: ");
        s.append(self.message.as_str());
        s.append("\n");
        proof {
            assert(s@ == serialized(*self));
        }
        s.into_bytes()
    }
}

/// A generator of RFC 3164 events: the shared text pools and a running
/// event index.
pub struct Syslog3164EventGenerator {
    pub message_generator: RandomStringGenerator,
    pub message_index: u64,
}

impl Syslog3164EventGenerator {
    /// Starts counting events at zero.
    pub fn new(message_generator: RandomStringGenerator) -> (r: Syslog3164EventGenerator)
        ensures
            r.message_generator == message_generator,
            r.message_index == 0,
    {
        Syslog3164EventGenerator { message_generator, message_index: 0 }
    }

    /// The text of one generated event: its running index, a fresh
    /// unique id, and a drawn message.
    pub fn compose_message(index: u64, uuid: &String, msg: &String) -> (r: String)
        ensures
            r@ == "idx="@ + dec_str(index as nat) + ", uuid="@ + uuid@ + ", msg="@ + msg@,
    {
        let mut s = String::new();
        s.append("idx=");
        proof {
            assert(s@ =~= "idx="@);
        }
        push_dec(&mut s, index);
        s.append(", uuid=");
        s.append(uuid.as_str());
        s.append(", msg=");
        s.append(msg.as_str());
        s
    }
}

} // verus!
