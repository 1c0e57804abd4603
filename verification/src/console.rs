//! The process-control console: one line of input read from the
//! operator, trimmed of whitespace, decides whether to reset the
//! aggregator, quit the process, or do nothing.

use vstd::prelude::*;

use crate::validate::lossy_utf8;
use crate::validate::unicode_whitespace;
use crate::validate::utf8_lossy_chars;

verus! {

use vstd::string::StringSliceAdditionalSpecFns;

/// What one console line asks for.
#[derive(Clone, Copy, Debug, PartialEq, Eq, Structural)]
pub enum ConsoleCommand {
    /// Zero the aggregator's counters.
    ResetStats,
    /// Terminate the process at once.
    Quit,
    /// Anything else: ignored.
    Ignore,
}

/// `s` without its leading whitespace.
pub open spec fn trim_front(s: Seq<char>) -> Seq<char>
    decreases s.len(),
{
    if s.len() > 0 && unicode_whitespace(s[0]) {
        trim_front(s.drop_first())
    } else {
        s
    }
}

/// `s` without its trailing whitespace.
pub open spec fn trim_back(s: Seq<char>) -> Seq<char>
    decreases s.len(),
{
    if s.len() > 0 && unicode_whitespace(s.last()) {
        trim_back(s.drop_last())
    } else {
        s
    }
}

/// `s` without leading and trailing whitespace.
pub open spec fn trimmed(s: Seq<char>) -> Seq<char> {
    trim_back(trim_front(s))
}

/// Dropping `lo` leading whitespace characters is all that trimming the
/// front does.
proof fn lemma_trim_front_skips(s: Seq<char>, lo: int)
    requires
        0 <= lo <= s.len(),
        forall|j: int| 0 <= j < lo ==> unicode_whitespace(#[trigger] s[j]),
        lo < s.len() ==> !unicode_whitespace(s[lo]),
    ensures
        trim_front(s) == s.skip(lo),
    decreases lo,
{
    if lo == 0 {
        assert(s.skip(0) =~= s);
    } else {
        assert(unicode_whitespace(s[0]));
        lemma_trim_front_skips(s.drop_first(), lo - 1);
        assert(s.drop_first().skip(lo - 1) =~= s.skip(lo));
    }
}

/// Dropping everything from `hi` on, all of it whitespace, is all that
/// trimming the back does.
proof fn lemma_trim_back_takes(s: Seq<char>, hi: int)
    requires
        0 <= hi <= s.len(),
        forall|j: int| hi <= j < s.len() ==> unicode_whitespace(#[trigger] s[j]),
        hi > 0 ==> !unicode_whitespace(s[hi - 1]),
    ensures
        trim_back(s) == s.take(hi),
    decreases s.len(),
{
    if hi == s.len() {
        if s.len() > 0 && unicode_whitespace(s.last()) {
            assert(!unicode_whitespace(s[hi - 1]));
        }
        assert(s.take(hi) =~= s);
    } else {
        assert(unicode_whitespace(s.last()));
        lemma_trim_back_takes(s.drop_last(), hi);
        assert(s.drop_last().take(hi) =~= s.take(hi));
    }
}

/// Reads one console line: `rs` resets the counters and `q` quits, each
/// compared after trimming whitespace; anything else is ignored.
pub fn parse_console_command(line: &str) -> (r: ConsoleCommand)
    ensures
        (r == ConsoleCommand::ResetStats) <==> trimmed(lossy_utf8(line.spec_bytes())) == seq![
            'r',
            's',
        ],
        (r == ConsoleCommand::Quit) <==> trimmed(lossy_utf8(line.spec_bytes())) == seq!['q'],
{
    let chars = utf8_lossy_chars(line.as_bytes());
    let n = chars.len();
    let mut lo: usize = 0;
    while lo < n && chars[lo].is_whitespace()
        invariant
            n == chars@.len(),
            lo <= n,
            forall|j: int| 0 <= j < lo ==> unicode_whitespace(#[trigger] chars@[j]),
        decreases n - lo,
    {
        lo = lo + 1;
    }
    let mut hi: usize = n;
    while hi > lo && chars[hi - 1].is_whitespace()
        invariant
            n == chars@.len(),
            lo <= hi <= n,
            forall|j: int| 0 <= j < lo ==> unicode_whitespace(#[trigger] chars@[j]),
            lo < n ==> !unicode_whitespace(chars@[lo as int]),
            forall|j: int| hi <= j < n ==> unicode_whitespace(#[trigger] chars@[j]),
        decreases hi,
    {
        hi = hi - 1;
    }
    proof {
        lemma_trim_front_skips(chars@, lo as int);
        let t = chars@.skip(lo as int);
        lemma_trim_back_takes(t, hi - lo);
        assert(trimmed(chars@) == t.take(hi - lo));
        assert forall|j: int|
            0 <= j < hi - lo implies #[trigger] t.take(hi - lo)[j] == chars@[lo + j] by {}
    }
    if hi - lo == 2 && chars[lo] == 'r' && chars[lo + 1] == 's' {
        proof {
            assert(trimmed(chars@) =~= seq!['r', 's']);
        }
        ConsoleCommand::ResetStats
    } else if hi - lo == 1 && chars[lo] == 'q' {
        proof {
            assert(trimmed(chars@) =~= seq!['q']);
        }
        ConsoleCommand::Quit
    } else {
        proof {
            let t = trimmed(chars@);
            assert(t.len() == hi - lo);
            if t == seq!['r', 's'] {
                assert(t[0] == 'r' && t[1] == 's');
                assert(chars@[lo as int] == 'r' && chars@[lo as int + 1] == 's');
            }
            if t == seq!['q'] {
                assert(t[0] == 'q');
                assert(chars@[lo as int] == 'q');
            }
        }
        ConsoleCommand::Ignore
    }
}

} // verus!
