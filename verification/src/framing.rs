//! Stream framing: splitting a growing byte buffer into newline-delimited
//! messages.
//!
//! A message is a run of bytes ending in a newline.  When the stream is
//! known to be finished (`fin`), a trailing run without a newline is
//! drained as one final message.

use vstd::prelude::*;

verus! {

/// The newline byte that terminates a message.
pub open spec fn nl() -> u8 {
    10u8
}

/// True when `s` holds no newline byte at all.
pub open spec fn no_newline(s: Seq<u8>) -> bool {
    forall|i: int| 0 <= i < s.len() ==> s[i] != nl()
}

/// True when `i` is the index of the first newline byte of `s`.
pub open spec fn is_first_newline(s: Seq<u8>, i: int) -> bool {
    &&& 0 <= i < s.len()
    &&& s[i] == nl()
    &&& forall|j: int| 0 <= j < i ==> s[j] != nl()
}

/// What one framing step does to a buffer: the extracted message together
/// with the bytes that remain, or nothing when no message can be framed yet.
pub open spec fn extract_model(s: Seq<u8>, fin: bool) -> Option<(Seq<u8>, Seq<u8>)> {
    if exists|i: int| is_first_newline(s, i) {
        let i = choose|i: int| is_first_newline(s, i);
        Some((s.subrange(0, i + 1), s.subrange(i + 1, s.len() as int)))
    } else if fin && s.len() > 0 {
        Some((s, Seq::<u8>::empty()))
    } else {
        None
    }
}

/// A buffer has at most one first newline.
pub proof fn lemma_first_newline_unique(s: Seq<u8>, i: int, j: int)
    requires
        is_first_newline(s, i),
        is_first_newline(s, j),
    ensures
        i == j,
{
    if i < j {
        assert(s[i] != nl());
    } else if j < i {
        assert(s[j] != nl());
    }
}

/// When the first newline of `s` sits at `i`, a framing step splits `s`
/// right after it.
pub proof fn lemma_extract_at(s: Seq<u8>, i: int, fin: bool)
    requires
        is_first_newline(s, i),
    ensures
        extract_model(s, fin) == Some(
            (s.subrange(0, i + 1), s.subrange(i + 1, s.len() as int)),
        ),
{
    let k = choose|k: int| is_first_newline(s, k);
    lemma_first_newline_unique(s, i, k);
}

/// Removes and returns the first newline-delimited message from `buf`.
///
/// The returned message includes its terminating newline byte and the
/// remainder stays in the buffer.  When no newline is present and `fin` is
/// true, a non-empty buffer is drained whole as one final message.
/// Otherwise the buffer is left untouched and nothing is returned.
pub fn extract_message(buf: &mut Vec<u8>, fin: bool) -> (r: Option<Vec<u8>>)
    ensures
        match r {
            Some(m) => {
                &&& extract_model(old(buf)@, fin) matches Some(p)
                &&& p.0 == m@
                &&& p.1 == final(buf)@
            },
            None => {
                &&& extract_model(old(buf)@, fin) is None
                &&& final(buf)@ == old(buf)@
            },
        },
{
    let mut pos: usize = 0;
    while pos < buf.len() && buf[pos] != 10u8
        invariant
            pos <= buf@.len(),
            forall|j: int| 0 <= j < pos ==> buf@[j] != nl(),
            buf@ == old(buf)@,
        decreases buf@.len() - pos,
    {
        pos = pos + 1;
    }
    if pos < buf.len() {
        proof {
            lemma_extract_at(buf@, pos as int, fin);
        }
        let mut rest = buf.split_off(pos + 1);
        core::mem::swap(buf, &mut rest);
        Some(rest)
    } else {
        proof {
            assert forall|i: int| !is_first_newline(old(buf)@, i) by {
                if 0 <= i < old(buf)@.len() {
                    assert(old(buf)@[i] != nl());
                }
            }
        }
        if fin && buf.len() > 0 {
            let message = buf.split_off(0);
            Some(message)
        } else {
            None
        }
    }
}

/// All messages that repeated framing steps with `fin` false take out of `s`.
pub open spec fn drain_messages(s: Seq<u8>) -> Seq<Seq<u8>>
    decreases s.len(),
{
    match extract_model(s, false) {
        Some(p) => seq![p.0] + drain_messages(p.1),
        None => Seq::<Seq<u8>>::empty(),
    }
}

/// What stays in the buffer once repeated framing steps with `fin` false
/// return nothing further.
pub open spec fn drain_rest(s: Seq<u8>) -> Seq<u8>
    decreases s.len(),
{
    match extract_model(s, false) {
        Some(p) => drain_rest(p.1),
        None => s,
    }
}

/// The total length of a run of messages.
pub open spec fn sum_lens(msgs: Seq<Seq<u8>>) -> nat
    decreases msgs.len(),
{
    if msgs.len() == 0 {
        0
    } else {
        msgs[0].len() + sum_lens(msgs.drop_first())
    }
}

/// All messages that framing takes out of `s` once the stream has ended:
/// the complete ones, then any non-empty trailing run as one final message.
pub open spec fn final_messages(s: Seq<u8>) -> Seq<Seq<u8>> {
    if drain_rest(s).len() > 0 {
        drain_messages(s) + seq![drain_rest(s)]
    } else {
        drain_messages(s)
    }
}

/// A framing step that returns a message takes a non-empty prefix and
/// leaves the remainder.
pub proof fn lemma_extract_some(s: Seq<u8>, fin: bool)
    requires
        extract_model(s, fin) is Some,
    ensures
        extract_model(s, fin) matches Some(p) ==> {
            &&& p.0.len() >= 1
            &&& p.0 + p.1 =~= s
            &&& p.1.len() < s.len()
        },
{
    if exists|i: int| is_first_newline(s, i) {
        let i = choose|i: int| is_first_newline(s, i);
        assert(s.subrange(0, i + 1) + s.subrange(i + 1, s.len() as int) =~= s);
    } else {
        assert(s + Seq::<u8>::empty() =~= s);
    }
}

/// The total length of two runs of messages laid end to end.
pub proof fn lemma_sum_lens_append(a: Seq<Seq<u8>>, b: Seq<Seq<u8>>)
    ensures
        sum_lens(a + b) == sum_lens(a) + sum_lens(b),
    decreases a.len(),
{
    if a.len() == 0 {
        assert(a + b =~= b);
    } else {
        assert((a + b).drop_first() =~= a.drop_first() + b);
        lemma_sum_lens_append(a.drop_first(), b);
    }
}

/// Size accounting for repeated framing steps: the drained messages and
/// the remainder partition the buffer, each message holds at least one
/// byte, and no newline stays in the remainder.
pub proof fn lemma_drain_sizes(s: Seq<u8>)
    ensures
        sum_lens(drain_messages(s)) + drain_rest(s).len() == s.len(),
        drain_messages(s).len() <= sum_lens(drain_messages(s)),
        no_newline(drain_rest(s)),
    decreases s.len(),
{
    match extract_model(s, false) {
        Some(p) => {
            lemma_extract_some(s, false);
            lemma_drain_sizes(p.1);
            assert((seq![p.0] + drain_messages(p.1)).drop_first() =~= drain_messages(p.1));
            assert(p.0.len() + p.1.len() == s.len()) by {
                assert(p.0 + p.1 =~= s);
            }
        },
        None => {
            assert forall|i: int| 0 <= i < s.len() implies s[i] != nl() by {
                if s[i] == nl() {
                    let k = first_newline_witness(s, i);
                    assert(is_first_newline(s, k));
                }
            }
        },
    }
}

/// An index of a newline anywhere in `s` yields an index of the first one.
pub proof fn first_newline_witness(s: Seq<u8>, i: int) -> (k: int)
    requires
        0 <= i < s.len(),
        s[i] == nl(),
    ensures
        is_first_newline(s, k),
    decreases i,
{
    if exists|j: int| 0 <= j < i && s[j] == nl() {
        let j = choose|j: int| 0 <= j < i && s[j] == nl();
        first_newline_witness(s, j)
    } else {
        i
    }
}

/// One end-of-stream framing step peels the first of the remaining final
/// messages; the step returns nothing only on an empty buffer.
pub proof fn lemma_final_step(s: Seq<u8>)
    ensures
        extract_model(s, true) matches Some(p) ==> final_messages(s) == seq![p.0]
            + final_messages(p.1),
        extract_model(s, true) is None ==> s.len() == 0 && final_messages(
            s,
        ) =~= Seq::<Seq<u8>>::empty(),
{
    if exists|i: int| is_first_newline(s, i) {
        let i = choose|i: int| is_first_newline(s, i);
        lemma_extract_at(s, i, true);
        lemma_extract_at(s, i, false);
        let tail = s.subrange(i + 1, s.len() as int);
        if drain_rest(tail).len() > 0 {
            assert(seq![s.subrange(0, i + 1)] + (drain_messages(tail) + seq![drain_rest(tail)])
                =~= (seq![s.subrange(0, i + 1)] + drain_messages(tail)) + seq![
                drain_rest(tail),
            ]);
        }
    } else if s.len() > 0 {
        assert forall|i: int| !is_first_newline(Seq::<u8>::empty(), i) by {}
        assert(final_messages(s) == drain_messages(s) + seq![s] || final_messages(s) == seq![s])
            by {
            assert(drain_rest(s) == s);
        }
        assert(drain_messages(s) =~= Seq::<Seq<u8>>::empty());
        assert(Seq::<Seq<u8>>::empty() + seq![s] =~= seq![s]);
        assert(final_messages(Seq::<u8>::empty()) =~= Seq::<Seq<u8>>::empty());
        assert(seq![s] + final_messages(Seq::<u8>::empty()) =~= seq![s]);
    } else {
        assert(drain_rest(s).len() == 0);
    }
}

/// A complete message: non-empty, ends in a newline, and holds no other
/// newline.
pub open spec fn is_message(m: Seq<u8>) -> bool {
    &&& m.len() > 0
    &&& m[m.len() - 1] == nl()
    &&& forall|j: int| 0 <= j < m.len() - 1 ==> m[j] != nl()
}

/// The bytes of a run of messages, in order.
pub open spec fn concat_messages(msgs: Seq<Seq<u8>>) -> Seq<u8>
    decreases msgs.len(),
{
    if msgs.len() == 0 {
        Seq::<u8>::empty()
    } else {
        msgs[0] + concat_messages(msgs.drop_first())
    }
}

/// Framing law.  A buffer holding complete messages followed by a non-empty
/// suffix without a newline gives back exactly those messages under repeated
/// framing steps, then nothing further while the suffix stays in the buffer;
/// one final step with `fin` true drains the suffix as one message, and a
/// step on the then-empty buffer returns nothing.
pub proof fn lemma_framing_round(msgs: Seq<Seq<u8>>, suffix: Seq<u8>)
    requires
        forall|i: int| 0 <= i < msgs.len() ==> is_message(#[trigger] msgs[i]),
        no_newline(suffix),
        suffix.len() > 0,
    ensures
        drain_messages(concat_messages(msgs) + suffix) == msgs,
        drain_rest(concat_messages(msgs) + suffix) == suffix,
        extract_model(suffix, true) == Some((suffix, Seq::<u8>::empty())),
        extract_model(Seq::<u8>::empty(), true) is None,
    decreases msgs.len(),
{
    let s = concat_messages(msgs) + suffix;
    assert forall|i: int| !is_first_newline(suffix, i) by {
        if 0 <= i < suffix.len() {
            assert(suffix[i] != nl());
        }
    }
    assert(forall|i: int| !is_first_newline(Seq::<u8>::empty(), i));
    if msgs.len() == 0 {
        assert(s =~= suffix);
        assert(drain_messages(s) =~= msgs);
    } else {
        let m0 = msgs[0];
        assert(is_message(m0));
        let i = m0.len() - 1;
        assert(s[i] == m0[i]);
        assert(is_first_newline(s, i as int)) by {
            assert forall|j: int| 0 <= j < i implies s[j] != nl() by {
                assert(s[j] == m0[j]);
            }
        }
        lemma_extract_at(s, i as int, false);
        let tail = s.subrange(i as int + 1, s.len() as int);
        assert(s.subrange(0, i as int + 1) =~= m0);
        assert(tail =~= concat_messages(msgs.drop_first()) + suffix);
        lemma_framing_round(msgs.drop_first(), suffix);
        assert(seq![m0] + msgs.drop_first() =~= msgs);
        assert(drain_messages(s) == seq![m0] + drain_messages(tail));
        assert(drain_messages(s) == msgs);
    }
}

} // verus!
