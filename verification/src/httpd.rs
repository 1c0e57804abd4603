//! The HTTP listener's per-request logic: bearer-token authorization, the
//! content-encoding check, and incremental framing and validation of a
//! request body.
//!
//! The listener itself reads the body stream; it hands each chunk of
//! (already decompressed) bytes to a [`BodyProcessor`] and maps the
//! outcome to a response status.

use vstd::prelude::*;

use crate::config_types::MessageType;
use crate::config_types::lower_seq;
use crate::config_types::eq_ignore_case_bytes;
use crate::framing::drain_messages;
use crate::framing::drain_rest;
use crate::framing::extract_message;
use crate::framing::extract_model;
use crate::framing::final_messages;
use crate::framing::lemma_drain_sizes;
use crate::framing::lemma_extract_some;
use crate::framing::lemma_final_step;
use crate::framing::lemma_sum_lens_append;
use crate::framing::sum_lens;
use crate::validate::valid_message;
use crate::validate::validate_message;

verus! {

/// Why a request was rejected.
#[derive(Clone, Copy, Debug, PartialEq, Eq, Structural)]
pub enum RequestError {
    /// The request's authorization header did not match the configured
    /// token.
    Unauthorized,
    /// A framed message failed validation for the configured message type.
    InvalidMessage,
    /// Reading the request body failed.
    StreamError,
}

impl RequestError {
    /// The HTTP status code the listener answers with.
    pub fn status_code(&self) -> (r: u16)
        ensures
            r == match self {
                RequestError::Unauthorized => 401u16,
                RequestError::InvalidMessage => 400u16,
                RequestError::StreamError => 500u16,
            },
    {
        match self {
            RequestError::Unauthorized => 401,
            RequestError::InvalidMessage => 400,
            RequestError::StreamError => 500,
        }
    }
}

/// The counts a fully accepted request contributes to the aggregator.
#[derive(Clone, Copy, Debug, PartialEq, Eq, Structural)]
pub struct StatsUpdate {
    pub events: usize,
    pub bytes: usize,
}

/// When a request counts as authorized: with no token configured every
/// request passes; with one configured, the request's authorization
/// header must equal it exactly.
pub open spec fn auth_ok(configured: Option<Seq<char>>, header: Option<Seq<char>>) -> bool {
    match configured {
        None => true,
        Some(t) => match header {
            Some(h) => h == t,
            None => false,
        },
    }
}

/// Authorization check, as [`auth_ok`] states it.
pub fn check_auth(configured: &Option<String>, header: &Option<String>) -> (r: bool)
    ensures
        r == auth_ok(
            match configured {
                Some(t) => Some(t@),
                None => None,
            },
            match header {
                Some(h) => Some(h@),
                None => None,
            },
        ),
{
    match configured {
        None => true,
        Some(t) => match header {
            Some(h) => h.eq(t),
            None => false,
        },
    }
}

/// The bytes of the content-coding name `gzip`.
pub open spec fn gzip_bytes() -> Seq<u8> {
    seq![103u8, 122u8, 105u8, 112u8]
}

/// Whether a content-encoding header value names gzip, compared without
/// regard to ASCII case.  A missing header means an unencoded body.
pub fn is_gzip_encoding(header: Option<&[u8]>) -> (r: bool)
    ensures
        r == match header {
            Some(v) => lower_seq(v@) == gzip_bytes(),
            None => false,
        },
{
    proof {
        assert(lower_seq(gzip_bytes()) =~= gzip_bytes());
    }
    match header {
        Some(v) => {
            let gzip: [u8; 4] = [103u8, 122u8, 105u8, 112u8];
            proof {
                assert(gzip@ =~= gzip_bytes());
            }
            eq_ignore_case_bytes(v, gzip.as_slice())
        },
        None => false,
    }
}

/// Appends `data` to `buf` byte by byte.
pub(crate) fn push_bytes(buf: &mut Vec<u8>, data: &[u8])
    ensures
        final(buf)@ == old(buf)@ + data@,
{
    let mut idx: usize = 0;
    while idx < data.len()
        invariant
            idx <= data@.len(),
            buf@ == old(buf)@ + data@.subrange(0, idx as int),
        decreases data@.len() - idx,
    {
        let b = data[idx];
        buf.push(b);
        proof {
            assert(old(buf)@ + data@.subrange(0, idx as int) + seq![data@[idx as int]]
                =~= old(buf)@ + data@.subrange(0, idx as int + 1));
        }
        idx = idx + 1;
    }
    proof {
        assert(data@.subrange(0, data@.len() as int) =~= data@);
    }
}

/// All messages of the run are valid for the message type.
pub open spec fn all_valid(msgs: Seq<Seq<u8>>, typ: MessageType) -> bool {
    forall|i: int| 0 <= i < msgs.len() ==> valid_message(#[trigger] msgs[i], typ)
}

/// Frames and validates one request body incrementally: bytes go in chunk
/// by chunk, every completed message is validated at once, and the first
/// invalid message poisons the whole request.
pub struct BodyProcessor {
    /// Bytes received but not yet framed into a message.
    pub buf: Vec<u8>,
    /// Messages accepted so far.
    pub events: usize,
    /// Bytes of the messages accepted so far.
    pub bytes: usize,
    /// The message type every framed message must satisfy.
    pub message_type: MessageType,
    /// Set once a message failed validation; the request is then rejected.
    pub failed: bool,
}

impl BodyProcessor {
    /// A processor for one fresh request body.
    pub fn new(message_type: MessageType) -> (r: BodyProcessor)
        ensures
            r.buf@.len() == 0,
            r.events == 0,
            r.bytes == 0,
            r.message_type == message_type,
            !r.failed,
    {
        BodyProcessor { buf: Vec::new(), events: 0, bytes: 0, message_type, failed: false }
    }

    /// Takes in one chunk of body bytes, frames every message it
    /// completes, and validates each.  Returns false — and poisons the
    /// processor — as soon as a framed message is invalid; the caller then
    /// rejects the request without further processing.
    pub fn push_chunk(&mut self, data: &[u8]) -> (r: bool)
        requires
            !old(self).failed,
            old(self).events + old(self).buf@.len() + data@.len() <= usize::MAX,
            old(self).bytes + old(self).buf@.len() + data@.len() <= usize::MAX,
        ensures
            ({
                let combined = old(self).buf@ + data@;
                let msgs = drain_messages(combined);
                &&& r == all_valid(msgs, old(self).message_type)
                &&& final(self).message_type == old(self).message_type
                &&& final(self).failed == !r
                &&& r ==> {
                    &&& final(self).buf@ == drain_rest(combined)
                    &&& final(self).events == old(self).events + msgs.len()
                    &&& final(self).bytes == old(self).bytes + sum_lens(msgs)
                    &&& final(self).events + final(self).buf@.len() <= usize::MAX
                    &&& final(self).bytes + final(self).buf@.len() <= usize::MAX
                }
            }),
    {
        let ghost combined = old(self).buf@ + data@;
        let ghost mut processed: Seq<Seq<u8>> = Seq::empty();
        push_bytes(&mut self.buf, data);
        proof {
            assert(Seq::<Seq<u8>>::empty() + drain_messages(self.buf@) =~= drain_messages(
                self.buf@,
            ));
            lemma_drain_sizes(self.buf@);
        }
        let mut done = false;
        while !done
            invariant
                combined == old(self).buf@ + data@,
                self.message_type == old(self).message_type,
                !self.failed,
                drain_messages(combined) == processed + drain_messages(self.buf@),
                drain_rest(combined) == drain_rest(self.buf@),
                all_valid(processed, self.message_type),
                self.events == old(self).events + processed.len(),
                self.bytes == old(self).bytes + sum_lens(processed),
                self.events + self.buf@.len() <= usize::MAX,
                self.bytes + self.buf@.len() <= usize::MAX,
                done ==> drain_messages(self.buf@) =~= Seq::<Seq<u8>>::empty() && drain_rest(
                    self.buf@,
                ) == self.buf@,
            decreases self.buf@.len() + (if done { 0int } else { 1int }),
        {
            let ghost buf_before = self.buf@;
            match extract_message(&mut self.buf, false) {
                Some(m) => {
                    proof {
                        lemma_extract_some(buf_before, false);
                    }
                    if !validate_message(m.as_slice(), &self.message_type) {
                        self.failed = true;
                        proof {
                            assert(drain_messages(buf_before) == seq![m@] + drain_messages(
                                self.buf@,
                            ));
                            let k = processed.len() as int;
                            assert(drain_messages(combined)[k] == m@) by {
                                assert((processed + (seq![m@] + drain_messages(self.buf@)))[k]
                                    == m@);
                            }
                            assert(!valid_message(
                                drain_messages(combined)[k],
                                old(self).message_type,
                            ));
                            assert(0 <= k < drain_messages(combined).len());
                        }
                        return false;
                    }
                    proof {
                        assert(drain_messages(buf_before) == seq![m@] + drain_messages(
                            self.buf@,
                        ));
                        assert(drain_rest(buf_before) == drain_rest(self.buf@));
                        lemma_sum_lens_append(processed, seq![m@]);
                        assert(sum_lens(seq![m@]) == m@.len() + sum_lens(
                            seq![m@].drop_first(),
                        ));
                        assert(seq![m@].drop_first() =~= Seq::<Seq<u8>>::empty());
                        assert(processed + (seq![m@] + drain_messages(self.buf@)) =~= (processed
                            + seq![m@]) + drain_messages(self.buf@));
                    }
                    self.events = self.events + 1;
                    self.bytes = self.bytes + m.len();
                    proof {
                        processed = processed + seq![m@];
                        assert forall|i: int|
                            0 <= i < processed.len() implies valid_message(
                            #[trigger] processed[i],
                            self.message_type,
                        ) by {
                            if i == processed.len() - 1 {
                                assert(processed[i] == m@);
                            }
                        }
                    }
                },
                None => {
                    done = true;
                },
            }
        }
        proof {
            assert(processed + Seq::<Seq<u8>>::empty() =~= processed);
        }
        true
    }

    /// Ends the body: drains any trailing partial message, validates it,
    /// and hands back the request's accepted counts.  The buffer is left
    /// empty, so no trailing bytes can remain after a successful finish.
    pub fn finish(&mut self) -> (r: Result<StatsUpdate, RequestError>)
        requires
            !old(self).failed,
            old(self).events + old(self).buf@.len() <= usize::MAX,
            old(self).bytes + old(self).buf@.len() <= usize::MAX,
        ensures
            ({
                let msgs = final_messages(old(self).buf@);
                match r {
                    Ok(update) => {
                        &&& all_valid(msgs, old(self).message_type)
                        &&& update.events == old(self).events + msgs.len()
                        &&& update.bytes == old(self).bytes + sum_lens(msgs)
                        &&& final(self).buf@.len() == 0
                        &&& !final(self).failed
                    },
                    Err(e) => {
                        &&& !all_valid(msgs, old(self).message_type)
                        &&& e == RequestError::InvalidMessage
                        &&& final(self).failed
                    },
                }
            }),
    {
        let ghost start = old(self).buf@;
        let ghost mut processed: Seq<Seq<u8>> = Seq::empty();
        proof {
            assert(Seq::<Seq<u8>>::empty() + final_messages(self.buf@) =~= final_messages(
                self.buf@,
            ));
            lemma_drain_sizes(self.buf@);
            lemma_sum_lens_append(drain_messages(self.buf@), seq![drain_rest(self.buf@)]);
            assert(sum_lens(seq![drain_rest(self.buf@)]) == drain_rest(self.buf@).len()
                + sum_lens(seq![drain_rest(self.buf@)].drop_first()));
            assert(seq![drain_rest(self.buf@)].drop_first() =~= Seq::<Seq<u8>>::empty());
        }
        let mut done = false;
        while !done
            invariant
                start == old(self).buf@,
                self.message_type == old(self).message_type,
                !self.failed,
                final_messages(start) == processed + final_messages(self.buf@),
                all_valid(processed, self.message_type),
                self.events == old(self).events + processed.len(),
                self.bytes == old(self).bytes + sum_lens(processed),
                self.events + self.buf@.len() <= usize::MAX,
                self.bytes + self.buf@.len() <= usize::MAX,
                final_messages(self.buf@).len() <= sum_lens(final_messages(self.buf@)),
                sum_lens(final_messages(self.buf@)) == self.buf@.len(),
                done ==> self.buf@.len() == 0,
            decreases self.buf@.len() + (if done { 0int } else { 1int }),
        {
            let ghost buf_before = self.buf@;
            match extract_message(&mut self.buf, true) {
                Some(m) => {
                    proof {
                        lemma_extract_some(buf_before, true);
                        lemma_final_step(buf_before);
                        lemma_drain_sizes(self.buf@);
                        lemma_sum_lens_append(
                            drain_messages(self.buf@),
                            seq![drain_rest(self.buf@)],
                        );
                        assert(sum_lens(seq![drain_rest(self.buf@)]) == drain_rest(
                            self.buf@,
                        ).len() + sum_lens(seq![drain_rest(self.buf@)].drop_first()));
                        assert(seq![drain_rest(self.buf@)].drop_first()
                            =~= Seq::<Seq<u8>>::empty());
                        assert(sum_lens(seq![m@] + final_messages(self.buf@)) == m@.len()
                            + sum_lens(final_messages(self.buf@))) by {
                            lemma_sum_lens_append(seq![m@], final_messages(self.buf@));
                            assert(sum_lens(seq![m@]) == m@.len() + sum_lens(
                                seq![m@].drop_first(),
                            ));
                            assert(seq![m@].drop_first() =~= Seq::<Seq<u8>>::empty());
                        }
                    }
                    if !validate_message(m.as_slice(), &self.message_type) {
                        self.failed = true;
                        proof {
                            let k = processed.len() as int;
                            assert(final_messages(start)[k] == m@) by {
                                assert((processed + (seq![m@] + final_messages(self.buf@)))[k]
                                    == m@);
                            }
                            assert(!valid_message(
                                final_messages(start)[k],
                                old(self).message_type,
                            ));
                            assert(0 <= k < final_messages(start).len());
                        }
                        return Err(RequestError::InvalidMessage);
                    }
                    proof {
                        lemma_sum_lens_append(processed, seq![m@]);
                        assert(sum_lens(seq![m@]) == m@.len() + sum_lens(
                            seq![m@].drop_first(),
                        ));
                        assert(seq![m@].drop_first() =~= Seq::<Seq<u8>>::empty());
                        assert(processed + (seq![m@] + final_messages(self.buf@)) =~= (processed
                            + seq![m@]) + final_messages(self.buf@));
                    }
                    self.events = self.events + 1;
                    self.bytes = self.bytes + m.len();
                    proof {
                        processed = processed + seq![m@];
                        assert forall|i: int|
                            0 <= i < processed.len() implies valid_message(
                            #[trigger] processed[i],
                            self.message_type,
                        ) by {
                            if i == processed.len() - 1 {
                                assert(processed[i] == m@);
                            }
                        }
                    }
                },
                None => {
                    proof {
                        lemma_final_step(buf_before);
                    }
                    done = true;
                },
            }
        }
        proof {
            assert(processed + Seq::<Seq<u8>>::empty() =~= processed);
        }
        Ok(StatsUpdate { events: self.events, bytes: self.bytes })
    }
}

} // verus!
