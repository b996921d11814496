//! The stream reader's buffer and its self-healing packet poll.
//!
//! A [`StreamBuffer`] owns a growable byte arena and a read cursor; bytes
//! read from a connection are appended with [`StreamBuffer::feed`], and
//! [`StreamBuffer::poll_packet`] takes one packet off the front. When the
//! buffered bytes do not begin with a valid packet header, the poll slides
//! forward one byte at a time until one is found: the reader heals itself
//! after corruption, partial packets or a mid-stream connect. A body that
//! fails to decode under a valid header is reported, not resynchronized.

use vstd::prelude::*;
use vstd::slice::slice_subrange;
use vstd::slice::slice_to_vec;

use crate::output_data::FieldV;
use crate::output_data::SEOutputData;
use crate::output_data::fields_view;
use crate::packet::PacketHeader;
use crate::packet::ParseFailedError;
use crate::packet::header_at;
use crate::packet::header_len;
use crate::packet::header_ok;
use crate::packet::parse_packet_data;
use crate::packet::spec_parse_packet_data;

verus! {

/// What one poll of the stream produced.
pub enum PollOutcome {
    /// One whole packet was framed and decoded; its bytes are consumed.
    Ready(Vec<SEOutputData>),
    /// No whole packet is buffered: at least this many more bytes are
    /// needed before the next attempt can get further.
    NeedMore(usize),
    /// A valid header framed a body that does not decode. The packet's
    /// bytes are consumed; the caller decides whether to go on reading.
    Invalid(ParseFailedError),
}

/// Model of one poll: what it yields and how many buffered bytes it
/// consumes.
pub enum PollV {
    Ready { fields: Seq<FieldV>, consumed: int },
    NeedMore { missing: int, consumed: int },
    Invalid { consumed: int },
}

pub open spec fn poll_consumed(p: PollV) -> int {
    match p {
        PollV::Ready { consumed, .. } => consumed,
        PollV::NeedMore { consumed, .. } => consumed,
        PollV::Invalid { consumed } => consumed,
    }
}

/// The same outcome, with `k` more consumed bytes in front.
pub open spec fn add_consumed(p: PollV, k: int) -> PollV {
    match p {
        PollV::Ready { fields, consumed } => PollV::Ready { fields, consumed: consumed + k },
        PollV::NeedMore { missing, consumed } => PollV::NeedMore {
            missing,
            consumed: consumed + k,
        },
        PollV::Invalid { consumed } => PollV::Invalid { consumed: consumed + k },
    }
}

/// One poll over the buffered bytes `s`: slide past bytes that do not
/// begin a valid header, then frame and decode the packet if it is whole.
pub open spec fn spec_poll(s: Seq<u8>) -> PollV
    decreases s.len(),
{
    if s.len() < 8 {
        PollV::NeedMore { missing: 8 - s.len(), consumed: 0 }
    } else if !header_ok(s, 0) {
        add_consumed(spec_poll(s.skip(1)), 1)
    } else {
        let l = header_len(s, 0) as int;
        if s.len() < 8 + l {
            PollV::NeedMore { missing: 8 + l - s.len(), consumed: 0 }
        } else {
            match spec_parse_packet_data(header_len(s, 0), s.skip(8)) {
                Ok(fs) => PollV::Ready { fields: fs, consumed: 8 + l },
                Err(_) => PollV::Invalid { consumed: 8 + l },
            }
        }
    }
}

/// A packet header looks the same from the cursor as from the front of
/// the remaining bytes.
proof fn lemma_header_shift(b: Seq<u8>, pos: int)
    requires
        0 <= pos <= b.len(),
    ensures
        header_ok(b.skip(pos), 0) == header_ok(b, pos),
        header_ok(b, pos) ==> header_len(b.skip(pos), 0) == header_len(b, pos),
{
    let t = b.skip(pos);
    assert(forall|j: int| 0 <= j < t.len() ==> t[j] == b[pos + j]);
}

/// A growable byte buffer with a read cursor: the stream reader's state.
pub struct StreamBuffer {
    buf: Vec<u8>,
    pos: usize,
}

impl View for StreamBuffer {
    type V = Seq<u8>;

    /// The bytes not yet consumed.
    closed spec fn view(&self) -> Seq<u8> {
        self.buf@.skip(self.pos as int)
    }
}

impl StreamBuffer {
    /// The cursor never passes the end of the arena.
    pub closed spec fn wf(self) -> bool {
        self.pos <= self.buf.len()
    }

    pub fn new() -> (r: StreamBuffer)
        ensures
            r.wf(),
            r@ == Seq::<u8>::empty(),
    {
        StreamBuffer { buf: Vec::new(), pos: 0 }
    }

    /// How many unread bytes are buffered.
    pub fn available(&self) -> (n: usize)
        requires
            self.wf(),
        ensures
            n == self@.len(),
    {
        self.buf.len() - self.pos
    }

    /// Appends bytes read from the connection. When more of the arena is
    /// dead than alive, the unread bytes are first shifted to the front,
    /// so the arena's cost stays bounded over the connection's life.
    pub fn feed(&mut self, data: &[u8])
        requires
            old(self).wf(),
        ensures
            final(self).wf(),
            final(self)@ == old(self)@ + data@,
    {
        if self.pos > self.buf.len() - self.pos {
            let tail = self.buf.split_off(self.pos);
            self.buf = tail;
            self.pos = 0;
        }
        self.buf.extend_from_slice(data);
        proof {
            assert(self.buf@.skip(self.pos as int) =~= old(self)@ + data@);
        }
    }

    /// The next `n` bytes, without consuming them; `None` when fewer are
    /// buffered.
    pub fn peek(&self, n: usize) -> (r: Option<&[u8]>)
        requires
            self.wf(),
        ensures
            match r {
                Some(w) => n <= self@.len() && w@ == self@.take(n as int),
                None => n > self@.len(),
            },
    {
        if self.buf.len() - self.pos < n {
            None
        } else {
            let w = slice_subrange(self.buf.as_slice(), self.pos, self.pos + n);
            proof {
                assert(w@ =~= self@.take(n as int));
            }
            Some(w)
        }
    }

    /// Advances the cursor past `n` buffered bytes. Consuming more than
    /// is buffered is a caller error, not a runtime condition.
    pub fn consume(&mut self, n: usize)
        requires
            old(self).wf(),
            n <= old(self)@.len(),
        ensures
            final(self).wf(),
            final(self)@ == old(self)@.skip(n as int),
    {
        self.pos = self.pos + n;
        proof {
            assert(self.buf@.skip(self.pos as int) =~= old(self)@.skip(n as int));
        }
    }

    /// The next `n` bytes, consumed; `None` when fewer are buffered.
    pub fn read(&mut self, n: usize) -> (r: Option<Vec<u8>>)
        requires
            old(self).wf(),
        ensures
            final(self).wf(),
            match r {
                Some(bytes) => n <= old(self)@.len() && bytes@ == old(self)@.take(n as int)
                    && final(self)@ == old(self)@.skip(n as int),
                None => n > old(self)@.len() && *final(self) == *old(self),
            },
    {
        if self.buf.len() - self.pos < n {
            return None;
        }
        let w = slice_subrange(self.buf.as_slice(), self.pos, self.pos + n);
        let bytes = slice_to_vec(w);
        proof {
            assert(bytes@ =~= self@.take(n as int));
        }
        self.pos = self.pos + n;
        proof {
            assert(self.buf@.skip(self.pos as int) =~= old(self)@.skip(n as int));
        }
        Some(bytes)
    }

    /// Takes one packet off the front of the buffer, resynchronizing past
    /// header corruption one byte at a time; exactly the bytes that
    /// [`spec_poll`] accounts for are consumed, and none on `NeedMore`
    /// with an aligned header.
    #[verifier::rlimit(60)]
    pub fn poll_packet(&mut self) -> (r: PollOutcome)
        requires
            old(self).wf(),
        ensures
            final(self).wf(),
            final(self)@ == old(self)@.skip(poll_consumed(spec_poll(old(self)@))),
            match r {
                PollOutcome::Ready(p) => spec_poll(old(self)@) matches PollV::Ready {
                    fields,
                    ..
                } && fields_view(p@) == fields,
                PollOutcome::NeedMore(n) => spec_poll(old(self)@) matches PollV::NeedMore {
                    missing,
                    ..
                } && n == missing,
                PollOutcome::Invalid(_) => spec_poll(old(self)@) matches PollV::Invalid { .. },
            },
    {
        let ghost s0 = self@;
        let ghost mut k: int = 0;
        loop
            invariant
                self.wf(),
                s0 == old(self)@,
                0 <= k <= s0.len(),
                self@ == s0.skip(k),
                spec_poll(s0) == add_consumed(spec_poll(self@), k),
            decreases s0.len() - k,
        {
            let avail = self.buf.len() - self.pos;
            if avail < 8 {
                return PollOutcome::NeedMore(8 - avail);
            }
            match header_at(self.buf.as_slice(), self.pos) {
                None => {
                    proof {
                        lemma_header_shift(self.buf@, self.pos as int);
                        let cur = self@;
                        assert(spec_poll(cur) == add_consumed(spec_poll(cur.skip(1)), 1));
                        assert(s0.skip(k).skip(1) =~= s0.skip(k + 1));
                    }
                    self.pos = self.pos + 1;
                    proof {
                        k = k + 1;
                        assert(self.buf@.skip(self.pos as int) =~= s0.skip(k));
                    }
                },
                Some(length) => {
                    proof {
                        lemma_header_shift(self.buf@, self.pos as int);
                    }
                    let l = length as usize;
                    if avail < 8 + l {
                        return PollOutcome::NeedMore(8 + l - avail);
                    }
                    let ghost cur = self@;
                    let body = slice_subrange(
                        self.buf.as_slice(),
                        self.pos + 8,
                        self.pos + 8 + l,
                    );
                    proof {
                        assert(body@ =~= cur.skip(8).take(l as int));
                        assert(cur.skip(8).take(l as int).subrange(0, l as int) =~= cur.skip(
                            8,
                        ).subrange(0, l as int));
                        assert(spec_parse_packet_data(length, body@) == spec_parse_packet_data(
                            length,
                            cur.skip(8),
                        ));
                    }
                    let outcome = match parse_packet_data(PacketHeader { length }, body) {
                        Ok(fields) => PollOutcome::Ready(fields),
                        Err(e) => PollOutcome::Invalid(e),
                    };
                    self.pos = self.pos + 8 + l;
                    proof {
                        assert(self.buf@.skip(self.pos as int) =~= cur.skip(8 + l as int));
                        assert(s0.skip(k).skip(8 + l as int) =~= s0.skip(k + 8 + l as int));
                    }
                    return outcome;
                },
            }
        }
    }
}

/// Sliding past bytes that never begin a valid header only prepends their
/// count to what polling the remainder does.
pub proof fn lemma_resync(garbage: Seq<u8>, rest: Seq<u8>)
    requires
        rest.len() >= 8,
        forall|j: int| 0 <= j < garbage.len() ==> !header_ok(garbage + rest, j),
    ensures
        spec_poll(garbage + rest) == add_consumed(spec_poll(rest), garbage.len() as int),
    decreases garbage.len(),
{
    let s = garbage + rest;
    if garbage.len() == 0 {
        assert(s =~= rest);
        assert(add_consumed(spec_poll(rest), 0) == spec_poll(rest));
    } else {
        assert(!header_ok(s, 0));
        assert(spec_poll(s) == add_consumed(spec_poll(s.skip(1)), 1));
        let g1 = garbage.skip(1);
        assert(s.skip(1) =~= g1 + rest);
        assert forall|j: int| 0 <= j < g1.len() implies !header_ok(g1 + rest, j) by {
            assert(!header_ok(s, j + 1));
            lemma_header_shift_by_one(s, j + 1);
        }
        lemma_resync(g1, rest);
        assert(add_consumed(add_consumed(spec_poll(rest), g1.len() as int), 1) == add_consumed(
            spec_poll(rest),
            garbage.len() as int,
        ));
    }
}

/// A header window inside `s` reads the same after the first byte is
/// dropped.
proof fn lemma_header_shift_by_one(s: Seq<u8>, j: int)
    requires
        1 <= j <= s.len(),
    ensures
        header_ok(s, j) == header_ok(s.skip(1), j - 1),
{
    lemma_header_shift(s, j);
    lemma_header_shift(s.skip(1), j - 1);
    assert(s.skip(j) =~= s.skip(1).skip(j - 1));
}

/// A poll never consumes more than is buffered.
pub proof fn lemma_poll_consumed_bounds(s: Seq<u8>)
    ensures
        0 <= poll_consumed(spec_poll(s)) <= s.len(),
    decreases s.len(),
{
    if s.len() >= 8 && !header_ok(s, 0) {
        lemma_poll_consumed_bounds(s.skip(1));
    }
}

/// A poll that asks for more bytes leaves the buffer in a state where
/// polling again, with nothing new, asks for the same amount and consumes
/// nothing: repeated polling against an empty source is idempotent.
pub proof fn lemma_need_more_stable(s: Seq<u8>)
    requires
        spec_poll(s) matches PollV::NeedMore { .. },
    ensures
        (spec_poll(s) matches PollV::NeedMore { missing, consumed } ==> spec_poll(s.skip(consumed))
            == (PollV::NeedMore { missing, consumed: 0 })),
    decreases s.len(),
{
    if s.len() < 8 {
        assert(s.skip(0) =~= s);
    } else if !header_ok(s, 0) {
        let inner = spec_poll(s.skip(1));
        assert(inner matches PollV::NeedMore { .. });
        lemma_need_more_stable(s.skip(1));
        lemma_poll_consumed_bounds(s.skip(1));
        if let PollV::NeedMore { missing, consumed } = inner {
            assert(s.skip(1 + consumed) =~= s.skip(1).skip(consumed));
        }
    } else {
        assert(s.skip(0) =~= s);
    }
}

/// Resync convergence: a buffer of `k` bytes that never begin a valid
/// header, followed by one whole valid packet, is polled by sliding past
/// exactly those `k` bytes and yielding that packet — `k + 8 + L` bytes
/// consumed in all.
pub proof fn lemma_resync_yields_packet(garbage: Seq<u8>, packet: Seq<u8>)
    requires
        header_ok(packet, 0),
        packet.len() == 8 + header_len(packet, 0),
        spec_parse_packet_data(header_len(packet, 0), packet.skip(8)) is Ok,
        forall|j: int| 0 <= j < garbage.len() ==> !header_ok(garbage + packet, j),
    ensures
        spec_poll(garbage + packet) == (PollV::Ready {
            fields: spec_parse_packet_data(header_len(packet, 0), packet.skip(8))->Ok_0,
            consumed: garbage.len() + packet.len() as int,
        }),
{
    lemma_resync(garbage, packet);
}

} // verus!
