//! The incremental frame decoder.
//!
//! Bytes arrive from the serial line in chunks of any size. The decoder
//! keeps what it has not yet consumed in a pending buffer and hands out a
//! frame as soon as its last byte is in.

use crate::endian::{get_u32_le, le_value_u32};
use crate::frame::{FrameView, SerialMessage, HEADER_LEN, MAGIC};
use vstd::prelude::*;
use vstd::slice::{slice_subrange, slice_to_vec};

verus! {

/// Why a byte stream stopped making sense.
#[derive(Debug, Clone, Copy, PartialEq, Eq)]
pub enum FramingError {
    /// The bytes where a frame must start are not the magic bytes.
    BadMagic,
    /// The header declares a payload longer than the decoder accepts.
    Oversized,
}

/// What reading a buffer from its first byte yields.
pub struct Scan {
    /// The complete frames, in the order they stand in the buffer.
    pub frames: Seq<FrameView>,
    /// The bytes kept for later: the beginning of a frame still to be
    /// completed. Empty after an error.
    pub rest: Seq<u8>,
    /// The error that ended the reading, if one did.
    pub error: Option<FramingError>,
}

/// Reads frames off the front of `buf` until the bytes run out or stop
/// making sense.
///
/// With fewer bytes than a header, or fewer than the header asks for, the
/// bytes are kept as they are. A header that does not start with the magic
/// bytes, or that declares more than `max` payload bytes, ends the reading
/// with an error and nothing is kept.
pub open spec fn scan(buf: Seq<u8>, max: u32) -> Scan
    decreases buf.len(),
{
    if buf.len() < HEADER_LEN {
        Scan { frames: Seq::empty(), rest: buf, error: None }
    } else if buf[0] != MAGIC || buf[1] != MAGIC {
        Scan { frames: Seq::empty(), rest: Seq::empty(), error: Some(FramingError::BadMagic) }
    } else {
        let len = le_value_u32(buf.subrange(2, 6));
        let msg_type = le_value_u32(buf.subrange(6, 10));
        if len > max {
            Scan { frames: Seq::empty(), rest: Seq::empty(), error: Some(FramingError::Oversized) }
        } else if buf.len() < HEADER_LEN + len {
            Scan { frames: Seq::empty(), rest: buf, error: None }
        } else {
            let first = FrameView { msg_type, payload: buf.subrange(10, 10 + len) };
            let tail = scan(buf.skip(10 + len), max);
            Scan { frames: seq![first] + tail.frames, rest: tail.rest, error: tail.error }
        }
    }
}

/// Whether a buffer is one that a decoder can be left holding: read from the
/// front it yields no frame and no error, and is kept whole.
pub open spec fn settled(pending: Seq<u8>, max: u32) -> bool {
    scan(pending, max) == (Scan { frames: Seq::empty(), rest: pending, error: None })
}

/// What a reading keeps holds no complete frame: reading it again hands out
/// nothing and keeps the same bytes.
pub proof fn lemma_scan_is_settled(buf: Seq<u8>, max: u32)
    ensures
        settled(scan(buf, max).rest, max),
    decreases buf.len(),
{
    if buf.len() >= HEADER_LEN && buf[0] == MAGIC && buf[1] == MAGIC {
        let len = le_value_u32(buf.subrange(2, 6));
        if len <= max && buf.len() >= HEADER_LEN + len {
            lemma_scan_is_settled(buf.skip(10 + len), max);
        }
    }
}

/// What each message of a list says.
spec fn frame_views(frames: Seq<SerialMessage>) -> Seq<FrameView> {
    frames.map_values(|m: SerialMessage| m@)
}

/// What one call of [`Decoder::feed`] produced.
#[derive(Debug, PartialEq, Eq)]
pub struct FeedOutcome {
    /// The frames completed by this call, oldest first.
    pub frames: Vec<SerialMessage>,
    /// Set when the stream stopped making sense. The frames before that
    /// point are still in `frames`.
    pub error: Option<FramingError>,
}

impl FeedOutcome {
    /// Whether this outcome hands out what a reading found: the same
    /// frames, one for one and in the same order, and the same error.
    pub open spec fn reports(&self, read: Scan) -> bool {
        &&& self.frames@.len() == read.frames.len()
        &&& forall|i: int|
            0 <= i < self.frames@.len() ==> (#[trigger] self.frames@[i])@ == read.frames[i]
        &&& self.error == read.error
    }
}

/// The decoder of one serial session.
#[derive(Debug)]
pub struct Decoder {
    pending: Vec<u8>,
    max_payload: u32,
}

impl Decoder {
    /// The bytes received and not yet consumed.
    pub closed spec fn pending(&self) -> Seq<u8> {
        self.pending@
    }

    /// The longest payload this decoder accepts.
    pub closed spec fn limit(&self) -> u32 {
        self.max_payload
    }

    /// A decoder with nothing pending.
    pub fn new(max_payload: u32) -> (d: Decoder)
        ensures
            d.pending() == Seq::<u8>::empty(),
            d.limit() == max_payload,
            settled(d.pending(), d.limit()),
    {
        Decoder { pending: Vec::new(), max_payload }
    }

    /// The number of bytes waiting for the rest of their frame.
    pub fn pending_len(&self) -> (n: usize)
        ensures
            n == self.pending().len(),
    {
        self.pending.len()
    }

    /// The longest payload this decoder accepts.
    pub fn max_payload(&self) -> (n: u32)
        ensures
            n == self.limit(),
    {
        self.max_payload
    }

    /// Forgets the pending bytes. For a fresh start after a reconnect.
    pub fn reset(&mut self)
        ensures
            final(self).pending() == Seq::<u8>::empty(),
            final(self).limit() == old(self).limit(),
            settled(final(self).pending(), final(self).limit()),
    {
        self.pending.clear();
    }

    /// Takes the next chunk of the stream and returns the frames it
    /// completes.
    ///
    /// The result is that of reading the pending bytes followed by `bytes`
    /// from the front. On a framing error the pending buffer is dropped, so
    /// that the next chunk is read as the start of a frame.
    pub fn feed(&mut self, bytes: &[u8]) -> (out: FeedOutcome)
        ensures
            final(self).limit() == old(self).limit(),
            out.reports(scan(old(self).pending() + bytes@, old(self).limit())),
            final(self).pending() == scan(old(self).pending() + bytes@, old(self).limit()).rest,
            settled(final(self).pending(), final(self).limit()),
    {
        self.pending.extend_from_slice(bytes);
        let ghost full = self.pending@;
        let ghost max = self.max_payload;
        assert(full =~= old(self).pending@ + bytes@);
        proof {
            lemma_scan_is_settled(full, max);
        }

        let mut frames: Vec<SerialMessage> = Vec::new();
        let mut error: Option<FramingError> = None;
        let mut pos: usize = 0;
        let mut more = true;
        assert(full.skip(0) =~= full);
        assert(frame_views(frames@) =~= Seq::<FrameView>::empty());
        while more
            invariant
                self.pending@ == full,
                self.max_payload == max,
                pos <= full.len(),
                more ==> error.is_none(),
                scan(full, max).frames == frame_views(frames@) + scan(full.skip(pos as int), max).frames,
                scan(full, max).rest == scan(full.skip(pos as int), max).rest,
                scan(full, max).error == scan(full.skip(pos as int), max).error,
                !more ==> scan(full.skip(pos as int), max).frames.len() == 0,
                !more ==> scan(full.skip(pos as int), max).error == error,
                !more && error.is_none() ==> scan(full.skip(pos as int), max).rest == full.skip(
                    pos as int,
                ),
                !more && error.is_some() ==> scan(full.skip(pos as int), max).rest.len() == 0,
            decreases full.len() - pos + (if more { 1int } else { 0int }),
        {
            let ghost cur = full.skip(pos as int);
            let avail: usize = self.pending.len() - pos;
            if avail < HEADER_LEN {
                more = false;
            } else if self.pending[pos] != MAGIC || self.pending[pos + 1] != MAGIC {
                error = Some(FramingError::BadMagic);
                more = false;
            } else {
                let len: u32 = get_u32_le(self.pending.as_slice(), pos + 2);
                let msg_type: u32 = get_u32_le(self.pending.as_slice(), pos + 6);
                assert(cur.subrange(2, 6) =~= full.subrange(pos + 2, pos + 6));
                assert(cur.subrange(6, 10) =~= full.subrange(pos + 6, pos + 10));
                if len > self.max_payload {
                    error = Some(FramingError::Oversized);
                    more = false;
                } else if avail - HEADER_LEN < len as usize {
                    more = false;
                } else {
                    let start: usize = pos + HEADER_LEN;
                    let end: usize = start + len as usize;
                    let payload = slice_to_vec(slice_subrange(self.pending.as_slice(), start, end));
                    assert(payload@ =~= cur.subrange(10, 10 + len));
                    assert(cur.skip(10 + len) =~= full.skip(end as int));
                    let message = SerialMessage::new(msg_type, payload).unwrap();
                    let ghost before = frames@;
                    frames.push(message);
                    assert(frame_views(frames@) =~= frame_views(before) + seq![message@]);
                    pos = end;
                }
            }
        }
        if error.is_some() {
            self.pending.clear();
        } else {
            let rest = self.pending.split_off(pos);
            self.pending = rest;
        }
        FeedOutcome { frames, error }
    }
}

} // verus!
