//! What the decoder does over a whole stream.
//!
//! [`Decoder::feed`](crate::decoder::Decoder::feed) is specified one call at
//! a time, by [`scan`]. The theorems here speak of many calls: that cutting a
//! stream into chunks changes nothing, that frames sent back to back come
//! out one by one, that no byte is lost, and that a decoder recovers after
//! an error and never waits without end.

use crate::decoder::{lemma_scan_is_settled, scan, settled, Scan};
use crate::endian::{
    le_bytes_u32, le_value_u32, lemma_le_u32_bytes_of_value, lemma_le_u32_value_of_bytes,
};
use crate::frame::{frame_bytes, FrameView, HEADER_LEN, MAGIC};
use vstd::prelude::*;

verus! {

/// The bytes of frames sent back to back.
pub open spec fn stream_bytes(frames: Seq<FrameView>) -> Seq<u8>
    decreases frames.len(),
{
    if frames.len() == 0 {
        Seq::empty()
    } else {
        frame_bytes(frames[0].msg_type, frames[0].payload) + stream_bytes(frames.skip(1))
    }
}

/// The chunks joined end to end.
pub open spec fn joined(chunks: Seq<Seq<u8>>) -> Seq<u8>
    decreases chunks.len(),
{
    if chunks.len() == 0 {
        Seq::empty()
    } else {
        chunks[0] + joined(chunks.skip(1))
    }
}

/// What a decoder that holds `pending` hands out, and what it is left
/// holding, after being fed `chunks` one by one.
pub open spec fn feed_all(pending: Seq<u8>, chunks: Seq<Seq<u8>>, max: u32) -> (
    Seq<FrameView>,
    Seq<u8>,
)
    decreases chunks.len(),
{
    if chunks.len() == 0 {
        (Seq::empty(), pending)
    } else {
        let step = scan(pending + chunks[0], max);
        let later = feed_all(step.rest, chunks.skip(1), max);
        (step.frames + later.0, later.1)
    }
}

/// A frame at the front of a buffer is read first, and the reading goes on
/// behind it.
pub proof fn lemma_scan_frame_then(msg_type: u32, payload: Seq<u8>, more: Seq<u8>, max: u32)
    requires
        payload.len() <= max,
    ensures
        scan(frame_bytes(msg_type, payload) + more, max) == (Scan {
            frames: seq![FrameView { msg_type, payload }] + scan(more, max).frames,
            rest: scan(more, max).rest,
            error: scan(more, max).error,
        }),
{
    let len = payload.len() as u32;
    let buf = frame_bytes(msg_type, payload) + more;
    lemma_le_u32_value_of_bytes(len);
    lemma_le_u32_value_of_bytes(msg_type);
    assert(buf.len() == HEADER_LEN + len + more.len());
    assert(buf[0] == MAGIC && buf[1] == MAGIC);
    assert(buf.subrange(2, 6) =~= le_bytes_u32(len));
    assert(buf.subrange(6, 10) =~= le_bytes_u32(msg_type));
    assert(buf.subrange(10, 10 + len) =~= payload);
    assert(buf.skip(10 + len) =~= more);
}

/// Decoding the frame that `encode` writes gives back the type code and the
/// payload, and leaves nothing pending.
pub proof fn theorem_frame_round_trip(msg_type: u32, payload: Seq<u8>, max: u32)
    requires
        payload.len() <= max,
    ensures
        scan(frame_bytes(msg_type, payload), max) == (Scan {
            frames: seq![FrameView { msg_type, payload }],
            rest: Seq::empty(),
            error: None,
        }),
{
    lemma_scan_frame_then(msg_type, payload, Seq::empty(), max);
    assert(frame_bytes(msg_type, payload) + Seq::<u8>::empty() =~= frame_bytes(msg_type, payload));
    assert(seq![FrameView { msg_type, payload }] + Seq::<FrameView>::empty() =~= seq![
        FrameView { msg_type, payload },
    ]);
}

/// Any number of frames fed back to back in one call come out as exactly
/// those frames, in order, with nothing left pending.
pub proof fn theorem_concatenated_frames(frames: Seq<FrameView>, max: u32)
    requires
        forall|i: int| 0 <= i < frames.len() ==> (#[trigger] frames[i]).payload.len() <= max,
    ensures
        scan(stream_bytes(frames), max) == (Scan { frames, rest: Seq::empty(), error: None }),
    decreases frames.len(),
{
    if frames.len() == 0 {
        assert(frames =~= Seq::empty());
    } else {
        let tail = frames.skip(1);
        assert forall|i: int| 0 <= i < tail.len() implies (#[trigger] tail[i]).payload.len()
            <= max by {
            assert(tail[i] == frames[i + 1]);
        }
        theorem_concatenated_frames(tail, max);
        lemma_scan_frame_then(frames[0].msg_type, frames[0].payload, stream_bytes(tail), max);
        assert(seq![frames[0]] + tail =~= frames);
    }
}

/// The bytes of a complete frame at the front of a buffer are the frame
/// that they are read as, written again.
pub proof fn lemma_front_frame_rewritten(buf: Seq<u8>)
    requires
        buf.len() >= HEADER_LEN,
        buf[0] == MAGIC,
        buf[1] == MAGIC,
        buf.len() >= HEADER_LEN + le_value_u32(buf.subrange(2, 6)),
    ensures
        frame_bytes(
            le_value_u32(buf.subrange(6, 10)),
            buf.subrange(10, 10 + le_value_u32(buf.subrange(2, 6))),
        ) == buf.take(10 + le_value_u32(buf.subrange(2, 6))),
{
    let len = le_value_u32(buf.subrange(2, 6));
    let msg_type = le_value_u32(buf.subrange(6, 10));
    let payload = buf.subrange(10, 10 + len);
    lemma_le_u32_bytes_of_value(buf.subrange(2, 6));
    lemma_le_u32_bytes_of_value(buf.subrange(6, 10));
    assert(le_bytes_u32(payload.len() as u32) == buf.subrange(2, 6));
    assert(le_bytes_u32(msg_type) == buf.subrange(6, 10));
    assert(seq![MAGIC, MAGIC] + buf.subrange(2, 6) + buf.subrange(6, 10) + payload =~= buf.take(
        10 + len,
    ));
}

/// The bytes of a stream begin with the bytes of its first frame.
pub proof fn lemma_stream_bytes_cons(first: FrameView, rest: Seq<FrameView>)
    ensures
        stream_bytes(seq![first] + rest) == frame_bytes(first.msg_type, first.payload)
            + stream_bytes(rest),
{
    let all = seq![first] + rest;
    assert(all[0] == first);
    assert(all.skip(1) =~= rest);
}

/// The bytes of a buffer behind its complete frames: the place where the
/// reading stopped, for want of bytes or for an error.
pub open spec fn unread(buf: Seq<u8>, max: u32) -> Seq<u8>
    decreases buf.len(),
{
    if buf.len() >= HEADER_LEN && buf[0] == MAGIC && buf[1] == MAGIC && le_value_u32(
        buf.subrange(2, 6),
    ) <= max && buf.len() >= HEADER_LEN + le_value_u32(buf.subrange(2, 6)) {
        unread(buf.skip(10 + le_value_u32(buf.subrange(2, 6))), max)
    } else {
        buf
    }
}

/// Unless a reading stops for an error, what it keeps are the bytes where
/// it stopped.
pub proof fn lemma_rest_is_unread(buf: Seq<u8>, max: u32)
    requires
        scan(buf, max).error.is_none(),
    ensures
        scan(buf, max).rest == unread(buf, max),
    decreases buf.len(),
{
    if buf.len() >= HEADER_LEN && buf[0] == MAGIC && buf[1] == MAGIC {
        let len = le_value_u32(buf.subrange(2, 6));
        if len <= max && buf.len() >= HEADER_LEN + len {
            lemma_rest_is_unread(buf.skip(10 + len), max);
        }
    }
}

/// The frames that a reading found, written back to back, followed by the
/// bytes where the reading stopped, are the buffer.
pub proof fn lemma_scan_partitions(buf: Seq<u8>, max: u32)
    ensures
        stream_bytes(scan(buf, max).frames) + unread(buf, max) == buf,
    decreases buf.len(),
{
    if buf.len() >= HEADER_LEN && buf[0] == MAGIC && buf[1] == MAGIC && le_value_u32(
        buf.subrange(2, 6),
    ) <= max && buf.len() >= HEADER_LEN + le_value_u32(buf.subrange(2, 6)) {
        let n = 10 + le_value_u32(buf.subrange(2, 6));
        let first = FrameView {
            msg_type: le_value_u32(buf.subrange(6, 10)),
            payload: buf.subrange(10, n),
        };
        let behind = buf.skip(n);
        let tail = scan(behind, max);
        lemma_scan_partitions(behind, max);
        assert(scan(buf, max).frames == seq![first] + tail.frames);
        assert(unread(buf, max) == unread(behind, max));
        assert(stream_bytes(scan(buf, max).frames) == buf.take(n) + stream_bytes(tail.frames)) by {
            lemma_front_frame_rewritten(buf);
            lemma_stream_bytes_cons(first, tail.frames);
        }
        lemma_glue(buf.take(n), stream_bytes(tail.frames), unread(behind, max), behind, buf);
    } else {
        assert(scan(buf, max).frames =~= Seq::<FrameView>::empty());
        assert(unread(buf, max) == buf);
        assert(Seq::<u8>::empty() + buf =~= buf);
    }
}

/// Reading takes a buffer apart without losing or changing a byte: the
/// frames that were found, written back to back, are the beginning of the
/// buffer, and unless the reading ended in an error, what it kept is all
/// the rest.
pub proof fn theorem_scan_loses_nothing(buf: Seq<u8>, max: u32)
    ensures
        stream_bytes(scan(buf, max).frames) + unread(buf, max) == buf,
        scan(buf, max).error.is_none() ==> stream_bytes(scan(buf, max).frames) + scan(
            buf,
            max,
        ).rest == buf,
{
    lemma_scan_partitions(buf, max);
    if scan(buf, max).error.is_none() {
        lemma_rest_is_unread(buf, max);
    }
}

proof fn lemma_glue(front: Seq<u8>, later: Seq<u8>, rest: Seq<u8>, behind: Seq<u8>, buf: Seq<u8>)
    requires
        later + rest == behind,
        front + behind =~= buf,
    ensures
        (front + later) + rest == buf,
{
    assert((front + later) + rest =~= front + (later + rest));
}

/// Once a buffer has run into an error, bytes behind it change nothing.
pub proof fn lemma_scan_error_is_final(a: Seq<u8>, b: Seq<u8>, max: u32)
    requires
        scan(a, max).error.is_some(),
    ensures
        scan(a + b, max) == scan(a, max),
    decreases a.len(),
{
    let ab = a + b;
    assert(a.len() >= HEADER_LEN);
    assert(ab[0] == a[0] && ab[1] == a[1]);
    assert(ab.subrange(2, 6) =~= a.subrange(2, 6));
    assert(ab.subrange(6, 10) =~= a.subrange(6, 10));
    if a[0] == MAGIC && a[1] == MAGIC {
        let len = le_value_u32(a.subrange(2, 6));
        if len <= max {
            assert(a.len() >= HEADER_LEN + len);
            assert(ab.subrange(10, 10 + len) =~= a.subrange(10, 10 + len));
            assert(ab.skip(10 + len) =~= a.skip(10 + len) + b);
            lemma_scan_error_is_final(a.skip(10 + len), b, max);
        }
    }
}

/// Reading `a` and then reading what it left together with `b` finds the
/// same frames, and ends in the same state, as reading `a + b` in one go.
pub proof fn lemma_scan_split(a: Seq<u8>, b: Seq<u8>, max: u32)
    requires
        scan(a, max).error.is_none(),
    ensures
        scan(a + b, max) == (Scan {
            frames: scan(a, max).frames + scan(scan(a, max).rest + b, max).frames,
            rest: scan(scan(a, max).rest + b, max).rest,
            error: scan(scan(a, max).rest + b, max).error,
        }),
    decreases a.len(),
{
    let ab = a + b;
    let whole = scan(ab, max);
    let kept = scan(a, max).rest;
    if a.len() >= HEADER_LEN {
        assert(ab[0] == a[0] && ab[1] == a[1]);
        assert(ab.subrange(2, 6) =~= a.subrange(2, 6));
        assert(ab.subrange(6, 10) =~= a.subrange(6, 10));
        let len = le_value_u32(a.subrange(2, 6));
        if a.len() >= HEADER_LEN + len {
            let behind = a.skip(10 + len);
            assert(ab.subrange(10, 10 + len) =~= a.subrange(10, 10 + len));
            assert(ab.skip(10 + len) =~= behind + b);
            lemma_scan_split(behind, b, max);
            let first = FrameView {
                msg_type: le_value_u32(a.subrange(6, 10)),
                payload: a.subrange(10, 10 + len),
            };
            assert(seq![first] + (scan(behind, max).frames + scan(kept + b, max).frames) =~= (
            seq![first] + scan(behind, max).frames) + scan(kept + b, max).frames);
        }
    }
    if a.len() < HEADER_LEN || a.len() < HEADER_LEN + le_value_u32(a.subrange(2, 6)) {
        assert(kept == a);
        assert(Seq::<FrameView>::empty() + scan(ab, max).frames =~= scan(ab, max).frames);
    }
}

/// A stream that holds no framing error gives the same frames, and leaves
/// the same bytes pending, however it is cut into chunks: feeding the
/// chunks one by one does what feeding them joined in one call does.
pub proof fn theorem_fragmentation_invariance(pending: Seq<u8>, chunks: Seq<Seq<u8>>, max: u32)
    requires
        settled(pending, max),
        scan(pending + joined(chunks), max).error.is_none(),
    ensures
        feed_all(pending, chunks, max) == (
            scan(pending + joined(chunks), max).frames,
            scan(pending + joined(chunks), max).rest,
        ),
    decreases chunks.len(),
{
    if chunks.len() == 0 {
        assert(pending + joined(chunks) =~= pending);
    } else {
        let head = pending + chunks[0];
        let behind = joined(chunks.skip(1));
        assert(pending + joined(chunks) =~= head + behind);
        if scan(head, max).error.is_some() {
            lemma_scan_error_is_final(head, behind, max);
        }
        lemma_scan_split(head, behind, max);
        lemma_scan_is_settled(head, max);
        theorem_fragmentation_invariance(scan(head, max).rest, chunks.skip(1), max);
    }
}

/// A complete frame cut into chunks at any boundaries comes out as that one
/// frame, as it does when fed whole.
pub proof fn theorem_fragmented_frame(
    msg_type: u32,
    payload: Seq<u8>,
    chunks: Seq<Seq<u8>>,
    max: u32,
)
    requires
        payload.len() <= max,
        joined(chunks) == frame_bytes(msg_type, payload),
    ensures
        feed_all(Seq::empty(), chunks, max) == (
            seq![FrameView { msg_type, payload }],
            Seq::<u8>::empty(),
        ),
        feed_all(Seq::empty(), chunks, max) == feed_all(
            Seq::empty(),
            seq![frame_bytes(msg_type, payload)],
            max,
        ),
{
    let whole = frame_bytes(msg_type, payload);
    theorem_frame_round_trip(msg_type, payload, max);
    assert(Seq::<u8>::empty() + joined(chunks) =~= whole);
    assert(settled(Seq::empty(), max));
    theorem_fragmentation_invariance(Seq::empty(), chunks, max);
    let single = seq![whole];
    assert(joined(single.skip(1)) =~= Seq::<u8>::empty());
    assert(joined(single) =~= whole);
    assert(Seq::<u8>::empty() + joined(single) =~= whole);
    theorem_fragmentation_invariance(Seq::empty(), single, max);
}

/// Fewer bytes than a header yield no frame and are all kept.
pub proof fn theorem_short_chunk_is_kept(bytes: Seq<u8>, max: u32)
    requires
        bytes.len() < HEADER_LEN,
    ensures
        scan(bytes, max) == (Scan { frames: Seq::empty(), rest: bytes, error: None }),
{
}

/// Any beginning of a frame that stops short of its last byte yields no
/// frame and is kept as it is.
pub proof fn theorem_partial_frame_is_kept(msg_type: u32, payload: Seq<u8>, cut: int, max: u32)
    requires
        payload.len() <= max,
        0 <= cut < frame_bytes(msg_type, payload).len(),
    ensures
        scan(frame_bytes(msg_type, payload).take(cut), max) == (Scan {
            frames: Seq::empty(),
            rest: frame_bytes(msg_type, payload).take(cut),
            error: None,
        }),
{
    let whole = frame_bytes(msg_type, payload);
    let part = whole.take(cut);
    let len = payload.len() as u32;
    lemma_le_u32_value_of_bytes(len);
    lemma_le_u32_value_of_bytes(msg_type);
    if cut >= HEADER_LEN {
        assert(part[0] == MAGIC && part[1] == MAGIC);
        assert(part.subrange(2, 6) =~= le_bytes_u32(len));
    }
}

/// After a framing error the decoder holds nothing, so a frame that
/// arrives next, whole or in pieces, is read from its first byte and comes
/// out whole.
pub proof fn theorem_recovery_after_error(
    pending: Seq<u8>,
    bad: Seq<u8>,
    msg_type: u32,
    payload: Seq<u8>,
    chunks: Seq<Seq<u8>>,
    max: u32,
)
    requires
        scan(pending + bad, max).error.is_some(),
        payload.len() <= max,
        joined(chunks) == frame_bytes(msg_type, payload),
    ensures
        scan(pending + bad, max).rest == Seq::<u8>::empty(),
        feed_all(pending, seq![bad] + chunks, max) == (
            scan(pending + bad, max).frames + seq![FrameView { msg_type, payload }],
            Seq::<u8>::empty(),
        ),
{
    lemma_scan_error_empties(pending + bad, max);
    theorem_fragmented_frame(msg_type, payload, chunks, max);
    let all = seq![bad] + chunks;
    assert(all[0] == bad);
    assert(all.skip(1) =~= chunks);
}

/// A decoder never waits without end: once it holds as many bytes as a
/// header and the longest payload take, it has handed out a frame or
/// reported an error.
pub proof fn theorem_decoder_makes_progress(buf: Seq<u8>, max: u32)
    requires
        buf.len() >= HEADER_LEN + max,
    ensures
        scan(buf, max).frames.len() > 0 || scan(buf, max).error.is_some(),
{
}

/// A reading that ends in an error keeps nothing.
pub proof fn lemma_scan_error_empties(buf: Seq<u8>, max: u32)
    requires
        scan(buf, max).error.is_some(),
    ensures
        scan(buf, max).rest == Seq::<u8>::empty(),
    decreases buf.len(),
{
    if buf.len() >= HEADER_LEN && buf[0] == MAGIC && buf[1] == MAGIC {
        let len = le_value_u32(buf.subrange(2, 6));
        if len <= max && buf.len() >= HEADER_LEN + len {
            lemma_scan_error_empties(buf.skip(10 + len), max);
        }
    }
}

} // verus!
