//! The rules of the serial line: what to make of a read, and how to pace
//! a write.
//!
//! The line itself is the caller's. The caller reads and tells how the
//! read ended; it asks for the plan of a write and carries it out.

use crate::decoder::{scan, settled, Decoder, FeedOutcome};
use vstd::prelude::*;

verus! {

/// How one read of the serial line ended.
#[derive(Debug, Clone, Copy, PartialEq, Eq)]
pub enum ReadOutcome<'a> {
    /// Bytes were read. There may be none.
    Data(&'a [u8]),
    /// The read timed out with nothing to give.
    TimedOut,
    /// The read failed in some other way.
    Failed,
}

/// What the reader of the serial line is to do next.
#[derive(Debug, PartialEq, Eq)]
pub enum PollAction {
    /// Hand these frames on, oldest first, and read again. A framing error
    /// is reported beside them; the session goes on.
    Deliver(FeedOutcome),
    /// Nothing arrived. Read again.
    Idle,
    /// The session is over.
    Stop,
}

/// Takes the outcome of one read of the serial line.
///
/// Bytes are fed to the decoder. A timeout is no error and changes
/// nothing. Any other failure ends the session, with the decoder left as
/// it was.
pub fn on_read(decoder: &mut Decoder, outcome: ReadOutcome<'_>) -> (action: PollAction)
    ensures
        final(decoder).limit() == old(decoder).limit(),
        match outcome {
            ReadOutcome::Data(bytes) => {
                let read = scan(old(decoder).pending() + bytes@, old(decoder).limit());
                &&& action matches PollAction::Deliver(out)
                &&& out.reports(read)
                &&& final(decoder).pending() == read.rest
                &&& settled(final(decoder).pending(), final(decoder).limit())
            },
            ReadOutcome::TimedOut => action is Idle && final(decoder).pending() == old(
                decoder,
            ).pending(),
            ReadOutcome::Failed => action is Stop && final(decoder).pending() == old(
                decoder,
            ).pending(),
        },
{
    match outcome {
        ReadOutcome::Data(bytes) => PollAction::Deliver(decoder.feed(bytes)),
        ReadOutcome::TimedOut => PollAction::Idle,
        ReadOutcome::Failed => PollAction::Stop,
    }
}

/// One step of writing to the device.
#[derive(Debug, Clone, Copy, PartialEq, Eq)]
pub enum WriteStep {
    /// Write this one byte.
    Write(u8),
    /// Wait at least this many milliseconds before anything else is
    /// written.
    Pause(u64),
}

/// The steps that write `bytes`: each byte on its own, in order, and a
/// pause after every one of them, the last included.
pub open spec fn paced(bytes: Seq<u8>, delay_ms: u64) -> Seq<WriteStep>
    decreases bytes.len(),
{
    if bytes.len() == 0 {
        Seq::empty()
    } else {
        paced(bytes.drop_last(), delay_ms).push(WriteStep::Write(bytes.last())).push(
            WriteStep::Pause(delay_ms),
        )
    }
}

/// Plans the writing of `bytes` to the device.
///
/// The device cannot take a burst at line speed: it is sent one byte at a
/// time, with a pause of `delay_ms` after each.
pub fn write_plan(bytes: &[u8], delay_ms: u64) -> (plan: Vec<WriteStep>)
    ensures
        plan@ == paced(bytes@, delay_ms),
{
    let mut plan: Vec<WriteStep> = Vec::new();
    let mut i: usize = 0;
    while i < bytes.len()
        invariant
            i <= bytes@.len(),
            plan@ == paced(bytes@.take(i as int), delay_ms),
        decreases bytes@.len() - i,
    {
        assert(bytes@.take(i + 1).drop_last() =~= bytes@.take(i as int));
        plan.push(WriteStep::Write(bytes[i]));
        plan.push(WriteStep::Pause(delay_ms));
        i += 1;
    }
    assert(bytes@.take(i as int) =~= bytes@);
    plan
}

/// A plan holds two steps for each byte: the even steps write the bytes,
/// in their order, and every odd step is the pause. So all bytes are
/// written, each once, and no two writes follow each other without a
/// pause.
pub proof fn theorem_plan_is_paced(bytes: Seq<u8>, delay_ms: u64)
    ensures
        paced(bytes, delay_ms).len() == 2 * bytes.len(),
        forall|k: int|
            0 <= k < 2 * bytes.len() ==> #[trigger] paced(bytes, delay_ms)[k] == if k % 2 == 0 {
                WriteStep::Write(bytes[k / 2])
            } else {
                WriteStep::Pause(delay_ms)
            },
    decreases bytes.len(),
{
    if bytes.len() > 0 {
        let before = bytes.drop_last();
        theorem_plan_is_paced(before, delay_ms);
        assert forall|k: int| 0 <= k < 2 * bytes.len() implies #[trigger] paced(
            bytes,
            delay_ms,
        )[k] == if k % 2 == 0 {
            WriteStep::Write(bytes[k / 2])
        } else {
            WriteStep::Pause(delay_ms)
        } by {
            if k < 2 * before.len() {
                assert(paced(bytes, delay_ms)[k] == paced(before, delay_ms)[k]);
                assert(before[k / 2] == bytes[k / 2]);
            }
        }
    }
}

} // verus!
