//! What holds of every session, whatever the source and the engine do.
//!
//! Each statement is about the steps of [`Session`], which are exactly what
//! the functions of [`OodleDecoder`](crate::oodle::OodleDecoder) do to a
//! decoder.

use crate::bytes::placed;
use crate::oodle::{
    min_of, Action, DecodeOutcome, Session, BLOCK_LEN, DECODE_BUFFER_LEN, DICTIONARY_LEN,
    IO_BUFFER_LEN,
};
use vstd::prelude::*;

verus! {

/// No step lets a reader run ahead of its writer or a cursor leave its
/// buffer: a well-formed session stays well-formed through every step.
pub proof fn lemma_steps_keep_cursors_ordered(
    s: Session,
    room: int,
    count: int,
    outcome: DecodeOutcome,
    written: usize,
)
    requires
        s.wf(),
        0 <= room,
        0 <= count <= IO_BUFFER_LEN - s.staged_to,
        s.admits(outcome),
        written <= room,
    ensures
        s.begin(room).0.wf(),
        s.filled(count, written).0.wf(),
        s.decoded(outcome, room, written).0.wf(),
        s.settled().wf(),
        s.repacked().wf(),
{
}

/// A request for no bytes is served at once: it finishes with 0 bytes and
/// leaves the session as it was, so neither the source nor the engine is
/// asked for anything.
pub proof fn lemma_empty_request_finishes_at_once(s: Session)
    requires
        s.wf(),
    ensures
        s.begin(0) == (s, Action::Finish { written: 0 }),
        s.begin_bytes(0) == Seq::<u8>::empty(),
{
    assert(s.begin(0).0 =~= s);
    assert(s.begin_bytes(0) =~= Seq::<u8>::empty());
}

/// When the source is at its end and nothing is staged, the request that
/// asked it finishes, and leaves a session with nothing staged and nothing
/// more undelivered than there was.
pub proof fn lemma_source_end_finishes(s: Session, count: int, written: usize)
    requires
        s.wf(),
        0 <= count <= IO_BUFFER_LEN - s.staged_to,
        s.filled(count, written).1 == (Action::Finish { written }),
    ensures
        count == 0,
        s.staged_from == s.staged_to,
        s.filled(count, written).0 == s,
{
    assert(s.filled(count, written).0 =~= s);
}

/// Once a request has come back with 0 bytes and nothing is staged, every
/// later request does the same, as long as the source stays at its end:
/// the request hands out nothing, asks the source, is told of no new bytes,
/// and finishes with 0 bytes. The engine is never run, and the session does
/// not change.
pub proof fn lemma_end_of_data_stays(end: Session, room: int)
    requires
        end.wf(),
        end.pending == 0,
        end.staged_from == end.staged_to,
        0 < room,
    ensures
        end.begin(room) == (end, Action::Refill { written: 0 }),
        end.begin_bytes(room) == Seq::<u8>::empty(),
        end.filled(0, 0) == (end, Action::Finish { written: 0 }),
{
    assert(end.begin(room).0 =~= end);
    assert(end.begin_bytes(room) =~= Seq::<u8>::empty());
    assert(end.filled(0, 0).0 =~= end);
}

/// A failed engine run aborts the request, hands out nothing and leaves the
/// session as it was.
pub proof fn lemma_failed_run_aborts(s: Session, outcome: DecodeOutcome, room: int, written: usize)
    requires
        !outcome.ok,
    ensures
        s.decoded(outcome, room, written) == (s, Action::Abort),
        s.decoded_bytes(outcome, room - written) == Seq::<u8>::empty(),
{
}

/// Bytes written behind position `at` leave everything before `at` alone:
/// what a request has received is never touched again.
pub proof fn lemma_placing_keeps_the_front(dest: Seq<u8>, at: int, bytes: Seq<u8>)
    requires
        0 <= at,
        at + bytes.len() <= dest.len(),
    ensures
        placed(dest, at, bytes).len() == dest.len(),
        placed(dest, at, bytes).subrange(0, at) == dest.subrange(0, at),
        placed(dest, at, bytes).subrange(at, at + bytes.len()) == bytes,
{
    assert(placed(dest, at, bytes).subrange(0, at) =~= dest.subrange(0, at));
    assert(placed(dest, at, bytes).subrange(at, at + bytes.len()) =~= bytes);
}

/// Sliding loses nothing: where no undelivered byte lies before the part
/// of the window that is kept, the bytes that a back-reference of any
/// distance up to the dictionary's resolves into are the same after the
/// slide as before, and so are the undelivered bytes.
pub proof fn lemma_sliding_keeps_the_dictionary(s: Session, distance: int)
    requires
        s.wf(),
        s.writer_pos >= DICTIONARY_LEN,
        s.pending <= DICTIONARY_LEN,
        0 <= distance <= DICTIONARY_LEN,
    ensures
        s.slid().wf(),
        s.slid().history(distance) == s.history(distance),
        s.slid().undelivered() == s.undelivered(),
        s.slid().staged() == s.staged(),
{
    assert(s.slid().history(distance) =~= s.history(distance));
    assert(s.slid().undelivered() =~= s.undelivered());
}

/// The sliding check slides only where that is so, and where it slides it
/// leaves room for a whole block behind the writer.
pub proof fn lemma_settling_slides_safely(s: Session)
    requires
        s.wf(),
    ensures
        s.slides() ==> s.writer_pos >= DICTIONARY_LEN && s.pending <= DICTIONARY_LEN
            && s.settled() == s.slid() && s.settled().decode_room() >= BLOCK_LEN,
        !s.slides() ==> s.settled() == s,
        s.settled().undelivered() == s.undelivered(),
        s.settled().staged() == s.staged(),
{
    if s.slides() {
        lemma_sliding_keeps_the_dictionary(s, 0);
    }
}

/// Opening a request splits the undelivered bytes in two, in order: what
/// the request receives, and what stays undelivered.
pub proof fn lemma_begin_splits_undelivered(s: Session, room: int)
    requires
        s.wf(),
        0 <= room,
    ensures
        s.begin_bytes(room) + s.begin(room).0.undelivered() == s.undelivered(),
{
    assert(s.begin_bytes(room) + s.begin(room).0.undelivered() =~= s.undelivered());
}

/// How a consumer cuts its requests does not matter: two requests for `a`
/// and `b` bytes receive from the undelivered bytes what one request for
/// `a + b` bytes receives, and leave the same session behind.
pub proof fn lemma_requests_can_be_cut_anywhere(s: Session, a: int, b: int)
    requires
        s.wf(),
        0 <= a,
        0 <= b,
    ensures
        s.begin_bytes(a) + s.begin(a).0.begin_bytes(b) == s.begin_bytes(a + b),
        s.begin(a).0.begin(b).0 == s.begin(a + b).0,
{
    assert(s.begin_bytes(a) + s.begin(a).0.begin_bytes(b) =~= s.begin_bytes(a + b));
    assert(s.begin(a).0.begin(b).0 =~= s.begin(a + b).0);
}

/// An engine run that decoded something splits its output in two, in
/// order: what the request receives, and what stays undelivered. Nothing
/// is lost when the window slides in the same step.
pub proof fn lemma_decoded_splits_output(
    s: Session,
    outcome: DecodeOutcome,
    room: int,
    written: usize,
)
    requires
        s.wf(),
        s.admits(outcome),
        outcome.ok,
        outcome.decoded > 0,
        written <= room,
    ensures
        s.decoded_bytes(outcome, room - written) + s.decoded(
            outcome,
            room,
            written,
        ).0.undelivered() == s.window.subrange(s.writer_pos, s.writer_pos + outcome.decoded),
{
    let count = min_of(outcome.decoded as int, room - written);
    let grown = Session {
        writer_pos: s.writer_pos + outcome.decoded,
        pending: outcome.decoded - count,
        staged_from: s.staged_from + outcome.consumed,
        ..s
    };
    assert(s.decoded(outcome, room, written).0 == grown.settled());
    assert(grown.settled().undelivered() =~= grown.undelivered());
    assert(s.decoded_bytes(outcome, room - written) + grown.undelivered() =~= s.window.subrange(
        s.writer_pos,
        s.writer_pos + outcome.decoded,
    ));
}

/// The engine's input is used up in order and without gaps: after a run
/// that succeeded, the staged bytes are the ones staged before, less the
/// ones the engine consumed, wherever in the buffer they now lie.
pub proof fn lemma_decoded_keeps_staged(
    s: Session,
    outcome: DecodeOutcome,
    room: int,
    written: usize,
)
    requires
        s.wf(),
        s.admits(outcome),
        outcome.ok,
        written <= room,
    ensures
        s.decoded(outcome, room, written).0.staged() == s.staged().subrange(
            outcome.consumed as int,
            s.staged().len() as int,
        ),
{
    assert(s.decoded(outcome, room, written).0.staged() =~= s.staged().subrange(
        outcome.consumed as int,
        s.staged().len() as int,
    ));
}

/// A run that stalls for want of input makes room for more: the unused
/// bytes move to the front of the staging buffer, and all of the buffer
/// behind them is free.
pub proof fn lemma_stall_makes_room(s: Session, outcome: DecodeOutcome, room: int, written: usize)
    requires
        s.wf(),
        s.admits(outcome),
        outcome.ok,
        outcome.decoded == 0,
        outcome.quantum_len != 0,
        written <= room,
    ensures
        s.decoded(outcome, room, written).0.staged_from == 0,
        s.decoded(outcome, room, written).0.staged_to == s.staged().len() - outcome.consumed,
{
}

/// The one state in which that room is none: the staging buffer is full of
/// bytes the engine has not used, and the engine stalls without using any.
/// A request then goes round in a circle, for the stall leaves the session
/// as it was and asks for a refill, and a refill of nothing asks for the
/// engine again. A quantum has to fit the staging buffer.
pub proof fn lemma_full_staging_stalls_for_good(
    s: Session,
    outcome: DecodeOutcome,
    room: int,
    written: usize,
)
    requires
        s.wf(),
        s.writer_pos + BLOCK_LEN <= DECODE_BUFFER_LEN,
        s.staged_from == 0,
        s.staged_to == IO_BUFFER_LEN,
        outcome.ok,
        outcome.decoded == 0,
        outcome.consumed == 0,
        outcome.quantum_len != 0,
        written < room,
    ensures
        s.decoded(outcome, room, written) == (s, Action::Refill { written }),
        s.filled(0, written) == (s, Action::Decode { written }),
{
    assert(s.repacked().staging =~= s.staging);
    assert(s.decoded(outcome, room, written).0 =~= s);
    assert(s.filled(0, written).0 =~= s);
}

/// The source is asked, and so the engine is run, only when nothing is
/// undelivered: a step that answers with a refill has handed out all there
/// was, and taking note of the source's bytes adds none.
pub proof fn lemma_refill_means_nothing_undelivered(
    s: Session,
    room: int,
    count: int,
    outcome: DecodeOutcome,
    written: usize,
)
    requires
        s.wf(),
        0 <= room,
        s.admits(outcome),
        written <= room,
    ensures
        s.begin(room).1 is Refill ==> s.begin(room).0.pending == 0,
        s.decoded(outcome, room, written).1 is Refill ==> s.decoded(
            outcome,
            room,
            written,
        ).0.pending == 0 || outcome.decoded == 0,
        outcome.decoded == 0 ==> s.decoded(outcome, room, written).0.pending == s.pending,
        s.filled(count, written).0.pending == s.pending,
{
}

/// Whenever the engine is asked to run with nothing undelivered, the window
/// has room for a whole block behind the writer.
pub proof fn lemma_engine_gets_a_block_of_room(s: Session, count: int, written: usize)
    requires
        s.wf(),
        s.pending == 0,
        0 <= count <= IO_BUFFER_LEN - s.staged_to,
        s.filled(count, written).1 == (Action::Decode { written }),
    ensures
        s.filled(count, written).0.decode_room() >= BLOCK_LEN,
        s.filled(count, written).0.staged().len() > 0,
{
}

} // verus!
