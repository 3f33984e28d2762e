//! The session state of a streaming block decoder.
//!
//! A compressed stream is decoded one quantum at a time by an engine that
//! lives outside this crate, fed from a byte source that also lives outside
//! it. [`OodleDecoder`] is everything in between: the staging buffer of
//! compressed bytes, the sliding window of decoded bytes, the cursors into
//! both, and the decision what has to happen next.
//!
//! A driver serves one read request like this:
//!
//! 1. [`OodleDecoder::begin`] hands out decoded bytes left over from earlier
//!    requests and answers with an [`Action`].
//! 2. On [`Action::Refill`] the driver reads from its source into
//!    [`OodleDecoder::fill_target`] and reports the count to
//!    [`OodleDecoder::filled`].
//! 3. On [`Action::Decode`] it runs the engine on what
//!    [`OodleDecoder::engine_io`] lends it and reports the engine's counts
//!    to [`OodleDecoder::decoded`].
//! 4. [`Action::Finish`] and [`Action::Abort`] end the request.
//!
//! Every step is specified over [`Session`], the mathematical picture of the
//! decoder, so that what a sequence of steps does can be stated and proved
//! without running it.

use crate::bytes::{copy_into, move_to_front, placed};
use vstd::prelude::*;

verus! {

/// Size of the sliding window of decoded bytes.
pub const DECODE_BUFFER_LEN: usize = 3145728;

/// How much decoded history the engine may refer back to.
pub const DICTIONARY_LEN: usize = 2097152;

/// The most the engine decodes into one block, and the least compressed
/// input it wants to see at once.
pub const BLOCK_LEN: usize = 262144;

/// Size of the staging buffer for compressed bytes: two blocks.
pub const IO_BUFFER_LEN: usize = 524288;

/// What the engine reported after it was run once.
#[derive(Clone, Copy, Debug, PartialEq, Eq)]
pub struct DecodeOutcome {
    /// `false` if the engine rejected its input; the counts are then
    /// meaningless.
    pub ok: bool,
    /// Bytes newly written to the window, from the writer position on.
    pub decoded: usize,
    /// Compressed bytes used up, from the start of the input it was given.
    pub consumed: usize,
    /// Compressed length of the quantum the engine is working on; zero once
    /// the stream holds no further quantum.
    pub quantum_len: usize,
}

/// What the driver has to do next. `written` is the number of bytes of the
/// request's destination that are filled so far.
#[derive(Clone, Copy, Debug, PartialEq, Eq, Structural)]
pub enum Action {
    /// Read from the source into [`OodleDecoder::fill_target`], then call
    /// [`OodleDecoder::filled`].
    Refill { written: usize },
    /// Run the engine on [`OodleDecoder::engine_io`], then call
    /// [`OodleDecoder::decoded`].
    Decode { written: usize },
    /// The request is served with `written` bytes.
    Finish { written: usize },
    /// The engine failed; the session cannot go on.
    Abort,
}

/// The mathematical picture of a decoder.
#[verifier::ext_equal]
pub struct Session {
    /// Total decoded length the stream was declared with.
    pub uncompressed_size: u32,
    /// Contents of the sliding window.
    pub window: Seq<u8>,
    /// End of the decoded bytes in `window`.
    pub writer_pos: int,
    /// Number of decoded bytes, ending at `writer_pos`, that no request has
    /// received yet.
    pub pending: int,
    /// Contents of the staging buffer.
    pub staging: Seq<u8>,
    /// Start of the compressed bytes the engine has not used yet.
    pub staged_from: int,
    /// End of the compressed bytes read from the source.
    pub staged_to: int,
}

pub open spec fn min_of(a: int, b: int) -> int {
    if a <= b {
        a
    } else {
        b
    }
}

/// The action that follows a step which left `written` bytes in a
/// destination of `room` bytes: stop when it is full.
pub open spec fn go_on(written: int, room: int) -> Action {
    if written < room {
        Action::Refill { written: written as usize }
    } else {
        Action::Finish { written: written as usize }
    }
}

impl Session {
    /// A session before its first step: zeroed buffers, all cursors at 0.
    pub open spec fn fresh(uncompressed_size: u32) -> Session {
        Session {
            uncompressed_size,
            window: Seq::new(DECODE_BUFFER_LEN as nat, |i: int| 0u8),
            writer_pos: 0,
            pending: 0,
            staging: Seq::new(IO_BUFFER_LEN as nat, |i: int| 0u8),
            staged_from: 0,
            staged_to: 0,
        }
    }

    /// Both buffers have their fixed sizes, and in each the reader never
    /// runs ahead of the writer.
    pub open spec fn wf(self) -> bool {
        &&& self.window.len() == DECODE_BUFFER_LEN
        &&& self.staging.len() == IO_BUFFER_LEN
        &&& 0 <= self.pending <= self.writer_pos <= DECODE_BUFFER_LEN
        &&& 0 <= self.staged_from <= self.staged_to <= IO_BUFFER_LEN
    }

    /// The decoded bytes that no request has received yet, oldest first.
    pub open spec fn undelivered(self) -> Seq<u8> {
        self.window.subrange(self.writer_pos - self.pending, self.writer_pos)
    }

    /// The compressed bytes the engine has not used yet.
    pub open spec fn staged(self) -> Seq<u8> {
        self.staging.subrange(self.staged_from, self.staged_to)
    }

    /// The `len` decoded bytes that end at the writer position: what a
    /// back-reference of distance up to `len` resolves into.
    pub open spec fn history(self, len: int) -> Seq<u8> {
        self.window.subrange(self.writer_pos - len, self.writer_pos)
    }

    /// Space left in the window for the engine to decode into.
    pub open spec fn decode_room(self) -> int {
        DECODE_BUFFER_LEN - self.writer_pos
    }

    /// Whether `outcome` is something the engine can have reported for this
    /// session: it cannot decode more than the room it was given, nor use
    /// more input than it was shown.
    pub open spec fn admits(self, outcome: DecodeOutcome) -> bool {
        outcome.ok ==> outcome.decoded <= self.decode_room() && outcome.consumed
            <= self.staged_to - self.staged_from
    }

    /// The window is due for sliding when it cannot take another block
    /// behind the writer, and may slide when all undelivered bytes lie in
    /// the part that sliding keeps.
    pub open spec fn slides(self) -> bool {
        self.writer_pos + BLOCK_LEN > DECODE_BUFFER_LEN && self.pending <= DICTIONARY_LEN
    }

    /// The session with the last `DICTIONARY_LEN` decoded bytes moved to the
    /// start of the window and the writer right behind them.
    pub open spec fn slid(self) -> Session {
        Session {
            window: placed(self.window, 0, self.history(DICTIONARY_LEN as int)),
            writer_pos: DICTIONARY_LEN as int,
            ..self
        }
    }

    /// The session after the sliding check that closes a decode step and
    /// precedes every engine run.
    pub open spec fn settled(self) -> Session {
        if self.slides() {
            self.slid()
        } else {
            self
        }
    }

    /// The session with the unused compressed bytes moved to the start of
    /// the staging buffer.
    pub open spec fn repacked(self) -> Session {
        Session {
            staging: placed(self.staging, 0, self.staged()),
            staged_from: 0,
            staged_to: self.staged_to - self.staged_from,
            ..self
        }
    }

    /// The bytes that [`OodleDecoder::begin`] writes to the start of a
    /// destination of `room` bytes.
    pub open spec fn begin_bytes(self, room: int) -> Seq<u8> {
        self.undelivered().subrange(0, min_of(self.pending, room))
    }

    /// The session after, and the action returned by, a call of
    /// [`OodleDecoder::begin`] with a destination of `room` bytes.
    pub open spec fn begin(self, room: int) -> (Session, Action) {
        let count = min_of(self.pending, room);
        (
            Session { pending: self.pending - count, ..self },
            if count == room {
                Action::Finish { written: count as usize }
            } else {
                Action::Refill { written: count as usize }
            },
        )
    }

    /// The session after, and the action returned by, a call of
    /// [`OodleDecoder::filled`]: the source has put `count` bytes behind the
    /// staged ones. With nothing staged the stream is at its end.
    pub open spec fn filled(self, count: int, written: usize) -> (Session, Action) {
        let grown = Session { staged_to: self.staged_to + count, ..self };
        if grown.staged_from == grown.staged_to {
            (grown, Action::Finish { written })
        } else {
            (grown.settled(), Action::Decode { written })
        }
    }

    /// The bytes that [`OodleDecoder::decoded`] writes to a destination
    /// with `room` bytes left.
    pub open spec fn decoded_bytes(self, outcome: DecodeOutcome, room: int) -> Seq<u8> {
        if outcome.ok {
            self.window.subrange(
                self.writer_pos,
                self.writer_pos + min_of(outcome.decoded as int, room),
            )
        } else {
            Seq::empty()
        }
    }

    /// The session after, and the action returned by, a call of
    /// [`OodleDecoder::decoded`] for a destination of `room` bytes of which
    /// `written` are filled.
    pub open spec fn decoded(self, outcome: DecodeOutcome, room: int, written: usize) -> (
        Session,
        Action,
    ) {
        let used = Session { staged_from: self.staged_from + outcome.consumed, ..self };
        if !outcome.ok {
            (self, Action::Abort)
        } else if outcome.decoded > 0 {
            let count = min_of(outcome.decoded as int, room - written);
            (
                Session {
                    writer_pos: self.writer_pos + outcome.decoded,
                    pending: outcome.decoded - count,
                    ..used
                }.settled(),
                go_on(written + count, room),
            )
        } else if outcome.quantum_len == 0 {
            (used, Action::Finish { written })
        } else {
            (used.repacked().settled(), go_on(written as int, room))
        }
    }
}

/// The bookkeeping of one decode session: both buffers and their cursors.
pub struct OodleDecoder {
    /// The total size of the raw data expected to come out of the stream.
    uncompressed_size: u32,
    /// A sliding window of decoded bytes, large enough to keep the
    /// dictionary in memory while the next block is decoded.
    decode_buffer: Vec<u8>,
    /// The engine's position in the sliding window.
    decode_buffer_writer_pos: usize,
    /// The number of bytes that the consumer lags behind the engine.
    decode_buffer_reader_pos: usize,
    /// Compressed bytes read from the source and not yet used by the engine.
    io_buffer: Vec<u8>,
    /// End of the bytes read into `io_buffer`.
    io_buffer_writer_pos: usize,
    /// Start of the bytes in `io_buffer` that the engine has not used.
    io_buffer_reader_pos: usize,
}

impl View for OodleDecoder {
    type V = Session;

    closed spec fn view(&self) -> Session {
        Session {
            uncompressed_size: self.uncompressed_size,
            window: self.decode_buffer@,
            writer_pos: self.decode_buffer_writer_pos as int,
            pending: self.decode_buffer_reader_pos as int,
            staging: self.io_buffer@,
            staged_from: self.io_buffer_reader_pos as int,
            staged_to: self.io_buffer_writer_pos as int,
        }
    }
}

impl OodleDecoder {
    /// Sets up the session for a stream of `uncompressed_size` decoded
    /// bytes. `engine_ready` says whether the engine granted a decoder for
    /// the stream; without one there is no session.
    pub fn new(engine_ready: bool, uncompressed_size: u32) -> (session: Option<OodleDecoder>)
        ensures
            engine_ready ==> session.is_some() && session.unwrap()@ == Session::fresh(
                uncompressed_size,
            ),
            !engine_ready ==> session.is_none(),
    {
        if !engine_ready {
            return None;
        }
        let decode_buffer = vec![0u8; DECODE_BUFFER_LEN];
        let io_buffer = vec![0u8; IO_BUFFER_LEN];
        let session = OodleDecoder {
            uncompressed_size,
            decode_buffer,
            decode_buffer_writer_pos: 0,
            decode_buffer_reader_pos: 0,
            io_buffer,
            io_buffer_writer_pos: 0,
            io_buffer_reader_pos: 0,
        };
        assert(session@.window =~= Session::fresh(uncompressed_size).window);
        assert(session@.staging =~= Session::fresh(uncompressed_size).staging);
        Some(session)
    }

    /// Opens a read request for `dest`: hands out undelivered bytes, oldest
    /// first, as far as they and `dest` reach. The request is finished if
    /// that fills `dest`, an empty one at once; otherwise the source is
    /// asked for more.
    pub fn begin(&mut self, dest: &mut [u8]) -> (action: Action)
        requires
            old(self)@.wf(),
        ensures
            (final(self)@, action) == old(self)@.begin(old(dest)@.len() as int),
            final(dest)@ == placed(
                old(dest)@,
                0,
                old(self)@.begin_bytes(old(dest)@.len() as int),
            ),
            final(self)@.wf(),
    {
        let room: usize = dest.len();
        let count: usize = if self.decode_buffer_reader_pos <= room {
            self.decode_buffer_reader_pos
        } else {
            room
        };
        let start: usize = self.decode_buffer_writer_pos - self.decode_buffer_reader_pos;
        copy_into(dest, 0, self.decode_buffer.as_slice(), start, count);
        self.decode_buffer_reader_pos -= count;
        proof {
            assert(old(self)@.begin_bytes(room as int) =~= old(self)@.window.subrange(
                start as int,
                start + count,
            ));
        }
        if count == room {
            Action::Finish { written: count }
        } else {
            Action::Refill { written: count }
        }
    }

    /// The free tail of the staging buffer, for the source to read into.
    /// The bytes staged so far are out of the borrower's reach.
    pub fn fill_target(&mut self) -> (tail: &mut [u8])
        requires
            old(self)@.wf(),
        ensures
            tail@ == old(self)@.staging.subrange(old(self)@.staged_to, IO_BUFFER_LEN as int),
            final(self)@ == (Session {
                staging: old(self)@.staging.subrange(0, old(self)@.staged_to) + final(tail)@,
                ..old(self)@
            }),
    {
        let (_, tail) = self.io_buffer.as_mut_slice().split_at_mut(self.io_buffer_writer_pos);
        tail
    }

    /// Takes note that the source has put `count` bytes into the front of
    /// [`fill_target`](Self::fill_target). If nothing is staged after that,
    /// the stream is at its end and the request is finished with what it
    /// has; otherwise the window is made ready and the engine is due.
    pub fn filled(&mut self, count: usize, written: usize) -> (action: Action)
        requires
            old(self)@.wf(),
            count <= IO_BUFFER_LEN - old(self)@.staged_to,
        ensures
            (final(self)@, action) == old(self)@.filled(count as int, written),
            final(self)@.wf(),
    {
        self.io_buffer_writer_pos += count;
        if self.io_buffer_reader_pos == self.io_buffer_writer_pos {
            return Action::Finish { written };
        }
        self.settle();
        Action::Decode { written }
    }

    /// Lends the engine what one run needs: the whole window to decode
    /// into, the position in it to decode at, and the staged compressed
    /// bytes as input. Nothing but the window's contents can change through
    /// the loan.
    pub fn engine_io(&mut self) -> (io: (&mut [u8], usize, &[u8]))
        requires
            old(self)@.wf(),
        ensures
            io.0@ == old(self)@.window,
            io.1 == old(self)@.writer_pos,
            io.2@ == old(self)@.staged(),
            final(self)@ == (Session { window: final(io.0)@, ..old(self)@ }),
    {
        let input = vstd::slice::slice_subrange(
            self.io_buffer.as_slice(),
            self.io_buffer_reader_pos,
            self.io_buffer_writer_pos,
        );
        (self.decode_buffer.as_mut_slice(), self.decode_buffer_writer_pos, input)
    }

    /// Whether `outcome` fits this session, as [`decoded`](Self::decoded)
    /// demands of what it is given.
    pub fn admits(&self, outcome: &DecodeOutcome) -> (fits: bool)
        requires
            self@.wf(),
        ensures
            fits == self@.admits(*outcome),
    {
        !outcome.ok || (outcome.decoded <= DECODE_BUFFER_LEN - self.decode_buffer_writer_pos
            && outcome.consumed <= self.io_buffer_writer_pos - self.io_buffer_reader_pos)
    }

    /// Takes note of one engine run, for a destination of which `written`
    /// bytes are filled.
    ///
    /// A failed run aborts the request and changes nothing. Otherwise the
    /// input the engine used is dropped from the staged bytes. Decoded
    /// bytes go to `dest` as far as it has room, and the rest stay
    /// undelivered. A run without output ends the request if the engine
    /// sees no further quantum; if it does, the staged bytes move to the
    /// front of their buffer to make room for more. The window slides when
    /// it is due and may.
    pub fn decoded(&mut self, outcome: DecodeOutcome, dest: &mut [u8], written: usize) -> (action:
        Action)
        requires
            old(self)@.wf(),
            old(self)@.admits(outcome),
            written <= old(dest)@.len(),
        ensures
            (final(self)@, action) == old(self)@.decoded(
                outcome,
                old(dest)@.len() as int,
                written,
            ),
            final(dest)@ == placed(
                old(dest)@,
                written as int,
                old(self)@.decoded_bytes(outcome, old(dest)@.len() - written),
            ),
            final(self)@.wf(),
    {
        let room: usize = dest.len();
        if !outcome.ok {
            assert(dest@ =~= placed(dest@, written as int, Seq::empty()));
            return Action::Abort;
        }
        self.io_buffer_reader_pos += outcome.consumed;
        let mut total: usize = written;
        if outcome.decoded > 0 {
            let count: usize = if outcome.decoded <= room - written {
                outcome.decoded
            } else {
                room - written
            };
            copy_into(
                dest,
                written,
                self.decode_buffer.as_slice(),
                self.decode_buffer_writer_pos,
                count,
            );
            self.decode_buffer_writer_pos += outcome.decoded;
            self.decode_buffer_reader_pos = outcome.decoded - count;
            total = written + count;
        } else {
            assert(dest@ =~= placed(dest@, written as int, Seq::empty()));
            if outcome.quantum_len == 0 {
                return Action::Finish { written };
            }
            self.repack_staging();
        }
        self.settle();
        if total < room {
            Action::Refill { written: total }
        } else {
            Action::Finish { written: total }
        }
    }

    /// Moves the last `DICTIONARY_LEN` decoded bytes to the start of the
    /// window and puts the writer right behind them. Every byte that a
    /// back-reference may reach, and every undelivered byte, is found at
    /// the same distance before the writer as it was.
    pub fn slide_window(&mut self)
        requires
            old(self)@.wf(),
            old(self)@.writer_pos >= DICTIONARY_LEN,
            old(self)@.pending <= DICTIONARY_LEN,
        ensures
            final(self)@ == old(self)@.slid(),
            final(self)@.wf(),
            final(self)@.history(DICTIONARY_LEN as int) == old(self)@.history(
                DICTIONARY_LEN as int,
            ),
            final(self)@.undelivered() == old(self)@.undelivered(),
    {
        let from: usize = self.decode_buffer_writer_pos - DICTIONARY_LEN;
        move_to_front(self.decode_buffer.as_mut_slice(), from, DICTIONARY_LEN);
        self.decode_buffer_writer_pos = DICTIONARY_LEN;
        proof {
            assert(self@.history(DICTIONARY_LEN as int) =~= old(self)@.history(
                DICTIONARY_LEN as int,
            ));
            assert(self@.undelivered() =~= old(self)@.undelivered());
        }
    }

    /// Slides the window if it is due and may.
    fn settle(&mut self)
        requires
            old(self)@.wf(),
        ensures
            final(self)@ == old(self)@.settled(),
            final(self)@.wf(),
    {
        if self.decode_buffer_writer_pos > DECODE_BUFFER_LEN - BLOCK_LEN
            && self.decode_buffer_reader_pos <= DICTIONARY_LEN {
            self.slide_window();
        }
    }

    /// Moves the staged bytes to the start of the staging buffer.
    fn repack_staging(&mut self)
        requires
            old(self)@.wf(),
        ensures
            final(self)@ == old(self)@.repacked(),
            final(self)@.wf(),
    {
        let remaining: usize = self.io_buffer_writer_pos - self.io_buffer_reader_pos;
        move_to_front(self.io_buffer.as_mut_slice(), self.io_buffer_reader_pos, remaining);
        self.io_buffer_reader_pos = 0;
        self.io_buffer_writer_pos = remaining;
    }

    /// The total decoded length the stream was declared with.
    pub fn uncompressed_size(&self) -> (size: u32)
        ensures
            size == self@.uncompressed_size,
    {
        self.uncompressed_size
    }

    /// The number of decoded bytes that wait for a request.
    pub fn pending(&self) -> (count: usize)
        ensures
            count == self@.pending,
    {
        self.decode_buffer_reader_pos
    }
}

} // verus!
