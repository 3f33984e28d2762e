//! A session over time: whatever happens to it, no byte is lost, doubled
//! or moved out of order, on the way in or on the way out.

use crate::laws::{lemma_decoded_keeps_staged, lemma_decoded_splits_output};
use crate::oodle::{DecodeOutcome, Session, DECODE_BUFFER_LEN, IO_BUFFER_LEN};
use vstd::prelude::*;

verus! {

/// One thing that happens to a session.
pub enum Event {
    /// A request for `room` bytes is opened
    /// ([`begin`](crate::oodle::OodleDecoder::begin)).
    Begin { room: int },
    /// The source has left `tail` in the free part of the staging buffer
    /// and reports `count` bytes
    /// ([`fill_target`](crate::oodle::OodleDecoder::fill_target), then
    /// [`filled`](crate::oodle::OodleDecoder::filled)).
    Filled { tail: Seq<u8>, count: int, written: usize },
    /// The engine has run and left `window` behind, for a request of `room`
    /// bytes of which `written` are served
    /// ([`engine_io`](crate::oodle::OodleDecoder::engine_io), then
    /// [`decoded`](crate::oodle::OodleDecoder::decoded)).
    Decoded { window: Seq<u8>, outcome: DecodeOutcome, room: int, written: usize },
}

impl Session {
    /// The session as the borrower of the staging buffer's tail left it.
    pub open spec fn with_tail(self, tail: Seq<u8>) -> Session {
        Session { staging: self.staging.subrange(0, self.staged_to) + tail, ..self }
    }

    /// The session as the borrower of the window left it.
    pub open spec fn with_window(self, window: Seq<u8>) -> Session {
        Session { window, ..self }
    }

    /// Whether `event` can happen to this session: what it reports fits the
    /// buffers, and the engine runs only when nothing is undelivered, as
    /// it does when it runs on a [`Decode`](crate::oodle::Action::Decode)
    /// action.
    pub open spec fn accepts(self, event: Event) -> bool {
        match event {
            Event::Begin { room } => 0 <= room,
            Event::Filled { tail, count, written } => {
                &&& tail.len() == IO_BUFFER_LEN - self.staged_to
                &&& 0 <= count <= tail.len()
            },
            Event::Decoded { window, outcome, room, written } => {
                &&& window.len() == DECODE_BUFFER_LEN
                &&& self.pending == 0
                &&& self.admits(outcome)
                &&& written <= room
            },
        }
    }

    /// The session after `event`.
    pub open spec fn after(self, event: Event) -> Session {
        match event {
            Event::Begin { room } => self.begin(room).0,
            Event::Filled { tail, count, written } => self.with_tail(tail).filled(count, written).0,
            Event::Decoded { window, outcome, room, written } => self.with_window(window).decoded(
                outcome,
                room,
                written,
            ).0,
        }
    }

    /// The decoded bytes that `event` hands to the consumer.
    pub open spec fn received(self, event: Event) -> Seq<u8> {
        match event {
            Event::Begin { room } => self.begin_bytes(room),
            Event::Filled { tail, count, written } => Seq::empty(),
            Event::Decoded { window, outcome, room, written } => self.with_window(
                window,
            ).decoded_bytes(outcome, room - written),
        }
    }

    /// The decoded bytes that the engine adds in `event`.
    pub open spec fn produced(self, event: Event) -> Seq<u8> {
        match event {
            Event::Decoded { window, outcome, room, written } if outcome.ok => window.subrange(
                self.writer_pos,
                self.writer_pos + outcome.decoded,
            ),
            _ => Seq::empty(),
        }
    }

    /// The compressed bytes that the source adds in `event`.
    pub open spec fn supplied(self, event: Event) -> Seq<u8> {
        match event {
            Event::Filled { tail, count, written } => tail.subrange(0, count),
            _ => Seq::empty(),
        }
    }

    /// The compressed bytes that the engine uses up in `event`.
    pub open spec fn consumed(self, event: Event) -> Seq<u8> {
        match event {
            Event::Decoded { window, outcome, room, written } if outcome.ok => self.staged().subrange(
                0,
                outcome.consumed as int,
            ),
            _ => Seq::empty(),
        }
    }

    /// Whether the events of `trace` can happen to this session one after
    /// the other.
    pub open spec fn accepts_all(self, trace: Seq<Event>) -> bool
        decreases trace.len(),
    {
        trace.len() == 0 || (self.accepts(trace[0]) && self.after(trace[0]).accepts_all(
            trace.skip(1),
        ))
    }

    /// The session after all events of `trace`.
    pub open spec fn after_all(self, trace: Seq<Event>) -> Session
        decreases trace.len(),
    {
        if trace.len() == 0 {
            self
        } else {
            self.after(trace[0]).after_all(trace.skip(1))
        }
    }

    /// All decoded bytes that the consumer receives in `trace`, in order.
    pub open spec fn received_in(self, trace: Seq<Event>) -> Seq<u8>
        decreases trace.len(),
    {
        if trace.len() == 0 {
            Seq::empty()
        } else {
            self.received(trace[0]) + self.after(trace[0]).received_in(trace.skip(1))
        }
    }

    /// All decoded bytes that the engine adds in `trace`, in order.
    pub open spec fn produced_in(self, trace: Seq<Event>) -> Seq<u8>
        decreases trace.len(),
    {
        if trace.len() == 0 {
            Seq::empty()
        } else {
            self.produced(trace[0]) + self.after(trace[0]).produced_in(trace.skip(1))
        }
    }

    /// All compressed bytes that the source adds in `trace`, in order.
    pub open spec fn supplied_in(self, trace: Seq<Event>) -> Seq<u8>
        decreases trace.len(),
    {
        if trace.len() == 0 {
            Seq::empty()
        } else {
            self.supplied(trace[0]) + self.after(trace[0]).supplied_in(trace.skip(1))
        }
    }

    /// All compressed bytes that the engine uses up in `trace`, in order.
    pub open spec fn consumed_in(self, trace: Seq<Event>) -> Seq<u8>
        decreases trace.len(),
    {
        if trace.len() == 0 {
            Seq::empty()
        } else {
            self.consumed(trace[0]) + self.after(trace[0]).consumed_in(trace.skip(1))
        }
    }
}

/// One event keeps the session well-formed and both streams whole: what
/// was undelivered and what the engine adds is what the consumer receives
/// and what stays undelivered; what was staged and what the source adds is
/// what the engine uses up and what stays staged.
pub proof fn lemma_event_keeps_streams(s: Session, event: Event)
    requires
        s.wf(),
        s.accepts(event),
    ensures
        s.after(event).wf(),
        s.undelivered() + s.produced(event) == s.received(event) + s.after(event).undelivered(),
        s.staged() + s.supplied(event) == s.consumed(event) + s.after(event).staged(),
{
    let next = s.after(event);
    match event {
        Event::Begin { room } => {
            assert(s.undelivered() + s.produced(event) =~= s.received(event) + next.undelivered());
            assert(s.staged() + s.supplied(event) =~= s.consumed(event) + next.staged());
        },
        Event::Filled { tail, count, written } => {
            assert(next.undelivered() =~= s.undelivered());
            assert(s.undelivered() + s.produced(event) =~= s.received(event) + next.undelivered());
            assert(s.staged() + s.supplied(event) =~= s.consumed(event) + next.staged());
        },
        Event::Decoded { window, outcome, room, written } => {
            let lent = s.with_window(window);
            assert(s.undelivered() =~= Seq::<u8>::empty());
            assert(lent.staged() == s.staged());
            if outcome.ok {
                lemma_decoded_keeps_staged(lent, outcome, room, written);
                assert(s.staged() + s.supplied(event) =~= s.consumed(event) + next.staged());
                if outcome.decoded > 0 {
                    lemma_decoded_splits_output(lent, outcome, room, written);
                } else {
                    assert(next.undelivered() =~= Seq::<u8>::empty());
                    assert(s.produced(event) =~= Seq::<u8>::empty());
                    assert(s.received(event) =~= Seq::<u8>::empty());
                }
                assert(s.undelivered() + s.produced(event) =~= s.received(event)
                    + next.undelivered());
            } else {
                assert(next.undelivered() =~= Seq::<u8>::empty());
                assert(s.undelivered() + s.produced(event) =~= s.received(event)
                    + next.undelivered());
                assert(s.staged() + s.supplied(event) =~= s.consumed(event) + next.staged());
            }
        },
    }
}

/// Whatever happens to a session, in whatever order and however the
/// consumer cuts its requests: the bytes the consumer has received,
/// followed by the bytes still undelivered, are the bytes that were
/// undelivered at the start followed by all that the engine has produced,
/// byte for byte. Likewise the bytes the engine has used up, followed by
/// the bytes still staged, are the bytes that were staged at the start
/// followed by all that the source has supplied.
pub proof fn theorem_streams_are_kept_whole(s: Session, trace: Seq<Event>)
    requires
        s.wf(),
        s.accepts_all(trace),
    ensures
        s.after_all(trace).wf(),
        s.undelivered() + s.produced_in(trace) == s.received_in(trace) + s.after_all(
            trace,
        ).undelivered(),
        s.staged() + s.supplied_in(trace) == s.consumed_in(trace) + s.after_all(trace).staged(),
    decreases trace.len(),
{
    if trace.len() == 0 {
        assert(s.undelivered() + s.produced_in(trace) =~= s.received_in(trace) + s.undelivered());
        assert(s.staged() + s.supplied_in(trace) =~= s.consumed_in(trace) + s.staged());
    } else {
        let next = s.after(trace[0]);
        let rest = trace.skip(1);
        let end = s.after_all(trace);
        lemma_event_keeps_streams(s, trace[0]);
        theorem_streams_are_kept_whole(next, rest);
        assert(s.undelivered() + s.produced_in(trace) =~= (s.undelivered() + s.produced(trace[0]))
            + next.produced_in(rest));
        assert(s.received_in(trace) + end.undelivered() =~= s.received(trace[0]) + (
        next.received_in(rest) + end.undelivered()));
        assert((s.received(trace[0]) + next.undelivered()) + next.produced_in(rest) =~= s.received(
            trace[0],
        ) + (next.undelivered() + next.produced_in(rest)));
        assert(s.staged() + s.supplied_in(trace) =~= (s.staged() + s.supplied(trace[0]))
            + next.supplied_in(rest));
        assert(s.consumed_in(trace) + end.staged() =~= s.consumed(trace[0]) + (next.consumed_in(
            rest,
        ) + end.staged()));
        assert((s.consumed(trace[0]) + next.staged()) + next.supplied_in(rest) =~= s.consumed(
            trace[0],
        ) + (next.staged() + next.supplied_in(rest)));
    }
}

} // verus!
