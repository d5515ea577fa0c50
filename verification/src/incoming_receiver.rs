//! The inbound reader: it turns each message decoded from the peer's byte
//! stream into one event for the subscribers, in the order of the stream,
//! and stops at the first failure.

use crate::error::DecodeFailure;
use crate::handle::FromConnectionHandle;
use crate::message::RawNetworkMessage;
use vstd::prelude::*;

verus! {

/// What one attempt to decode the next frame of the peer's byte stream gave.
pub type Decoded = Result<RawNetworkMessage, DecodeFailure>;

/// The event that a decoded frame becomes: its message, without the magic
/// number.
pub open spec fn event_of(message: RawNetworkMessage) -> FromConnectionHandle {
    FromConnectionHandle::FromBitcoinNode(message.payload)
}

/// The events that a reader publishes, from its start, when the attempts to
/// decode give `reads` in this order and the event stream keeps taking
/// events: one event for each frame before the first failure, and none
/// after it.
pub open spec fn published_events(reads: Seq<Decoded>) -> Seq<FromConnectionHandle>
    decreases reads.len(),
{
    if reads.len() == 0 {
        Seq::empty()
    } else {
        match reads[0] {
            Ok(message) => seq![event_of(message)] + published_events(
                reads.subrange(1, reads.len() as int),
            ),
            Err(_) => Seq::empty(),
        }
    }
}

/// The reader of one connection. It runs until a frame fails to decode or
/// the event stream has no subscriber left, and then stays stopped.
#[derive(Debug)]
pub struct IncomingReceiver {
    stopped: bool,
}

impl IncomingReceiver {
    /// Whether the reader has stopped.
    pub closed spec fn spec_is_stopped(&self) -> bool {
        self.stopped
    }

    /// A running reader.
    pub fn new() -> (reader: IncomingReceiver)
        ensures
            !reader.is_stopped(),
    {
        IncomingReceiver { stopped: false }
    }

    /// Whether the reader has stopped.
    #[verifier::when_used_as_spec(spec_is_stopped)]
    pub fn is_stopped(&self) -> (stopped: bool)
        ensures
            stopped == self.spec_is_stopped(),
    {
        self.stopped
    }

    /// Runs the reader over what the attempts to decode gave, in their
    /// order, and hands back the events to publish, in the order in which
    /// to publish them. A running reader publishes one event for each frame
    /// before the first failure; the failure stops it. A stopped reader
    /// publishes nothing.
    pub fn broadcast_from_node(
        &mut self,
        reads: Vec<Decoded>,
    ) -> (events: Vec<FromConnectionHandle>)
        ensures
            final(self).is_stopped() == (old(self).is_stopped() || exists|i: int|
                0 <= i < reads.len() && #[trigger] reads[i] is Err),
            events@ == if old(self).is_stopped() {
                Seq::<FromConnectionHandle>::empty()
            } else {
                published_events(reads@)
            },
    {
        let mut events: Vec<FromConnectionHandle> = Vec::new();
        let ghost all = reads@;
        assert(all.subrange(0, all.len() as int) == all);
        assert(events@ + published_events(all) == published_events(all));
        for read in iter: reads.into_iter()
            invariant
                iter.seq() == all,
                self.is_stopped() == (old(self).is_stopped() || exists|i: int|
                    0 <= i < iter.index() && #[trigger] all[i] is Err),
                old(self).is_stopped() ==> events@.len() == 0,
                !old(self).is_stopped() && self.is_stopped() ==> events@ == published_events(all),
                !self.is_stopped() ==> events@ + published_events(
                    all.subrange(iter.index() as int, all.len() as int),
                ) == published_events(all),
        {
            let ghost rest = all.subrange(iter.index() as int, all.len() as int);
            assert(rest[0] == read);
            assert(rest.subrange(1, rest.len() as int) == all.subrange(
                iter.index() + 1,
                all.len() as int,
            ));
            let ghost before = events@;
            match self.next_event(read) {
                Some(event) => {
                    events.push(event);
                    assert(events@ == before + seq![event]);
                },
                None => {},
            }
        }
        assert(all.subrange(all.len() as int, all.len() as int) == Seq::<Decoded>::empty());
        events
    }

    /// Takes what one attempt to decode gave and says which event to
    /// publish, if any. A running reader publishes the event of a decoded
    /// frame; a failure stops it. A stopped reader publishes nothing.
    pub fn next_event(&mut self, read: Decoded) -> (event: Option<FromConnectionHandle>)
        ensures
            final(self).is_stopped() == (old(self).is_stopped() || read is Err),
            event == if old(self).is_stopped() {
                None::<FromConnectionHandle>
            } else {
                match read {
                    Ok(message) => Some(event_of(message)),
                    Err(_) => None,
                }
            },
    {
        if self.stopped {
            return None;
        }
        match read {
            Ok(message) => Some(FromConnectionHandle::FromBitcoinNode(message.payload)),
            Err(_) => {
                self.stopped = true;
                None
            },
        }
    }

    /// Takes note of whether the event stream took the last event. When it
    /// did not, no subscriber is left and the reader stops.
    pub fn published(&mut self, accepted: bool)
        ensures
            final(self).is_stopped() == (old(self).is_stopped() || !accepted),
    {
        if !accepted {
            self.stopped = true;
        }
    }
}

/// The reads of a stream of which every frame decodes.
pub open spec fn all_decoded(frames: Seq<RawNetworkMessage>) -> Seq<Decoded> {
    frames.map_values(|frame: RawNetworkMessage| Ok::<RawNetworkMessage, DecodeFailure>(frame))
}

/// The events of frames, one for each, in their order.
pub open spec fn events_of(frames: Seq<RawNetworkMessage>) -> Seq<FromConnectionHandle> {
    frames.map_values(|frame: RawNetworkMessage| event_of(frame))
}

/// Every frame becomes exactly one event, in the order of the stream: when
/// all of `frames` decode, the reader publishes as many events as there are
/// frames, and the event at each place carries the message of the frame at
/// that place. Nothing is dropped and nothing is published twice.
pub proof fn lemma_every_frame_is_published_once(frames: Seq<RawNetworkMessage>)
    ensures
        published_events(all_decoded(frames)) == events_of(frames),
        published_events(all_decoded(frames)).len() == frames.len(),
        forall|i: int|
            0 <= i < frames.len() ==> #[trigger] published_events(all_decoded(frames))[i]
                == event_of(frames[i]),
    decreases frames.len(),
{
    let reads = all_decoded(frames);
    if frames.len() == 0 {
        assert(published_events(reads) =~= events_of(frames));
    } else {
        let rest = frames.subrange(1, frames.len() as int);
        lemma_every_frame_is_published_once(rest);
        assert(reads.subrange(1, reads.len() as int) =~= all_decoded(rest));
        assert(seq![event_of(frames[0])] + events_of(rest) =~= events_of(frames));
    }
}

/// Nothing is published past a failure: when `frames` decode and the next
/// attempt fails, the reader publishes the events of `frames` and no more,
/// whatever follows the failure.
pub proof fn lemma_failure_ends_the_events(
    frames: Seq<RawNetworkMessage>,
    failure: DecodeFailure,
    later: Seq<Decoded>,
)
    ensures
        published_events(
            all_decoded(frames) + seq![Err::<RawNetworkMessage, DecodeFailure>(failure)] + later,
        ) == events_of(frames),
    decreases frames.len(),
{
    let failed = seq![Err::<RawNetworkMessage, DecodeFailure>(failure)];
    let reads = all_decoded(frames) + failed + later;
    if frames.len() == 0 {
        assert(reads[0] == failed[0]);
        assert(published_events(reads) =~= events_of(frames));
    } else {
        let rest = frames.subrange(1, frames.len() as int);
        lemma_failure_ends_the_events(rest, failure, later);
        assert(reads[0] == all_decoded(frames)[0]);
        assert(reads.subrange(1, reads.len() as int) =~= all_decoded(rest) + failed + later);
        assert(seq![event_of(frames[0])] + events_of(rest) =~= events_of(frames));
    }
}

} // verus!
