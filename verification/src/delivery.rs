//! What becomes of the messages of a session, from the data channels of the other
//! end to whoever receives them.
//!
//! Everything here is a statement about the steps of [`crate::session`]: a world in
//! which they are taken, and what holds of it.

use crate::error::NethernetError;
use crate::session::{ChannelEvent, ChannelKind, ReadStep, SessionView};
use bytes::Bytes;
use vstd::prelude::*;

verus! {

/// How messages are put together from frames: `S` is a decoded segment, `A` a
/// message under assembly.
#[verifier::reject_recursive_types(A)]
#[verifier::reject_recursive_types(S)]
pub struct Format<A, S> {
    /// What an assembly is at first.
    pub fresh: A,
    /// The segment that a frame stands for, if it stands for one.
    pub decode: spec_fn(Seq<u8>) -> Option<S>,
    /// The assembly after a segment was added, and the message that this completes.
    pub add: spec_fn(A, S) -> (A, Option<Seq<u8>>),
}

impl<A, S> Format<A, S> {
    /// An assembly, and the messages completed so far, after one more frame.
    pub open spec fn hear(self, so_far: (A, Seq<Seq<u8>>), frame: Seq<u8>) -> (A, Seq<Seq<u8>>) {
        match (self.decode)(frame) {
            None => so_far,
            Some(segment) => {
                let (assembly, message) = (self.add)(so_far.0, segment);
                match message {
                    Some(message) => (assembly, so_far.1.push(message)),
                    None => (assembly, so_far.1),
                }
            },
        }
    }

    /// An assembly, and the messages completed so far, after some more frames.
    pub open spec fn hear_all(self, so_far: (A, Seq<Seq<u8>>), frames: Seq<Seq<u8>>) -> (A, Seq<Seq<u8>>)
        decreases frames.len(),
    {
        if frames.len() == 0 {
            so_far
        } else {
            self.hear(self.hear_all(so_far, frames.drop_last()), frames.last())
        }
    }

    /// The assembly that some frames leave behind, and the messages that they
    /// complete, in order.
    pub open spec fn assembled(self, frames: Seq<Seq<u8>>) -> (A, Seq<Seq<u8>>) {
        self.hear_all((self.fresh, Seq::empty()), frames)
    }

    /// Whether a way to split messages into frames is undone by this format: the
    /// frames of a message that is not empty complete that message, and leave
    /// nothing behind.
    pub open spec fn undoes(self, split: spec_fn(Seq<u8>) -> Seq<Seq<u8>>) -> bool {
        forall|message: Seq<u8>|
            message.len() > 0 ==> self.assembled(#[trigger] split(message)) == (self.fresh, seq![message])
    }
}

/// The messages of one kind: where its reader stands, what its channel reported,
/// the message under assembly, the queue, and what was received so far.
pub struct Lane<A, S> {
    /// What the reader does next.
    pub step: ReadStep<S>,
    /// The frames that the channel reported.
    pub heard: Seq<Seq<u8>>,
    /// The message under assembly.
    pub assembly: A,
    /// The messages that wait to be received.
    pub queue: Seq<Seq<u8>>,
    /// The messages that were received.
    pub received: Seq<Seq<u8>>,
}

/// The messages of both kinds.
pub struct Inbound<A, S> {
    /// The reliable ones.
    pub reliable: Lane<A, S>,
    /// The unreliable ones.
    pub unreliable: Lane<A, S>,
}

/// What can happen to the messages of a session with a peer connection `P` and data
/// channels `C`.
pub enum Happening<P, C, S> {
    /// The channel of a kind reports.
    Report(ChannelKind, Option<ChannelEvent>),
    /// The reader of a kind decodes, with this result.
    Decode(ChannelKind, Result<S, NethernetError>),
    /// The reader of a kind adds a segment, with this result.
    Add(ChannelKind, Result<Option<Bytes>, NethernetError>),
    /// The reader of a kind delivers a message.
    Deliver(ChannelKind),
    /// A receiver of messages of a kind asks the session, as it is then.
    Receive(ChannelKind, SessionView<P, C>),
}

impl<A, S> Lane<A, S> {
    /// Nothing was reported yet.
    pub open spec fn begin(format: Format<A, S>) -> Self {
        Lane {
            step: ReadStep::Poll,
            heard: Seq::empty(),
            assembly: format.fresh,
            queue: Seq::empty(),
            received: Seq::empty(),
        }
    }

    /// Whether the reader is done with every frame that was reported.
    pub open spec fn is_idle(self) -> bool {
        self.step is Poll || self.step is Stop
    }

    /// The messages that were delivered, received or not, in order.
    pub open spec fn delivered(self) -> Seq<Seq<u8>> {
        self.received + self.queue
    }
}

impl<A, S> Inbound<A, S> {
    /// Nothing was reported yet.
    pub open spec fn begin(format: Format<A, S>) -> Self {
        Inbound { reliable: Lane::begin(format), unreliable: Lane::begin(format) }
    }

    /// The messages of a kind.
    pub open spec fn lane(self, kind: ChannelKind) -> Lane<A, S> {
        match kind {
            ChannelKind::Reliable => self.reliable,
            ChannelKind::Unreliable => self.unreliable,
        }
    }

    /// The same, with other messages of a kind.
    pub open spec fn with(self, kind: ChannelKind, lane: Lane<A, S>) -> Self {
        match kind {
            ChannelKind::Reliable => Inbound { reliable: lane, ..self },
            ChannelKind::Unreliable => Inbound { unreliable: lane, ..self },
        }
    }

    /// The same, with the reader of a kind at another step.
    pub open spec fn at_step(self, kind: ChannelKind, step: ReadStep<S>) -> Self {
        self.with(kind, Lane { step, ..self.lane(kind) })
    }

    /// Whether `next` follows once something happened. What a step names is where it
    /// is performed: a segment is added to the assembly that the step names, a
    /// message is put into the queue that it names if there is room, and it is
    /// received from the queue that the session names.
    pub open spec fn follows<P, C>(self, format: Format<A, S>, happening: Happening<P, C, S>, next: Self) -> bool {
        match happening {
            Happening::Report(kind, event) => {
                let lane = self.lane(kind);
                let heard = match event {
                    Some(ChannelEvent::Message(data)) => lane.heard.push(crate::buffer::bytes_mut_contents(data)),
                    _ => lane.heard,
                };
                &&& lane.step is Poll
                &&& next == self.with(kind, Lane { heard, ..lane }).at_step(kind, next.lane(kind).step)
                &&& next.lane(kind).step.follows_report(event)
            },
            Happening::Decode(kind, result) => {
                &&& self.lane(kind).step matches ReadStep::Decode(data) && (format.decode)(
                    crate::buffer::bytes_contents(data),
                ) == match result {
                    Ok(segment) => Some(segment),
                    Err(_) => None,
                }
                &&& next == self.at_step(kind, next.lane(kind).step)
                &&& next.lane(kind).step.follows_decoding(kind, result)
            },
            Happening::Add(kind, result) => {
                &&& self.lane(kind).step matches ReadStep::Add(to, segment) && {
                    let (assembly, message) = (format.add)(self.lane(to).assembly, segment);
                    &&& message == match result {
                        Ok(Some(message)) => Some(crate::buffer::bytes_contents(message)),
                        _ => None,
                    }
                    &&& next == self.with(to, Lane { assembly, ..self.lane(to) }).at_step(kind, next.lane(kind).step)
                }
                &&& next.lane(kind).step.follows_adding(kind, result)
            },
            Happening::Deliver(kind) => {
                &&& self.lane(kind).step matches ReadStep::Deliver(to, message) && {
                    let queue = self.lane(to).queue;
                    &&& queue.len() < crate::session::PACKET_QUEUE_CAPACITY
                    &&& next == self.with(
                        to,
                        Lane { queue: queue.push(crate::buffer::bytes_contents(message)), ..self.lane(to) },
                    ).at_step(kind, next.lane(kind).step)
                }
                &&& next.lane(kind).step.follows_delivery()
            },
            Happening::Receive(kind, session) => match session.receive(kind) {
                crate::session::Receive::Finished => next == self,
                crate::session::Receive::Await(from) => {
                    let queue = self.lane(from).queue;
                    let emptier = self.with(from, Lane { queue: queue.drop_first(), ..self.lane(from) });
                    let lane = emptier.lane(kind);
                    &&& queue.len() > 0
                    &&& next == emptier.with(kind, Lane { received: lane.received.push(queue.first()), ..lane })
                },
            },
        }
    }
}

/// A course of what happens to the messages of a session.
#[verifier::reject_recursive_types(A)]
#[verifier::reject_recursive_types(S)]
pub struct InboundCourse<P, C, A, S> {
    /// How the messages are put together.
    pub format: Format<A, S>,
    /// How things stand, once more than something happens.
    pub states: Seq<Inbound<A, S>>,
    /// What happens in between.
    pub happenings: Seq<Happening<P, C, S>>,
}

impl<P, C, A, S> InboundCourse<P, C, A, S> {
    /// Whether things follow one another, from the beginning of a session.
    pub open spec fn valid(self) -> bool {
        &&& self.states.len() == self.happenings.len() + 1
        &&& self.states[0] == Inbound::begin(self.format)
        &&& forall|i: int|
            0 <= i < self.happenings.len() ==> (#[trigger] self.states[i]).follows(
                self.format,
                self.happenings[i],
                self.states[i + 1],
            )
    }

    /// The course up to what happened before the last.
    pub open spec fn shorter(self) -> Self {
        InboundCourse { states: self.states.drop_last(), happenings: self.happenings.drop_last(), ..self }
    }
}

impl<A, S> Lane<A, S> {
    /// Whether the messages of a kind are those that its own frames complete, up to
    /// the frame that its reader is at.
    spec fn accounts(self, kind: ChannelKind, format: Format<A, S>) -> bool {
        match self.step {
            ReadStep::Poll => format.assembled(self.heard) == (self.assembly, self.delivered()),
            ReadStep::Stop => format.assembled(self.heard) == (self.assembly, self.delivered()),
            ReadStep::Decode(data) => {
                &&& self.heard.len() > 0
                &&& self.heard.last() == crate::buffer::bytes_contents(data)
                &&& format.assembled(self.heard.drop_last()) == (self.assembly, self.delivered())
            },
            ReadStep::Add(to, segment) => {
                &&& to == kind
                &&& self.heard.len() > 0
                &&& (format.decode)(self.heard.last()) == Some(segment)
                &&& format.assembled(self.heard.drop_last()) == (self.assembly, self.delivered())
            },
            ReadStep::Deliver(to, message) => {
                &&& to == kind
                &&& format.assembled(self.heard) == (
                    self.assembly,
                    self.delivered().push(crate::buffer::bytes_contents(message)),
                )
            },
        }
    }
}

proof fn lemma_accounts_step<P, C, A, S>(
    format: Format<A, S>,
    state: Inbound<A, S>,
    happening: Happening<P, C, S>,
    next: Inbound<A, S>,
    kind: ChannelKind,
)
    requires
        state.follows(format, happening, next),
        state.reliable.accounts(ChannelKind::Reliable, format),
        state.unreliable.accounts(ChannelKind::Unreliable, format),
    ensures
        next.lane(kind).accounts(kind, format),
{
    let lane = state.lane(kind);
    let after = next.lane(kind);
    match happening {
        Happening::Report(at, event) => {
            if at == kind {
                if let Some(ChannelEvent::Message(data)) = event {
                    assert(after.heard.drop_last() =~= lane.heard);
                }
                assert(after.delivered() == lane.delivered());
            }
        },
        Happening::Decode(at, result) => {
            if at == kind {
                assert(after.delivered() == lane.delivered());
            }
        },
        Happening::Add(at, result) => {
            if at == kind {
                assert(after.delivered() == lane.delivered());
                assert(format.assembled(lane.heard) == format.hear(
                    format.assembled(lane.heard.drop_last()),
                    lane.heard.last(),
                ));
            }
        },
        Happening::Deliver(at) => {
            if at == kind {
                let message = crate::buffer::bytes_contents(lane.step->Deliver_1);
                assert(after.delivered() =~= lane.delivered().push(message));
            }
        },
        Happening::Receive(at, session) => {
            if at == kind && !session.closed {
                assert(after.delivered() =~= lane.delivered());
            }
        },
    }
}

proof fn lemma_accounts<P, C, A, S>(course: InboundCourse<P, C, A, S>)
    requires
        course.valid(),
    ensures
        course.states.last().reliable.accounts(ChannelKind::Reliable, course.format),
        course.states.last().unreliable.accounts(ChannelKind::Unreliable, course.format),
    decreases course.happenings.len(),
{
    let format = course.format;
    if course.happenings.len() == 0 {
        assert(Lane::<A, S>::begin(format).delivered() =~= Seq::empty());
    } else {
        let shorter = course.shorter();
        let n = course.happenings.len() - 1;
        assert forall|i: int| 0 <= i < shorter.happenings.len() implies (#[trigger] shorter.states[i]).follows(
            shorter.format,
            shorter.happenings[i],
            shorter.states[i + 1],
        ) by {
            assert(course.states[i].follows(course.format, course.happenings[i], course.states[i + 1]));
        }
        lemma_accounts(shorter);
        assert(course.states[n].follows(format, course.happenings[n], course.states[n + 1]));
        lemma_accounts_step(format, course.states[n], course.happenings[n], course.states[n + 1], ChannelKind::Reliable);
        lemma_accounts_step(
            format,
            course.states[n],
            course.happenings[n],
            course.states[n + 1],
            ChannelKind::Unreliable,
        );
    }
}

proof fn lemma_hear_all_grows<A, S>(format: Format<A, S>, so_far: (A, Seq<Seq<u8>>), frames: Seq<Seq<u8>>)
    ensures
        so_far.1.is_prefix_of(format.hear_all(so_far, frames).1),
    decreases frames.len(),
{
    if frames.len() > 0 {
        lemma_hear_all_grows(format, so_far, frames.drop_last());
    }
}

proof fn lemma_hear_all_joins<A, S>(
    format: Format<A, S>,
    so_far: (A, Seq<Seq<u8>>),
    first: Seq<Seq<u8>>,
    second: Seq<Seq<u8>>,
)
    ensures
        format.hear_all(so_far, first + second) == format.hear_all(format.hear_all(so_far, first), second),
    decreases second.len(),
{
    if second.len() == 0 {
        assert(first + second =~= first);
    } else {
        assert((first + second).drop_last() =~= first + second.drop_last());
        lemma_hear_all_joins(format, so_far, first, second.drop_last());
    }
}

/// What was completed before has no part in what is completed later.
proof fn lemma_hear_all_shifts<A, S>(
    format: Format<A, S>,
    assembly: A,
    before: Seq<Seq<u8>>,
    frames: Seq<Seq<u8>>,
)
    ensures
        ({
            let alone = format.hear_all((assembly, Seq::empty()), frames);
            format.hear_all((assembly, before), frames) == (alone.0, before + alone.1)
        }),
    decreases frames.len(),
{
    if frames.len() == 0 {
        assert(before + Seq::<Seq<u8>>::empty() =~= before);
    } else {
        lemma_hear_all_shifts(format, assembly, before, frames.drop_last());
        let alone = format.hear_all((assembly, Seq::empty()), frames.drop_last());
        let together = format.hear_all((assembly, Seq::empty()), frames);
        if together.1 != alone.1 {
            assert(before + together.1 =~= (before + alone.1).push(together.1.last()));
        }
    }
}

/// Every message that the frames of a kind complete is delivered once, in order, and
/// nothing else is: what was received, followed by what waits in the queue, is what
/// the frames reported so far complete, as soon as the reader is done with them, and
/// a beginning of it until then.
pub proof fn law_every_message_is_delivered_once<P, C, A, S>(course: InboundCourse<P, C, A, S>, kind: ChannelKind)
    requires
        course.valid(),
    ensures
        ({
            let lane = course.states.last().lane(kind);
            let (assembly, messages) = course.format.assembled(lane.heard);
            &&& lane.is_idle() ==> lane.delivered() == messages && lane.assembly == assembly
            &&& lane.delivered().is_prefix_of(messages)
            &&& lane.received.is_prefix_of(messages)
        }),
{
    lemma_accounts(course);
    let lane = course.states.last().lane(kind);
    if lane.step is Decode || lane.step is Add {
        lemma_hear_all_grows(
            course.format,
            course.format.assembled(lane.heard.drop_last()),
            seq![lane.heard.last()],
        );
        lemma_hear_all_joins(
            course.format,
            (course.format.fresh, Seq::empty()),
            lane.heard.drop_last(),
            seq![lane.heard.last()],
        );
        assert(lane.heard.drop_last() + seq![lane.heard.last()] =~= lane.heard);
    }
    let messages = course.format.assembled(lane.heard).1;
    assert(lane.received =~= lane.delivered().take(lane.received.len() as int));
    assert(lane.delivered() =~= messages.take(lane.delivered().len() as int));
    assert(lane.received =~= messages.take(lane.received.len() as int));
}

/// Messages of the two kinds never mix: in any two sessions whose channels of a kind
/// reported the same frames, and whose readers of that kind are done with them, the
/// messages delivered of that kind and the message under assembly are the same,
/// whatever came over the channels of the other kind, and in whatever order.
pub proof fn law_kinds_never_mix<P, C, A, S>(
    one: InboundCourse<P, C, A, S>,
    other: InboundCourse<P, C, A, S>,
    kind: ChannelKind,
)
    requires
        one.valid(),
        other.valid(),
        one.format == other.format,
        one.states.last().lane(kind).is_idle(),
        other.states.last().lane(kind).is_idle(),
        one.states.last().lane(kind).heard == other.states.last().lane(kind).heard,
    ensures
        one.states.last().lane(kind).delivered() == other.states.last().lane(kind).delivered(),
        one.states.last().lane(kind).assembly == other.states.last().lane(kind).assembly,
{
    law_every_message_is_delivered_once(one, kind);
    law_every_message_is_delivered_once(other, kind);
}

/// The frames that went out over a channel, of some messages one after the other.
pub open spec fn frames_sent(transmissions: Seq<crate::session::TransmissionView>) -> Seq<Seq<u8>>
    decreases transmissions.len(),
{
    if transmissions.len() == 0 {
        Seq::empty()
    } else {
        let last = transmissions.last();
        frames_sent(transmissions.drop_last()) + last.frames.take(last.sent as int)
    }
}

/// Whether some messages were sent whole: each was split into the frames of its
/// transmission, and all of these went out.
pub open spec fn sent_whole(
    split: spec_fn(Seq<u8>) -> Seq<Seq<u8>>,
    messages: Seq<Seq<u8>>,
    transmissions: Seq<crate::session::TransmissionView>,
) -> bool {
    &&& messages.len() == transmissions.len()
    &&& forall|i: int|
        0 <= i < messages.len() ==> (#[trigger] messages[i]).len() > 0 && transmissions[i].frames == split(messages[i])
            && transmissions[i].sent == transmissions[i].frames.len()
}

proof fn lemma_sent_messages_are_assembled<A, S>(
    format: Format<A, S>,
    split: spec_fn(Seq<u8>) -> Seq<Seq<u8>>,
    messages: Seq<Seq<u8>>,
    transmissions: Seq<crate::session::TransmissionView>,
)
    requires
        format.undoes(split),
        sent_whole(split, messages, transmissions),
    ensures
        format.assembled(frames_sent(transmissions)) == (format.fresh, messages),
    decreases messages.len(),
{
    if messages.len() == 0 {
        assert(messages =~= Seq::empty());
    } else {
        let n = messages.len() - 1;
        let front = messages.drop_last();
        let last = messages[n];
        let transmission = transmissions[n];
        assert forall|i: int| 0 <= i < front.len() implies (#[trigger] front[i]).len() > 0
            && transmissions.drop_last()[i].frames == split(front[i]) && transmissions.drop_last()[i].sent
            == transmissions.drop_last()[i].frames.len() by {
            assert(front[i] == messages[i]);
        }
        lemma_sent_messages_are_assembled(format, split, front, transmissions.drop_last());
        assert(last.len() > 0);
        assert(transmission.frames.take(transmission.sent as int) =~= split(last));
        lemma_hear_all_joins(
            format,
            (format.fresh, Seq::empty()),
            frames_sent(transmissions.drop_last()),
            split(last),
        );
        lemma_hear_all_shifts(format, format.fresh, front, split(last));
        assert(format.assembled(split(last)) == (format.fresh, seq![last]));
        assert(front + seq![last] =~= messages);
    }
}

/// Messages arrive whole and in order. Where a channel hands on what was sent over
/// it, and the format undoes the way in which messages are split, the receiver gets
/// the messages that were sent, byte for byte, in order, none left out and none
/// twice: what was received is a beginning of them, and once the reader is done,
/// what was received and what waits in the queue are all of them.
pub proof fn law_messages_arrive_whole_and_in_order<P, C, A, S>(
    course: InboundCourse<P, C, A, S>,
    kind: ChannelKind,
    split: spec_fn(Seq<u8>) -> Seq<Seq<u8>>,
    messages: Seq<Seq<u8>>,
    transmissions: Seq<crate::session::TransmissionView>,
)
    requires
        course.valid(),
        course.format.undoes(split),
        sent_whole(split, messages, transmissions),
        course.states.last().lane(kind).heard.is_prefix_of(frames_sent(transmissions)),
    ensures
        ({
            let lane = course.states.last().lane(kind);
            let whole = lane.heard == frames_sent(transmissions) && lane.is_idle();
            &&& lane.received.is_prefix_of(messages)
            &&& lane.received.len() == messages.len() ==> lane.received == messages
            &&& whole ==> lane.delivered() == messages
            &&& whole ==> lane.received.len() + lane.queue.len() == messages.len()
            &&& whole && lane.queue.len() == 0 ==> lane.received == messages
        }),
{
    let lane = course.states.last().lane(kind);
    let frames = frames_sent(transmissions);
    let format = course.format;
    law_every_message_is_delivered_once(course, kind);
    lemma_sent_messages_are_assembled(format, split, messages, transmissions);
    let rest = frames.skip(lane.heard.len() as int);
    assert(lane.heard =~= frames.take(lane.heard.len() as int));
    assert(lane.heard + rest =~= frames);
    lemma_hear_all_joins(format, (format.fresh, Seq::empty()), lane.heard, rest);
    lemma_hear_all_grows(format, format.assembled(lane.heard), rest);
    let completed = format.assembled(lane.heard).1;
    assert(completed =~= messages.take(completed.len() as int));
    assert(lane.received =~= completed.take(lane.received.len() as int));
    assert(lane.received =~= messages.take(lane.received.len() as int));
    if lane.received.len() == messages.len() {
        assert(lane.received =~= messages);
    }
    if lane.queue.len() == 0 {
        assert(lane.delivered() =~= lane.received);
    }
}

/// On an open session, the first receive gives the first message that was sent, the
/// second receive the second, and so on: a receive gives the message whose turn it is,
/// however many were sent and however full the queue was meanwhile.
pub proof fn law_each_receive_gives_the_next_message<P, C, A, S>(
    course: InboundCourse<P, C, A, S>,
    kind: ChannelKind,
    split: spec_fn(Seq<u8>) -> Seq<Seq<u8>>,
    messages: Seq<Seq<u8>>,
    transmissions: Seq<crate::session::TransmissionView>,
)
    requires
        course.valid(),
        course.format.undoes(split),
        sent_whole(split, messages, transmissions),
        course.states.last().lane(kind).heard.is_prefix_of(frames_sent(transmissions)),
        course.happenings.len() > 0,
        course.happenings.last() matches Happening::Receive(asked, session) && asked == kind && !session.closed,
    ensures
        ({
            let before = course.shorter().states.last().lane(kind).received;
            let after = course.states.last().lane(kind).received;
            before.len() < messages.len() && after == before.push(messages[before.len() as int])
        }),
{
    let n = course.happenings.len() - 1;
    law_messages_arrive_whole_and_in_order(course, kind, split, messages, transmissions);
    assert(course.states[n].follows(course.format, course.happenings[n], course.states[n + 1]));
    assert(course.shorter().states.last() == course.states[n]);
    let before = course.states[n].lane(kind).received;
    let after = course.states[n + 1].lane(kind).received;
    assert(after =~= messages.take(after.len() as int));
    assert(after[before.len() as int] == messages[before.len() as int]);
}

} // verus!
