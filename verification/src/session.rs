//! Sessions: the state of an established connection, and what goes over its
//! data channels.

use crate::addr::Addr;
use crate::buffer::{bytes_as_slice, bytes_mut_from_slice, freeze};
use crate::error::NethernetError;
use bytes::{Bytes, BytesMut};
use vstd::prelude::*;

verus! {

/// How many received messages of either kind may wait to be taken.
pub const PACKET_QUEUE_CAPACITY: usize = 128;

/// The two kinds of messages, each with a data channel, an assembly and a queue of
/// its own.
#[derive(Clone, Copy, Debug, PartialEq, Eq, Structural)]
pub enum ChannelKind {
    /// What is lost is repeated.
    Reliable,
    /// What is lost stays lost.
    Unreliable,
}

/// The state of a session with a peer connection `P` and data channels `C`.
pub struct Session<P, C> {
    peer_connection: P,
    local: Addr,
    remote: Addr,
    reliable_channel: Option<C>,
    unreliable_channel: Option<C>,
    closed: bool,
}

/// What a [`Session`] consists of.
pub struct SessionView<P, C> {
    /// The peer connection under the session.
    pub peer_connection: P,
    /// The address of this end.
    pub local: Addr,
    /// The address of the other end.
    pub remote: Addr,
    /// The reliable data channel, once attached.
    pub reliable_channel: Option<C>,
    /// The unreliable data channel, once attached.
    pub unreliable_channel: Option<C>,
    /// Whether the session was closed.
    pub closed: bool,
}

impl<P, C> View for Session<P, C> {
    type V = SessionView<P, C>;

    closed spec fn view(&self) -> SessionView<P, C> {
        SessionView {
            peer_connection: self.peer_connection,
            local: self.local,
            remote: self.remote,
            reliable_channel: self.reliable_channel,
            unreliable_channel: self.unreliable_channel,
            closed: self.closed,
        }
    }
}

/// One thing to do while a session closes.
#[derive(Clone, Copy, Debug, PartialEq, Eq, Structural)]
pub enum CloseStep {
    /// Wake whoever waits for the session to close.
    WakeWaiters,
    /// Close the reliable channel; it does not matter whether that fails.
    CloseReliable,
    /// Close the unreliable channel; it does not matter whether that fails.
    CloseUnreliable,
    /// Close the peer connection; its result is the result of closing.
    ClosePeerConnection,
}

/// Whether a receiver gets a message.
#[derive(Clone, Copy, Debug, PartialEq, Eq, Structural)]
pub enum Receive {
    /// The session is closed: there is no message.
    Finished,
    /// The next message of the queue of this kind is the one to return.
    Await(ChannelKind),
}

impl<P, C> SessionView<P, C> {
    /// What closing the session takes, in order.
    pub open spec fn close_steps(self) -> Seq<CloseStep> {
        let reliable = if self.reliable_channel is Some { seq![CloseStep::CloseReliable] } else { seq![] };
        let unreliable = if self.unreliable_channel is Some { seq![CloseStep::CloseUnreliable] } else { seq![] };
        if self.closed {
            seq![]
        } else {
            seq![CloseStep::WakeWaiters] + reliable + unreliable + seq![CloseStep::ClosePeerConnection]
        }
    }

    /// What a receiver of messages of a kind gets.
    pub open spec fn receive(self, kind: ChannelKind) -> Receive {
        if self.closed {
            Receive::Finished
        } else {
            Receive::Await(kind)
        }
    }

    /// What a send over a channel comes to before anything is sent: the channel
    /// and the frames to send over it, or the error. `unset` is the complaint
    /// where the channel is not attached.
    pub open spec fn begins_send(
        self,
        channel: Option<C>,
        unset: Seq<char>,
        segments: Result<Vec<Bytes>, NethernetError>,
        result: Result<(&C, Transmission), NethernetError>,
    ) -> bool {
        if self.closed {
            result matches Err(error) && error is ConnectionClosed
        } else if channel is None {
            result matches Err(error) && error@ == crate::error::ErrorView::DataChannel(unset)
        } else {
            match segments {
                Err(refusal) => result matches Err(error) && error == refusal,
                Ok(segments) => result matches Ok((target, transmission)) && *target == channel->0
                    && transmission@ == TransmissionView::fresh(
                    segments@.map_values(|segment: Bytes| crate::buffer::bytes_contents(segment)),
                ),
            }
        }
    }
}

impl<P, C> SessionView<P, C> {
    /// An open session over a peer connection, with no channel attached.
    pub open spec fn begin(peer_connection: P, local: Addr, remote: Addr) -> Self {
        SessionView {
            peer_connection,
            local,
            remote,
            reliable_channel: None,
            unreliable_channel: None,
            closed: false,
        }
    }

    /// What a reliable send comes to before anything is sent.
    pub open spec fn begins_reliable_send(
        self,
        segments: Result<Vec<Bytes>, NethernetError>,
        result: Result<(&C, Transmission), NethernetError>,
    ) -> bool {
        self.begins_send(self.reliable_channel, "Reliable channel not set"@, segments, result)
    }

    /// What an unreliable send comes to before anything is sent.
    pub open spec fn begins_unreliable_send(
        self,
        segments: Result<Vec<Bytes>, NethernetError>,
        result: Result<(&C, Transmission), NethernetError>,
    ) -> bool {
        self.begins_send(self.unreliable_channel, "Unreliable channel not set"@, segments, result)
    }
}

impl<P, C> Session<P, C> {
    /// A session over a peer connection, with no channel attached yet.
    pub fn new(peer_connection: P, local: Addr, remote: Addr) -> (session: Self)
        ensures
            session@ == (SessionView {
                peer_connection,
                local,
                remote,
                reliable_channel: None::<C>,
                unreliable_channel: None::<C>,
                closed: false,
            }),
            session@ == SessionView::<P, C>::begin(peer_connection, local, remote),
    {
        Session {
            peer_connection,
            local,
            remote,
            reliable_channel: None,
            unreliable_channel: None,
            closed: false,
        }
    }

    /// Attaches the reliable data channel, in place of any attached before.
    pub fn set_reliable_channel(&mut self, channel: C) -> (result: Result<(), NethernetError>)
        ensures
            result is Ok,
            final(self)@ == (SessionView { reliable_channel: Some(channel), ..old(self)@ }),
            final(self)@ == old(self)@.after(SessionChange::AttachReliable(channel)),
    {
        self.reliable_channel = Some(channel);
        Ok(())
    }

    /// Attaches the unreliable data channel, in place of any attached before.
    pub fn set_unreliable_channel(&mut self, channel: C) -> (result: Result<(), NethernetError>)
        ensures
            result is Ok,
            final(self)@ == (SessionView { unreliable_channel: Some(channel), ..old(self)@ }),
            final(self)@ == old(self)@.after(SessionChange::AttachUnreliable(channel)),
    {
        self.unreliable_channel = Some(channel);
        Ok(())
    }

    /// Begins to send a reliable message, given what it was split into: the
    /// channel to use and the frames to send over it.
    pub fn send(&self, segments: Result<Vec<Bytes>, NethernetError>) -> (result: Result<
        (&C, Transmission),
        NethernetError,
    >)
        ensures
            self@.begins_reliable_send(segments, result),
    {
        if self.closed {
            return Err(NethernetError::ConnectionClosed);
        }
        match &self.reliable_channel {
            None => Err(NethernetError::DataChannel("Reliable channel not set".to_owned())),
            Some(channel) => match segments {
                Err(error) => Err(error),
                Ok(segments) => Ok((channel, Transmission::new(segments))),
            },
        }
    }

    /// Begins to send an unreliable message, given what it was split into: the
    /// channel to use and the frames to send over it.
    pub fn send_unreliable(&self, segments: Result<Vec<Bytes>, NethernetError>) -> (result: Result<
        (&C, Transmission),
        NethernetError,
    >)
        ensures
            self@.begins_unreliable_send(segments, result),
    {
        if self.closed {
            return Err(NethernetError::ConnectionClosed);
        }
        match &self.unreliable_channel {
            None => Err(NethernetError::DataChannel("Unreliable channel not set".to_owned())),
            Some(channel) => match segments {
                Err(error) => Err(error),
                Ok(segments) => Ok((channel, Transmission::new(segments))),
            },
        }
    }

    /// Whether a receiver of unreliable messages has one to wait for.
    pub fn recv_unreliable(&self) -> (receive: Receive)
        ensures
            receive == self@.receive(ChannelKind::Unreliable),
    {
        if self.closed {
            Receive::Finished
        } else {
            Receive::Await(ChannelKind::Unreliable)
        }
    }

    /// Whether a receiver of reliable messages has one to wait for.
    pub fn recv(&self) -> (receive: Receive)
        ensures
            receive == self@.receive(ChannelKind::Reliable),
    {
        if self.closed {
            Receive::Finished
        } else {
            Receive::Await(ChannelKind::Reliable)
        }
    }

    /// Closes the session and says what that takes, in order: nothing, if it was
    /// closed before.
    pub fn close(&mut self) -> (steps: Vec<CloseStep>)
        ensures
            steps@ == old(self)@.close_steps(),
            final(self)@ == (SessionView { closed: true, ..old(self)@ }),
            final(self)@ == old(self)@.after(SessionChange::Close),
    {
        let mut steps: Vec<CloseStep> = Vec::new();
        if self.closed {
            return steps;
        }
        self.closed = true;
        steps.push(CloseStep::WakeWaiters);
        if self.reliable_channel.is_some() {
            steps.push(CloseStep::CloseReliable);
        }
        if self.unreliable_channel.is_some() {
            steps.push(CloseStep::CloseUnreliable);
        }
        steps.push(CloseStep::ClosePeerConnection);
        steps
    }

    /// The local transport address.
    pub fn local_addr(&self) -> (addr: Addr)
        ensures
            addr == self@.local,
    {
        self.local.clone()
    }

    /// The remote transport address.
    pub fn remote_addr(&self) -> (addr: Addr)
        ensures
            addr == self@.remote,
    {
        self.remote.clone()
    }

    /// Whether waiting for the session to close is over.
    pub fn closed(&self) -> (over: bool)
        ensures
            over == self@.closed,
    {
        self.closed
    }

    /// Whether the session has closed.
    pub fn is_closed(&self) -> (closed: bool)
        ensures
            closed == self@.closed,
    {
        self.closed
    }

    /// The peer connection under the session.
    pub fn peer_connection(&self) -> (peer_connection: &P)
        ensures
            *peer_connection == self@.peer_connection,
    {
        &self.peer_connection
    }

    /// The reliable data channel, if attached.
    pub fn reliable_channel(&self) -> (channel: Option<&C>)
        ensures
            channel == match self@.reliable_channel {
                Some(channel) => Some(&channel),
                None => None,
            },
    {
        self.reliable_channel.as_ref()
    }

    /// The unreliable data channel, if attached.
    pub fn unreliable_channel(&self) -> (channel: Option<&C>)
        ensures
            channel == match self@.unreliable_channel {
                Some(channel) => Some(&channel),
                None => None,
            },
    {
        self.unreliable_channel.as_ref()
    }
}

/// What closing a session comes to, from what closing its peer connection did, if
/// that was done.
pub open spec fn close_outcome(peer_connection_closed: Option<Result<(), webrtc::error::Error>>) -> Result<
    (),
    NethernetError,
> {
    match peer_connection_closed {
        Some(Err(error)) => Err(NethernetError::WebRtc(error)),
        _ => Ok(()),
    }
}

/// The result of closing a session, from that of closing its peer connection; a
/// session that was closed before has nothing to close, and that is no failure.
pub fn close_result(peer_connection_closed: Option<Result<(), webrtc::error::Error>>) -> (outcome: Result<
    (),
    NethernetError,
>)
    ensures
        outcome == close_outcome(peer_connection_closed),
{
    match peer_connection_closed {
        Some(Err(error)) => Err(NethernetError::from(error)),
        _ => Ok(()),
    }
}

/// A message on its way out: its frames are sent one after the other, up to the
/// first that fails.
pub struct Transmission {
    frames: Vec<Bytes>,
    sent: usize,
    failed: bool,
}

/// What a [`Transmission`] consists of.
pub struct TransmissionView {
    /// The bytes of each frame of the message.
    pub frames: Seq<Seq<u8>>,
    /// How many frames were sent.
    pub sent: nat,
    /// Whether a frame failed.
    pub failed: bool,
}

impl TransmissionView {
    /// A message of which nothing was sent yet.
    pub open spec fn fresh(frames: Seq<Seq<u8>>) -> Self {
        TransmissionView { frames, sent: 0, failed: false }
    }

    /// The frame to send next.
    pub open spec fn next(self) -> Option<Seq<u8>> {
        if self.failed || self.sent >= self.frames.len() {
            None
        } else {
            Some(self.frames[self.sent as int])
        }
    }

    /// The message after its next frame was sent or failed.
    pub open spec fn after(self, success: bool) -> Self {
        if self.next() is None {
            self
        } else if success {
            TransmissionView { sent: self.sent + 1, ..self }
        } else {
            TransmissionView { failed: true, ..self }
        }
    }

    /// Whether this is the frame to send next.
    pub open spec fn offers(self, frame: Option<Seq<u8>>) -> bool {
        frame == self.next()
    }

    /// Whether this is the message, and what comes of it, once its next frame was sent
    /// or failed.
    pub open spec fn takes(
        self,
        result: Result<(), webrtc::error::Error>,
        after: Self,
        outcome: Result<(), NethernetError>,
    ) -> bool {
        &&& after == self.after(result is Ok)
        &&& self.next() is None || result is Ok ==> outcome is Ok
        &&& self.next() is Some ==> (result matches Err(error) ==> outcome matches Err(failure)
            && failure.tells_channel_failure(error))
    }

    /// The message after some of its frames, each with its outcome.
    pub open spec fn after_all(self, outcomes: Seq<bool>) -> Self
        decreases outcomes.len(),
    {
        if outcomes.len() == 0 {
            self
        } else {
            self.after_all(outcomes.drop_last()).after(outcomes.last())
        }
    }
}

impl View for Transmission {
    type V = TransmissionView;

    closed spec fn view(&self) -> TransmissionView {
        TransmissionView {
            frames: self.frames@.map_values(|frame: Bytes| crate::buffer::bytes_contents(frame)),
            sent: self.sent as nat,
            failed: self.failed,
        }
    }
}

impl Transmission {
    fn new(frames: Vec<Bytes>) -> (transmission: Self)
        ensures
            transmission@ == TransmissionView::fresh(
                frames@.map_values(|frame: Bytes| crate::buffer::bytes_contents(frame)),
            ),
    {
        Transmission { frames, sent: 0, failed: false }
    }

    /// A copy of the frame to send next, if one is left to send.
    pub fn next_frame(&self) -> (frame: Option<BytesMut>)
        ensures
            frame is Some == self@.next() is Some,
            frame matches Some(frame) ==> crate::buffer::bytes_mut_contents(frame) == self@.next()->0,
            self@.offers(
                match frame {
                    Some(frame) => Some(crate::buffer::bytes_mut_contents(frame)),
                    None => None,
                },
            ),
    {
        if self.failed || self.sent >= self.frames.len() {
            None
        } else {
            Some(bytes_mut_from_slice(bytes_as_slice(&self.frames[self.sent])))
        }
    }

    /// Takes the result of sending the next frame. A failure ends the message and
    /// is its result.
    pub fn frame_sent(&mut self, result: Result<(), webrtc::error::Error>) -> (outcome: Result<(), NethernetError>)
        ensures
            old(self)@.takes(result, final(self)@, outcome),
            final(self)@ == old(self)@.after(result is Ok),
            old(self)@.next() is None || result is Ok ==> outcome is Ok,
            old(self)@.next() is Some ==> (result matches Err(error) ==> outcome matches Err(failure)
                && failure.tells_channel_failure(error)),
    {
        if self.failed || self.sent >= self.frames.len() {
            return Ok(());
        }
        match result {
            Ok(()) => {
                self.sent += 1;
                Ok(())
            },
            Err(error) => {
                self.failed = true;
                Err(NethernetError::data_channel(&error))
            },
        }
    }
}

/// What a data channel reports.
pub enum ChannelEvent {
    /// The channel is open.
    Open,
    /// A message came in.
    Message(BytesMut),
    /// Anything else.
    Other,
}

/// What to do next with a data channel that is read from. `S` is a decoded
/// message segment.
pub enum ReadStep<S> {
    /// Wait for what the channel reports next.
    Poll,
    /// Decode a segment.
    Decode(Bytes),
    /// Add a segment to the message under assembly of this kind.
    Add(ChannelKind, S),
    /// Put a message that is complete into the queue of this kind, once there is
    /// room; it does not matter whether the message could be queued.
    Deliver(ChannelKind, Bytes),
    /// Stop reading.
    Stop,
}

impl<S> ReadStep<S> {
    /// Whether this is what a report of the channel leads to; none is left once the
    /// channel is gone.
    pub open spec fn follows_report(self, event: Option<ChannelEvent>) -> bool {
        match event {
            None => self is Stop,
            Some(ChannelEvent::Message(data)) => self matches ReadStep::Decode(segment)
                && crate::buffer::bytes_contents(segment) == crate::buffer::bytes_mut_contents(data),
            Some(_) => self is Poll,
        }
    }

    /// Whether this is what decoding leads to: a segment that cannot be decoded is
    /// skipped.
    pub open spec fn follows_decoding(self, kind: ChannelKind, result: Result<S, NethernetError>) -> bool {
        match result {
            Ok(segment) => self == ReadStep::Add(kind, segment),
            Err(_) => self is Poll,
        }
    }

    /// Whether this is what adding a segment leads to: a complete message is
    /// delivered, and a segment that does not fit is skipped.
    pub open spec fn follows_adding(self, kind: ChannelKind, result: Result<Option<Bytes>, NethernetError>) -> bool {
        match result {
            Ok(Some(message)) => self == ReadStep::<S>::Deliver(kind, message),
            Ok(None) => self is Poll,
            Err(_) => self is Poll,
        }
    }

    /// Whether this is what delivering a message leads to.
    pub open spec fn follows_delivery(self) -> bool {
        self is Poll
    }

    /// What a report of the channel leads to.
    pub fn after_poll(event: Option<ChannelEvent>) -> (step: Self)
        ensures
            step.follows_report(event),
    {
        match event {
            None => ReadStep::Stop,
            Some(ChannelEvent::Message(data)) => ReadStep::Decode(freeze(data)),
            Some(_) => ReadStep::Poll,
        }
    }

    /// What decoding a segment from the channel of a kind leads to.
    pub fn after_decode(kind: ChannelKind, result: Result<S, NethernetError>) -> (step: Self)
        ensures
            step.follows_decoding(kind, result),
    {
        match result {
            Ok(segment) => ReadStep::Add(kind, segment),
            Err(_) => ReadStep::Poll,
        }
    }

    /// What adding a segment from the channel of a kind leads to.
    pub fn after_add(kind: ChannelKind, result: Result<Option<Bytes>, NethernetError>) -> (step: Self)
        ensures
            step.follows_adding(kind, result),
    {
        match result {
            Ok(Some(message)) => ReadStep::Deliver(kind, message),
            Ok(None) => ReadStep::Poll,
            Err(_) => ReadStep::Poll,
        }
    }

    /// What delivering a message leads to.
    pub fn after_deliver() -> (step: Self)
        ensures
            step.follows_delivery(),
    {
        ReadStep::Poll
    }
}

/// A closed session stays closed and does nothing more: it sends nothing, has
/// nothing to receive, and closing it again takes no step.
pub proof fn law_closed_session_is_inert<P, C>(
    session: SessionView<P, C>,
    channel: Option<C>,
    unset: Seq<char>,
    segments: Result<Vec<Bytes>, NethernetError>,
    result: Result<(&C, Transmission), NethernetError>,
    attached: C,
)
    requires
        session.closed,
        session.begins_send(channel, unset, segments, result),
    ensures
        result matches Err(error) && error@ == crate::error::ErrorView::ConnectionClosed,
        session.receive(ChannelKind::Reliable) is Finished,
        session.receive(ChannelKind::Unreliable) is Finished,
        session.close_steps().len() == 0,
        (SessionView { closed: true, ..session }) == session,
        (SessionView { reliable_channel: Some(attached), ..session }).closed,
        (SessionView { unreliable_channel: Some(attached), ..session }).closed,
{
}

/// What can be done to a session.
pub enum SessionChange<C> {
    /// The reliable data channel is attached.
    AttachReliable(C),
    /// The unreliable data channel is attached.
    AttachUnreliable(C),
    /// The session is closed.
    Close,
}

impl<P, C> SessionView<P, C> {
    /// The session after a change.
    pub open spec fn after(self, change: SessionChange<C>) -> Self {
        match change {
            SessionChange::AttachReliable(channel) => SessionView { reliable_channel: Some(channel), ..self },
            SessionChange::AttachUnreliable(channel) => SessionView { unreliable_channel: Some(channel), ..self },
            SessionChange::Close => SessionView { closed: true, ..self },
        }
    }

    /// The session after some changes.
    pub open spec fn after_changes(self, changes: Seq<SessionChange<C>>) -> Self
        decreases changes.len(),
    {
        if changes.len() == 0 {
            self
        } else {
            self.after_changes(changes.drop_last()).after(changes.last())
        }
    }

    /// Whether a change wakes everyone who waits for the session to close.
    pub open spec fn wakes_waiters(self, change: SessionChange<C>) -> bool {
        change is Close && self.close_steps().contains(CloseStep::WakeWaiters)
    }
}

proof fn lemma_stays_closed<P, C>(session: SessionView<P, C>, changes: Seq<SessionChange<C>>, i: int, j: int)
    requires
        0 <= i <= j <= changes.len(),
        session.after_changes(changes.take(i)).closed,
    ensures
        session.after_changes(changes.take(j)).closed,
    decreases j - i,
{
    if i < j {
        lemma_stays_closed(session, changes, i, j - 1);
        assert(changes.take(j).drop_last() =~= changes.take(j - 1));
    }
}

/// Waiting for a session to close is over exactly if the session was closed before,
/// whatever else was done to it. The first close wakes everyone who waits by then,
/// and no other does; whoever waits after it has nothing to wait for.
pub proof fn law_waiting_ends_with_the_close<P, C>(
    session: SessionView<P, C>,
    changes: Seq<SessionChange<C>>,
    at: int,
)
    requires
        !session.closed,
        0 <= at < changes.len(),
    ensures
        session.after_changes(changes).closed <==> exists|i: int| 0 <= i < changes.len() && #[trigger] changes[i] is Close,
        session.after_changes(changes.take(at)).wakes_waiters(changes[at]) <==> changes[at] is Close
            && !session.after_changes(changes.take(at)).closed,
        changes[at] is Close ==> session.after_changes(changes.take(at + 1)).closed,
        session.after_changes(changes.take(at)).closed ==> session.after_changes(changes).closed,
    decreases changes.len(),
{
    let front = changes.drop_last();
    let n = changes.len() - 1;
    assert(changes.take(n) =~= front);
    assert(changes.take(n + 1) =~= changes);
    assert(changes.take(at + 1).drop_last() =~= changes.take(at));
    assert(changes[n] == changes.last());
    if session.after_changes(changes.take(at)).closed {
        lemma_stays_closed(session, changes, at, n + 1);
    }
    if n > 0 {
        law_waiting_ends_with_the_close(session, front, 0);
        if exists|i: int| 0 <= i < changes.len() && #[trigger] changes[i] is Close {
            let i = choose|i: int| 0 <= i < changes.len() && #[trigger] changes[i] is Close;
            if i < n {
                assert(front[i] is Close);
            }
        }
        if exists|i: int| 0 <= i < front.len() && #[trigger] front[i] is Close {
            let i = choose|i: int| 0 <= i < front.len() && #[trigger] front[i] is Close;
            assert(changes[i] is Close);
        }
    } else {
        assert(front =~= Seq::empty());
    }
    let before = session.after_changes(changes.take(at));
    if changes[at] is Close && !before.closed {
        law_close_covers_everything_once(before);
        assert(before.close_steps()[0] is WakeWaiters);
    }
}

/// Closing an open session wakes the waiters first and closes the peer connection
/// last; between them it closes each channel that is attached, and no other; and
/// nothing is done twice.
pub proof fn law_close_covers_everything_once<P, C>(session: SessionView<P, C>)
    requires
        !session.closed,
    ensures
        session.close_steps().len() >= 2,
        session.close_steps().first() is WakeWaiters,
        session.close_steps().last() is ClosePeerConnection,
        session.close_steps().contains(CloseStep::CloseReliable) <==> session.reliable_channel is Some,
        session.close_steps().contains(CloseStep::CloseUnreliable) <==> session.unreliable_channel is Some,
        session.close_steps().no_duplicates(),
        (SessionView { closed: true, ..session }).close_steps().len() == 0,
{
    let steps = session.close_steps();
    let reliable: int = if session.reliable_channel is Some { 1 } else { 0 };
    if session.reliable_channel is Some {
        assert(steps[1] is CloseReliable);
    }
    if session.unreliable_channel is Some {
        assert(steps[1 + reliable] is CloseUnreliable);
    }
}

/// A reliable message goes over the reliable channel that was attached last, with
/// the frames that it was split into; an unreliable one likewise.
pub proof fn law_send_uses_channel_attached_last<P, C>(
    session: SessionView<P, C>,
    channel: C,
    segments: Vec<Bytes>,
    reliable: Result<(&C, Transmission), NethernetError>,
    unreliable: Result<(&C, Transmission), NethernetError>,
)
    requires
        !session.closed,
        ({
            let attached = SessionView { reliable_channel: Some(channel), ..session };
            attached.begins_send(attached.reliable_channel, "Reliable channel not set"@, Ok(segments), reliable)
        }),
        ({
            let attached = SessionView { unreliable_channel: Some(channel), ..session };
            attached.begins_send(attached.unreliable_channel, "Unreliable channel not set"@, Ok(segments), unreliable)
        }),
    ensures
        reliable matches Ok((target, _)) && *target == channel,
        unreliable matches Ok((target, _)) && *target == channel,
        reliable->Ok_0.1@ == TransmissionView::fresh(
            segments@.map_values(|segment: Bytes| crate::buffer::bytes_contents(segment)),
        ),
        unreliable->Ok_0.1@ == reliable->Ok_0.1@,
{
}

/// Attaching one channel changes nothing for messages of the other kind.
pub proof fn law_channels_are_independent<P, C>(
    session: SessionView<P, C>,
    channel: C,
    unset: Seq<char>,
    segments: Result<Vec<Bytes>, NethernetError>,
    result: Result<(&C, Transmission), NethernetError>,
)
    ensures
        ({
            let attached = SessionView { reliable_channel: Some(channel), ..session };
            attached.begins_send(attached.unreliable_channel, unset, segments, result) == session.begins_send(
                session.unreliable_channel,
                unset,
                segments,
                result,
            )
        }),
        ({
            let attached = SessionView { unreliable_channel: Some(channel), ..session };
            attached.begins_send(attached.reliable_channel, unset, segments, result) == session.begins_send(
                session.reliable_channel,
                unset,
                segments,
                result,
            )
        }),
{
}

/// As long as every frame is sent, the frames of a message go out in order, each
/// once, and the message is over when all of them did.
pub proof fn law_frames_go_out_in_order(frames: Seq<Seq<u8>>, outcomes: Seq<bool>)
    requires
        outcomes.len() <= frames.len(),
        forall|i: int| 0 <= i < outcomes.len() ==> outcomes[i],
    ensures
        TransmissionView::fresh(frames).after_all(outcomes) == (TransmissionView {
            frames,
            sent: outcomes.len(),
            failed: false,
        }),
        TransmissionView::fresh(frames).after_all(outcomes).next() == if outcomes.len() < frames.len() {
            Some(frames[outcomes.len() as int])
        } else {
            None
        },
    decreases outcomes.len(),
{
    if outcomes.len() > 0 {
        law_frames_go_out_in_order(frames, outcomes.drop_last());
    }
}

/// A frame that fails is the last of its message: whatever comes after, no other
/// frame is offered.
pub proof fn law_failed_frame_is_the_last(frames: Seq<Seq<u8>>, outcomes: Seq<bool>, later: Seq<bool>)
    requires
        outcomes.len() < frames.len(),
        forall|i: int| 0 <= i < outcomes.len() ==> outcomes[i],
    ensures
        TransmissionView::fresh(frames).after_all(outcomes.push(false) + later) == (TransmissionView {
            frames,
            sent: outcomes.len(),
            failed: true,
        }),
        TransmissionView::fresh(frames).after_all(outcomes.push(false) + later).next() is None,
    decreases later.len(),
{
    let all = outcomes.push(false) + later;
    if later.len() == 0 {
        assert(all.drop_last() =~= outcomes);
        assert(!all.last());
        law_frames_go_out_in_order(frames, outcomes);
    } else {
        assert(all.drop_last() =~= outcomes.push(false) + later.drop_last());
        law_failed_frame_is_the_last(frames, outcomes, later.drop_last());
    }
}

} // verus!
