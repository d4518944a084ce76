//! What a session does with messages, and how it ends.

use crate::addr::Addr;
use crate::error::NethernetError;
use crate::session::{
    ChannelEvent, ChannelKind, CloseStep, ReadStep, Receive, SessionChange, SessionView, Transmission, TransmissionView,
};
use bytes::Bytes;
use vstd::prelude::*;

verus! {

/// Whether a message was begun over a channel: every one of its segments is a frame to
/// send, in order, with all its bytes, and none was sent yet.
pub open spec fn begun_over<C>(
    channel: C,
    segments: Vec<Bytes>,
    result: Result<(&C, Transmission), NethernetError>,
) -> bool {
    result matches Ok((used, message)) && {
        &&& *used == channel
        &&& message@.frames.len() == segments@.len()
        &&& forall|i: int|
            0 <= i < segments@.len() ==> #[trigger] message@.frames[i] == crate::buffer::bytes_contents(segments@[i])
        &&& message@.sent == 0
        &&& !message@.failed
    }
}

/// A reliable message goes over the reliable channel with all its segments, whatever
/// they are; the send fails exactly if the session is closed, the channel is not
/// attached, or the message could not be split, and with that error.
pub proof fn law_reliable_send<P, C>(
    session: SessionView<P, C>,
    segments: Result<Vec<Bytes>, NethernetError>,
    result: Result<(&C, Transmission), NethernetError>,
)
    requires
        session.begins_reliable_send(segments, result),
    ensures
        session.closed ==> (result matches Err(error) && error is ConnectionClosed),
        !session.closed && session.reliable_channel is None ==> (result matches Err(NethernetError::DataChannel(text))
            && text@ == "Reliable channel not set"@),
        !session.closed ==> (session.reliable_channel matches Some(channel) ==> (segments matches Ok(split)
            ==> begun_over(channel, split, result))),
        !session.closed && session.reliable_channel is Some ==> (segments matches Err(refusal) ==> (result matches Err(
            error,
        ) && error == refusal)),
{
}

/// An unreliable message goes over the unreliable channel with all its segments,
/// whatever they are; the send fails exactly if the session is closed, the channel is
/// not attached, or the message could not be split, and with that error.
pub proof fn law_unreliable_send<P, C>(
    session: SessionView<P, C>,
    segments: Result<Vec<Bytes>, NethernetError>,
    result: Result<(&C, Transmission), NethernetError>,
)
    requires
        session.begins_unreliable_send(segments, result),
    ensures
        session.closed ==> (result matches Err(error) && error is ConnectionClosed),
        !session.closed && session.unreliable_channel is None ==> (result matches Err(NethernetError::DataChannel(text))
            && text@ == "Unreliable channel not set"@),
        !session.closed ==> (session.unreliable_channel matches Some(channel) ==> (segments matches Ok(split)
            ==> begun_over(channel, split, result))),
        !session.closed && session.unreliable_channel is Some ==> (segments matches Err(refusal) ==> (result matches
            Err(error) && error == refusal)),
{
}

/// The frame to send next is the first that was not sent, and there is one exactly as
/// long as one is left and none failed. Sending it moves on by one; a failure ends the
/// message, with the words of the channel's error.
pub proof fn law_frame_by_frame(
    message: TransmissionView,
    result: Result<(), webrtc::error::Error>,
    after: TransmissionView,
    outcome: Result<(), NethernetError>,
)
    requires
        message.takes(result, after, outcome),
    ensures
        ({
            let left = !message.failed && message.sent < message.frames.len();
            &&& left ==> message.next() == Some(message.frames[message.sent as int])
            &&& !left ==> message.next() is None && after == message && outcome is Ok
            &&& left && result is Ok ==> after.sent == message.sent + 1 && !after.failed && outcome is Ok
            &&& left && result is Err ==> after.sent == message.sent && after.failed
            &&& left ==> (result matches Err(error) ==> (outcome matches Err(NethernetError::DataChannel(text))
                && vstd::string::to_string_from_display_ensures::<webrtc::error::Error>(&error, text)))
            &&& after.frames == message.frames
        }),
{
}

/// The frame that is offered is the first that was not sent, with all its bytes.
pub proof fn law_first_unsent_frame_is_offered(message: TransmissionView, frame: Option<Seq<u8>>)
    requires
        message.offers(frame),
    ensures
        frame is Some <==> !message.failed && message.sent < message.frames.len(),
        frame matches Some(bytes) ==> bytes == message.frames[message.sent as int],
{
}

/// An open session has messages of a kind to wait for, of that kind and no other; a
/// closed one has none.
pub proof fn law_receiver_waits_for_its_kind<P, C>(session: SessionView<P, C>, kind: ChannelKind)
    ensures
        !session.closed ==> (session.receive(kind) matches Receive::Await(from) && from == kind),
        session.closed ==> session.receive(kind) is Finished,
{
}

/// A session begins open, over its peer connection and between its addresses, with no
/// channel attached.
pub proof fn law_session_begins_open<P, C>(peer_connection: P, local: Addr, remote: Addr)
    ensures
        ({
            let session = SessionView::<P, C>::begin(peer_connection, local, remote);
            &&& session.peer_connection == peer_connection
            &&& session.local.network_id@ == local.network_id@ && session.local.connection_id == local.connection_id
            &&& session.remote.network_id@ == remote.network_id@ && session.remote.connection_id
                == remote.connection_id
            &&& session.reliable_channel is None
            &&& session.unreliable_channel is None
            &&& !session.closed
        }),
{
}

/// Attaching a channel changes that channel and nothing else; closing closes and changes
/// nothing else.
pub proof fn law_changes_are_what_they_say<P, C>(session: SessionView<P, C>, change: SessionChange<C>)
    ensures
        ({
            let after = session.after(change);
            &&& after.peer_connection == session.peer_connection
            &&& after.local == session.local
            &&& after.remote == session.remote
            &&& change matches SessionChange::AttachReliable(channel) ==> after.reliable_channel == Some(channel)
            &&& !(change is AttachReliable) ==> after.reliable_channel == session.reliable_channel
            &&& change matches SessionChange::AttachUnreliable(channel) ==> after.unreliable_channel == Some(channel)
            &&& !(change is AttachUnreliable) ==> after.unreliable_channel == session.unreliable_channel
            &&& after.closed <==> session.closed || change is Close
        }),
{
}

/// What closing takes: the waiters are woken, then the channels that are attached are
/// closed, the reliable one before the unreliable one, then the peer connection; a
/// closed session takes nothing.
pub proof fn law_close_steps_in_order<P, C>(session: SessionView<P, C>)
    ensures
        ({
            let steps = session.close_steps();
            let both = session.reliable_channel is Some && session.unreliable_channel is Some;
            let neither = session.reliable_channel is None && session.unreliable_channel is None;
            &&& session.closed ==> steps.len() == 0
            &&& !session.closed ==> {
                &&& steps.len() == if both { 4nat } else if neither { 2nat } else { 3nat }
                &&& steps[0] is WakeWaiters
                &&& session.reliable_channel is Some ==> steps[1] is CloseReliable
                &&& session.unreliable_channel is Some ==> steps[steps.len() - 2] is CloseUnreliable
                &&& steps[steps.len() - 1] is ClosePeerConnection
            }
        }),
{
}

/// Closing fails exactly if closing the peer connection failed, with that error.
pub proof fn law_close_fails_with_the_peer_connection(closed: Option<Result<(), webrtc::error::Error>>)
    ensures
        ({
            let outcome = crate::session::close_outcome(closed);
            &&& outcome is Err <==> (closed matches Some(result) && result is Err)
            &&& closed matches Some(result) ==> (result matches Err(error) ==> (outcome matches Err(failure) && failure
                == NethernetError::WebRtc(error)))
        }),
{
}

/// Every message that a channel reports is decoded, with all its bytes; every other
/// report is passed over, and reading stops exactly when the channel is gone.
pub proof fn law_every_report_is_read<S>(event: Option<ChannelEvent>, step: ReadStep<S>)
    requires
        step.follows_report(event),
    ensures
        event matches Some(report) ==> (report matches ChannelEvent::Message(data) ==> (step matches ReadStep::Decode(
            bytes,
        ) && crate::buffer::bytes_contents(bytes) == crate::buffer::bytes_mut_contents(data))),
        event matches Some(report) ==> (!(report is Message) ==> step is Poll),
        step is Stop <==> event is None,
{
}

/// Every segment that was decoded is added to the message of the channel's own kind,
/// and every message that is complete is delivered to the queue of that kind.
pub proof fn law_every_segment_is_used<S>(
    kind: ChannelKind,
    decoded: Result<S, NethernetError>,
    added: Result<Option<Bytes>, NethernetError>,
    after_decoding: ReadStep<S>,
    after_adding: ReadStep<S>,
    after_delivery: ReadStep<S>,
)
    requires
        after_decoding.follows_decoding(kind, decoded),
        after_adding.follows_adding(kind, added),
        after_delivery.follows_delivery(),
    ensures
        decoded matches Ok(segment) ==> (after_decoding matches ReadStep::Add(to, adds) && to == kind && adds == segment),
        decoded is Err ==> after_decoding is Poll,
        added matches Ok(Some(message)) ==> (after_adding matches ReadStep::Deliver(to, delivers) && to == kind
            && delivers == message),
        !(added matches Ok(Some(_))) ==> after_adding is Poll,
        after_delivery is Poll,
{
}

} // verus!
