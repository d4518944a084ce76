//! What a negotiation does at the end that is asked for a connection.

use crate::error::{NethernetError, SignalErrorCode};
use crate::session::Session;
use crate::signal::Signal;
use crate::transport::answer::{AnswerAction, AnswerCourse, AnswerEvent, AnswerState, Answering};
use crate::transport::{Credentials, Failure, Timeouts};
use vstd::prelude::*;

verus! {

/// The answer to an offer is about the connection and the network of the offer, with
/// the times that were given. An offer that can be read is taken as it was read; one
/// that cannot be read ends the answer at once.
pub proof fn law_answer_begins_with_its_offer<P, C>(
    answering: Answering<P, C>,
    offer: Signal,
    timeouts: Timeouts,
    action: AnswerAction<P, C>,
)
    requires
        answering.answers(offer, timeouts),
        answering.asks_for(action),
    ensures
        answering.connection_id == offer.connection_id,
        answering.network_id@ == offer.network_id@,
        answering.timeouts == timeouts,
        (match crate::transport::offer_description(offer.data@) {
            Ok(read) => {
                &&& answering.state matches AnswerState::Credentials { offer: taken }
                &&& taken == read
                &&& action is FetchCredentials
            },
            Err(error) => {
                &&& answering.state matches AnswerState::Failed { failure }
                &&& failure.code == Some(SignalErrorCode::FailedToSetRemoteDescription)
                &&& failure.error == NethernetError::WebRtc(error)
                &&& action is Finish
            },
        }),
{
}

/// Whatever happens, an answer stays that of its connection with its network, and
/// keeps the times it was begun with.
pub proof fn law_answering_keeps_its_connection<P, C>(
    answering: Answering<P, C>,
    event: AnswerEvent<P, C>,
    after: Answering<P, C>,
)
    requires
        answering.leads_to(event, after),
    ensures
        after.connection_id == answering.connection_id,
        after.network_id@ == answering.network_id@,
        after.timeouts == answering.timeouts,
{
}

/// A step that succeeds is followed by the next one, on what was built so far: the
/// peer connection with the credentials that were fetched, the offer made its remote
/// description, the answer created on it and made its local description.
pub proof fn law_answer_is_made_step_by_step<P, C>(
    answering: Answering<P, C>,
    action: AnswerAction<P, C>,
    event: AnswerEvent<P, C>,
    after: Answering<P, C>,
    next: AnswerAction<P, C>,
)
    requires
        answering.asks_for(action),
        answering.leads_to(event, after),
        after.asks_for(next),
    ensures
        (action is FetchCredentials ==> (event matches AnswerEvent::Credentials(Ok(fetched)) ==> next
            == AnswerAction::<P, C>::BuildPeerConnection(
            match fetched {
                Some(credentials) => Some(&credentials),
                None => None,
            },
        ))),
        (answering.state matches AnswerState::Credentials { offer } ==> (event matches AnswerEvent::Credentials(Ok(_))
            ==> (after.state matches AnswerState::PeerConnection { offer: kept, .. } && kept == offer))),
        (answering.state matches AnswerState::PeerConnection { offer, .. } ==> (event matches
            AnswerEvent::PeerConnection(Ok(built)) ==> next == AnswerAction::<P, C>::SetRemoteDescription(
            &built,
            &offer,
        ))),
        action is BuildPeerConnection ==> answering.state is PeerConnection,
        action matches AnswerAction::SetRemoteDescription(peer, _) ==> (event matches
            AnswerEvent::RemoteDescriptionSet(Ok(_)) ==> next == AnswerAction::<P, C>::CreateAnswer(peer)),
        action matches AnswerAction::CreateAnswer(peer) ==> (event matches AnswerEvent::Answer(Ok(answer)) ==> next
            == AnswerAction::<P, C>::SetLocalDescription(peer, &answer.description)),
        (action is SetLocalDescription ==> (event matches AnswerEvent::LocalDescriptionSet {
            result: Ok(_),
            disable_trickle_ice,
        } ==> next == if disable_trickle_ice {
            AnswerAction::<P, C>::AwaitGathering(answering.timeouts.start)
        } else {
            AnswerAction::<P, C>::ForwardCandidates
        })),
        action is ForwardCandidates ==> event is Forwarding ==> next is WatchSignals,
        action is AwaitGathering ==> (event matches AnswerEvent::Gathered(Ok(_)) ==> next is ReadLocalDescription),
        action matches AnswerAction::ReadLocalDescription(peer) ==> (event matches AnswerEvent::LocalSdp(Some(_)) ==> next
            == AnswerAction::<P, C>::WatchSignals(peer)),
{
}

/// Once the further signals are watched for, the answer goes to the network that
/// offered, under the number of the connection; once it is out, the channels of the
/// other end are waited for, and then each is to open: the reliable one first.
pub proof fn law_answer_goes_to_the_network_that_offered<P, C>(
    answering: Answering<P, C>,
    action: AnswerAction<P, C>,
    event: AnswerEvent<P, C>,
    after: Answering<P, C>,
    next: AnswerAction<P, C>,
)
    requires
        answering.asks_for(action),
        answering.leads_to(event, after),
        after.asks_for(next),
    ensures
        action is WatchSignals ==> event is Watching ==> (next matches AnswerAction::SignalAnswer(signal)
            && signal.signal_type is Answer && signal.connection_id == answering.connection_id && signal.network_id@
            == answering.network_id@),
        action is SignalAnswer ==> (event matches AnswerEvent::AnswerSignaled(Ok(_)) ==> next
            == AnswerAction::<P, C>::AwaitChannels(answering.timeouts.channel)),
        (action is AwaitChannels ==> (event matches AnswerEvent::Channels(Ok((reliable, unreliable))) ==> {
            &&& next == AnswerAction::<P, C>::AwaitOpen(&reliable, answering.timeouts.channel)
            &&& after.state matches AnswerState::OpenReliable { link }
            &&& link.reliable == reliable
            &&& link.unreliable == unreliable
            &&& answering.state matches AnswerState::AwaitChannels { peer_connection }
            &&& link.peer_connection == peer_connection
        })),
        (answering.state matches AnswerState::OpenReliable { link } ==> (event matches AnswerEvent::ChannelOpen(Ok(_))
            ==> {
            &&& action == AnswerAction::<P, C>::AwaitOpen(&link.reliable, answering.timeouts.channel)
            &&& next == AnswerAction::<P, C>::AwaitOpen(&link.unreliable, answering.timeouts.channel)
            &&& after.state == AnswerState::<P, C>::OpenUnreliable { link }
        })),
        (answering.state matches AnswerState::OpenUnreliable { link } ==> (event matches AnswerEvent::ChannelOpen(Ok(_))
            ==> {
            &&& action == AnswerAction::<P, C>::AwaitOpen(&link.unreliable, answering.timeouts.channel)
            &&& next is Finish
            &&& after.state == AnswerState::<P, C>::Established { link }
        })),
{
}

/// The answer that is signaled has the text that was settled on, all of it.
pub proof fn law_answer_has_its_text<P, C>(answering: Answering<P, C>, action: AnswerAction<P, C>)
    requires
        answering.asks_for(action),
    ensures
        (answering.state matches AnswerState::SignalAnswer { sdp, .. } ==> (action matches AnswerAction::SignalAnswer(
            signal,
        ) && signal.data@ == sdp@ && signal.signal_type is Answer && signal.connection_id == answering.connection_id
            && signal.network_id@ == answering.network_id@)),
        (answering.state matches AnswerState::ReadLocalDescription { peer_connection } ==> (action matches
            AnswerAction::ReadLocalDescription(peer) && *peer == peer_connection)),
        (answering.state matches AnswerState::WatchSignals { peer_connection, .. } ==> (action matches
            AnswerAction::WatchSignals(peer) && *peer == peer_connection)),
{
}

/// Every wait takes the time that the options give for it: gathering that of the
/// start, the channels of the other end and their opening that of the channels.
pub proof fn law_answering_waits_take_their_times<P, C>(answering: Answering<P, C>, action: AnswerAction<P, C>)
    requires
        answering.asks_for(action),
    ensures
        answering.state is Gathering ==> action == AnswerAction::<P, C>::AwaitGathering(answering.timeouts.start),
        answering.state is AwaitChannels ==> action == AnswerAction::<P, C>::AwaitChannels(answering.timeouts.channel),
        (answering.state matches AnswerState::OpenReliable { link } ==> action == AnswerAction::<P, C>::AwaitOpen(
            &link.reliable,
            answering.timeouts.channel,
        )),
        (answering.state matches AnswerState::OpenUnreliable { link } ==> action == AnswerAction::<P, C>::AwaitOpen(
            &link.unreliable,
            answering.timeouts.channel,
        )),
        action matches AnswerAction::AwaitGathering(time) ==> time == answering.timeouts.start,
        action matches AnswerAction::AwaitChannels(time) ==> time == answering.timeouts.channel,
        action matches AnswerAction::AwaitOpen(_, time) ==> time == answering.timeouts.channel,
{
}

/// A step that fails ends the answer, with the error that it brought and the code of
/// that step; the other end is not told that the answer could not be sent.
pub proof fn law_failed_step_ends_the_answer<P, C>(
    answering: Answering<P, C>,
    action: AnswerAction<P, C>,
    event: AnswerEvent<P, C>,
    after: Answering<P, C>,
)
    requires
        answering.asks_for(action),
        answering.leads_to(event, after),
    ensures
        (action is FetchCredentials ==> (event matches AnswerEvent::Credentials(Err(error)) ==> after.state
            == AnswerState::<P, C>::Failed {
            failure: Failure { code: Some(SignalErrorCode::SignalingTurnAuthFailed), error },
        })),
        (action is BuildPeerConnection ==> (event matches AnswerEvent::PeerConnection(Err(error)) ==> after.state
            == AnswerState::<P, C>::Failed {
            failure: Failure { code: Some(SignalErrorCode::FailedToCreatePeerConnection), error },
        })),
        (action is SetRemoteDescription ==> (event matches AnswerEvent::RemoteDescriptionSet(Err(error)) ==> after.state
            == AnswerState::<P, C>::Failed {
            failure: Failure {
                code: Some(SignalErrorCode::FailedToSetRemoteDescription),
                error: NethernetError::WebRtc(error),
            },
        })),
        (action is CreateAnswer ==> (event matches AnswerEvent::Answer(Err(error)) ==> after.state
            == AnswerState::<P, C>::Failed {
            failure: Failure {
                code: Some(SignalErrorCode::FailedToCreateAnswer),
                error: NethernetError::WebRtc(error),
            },
        })),
        (action is SetLocalDescription ==> (event matches AnswerEvent::LocalDescriptionSet { result: Err(error), .. }
            ==> after.state == AnswerState::<P, C>::Failed {
            failure: Failure {
                code: Some(SignalErrorCode::FailedToSetLocalDescription),
                error: NethernetError::WebRtc(error),
            },
        })),
        (action is AwaitGathering ==> (event matches AnswerEvent::Gathered(Err(error)) ==> after.state
            == AnswerState::<P, C>::Failed { failure: Failure { code: Some(SignalErrorCode::FailedToCreateAnswer), error } })),
        (action is ReadLocalDescription ==> event == AnswerEvent::<P, C>::LocalSdp(None) ==> (after.state matches
            AnswerState::Failed { failure } && failure.code == Some(SignalErrorCode::FailedToCreateAnswer)
            && (failure.error matches NethernetError::InvalidState(text) && text@ == "missing local description"@))),
        (action is SignalAnswer ==> (event matches AnswerEvent::AnswerSignaled(Err(error)) ==> after.state
            == AnswerState::<P, C>::Failed { failure: Failure { code: None, error } })),
        (action is AwaitChannels ==> (event matches AnswerEvent::Channels(Err(error)) ==> after.state
            == AnswerState::<P, C>::Failed {
            failure: Failure { code: Some(SignalErrorCode::NegotiationTimeoutWaitingForAccept), error },
        })),
        (action is AwaitOpen ==> (event matches AnswerEvent::ChannelOpen(Err(error)) ==> after.state
            == AnswerState::<P, C>::Failed {
            failure: Failure { code: Some(SignalErrorCode::NegotiationTimeoutWaitingForAccept), error },
        })),
        (event is Cancelled && !(action is Finish) ==> after.state == AnswerState::<P, C>::Failed {
            failure: Failure { code: None, error: NethernetError::ConnectionClosed },
        }),
{
}

/// An event that is not the result of the step asked for, and does not cancel, changes
/// nothing; a finished answer is not changed by any.
pub proof fn law_stray_event_does_not_change_an_answer<P, C>(
    answering: Answering<P, C>,
    action: AnswerAction<P, C>,
    event: AnswerEvent<P, C>,
    after: Answering<P, C>,
)
    requires
        answering.asks_for(action),
        answering.leads_to(event, after),
        event is Cancelled ==> action is Finish,
        (match action {
            AnswerAction::FetchCredentials => !(event is Credentials),
            AnswerAction::BuildPeerConnection(_) => !(event is PeerConnection),
            AnswerAction::SetRemoteDescription(_, _) => !(event is RemoteDescriptionSet),
            AnswerAction::CreateAnswer(_) => !(event is Answer),
            AnswerAction::SetLocalDescription(_, _) => !(event is LocalDescriptionSet),
            AnswerAction::ForwardCandidates => !(event is Forwarding),
            AnswerAction::AwaitGathering(_) => !(event is Gathered),
            AnswerAction::ReadLocalDescription(_) => !(event is LocalSdp),
            AnswerAction::WatchSignals(_) => !(event is Watching),
            AnswerAction::SignalAnswer(_) => !(event is AnswerSignaled),
            AnswerAction::AwaitChannels(_) => !(event is Channels),
            AnswerAction::AwaitOpen(_, _) => !(event is ChannelOpen),
            AnswerAction::Finish => true,
        }),
    ensures
        after.state == answering.state,
{
}

/// A finished answer asks for no step, and one that is not finished asks for one.
pub proof fn law_finished_answer_asks_for_nothing<P, C>(answering: Answering<P, C>, action: AnswerAction<P, C>)
    requires
        answering.asks_for(action),
    ensures
        action is Finish <==> answering.state is Established || answering.state is Failed,
{
}

/// An answer that stands has its session: open, over the peer connection and the two
/// channels of the connection, each of its kind, between this network and the one that
/// offered. One that failed has its failure, and any other has no outcome.
pub proof fn law_answer_comes_to_its_session<P, C>(
    answering: Answering<P, C>,
    local_network_id: String,
    outcome: Option<Result<Session<P, C>, Failure>>,
)
    requires
        answering.comes_to(local_network_id, outcome),
    ensures
        (answering.state matches AnswerState::Established { link } ==> {
            &&& outcome matches Some(Ok(session))
            &&& session@.peer_connection == link.peer_connection
            &&& session@.reliable_channel == Some(link.reliable)
            &&& session@.unreliable_channel == Some(link.unreliable)
            &&& session@.local.network_id@ == local_network_id@
            &&& session@.local.connection_id == Some(answering.connection_id)
            &&& session@.remote.network_id@ == answering.network_id@
            &&& session@.remote.connection_id == Some(answering.connection_id)
            &&& !session@.closed
        }),
        (answering.state matches AnswerState::Failed { failure } ==> outcome == Some(
            Err::<Session<P, C>, Failure>(failure),
        )),
        !(answering.state is Established) && !(answering.state is Failed) ==> outcome is None,
{
}

/// Along every course, the peer connection is built with the servers of the credentials
/// that were fetched for it: as many, in order, each with its addresses, user and
/// password; or with none, where there were no credentials.
pub proof fn law_answering_uses_the_servers_fetched<P, C>(
    course: AnswerCourse<P, C>,
    answering: Answering<P, C>,
    given: Option<&Credentials>,
)
    requires
        course.valid(),
        answering.state == course.states.last(),
        answering.asks_for(AnswerAction::<P, C>::BuildPeerConnection(given)),
    ensures
        (exists|at: int|
            0 <= at < course.events.len() && (#[trigger] course.events[at] matches AnswerEvent::Credentials(Ok(fetched)) && match fetched {
                Some(credentials) => given matches Some(used) && used.ice_servers@ == credentials.ice_servers@,
                None => given is None,
            })),
    decreases course.events.len(),
{
    let n = course.events.len() - 1;
    if n >= 0 {
        assert(course.states[n].follows(course.events[n], course.states[n + 1]));
        if course.states[n] is PeerConnection {
            let shorter = course.shorter();
            crate::transport::answer::lemma_last_step(course);
            law_answering_uses_the_servers_fetched(
                shorter,
                Answering { state: shorter.states.last(), ..answering },
                given,
            );
            let at = choose|at: int|
                0 <= at < shorter.events.len() && (#[trigger] shorter.events[at] matches AnswerEvent::Credentials(Ok(fetched)) && match fetched {
                    Some(credentials) => given matches Some(used) && used.ice_servers@ == credentials.ice_servers@,
                    None => given is None,
                });
            assert(course.events[at] == shorter.events[at]);
        } else {
            assert(course.events[n] is Credentials);
        }
    }
}

} // verus!
