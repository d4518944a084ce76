//! What a negotiation does at the end that asks for a connection.

use crate::error::{NethernetError, SignalErrorCode};
use crate::session::Session;
use crate::signal::Signal;
use crate::transport::negotiation::{Course, DialAction, DialEvent, DialState, Negotiation, TimedWait};
use crate::transport::{Credentials, Failure, Timeouts};
use vstd::prelude::*;

verus! {

/// A connect begins with fetching the credentials for a connection with the network
/// that was asked for, and with the times that were given.
pub proof fn law_dialing_begins_as_asked<P, C, K>(
    dial: Negotiation<P, C, K>,
    remote_network_id: String,
    timeouts: Timeouts,
    action: DialAction<P, C, K>,
)
    requires
        dial.begins(remote_network_id, timeouts),
        dial.asks_for(action),
    ensures
        dial.remote_network_id@ == remote_network_id@,
        dial.timeouts == timeouts,
        action is FetchCredentials,
{
}

/// Whatever happens, a negotiation stays that of its connection with its network, and
/// keeps the times it was begun with.
pub proof fn law_dialing_keeps_its_connection<P, C, K>(
    dial: Negotiation<P, C, K>,
    event: DialEvent<P, C, K>,
    after: Negotiation<P, C, K>,
)
    requires
        dial.leads_to(event, after),
    ensures
        after.connection_id == dial.connection_id,
        after.remote_network_id@ == dial.remote_network_id@,
        after.timeouts == dial.timeouts,
{
}

/// A step that succeeds is followed by the next one, on what was built so far: first
/// the peer connection with the credentials that were fetched, then the reliable and
/// the unreliable channel on it, then the offer, which is made the local description.
pub proof fn law_connection_is_built_step_by_step<P, C, K>(
    dial: Negotiation<P, C, K>,
    action: DialAction<P, C, K>,
    event: DialEvent<P, C, K>,
    after: Negotiation<P, C, K>,
    next: DialAction<P, C, K>,
)
    requires
        dial.asks_for(action),
        dial.leads_to(event, after),
        after.asks_for(next),
    ensures
        (action is FetchCredentials ==> (event matches DialEvent::Credentials(Ok(fetched)) ==> next
            == DialAction::<P, C, K>::BuildPeerConnection(
            match fetched {
                Some(credentials) => Some(&credentials),
                None => None,
            },
        ))),
        action is BuildPeerConnection ==> (event matches DialEvent::PeerConnection(Ok(built)) ==> next
            == DialAction::<P, C, K>::CreateReliableChannel(&built)),
        action matches DialAction::CreateReliableChannel(peer) ==> (event matches DialEvent::Channel(Ok(_)) ==> next
            == DialAction::<P, C, K>::CreateUnreliableChannel(peer)),
        action matches DialAction::CreateUnreliableChannel(peer) ==> (event matches DialEvent::Channel(Ok(_)) ==> next
            == DialAction::<P, C, K>::CreateOffer(peer)),
        action matches DialAction::CreateOffer(peer) ==> (event matches DialEvent::Offer(Ok(offer)) ==> next
            == DialAction::<P, C, K>::SetLocalDescription(peer, &offer.description)),
        (action matches DialAction::SetLocalDescription(peer, _) ==> (event matches DialEvent::LocalDescriptionSet {
            result: Ok(_),
            disable_trickle_ice,
        } ==> next == if disable_trickle_ice {
            DialAction::<P, C, K>::AwaitGathering(dial.timeouts.start)
        } else {
            DialAction::<P, C, K>::ForwardCandidates
        })),
        action is ForwardCandidates ==> event is Forwarding ==> next is Subscribe,
        action is AwaitGathering ==> (event matches DialEvent::Gathered(Ok(_)) ==> next is ReadLocalDescription),
        action is ReadLocalDescription ==> (event matches DialEvent::LocalSdp(Some(_)) ==> next is Subscribe),
{
}

/// Once the signals are subscribed to, the offer goes to the remote network under the
/// number of the connection; once it is out, the answer is waited for.
pub proof fn law_offer_goes_to_the_remote_network<P, C, K>(
    dial: Negotiation<P, C, K>,
    action: DialAction<P, C, K>,
    event: DialEvent<P, C, K>,
    after: Negotiation<P, C, K>,
    next: DialAction<P, C, K>,
)
    requires
        dial.asks_for(action),
        dial.leads_to(event, after),
        after.asks_for(next),
    ensures
        action is Subscribe ==> event is Subscribed ==> (next matches DialAction::SignalOffer(signal)
            && signal.signal_type is Offer && signal.connection_id == dial.connection_id && signal.network_id@
            == dial.remote_network_id@),
        action matches DialAction::SignalOffer(_) ==> (event matches DialEvent::OfferSignaled(Ok(_)) ==> next
            == DialAction::<P, C, K>::AwaitSignal(dial.timeouts.negotiation) && after.state is AwaitAnswer),
{
}

/// A signal with the number of the connection and the name of the remote network is
/// acted upon while the answer is waited for, whatever the number and the name are. An
/// answer that can be read is made the remote description; a candidate is parsed; an
/// error, an offer and an answer that cannot be read end the negotiation.
pub proof fn law_own_signal_is_acted_upon<P, C, K>(
    dial: Negotiation<P, C, K>,
    signal: Signal,
    after: Negotiation<P, C, K>,
    next: DialAction<P, C, K>,
)
    requires
        dial.state is AwaitAnswer,
        signal.connection_id == dial.connection_id,
        signal.network_id@ == dial.remote_network_id@,
        dial.leads_to(DialEvent::Signal(signal), after),
        after.asks_for(next),
    ensures
        (signal.signal_type is Answer ==> match crate::transport::answer_description(signal.data@) {
            Ok(answer) => {
                &&& after.state matches DialState::SetRemoteDescription { link, candidates, answer: read, .. }
                &&& link == dial.state->AwaitAnswer_link
                &&& candidates == dial.state->AwaitAnswer_candidates
                &&& read == answer
                &&& next == DialAction::<P, C, K>::SetRemoteDescription(&link.peer_connection, &answer)
            },
            Err(error) => {
                &&& after.state matches DialState::Failed { failure }
                &&& failure.code == Some(SignalErrorCode::FailedToSetRemoteDescription)
                &&& failure.error == NethernetError::WebRtc(error)
                &&& next is Finish
            },
        }),
        (signal.signal_type is Candidate ==> {
            &&& next == DialAction::<P, C, K>::ParseCandidate(&signal.data)
            &&& after.state matches DialState::ParseCandidate { link, candidates, .. }
            &&& link == dial.state->AwaitAnswer_link
            &&& candidates == dial.state->AwaitAnswer_candidates
        }),
        (signal.signal_type is Error ==> {
            &&& after.state matches DialState::Failed { failure }
            &&& failure.code is None
            &&& failure.error == NethernetError::Signaled(crate::transport::stream::error_code(signal.data@))
            &&& next is Finish
        }),
        (signal.signal_type is Offer ==> {
            &&& after.state matches DialState::Failed { failure }
            &&& failure.code == Some(SignalErrorCode::IncomingConnectionIgnored)
            &&& failure.error matches NethernetError::Other(text)
            &&& text@ == "received offer while dialing"@
            &&& next is Finish
        }),
{
}

/// A signal with the number of the connection and the name of the remote network is
/// acted upon while the first candidate is waited for, if it is a candidate or an error.
pub proof fn law_own_signal_after_the_answer_is_acted_upon<P, C, K>(
    dial: Negotiation<P, C, K>,
    signal: Signal,
    after: Negotiation<P, C, K>,
    next: DialAction<P, C, K>,
)
    requires
        dial.state is AwaitCandidate,
        signal.connection_id == dial.connection_id,
        signal.network_id@ == dial.remote_network_id@,
        dial.leads_to(DialEvent::Signal(signal), after),
        after.asks_for(next),
    ensures
        (signal.signal_type is Candidate ==> {
            &&& next == DialAction::<P, C, K>::ParseCandidate(&signal.data)
            &&& after.state matches DialState::ParseFirstCandidate { link, .. }
            &&& link == dial.state->AwaitCandidate_link
        }),
        (signal.signal_type is Error ==> {
            &&& after.state matches DialState::Failed { failure }
            &&& failure.code is None
            &&& failure.error == NethernetError::Signaled(crate::transport::stream::error_code(signal.data@))
            &&& next is Finish
        }),
        signal.signal_type is Offer || signal.signal_type is Answer ==> after == dial,
{
}

/// A signal with another number, or with the name of another network, changes nothing.
pub proof fn law_foreign_signal_changes_nothing<P, C, K>(
    dial: Negotiation<P, C, K>,
    signal: Signal,
    after: Negotiation<P, C, K>,
)
    requires
        signal.connection_id != dial.connection_id || signal.network_id@ != dial.remote_network_id@,
        dial.leads_to(DialEvent::Signal(signal), after),
    ensures
        after.state == dial.state,
{
}

/// What the answer says of candidates is found in its text: some line of it begins
/// with the name of the candidate attribute.
pub proof fn law_answer_is_searched_for_candidates<P, C, K>(
    dial: Negotiation<P, C, K>,
    signal: Signal,
    after: Negotiation<P, C, K>,
)
    requires
        dial.state is AwaitAnswer,
        signal.signal_type is Answer,
        signal.connection_id == dial.connection_id,
        signal.network_id@ == dial.remote_network_id@,
        crate::transport::answer_description(signal.data@) is Ok,
        dial.leads_to(DialEvent::Signal(signal), after),
    ensures
        (after.state matches DialState::SetRemoteDescription { holds_candidate, .. } && holds_candidate == exists|
            before: Seq<char>,
            rest: Seq<char>,
        |
            (before.len() == 0 || before.last() == '\n') && signal.data@ == #[trigger] (before + "a=candidate:"@ + rest)),
{
    crate::laws::settings::law_candidate_lines_are_found(signal.data@);
}

/// A candidate that was parsed while the answer is waited for is kept, last of all;
/// one that could not be parsed is passed over; and the wait goes on.
pub proof fn law_parsed_candidate_is_kept<P, C, K>(
    dial: Negotiation<P, C, K>,
    parsed: Option<K>,
    after: Negotiation<P, C, K>,
    next: DialAction<P, C, K>,
)
    requires
        dial.state is ParseCandidate,
        dial.leads_to(DialEvent::CandidateParsed(parsed), after),
        after.asks_for(next),
    ensures
        next == DialAction::<P, C, K>::AwaitSignal(dial.timeouts.negotiation),
        (after.state matches DialState::AwaitAnswer { link, candidates } && {
            &&& link == dial.state->ParseCandidate_link
            &&& parsed is None ==> candidates@ == dial.state->ParseCandidate_candidates@
            &&& parsed matches Some(candidate) ==> candidates@ == dial.state->ParseCandidate_candidates@.push(candidate)
        }),
{
}

/// The first candidate that could be parsed is added, and then the reliable channel
/// is to open; text that is no candidate is passed over, and the wait goes on.
pub proof fn law_first_candidate_is_added<P, C, K>(
    dial: Negotiation<P, C, K>,
    parsed: Option<K>,
    after: Negotiation<P, C, K>,
    next: DialAction<P, C, K>,
)
    requires
        dial.state is ParseFirstCandidate,
        dial.leads_to(DialEvent::CandidateParsed(parsed), after),
        after.asks_for(next),
    ensures
        (parsed matches Some(candidate) ==> {
            &&& next == DialAction::<P, C, K>::AddCandidate(
                &dial.state->ParseFirstCandidate_link.peer_connection,
                &candidate,
            )
            &&& after.state matches DialState::AddCandidates { link, rest, .. }
            &&& link == dial.state->ParseFirstCandidate_link && rest@.len() == 0
        }),
        (parsed is None ==> {
            &&& next == DialAction::<P, C, K>::AwaitCandidate(dial.timeouts.candidate)
            &&& after.state matches DialState::AwaitCandidate { link }
            &&& link == dial.state->ParseFirstCandidate_link
        }),
{
}

/// Once the answer is accepted, the candidates that came before it are added, the
/// first of them first. Without any, the first one is waited for, unless the answer
/// names one; then the reliable channel is to open at once.
pub proof fn law_accepted_answer_leads_on<P, C, K>(
    dial: Negotiation<P, C, K>,
    after: Negotiation<P, C, K>,
    next: DialAction<P, C, K>,
)
    requires
        dial.state is SetRemoteDescription,
        dial.leads_to(DialEvent::RemoteDescriptionSet(Ok(())), after),
        after.asks_for(next),
    ensures
        ({
            let link = dial.state->SetRemoteDescription_link;
            let candidates = dial.state->SetRemoteDescription_candidates@;
            let named = dial.state->SetRemoteDescription_holds_candidate;
            &&& candidates.len() > 0 ==> {
                &&& next == DialAction::<P, C, K>::AddCandidate(&link.peer_connection, &candidates[0])
                &&& after.state matches DialState::AddCandidates { link: same, rest, .. }
                &&& same == link && seq![candidates[0]] + rest@ == candidates
            }
            &&& candidates.len() == 0 && !named ==> {
                &&& next == DialAction::<P, C, K>::AwaitCandidate(dial.timeouts.candidate)
                &&& after.state == DialState::<P, C, K>::AwaitCandidate { link }
            }
            &&& candidates.len() == 0 && named ==> {
                &&& next == DialAction::<P, C, K>::AwaitOpen(&link.reliable, dial.timeouts.start)
                &&& after.state == DialState::<P, C, K>::OpenReliable { link }
            }
        }),
{
    let candidates = dial.state->SetRemoteDescription_candidates@;
    if candidates.len() > 0 {
        assert(seq![candidates[0]] + candidates.drop_first() =~= candidates);
    }
}

/// Candidates are added one after the other, each once and in order; after the last,
/// the reliable channel is to open.
pub proof fn law_candidates_are_added_one_by_one<P, C, K>(
    dial: Negotiation<P, C, K>,
    action: DialAction<P, C, K>,
    after: Negotiation<P, C, K>,
    next: DialAction<P, C, K>,
)
    requires
        dial.state is AddCandidates,
        dial.asks_for(action),
        dial.leads_to(DialEvent::CandidateAdded, after),
        after.asks_for(next),
    ensures
        ({
            let link = dial.state->AddCandidates_link;
            let rest = dial.state->rest@;
            &&& action == DialAction::<P, C, K>::AddCandidate(&link.peer_connection, &dial.state->next)
            &&& rest.len() > 0 ==> {
                &&& next == DialAction::<P, C, K>::AddCandidate(&link.peer_connection, &rest[0])
                &&& after.state matches DialState::AddCandidates { link: same, rest: left, .. }
                &&& same == link && seq![rest[0]] + left@ == rest
            }
            &&& rest.len() == 0 ==> {
                &&& next == DialAction::<P, C, K>::AwaitOpen(&link.reliable, dial.timeouts.start)
                &&& after.state == DialState::<P, C, K>::OpenReliable { link }
            }
        }),
{
    let rest = dial.state->rest@;
    if rest.len() > 0 {
        assert(seq![rest[0]] + rest.drop_first() =~= rest);
    }
}

/// The reliable channel is to open, then the unreliable one, and then the connection
/// stands; nothing of it is exchanged on the way.
pub proof fn law_channels_open_in_order<P, C, K>(
    dial: Negotiation<P, C, K>,
    action: DialAction<P, C, K>,
    after: Negotiation<P, C, K>,
    next: DialAction<P, C, K>,
)
    requires
        dial.asks_for(action),
        dial.leads_to(DialEvent::ChannelOpen(Ok(())), after),
        after.asks_for(next),
    ensures
        (dial.state matches DialState::OpenReliable { link } ==> {
            &&& action == DialAction::<P, C, K>::AwaitOpen(&link.reliable, dial.timeouts.start)
            &&& next == DialAction::<P, C, K>::AwaitOpen(&link.unreliable, dial.timeouts.start)
            &&& after.state == DialState::<P, C, K>::OpenUnreliable { link }
        }),
        (dial.state matches DialState::OpenUnreliable { link } ==> {
            &&& action == DialAction::<P, C, K>::AwaitOpen(&link.unreliable, dial.timeouts.start)
            &&& next is Finish
            &&& after.state == DialState::<P, C, K>::Established { link }
        }),
{
}

/// Every wait takes the time that the options give for it: the answer that of the
/// negotiation, the first candidate its own, gathering and opening that of the start.
pub proof fn law_waits_take_their_times<P, C, K>(dial: Negotiation<P, C, K>, action: DialAction<P, C, K>)
    requires
        dial.asks_for(action),
    ensures
        dial.state is AwaitAnswer ==> action == DialAction::<P, C, K>::AwaitSignal(dial.timeouts.negotiation),
        dial.state is AwaitCandidate ==> action == DialAction::<P, C, K>::AwaitCandidate(dial.timeouts.candidate),
        dial.state is Gathering ==> action == DialAction::<P, C, K>::AwaitGathering(dial.timeouts.start),
        (dial.state matches DialState::OpenReliable { link } ==> action == DialAction::<P, C, K>::AwaitOpen(
            &link.reliable,
            dial.timeouts.start,
        )),
        (dial.state matches DialState::OpenUnreliable { link } ==> action == DialAction::<P, C, K>::AwaitOpen(
            &link.unreliable,
            dial.timeouts.start,
        )),
        action matches DialAction::AwaitSignal(time) ==> time == dial.timeouts.negotiation && dial.state is AwaitAnswer,
        action matches DialAction::AwaitCandidate(time) ==> time == dial.timeouts.candidate
            && dial.state is AwaitCandidate,
        action matches DialAction::AwaitGathering(time) ==> time == dial.timeouts.start,
        action matches DialAction::AwaitOpen(_, time) ==> time == dial.timeouts.start,
{
}

/// A time runs while, and only while, a step of the wait for it is asked for or what
/// came in meanwhile is parsed.
pub proof fn law_times_run_with_the_waits<P, C, K>(dial: Negotiation<P, C, K>, action: DialAction<P, C, K>)
    requires
        dial.asks_for(action),
    ensures
        action is AwaitSignal ==> dial.state.wait() == Some(TimedWait::Answer),
        action is AwaitCandidate ==> dial.state.wait() == Some(TimedWait::Candidate),
        action is AwaitGathering ==> dial.state.wait() == Some(TimedWait::Gathering),
        dial.state is OpenReliable ==> dial.state.wait() == Some(TimedWait::ReliableOpen),
        dial.state is OpenUnreliable ==> dial.state.wait() == Some(TimedWait::UnreliableOpen),
        dial.state is ParseCandidate ==> dial.state.wait() == Some(TimedWait::Answer),
        dial.state is ParseFirstCandidate ==> dial.state.wait() == Some(TimedWait::Candidate),
        (dial.state.wait() is Some ==> {
            ||| action is AwaitSignal
            ||| action is AwaitCandidate
            ||| action is AwaitGathering
            ||| action is AwaitOpen
            ||| action is ParseCandidate
        }),
{
}

/// The time of a wait begins exactly where that wait stands and its time is not running
/// yet; what comes in meanwhile does not begin it anew.
pub proof fn law_running_time_is_not_begun_anew<P, C, K>(
    dial: Negotiation<P, C, K>,
    event: DialEvent<P, C, K>,
    after: Negotiation<P, C, K>,
    running: Option<TimedWait>,
)
    requires
        dial.leads_to(event, after),
    ensures
        dial.state is AwaitAnswer || dial.state is ParseCandidate ==> dial.state.begins_wait(running) == (running
            != Some(TimedWait::Answer)),
        dial.state is AwaitCandidate || dial.state is ParseFirstCandidate ==> dial.state.begins_wait(running) == (running
            != Some(TimedWait::Candidate)),
        (dial.state is AwaitAnswer || dial.state is ParseCandidate) && (after.state is AwaitAnswer
            || after.state is ParseCandidate) ==> !after.state.begins_wait(Some(TimedWait::Answer)),
        (dial.state is AwaitCandidate || dial.state is ParseFirstCandidate) && (after.state is AwaitCandidate
            || after.state is ParseFirstCandidate) ==> !after.state.begins_wait(Some(TimedWait::Candidate)),
        dial.state is Gathering ==> dial.state.begins_wait(running) == (running != Some(TimedWait::Gathering)),
        dial.state is OpenReliable ==> dial.state.begins_wait(running) == (running != Some(TimedWait::ReliableOpen)),
        dial.state is OpenUnreliable ==> dial.state.begins_wait(running) == (running != Some(
            TimedWait::UnreliableOpen,
        )),
{
}

/// The offer that is signaled has the text that the negotiation settled on, all of it.
pub proof fn law_offer_has_its_text<P, C, K>(dial: Negotiation<P, C, K>, action: DialAction<P, C, K>)
    requires
        dial.asks_for(action),
    ensures
        (dial.state matches DialState::SignalOffer { sdp, .. } ==> (action matches DialAction::SignalOffer(signal)
            && signal.data@ == sdp@ && signal.signal_type is Offer && signal.connection_id == dial.connection_id
            && signal.network_id@ == dial.remote_network_id@)),
        (dial.state matches DialState::ParseCandidate { data, .. } ==> (action matches DialAction::ParseCandidate(text)
            && text@ == data@)),
        (dial.state matches DialState::ParseFirstCandidate { data, .. } ==> (action matches DialAction::ParseCandidate(
            text,
        ) && text@ == data@)),
        (dial.state matches DialState::ReadLocalDescription { link } ==> (action matches
            DialAction::ReadLocalDescription(peer) && *peer == link.peer_connection)),
{
}

/// A step that fails ends the negotiation, with the error that it brought and the code
/// of that step; the other end is not told that the offer could not be sent.
pub proof fn law_failed_step_ends_the_dialing<P, C, K>(
    dial: Negotiation<P, C, K>,
    action: DialAction<P, C, K>,
    event: DialEvent<P, C, K>,
    after: Negotiation<P, C, K>,
)
    requires
        dial.asks_for(action),
        dial.leads_to(event, after),
    ensures
        (action is FetchCredentials ==> (event matches DialEvent::Credentials(Err(error)) ==> after.state
            == DialState::<P, C, K>::Failed {
            failure: Failure { code: Some(SignalErrorCode::SignalingTurnAuthFailed), error },
        })),
        (action is BuildPeerConnection ==> (event matches DialEvent::PeerConnection(Err(error)) ==> after.state
            == DialState::<P, C, K>::Failed {
            failure: Failure { code: Some(SignalErrorCode::FailedToCreatePeerConnection), error },
        })),
        (action is CreateReliableChannel || action is CreateUnreliableChannel ==> (event matches DialEvent::Channel(
            Err(error),
        ) ==> after.state == DialState::<P, C, K>::Failed {
            failure: Failure {
                code: Some(SignalErrorCode::FailedToCreatePeerConnection),
                error: NethernetError::WebRtc(error),
            },
        })),
        (action is CreateOffer ==> (event matches DialEvent::Offer(Err(error)) ==> after.state == DialState::<
            P,
            C,
            K,
        >::Failed {
            failure: Failure {
                code: Some(SignalErrorCode::FailedToCreateOffer),
                error: NethernetError::WebRtc(error),
            },
        })),
        (action is SetLocalDescription ==> (event matches DialEvent::LocalDescriptionSet { result: Err(error), .. }
            ==> after.state == DialState::<P, C, K>::Failed {
            failure: Failure {
                code: Some(SignalErrorCode::FailedToSetLocalDescription),
                error: NethernetError::WebRtc(error),
            },
        })),
        (action is AwaitGathering ==> (event matches DialEvent::Gathered(Err(error)) ==> after.state == DialState::<
            P,
            C,
            K,
        >::Failed { failure: Failure { code: Some(SignalErrorCode::FailedToCreateOffer), error } })),
        (action is ReadLocalDescription ==> event == DialEvent::<P, C, K>::LocalSdp(None) ==> (after.state matches
            DialState::Failed { failure } && failure.code == Some(SignalErrorCode::FailedToCreateOffer)
            && (failure.error matches NethernetError::InvalidState(text) && text@ == "missing local description"@))),
        (action is SignalOffer ==> (event matches DialEvent::OfferSignaled(Err(error)) ==> after.state == DialState::<
            P,
            C,
            K,
        >::Failed { failure: Failure { code: None, error } })),
        (action is SetRemoteDescription ==> (event matches DialEvent::RemoteDescriptionSet(Err(error)) ==> after.state
            == DialState::<P, C, K>::Failed {
            failure: Failure {
                code: Some(SignalErrorCode::FailedToSetRemoteDescription),
                error: NethernetError::WebRtc(error),
            },
        })),
        (action is AwaitOpen ==> (event matches DialEvent::ChannelOpen(Err(error)) ==> after.state == DialState::<
            P,
            C,
            K,
        >::Failed { failure: Failure { code: Some(SignalErrorCode::Ice), error } })),
{
}

/// A wait that runs out of time or of signals ends the negotiation.
pub proof fn law_wait_that_runs_out_ends_the_dialing<P, C, K>(
    dial: Negotiation<P, C, K>,
    action: DialAction<P, C, K>,
    event: DialEvent<P, C, K>,
    after: Negotiation<P, C, K>,
)
    requires
        dial.asks_for(action),
        dial.leads_to(event, after),
    ensures
        (action is AwaitSignal && event is AnswerTimedOut || action is AwaitCandidate && event is CandidateTimedOut
            ==> after.state == DialState::<P, C, K>::Failed {
            failure: Failure {
                code: Some(SignalErrorCode::NegotiationTimeoutWaitingForResponse),
                error: NethernetError::Timeout,
            },
        }),
        ((action is AwaitSignal || action is AwaitCandidate) && event is SignalsEnded ==> after.state == DialState::<
            P,
            C,
            K,
        >::Failed { failure: Failure { code: None, error: NethernetError::ConnectionClosed } }),
{
}

/// An event that is not the result of the step asked for changes nothing.
pub proof fn law_stray_event_changes_nothing<P, C, K>(
    dial: Negotiation<P, C, K>,
    action: DialAction<P, C, K>,
    event: DialEvent<P, C, K>,
    after: Negotiation<P, C, K>,
)
    requires
        dial.asks_for(action),
        dial.leads_to(event, after),
        (match action {
            DialAction::FetchCredentials => !(event is Credentials),
            DialAction::BuildPeerConnection(_) => !(event is PeerConnection),
            DialAction::CreateReliableChannel(_) => !(event is Channel),
            DialAction::CreateUnreliableChannel(_) => !(event is Channel),
            DialAction::CreateOffer(_) => !(event is Offer),
            DialAction::SetLocalDescription(_, _) => !(event is LocalDescriptionSet),
            DialAction::ForwardCandidates => !(event is Forwarding),
            DialAction::AwaitGathering(_) => !(event is Gathered),
            DialAction::ReadLocalDescription(_) => !(event is LocalSdp),
            DialAction::Subscribe => !(event is Subscribed),
            DialAction::SignalOffer(_) => !(event is OfferSignaled),
            DialAction::AwaitSignal(_) => !(event is Signal || event is SignalsEnded || event is AnswerTimedOut),
            DialAction::ParseCandidate(_) => !(event is CandidateParsed),
            DialAction::SetRemoteDescription(_, _) => !(event is RemoteDescriptionSet),
            DialAction::AwaitCandidate(_) => !(event is Signal || event is SignalsEnded || event is CandidateTimedOut),
            DialAction::AddCandidate(_, _) => !(event is CandidateAdded),
            DialAction::AwaitOpen(_, _) => !(event is ChannelOpen),
            DialAction::Finish => true,
        }),
    ensures
        after.state == dial.state,
{
}

/// A negotiation that stands has its session: open, over the peer connection and the
/// two channels of the connection, each of its kind, between this network and the
/// remote one. One that failed has its failure, and any other has no outcome.
pub proof fn law_dialing_comes_to_its_session<P, C, K>(
    dial: Negotiation<P, C, K>,
    local_network_id: String,
    outcome: Option<Result<Session<P, C>, Failure>>,
)
    requires
        dial.comes_to(local_network_id, outcome),
    ensures
        (dial.state matches DialState::Established { link } ==> {
            &&& outcome matches Some(Ok(session))
            &&& session@.peer_connection == link.peer_connection
            &&& session@.reliable_channel == Some(link.reliable)
            &&& session@.unreliable_channel == Some(link.unreliable)
            &&& session@.local.network_id@ == local_network_id@
            &&& session@.local.connection_id == Some(dial.connection_id)
            &&& session@.remote.network_id@ == dial.remote_network_id@
            &&& session@.remote.connection_id == Some(dial.connection_id)
            &&& !session@.closed
        }),
        (dial.state matches DialState::Failed { failure } ==> outcome == Some(Err::<Session<P, C>, Failure>(failure))),
        !(dial.state is Established) && !(dial.state is Failed) ==> outcome is None,
{
}

/// A finished negotiation asks for no step, and one that is not finished asks for one.
pub proof fn law_finished_dialing_asks_for_nothing<P, C, K>(dial: Negotiation<P, C, K>, action: DialAction<P, C, K>)
    requires
        dial.asks_for(action),
    ensures
        action is Finish <==> dial.state is Established || dial.state is Failed,
{
}

/// Along every course, the peer connection is built with the servers of the credentials
/// that were fetched for it: as many, in order, each with its addresses, user and
/// password; or with none, where there were no credentials.
pub proof fn law_dialing_uses_the_servers_fetched<P, C, K>(
    course: Course<P, C, K>,
    dial: Negotiation<P, C, K>,
    given: Option<&Credentials>,
)
    requires
        course.valid(),
        dial.state == course.states.last(),
        dial.asks_for(DialAction::<P, C, K>::BuildPeerConnection(given)),
    ensures
        (exists|at: int|
            0 <= at < course.events.len() && (#[trigger] course.events[at] matches DialEvent::Credentials(Ok(fetched)) && match fetched {
                Some(credentials) => given matches Some(used) && used.ice_servers@ == credentials.ice_servers@,
                None => given is None,
            })),
    decreases course.events.len(),
{
    let n = course.events.len() - 1;
    if n >= 0 {
        assert(course.states[n].follows(
            course.connection_id,
            course.remote_network_id,
            course.events[n],
            course.states[n + 1],
        ));
        if course.states[n] is PeerConnection {
            let shorter = course.shorter();
            crate::transport::negotiation::lemma_last_step(course);
            law_dialing_uses_the_servers_fetched(shorter, Negotiation { state: shorter.states.last(), ..dial }, given);
            let at = choose|at: int|
                0 <= at < shorter.events.len() && (#[trigger] shorter.events[at] matches DialEvent::Credentials(Ok(fetched)) && match fetched {
                    Some(credentials) => given matches Some(used) && used.ice_servers@ == credentials.ice_servers@,
                    None => given is None,
                });
            assert(course.events[at] == shorter.events[at]);
        } else {
            assert(course.events[n] is Credentials);
        }
    }
}

} // verus!
