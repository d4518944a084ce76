use nethernet::error::{NethernetError, SignalErrorCode};
use nethernet::signal::{Signal, SignalType};
use nethernet::transport::description::names_candidate;
use nethernet::transport::negotiation::{DialAction, DialEvent, DialState, Negotiation, TimedWait};
use nethernet::transport::{Credentials, Failure, Link, LocalDescription, Timeouts};
use webrtc::error::Error;
use webrtc::peer_connection::RTCSessionDescription;

type Dial = Negotiation<u8, &'static str, u16>;
type Event = DialEvent<u8, &'static str, u16>;

const SDP: &str = "v=0\r\no=- 1 1 IN IP4 127.0.0.1\r\ns=-\r\nt=0 0\r\n";
const SDP_WITH_CANDIDATE: &str = "v=0\r\no=- 1 1 IN IP4 127.0.0.1\r\ns=-\r\nt=0 0\r\n\
    m=application 9 UDP/DTLS/SCTP webrtc-datachannel\r\n\
    a=candidate:1 1 udp 2130706431 127.0.0.1 4000 typ host\r\n";

fn start() -> Dial {
    Negotiation::new(7, "remote".to_string(), Timeouts::default())
}

fn run(events: Vec<Event>) -> Dial {
    let mut negotiation = start();
    for event in events {
        negotiation = negotiation.negotiate(event);
    }
    negotiation
}

fn described(sdp: &str) -> LocalDescription {
    LocalDescription {
        description: RTCSessionDescription::offer(SDP.to_string()).unwrap(),
        sdp: sdp.to_string(),
    }
}

fn until_offer_created() -> Vec<Event> {
    vec![
        DialEvent::Credentials(Ok(None)),
        DialEvent::PeerConnection(Ok(1)),
        DialEvent::Channel(Ok("r")),
        DialEvent::Channel(Ok("u")),
        DialEvent::Offer(Ok(described("offer"))),
    ]
}

fn until_answer_awaited() -> Vec<Event> {
    let mut events = until_offer_created();
    events.push(DialEvent::LocalDescriptionSet { result: Ok(()), disable_trickle_ice: false });
    events.push(DialEvent::Forwarding);
    events.push(DialEvent::Subscribed);
    events.push(DialEvent::OfferSignaled(Ok(())));
    events
}

fn signal(signal_type: SignalType, data: &str) -> Event {
    DialEvent::Signal(Signal {
        signal_type,
        connection_id: 7,
        data: data.to_string(),
        network_id: "remote".to_string(),
    })
}

fn failure(negotiation: Dial) -> Failure {
    negotiation.finish("local".to_string()).unwrap().err().unwrap()
}

fn code(negotiation: Dial) -> Option<SignalErrorCode> {
    failure(negotiation).code
}

#[test]
fn negotiation_reaches_a_session() {
    let mut events = until_answer_awaited();
    events.push(signal(SignalType::Candidate, "c1"));
    events.push(DialEvent::CandidateParsed(Some(11)));
    events.push(signal(SignalType::Candidate, "junk"));
    events.push(DialEvent::CandidateParsed(None));
    events.push(signal(SignalType::Candidate, "c2"));
    events.push(DialEvent::CandidateParsed(Some(12)));
    events.push(signal(SignalType::Answer, SDP));
    events.push(DialEvent::RemoteDescriptionSet(Ok(())));
    let negotiation = run(events);
    assert!(matches!(negotiation.action(), DialAction::AddCandidate(1, 11)));
    let negotiation = negotiation.negotiate(DialEvent::CandidateAdded);
    assert!(matches!(negotiation.action(), DialAction::AddCandidate(1, 12)));
    let negotiation = negotiation.negotiate(DialEvent::CandidateAdded);
    let timeouts = Timeouts::default();
    assert!(matches!(negotiation.action(), DialAction::AwaitOpen(channel, time) if *channel == "r" && time == timeouts.start));
    let negotiation = negotiation.negotiate(DialEvent::ChannelOpen(Ok(())));
    assert!(matches!(negotiation.action(), DialAction::AwaitOpen(channel, time) if *channel == "u" && time == timeouts.start));
    let negotiation = negotiation.negotiate(DialEvent::ChannelOpen(Ok(())));
    assert!(matches!(negotiation.action(), DialAction::Finish));
    let session = negotiation.finish("local".to_string()).unwrap().ok().unwrap();
    assert_eq!(*session.peer_connection(), 1);
    assert_eq!(session.reliable_channel(), Some(&"r"));
    assert_eq!(session.unreliable_channel(), Some(&"u"));
    assert_eq!(session.local_addr().network_id, "local");
    assert_eq!(session.local_addr().connection_id, Some(7));
    assert_eq!(session.remote_addr().network_id, "remote");
    assert_eq!(session.remote_addr().connection_id, Some(7));
    assert!(!session.is_closed());
}

fn until_candidate_awaited() -> Vec<Event> {
    let mut events = until_answer_awaited();
    events.push(signal(SignalType::Answer, SDP));
    events.push(DialEvent::RemoteDescriptionSet(Ok(())));
    events
}

#[test]
fn answer_with_a_candidate_goes_straight_on() {
    let mut events = until_answer_awaited();
    events.push(signal(SignalType::Answer, SDP_WITH_CANDIDATE));
    events.push(DialEvent::RemoteDescriptionSet(Ok(())));
    assert!(matches!(run(events).state, DialState::OpenReliable { .. }));
}

#[test]
fn first_candidate_is_waited_for() {
    let negotiation = run(until_candidate_awaited());
    assert!(matches!(negotiation.action(), DialAction::AwaitCandidate(time) if time == Timeouts::default().candidate));
    let negotiation = negotiation.negotiate(signal(SignalType::Candidate, "junk"));
    assert!(matches!(negotiation.action(), DialAction::ParseCandidate(data) if data == "junk"));
    let negotiation = negotiation.negotiate(DialEvent::CandidateParsed(None));
    assert!(matches!(negotiation.state, DialState::AwaitCandidate { .. }));
    let negotiation = negotiation.negotiate(signal(SignalType::Candidate, "c1"));
    let negotiation = negotiation.negotiate(DialEvent::CandidateParsed(Some(11)));
    assert!(matches!(negotiation.action(), DialAction::AddCandidate(1, 11)));
    let negotiation = negotiation.negotiate(DialEvent::CandidateAdded);
    assert!(matches!(negotiation.state, DialState::OpenReliable { .. }));
}

#[test]
fn missing_candidate_is_a_timeout() {
    let mut events = until_candidate_awaited();
    events.push(DialEvent::CandidateTimedOut);
    let failed = failure(run(events));
    assert_eq!(failed.code, Some(SignalErrorCode::NegotiationTimeoutWaitingForResponse));
    assert!(matches!(failed.error, NethernetError::Timeout));
}

#[test]
fn wait_for_a_candidate_ends_with_an_error_or_the_signals() {
    let mut events = until_candidate_awaited();
    events.push(signal(SignalType::Error, "25"));
    let failed = failure(run(events));
    assert_eq!(failed.code, None);
    assert!(matches!(failed.error, NethernetError::Signaled(SignalErrorCode::Code(25))));
    let mut events = until_candidate_awaited();
    events.push(DialEvent::SignalsEnded);
    let failed = failure(run(events));
    assert_eq!(failed.code, None);
    assert!(matches!(failed.error, NethernetError::ConnectionClosed));
}

#[test]
fn other_signals_do_not_end_the_wait_for_a_candidate() {
    let mut events = until_candidate_awaited();
    events.push(signal(SignalType::Offer, SDP));
    events.push(signal(SignalType::Answer, SDP));
    events.push(DialEvent::AnswerTimedOut);
    events.push(DialEvent::Signal(Signal::candidate(8, "c1".to_string(), "remote".to_string())));
    events.push(DialEvent::Signal(Signal::candidate(7, "c1".to_string(), "elsewhere".to_string())));
    assert!(matches!(run(events).state, DialState::AwaitCandidate { .. }));
}

#[test]
fn candidates_are_named_by_lines_of_a_description() {
    assert!(names_candidate(SDP_WITH_CANDIDATE));
    assert!(names_candidate("a=candidate:"));
    assert!(!names_candidate(SDP));
    assert!(!names_candidate(""));
    assert!(!names_candidate("a=candidate"));
    assert!(!names_candidate("s=a=candidate:1\r\n"));
    assert!(!names_candidate("a=end-of-candidates\r\n"));
    assert!(names_candidate("s=\u{e9}\na=candidate:1"));
}

#[test]
fn time_of_a_wait_begins_once() {
    let negotiation = run(until_answer_awaited());
    assert_eq!(negotiation.wait(), Some(TimedWait::Answer));
    assert!(negotiation.begins_wait(None));
    assert!(negotiation.begins_wait(Some(TimedWait::Gathering)));
    let running = negotiation.wait();
    let negotiation = negotiation.negotiate(signal(SignalType::Candidate, "c1"));
    assert!(!negotiation.begins_wait(running));
    let negotiation = negotiation.negotiate(DialEvent::CandidateParsed(None));
    assert!(!negotiation.begins_wait(running));
    let negotiation = negotiation.negotiate(signal(SignalType::Answer, SDP));
    assert_eq!(negotiation.wait(), None);
    assert!(!negotiation.begins_wait(running));
    let negotiation = negotiation.negotiate(DialEvent::RemoteDescriptionSet(Ok(())));
    assert_eq!(negotiation.wait(), Some(TimedWait::Candidate));
    assert!(negotiation.begins_wait(running));
    let running = negotiation.wait();
    let negotiation = negotiation.negotiate(signal(SignalType::Candidate, "c1"));
    assert!(!negotiation.begins_wait(running));
}

#[test]
fn negotiation_asks_for_its_steps_in_order() {
    let negotiation = start();
    assert!(matches!(negotiation.action(), DialAction::FetchCredentials));
    let credentials = Credentials { ice_servers: vec![] };
    let negotiation = negotiation.negotiate(DialEvent::Credentials(Ok(Some(credentials))));
    assert!(matches!(negotiation.action(), DialAction::BuildPeerConnection(Some(_))));
    let negotiation = negotiation.negotiate(DialEvent::PeerConnection(Ok(1)));
    assert!(matches!(negotiation.action(), DialAction::CreateReliableChannel(1)));
    let negotiation = negotiation.negotiate(DialEvent::Channel(Ok("r")));
    assert!(matches!(negotiation.action(), DialAction::CreateUnreliableChannel(1)));
    let negotiation = negotiation.negotiate(DialEvent::Channel(Ok("u")));
    assert!(matches!(negotiation.action(), DialAction::CreateOffer(1)));
    let negotiation = negotiation.negotiate(DialEvent::Offer(Ok(described("offer"))));
    assert!(matches!(negotiation.action(), DialAction::SetLocalDescription(1, offer) if offer.sdp == SDP));
    let negotiation =
        negotiation.negotiate(DialEvent::LocalDescriptionSet { result: Ok(()), disable_trickle_ice: false });
    assert!(matches!(negotiation.action(), DialAction::ForwardCandidates));
    let negotiation = negotiation.negotiate(DialEvent::Forwarding);
    assert!(matches!(negotiation.action(), DialAction::Subscribe));
    let negotiation = negotiation.negotiate(DialEvent::Subscribed);
    assert!(matches!(
        negotiation.action(),
        DialAction::SignalOffer(Signal { signal_type: SignalType::Offer, connection_id: 7, data, network_id })
            if data == "offer" && network_id == "remote"
    ));
    let negotiation = negotiation.negotiate(DialEvent::OfferSignaled(Ok(())));
    assert!(matches!(negotiation.action(), DialAction::AwaitSignal(time) if time == Timeouts::default().negotiation));
    let negotiation = negotiation.negotiate(signal(SignalType::Candidate, "c1"));
    assert!(matches!(negotiation.action(), DialAction::ParseCandidate(data) if data == "c1"));
    let negotiation = negotiation.negotiate(DialEvent::CandidateParsed(None));
    let negotiation = negotiation.negotiate(signal(SignalType::Answer, SDP));
    assert!(matches!(negotiation.action(), DialAction::SetRemoteDescription(1, answer) if answer.sdp == SDP));
}

#[test]
fn without_trickling_the_gathered_description_is_signaled() {
    let mut events = until_offer_created();
    events.push(DialEvent::LocalDescriptionSet { result: Ok(()), disable_trickle_ice: true });
    let negotiation = run(events);
    assert!(matches!(negotiation.action(), DialAction::AwaitGathering(time) if time == Timeouts::default().start));
    let negotiation = negotiation.negotiate(DialEvent::Gathered(Ok(())));
    assert!(matches!(negotiation.action(), DialAction::ReadLocalDescription(1)));
    let negotiation = negotiation.negotiate(DialEvent::LocalSdp(Some("gathered".to_string())));
    let negotiation = negotiation.negotiate(DialEvent::Subscribed);
    assert!(matches!(negotiation.action(), DialAction::SignalOffer(signal) if signal.data == "gathered"));
}

#[test]
fn each_failed_step_has_its_code() {
    let mut events = vec![];
    let missing = || NethernetError::Timeout;
    assert_eq!(
        code(start().negotiate(DialEvent::Credentials(Err(missing())))),
        Some(SignalErrorCode::SignalingTurnAuthFailed)
    );
    events.push(DialEvent::Credentials(Ok(None)));
    let negotiation = run(events).negotiate(DialEvent::PeerConnection(Err(missing())));
    assert_eq!(code(negotiation), Some(SignalErrorCode::FailedToCreatePeerConnection));
    for channels in 0..2 {
        let mut events = until_offer_created();
        events.truncate(2 + channels);
        events.push(DialEvent::Channel(Err(Error::ErrConnectionClosed)));
        let failed = failure(run(events));
        assert_eq!(failed.code, Some(SignalErrorCode::FailedToCreatePeerConnection));
        assert!(matches!(failed.error, NethernetError::WebRtc(Error::ErrConnectionClosed)));
    }
    let mut events = until_offer_created();
    events.pop();
    events.push(DialEvent::Offer(Err(Error::ErrConnectionClosed)));
    assert_eq!(code(run(events)), Some(SignalErrorCode::FailedToCreateOffer));
    for disable_trickle_ice in [false, true] {
        let mut events = until_offer_created();
        events.push(DialEvent::LocalDescriptionSet {
            result: Err(Error::ErrConnectionClosed),
            disable_trickle_ice,
        });
        assert_eq!(code(run(events)), Some(SignalErrorCode::FailedToSetLocalDescription));
    }
}

#[test]
fn failed_gathering_is_a_failed_offer() {
    let mut events = until_offer_created();
    events.push(DialEvent::LocalDescriptionSet { result: Ok(()), disable_trickle_ice: true });
    events.push(DialEvent::Gathered(Err(NethernetError::Timeout)));
    let failed = failure(run(events));
    assert_eq!(failed.code, Some(SignalErrorCode::FailedToCreateOffer));
    assert!(matches!(failed.error, NethernetError::Timeout));
}

#[test]
fn missing_local_description_is_a_failed_offer() {
    let mut events = until_offer_created();
    events.push(DialEvent::LocalDescriptionSet { result: Ok(()), disable_trickle_ice: true });
    events.push(DialEvent::Gathered(Ok(())));
    events.push(DialEvent::LocalSdp(None));
    let failed = failure(run(events));
    assert_eq!(failed.code, Some(SignalErrorCode::FailedToCreateOffer));
    assert!(matches!(failed.error, NethernetError::InvalidState(text) if text == "missing local description"));
}

#[test]
fn offer_that_cannot_be_signaled_fails_silently() {
    let mut events = until_answer_awaited();
    events.pop();
    events.push(DialEvent::OfferSignaled(Err(NethernetError::ConnectionClosed)));
    let failed = failure(run(events));
    assert_eq!(failed.code, None);
    assert!(matches!(failed.error, NethernetError::ConnectionClosed));
}

#[test]
fn end_of_signals_fails_silently() {
    let mut events = until_answer_awaited();
    events.push(DialEvent::SignalsEnded);
    let failed = failure(run(events));
    assert_eq!(failed.code, None);
    assert!(matches!(failed.error, NethernetError::ConnectionClosed));
}

#[test]
fn late_answer_is_a_timeout() {
    let mut events = until_answer_awaited();
    events.push(DialEvent::AnswerTimedOut);
    let failed = failure(run(events));
    assert_eq!(failed.code, Some(SignalErrorCode::NegotiationTimeoutWaitingForResponse));
    assert!(matches!(failed.error, NethernetError::Timeout));
}

#[test]
fn signaled_error_fails_silently() {
    let mut events = until_answer_awaited();
    events.push(signal(SignalType::Error, " 25 "));
    let failed = failure(run(events));
    assert_eq!(failed.code, None);
    assert!(matches!(failed.error, NethernetError::Signaled(SignalErrorCode::Code(25))));
    let mut events = until_answer_awaited();
    events.push(signal(SignalType::Error, "broken"));
    let failed = failure(run(events));
    assert!(matches!(failed.error, NethernetError::Signaled(SignalErrorCode::SignalingUnknownError)));
}

#[test]
fn crossing_offer_is_refused() {
    let mut events = until_answer_awaited();
    events.push(signal(SignalType::Offer, SDP));
    let failed = failure(run(events));
    assert_eq!(failed.code, Some(SignalErrorCode::IncomingConnectionIgnored));
    let report = failed.signal_error(7, "remote".to_string()).unwrap();
    assert_eq!(report.code, SignalErrorCode::IncomingConnectionIgnored);
    assert!(matches!(failed.error, NethernetError::Other(text) if text == "received offer while dialing"));
}

#[test]
fn unreadable_answer_is_refused() {
    let mut events = until_answer_awaited();
    events.push(signal(SignalType::Answer, "not a description"));
    let failed = failure(run(events));
    assert_eq!(failed.code, Some(SignalErrorCode::FailedToSetRemoteDescription));
    assert!(matches!(failed.error, NethernetError::WebRtc(_)));
}

#[test]
fn parsed_answer_decides_what_follows() {
    let link = || Link { peer_connection: 1u8, reliable: "r", unreliable: "u" };
    let answer = RTCSessionDescription::answer(SDP.to_string()).unwrap();
    let state = DialState::answer_parsed(link(), vec![3u16], true, Ok(answer));
    assert!(matches!(
        state,
        DialState::SetRemoteDescription { answer, candidates, holds_candidate: true, .. }
            if answer.sdp == SDP && candidates == [3]
    ));
    let refused = Err(Error::ErrConnectionClosed);
    let state = DialState::<u8, &'static str, u16>::answer_parsed(link(), vec![], false, refused);
    assert!(matches!(
        state,
        DialState::Failed {
            failure: Failure {
                code: Some(SignalErrorCode::FailedToSetRemoteDescription),
                error: NethernetError::WebRtc(Error::ErrConnectionClosed),
            }
        }
    ));
}

#[test]
fn refused_remote_description_fails() {
    let mut events = until_answer_awaited();
    events.push(signal(SignalType::Answer, SDP));
    events.push(DialEvent::RemoteDescriptionSet(Err(Error::ErrConnectionClosed)));
    let failed = failure(run(events));
    assert_eq!(failed.code, Some(SignalErrorCode::FailedToSetRemoteDescription));
    assert!(matches!(failed.error, NethernetError::WebRtc(Error::ErrConnectionClosed)));
}

#[test]
fn channel_that_does_not_open_is_an_ice_failure() {
    for opened in 0..2 {
        let mut events = until_answer_awaited();
        events.push(signal(SignalType::Answer, SDP_WITH_CANDIDATE));
        events.push(DialEvent::RemoteDescriptionSet(Ok(())));
        for _ in 0..opened {
            events.push(DialEvent::ChannelOpen(Ok(())));
        }
        events.push(DialEvent::ChannelOpen(Err(NethernetError::Timeout)));
        let failed = failure(run(events));
        assert_eq!(failed.code, Some(SignalErrorCode::Ice));
        assert!(matches!(failed.error, NethernetError::Timeout));
    }
}

#[test]
fn signals_of_other_connections_are_ignored() {
    let others = [(8, "remote"), (7, "elsewhere")];
    let kinds = [SignalType::Offer, SignalType::Answer, SignalType::Candidate, SignalType::Error];
    let mut negotiation = run(until_answer_awaited());
    for (connection_id, network_id) in others {
        for signal_type in kinds {
            negotiation = negotiation.negotiate(DialEvent::Signal(Signal {
                signal_type,
                connection_id,
                data: SDP.to_string(),
                network_id: network_id.to_string(),
            }));
            assert!(matches!(&negotiation.state, DialState::AwaitAnswer { candidates, .. } if candidates.is_empty()));
        }
    }
}

#[test]
fn unexpected_event_changes_nothing() {
    let negotiation = start().negotiate(DialEvent::AnswerTimedOut);
    assert!(matches!(negotiation.state, DialState::Credentials));
    let negotiation = negotiation.negotiate(DialEvent::Credentials(Ok(None)));
    let negotiation = negotiation.negotiate(DialEvent::Credentials(Err(NethernetError::Timeout)));
    assert!(matches!(negotiation.state, DialState::PeerConnection { credentials: None }));
}

#[test]
fn outcome_is_final() {
    let mut events = until_answer_awaited();
    events.push(DialEvent::SignalsEnded);
    events.push(DialEvent::AnswerTimedOut);
    events.push(signal(SignalType::Answer, SDP));
    let negotiation = run(events);
    assert!(matches!(negotiation.action(), DialAction::Finish));
    assert_eq!(code(negotiation), None);
}

#[test]
fn unfinished_negotiation_has_no_outcome() {
    assert!(start().finish("local".to_string()).is_none());
    assert!(run(until_answer_awaited()).finish("local".to_string()).is_none());
}

#[test]
fn one_offer_is_signaled_after_subscribing() {
    let mut events = until_answer_awaited();
    let signaled = events.pop().unwrap();
    let mut offers = 0;
    let mut subscriptions = 0;
    let mut negotiation = start();
    for event in events {
        subscriptions += usize::from(matches!(negotiation.action(), DialAction::Subscribe));
        assert!(!matches!(negotiation.action(), DialAction::SignalOffer(_)));
        negotiation = negotiation.negotiate(event);
    }
    for event in [signaled, DialEvent::OfferSignaled(Ok(())), DialEvent::Subscribed] {
        offers += usize::from(matches!(negotiation.action(), DialAction::SignalOffer(_)));
        assert!(!matches!(negotiation.action(), DialAction::Subscribe));
        negotiation = negotiation.negotiate(event);
    }
    assert_eq!((subscriptions, offers), (1, 1));
    assert!(matches!(negotiation.state, DialState::AwaitAnswer { .. }));
}
