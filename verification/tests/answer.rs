use nethernet::error::{NethernetError, SignalErrorCode};
use nethernet::signal::{Signal, SignalType};
use nethernet::transport::answer::{session_delivered, AnswerAction, AnswerEvent, AnswerState, Answering};
use nethernet::transport::{Credentials, Failure, LocalDescription, Timeouts};
use webrtc::error::Error;
use webrtc::peer_connection::RTCSessionDescription;

type Answer = Answering<u8, &'static str>;
type Event = AnswerEvent<u8, &'static str>;

const SDP: &str = "v=0\r\no=- 1 1 IN IP4 127.0.0.1\r\ns=-\r\nt=0 0\r\n";

fn start(sdp: &str) -> Answer {
    let offer = Signal::offer(7, sdp.to_string(), "remote".to_string());
    Answering::new(offer, Timeouts::default())
}

fn run(events: Vec<Event>) -> Answer {
    let mut answering = start(SDP);
    for event in events {
        answering = answering.answer_offer(event);
    }
    answering
}

fn described(sdp: &str) -> LocalDescription {
    LocalDescription {
        description: RTCSessionDescription::answer(SDP.to_string()).unwrap(),
        sdp: sdp.to_string(),
    }
}

fn until_answer_created() -> Vec<Event> {
    vec![
        AnswerEvent::Credentials(Ok(None)),
        AnswerEvent::PeerConnection(Ok(1)),
        AnswerEvent::RemoteDescriptionSet(Ok(())),
        AnswerEvent::Answer(Ok(described("answer"))),
    ]
}

fn until_answer_signaled() -> Vec<Event> {
    let mut events = until_answer_created();
    events.push(AnswerEvent::LocalDescriptionSet { result: Ok(()), disable_trickle_ice: false });
    events.push(AnswerEvent::Forwarding);
    events.push(AnswerEvent::Watching);
    events.push(AnswerEvent::AnswerSignaled(Ok(())));
    events
}

fn failure(answering: Answer) -> Failure {
    answering.finish("local".to_string()).unwrap().err().unwrap()
}

#[test]
fn answer_reaches_a_session() {
    let mut events = until_answer_signaled();
    events.push(AnswerEvent::Channels(Ok(("r", "u"))));
    events.push(AnswerEvent::ChannelOpen(Ok(())));
    events.push(AnswerEvent::ChannelOpen(Ok(())));
    let answering = run(events);
    assert!(matches!(answering.action(), AnswerAction::Finish));
    let session = answering.finish("local".to_string()).unwrap().ok().unwrap();
    assert_eq!(*session.peer_connection(), 1);
    assert_eq!(session.reliable_channel(), Some(&"r"));
    assert_eq!(session.unreliable_channel(), Some(&"u"));
    assert_eq!(session.local_addr().network_id, "local");
    assert_eq!(session.remote_addr().network_id, "remote");
    assert_eq!(session.remote_addr().connection_id, Some(7));
    assert!(!session.is_closed());
}

#[test]
fn answer_asks_for_its_steps_in_order() {
    let timeouts = Timeouts::default();
    let answering = start(SDP);
    assert!(matches!(answering.action(), AnswerAction::FetchCredentials));
    let credentials = Credentials { ice_servers: vec![] };
    let answering = answering.answer_offer(AnswerEvent::Credentials(Ok(Some(credentials))));
    assert!(matches!(answering.action(), AnswerAction::BuildPeerConnection(Some(_))));
    let answering = answering.answer_offer(AnswerEvent::PeerConnection(Ok(1)));
    assert!(matches!(answering.action(), AnswerAction::SetRemoteDescription(1, offer) if offer.sdp == SDP));
    let answering = answering.answer_offer(AnswerEvent::RemoteDescriptionSet(Ok(())));
    assert!(matches!(answering.action(), AnswerAction::CreateAnswer(1)));
    let answering = answering.answer_offer(AnswerEvent::Answer(Ok(described("answer"))));
    assert!(matches!(answering.action(), AnswerAction::SetLocalDescription(1, answer) if answer.sdp == SDP));
    let answering =
        answering.answer_offer(AnswerEvent::LocalDescriptionSet { result: Ok(()), disable_trickle_ice: false });
    assert!(matches!(answering.action(), AnswerAction::ForwardCandidates));
    let answering = answering.answer_offer(AnswerEvent::Forwarding);
    assert!(matches!(answering.action(), AnswerAction::WatchSignals(1)));
    let answering = answering.answer_offer(AnswerEvent::Watching);
    assert!(matches!(
        answering.action(),
        AnswerAction::SignalAnswer(Signal { signal_type: SignalType::Answer, connection_id: 7, data, network_id })
            if data == "answer" && network_id == "remote"
    ));
    let answering = answering.answer_offer(AnswerEvent::AnswerSignaled(Ok(())));
    assert!(matches!(answering.action(), AnswerAction::AwaitChannels(time) if time == timeouts.channel));
    let answering = answering.answer_offer(AnswerEvent::Channels(Ok(("r", "u"))));
    assert!(matches!(answering.action(), AnswerAction::AwaitOpen(channel, time) if *channel == "r" && time == timeouts.channel));
    let answering = answering.answer_offer(AnswerEvent::ChannelOpen(Ok(())));
    assert!(matches!(answering.action(), AnswerAction::AwaitOpen(channel, time) if *channel == "u" && time == timeouts.channel));
}

#[test]
fn without_trickling_the_gathered_answer_is_signaled() {
    let mut events = until_answer_created();
    events.push(AnswerEvent::LocalDescriptionSet { result: Ok(()), disable_trickle_ice: true });
    let answering = run(events);
    assert!(matches!(answering.action(), AnswerAction::AwaitGathering(time) if time == Timeouts::default().start));
    let answering = answering.answer_offer(AnswerEvent::Gathered(Ok(())));
    assert!(matches!(answering.action(), AnswerAction::ReadLocalDescription(1)));
    let answering = answering.answer_offer(AnswerEvent::LocalSdp(Some("gathered".to_string())));
    let answering = answering.answer_offer(AnswerEvent::Watching);
    assert!(matches!(answering.action(), AnswerAction::SignalAnswer(signal) if signal.data == "gathered"));
}

#[test]
fn unreadable_offer_is_refused() {
    let answering = start("not a description");
    assert!(matches!(answering.action(), AnswerAction::Finish));
    let failed = failure(answering);
    assert_eq!(failed.code, Some(SignalErrorCode::FailedToSetRemoteDescription));
    assert!(matches!(failed.error, NethernetError::WebRtc(_)));
}

#[test]
fn parsed_offer_decides_where_the_answer_begins() {
    let offer = RTCSessionDescription::offer(SDP.to_string()).unwrap();
    let state = AnswerState::<u8, u8>::offer_parsed(Ok(offer));
    assert!(matches!(state, AnswerState::Credentials { offer } if offer.sdp == SDP));
    let state = AnswerState::<u8, u8>::offer_parsed(Err(Error::ErrConnectionClosed));
    assert!(matches!(
        state,
        AnswerState::Failed {
            failure: Failure {
                code: Some(SignalErrorCode::FailedToSetRemoteDescription),
                error: NethernetError::WebRtc(Error::ErrConnectionClosed),
            }
        }
    ));
}

#[test]
fn each_failed_step_of_an_answer_has_its_code() {
    let closed = || Error::ErrConnectionClosed;
    let cases: Vec<(usize, Event, SignalErrorCode)> = vec![
        (0, AnswerEvent::Credentials(Err(NethernetError::Timeout)), SignalErrorCode::SignalingTurnAuthFailed),
        (1, AnswerEvent::PeerConnection(Err(NethernetError::Timeout)), SignalErrorCode::FailedToCreatePeerConnection),
        (2, AnswerEvent::RemoteDescriptionSet(Err(closed())), SignalErrorCode::FailedToSetRemoteDescription),
        (3, AnswerEvent::Answer(Err(closed())), SignalErrorCode::FailedToCreateAnswer),
        (
            4,
            AnswerEvent::LocalDescriptionSet { result: Err(closed()), disable_trickle_ice: false },
            SignalErrorCode::FailedToSetLocalDescription,
        ),
        (
            8,
            AnswerEvent::Channels(Err(NethernetError::Timeout)),
            SignalErrorCode::NegotiationTimeoutWaitingForAccept,
        ),
    ];
    for (steps, event, code) in cases {
        let mut events = until_answer_signaled();
        events.truncate(steps);
        events.push(event);
        assert_eq!(failure(run(events)).code, Some(code));
    }
}

#[test]
fn failed_gathering_is_a_failed_answer() {
    let mut events = until_answer_created();
    events.push(AnswerEvent::LocalDescriptionSet { result: Ok(()), disable_trickle_ice: true });
    events.push(AnswerEvent::Gathered(Err(NethernetError::Timeout)));
    let failed = failure(run(events));
    assert_eq!(failed.code, Some(SignalErrorCode::FailedToCreateAnswer));
    assert!(matches!(failed.error, NethernetError::Timeout));
}

#[test]
fn missing_local_description_is_a_failed_answer() {
    let mut events = until_answer_created();
    events.push(AnswerEvent::LocalDescriptionSet { result: Ok(()), disable_trickle_ice: true });
    events.push(AnswerEvent::Gathered(Ok(())));
    events.push(AnswerEvent::LocalSdp(None));
    let failed = failure(run(events));
    assert_eq!(failed.code, Some(SignalErrorCode::FailedToCreateAnswer));
    assert!(matches!(failed.error, NethernetError::InvalidState(text) if text == "missing local description"));
}

#[test]
fn answer_that_cannot_be_signaled_fails_silently() {
    let mut events = until_answer_signaled();
    events.pop();
    events.push(AnswerEvent::AnswerSignaled(Err(NethernetError::Timeout)));
    let failed = failure(run(events));
    assert_eq!(failed.code, None);
    assert!(matches!(failed.error, NethernetError::Timeout));
}

#[test]
fn channel_that_does_not_open_fails_the_answer() {
    for opened in 0..2 {
        let mut events = until_answer_signaled();
        events.push(AnswerEvent::Channels(Ok(("r", "u"))));
        for _ in 0..opened {
            events.push(AnswerEvent::ChannelOpen(Ok(())));
        }
        events.push(AnswerEvent::ChannelOpen(Err(NethernetError::ConnectionClosed)));
        let failed = failure(run(events));
        assert_eq!(failed.code, Some(SignalErrorCode::NegotiationTimeoutWaitingForAccept));
        assert!(matches!(failed.error, NethernetError::ConnectionClosed));
    }
}

#[test]
fn failed_answer_is_final() {
    let answering = start("not a description").answer_offer(AnswerEvent::Credentials(Ok(None)));
    assert_eq!(failure(answering).code, Some(SignalErrorCode::FailedToSetRemoteDescription));
}

#[test]
fn unexpected_event_does_not_change_an_answer() {
    let answering = start(SDP).answer_offer(AnswerEvent::ChannelOpen(Err(NethernetError::Timeout)));
    assert!(matches!(answering.state, AnswerState::Credentials { .. }));
    assert!(answering.finish("local".to_string()).is_none());
}

#[test]
fn session_that_nobody_accepts_fails_silently() {
    assert!(session_delivered(true).is_ok());
    let failed = session_delivered(false).unwrap_err();
    assert_eq!(failed.code, None);
    assert!(matches!(failed.error, NethernetError::ConnectionClosed));
}

#[test]
fn cancelled_answer_gives_no_session() {
    for steps in 0..=8 {
        let mut events = until_answer_signaled();
        events.truncate(steps);
        events.push(AnswerEvent::Cancelled);
        events.push(AnswerEvent::Channels(Ok(("r", "u"))));
        events.push(AnswerEvent::ChannelOpen(Ok(())));
        let failed = failure(run(events));
        assert_eq!(failed.code, None);
        assert!(matches!(failed.error, NethernetError::ConnectionClosed));
    }
}

#[test]
fn finished_answer_is_not_cancelled() {
    let mut events = until_answer_signaled();
    events.push(AnswerEvent::Channels(Ok(("r", "u"))));
    events.push(AnswerEvent::ChannelOpen(Ok(())));
    events.push(AnswerEvent::ChannelOpen(Ok(())));
    events.push(AnswerEvent::Cancelled);
    assert!(matches!(run(events).state, AnswerState::Established { .. }));
    let refused = start("not a description").answer_offer(AnswerEvent::Cancelled);
    assert_eq!(failure(refused).code, Some(SignalErrorCode::FailedToSetRemoteDescription));
}

#[test]
fn one_answer_is_signaled() {
    let mut events = until_answer_signaled();
    events.push(AnswerEvent::AnswerSignaled(Ok(())));
    events.push(AnswerEvent::Watching);
    let mut answers = 0;
    let mut answering = start(SDP);
    for event in events {
        answers += usize::from(matches!(answering.action(), AnswerAction::SignalAnswer(_)));
        answering = answering.answer_offer(event);
    }
    assert_eq!(answers, 1);
    assert!(matches!(answering.state, AnswerState::AwaitChannels { .. }));
}
