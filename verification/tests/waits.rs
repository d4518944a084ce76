use bytes::BytesMut;
use nethernet::error::NethernetError;
use nethernet::session::ChannelEvent;
use nethernet::signal::{Signal, SignalType};
use nethernet::transport::wait::{
    wait_for_channel_open, wait_for_gathering_complete, Awaited, ChannelLabels, ChannelWait, GatheringState,
    RemoteChannel, RemoteChannels,
};
use nethernet::transport::watch::{CandidateForwarder, WatchEvent, WatchStep};
use webrtc::error::Error;

fn labels() -> ChannelLabels {
    ChannelLabels { reliable: "Reliable".to_string(), unreliable: "Unreliable".to_string() }
}

fn seen(channel: u8, label: &str) -> Awaited<RemoteChannel<u8>> {
    Awaited::Report(RemoteChannel { channel, label: Ok(label.to_string()) })
}

fn wait(reports: &[(u8, &str)]) -> ChannelWait<u8> {
    let mut channels = RemoteChannels::new();
    for (channel, label) in reports {
        match channels.wait_for_channels(&labels(), seen(*channel, label)) {
            ChannelWait::Waiting(next) => channels = next,
            done => return done,
        }
    }
    ChannelWait::Waiting(channels)
}

#[test]
fn gathering_is_waited_for_until_complete() {
    for state in [GatheringState::Unspecified, GatheringState::New, GatheringState::Gathering] {
        assert!(wait_for_gathering_complete(Awaited::Report(state)).is_none());
    }
    assert!(matches!(wait_for_gathering_complete(Awaited::Report(GatheringState::Complete)), Some(Ok(()))));
    assert!(matches!(wait_for_gathering_complete(Awaited::Ended), Some(Err(NethernetError::ConnectionClosed))));
    assert!(matches!(wait_for_gathering_complete(Awaited::TimedOut), Some(Err(NethernetError::Timeout))));
}

#[test]
fn channel_is_waited_for_until_open() {
    let early = ChannelEvent::Message(BytesMut::new());
    assert!(wait_for_channel_open(Awaited::Report(early)).is_none());
    assert!(wait_for_channel_open(Awaited::Report(ChannelEvent::Other)).is_none());
    assert!(matches!(wait_for_channel_open(Awaited::Report(ChannelEvent::Open)), Some(Ok(()))));
    assert!(matches!(wait_for_channel_open(Awaited::Ended), Some(Err(NethernetError::ConnectionClosed))));
    assert!(matches!(wait_for_channel_open(Awaited::TimedOut), Some(Err(NethernetError::Timeout))));
}

#[test]
fn wait_ends_with_both_channels() {
    assert!(matches!(wait(&[(1, "Reliable"), (2, "Unreliable")]), ChannelWait::Done(Ok((1, 2)))));
    assert!(matches!(wait(&[(2, "Unreliable"), (1, "Reliable")]), ChannelWait::Done(Ok((1, 2)))));
    assert!(matches!(wait(&[(1, "Reliable")]), ChannelWait::Waiting(_)));
    assert!(matches!(wait(&[(2, "Unreliable")]), ChannelWait::Waiting(_)));
    assert!(matches!(wait(&[]), ChannelWait::Waiting(_)));
}

#[test]
fn last_channel_of_a_label_counts() {
    assert!(matches!(
        wait(&[(1, "Reliable"), (3, "Reliable"), (2, "Unreliable")]),
        ChannelWait::Done(Ok((3, 2)))
    ));
}

#[test]
fn channels_of_other_labels_are_dropped() {
    assert!(matches!(
        wait(&[(1, "Reliable"), (9, "other"), (8, "reliable"), (2, "Unreliable")]),
        ChannelWait::Done(Ok((1, 2)))
    ));
}

#[test]
fn wait_for_channels_fails_with_its_cause() {
    let unlabeled = Awaited::Report(RemoteChannel { channel: 1u8, label: Err(Error::ErrDataChannelClosed) });
    assert!(matches!(
        RemoteChannels::new().wait_for_channels(&labels(), unlabeled),
        ChannelWait::Done(Err(NethernetError::DataChannel(text))) if text == "data channel closed"
    ));
    assert!(matches!(
        RemoteChannels::<u8>::new().wait_for_channels(&labels(), Awaited::Ended),
        ChannelWait::Done(Err(NethernetError::ConnectionClosed))
    ));
    assert!(matches!(
        RemoteChannels::<u8>::new().wait_for_channels(&labels(), Awaited::TimedOut),
        ChannelWait::Done(Err(NethernetError::Timeout))
    ));
}

#[test]
fn candidates_are_numbered_and_forwarded() {
    let mut forwarder = CandidateForwarder::new(7, "remote".to_string());
    for turn in 0..3 {
        assert_eq!(forwarder.index(), turn);
        let signal = forwarder.forward(format!("candidate {turn}"));
        assert_eq!(signal.signal_type, SignalType::Candidate);
        assert_eq!(signal.connection_id, 7);
        assert_eq!(signal.network_id, "remote");
        assert_eq!(signal.data, format!("candidate {turn}"));
    }
    assert!(CandidateForwarder::goes_on::<NethernetError>(&Ok(())));
    assert!(!CandidateForwarder::goes_on(&Err(NethernetError::Timeout)));
}

fn watched(signal_type: SignalType, connection_id: u64, network_id: &str) -> WatchEvent {
    WatchEvent::Signal(Signal {
        signal_type,
        connection_id,
        data: "data".to_string(),
        network_id: network_id.to_string(),
    })
}

fn dialed(event: WatchEvent) -> WatchStep<u16> {
    WatchStep::after_dialed(7, &"remote".to_string(), event)
}

#[test]
fn end_that_asked_watches_its_connection() {
    assert!(matches!(
        dialed(watched(SignalType::Candidate, 7, "remote")),
        WatchStep::ParseCandidate(data) if data == "data"
    ));
    assert!(matches!(dialed(watched(SignalType::Error, 7, "remote")), WatchStep::CloseSession));
    assert!(matches!(dialed(watched(SignalType::Offer, 7, "remote")), WatchStep::Wait));
    assert!(matches!(dialed(watched(SignalType::Answer, 7, "remote")), WatchStep::Wait));
    assert!(matches!(dialed(watched(SignalType::Error, 8, "remote")), WatchStep::Wait));
    assert!(matches!(dialed(watched(SignalType::Candidate, 7, "other")), WatchStep::Wait));
    assert!(matches!(dialed(WatchEvent::Closed), WatchStep::Stop));
    assert!(matches!(dialed(WatchEvent::Ended), WatchStep::Stop));
}

#[test]
fn end_that_answered_watches_its_inbox() {
    let answered = |event| WatchStep::<u16>::after_answered(event);
    assert!(matches!(
        answered(watched(SignalType::Candidate, 7, "remote")),
        WatchStep::ParseCandidate(data) if data == "data"
    ));
    assert!(matches!(answered(watched(SignalType::Error, 7, "remote")), WatchStep::Stop));
    assert!(matches!(answered(watched(SignalType::Answer, 7, "remote")), WatchStep::Wait));
    assert!(matches!(answered(WatchEvent::Closed), WatchStep::Stop));
    assert!(matches!(answered(WatchEvent::Ended), WatchStep::Stop));
}

#[test]
fn parsed_candidates_are_added() {
    assert!(matches!(WatchStep::after_parse(Some(4u16)), WatchStep::AddCandidate(4)));
    assert!(matches!(WatchStep::<u16>::after_parse(None), WatchStep::Wait));
}
