use nethernet::error::{NethernetError, SignalErrorCode};
use nethernet::signal::{Signal, SignalType};
use nethernet::transport::listener::{ListenerEvent, ListenerStep, NethernetListener, SignalDispatchers};
use nethernet::transport::{ConnectionConfig, Failure};
use std::time::Duration;

fn signal(signal_type: SignalType, connection_id: u64, network_id: &str) -> Signal {
    Signal { signal_type, connection_id, data: "data".to_string(), network_id: network_id.to_string() }
}

fn listener() -> NethernetListener<u32> {
    NethernetListener::bind("local".to_string()).ok().unwrap()
}

fn forwarded(listener: &NethernetListener<u32>, signal: Signal) -> Option<u32> {
    match listener.handle(ListenerEvent::Signal(signal)) {
        ListenerStep::Forward(inbox, _) => Some(*inbox),
        ListenerStep::Ignore => None,
        _ => panic!("neither forwarded nor ignored"),
    }
}

#[test]
fn listener_is_on_its_network() {
    let listener = listener();
    assert_eq!(listener.local_addr().network_id, "local");
    assert_eq!(listener.local_addr().connection_id, None);
    assert_eq!(listener.config().timeouts.channel, Duration::from_secs(10));
}

#[test]
fn listener_takes_explicit_options() {
    let mut config = ConnectionConfig::default();
    config.timeouts.channel = Duration::from_secs(2);
    let listener: NethernetListener<u32> = NethernetListener::bind_with("local".to_string(), config).ok().unwrap();
    assert_eq!(listener.config().timeouts.channel, Duration::from_secs(2));
}

#[test]
fn offers_are_answered() {
    let mut listener = listener();
    for _ in 0..2 {
        match listener.handle(ListenerEvent::Signal(signal(SignalType::Offer, 1, "remote"))) {
            ListenerStep::Answer(offer) => {
                assert_eq!(offer.connection_id, 1);
                assert_eq!(offer.network_id, "remote");
                listener.register(&offer, 5);
            }
            _ => panic!("the offer is not answered"),
        }
    }
}

#[test]
fn registered_connection_gets_its_signals() {
    let mut listener = listener();
    listener.register(&signal(SignalType::Offer, 1, "remote"), 5);
    listener.register(&signal(SignalType::Offer, 2, "remote"), 6);
    for kind in [SignalType::Answer, SignalType::Candidate, SignalType::Error] {
        assert_eq!(forwarded(&listener, signal(kind, 1, "remote")), Some(5));
        assert_eq!(forwarded(&listener, signal(kind, 2, "remote")), Some(6));
        assert_eq!(forwarded(&listener, signal(kind, 3, "remote")), None);
        assert_eq!(forwarded(&listener, signal(kind, 1, "other")), None);
    }
}

#[test]
fn second_offer_takes_the_connection_over() {
    let mut listener = listener();
    listener.register(&signal(SignalType::Offer, 1, "remote"), 5);
    listener.register(&signal(SignalType::Offer, 1, "remote"), 8);
    assert_eq!(forwarded(&listener, signal(SignalType::Candidate, 1, "remote")), Some(8));
    listener.unregister(&"remote".to_string(), 1);
    assert_eq!(forwarded(&listener, signal(SignalType::Candidate, 1, "remote")), None);
}

#[test]
fn forgotten_connection_gets_nothing() {
    let mut listener = listener();
    listener.register(&signal(SignalType::Offer, 1, "remote"), 5);
    listener.register(&signal(SignalType::Offer, 2, "remote"), 6);
    listener.unregister(&"remote".to_string(), 1);
    listener.unregister(&"remote".to_string(), 9);
    assert_eq!(forwarded(&listener, signal(SignalType::Candidate, 1, "remote")), None);
    assert_eq!(forwarded(&listener, signal(SignalType::Candidate, 2, "remote")), Some(6));
}

#[test]
fn failed_answer_is_reported_and_forgotten() {
    let mut listener = listener();
    listener.register(&signal(SignalType::Offer, 1, "remote"), 5);
    let failure = Failure::reported(SignalErrorCode::FailedToCreateAnswer, NethernetError::Timeout);
    let report = listener.answer_failed("remote".to_string(), 1, &failure).unwrap();
    assert_eq!(report.connection_id, 1);
    assert_eq!(report.network_id, "remote");
    assert_eq!(report.code, SignalErrorCode::FailedToCreateAnswer);
    assert_eq!(forwarded(&listener, signal(SignalType::Candidate, 1, "remote")), None);
    let silent = Failure::silent(NethernetError::ConnectionClosed);
    assert!(listener.answer_failed("remote".to_string(), 1, &silent).is_none());
}

#[test]
fn listener_stops_when_cancelled_closed_or_out_of_signals() {
    let mut listener = listener();
    assert!(matches!(listener.handle(ListenerEvent::Cancelled), ListenerStep::Stop));
    assert!(matches!(listener.handle(ListenerEvent::Ended), ListenerStep::Stop));
    assert!(listener.close().is_ok());
    let offer = signal(SignalType::Offer, 1, "remote");
    assert!(matches!(listener.handle(ListenerEvent::Signal(offer)), ListenerStep::Stop));
    assert!(listener.close().is_ok());
}

#[test]
fn accept_ends_with_the_listener() {
    let listener = listener();
    assert!(matches!(listener.accept(Some(3u8)), Ok(3)));
    assert!(matches!(listener.accept(None::<u8>), Err(NethernetError::ConnectionClosed)));
}

#[test]
fn queued_sessions_outlive_the_listener() {
    let mut listener = listener();
    let mut queued = vec![1u8, 2, 3].into_iter();
    assert!(listener.close().is_ok());
    assert!(matches!(listener.accept(queued.next()), Ok(1)));
    assert!(matches!(listener.accept(queued.next()), Ok(2)));
    assert!(matches!(listener.accept(queued.next()), Ok(3)));
    assert!(matches!(listener.accept(queued.next()), Err(NethernetError::ConnectionClosed)));
    assert!(matches!(listener.accept(queued.next()), Err(NethernetError::ConnectionClosed)));
}

#[test]
fn dispatchers_hold_one_inbox_for_each_connection() {
    let mut dispatchers: SignalDispatchers<u32> = SignalDispatchers::new();
    let (a, b) = ("a".to_string(), "b".to_string());
    assert_eq!(dispatchers.get(&a, 1), None);
    dispatchers.insert(a.clone(), 1, 10);
    dispatchers.insert(b.clone(), 1, 20);
    dispatchers.insert(a.clone(), 2, 30);
    dispatchers.insert(a.clone(), 1, 11);
    assert_eq!(dispatchers.get(&a, 1), Some(&11));
    assert_eq!(dispatchers.get(&b, 1), Some(&20));
    assert_eq!(dispatchers.get(&a, 2), Some(&30));
    dispatchers.remove(&a, 1);
    dispatchers.remove(&a, 1);
    assert_eq!(dispatchers.get(&a, 1), None);
    assert_eq!(dispatchers.get(&b, 1), Some(&20));
}
