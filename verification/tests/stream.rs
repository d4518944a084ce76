use bytes::Bytes;
use nethernet::addr::Addr;
use nethernet::error::{NethernetError, SignalErrorCode};
use nethernet::session::{ChannelKind, CloseStep, Receive, Session};
use nethernet::transport::negotiation::{DialState, Negotiation};
use nethernet::transport::stream::{
    connect_cancelled, connect_outcome, connection_id, parse_error_code, stream_item, Attempt,
    NethernetStream, StreamItem, Write,
};
use nethernet::transport::{ConnectionConfig, Failure};
use std::time::Duration;

type Bare = NethernetStream<u8, u32>;
type Dial = Negotiation<u8, &'static str, u16>;

#[test]
fn error_code_is_read_in_decimal() {
    assert_eq!(parse_error_code("0"), SignalErrorCode::Code(0));
    assert_eq!(parse_error_code("12"), SignalErrorCode::Code(12));
    assert_eq!(parse_error_code("+7"), SignalErrorCode::Code(7));
    assert_eq!(parse_error_code("007"), SignalErrorCode::Code(7));
    assert_eq!(parse_error_code("4294967295"), SignalErrorCode::Code(u32::MAX));
}

#[test]
fn space_around_error_code_is_ignored() {
    assert_eq!(parse_error_code(" 12\r\n"), SignalErrorCode::Code(12));
    assert_eq!(parse_error_code("\t12"), SignalErrorCode::Code(12));
    assert_eq!(parse_error_code("\u{a0}12\u{3000}\u{2028}"), SignalErrorCode::Code(12));
    assert_eq!(parse_error_code("\u{85}12\u{1680}"), SignalErrorCode::Code(12));
}

#[test]
fn unreadable_error_code_is_unknown() {
    let unreadable = [
        "", " ", "+", "-1", "1 2", "0x1", "12a", "4294967296", "\u{200b}12", "\u{661}",
    ];
    for data in unreadable {
        assert_eq!(parse_error_code(data), SignalErrorCode::SignalingUnknownError, "{data:?}");
    }
}

#[test]
fn connection_id_is_little_endian() {
    assert_eq!(connection_id([0; 8]), 0);
    assert_eq!(connection_id([1, 0, 0, 0, 0, 0, 0, 0]), 1);
    assert_eq!(connection_id([1, 2, 3, 4, 5, 6, 7, 8]), 0x0807_0605_0403_0201);
    assert_eq!(connection_id([255; 8]), u64::MAX);
}

#[test]
fn connect_begins_with_the_standard_timeouts() {
    let negotiation: Dial = Bare::connect("remote".to_string());
    assert_eq!(negotiation.remote_network_id, "remote");
    assert_eq!(negotiation.timeouts.negotiation, Duration::from_secs(15));
    assert_eq!(negotiation.timeouts.candidate, Duration::from_secs(5));
    assert_eq!(negotiation.timeouts.start, Duration::from_secs(15));
    assert_eq!(negotiation.timeouts.channel, Duration::from_secs(10));
    assert!(matches!(negotiation.state, DialState::Credentials));
}

#[test]
fn connect_with_takes_explicit_timeouts() {
    let mut config = ConnectionConfig::default();
    config.timeouts.negotiation = Duration::from_secs(1);
    let negotiation: Dial = Bare::connect_with("remote".to_string(), &config);
    assert_eq!(negotiation.timeouts.negotiation, Duration::from_secs(1));
    assert!(matches!(negotiation.state, DialState::Credentials));
}

#[test]
fn connection_numbers_differ() {
    let first: Dial = Bare::connect("remote".to_string());
    let second: Dial = Bare::connect("remote".to_string());
    let third: Dial = Bare::connect("remote".to_string());
    assert!(first.connection_id != second.connection_id || second.connection_id != third.connection_id);
}

#[test]
fn cancelled_connect_tells_the_other_end_nothing() {
    let failure = connect_cancelled();
    assert_eq!(failure.code, None);
    let (report, result) = connect_outcome::<u8>(Err(failure), 3, "remote".to_string());
    assert!(report.is_none());
    assert!(matches!(result, Err(NethernetError::ConnectionClosed)));
}

#[test]
fn failed_connect_is_reported() {
    let failure = Failure::reported(SignalErrorCode::Ice, NethernetError::Timeout);
    let (report, result) = connect_outcome::<u8>(Err(failure), 3, "remote".to_string());
    let report = report.unwrap();
    assert_eq!(report.connection_id, 3);
    assert_eq!(report.code, SignalErrorCode::Ice);
    assert_eq!(report.network_id, "remote");
    assert!(matches!(result, Err(NethernetError::Timeout)));
}

#[test]
fn successful_connect_is_not_reported() {
    let (report, result) = connect_outcome(Ok(5u8), 3, "remote".to_string());
    assert!(report.is_none());
    assert!(matches!(result, Ok(5)));
}

#[test]
fn reader_gets_messages_the_end_and_errors() {
    let data = Bytes::from_static(b"data");
    assert!(matches!(stream_item(Ok(Some(data))), StreamItem::Data(data) if data[..] == b"data"[..]));
    assert!(matches!(stream_item(Ok(None)), StreamItem::End));
    assert!(matches!(
        stream_item(Err(NethernetError::Timeout)),
        StreamItem::Failed(NethernetError::Timeout)
    ));
}

#[test]
fn new_stream_has_nothing_under_way() {
    let mut stream = Bare::from_session(9);
    assert_eq!(*stream.session(), 9);
    assert_eq!(stream.take_send(), None);
    assert_eq!(stream.take_shutdown(), None);
}

#[test]
fn write_takes_all_its_bytes() {
    let (data, length) = Bare::stage_write(b"some bytes");
    assert_eq!(data[..], b"some bytes"[..]);
    assert_eq!(length, 10);
    let (data, length) = Bare::stage_write(b"");
    assert!(data.is_empty());
    assert_eq!(length, 0);
}

#[test]
fn send_that_takes_long_counts_as_written() {
    let mut stream = Bare::from_session(9);
    assert!(matches!(stream.poll_write_started(1, Attempt::Done, 10), Write::Taken(10)));
    assert_eq!(stream.take_send(), None);
    assert!(matches!(stream.poll_write_started(2, Attempt::Pending, 10), Write::Taken(10)));
    assert_eq!(stream.take_send(), Some(2));
}

#[test]
fn failed_send_fails_the_write() {
    let mut stream = Bare::from_session(9);
    assert!(matches!(
        stream.poll_write_started(1, Attempt::Failed(NethernetError::ConnectionClosed), 10),
        Write::Failed(NethernetError::ConnectionClosed)
    ));
    assert_eq!(stream.take_send(), None);
}

#[test]
fn write_waits_for_the_send_before_it() {
    let mut stream = Bare::from_session(9);
    stream.poll_write_started(1, Attempt::Pending, 10);
    let sending = stream.take_send().unwrap();
    assert!(matches!(
        stream.poll_write_resumed(sending, Attempt::Pending),
        Some(Write::Pending)
    ));
    let sending = stream.take_send().unwrap();
    assert_eq!(sending, 1);
    assert!(stream.poll_write_resumed(sending, Attempt::Done).is_none());
    assert_eq!(stream.take_send(), None);
}

#[test]
fn write_reports_the_failure_of_the_send_before_it() {
    let mut stream = Bare::from_session(9);
    assert!(matches!(
        stream.poll_write_resumed(1, Attempt::Failed(NethernetError::Timeout)),
        Some(Write::Failed(NethernetError::Timeout))
    ));
    assert_eq!(stream.take_send(), None);
}

#[test]
fn flush_leaves_nothing_under_way() {
    let mut stream = Bare::from_session(9);
    assert!(matches!(stream.poll_flush(None), Attempt::Done));
    assert!(matches!(stream.poll_flush(Some((1, Attempt::Pending))), Attempt::Pending));
    assert_eq!(stream.take_send(), Some(1));
    assert!(matches!(stream.poll_flush(Some((1, Attempt::Done))), Attempt::Done));
    assert_eq!(stream.take_send(), None);
    assert!(matches!(
        stream.poll_flush(Some((1, Attempt::Failed(NethernetError::Timeout)))),
        Attempt::Failed(NethernetError::Timeout)
    ));
    assert_eq!(stream.take_send(), None);
}

#[test]
fn shutdown_flushes_first() {
    assert!(Bare::poll_shutdown_flushed(Attempt::Done).is_none());
    assert!(matches!(Bare::poll_shutdown_flushed(Attempt::Pending), Some(Attempt::Pending)));
    assert!(matches!(
        Bare::poll_shutdown_flushed(Attempt::Failed(NethernetError::Timeout)),
        Some(Attempt::Failed(NethernetError::Timeout))
    ));
}

#[test]
fn shutdown_carries_on_the_close_under_way() {
    let mut stream = Bare::from_session(9);
    assert!(matches!(stream.poll_shutdown(4, Attempt::Pending), Attempt::Pending));
    assert_eq!(stream.take_shutdown(), Some(4));
    assert!(matches!(stream.poll_shutdown(4, Attempt::Done), Attempt::Done));
    assert_eq!(stream.take_shutdown(), None);
    assert!(matches!(
        stream.poll_shutdown(4, Attempt::Failed(NethernetError::Timeout)),
        Attempt::Failed(NethernetError::Timeout)
    ));
    assert_eq!(stream.take_shutdown(), None);
}

#[test]
fn stream_speaks_for_its_session() {
    let mut session: Session<u8, &'static str> =
        Session::new(9, Addr::new("local".to_string(), 7), Addr::new("remote".to_string(), 7));
    session.set_reliable_channel("r").unwrap();
    session.set_unreliable_channel("u").unwrap();
    let mut stream: NethernetStream<Session<u8, &'static str>, u32> = NethernetStream::from_session(session);
    assert_eq!(stream.local_addr().network_id, "local");
    assert_eq!(stream.remote_addr().network_id, "remote");
    assert_eq!(*stream.send(Ok(vec![])).ok().unwrap().0, "r");
    assert_eq!(*stream.send_unreliable(Ok(vec![])).ok().unwrap().0, "u");
    assert_eq!(stream.recv(), Receive::Await(ChannelKind::Reliable));
    assert_eq!(stream.recv_unreliable(), Receive::Await(ChannelKind::Unreliable));
    assert_eq!(
        stream.close(),
        vec![
            CloseStep::WakeWaiters,
            CloseStep::CloseReliable,
            CloseStep::CloseUnreliable,
            CloseStep::ClosePeerConnection,
        ]
    );
    assert_eq!(stream.recv(), Receive::Finished);
    assert_eq!(stream.recv_unreliable(), Receive::Finished);
    assert!(stream.session().is_closed());
}

#[test]
fn shutdown_closes_the_session_once() {
    let session: Session<u8, &'static str> =
        Session::new(9, Addr::new("local".to_string(), 7), Addr::new("remote".to_string(), 7));
    let mut stream: NethernetStream<Session<u8, &'static str>, u32> = NethernetStream::from_session(session);
    assert_eq!(stream.begin_shutdown(), vec![CloseStep::WakeWaiters, CloseStep::ClosePeerConnection]);
    assert!(stream.session().is_closed());
    assert!(matches!(stream.poll_shutdown(4, Attempt::Pending), Attempt::Pending));
    assert_eq!(stream.begin_shutdown(), vec![]);
    assert_eq!(stream.take_shutdown(), Some(4));
    assert!(matches!(stream.poll_shutdown(4, Attempt::Done), Attempt::Done));
    assert_eq!(stream.begin_shutdown(), vec![]);
    assert!(stream.session().is_closed());
}
