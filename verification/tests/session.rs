use bytes::{Bytes, BytesMut};
use nethernet::addr::Addr;
use nethernet::error::NethernetError;
use nethernet::session::{
    close_result, ChannelEvent, ChannelKind, CloseStep, ReadStep, Receive, Session, PACKET_QUEUE_CAPACITY,
};
use webrtc::error::Error;

fn session() -> Session<u8, &'static str> {
    let local = Addr::new("local".to_string(), 7);
    let remote = Addr::new("remote".to_string(), 7);
    Session::new(9, local, remote)
}

fn segments(parts: &[&'static [u8]]) -> Result<Vec<Bytes>, NethernetError> {
    Ok(parts.iter().map(|part| Bytes::from_static(part)).collect())
}

#[test]
fn new_session_is_open_and_without_channels() {
    let session = session();
    assert!(!session.is_closed());
    assert!(!session.closed());
    assert_eq!(*session.peer_connection(), 9);
    assert_eq!(session.reliable_channel(), None);
    assert_eq!(session.unreliable_channel(), None);
    assert_eq!(session.recv(), Receive::Await(ChannelKind::Reliable));
    assert_eq!(session.recv_unreliable(), Receive::Await(ChannelKind::Unreliable));
    assert_eq!(PACKET_QUEUE_CAPACITY, 128);
}

#[test]
fn session_keeps_its_addresses() {
    let session = session();
    assert_eq!(session.local_addr().network_id, "local");
    assert_eq!(session.local_addr().connection_id, Some(7));
    assert_eq!(session.remote_addr().network_id, "remote");
    assert_eq!(session.remote_addr().connection_id, Some(7));
}

#[test]
fn send_without_reliable_channel_is_refused() {
    let mut session = session();
    session.set_unreliable_channel("u").unwrap();
    let error = session.send(segments(&[b"a"])).err().unwrap();
    assert!(matches!(error, NethernetError::DataChannel(text) if text == "Reliable channel not set"));
}

#[test]
fn send_without_unreliable_channel_is_refused() {
    let mut session = session();
    session.set_reliable_channel("r").unwrap();
    let error = session.send_unreliable(segments(&[b"a"])).err().unwrap();
    assert!(matches!(error, NethernetError::DataChannel(text) if text == "Unreliable channel not set"));
}

#[test]
fn message_that_cannot_be_split_is_refused() {
    let mut session = session();
    session.set_reliable_channel("r").unwrap();
    let refusal = Err(NethernetError::Other("too large".to_string()));
    let error = session.send(refusal).err().unwrap();
    assert!(matches!(error, NethernetError::Other(text) if text == "too large"));
}

#[test]
fn missing_channel_counts_before_the_message() {
    let session = session();
    let refusal = Err(NethernetError::Other("too large".to_string()));
    let error = session.send(refusal).err().unwrap();
    assert!(matches!(error, NethernetError::DataChannel(_)));
}

#[test]
fn send_uses_the_channel_attached_last() {
    let mut session = session();
    session.set_reliable_channel("first").unwrap();
    session.set_reliable_channel("second").unwrap();
    session.set_unreliable_channel("u").unwrap();
    let (channel, _) = session.send(segments(&[b"a"])).ok().unwrap();
    assert_eq!(*channel, "second");
    let (channel, _) = session.send_unreliable(segments(&[b"a"])).ok().unwrap();
    assert_eq!(*channel, "u");
}

#[test]
fn frames_go_out_in_order() {
    let mut session = session();
    session.set_reliable_channel("r").unwrap();
    let (_, mut transmission) = session.send(segments(&[b"one", b"two"])).ok().unwrap();
    assert_eq!(transmission.next_frame(), Some(BytesMut::from(&b"one"[..])));
    assert_eq!(transmission.next_frame(), Some(BytesMut::from(&b"one"[..])));
    assert!(transmission.frame_sent(Ok(())).is_ok());
    assert_eq!(transmission.next_frame(), Some(BytesMut::from(&b"two"[..])));
    assert!(transmission.frame_sent(Ok(())).is_ok());
    assert_eq!(transmission.next_frame(), None);
    assert!(transmission.frame_sent(Err(Error::ErrDataChannelClosed)).is_ok());
}

#[test]
fn message_without_frames_is_over_at_once() {
    let mut session = session();
    session.set_reliable_channel("r").unwrap();
    let (_, transmission) = session.send(segments(&[])).ok().unwrap();
    assert_eq!(transmission.next_frame(), None);
}

#[test]
fn failed_frame_is_the_last() {
    let mut session = session();
    session.set_reliable_channel("r").unwrap();
    let (_, mut transmission) = session.send(segments(&[b"one", b"two"])).ok().unwrap();
    let error = transmission.frame_sent(Err(Error::ErrDataChannelClosed)).unwrap_err();
    assert!(matches!(error, NethernetError::DataChannel(text) if text == "data channel closed"));
    assert_eq!(transmission.next_frame(), None);
    assert!(transmission.frame_sent(Ok(())).is_ok());
    assert_eq!(transmission.next_frame(), None);
}

#[test]
fn close_takes_every_step_in_order() {
    let mut session = session();
    session.set_reliable_channel("r").unwrap();
    session.set_unreliable_channel("u").unwrap();
    assert_eq!(
        session.close(),
        vec![
            CloseStep::WakeWaiters,
            CloseStep::CloseReliable,
            CloseStep::CloseUnreliable,
            CloseStep::ClosePeerConnection,
        ]
    );
    assert!(session.is_closed());
    assert!(session.closed());
}

#[test]
fn close_leaves_out_channels_that_are_not_attached() {
    let mut bare = session();
    assert_eq!(bare.close(), vec![CloseStep::WakeWaiters, CloseStep::ClosePeerConnection]);
    let mut half = session();
    half.set_unreliable_channel("u").unwrap();
    assert_eq!(
        half.close(),
        vec![CloseStep::WakeWaiters, CloseStep::CloseUnreliable, CloseStep::ClosePeerConnection]
    );
}

#[test]
fn closed_session_is_inert() {
    let mut session = session();
    session.set_reliable_channel("r").unwrap();
    session.close();
    assert_eq!(session.close(), vec![]);
    assert_eq!(session.recv(), Receive::Finished);
    assert_eq!(session.recv_unreliable(), Receive::Finished);
    let error = session.send(segments(&[b"a"])).err().unwrap();
    assert!(matches!(error, NethernetError::ConnectionClosed));
    session.set_unreliable_channel("u").unwrap();
    let error = session.send_unreliable(segments(&[b"a"])).err().unwrap();
    assert!(matches!(error, NethernetError::ConnectionClosed));
    assert!(session.is_closed());
}

#[test]
fn close_result_is_that_of_the_peer_connection() {
    assert!(close_result(Some(Ok(()))).is_ok());
    assert!(close_result(None).is_ok());
    let error = close_result(Some(Err(Error::ErrConnectionClosed))).unwrap_err();
    assert!(matches!(error, NethernetError::WebRtc(Error::ErrConnectionClosed)));
}

#[test]
fn message_of_a_channel_is_decoded() {
    let data = BytesMut::from(&b"\x00payload"[..]);
    let step: ReadStep<u32> = ReadStep::after_poll(Some(ChannelEvent::Message(data)));
    assert!(matches!(step, ReadStep::Decode(data) if data[..] == b"\x00payload"[..]));
}

#[test]
fn other_reports_of_a_channel_are_passed_over() {
    assert!(matches!(ReadStep::<u32>::after_poll(Some(ChannelEvent::Open)), ReadStep::Poll));
    assert!(matches!(ReadStep::<u32>::after_poll(Some(ChannelEvent::Other)), ReadStep::Poll));
    assert!(matches!(ReadStep::<u32>::after_poll(None), ReadStep::Stop));
}

const KINDS: [ChannelKind; 2] = [ChannelKind::Reliable, ChannelKind::Unreliable];

#[test]
fn unreadable_segments_are_skipped() {
    for kind in KINDS {
        assert!(matches!(ReadStep::after_decode(kind, Ok(5u32)), ReadStep::Add(to, 5) if to == kind));
        let broken = Err(NethernetError::Other("short".to_string()));
        assert!(matches!(ReadStep::<u32>::after_decode(kind, broken), ReadStep::Poll));
    }
}

#[test]
fn complete_messages_are_delivered() {
    for kind in KINDS {
        let message = Bytes::from_static(b"hello");
        assert!(matches!(
            ReadStep::<u32>::after_add(kind, Ok(Some(message))),
            ReadStep::Deliver(to, message) if to == kind && message[..] == b"hello"[..]
        ));
        assert!(matches!(ReadStep::<u32>::after_add(kind, Ok(None)), ReadStep::Poll));
        let misfit = Err(NethernetError::Other("out of order".to_string()));
        assert!(matches!(ReadStep::<u32>::after_add(kind, misfit), ReadStep::Poll));
    }
}

#[test]
fn reading_goes_on_after_a_delivery() {
    assert!(matches!(ReadStep::<u32>::after_deliver(), ReadStep::Poll));
}

/// One lane of a small receiver: a segment is a letter, and a full stop ends a message.
struct Lane {
    step: ReadStep<u8>,
    assembly: Vec<u8>,
    queue: Vec<Bytes>,
}

fn lane() -> Lane {
    Lane { step: ReadStep::Poll, assembly: vec![], queue: vec![] }
}

fn hear(lanes: &mut [Lane; 2], kind: ChannelKind, frame: &[u8]) {
    let at = |kind: ChannelKind| if kind == ChannelKind::Reliable { 0 } else { 1 };
    let message = ChannelEvent::Message(BytesMut::from(frame));
    lanes[at(kind)].step = ReadStep::after_poll(Some(message));
    loop {
        let step = std::mem::replace(&mut lanes[at(kind)].step, ReadStep::Poll);
        lanes[at(kind)].step = match step {
            ReadStep::Poll | ReadStep::Stop => return,
            ReadStep::Decode(data) => {
                let segment = data.first().copied().ok_or(NethernetError::Timeout);
                ReadStep::after_decode(kind, segment)
            }
            ReadStep::Add(to, b'.') => {
                let whole = Bytes::from(std::mem::take(&mut lanes[at(to)].assembly));
                ReadStep::after_add(kind, Ok(Some(whole)))
            }
            ReadStep::Add(to, letter) => {
                lanes[at(to)].assembly.push(letter);
                ReadStep::after_add(kind, Ok(None))
            }
            ReadStep::Deliver(to, message) => {
                lanes[at(to)].queue.push(message);
                ReadStep::after_deliver()
            }
        };
    }
}

#[test]
fn kinds_never_mix() {
    let mut lanes = [lane(), lane()];
    let (reliable, unreliable) = (ChannelKind::Reliable, ChannelKind::Unreliable);
    let frames: [(ChannelKind, &[u8]); 8] = [
        (reliable, b"m"),
        (unreliable, b"u"),
        (reliable, b"r"),
        (unreliable, b""),
        (unreliable, b"."),
        (reliable, b"."),
        (reliable, b"n"),
        (reliable, b"."),
    ];
    for (kind, frame) in frames {
        hear(&mut lanes, kind, frame);
    }
    assert_eq!(lanes[0].queue, [&b"mr"[..], &b"n"[..]]);
    assert_eq!(lanes[1].queue, [&b"u"[..]]);
}

#[test]
fn waiting_ends_with_the_first_close() {
    let mut session = session();
    session.set_reliable_channel("r").unwrap();
    assert!(!session.closed());
    assert!(session.close().contains(&CloseStep::WakeWaiters));
    assert!(session.closed());
    assert!(!session.close().contains(&CloseStep::WakeWaiters));
    session.set_reliable_channel("other").unwrap();
    assert!(session.closed());
}

#[test]
fn messages_arrive_whole_and_in_order() {
    let mut session = session();
    session.set_reliable_channel("r").unwrap();
    let mut lanes = [lane(), lane()];
    let messages: [&[u8]; 3] = [b"first", b"b", b"third"];
    for message in messages {
        let mut frames: Vec<Bytes> = message.iter().map(|letter| Bytes::copy_from_slice(&[*letter])).collect();
        frames.push(Bytes::from_static(b"."));
        let (_, mut transmission) = session.send(Ok(frames)).ok().unwrap();
        while let Some(frame) = transmission.next_frame() {
            hear(&mut lanes, ChannelKind::Reliable, &frame);
            transmission.frame_sent(Ok(())).unwrap();
        }
    }
    assert_eq!(lanes[0].queue, messages);
    assert!(lanes[1].queue.is_empty());
}
