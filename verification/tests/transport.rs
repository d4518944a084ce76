use nethernet::addr::Addr;
use nethernet::error::{NethernetError, SignalErrorCode};
use nethernet::signal::{Signal, SignalType};
use nethernet::transport::{
    ice_servers, peer_configuration, reliable_channel_init, unreliable_channel_init, ConnectionConfig,
    Credentials, Failure, IceServer, Timeouts,
};
use std::time::Duration;
use webrtc::error::Error;

fn credentials() -> Credentials {
    Credentials {
        ice_servers: vec![
            IceServer {
                username: "user".to_string(),
                password: "secret".to_string(),
                urls: vec!["stun:a:3478".to_string(), "turn:b:3478".to_string()],
            },
            IceServer { username: String::new(), password: String::new(), urls: vec![] },
        ],
    }
}

#[test]
fn standard_timeouts() {
    let timeouts = Timeouts::default();
    assert_eq!(timeouts.negotiation, Duration::from_secs(15));
    assert_eq!(timeouts.candidate, Duration::from_secs(5));
    assert_eq!(timeouts.start, Duration::from_secs(15));
    assert_eq!(timeouts.channel, Duration::from_secs(10));
}

#[test]
fn clone_of_options_shares_the_cancel_token() {
    let config = ConnectionConfig::default();
    let copy = config.clone();
    assert!(!copy.cancel_token.is_cancelled());
    config.cancel_token.cancel();
    assert!(copy.cancel_token.is_cancelled());
    assert!(!ConnectionConfig::default().cancel_token.is_cancelled());
}

#[test]
fn peer_connection_uses_the_servers_of_the_credentials() {
    let credentials = credentials();
    let configuration = peer_configuration(Some(&credentials));
    let servers = configuration.ice_servers();
    assert_eq!(servers.len(), 2);
    assert_eq!(servers[0].urls, ["stun:a:3478", "turn:b:3478"]);
    assert_eq!(servers[0].username, "user");
    assert_eq!(servers[0].credential, "secret");
    assert!(servers[1].urls.is_empty());
    assert_eq!(ice_servers(Some(&credentials)), servers);
}

#[test]
fn peer_connection_uses_no_servers_without_credentials() {
    assert!(peer_configuration(None).ice_servers().is_empty());
    assert!(peer_configuration(Some(&Credentials { ice_servers: vec![] })).ice_servers().is_empty());
}

#[test]
fn channel_settings() {
    let reliable = reliable_channel_init();
    assert!(reliable.ordered);
    assert_eq!(reliable.max_retransmits, None);
    assert_eq!(reliable.max_packet_life_time, None);
    let unreliable = unreliable_channel_init();
    assert!(unreliable.ordered);
    assert_eq!(unreliable.max_retransmits, Some(0));
    assert_eq!(unreliable.max_packet_life_time, None);
}

#[test]
fn reported_failure_is_signaled() {
    let failure = Failure::reported(SignalErrorCode::FailedToCreateOffer, NethernetError::Timeout);
    let signal = failure.signal_error(4, "remote".to_string()).unwrap();
    assert_eq!(signal.connection_id, 4);
    assert_eq!(signal.code, SignalErrorCode::FailedToCreateOffer);
    assert_eq!(signal.network_id, "remote");
}

#[test]
fn silent_failure_is_not_signaled() {
    let failure = Failure::silent(NethernetError::Timeout);
    assert!(failure.signal_error(4, "remote".to_string()).is_none());
}

#[test]
fn signals_carry_what_they_are_made_of() {
    let made = [
        (Signal::offer(1, "sdp".to_string(), "net".to_string()), SignalType::Offer),
        (Signal::answer(1, "sdp".to_string(), "net".to_string()), SignalType::Answer),
        (Signal::candidate(1, "sdp".to_string(), "net".to_string()), SignalType::Candidate),
    ];
    for (signal, signal_type) in made {
        assert_eq!(signal.signal_type, signal_type);
        assert_eq!(signal.connection_id, 1);
        assert_eq!(signal.data, "sdp");
        assert_eq!(signal.network_id, "net");
    }
    let error = Signal::error(2, SignalErrorCode::Ice, "net".to_string());
    assert_eq!((error.connection_id, error.code), (2, SignalErrorCode::Ice));
    assert_eq!(error.network_id, "net");
}

#[test]
fn signal_belongs_to_one_connection_of_one_network() {
    let signal = Signal::answer(1, String::new(), "net".to_string());
    assert!(signal.is_of(1, &"net".to_string()));
    assert!(!signal.is_of(2, &"net".to_string()));
    assert!(!signal.is_of(1, &"other".to_string()));
}

#[test]
fn addresses() {
    let connection = Addr::new("net".to_string(), 3);
    assert_eq!(connection.connection_id, Some(3));
    assert_eq!(connection.clone().network_id, "net");
    assert_eq!(connection.clone().connection_id, Some(3));
    let network = Addr::network("net".to_string());
    assert_eq!(network.network_id, "net");
    assert_eq!(network.connection_id, None);
}

#[test]
fn errors_wrap_what_caused_them() {
    assert!(matches!(
        NethernetError::from(Error::ErrConnectionClosed),
        NethernetError::WebRtc(Error::ErrConnectionClosed)
    ));
    assert!(matches!(
        NethernetError::data_channel(&Error::ErrConnectionClosed),
        NethernetError::DataChannel(text) if text == "connection closed"
    ));
    assert_eq!(SignalErrorCode::from(17), SignalErrorCode::Code(17));
}
