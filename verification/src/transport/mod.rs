//! The transport: its options, and what both ends of a negotiation share.

pub mod answer;
pub mod description;
pub mod listener;
pub mod negotiation;
pub mod progress;
pub mod stream;
pub mod wait;
pub mod watch;

use crate::addr::Addr;
use crate::error::{NethernetError, SignalErrorCode};
use crate::session::Session;
use crate::signal::{ErrorSignal, Signal};
use std::time::Duration;
use tokio_util::sync::CancellationToken;
use vstd::prelude::*;
use webrtc::data_channel::RTCDataChannelInit;
use webrtc::peer_connection::{RTCConfiguration, RTCConfigurationBuilder, RTCIceServer, RTCSessionDescription};

verus! {

/// `tokio_util::sync::CancellationToken`, shared by whoever may cancel a
/// negotiation and whoever watches for it.
#[verifier::external_type_specification]
#[verifier::external_body]
pub struct ExCancellationToken(tokio_util::sync::CancellationToken);

/// `webrtc::peer_connection::RTCSessionDescription`, a parsed offer or answer.
#[verifier::external_type_specification]
#[verifier::external_body]
pub struct ExSessionDescription(webrtc::peer_connection::RTCSessionDescription);

/// `webrtc::peer_connection::RTCConfiguration`, the settings of a peer connection.
#[verifier::external_type_specification]
#[verifier::external_body]
pub struct ExConfiguration(webrtc::peer_connection::RTCConfiguration);

/// `webrtc::peer_connection::RTCIceServer`, one server in those settings.
#[verifier::external_type_specification]
#[verifier::external_body]
pub struct ExIceServer(webrtc::peer_connection::RTCIceServer);

/// `webrtc::data_channel::RTCDataChannelInit`, the settings of a data channel.
#[verifier::external_type_specification]
#[verifier::external_body]
pub struct ExDataChannelInit(webrtc::data_channel::RTCDataChannelInit);

/// The span of time that `Duration::from_secs` makes of a number of seconds.
pub uninterp spec fn duration_from_secs(secs: u64) -> Duration;

/// `std::time::Duration::from_secs`: the span is the one of that many seconds.
pub assume_specification[ std::time::Duration::from_secs ](secs: u64) -> (duration: Duration)
    ensures
        duration == duration_from_secs(secs),
;

/// `CancellationToken::new`: a token of its own, not cancelled yet. Nothing is
/// claimed of it, since any holder of a clone may cancel it at any time.
pub assume_specification[ tokio_util::sync::CancellationToken::new ]() -> (token: CancellationToken)
;

/// `CancellationToken::clone`: the same token, in the sense of its own `==`:
/// cancelling either cancels both.
pub assume_specification[ <tokio_util::sync::CancellationToken as Clone>::clone ](
    token: &CancellationToken,
) -> (same: CancellationToken)
    ensures
        same == *token,
;

/// Options applied while negotiating and establishing a connection.
#[derive(Debug)]
pub struct ConnectionConfig {
    /// Timeouts of each negotiation step.
    pub timeouts: Timeouts,
    /// Cancels the negotiation when triggered.
    pub cancel_token: CancellationToken,
}

/// Timeouts applied while negotiating and establishing a connection.
#[derive(Debug, Clone, Copy)]
pub struct Timeouts {
    /// Time to wait for the answer of the remote connection.
    pub negotiation: Duration,
    /// Time to wait for the first candidate signaled by the remote connection.
    pub candidate: Duration,
    /// Time to wait for the connection state to become connected.
    pub start: Duration,
    /// Time to wait for remote data channels.
    pub channel: Duration,
}

impl Timeouts {
    /// The timeouts that hold where none are given.
    pub open spec fn standard() -> Self {
        Timeouts {
            negotiation: duration_from_secs(15),
            candidate: duration_from_secs(5),
            start: duration_from_secs(15),
            channel: duration_from_secs(10),
        }
    }
}

impl Default for Timeouts {
    fn default() -> (timeouts: Self)
        ensures
            timeouts == Timeouts::standard(),
    {
        Timeouts {
            negotiation: Duration::from_secs(15),
            candidate: Duration::from_secs(5),
            start: Duration::from_secs(15),
            channel: Duration::from_secs(10),
        }
    }
}

impl Clone for ConnectionConfig {
    fn clone(&self) -> (config: Self)
        ensures
            config == *self,
    {
        ConnectionConfig { timeouts: self.timeouts, cancel_token: self.cancel_token.clone() }
    }
}

impl Default for ConnectionConfig {
    fn default() -> (config: Self)
        ensures
            config.timeouts == Timeouts::standard(),
    {
        ConnectionConfig { timeouts: Timeouts::default(), cancel_token: CancellationToken::new() }
    }
}

/// One server that helps two ends reach each other, and how to log in there.
#[derive(Debug)]
pub struct IceServer {
    /// The user to log in as.
    pub username: String,
    /// The password of that user.
    pub password: String,
    /// Where the server is found.
    pub urls: Vec<String>,
}

/// What the signaling service hands out for the use of its servers.
#[derive(Debug)]
pub struct Credentials {
    /// The servers.
    pub ice_servers: Vec<IceServer>,
}

/// An [`IceServer`] with its texts as sequences of characters.
pub struct IceServerView {
    /// The user to log in as.
    pub username: Seq<char>,
    /// The password of that user.
    pub password: Seq<char>,
    /// Where the server is found.
    pub urls: Seq<Seq<char>>,
}

impl View for IceServer {
    type V = IceServerView;

    open spec fn view(&self) -> IceServerView {
        IceServerView {
            username: self.username@,
            password: self.password@,
            urls: self.urls@.map_values(|url: String| url@),
        }
    }
}

impl Credentials {
    /// The servers, in order.
    pub open spec fn servers(self) -> Seq<IceServerView> {
        self.ice_servers@.map_values(|server: IceServer| server@)
    }
}

/// The servers to use: those of the credentials, or none without credentials.
pub open spec fn servers_of(credentials: Option<&Credentials>) -> Seq<IceServerView> {
    match credentials {
        Some(credentials) => credentials.servers(),
        None => Seq::empty(),
    }
}

/// The entry of a server that is found at some addresses, and that a user logs in
/// to with a credential, as an `RTCIceServer` holds it.
pub uninterp spec fn rtc_ice_server(urls: Seq<Seq<char>>, username: Seq<char>, credential: Seq<char>) -> RTCIceServer;

/// `RTCIceServer`, with each of its three fields set: the entry depends on these
/// alone.
#[verifier::external_body]
fn build_ice_server(urls: Vec<String>, username: String, credential: String) -> (server: RTCIceServer)
    ensures
        server == rtc_ice_server(urls@.map_values(|url: String| url@), username@, credential@),
{
    RTCIceServer { urls, username, credential }
}

/// The settings that `RTCConfigurationBuilder` makes of a list of ICE servers,
/// with everything else at its default.
pub uninterp spec fn configuration_with_servers(servers: Seq<RTCIceServer>) -> RTCConfiguration;

/// `RTCConfigurationBuilder`, given ICE servers and nothing else: the settings
/// depend on the servers alone.
#[verifier::external_body]
fn build_configuration(servers: Vec<RTCIceServer>) -> (configuration: RTCConfiguration)
    ensures
        configuration == configuration_with_servers(servers@),
{
    RTCConfigurationBuilder::new().with_ice_servers(servers).build()
}

/// The entries of some servers: the password is the credential to log in with.
pub open spec fn server_entries(servers: Seq<IceServerView>) -> Seq<RTCIceServer> {
    servers.map_values(|server: IceServerView| rtc_ice_server(server.urls, server.username, server.password))
}

/// A copy of some texts.
fn copy_texts(texts: &Vec<String>) -> (copy: Vec<String>)
    ensures
        copy@ == texts@,
{
    let mut copy: Vec<String> = Vec::new();
    let mut i: usize = 0;
    while i < texts.len()
        invariant
            i <= texts.len(),
            copy@ == texts@.take(i as int),
        decreases texts.len() - i,
    {
        copy.push(texts[i].clone());
        i += 1;
    }
    copy
}

/// The entries of the servers that a peer connection is to use.
pub fn ice_servers(credentials: Option<&Credentials>) -> (servers: Vec<RTCIceServer>)
    ensures
        servers@ == server_entries(servers_of(credentials)),
{
    let mut servers: Vec<RTCIceServer> = Vec::new();
    if let Some(credentials) = credentials {
        let mut i: usize = 0;
        while i < credentials.ice_servers.len()
            invariant
                i <= credentials.ice_servers.len(),
                servers@ == server_entries(credentials.servers()).take(i as int),
            decreases credentials.ice_servers.len() - i,
        {
            let server = &credentials.ice_servers[i];
            servers.push(
                build_ice_server(copy_texts(&server.urls), server.username.clone(), server.password.clone()),
            );
            i += 1;
        }
    }
    servers
}

/// The settings of a peer connection that uses the servers of the credentials.
pub open spec fn configuration_for(credentials: Option<&Credentials>) -> RTCConfiguration {
    configuration_with_servers(server_entries(servers_of(credentials)))
}

/// The settings of a peer connection that uses the servers of the credentials.
pub fn peer_configuration(credentials: Option<&Credentials>) -> (configuration: RTCConfiguration)
    ensures
        configuration == configuration_with_servers(server_entries(servers_of(credentials))),
        configuration == configuration_for(credentials),
{
    build_configuration(ice_servers(credentials))
}

/// A session description of this end, together with its text.
pub struct LocalDescription {
    /// The description.
    pub description: RTCSessionDescription,
    /// Its text.
    pub sdp: String,
}

/// What an offer's text is parsed to by `RTCSessionDescription::offer`.
pub uninterp spec fn offer_description(sdp: Seq<char>) -> Result<RTCSessionDescription, webrtc::error::Error>;

/// What an answer's text is parsed to by `RTCSessionDescription::answer`.
pub uninterp spec fn answer_description(sdp: Seq<char>) -> Result<RTCSessionDescription, webrtc::error::Error>;

/// `RTCSessionDescription::offer`: the description that the text stands for, or
/// why it stands for none. The result depends on the text alone.
#[verifier::external_body]
pub(crate) fn parse_offer(sdp: String) -> (parsed: Result<RTCSessionDescription, webrtc::error::Error>)
    ensures
        parsed == offer_description(sdp@),
{
    RTCSessionDescription::offer(sdp)
}

/// `RTCSessionDescription::answer`: the description that the text stands for, or
/// why it stands for none. The result depends on the text alone.
#[verifier::external_body]
pub(crate) fn parse_answer(sdp: String) -> (parsed: Result<RTCSessionDescription, webrtc::error::Error>)
    ensures
        parsed == answer_description(sdp@),
{
    RTCSessionDescription::answer(sdp)
}

/// The settings of a data channel with the given order and retransmissions, and
/// with everything else at the default of `RTCDataChannelInit`.
pub uninterp spec fn channel_init(ordered: bool, max_retransmits: Option<u16>) -> RTCDataChannelInit;

/// `RTCDataChannelInit::default`, with order and retransmissions set: the
/// settings depend on these two alone.
#[verifier::external_body]
fn build_channel_init(ordered: bool, max_retransmits: Option<u16>) -> (init: RTCDataChannelInit)
    ensures
        init == channel_init(ordered, max_retransmits),
{
    RTCDataChannelInit { ordered, max_retransmits, ..Default::default() }
}

/// The settings of the reliable data channel: ordered, with every message
/// repeated until it arrives.
pub fn reliable_channel_init() -> (init: RTCDataChannelInit)
    ensures
        init == channel_init(true, None),
{
    build_channel_init(true, None)
}

/// The settings of the unreliable data channel: ordered, with no message sent twice.
pub fn unreliable_channel_init() -> (init: RTCDataChannelInit)
    ensures
        init == channel_init(true, Some(0)),
{
    build_channel_init(true, Some(0))
}

/// How a negotiation failed.
#[derive(Debug)]
pub struct Failure {
    /// What to tell the other end, if it is to be told.
    pub code: Option<SignalErrorCode>,
    /// What to tell the caller.
    pub error: NethernetError,
}

impl Failure {
    /// Whether this is the failure with a code for the other end and an error for the caller.
    pub open spec fn says(self, code: Option<SignalErrorCode>, error: crate::error::ErrorView) -> bool {
        self.code == code && self.error@ == error
    }

    /// The signal to a network at the other end, if it is to be told.
    pub open spec fn report(self, connection_id: u64, network_id: String) -> Option<ErrorSignal> {
        match self.code {
            Some(code) => Some(ErrorSignal { connection_id, code, network_id }),
            None => None,
        }
    }

    /// A failure that the other end is told of.
    pub fn reported(code: SignalErrorCode, error: NethernetError) -> (failure: Self)
        ensures
            failure == (Failure { code: Some(code), error }),
    {
        Failure { code: Some(code), error }
    }

    /// A failure that the other end is not told of.
    pub fn silent(error: NethernetError) -> (failure: Self)
        ensures
            failure == (Failure { code: None, error }),
    {
        Failure { code: None, error }
    }

    /// The signal to the other end, if it is to be told.
    pub fn signal_error(&self, connection_id: u64, network_id: String) -> (signal: Option<ErrorSignal>)
        ensures
            signal == self.report(connection_id, network_id),
    {
        match self.code {
            Some(code) => Some(Signal::error(connection_id, code, network_id)),
            None => None,
        }
    }
}

/// A peer connection with its two data channels.
pub struct Link<P, C> {
    /// The peer connection.
    pub peer_connection: P,
    /// The channel that repeats what was lost.
    pub reliable: C,
    /// The channel that does not.
    pub unreliable: C,
}

impl<P, C> Link<P, C> {
    /// The peer connection, the reliable and the unreliable data channel.
    pub open spec fn parts(self) -> (Option<P>, Option<C>, Option<C>) {
        (Some(self.peer_connection), Some(self.reliable), Some(self.unreliable))
    }

    /// Whether a session is the one over this connection: open, with both
    /// channels attached, between the two networks.
    pub open spec fn carries(
        self,
        session: Session<P, C>,
        connection_id: u64,
        local_network_id: String,
        remote_network_id: String,
    ) -> bool {
        session@ == (crate::session::SessionView {
            peer_connection: self.peer_connection,
            local: Addr { network_id: local_network_id, connection_id: Some(connection_id) },
            remote: Addr { network_id: remote_network_id, connection_id: Some(connection_id) },
            reliable_channel: Some(self.reliable),
            unreliable_channel: Some(self.unreliable),
            closed: false,
        })
    }

    /// The session over this connection.
    pub(crate) fn establish(
        self,
        connection_id: u64,
        local_network_id: String,
        remote_network_id: String,
    ) -> (session: Result<Session<P, C>, Failure>)
        ensures
            session matches Ok(session) && self.carries(session, connection_id, local_network_id, remote_network_id),
    {
        let local = Addr::new(local_network_id, connection_id);
        let remote = Addr::new(remote_network_id, connection_id);
        let mut session = Session::new(self.peer_connection, local, remote);
        if let Err(error) = session.set_reliable_channel(self.reliable) {
            return Err(Failure::reported(SignalErrorCode::Ice, error));
        }
        if let Err(error) = session.set_unreliable_channel(self.unreliable) {
            return Err(Failure::reported(SignalErrorCode::Ice, error));
        }
        Ok(session)
    }
}

} // verus!
