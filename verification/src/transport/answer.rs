//! The negotiation of a connection by the end that is asked for it.

use crate::error::{NethernetError, SignalErrorCode};
use crate::session::Session;
use crate::signal::{Signal, SignalType};
use crate::transport::{parse_offer, Credentials, Failure, Link, LocalDescription, Timeouts};
use std::time::Duration;
use vstd::prelude::*;
use webrtc::peer_connection::RTCSessionDescription;

verus! {

/// Where the answer to an offer stands. `P` is a peer connection and `C` a data
/// channel.
pub enum AnswerState<P, C> {
    /// The credentials for the relay servers are to be fetched.
    Credentials {
        /// The offer.
        offer: RTCSessionDescription,
    },
    /// The peer connection is to be built.
    PeerConnection {
        /// The offer.
        offer: RTCSessionDescription,
        /// The credentials, if the signaling service has any.
        credentials: Option<Credentials>,
    },
    /// The offer is to be made the remote description.
    SetRemoteDescription {
        /// The peer connection.
        peer_connection: P,
        /// The offer.
        offer: RTCSessionDescription,
    },
    /// The answer is to be created.
    CreateAnswer {
        /// The peer connection.
        peer_connection: P,
    },
    /// The answer is to be made the local description.
    SetLocalDescription {
        /// The peer connection.
        peer_connection: P,
        /// The answer.
        answer: LocalDescription,
    },
    /// The forwarding of local candidates is to be started.
    ForwardCandidates {
        /// The peer connection.
        peer_connection: P,
        /// The text of the answer.
        sdp: String,
    },
    /// Local candidates are being gathered, to be sent within the answer.
    Gathering {
        /// The peer connection.
        peer_connection: P,
    },
    /// The answer is to be read back, with the gathered candidates in it.
    ReadLocalDescription {
        /// The peer connection.
        peer_connection: P,
    },
    /// The watch for further signals of the other end is to be started.
    WatchSignals {
        /// The peer connection.
        peer_connection: P,
        /// The text of the answer.
        sdp: String,
    },
    /// The answer is to be signaled.
    SignalAnswer {
        /// The peer connection.
        peer_connection: P,
        /// The text of the answer.
        sdp: String,
    },
    /// The data channels of the other end are waited for.
    AwaitChannels {
        /// The peer connection.
        peer_connection: P,
    },
    /// The reliable data channel is to open.
    OpenReliable {
        /// The connection so far.
        link: Link<P, C>,
    },
    /// The unreliable data channel is to open.
    OpenUnreliable {
        /// The connection so far.
        link: Link<P, C>,
    },
    /// The connection stands.
    Established {
        /// The connection.
        link: Link<P, C>,
    },
    /// The negotiation failed.
    Failed {
        /// How.
        failure: Failure,
    },
}

/// The result of a step towards an answer.
pub enum AnswerEvent<P, C> {
    /// The credentials were fetched.
    Credentials(Result<Option<Credentials>, NethernetError>),
    /// The peer connection was built.
    PeerConnection(Result<P, NethernetError>),
    /// The remote description was set.
    RemoteDescriptionSet(Result<(), webrtc::error::Error>),
    /// The answer was created.
    Answer(Result<LocalDescription, webrtc::error::Error>),
    /// The local description was set.
    LocalDescriptionSet {
        /// Whether it was accepted.
        result: Result<(), webrtc::error::Error>,
        /// Whether candidates go within the answer and not after it.
        disable_trickle_ice: bool,
    },
    /// The forwarding of local candidates was started.
    Forwarding,
    /// The wait for gathering is over.
    Gathered(Result<(), NethernetError>),
    /// The text of the local description was read back, if there is one.
    LocalSdp(Option<String>),
    /// The watch for further signals was started.
    Watching,
    /// The answer was signaled.
    AnswerSignaled(Result<(), NethernetError>),
    /// The wait for the reliable and the unreliable channel is over.
    Channels(Result<(C, C), NethernetError>),
    /// The wait for a data channel to open is over.
    ChannelOpen(Result<(), NethernetError>),
    /// The negotiation was cancelled.
    Cancelled,
}

/// The step towards an answer to take next.
pub enum AnswerAction<'a, P, C> {
    /// Fetch the credentials for the relay servers.
    FetchCredentials,
    /// Build a peer connection that uses the servers of the credentials.
    BuildPeerConnection(Option<&'a Credentials>),
    /// Make the offer the remote description.
    SetRemoteDescription(&'a P, &'a RTCSessionDescription),
    /// Create the answer.
    CreateAnswer(&'a P),
    /// Make the answer the local description.
    SetLocalDescription(&'a P, &'a RTCSessionDescription),
    /// Start to forward local candidates to the other end.
    ForwardCandidates,
    /// Wait until the local candidates are gathered, for so long.
    AwaitGathering(Duration),
    /// Read the local description back.
    ReadLocalDescription(&'a P),
    /// Start to watch for further signals of the other end.
    WatchSignals(&'a P),
    /// Signal the answer.
    SignalAnswer(Signal),
    /// Wait for the data channels of the other end, for so long.
    AwaitChannels(Duration),
    /// Wait until a data channel opens, for so long.
    AwaitOpen(&'a C, Duration),
    /// The negotiation is over.
    Finish,
}

/// The answer to the offer of a remote network.
pub struct Answering<P, C> {
    /// The connection.
    pub connection_id: u64,
    /// The remote network.
    pub network_id: String,
    /// How long the waits may take.
    pub timeouts: Timeouts,
    /// Where the answer stands.
    pub state: AnswerState<P, C>,
}

impl<P, C> AnswerEvent<P, C> {
    /// The error that a failed step brought.
    pub open spec fn failure(self) -> Option<NethernetError> {
        match self {
            AnswerEvent::Credentials(Err(error)) => Some(error),
            AnswerEvent::PeerConnection(Err(error)) => Some(error),
            AnswerEvent::RemoteDescriptionSet(Err(error)) => Some(NethernetError::WebRtc(error)),
            AnswerEvent::Answer(Err(error)) => Some(NethernetError::WebRtc(error)),
            AnswerEvent::LocalDescriptionSet { result: Err(error), .. } => Some(NethernetError::WebRtc(error)),
            AnswerEvent::Gathered(Err(error)) => Some(error),
            AnswerEvent::AnswerSignaled(Err(error)) => Some(error),
            AnswerEvent::Channels(Err(error)) => Some(error),
            AnswerEvent::ChannelOpen(Err(error)) => Some(error),
            _ => None,
        }
    }
}

impl<P, C> AnswerState<P, C> {
    /// Whether the answer is over: the connection stands, or the negotiation failed.
    pub open spec fn is_over(self) -> bool {
        self is Established || self is Failed
    }

    /// Whether the answer, standing here, waits for such an event.
    pub open spec fn expects(self, event: AnswerEvent<P, C>) -> bool {
        match self {
            AnswerState::Credentials { .. } => event is Credentials,
            AnswerState::PeerConnection { .. } => event is PeerConnection,
            AnswerState::SetRemoteDescription { .. } => event is RemoteDescriptionSet,
            AnswerState::CreateAnswer { .. } => event is Answer,
            AnswerState::SetLocalDescription { .. } => event is LocalDescriptionSet,
            AnswerState::ForwardCandidates { .. } => event is Forwarding,
            AnswerState::Gathering { .. } => event is Gathered,
            AnswerState::ReadLocalDescription { .. } => event is LocalSdp,
            AnswerState::WatchSignals { .. } => event is Watching,
            AnswerState::SignalAnswer { .. } => event is AnswerSignaled,
            AnswerState::AwaitChannels { .. } => event is Channels,
            AnswerState::OpenReliable { .. } => event is ChannelOpen,
            AnswerState::OpenUnreliable { .. } => event is ChannelOpen,
            AnswerState::Established { .. } => false,
            AnswerState::Failed { .. } => false,
        }
    }

    /// What the other end is told if the step to take here fails.
    pub open spec fn failure_code(self) -> Option<SignalErrorCode> {
        match self {
            AnswerState::Credentials { .. } => Some(SignalErrorCode::SignalingTurnAuthFailed),
            AnswerState::PeerConnection { .. } => Some(SignalErrorCode::FailedToCreatePeerConnection),
            AnswerState::SetRemoteDescription { .. } => Some(SignalErrorCode::FailedToSetRemoteDescription),
            AnswerState::CreateAnswer { .. } => Some(SignalErrorCode::FailedToCreateAnswer),
            AnswerState::SetLocalDescription { .. } => Some(SignalErrorCode::FailedToSetLocalDescription),
            AnswerState::Gathering { .. } => Some(SignalErrorCode::FailedToCreateAnswer),
            AnswerState::ReadLocalDescription { .. } => Some(SignalErrorCode::FailedToCreateAnswer),
            AnswerState::AwaitChannels { .. } => Some(SignalErrorCode::NegotiationTimeoutWaitingForAccept),
            AnswerState::OpenReliable { .. } => Some(SignalErrorCode::NegotiationTimeoutWaitingForAccept),
            AnswerState::OpenUnreliable { .. } => Some(SignalErrorCode::NegotiationTimeoutWaitingForAccept),
            _ => None,
        }
    }

    /// Whether the negotiation failed with a code for the other end and an error for the caller.
    pub open spec fn failed_with(self, code: Option<SignalErrorCode>, error: crate::error::ErrorView) -> bool {
        self matches AnswerState::Failed { failure } && failure.says(code, error)
    }

    /// Whether this is where the answer to an offer begins, given the description
    /// that the offer was parsed to, or why it could not be parsed.
    pub open spec fn begins(self, parsed: Result<RTCSessionDescription, webrtc::error::Error>) -> bool {
        match parsed {
            Ok(offer) => self == (AnswerState::<P, C>::Credentials { offer }),
            Err(error) => self.failed_with(
                Some(SignalErrorCode::FailedToSetRemoteDescription),
                crate::error::ErrorView::WebRtc(error),
            ),
        }
    }

    /// Whether `next` follows once the step to take here was taken and did not fail.
    pub open spec fn succeeded(self, event: AnswerEvent<P, C>, next: Self) -> bool {
        match (self, event) {
            (AnswerState::Credentials { offer }, AnswerEvent::Credentials(Ok(credentials))) => {
                next == (AnswerState::<P, C>::PeerConnection { offer, credentials })
            },
            (AnswerState::PeerConnection { offer, .. }, AnswerEvent::PeerConnection(Ok(peer_connection))) => {
                next == (AnswerState::<P, C>::SetRemoteDescription { peer_connection, offer })
            },
            (AnswerState::SetRemoteDescription { peer_connection, .. }, AnswerEvent::RemoteDescriptionSet(Ok(()))) => {
                next == (AnswerState::<P, C>::CreateAnswer { peer_connection })
            },
            (AnswerState::CreateAnswer { peer_connection }, AnswerEvent::Answer(Ok(answer))) => {
                next == (AnswerState::<P, C>::SetLocalDescription { peer_connection, answer })
            },
            (
                AnswerState::SetLocalDescription { peer_connection, answer },
                AnswerEvent::LocalDescriptionSet { disable_trickle_ice, .. },
            ) => if disable_trickle_ice {
                next == (AnswerState::<P, C>::Gathering { peer_connection })
            } else {
                next == (AnswerState::<P, C>::ForwardCandidates { peer_connection, sdp: answer.sdp })
            },
            (AnswerState::ForwardCandidates { peer_connection, sdp }, AnswerEvent::Forwarding) => {
                next == (AnswerState::<P, C>::WatchSignals { peer_connection, sdp })
            },
            (AnswerState::Gathering { peer_connection }, AnswerEvent::Gathered(Ok(()))) => {
                next == (AnswerState::<P, C>::ReadLocalDescription { peer_connection })
            },
            (AnswerState::ReadLocalDescription { peer_connection }, AnswerEvent::LocalSdp(Some(sdp))) => {
                next == (AnswerState::<P, C>::WatchSignals { peer_connection, sdp })
            },
            (AnswerState::ReadLocalDescription { .. }, AnswerEvent::LocalSdp(None)) => {
                next.failed_with(
                    self.failure_code(),
                    crate::error::ErrorView::InvalidState("missing local description"@),
                )
            },
            (AnswerState::WatchSignals { peer_connection, sdp }, AnswerEvent::Watching) => {
                next == (AnswerState::<P, C>::SignalAnswer { peer_connection, sdp })
            },
            (AnswerState::SignalAnswer { peer_connection, .. }, AnswerEvent::AnswerSignaled(Ok(()))) => {
                next == (AnswerState::<P, C>::AwaitChannels { peer_connection })
            },
            (AnswerState::AwaitChannels { peer_connection }, AnswerEvent::Channels(Ok((reliable, unreliable)))) => {
                next == (AnswerState::<P, C>::OpenReliable { link: Link { peer_connection, reliable, unreliable } })
            },
            (AnswerState::OpenReliable { link }, AnswerEvent::ChannelOpen(Ok(()))) => {
                next == (AnswerState::<P, C>::OpenUnreliable { link })
            },
            (AnswerState::OpenUnreliable { link }, AnswerEvent::ChannelOpen(Ok(()))) => {
                next == (AnswerState::<P, C>::Established { link })
            },
            _ => false,
        }
    }

    /// Whether `next` follows an event. An answer that is not over is ended by being
    /// cancelled. Otherwise, an event that is not waited for changes nothing; a step
    /// that fails ends the negotiation; any other step leads on.
    pub open spec fn follows(self, event: AnswerEvent<P, C>, next: Self) -> bool {
        if event is Cancelled && !self.is_over() {
            next.failed_with(None, crate::error::ErrorView::ConnectionClosed)
        } else if !self.expects(event) {
            next == self
        } else {
            match event.failure() {
                Some(error) => next == (AnswerState::<P, C>::Failed {
                    failure: Failure { code: self.failure_code(), error },
                }),
                None => self.succeeded(event, next),
            }
        }
    }

    /// Where the answer begins, given the description that the offer was parsed
    /// to, or why it could not be parsed.
    pub fn offer_parsed(parsed: Result<RTCSessionDescription, webrtc::error::Error>) -> (state: Self)
        ensures
            state.begins(parsed),
    {
        match parsed {
            Ok(offer) => AnswerState::Credentials { offer },
            Err(error) => AnswerState::Failed {
                failure: Failure::reported(
                    SignalErrorCode::FailedToSetRemoteDescription,
                    NethernetError::WebRtc(error),
                ),
            },
        }
    }
}

impl<P, C> Answering<P, C> {
    /// Whether a step is the one to take next.
    pub open spec fn asks_for(self, action: AnswerAction<P, C>) -> bool {
        match self.state {
            AnswerState::Credentials { .. } => action is FetchCredentials,
            AnswerState::PeerConnection { credentials, .. } => action == AnswerAction::<P, C>::BuildPeerConnection(
                match credentials {
                    Some(credentials) => Some(&credentials),
                    None => None,
                },
            ),
            AnswerState::SetRemoteDescription { peer_connection, offer } => action == AnswerAction::<
                P,
                C,
            >::SetRemoteDescription(&peer_connection, &offer),
            AnswerState::CreateAnswer { peer_connection } => action == AnswerAction::<P, C>::CreateAnswer(
                &peer_connection,
            ),
            AnswerState::SetLocalDescription { peer_connection, answer } => action == AnswerAction::<
                P,
                C,
            >::SetLocalDescription(&peer_connection, &answer.description),
            AnswerState::ForwardCandidates { .. } => action is ForwardCandidates,
            AnswerState::Gathering { .. } => action == AnswerAction::<P, C>::AwaitGathering(self.timeouts.start),
            AnswerState::ReadLocalDescription { peer_connection } => action == AnswerAction::<
                P,
                C,
            >::ReadLocalDescription(&peer_connection),
            AnswerState::WatchSignals { peer_connection, .. } => action == AnswerAction::<P, C>::WatchSignals(
                &peer_connection,
            ),
            AnswerState::SignalAnswer { sdp, .. } => action == AnswerAction::<P, C>::SignalAnswer(
                Signal {
                    signal_type: SignalType::Answer,
                    connection_id: self.connection_id,
                    data: sdp,
                    network_id: self.network_id,
                },
            ),
            AnswerState::AwaitChannels { .. } => action == AnswerAction::<P, C>::AwaitChannels(self.timeouts.channel),
            AnswerState::OpenReliable { link } => action == AnswerAction::<P, C>::AwaitOpen(
                &link.reliable,
                self.timeouts.channel,
            ),
            AnswerState::OpenUnreliable { link } => action == AnswerAction::<P, C>::AwaitOpen(
                &link.unreliable,
                self.timeouts.channel,
            ),
            AnswerState::Established { .. } => action is Finish,
            AnswerState::Failed { .. } => action is Finish,
        }
    }

    /// Whether this is what becomes of an answer after an event: its state moves, and
    /// all else stays.
    pub open spec fn leads_to(self, event: AnswerEvent<P, C>, after: Self) -> bool {
        &&& after.connection_id == self.connection_id
        &&& after.network_id == self.network_id
        &&& after.timeouts == self.timeouts
        &&& self.state.follows(event, after.state)
    }

    /// Whether this is where the answer to an offer begins.
    pub open spec fn answers(self, offer: Signal, timeouts: Timeouts) -> bool {
        &&& self.connection_id == offer.connection_id
        &&& self.network_id == offer.network_id
        &&& self.timeouts == timeouts
        &&& self.state.begins(crate::transport::offer_description(offer.data@))
    }

    /// Whether this is what an answer comes to, on a network.
    pub open spec fn comes_to(self, local_network_id: String, outcome: Option<Result<Session<P, C>, Failure>>) -> bool {
        match self.state {
            AnswerState::Established { link } => outcome matches Some(Ok(session)) && link.carries(
                session,
                self.connection_id,
                local_network_id,
                self.network_id,
            ),
            AnswerState::Failed { failure } => outcome == Some(Err::<Session<P, C>, Failure>(failure)),
            _ => outcome is None,
        }
    }

    /// The answer to an offer, at its beginning.
    pub fn new(offer: Signal, timeouts: Timeouts) -> (answering: Self)
        ensures
            answering.connection_id == offer.connection_id,
            answering.network_id == offer.network_id,
            answering.timeouts == timeouts,
            answering.state.begins(crate::transport::offer_description(offer.data@)),
            answering.answers(offer, timeouts),
    {
        Answering {
            connection_id: offer.connection_id,
            network_id: offer.network_id,
            timeouts,
            state: AnswerState::offer_parsed(parse_offer(offer.data)),
        }
    }

    /// The step to take next.
    pub fn action(&self) -> (action: AnswerAction<'_, P, C>)
        ensures
            self.asks_for(action),
    {
        match &self.state {
            AnswerState::Credentials { .. } => AnswerAction::FetchCredentials,
            AnswerState::PeerConnection { credentials, .. } => AnswerAction::BuildPeerConnection(
                credentials.as_ref(),
            ),
            AnswerState::SetRemoteDescription { peer_connection, offer } => AnswerAction::SetRemoteDescription(
                peer_connection,
                offer,
            ),
            AnswerState::CreateAnswer { peer_connection } => AnswerAction::CreateAnswer(peer_connection),
            AnswerState::SetLocalDescription { peer_connection, answer } => AnswerAction::SetLocalDescription(
                peer_connection,
                &answer.description,
            ),
            AnswerState::ForwardCandidates { .. } => AnswerAction::ForwardCandidates,
            AnswerState::Gathering { .. } => AnswerAction::AwaitGathering(self.timeouts.start),
            AnswerState::ReadLocalDescription { peer_connection } => AnswerAction::ReadLocalDescription(
                peer_connection,
            ),
            AnswerState::WatchSignals { peer_connection, .. } => AnswerAction::WatchSignals(peer_connection),
            AnswerState::SignalAnswer { sdp, .. } => AnswerAction::SignalAnswer(
                Signal::answer(self.connection_id, sdp.clone(), self.network_id.clone()),
            ),
            AnswerState::AwaitChannels { .. } => AnswerAction::AwaitChannels(self.timeouts.channel),
            AnswerState::OpenReliable { link } => AnswerAction::AwaitOpen(&link.reliable, self.timeouts.channel),
            AnswerState::OpenUnreliable { link } => AnswerAction::AwaitOpen(&link.unreliable, self.timeouts.channel),
            AnswerState::Established { .. } => AnswerAction::Finish,
            AnswerState::Failed { .. } => AnswerAction::Finish,
        }
    }

    /// The answer after an event.
    pub fn answer_offer(self, event: AnswerEvent<P, C>) -> (after: Self)
        ensures
            after.connection_id == self.connection_id,
            after.network_id == self.network_id,
            after.timeouts == self.timeouts,
            self.state.follows(event, after.state),
            self.leads_to(event, after),
    {
        let state = match (self.state, event) {
            (AnswerState::Established { link }, AnswerEvent::Cancelled) => AnswerState::Established { link },
            (AnswerState::Failed { failure }, AnswerEvent::Cancelled) => AnswerState::Failed { failure },
            (_, AnswerEvent::Cancelled) => AnswerState::Failed {
                failure: Failure::silent(NethernetError::ConnectionClosed),
            },
            (AnswerState::Credentials { offer }, AnswerEvent::Credentials(result)) => match result {
                Ok(credentials) => AnswerState::PeerConnection { offer, credentials },
                Err(error) => AnswerState::Failed {
                    failure: Failure::reported(SignalErrorCode::SignalingTurnAuthFailed, error),
                },
            },
            (AnswerState::PeerConnection { offer, .. }, AnswerEvent::PeerConnection(result)) => match result {
                Ok(peer_connection) => AnswerState::SetRemoteDescription { peer_connection, offer },
                Err(error) => AnswerState::Failed {
                    failure: Failure::reported(SignalErrorCode::FailedToCreatePeerConnection, error),
                },
            },
            (AnswerState::SetRemoteDescription { peer_connection, .. }, AnswerEvent::RemoteDescriptionSet(result)) => {
                match result {
                    Ok(()) => AnswerState::CreateAnswer { peer_connection },
                    Err(error) => AnswerState::Failed {
                        failure: Failure::reported(
                            SignalErrorCode::FailedToSetRemoteDescription,
                            NethernetError::WebRtc(error),
                        ),
                    },
                }
            },
            (AnswerState::CreateAnswer { peer_connection }, AnswerEvent::Answer(result)) => match result {
                Ok(answer) => AnswerState::SetLocalDescription { peer_connection, answer },
                Err(error) => AnswerState::Failed {
                    failure: Failure::reported(SignalErrorCode::FailedToCreateAnswer, NethernetError::WebRtc(error)),
                },
            },
            (
                AnswerState::SetLocalDescription { peer_connection, answer },
                AnswerEvent::LocalDescriptionSet { result, disable_trickle_ice },
            ) => match result {
                Ok(()) => if disable_trickle_ice {
                    AnswerState::Gathering { peer_connection }
                } else {
                    AnswerState::ForwardCandidates { peer_connection, sdp: answer.sdp }
                },
                Err(error) => AnswerState::Failed {
                    failure: Failure::reported(
                        SignalErrorCode::FailedToSetLocalDescription,
                        NethernetError::WebRtc(error),
                    ),
                },
            },
            (AnswerState::ForwardCandidates { peer_connection, sdp }, AnswerEvent::Forwarding) => {
                AnswerState::WatchSignals { peer_connection, sdp }
            },
            (AnswerState::Gathering { peer_connection }, AnswerEvent::Gathered(result)) => match result {
                Ok(()) => AnswerState::ReadLocalDescription { peer_connection },
                Err(error) => AnswerState::Failed {
                    failure: Failure::reported(SignalErrorCode::FailedToCreateAnswer, error),
                },
            },
            (AnswerState::ReadLocalDescription { peer_connection }, AnswerEvent::LocalSdp(sdp)) => match sdp {
                Some(sdp) => AnswerState::WatchSignals { peer_connection, sdp },
                None => AnswerState::Failed {
                    failure: Failure::reported(
                        SignalErrorCode::FailedToCreateAnswer,
                        NethernetError::InvalidState("missing local description".to_owned()),
                    ),
                },
            },
            (AnswerState::WatchSignals { peer_connection, sdp }, AnswerEvent::Watching) => {
                AnswerState::SignalAnswer { peer_connection, sdp }
            },
            (AnswerState::SignalAnswer { peer_connection, .. }, AnswerEvent::AnswerSignaled(result)) => match result {
                Ok(()) => AnswerState::AwaitChannels { peer_connection },
                Err(error) => AnswerState::Failed { failure: Failure::silent(error) },
            },
            (AnswerState::AwaitChannels { peer_connection }, AnswerEvent::Channels(result)) => match result {
                Ok((reliable, unreliable)) => AnswerState::OpenReliable {
                    link: Link { peer_connection, reliable, unreliable },
                },
                Err(error) => AnswerState::Failed {
                    failure: Failure::reported(SignalErrorCode::NegotiationTimeoutWaitingForAccept, error),
                },
            },
            (AnswerState::OpenReliable { link }, AnswerEvent::ChannelOpen(result)) => match result {
                Ok(()) => AnswerState::OpenUnreliable { link },
                Err(error) => AnswerState::Failed {
                    failure: Failure::reported(SignalErrorCode::NegotiationTimeoutWaitingForAccept, error),
                },
            },
            (AnswerState::OpenUnreliable { link }, AnswerEvent::ChannelOpen(result)) => match result {
                Ok(()) => AnswerState::Established { link },
                Err(error) => AnswerState::Failed {
                    failure: Failure::reported(SignalErrorCode::NegotiationTimeoutWaitingForAccept, error),
                },
            },
            (state, _) => state,
        };
        Answering {
            connection_id: self.connection_id,
            network_id: self.network_id,
            timeouts: self.timeouts,
            state,
        }
    }

    /// What the answer came to, once it is over: a session, or a failure.
    pub fn finish(self, local_network_id: String) -> (outcome: Option<Result<Session<P, C>, Failure>>)
        ensures
            match self.state {
                AnswerState::Established { link } => outcome matches Some(Ok(session)) && link.carries(
                    session,
                    self.connection_id,
                    local_network_id,
                    self.network_id,
                ),
                AnswerState::Failed { failure } => outcome == Some(Err::<Session<P, C>, Failure>(failure)),
                _ => outcome is None,
            },
            self.comes_to(local_network_id, outcome),
    {
        match self.state {
            AnswerState::Established { link } => Some(
                link.establish(self.connection_id, local_network_id, self.network_id),
            ),
            AnswerState::Failed { failure } => Some(Err(failure)),
            _ => None,
        }
    }
}

/// The result of handing an established session to whoever accepts sessions. A
/// session that nobody accepts any more is a failure that the other end is not
/// told of.
pub fn session_delivered(accepted: bool) -> (result: Result<(), Failure>)
    ensures
        accepted ==> result is Ok,
        !accepted ==> (result matches Err(failure) && failure.says(
            None,
            crate::error::ErrorView::ConnectionClosed,
        )),
        !accepted ==> (result matches Err(failure) && failure.code is None && failure.error is ConnectionClosed),
{
    if accepted {
        Ok(())
    } else {
        Err(Failure::silent(NethernetError::ConnectionClosed))
    }
}

/// A course of an answer: the states that it passes through, and the event
/// between each and the next.
pub struct AnswerCourse<P, C> {
    /// The states, one more than there are events.
    pub states: Seq<AnswerState<P, C>>,
    /// The events.
    pub events: Seq<AnswerEvent<P, C>>,
}

/// Where in a course the steps that a connection needs were taken.
pub struct AnswerMilestones {
    /// The offer was made the remote description.
    pub accepted: int,
    /// The answer was made the local description.
    pub described: int,
    /// The answer was signaled.
    pub signaled: int,
    /// The data channels of the other end came.
    pub channels: int,
    /// The reliable data channel opened.
    pub first_open: int,
    /// The unreliable data channel opened.
    pub second_open: int,
}

impl<P, C> AnswerState<P, C> {
    /// How much of the answer is done: nothing of note; the offer made the remote
    /// description; the answer made the local description; the answer signaled;
    /// the channels there; the first open; and the second.
    pub open spec fn stage(self) -> nat {
        match self {
            AnswerState::CreateAnswer { .. } => 1,
            AnswerState::SetLocalDescription { .. } => 1,
            AnswerState::ForwardCandidates { .. } => 2,
            AnswerState::Gathering { .. } => 2,
            AnswerState::ReadLocalDescription { .. } => 2,
            AnswerState::WatchSignals { .. } => 2,
            AnswerState::SignalAnswer { .. } => 2,
            AnswerState::AwaitChannels { .. } => 3,
            AnswerState::OpenReliable { .. } => 4,
            AnswerState::OpenUnreliable { .. } => 5,
            AnswerState::Established { .. } => 6,
            _ => 0,
        }
    }
}

impl<P, C> AnswerState<P, C> {
    /// The connection, once it is complete.
    pub open spec fn link(self) -> Option<Link<P, C>> {
        match self {
            AnswerState::OpenReliable { link } => Some(link),
            AnswerState::OpenUnreliable { link } => Some(link),
            AnswerState::Established { link } => Some(link),
            _ => None,
        }
    }

    /// The place of the step to take here in the order of all steps.
    pub open spec fn rank(self) -> nat {
        match self {
            AnswerState::Credentials { .. } => 0,
            AnswerState::PeerConnection { .. } => 1,
            AnswerState::SetRemoteDescription { .. } => 2,
            AnswerState::CreateAnswer { .. } => 3,
            AnswerState::SetLocalDescription { .. } => 4,
            AnswerState::ForwardCandidates { .. } => 5,
            AnswerState::Gathering { .. } => 6,
            AnswerState::ReadLocalDescription { .. } => 7,
            AnswerState::WatchSignals { .. } => 8,
            AnswerState::SignalAnswer { .. } => 9,
            AnswerState::AwaitChannels { .. } => 10,
            AnswerState::OpenReliable { .. } => 11,
            AnswerState::OpenUnreliable { .. } => 12,
            AnswerState::Established { .. } => 13,
            AnswerState::Failed { .. } => 14,
        }
    }

    /// The offer, as long as it is not accepted.
    pub open spec fn offer(self) -> Option<RTCSessionDescription> {
        match self {
            AnswerState::Credentials { offer } => Some(offer),
            AnswerState::PeerConnection { offer, .. } => Some(offer),
            AnswerState::SetRemoteDescription { offer, .. } => Some(offer),
            _ => None,
        }
    }

    /// The peer connection, once it is built.
    pub open spec fn built(self) -> Option<P> {
        match self {
            AnswerState::SetRemoteDescription { peer_connection, .. } => Some(peer_connection),
            AnswerState::CreateAnswer { peer_connection } => Some(peer_connection),
            AnswerState::SetLocalDescription { peer_connection, .. } => Some(peer_connection),
            AnswerState::ForwardCandidates { peer_connection, .. } => Some(peer_connection),
            AnswerState::Gathering { peer_connection } => Some(peer_connection),
            AnswerState::ReadLocalDescription { peer_connection } => Some(peer_connection),
            AnswerState::WatchSignals { peer_connection, .. } => Some(peer_connection),
            AnswerState::SignalAnswer { peer_connection, .. } => Some(peer_connection),
            AnswerState::AwaitChannels { peer_connection } => Some(peer_connection),
            AnswerState::OpenReliable { link } => Some(link.peer_connection),
            AnswerState::OpenUnreliable { link } => Some(link.peer_connection),
            AnswerState::Established { link } => Some(link.peer_connection),
            _ => None,
        }
    }
}

/// Where in a course the text of the answer came from.
pub struct AnswerSource {
    /// The answer was created.
    pub created: int,
    /// The answer was made the local description.
    pub described: int,
    /// The local candidates were gathered.
    pub gathered: int,
    /// The local description was read back.
    pub read: int,
}

impl<P, C> AnswerCourse<P, C> {
    /// Whether an answer was created at a place.
    pub open spec fn creates_answer(self, at: int, answer: LocalDescription) -> bool {
        &&& 0 <= at < self.events.len()
        &&& self.states[at] is CreateAnswer
        &&& self.events[at] == AnswerEvent::<P, C>::Answer(Ok(answer))
    }

    /// Whether an answer was made the local description at a place, with candidates
    /// to go within it or not.
    pub open spec fn describes(self, at: int, answer: LocalDescription, disable_trickle_ice: bool) -> bool {
        &&& 0 <= at < self.events.len()
        &&& self.states[at] matches AnswerState::SetLocalDescription { answer: set, .. } && set == answer
        &&& self.events[at] matches AnswerEvent::LocalDescriptionSet { result: Ok(_), disable_trickle_ice: disable }
            && disable == disable_trickle_ice
    }

    /// Whether the local candidates were gathered at a place.
    pub open spec fn gathers(self, at: int) -> bool {
        &&& 0 <= at < self.events.len()
        &&& self.states[at] is Gathering
        &&& self.events[at] matches AnswerEvent::Gathered(Ok(_))
    }

    /// Whether a text was read back as the local description at a place.
    pub open spec fn reads_back(self, at: int, sdp: String) -> bool {
        &&& 0 <= at < self.events.len()
        &&& self.states[at] is ReadLocalDescription
        &&& self.events[at] == AnswerEvent::<P, C>::LocalSdp(Some(sdp))
    }

    /// Whether a text is the one to signal as an answer, by where it came from. Where
    /// candidates go within the answer, it was read back after they were gathered;
    /// otherwise it is the text of the answer as created.
    pub open spec fn settles_answer_text(
        self,
        at: AnswerSource,
        answer: LocalDescription,
        disable_trickle_ice: bool,
        sdp: String,
    ) -> bool {
        &&& at.created < at.described
        &&& self.creates_answer(at.created, answer)
        &&& self.describes(at.described, answer, disable_trickle_ice)
        &&& if disable_trickle_ice {
            at.described < at.gathered < at.read && self.gathers(at.gathered) && self.reads_back(at.read, sdp)
        } else {
            sdp == answer.sdp
        }
    }

    /// Whether places account for what the last state holds of the answer's text.
    spec fn traces(self, at: AnswerSource, answer: LocalDescription, disable_trickle_ice: bool) -> bool {
        match self.states.last() {
            AnswerState::SetLocalDescription { answer: set, .. } => {
                set == answer && self.creates_answer(at.created, answer)
            },
            AnswerState::ForwardCandidates { sdp, .. } => {
                !disable_trickle_ice && self.settles_answer_text(at, answer, disable_trickle_ice, sdp)
            },
            AnswerState::Gathering { .. } => {
                &&& disable_trickle_ice && at.created < at.described
                &&& self.creates_answer(at.created, answer)
                &&& self.describes(at.described, answer, disable_trickle_ice)
            },
            AnswerState::ReadLocalDescription { .. } => {
                &&& disable_trickle_ice && at.created < at.described < at.gathered
                &&& self.creates_answer(at.created, answer)
                &&& self.describes(at.described, answer, disable_trickle_ice)
                &&& self.gathers(at.gathered)
            },
            AnswerState::WatchSignals { sdp, .. } => self.settles_answer_text(at, answer, disable_trickle_ice, sdp),
            AnswerState::SignalAnswer { sdp, .. } => self.settles_answer_text(at, answer, disable_trickle_ice, sdp),
            _ => true,
        }
    }

    /// Whether an event brought the peer connection.
    pub open spec fn builds(self, at: int, peer_connection: P) -> bool {
        0 <= at < self.events.len() && self.events[at] == AnswerEvent::<P, C>::PeerConnection(Ok(peer_connection))
    }

    /// Whether the states follow one another, from the beginning of an answer.
    pub open spec fn valid(self) -> bool {
        &&& self.states.len() == self.events.len() + 1
        &&& self.states[0] is Credentials || self.states[0] is Failed
        &&& forall|i: int|
            0 <= i < self.events.len() ==> (#[trigger] self.states[i]).follows(self.events[i], self.states[i + 1])
    }

    /// The course up to the event before the last.
    pub open spec fn shorter(self) -> Self {
        AnswerCourse { states: self.states.drop_last(), events: self.events.drop_last() }
    }

    /// How much of the answer is done at each state.
    pub open spec fn stages(self) -> Seq<nat> {
        self.states.map_values(|state: AnswerState<P, C>| state.stage())
    }

    /// Whether the steps that a connection needs were taken at these places, in order.
    pub open spec fn passes(self, at: AnswerMilestones) -> bool {
        &&& 0 <= at.accepted < at.described < at.signaled < at.channels < at.first_open < at.second_open
            < self.events.len()
        &&& self.events[at.accepted] matches AnswerEvent::RemoteDescriptionSet(Ok(_))
        &&& self.events[at.described] matches AnswerEvent::LocalDescriptionSet { result: Ok(_), .. }
        &&& self.events[at.signaled] matches AnswerEvent::AnswerSignaled(Ok(_))
        &&& self.states.last() matches AnswerState::Established { link } && {
            &&& self.events[at.channels] == AnswerEvent::<P, C>::Channels(Ok((link.reliable, link.unreliable)))
            &&& self.states[at.first_open] == AnswerState::<P, C>::OpenReliable { link }
            &&& self.states[at.second_open] == AnswerState::<P, C>::OpenUnreliable { link }
        }
        &&& self.events[at.first_open] matches AnswerEvent::ChannelOpen(Ok(_))
        &&& self.events[at.second_open] matches AnswerEvent::ChannelOpen(Ok(_))
    }
}

/// Once a connection stands, or its negotiation failed, no event changes that.
pub proof fn law_answer_is_final<P, C>(state: AnswerState<P, C>, event: AnswerEvent<P, C>, next: AnswerState<P, C>)
    requires
        state is Established || state is Failed,
        state.follows(event, next),
    ensures
        next == state,
{
}

/// An offer that cannot be parsed is refused: the answer fails at its beginning,
/// and the end that offered is told that its description was not accepted.
pub proof fn law_unreadable_offer_is_refused<P, C>(
    offer: Signal,
    error: webrtc::error::Error,
    state: AnswerState<P, C>,
)
    requires
        crate::transport::offer_description(offer.data@) == Err::<RTCSessionDescription, webrtc::error::Error>(error),
        state.begins(crate::transport::offer_description(offer.data@)),
    ensures
        state.failed_with(
            Some(SignalErrorCode::FailedToSetRemoteDescription),
            crate::error::ErrorView::WebRtc(error),
        ),
        state->failure.report(offer.connection_id, offer.network_id) == Some(
            crate::signal::ErrorSignal {
                connection_id: offer.connection_id,
                code: SignalErrorCode::FailedToSetRemoteDescription,
                network_id: offer.network_id,
            },
        ),
{
}

/// An answer fails only for a cause: it was cancelled, a step failed, or the local
/// description is missing.
pub proof fn law_answer_failure_has_a_cause<P, C>(
    state: AnswerState<P, C>,
    event: AnswerEvent<P, C>,
    next: AnswerState<P, C>,
)
    requires
        !(state is Failed),
        state.follows(event, next),
    ensures
        next is Failed <==> {
            ||| event is Cancelled && !(state is Established)
            ||| state.expects(event) && (event.failure() is Some || event == AnswerEvent::<P, C>::LocalSdp(None))
        },
{
}

/// A cancelled answer gives no session: whatever comes after, it has failed with a
/// closed connection, and the other end is not told.
pub proof fn law_cancelled_answer_gives_no_session<P, C>(course: AnswerCourse<P, C>, at: int)
    requires
        course.valid(),
        0 <= at < course.events.len(),
        !course.states[at].is_over(),
        course.events[at] is Cancelled,
    ensures
        course.states.last().failed_with(None, crate::error::ErrorView::ConnectionClosed),
    decreases course.events.len(),
{
    lemma_last_step(course);
    if at < course.events.len() - 1 {
        law_cancelled_answer_gives_no_session(course.shorter(), at);
    }
}

/// The other end is told of every failure but two: that the answer could not be
/// signaled, and that it was cancelled.
pub proof fn law_answer_failures_are_reported<P, C>(
    state: AnswerState<P, C>,
    event: AnswerEvent<P, C>,
    next: AnswerState<P, C>,
)
    requires
        !(state is Failed),
        state.follows(event, next),
        next is Failed,
    ensures
        next->failure.code is None <==> event is AnswerSignaled || event is Cancelled,
{
}

pub(crate) proof fn lemma_last_step<P, C>(course: AnswerCourse<P, C>)
    requires
        course.valid(),
        course.events.len() > 0,
    ensures
        course.shorter().valid(),
        course.states[course.events.len() - 1] == course.shorter().states.last(),
        course.states[course.events.len() - 1].follows(course.events.last(), course.states.last()),
{
    let shorter = course.shorter();
    assert forall|i: int| 0 <= i < shorter.events.len() implies (#[trigger] shorter.states[i]).follows(
        shorter.events[i],
        shorter.states[i + 1],
    ) by {
        assert(course.states[i].follows(course.events[i], course.states[i + 1]));
    }
}

/// What is made the remote description is the offer that the answer began with.
pub proof fn law_offer_is_kept<P, C>(course: AnswerCourse<P, C>)
    requires
        course.valid(),
    ensures
        course.states.last().offer() matches Some(offer) ==> course.states[0].offer() == Some(offer),
    decreases course.events.len(),
{
    if course.events.len() > 0 {
        lemma_last_step(course);
        law_offer_is_kept(course.shorter());
    }
}

/// The peer connection of an answer is the one that was built for it, all along.
pub proof fn law_answer_uses_connection_built<P, C>(course: AnswerCourse<P, C>)
    requires
        course.valid(),
    ensures
        course.states.last().built() matches Some(peer_connection) ==> exists|at: int|
            course.builds(at, peer_connection),
    decreases course.events.len(),
{
    if course.events.len() > 0 {
        let shorter = course.shorter();
        let n = course.events.len() - 1;
        lemma_last_step(course);
        law_answer_uses_connection_built(shorter);
        if let Some(peer_connection) = course.states.last().built() {
            if shorter.states.last().built() == Some(peer_connection) {
                let at = choose|at: int| shorter.builds(at, peer_connection);
                assert(course.builds(at, peer_connection));
            } else {
                assert(course.builds(n, peer_connection));
            }
        }
    }
}

proof fn lemma_answer_traced<P, C>(course: AnswerCourse<P, C>) -> (traced: (AnswerSource, LocalDescription, bool))
    requires
        course.valid(),
    ensures
        course.traces(traced.0, traced.1, traced.2),
    decreases course.events.len(),
{
    if course.events.len() == 0 {
        arbitrary()
    } else {
        let shorter = course.shorter();
        let n = course.events.len() - 1;
        let state = shorter.states.last();
        lemma_last_step(course);
        let (at, answer, disable) = lemma_answer_traced(shorter);
        if course.states.last() == state {
            (at, answer, disable)
        } else {
            match (state, course.events.last()) {
                (AnswerState::CreateAnswer { .. }, AnswerEvent::Answer(Ok(created))) => {
                    (AnswerSource { created: n, ..at }, created, disable)
                },
                (
                    AnswerState::SetLocalDescription { .. },
                    AnswerEvent::LocalDescriptionSet { disable_trickle_ice, .. },
                ) => (AnswerSource { described: n, ..at }, answer, disable_trickle_ice),
                (AnswerState::Gathering { .. }, _) => (AnswerSource { gathered: n, ..at }, answer, disable),
                (AnswerState::ReadLocalDescription { .. }, _) => (AnswerSource { read: n, ..at }, answer, disable),
                _ => (at, answer, disable),
            }
        }
    }
}

/// Which text is signaled as the answer depends on where candidates go. Where they go
/// within the answer, it is the local description read back after they were gathered;
/// otherwise it is the text of the answer as created, which was made the local
/// description.
pub proof fn law_trickling_decides_the_answer_text<P, C>(course: AnswerCourse<P, C>)
    requires
        course.valid(),
        course.states.last() is SignalAnswer,
    ensures
        exists|at: AnswerSource, answer: LocalDescription, disable_trickle_ice: bool|
            course.settles_answer_text(at, answer, disable_trickle_ice, course.states.last()->SignalAnswer_sdp),
{
    let (at, answer, disable) = lemma_answer_traced(course);
    assert(course.settles_answer_text(at, answer, disable, course.states.last()->SignalAnswer_sdp));
}

proof fn lemma_rank<P, C>(course: AnswerCourse<P, C>, i: int, j: int)
    requires
        course.valid(),
        0 <= i <= j < course.states.len(),
    ensures
        course.states[i].rank() <= course.states[j].rank(),
    decreases j - i,
{
    if i < j {
        lemma_rank(course, i, j - 1);
        assert(course.states[j - 1].follows(course.events[j - 1], course.states[j - 1 + 1]));
    }
}

/// One answer is signaled.
pub proof fn law_one_answer_is_signaled<P, C>(course: AnswerCourse<P, C>, i: int, j: int)
    requires
        course.valid(),
        0 <= i < course.events.len(),
        0 <= j < course.events.len(),
        course.states[i] is SignalAnswer && course.events[i] is AnswerSignaled,
        course.states[j] is SignalAnswer && course.events[j] is AnswerSignaled,
    ensures
        i == j,
{
    assert(course.states[i].follows(course.events[i], course.states[i + 1]));
    assert(course.states[j].follows(course.events[j], course.states[j + 1]));
    if i < j {
        lemma_rank(course, i + 1, j);
    } else if j < i {
        lemma_rank(course, j + 1, i);
    }
}

proof fn lemma_gradual<P, C>(course: AnswerCourse<P, C>)
    requires
        course.valid(),
        !(course.states.last() is Failed),
    ensures
        crate::transport::progress::gradual(course.stages()),
    decreases course.events.len(),
{
    if course.events.len() > 0 {
        lemma_last_step(course);
        lemma_gradual(course.shorter());
        let front = course.shorter().stages();
        let stages = course.stages();
        assert forall|i: int| 0 <= i < stages.len() - 1 implies #[trigger] stages[i] <= stages[i + 1] <= stages[i]
            + 1 by {
            if i < stages.len() - 2 {
                assert(front[i] <= front[i + 1] <= front[i] + 1);
            }
        }
    }
}

/// Which event each stage is entered by.
proof fn lemma_stage_entered<P, C>(course: AnswerCourse<P, C>, at: int, stage: nat)
    requires
        course.valid(),
        crate::transport::progress::enters(course.stages(), at, stage),
    ensures
        stage == 1 ==> (course.events[at] matches AnswerEvent::RemoteDescriptionSet(Ok(_))),
        stage == 2 ==> (course.events[at] matches AnswerEvent::LocalDescriptionSet { result: Ok(_), .. }),
        stage == 3 ==> (course.events[at] matches AnswerEvent::AnswerSignaled(Ok(_))),
        stage == 4 ==> (course.states[at + 1] matches AnswerState::OpenReliable { link } && course.events[at]
            == AnswerEvent::<P, C>::Channels(Ok((link.reliable, link.unreliable)))),
        stage == 5 || stage == 6 ==> (course.events[at] matches AnswerEvent::ChannelOpen(Ok(_))),
        stage == 5 ==> course.states[at] is OpenReliable,
        stage == 6 ==> course.states[at] is OpenUnreliable,
{
    assert(course.states[at].follows(course.events[at], course.states[at + 1]));
    assert(course.stages()[at + 1] == course.states[at + 1].stage());
}

/// The connection that stands at the end is the one that stood when it was complete.
proof fn lemma_link_kept<P, C>(course: AnswerCourse<P, C>, at: int)
    requires
        course.valid(),
        0 <= at < course.states.len(),
        course.states[at].link() is Some,
        !(course.states.last() is Failed),
    ensures
        course.states.last().link() == course.states[at].link(),
    decreases course.events.len(),
{
    if at < course.events.len() {
        lemma_last_step(course);
        lemma_link_kept(course.shorter(), at);
    }
}

/// No connection stands without its steps, in order: the offer was made the remote
/// description; the answer was made the local one; it was signaled; the data
/// channels of the other end came, and they are the ones that the connection has;
/// the reliable one opened; and then the unreliable one did.
pub proof fn law_answered_in_order<P, C>(course: AnswerCourse<P, C>)
    requires
        course.valid(),
        course.states.last() is Established,
    ensures
        exists|at: AnswerMilestones| course.passes(at),
{
    let stages = course.stages();
    lemma_gradual(course);
    if course.states[0] is Failed {
        lemma_failed_stays(course);
    }
    let a = crate::transport::progress::lemma_entered(stages, 1);
    let b = crate::transport::progress::lemma_entered(stages, 2);
    let c = crate::transport::progress::lemma_entered(stages, 3);
    let d = crate::transport::progress::lemma_entered(stages, 4);
    let e = crate::transport::progress::lemma_entered(stages, 5);
    let f = crate::transport::progress::lemma_entered(stages, 6);
    crate::transport::progress::lemma_order(stages, a, 1, b, 2);
    crate::transport::progress::lemma_order(stages, b, 2, c, 3);
    crate::transport::progress::lemma_order(stages, c, 3, d, 4);
    crate::transport::progress::lemma_order(stages, d, 4, e, 5);
    crate::transport::progress::lemma_order(stages, e, 5, f, 6);
    lemma_stage_entered(course, a, 1);
    lemma_stage_entered(course, b, 2);
    lemma_stage_entered(course, c, 3);
    lemma_stage_entered(course, d, 4);
    lemma_stage_entered(course, e, 5);
    lemma_stage_entered(course, f, 6);
    lemma_link_kept(course, d + 1);
    lemma_link_kept(course, e);
    lemma_link_kept(course, f);
    assert(course.passes(
        AnswerMilestones { accepted: a, described: b, signaled: c, channels: d, first_open: e, second_open: f },
    ));
}

proof fn lemma_failed_stays<P, C>(course: AnswerCourse<P, C>)
    requires
        course.valid(),
        course.states[0] is Failed,
    ensures
        course.states.last() is Failed,
    decreases course.events.len(),
{
    if course.events.len() > 0 {
        lemma_last_step(course);
        lemma_failed_stays(course.shorter());
    }
}

} // verus!
