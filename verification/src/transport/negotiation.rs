//! The negotiation of a connection by the end that asks for it.

use crate::error::{NethernetError, SignalErrorCode};
use crate::session::Session;
use crate::signal::{Signal, SignalType};
use crate::transport::description::names_candidate;
use crate::transport::stream::parse_error_code;
use crate::transport::{parse_answer, Credentials, Failure, Link, LocalDescription, Timeouts};
use std::time::Duration;
use vstd::prelude::*;
use webrtc::peer_connection::RTCSessionDescription;

verus! {

/// Where a negotiation stands. `P` is a peer connection, `C` a data channel and
/// `K` an ICE candidate of the other end.
pub enum DialState<P, C, K> {
    /// The credentials for the relay servers are to be fetched.
    Credentials,
    /// The peer connection is to be built.
    PeerConnection {
        /// The credentials, if the signaling service has any.
        credentials: Option<Credentials>,
    },
    /// The reliable data channel is to be created.
    ReliableChannel {
        /// The peer connection.
        peer_connection: P,
    },
    /// The unreliable data channel is to be created.
    UnreliableChannel {
        /// The peer connection.
        peer_connection: P,
        /// The reliable data channel.
        reliable: C,
    },
    /// The offer is to be created.
    CreateOffer {
        /// The connection so far.
        link: Link<P, C>,
    },
    /// The offer is to be made the local description.
    SetLocalDescription {
        /// The connection so far.
        link: Link<P, C>,
        /// The offer.
        offer: LocalDescription,
    },
    /// The forwarding of local candidates is to be started.
    ForwardCandidates {
        /// The connection so far.
        link: Link<P, C>,
        /// The text of the offer.
        sdp: String,
    },
    /// Local candidates are being gathered, to be sent within the offer.
    Gathering {
        /// The connection so far.
        link: Link<P, C>,
    },
    /// The offer is to be read back, with the gathered candidates in it.
    ReadLocalDescription {
        /// The connection so far.
        link: Link<P, C>,
    },
    /// The signals of the other end are to be subscribed to.
    Subscribe {
        /// The connection so far.
        link: Link<P, C>,
        /// The text of the offer.
        sdp: String,
    },
    /// The offer is to be signaled.
    SignalOffer {
        /// The connection so far.
        link: Link<P, C>,
        /// The text of the offer.
        sdp: String,
    },
    /// The answer is waited for.
    AwaitAnswer {
        /// The connection so far.
        link: Link<P, C>,
        /// The candidates that came before the answer.
        candidates: Vec<K>,
    },
    /// A candidate of the other end is to be parsed.
    ParseCandidate {
        /// The connection so far.
        link: Link<P, C>,
        /// The candidates that came before.
        candidates: Vec<K>,
        /// The text of the candidate.
        data: String,
    },
    /// The answer is to be made the remote description.
    SetRemoteDescription {
        /// The connection so far.
        link: Link<P, C>,
        /// The candidates that came before the answer.
        candidates: Vec<K>,
        /// The answer.
        answer: RTCSessionDescription,
        /// Whether the answer itself names a candidate.
        holds_candidate: bool,
    },
    /// The first candidate of the other end is waited for.
    AwaitCandidate {
        /// The connection so far.
        link: Link<P, C>,
    },
    /// What may be the first candidate of the other end is to be parsed.
    ParseFirstCandidate {
        /// The connection so far.
        link: Link<P, C>,
        /// The text of the candidate.
        data: String,
    },
    /// The candidates that came so far are to be added.
    AddCandidates {
        /// The connection so far.
        link: Link<P, C>,
        /// The candidate to add now.
        next: K,
        /// The candidates to add after it.
        rest: Vec<K>,
    },
    /// The reliable data channel is to open.
    OpenReliable {
        /// The connection so far.
        link: Link<P, C>,
    },
    /// The unreliable data channel is to open.
    OpenUnreliable {
        /// The connection so far.
        link: Link<P, C>,
    },
    /// The connection stands.
    Established {
        /// The connection.
        link: Link<P, C>,
    },
    /// The negotiation failed.
    Failed {
        /// How.
        failure: Failure,
    },
}

/// The result of a step of a negotiation.
pub enum DialEvent<P, C, K> {
    /// The credentials were fetched.
    Credentials(Result<Option<Credentials>, NethernetError>),
    /// The peer connection was built.
    PeerConnection(Result<P, NethernetError>),
    /// A data channel was created.
    Channel(Result<C, webrtc::error::Error>),
    /// The offer was created.
    Offer(Result<LocalDescription, webrtc::error::Error>),
    /// The local description was set.
    LocalDescriptionSet {
        /// Whether it was accepted.
        result: Result<(), webrtc::error::Error>,
        /// Whether candidates go within the offer and not after it.
        disable_trickle_ice: bool,
    },
    /// The forwarding of local candidates was started.
    Forwarding,
    /// The wait for gathering is over.
    Gathered(Result<(), NethernetError>),
    /// The text of the local description was read back, if there is one.
    LocalSdp(Option<String>),
    /// The signals of the other end were subscribed to.
    Subscribed,
    /// The offer was signaled.
    OfferSignaled(Result<(), NethernetError>),
    /// A signal came.
    Signal(Signal),
    /// There will be no more signals.
    SignalsEnded,
    /// The answer took too long.
    AnswerTimedOut,
    /// The first candidate took too long.
    CandidateTimedOut,
    /// A candidate was parsed, if it is one.
    CandidateParsed(Option<K>),
    /// The remote description was set.
    RemoteDescriptionSet(Result<(), webrtc::error::Error>),
    /// A candidate was added, or refused: it does not matter which.
    CandidateAdded,
    /// The wait for a data channel to open is over.
    ChannelOpen(Result<(), NethernetError>),
}

/// The step of a negotiation to take next.
pub enum DialAction<'a, P, C, K> {
    /// Fetch the credentials for the relay servers.
    FetchCredentials,
    /// Build a peer connection that uses the servers of the credentials.
    BuildPeerConnection(Option<&'a Credentials>),
    /// Create the reliable data channel.
    CreateReliableChannel(&'a P),
    /// Create the unreliable data channel.
    CreateUnreliableChannel(&'a P),
    /// Create the offer.
    CreateOffer(&'a P),
    /// Make the offer the local description.
    SetLocalDescription(&'a P, &'a RTCSessionDescription),
    /// Start to forward local candidates to the other end.
    ForwardCandidates,
    /// Wait until the local candidates are gathered, for so long.
    AwaitGathering(Duration),
    /// Read the local description back.
    ReadLocalDescription(&'a P),
    /// Subscribe to the signals of the other end.
    Subscribe,
    /// Signal the offer.
    SignalOffer(Signal),
    /// Wait for the next signal. The time is that of the wait for the answer as a
    /// whole: see [`Negotiation::begins_wait`].
    AwaitSignal(Duration),
    /// Parse a candidate.
    ParseCandidate(&'a String),
    /// Make the answer the remote description.
    SetRemoteDescription(&'a P, &'a RTCSessionDescription),
    /// Wait for the next signal. The time is that of the wait for the first
    /// candidate as a whole: see [`Negotiation::begins_wait`].
    AwaitCandidate(Duration),
    /// Add a candidate of the other end.
    AddCandidate(&'a P, &'a K),
    /// Wait until a data channel opens, for so long.
    AwaitOpen(&'a C, Duration),
    /// The negotiation is over.
    Finish,
}

/// What a negotiation waits for, with a time of its own.
#[derive(Clone, Copy, Debug, PartialEq, Eq, Structural)]
pub enum TimedWait {
    /// The local candidates.
    Gathering,
    /// The answer.
    Answer,
    /// The first candidate of the other end.
    Candidate,
    /// The opening of the reliable data channel.
    ReliableOpen,
    /// The opening of the unreliable data channel.
    UnreliableOpen,
}

/// The negotiation of a connection with a remote network.
pub struct Negotiation<P, C, K> {
    /// The connection.
    pub connection_id: u64,
    /// The remote network.
    pub remote_network_id: String,
    /// How long the waits may take.
    pub timeouts: Timeouts,
    /// Where the negotiation stands.
    pub state: DialState<P, C, K>,
}

impl<P, C, K> DialEvent<P, C, K> {
    /// The error that a failed step brought.
    pub open spec fn failure(self) -> Option<NethernetError> {
        match self {
            DialEvent::Credentials(Err(error)) => Some(error),
            DialEvent::PeerConnection(Err(error)) => Some(error),
            DialEvent::Channel(Err(error)) => Some(NethernetError::WebRtc(error)),
            DialEvent::Offer(Err(error)) => Some(NethernetError::WebRtc(error)),
            DialEvent::LocalDescriptionSet { result: Err(error), .. } => Some(NethernetError::WebRtc(error)),
            DialEvent::Gathered(Err(error)) => Some(error),
            DialEvent::OfferSignaled(Err(error)) => Some(error),
            DialEvent::RemoteDescriptionSet(Err(error)) => Some(NethernetError::WebRtc(error)),
            DialEvent::ChannelOpen(Err(error)) => Some(error),
            _ => None,
        }
    }
}

impl<P, C, K> DialState<P, C, K> {
    /// Whether the negotiation, standing here, waits for such an event.
    pub open spec fn expects(self, event: DialEvent<P, C, K>) -> bool {
        match self {
            DialState::Credentials => event is Credentials,
            DialState::PeerConnection { .. } => event is PeerConnection,
            DialState::ReliableChannel { .. } => event is Channel,
            DialState::UnreliableChannel { .. } => event is Channel,
            DialState::CreateOffer { .. } => event is Offer,
            DialState::SetLocalDescription { .. } => event is LocalDescriptionSet,
            DialState::ForwardCandidates { .. } => event is Forwarding,
            DialState::Gathering { .. } => event is Gathered,
            DialState::ReadLocalDescription { .. } => event is LocalSdp,
            DialState::Subscribe { .. } => event is Subscribed,
            DialState::SignalOffer { .. } => event is OfferSignaled,
            DialState::AwaitAnswer { .. } => event is Signal || event is SignalsEnded || event is AnswerTimedOut,
            DialState::ParseCandidate { .. } => event is CandidateParsed,
            DialState::SetRemoteDescription { .. } => event is RemoteDescriptionSet,
            DialState::AwaitCandidate { .. } => event is Signal || event is SignalsEnded || event is CandidateTimedOut,
            DialState::ParseFirstCandidate { .. } => event is CandidateParsed,
            DialState::AddCandidates { .. } => event is CandidateAdded,
            DialState::OpenReliable { .. } => event is ChannelOpen,
            DialState::OpenUnreliable { .. } => event is ChannelOpen,
            DialState::Established { .. } => false,
            DialState::Failed { .. } => false,
        }
    }

    /// What the other end is told if the step to take here fails.
    pub open spec fn failure_code(self) -> Option<SignalErrorCode> {
        match self {
            DialState::Credentials => Some(SignalErrorCode::SignalingTurnAuthFailed),
            DialState::PeerConnection { .. } => Some(SignalErrorCode::FailedToCreatePeerConnection),
            DialState::ReliableChannel { .. } => Some(SignalErrorCode::FailedToCreatePeerConnection),
            DialState::UnreliableChannel { .. } => Some(SignalErrorCode::FailedToCreatePeerConnection),
            DialState::CreateOffer { .. } => Some(SignalErrorCode::FailedToCreateOffer),
            DialState::SetLocalDescription { .. } => Some(SignalErrorCode::FailedToSetLocalDescription),
            DialState::Gathering { .. } => Some(SignalErrorCode::FailedToCreateOffer),
            DialState::ReadLocalDescription { .. } => Some(SignalErrorCode::FailedToCreateOffer),
            DialState::SetRemoteDescription { .. } => Some(SignalErrorCode::FailedToSetRemoteDescription),
            DialState::OpenReliable { .. } => Some(SignalErrorCode::Ice),
            DialState::OpenUnreliable { .. } => Some(SignalErrorCode::Ice),
            _ => None,
        }
    }

    /// What the negotiation waits for here, with a time of its own. To parse what
    /// came in meanwhile is part of the wait.
    pub open spec fn wait(self) -> Option<TimedWait> {
        match self {
            DialState::Gathering { .. } => Some(TimedWait::Gathering),
            DialState::AwaitAnswer { .. } => Some(TimedWait::Answer),
            DialState::ParseCandidate { .. } => Some(TimedWait::Answer),
            DialState::AwaitCandidate { .. } => Some(TimedWait::Candidate),
            DialState::ParseFirstCandidate { .. } => Some(TimedWait::Candidate),
            DialState::OpenReliable { .. } => Some(TimedWait::ReliableOpen),
            DialState::OpenUnreliable { .. } => Some(TimedWait::UnreliableOpen),
            _ => None,
        }
    }

    /// Whether the time of a wait begins here, given the wait whose time is running.
    pub open spec fn begins_wait(self, running: Option<TimedWait>) -> bool {
        self.wait() is Some && self.wait() != running
    }

    /// Whether the negotiation failed with a code for the other end and an error for the caller.
    pub open spec fn failed_with(self, code: Option<SignalErrorCode>, error: crate::error::ErrorView) -> bool {
        self matches DialState::Failed { failure } && failure.says(code, error)
    }

    /// Whether the negotiation stands where candidates are added, the given ones
    /// in order; it stands one step further if there are none.
    pub open spec fn adds(self, link: Link<P, C>, candidates: Seq<K>) -> bool {
        if candidates.len() == 0 {
            self == DialState::<P, C, K>::OpenReliable { link }
        } else {
            self matches DialState::AddCandidates { link: same, next, rest } && same == link && next
                == candidates[0] && rest@ == candidates.drop_first()
        }
    }

    /// Whether `next` follows once the answer was parsed to a description, or could not be.
    pub open spec fn answered(
        link: Link<P, C>,
        candidates: Vec<K>,
        holds_candidate: bool,
        parsed: Result<RTCSessionDescription, webrtc::error::Error>,
        next: Self,
    ) -> bool {
        match parsed {
            Ok(answer) => next == (DialState::SetRemoteDescription { link, candidates, answer, holds_candidate }),
            Err(error) => next.failed_with(
                Some(SignalErrorCode::FailedToSetRemoteDescription),
                crate::error::ErrorView::WebRtc(error),
            ),
        }
    }

    /// Whether `next` follows once a signal of this connection came while the answer is waited for.
    pub open spec fn signaled(link: Link<P, C>, candidates: Vec<K>, signal: Signal, next: Self) -> bool {
        match signal.signal_type {
            SignalType::Answer => Self::answered(
                link,
                candidates,
                crate::transport::description::holds_candidate(signal.data@),
                crate::transport::answer_description(signal.data@),
                next,
            ),
            SignalType::Candidate => next == (DialState::ParseCandidate { link, candidates, data: signal.data }),
            SignalType::Error => next.failed_with(
                None,
                crate::error::ErrorView::Signaled(crate::transport::stream::error_code(signal.data@)),
            ),
            SignalType::Offer => next.failed_with(
                Some(SignalErrorCode::IncomingConnectionIgnored),
                crate::error::ErrorView::Other("received offer while dialing"@),
            ),
        }
    }

    /// Whether `next` follows once a signal of this connection came while its first
    /// candidate is waited for. Only a candidate or an error matters then.
    pub open spec fn signaled_after_answer(link: Link<P, C>, signal: Signal, next: Self) -> bool {
        match signal.signal_type {
            SignalType::Candidate => next == (DialState::<P, C, K>::ParseFirstCandidate { link, data: signal.data }),
            SignalType::Error => next.failed_with(
                None,
                crate::error::ErrorView::Signaled(crate::transport::stream::error_code(signal.data@)),
            ),
            _ => next == (DialState::<P, C, K>::AwaitCandidate { link }),
        }
    }

    /// Whether `next` follows once the step to take here was taken and did not fail.
    pub open spec fn succeeded(
        self,
        connection_id: u64,
        remote_network_id: Seq<char>,
        event: DialEvent<P, C, K>,
        next: Self,
    ) -> bool {
        match (self, event) {
            (DialState::Credentials, DialEvent::Credentials(Ok(credentials))) => {
                next == (DialState::<P, C, K>::PeerConnection { credentials })
            },
            (DialState::PeerConnection { .. }, DialEvent::PeerConnection(Ok(peer_connection))) => {
                next == (DialState::<P, C, K>::ReliableChannel { peer_connection })
            },
            (DialState::ReliableChannel { peer_connection }, DialEvent::Channel(Ok(reliable))) => {
                next == (DialState::<P, C, K>::UnreliableChannel { peer_connection, reliable })
            },
            (DialState::UnreliableChannel { peer_connection, reliable }, DialEvent::Channel(Ok(unreliable))) => {
                next == (DialState::<P, C, K>::CreateOffer { link: Link { peer_connection, reliable, unreliable } })
            },
            (DialState::CreateOffer { link }, DialEvent::Offer(Ok(offer))) => {
                next == (DialState::<P, C, K>::SetLocalDescription { link, offer })
            },
            (
                DialState::SetLocalDescription { link, offer },
                DialEvent::LocalDescriptionSet { disable_trickle_ice, .. },
            ) => if disable_trickle_ice {
                next == (DialState::<P, C, K>::Gathering { link })
            } else {
                next == (DialState::<P, C, K>::ForwardCandidates { link, sdp: offer.sdp })
            },
            (DialState::ForwardCandidates { link, sdp }, DialEvent::Forwarding) => {
                next == (DialState::<P, C, K>::Subscribe { link, sdp })
            },
            (DialState::Gathering { link }, DialEvent::Gathered(Ok(()))) => {
                next == (DialState::<P, C, K>::ReadLocalDescription { link })
            },
            (DialState::ReadLocalDescription { link }, DialEvent::LocalSdp(Some(sdp))) => {
                next == (DialState::<P, C, K>::Subscribe { link, sdp })
            },
            (DialState::ReadLocalDescription { .. }, DialEvent::LocalSdp(None)) => {
                next.failed_with(
                    self.failure_code(),
                    crate::error::ErrorView::InvalidState("missing local description"@),
                )
            },
            (DialState::Subscribe { link, sdp }, DialEvent::Subscribed) => {
                next == (DialState::<P, C, K>::SignalOffer { link, sdp })
            },
            (DialState::SignalOffer { link, .. }, DialEvent::OfferSignaled(Ok(()))) => {
                next matches DialState::AwaitAnswer { link: same, candidates } && same == link && candidates@
                    == Seq::<K>::empty()
            },
            (DialState::AwaitAnswer { .. }, DialEvent::SignalsEnded) => {
                next.failed_with(None, crate::error::ErrorView::ConnectionClosed)
            },
            (DialState::AwaitAnswer { .. }, DialEvent::AnswerTimedOut) => {
                next.failed_with(
                    Some(SignalErrorCode::NegotiationTimeoutWaitingForResponse),
                    crate::error::ErrorView::Timeout,
                )
            },
            (DialState::AwaitAnswer { link, candidates }, DialEvent::Signal(signal)) => if signal.belongs_to(
                connection_id,
                remote_network_id,
            ) {
                Self::signaled(link, candidates, signal, next)
            } else {
                next == self
            },
            (DialState::ParseCandidate { link, candidates, .. }, DialEvent::CandidateParsed(parsed)) => {
                next matches DialState::AwaitAnswer { link: same, candidates: collected } && same == link
                    && collected@ == match parsed {
                    Some(candidate) => candidates@.push(candidate),
                    None => candidates@,
                }
            },
            (
                DialState::SetRemoteDescription { link, candidates, holds_candidate, .. },
                DialEvent::RemoteDescriptionSet(Ok(())),
            ) => if candidates@.len() == 0 && !holds_candidate {
                next == (DialState::<P, C, K>::AwaitCandidate { link })
            } else {
                next.adds(link, candidates@)
            },
            (DialState::AwaitCandidate { .. }, DialEvent::SignalsEnded) => {
                next.failed_with(None, crate::error::ErrorView::ConnectionClosed)
            },
            (DialState::AwaitCandidate { .. }, DialEvent::CandidateTimedOut) => {
                next.failed_with(
                    Some(SignalErrorCode::NegotiationTimeoutWaitingForResponse),
                    crate::error::ErrorView::Timeout,
                )
            },
            (DialState::AwaitCandidate { link }, DialEvent::Signal(signal)) => if signal.belongs_to(
                connection_id,
                remote_network_id,
            ) {
                Self::signaled_after_answer(link, signal, next)
            } else {
                next == self
            },
            (DialState::ParseFirstCandidate { link, .. }, DialEvent::CandidateParsed(parsed)) => match parsed {
                Some(candidate) => next.adds(link, seq![candidate]),
                None => next == (DialState::<P, C, K>::AwaitCandidate { link }),
            },
            (DialState::AddCandidates { link, rest, .. }, DialEvent::CandidateAdded) => next.adds(link, rest@),
            (DialState::OpenReliable { link }, DialEvent::ChannelOpen(Ok(()))) => {
                next == (DialState::<P, C, K>::OpenUnreliable { link })
            },
            (DialState::OpenUnreliable { link }, DialEvent::ChannelOpen(Ok(()))) => {
                next == (DialState::<P, C, K>::Established { link })
            },
            _ => false,
        }
    }

    /// Whether `next` follows an event in the negotiation of a connection. An
    /// event that is not waited for changes nothing; a step that fails ends the
    /// negotiation; any other step leads on.
    pub open spec fn follows(
        self,
        connection_id: u64,
        remote_network_id: Seq<char>,
        event: DialEvent<P, C, K>,
        next: Self,
    ) -> bool {
        if !self.expects(event) {
            next == self
        } else {
            match event.failure() {
                Some(error) => next == (DialState::<P, C, K>::Failed {
                    failure: Failure { code: self.failure_code(), error },
                }),
                None => self.succeeded(connection_id, remote_network_id, event, next),
            }
        }
    }
}

/// The state in which the first of some candidates is to be added.
fn add_candidates<P, C, K>(link: Link<P, C>, candidates: Vec<K>) -> (state: DialState<P, C, K>)
    ensures
        state.adds(link, candidates@),
{
    let mut rest = candidates;
    if rest.len() == 0 {
        DialState::OpenReliable { link }
    } else {
        let next = rest.remove(0);
        proof {
            assert(rest@ == candidates@.drop_first());
        }
        DialState::AddCandidates { link, next, rest }
    }
}

impl<P, C, K> DialState<P, C, K> {
    /// The state once the answer was parsed to a description, or could not be.
    pub fn answer_parsed(
        link: Link<P, C>,
        candidates: Vec<K>,
        holds_candidate: bool,
        parsed: Result<RTCSessionDescription, webrtc::error::Error>,
    ) -> (next: Self)
        ensures
            Self::answered(link, candidates, holds_candidate, parsed, next),
    {
        match parsed {
            Ok(answer) => DialState::SetRemoteDescription { link, candidates, answer, holds_candidate },
            Err(error) => DialState::Failed {
                failure: Failure::reported(
                    SignalErrorCode::FailedToSetRemoteDescription,
                    NethernetError::WebRtc(error),
                ),
            },
        }
    }

    /// The state once a signal of this connection came while the answer is waited for.
    fn on_signal(link: Link<P, C>, candidates: Vec<K>, signal: Signal) -> (next: Self)
        ensures
            Self::signaled(link, candidates, signal, next),
    {
        match signal.signal_type {
            SignalType::Answer => {
                let holds_candidate = names_candidate(signal.data.as_str());
                Self::answer_parsed(link, candidates, holds_candidate, parse_answer(signal.data))
            },
            SignalType::Candidate => DialState::ParseCandidate { link, candidates, data: signal.data },
            SignalType::Error => DialState::Failed {
                failure: Failure::silent(NethernetError::Signaled(parse_error_code(signal.data.as_str()))),
            },
            SignalType::Offer => DialState::Failed {
                failure: Failure::reported(
                    SignalErrorCode::IncomingConnectionIgnored,
                    NethernetError::Other("received offer while dialing".to_owned()),
                ),
            },
        }
    }

    /// The state once a signal of this connection came while its first candidate is
    /// waited for.
    fn on_signal_after_answer(link: Link<P, C>, signal: Signal) -> (next: Self)
        ensures
            Self::signaled_after_answer(link, signal, next),
    {
        match signal.signal_type {
            SignalType::Candidate => DialState::ParseFirstCandidate { link, data: signal.data },
            SignalType::Error => DialState::Failed {
                failure: Failure::silent(NethernetError::Signaled(parse_error_code(signal.data.as_str()))),
            },
            _ => DialState::AwaitCandidate { link },
        }
    }
}

impl<P, C, K> Negotiation<P, C, K> {
    /// Whether a step is the one to take next.
    pub open spec fn asks_for(self, action: DialAction<P, C, K>) -> bool {
        match self.state {
            DialState::Credentials => action is FetchCredentials,
            DialState::PeerConnection { credentials } => action == DialAction::<P, C, K>::BuildPeerConnection(
                match credentials {
                    Some(credentials) => Some(&credentials),
                    None => None,
                },
            ),
            DialState::ReliableChannel { peer_connection } => action == DialAction::<P, C, K>::CreateReliableChannel(
                &peer_connection,
            ),
            DialState::UnreliableChannel { peer_connection, .. } => action == DialAction::<
                P,
                C,
                K,
            >::CreateUnreliableChannel(&peer_connection),
            DialState::CreateOffer { link } => action == DialAction::<P, C, K>::CreateOffer(&link.peer_connection),
            DialState::SetLocalDescription { link, offer } => action == DialAction::<P, C, K>::SetLocalDescription(
                &link.peer_connection,
                &offer.description,
            ),
            DialState::ForwardCandidates { .. } => action is ForwardCandidates,
            DialState::Gathering { .. } => action == DialAction::<P, C, K>::AwaitGathering(self.timeouts.start),
            DialState::ReadLocalDescription { link } => action == DialAction::<P, C, K>::ReadLocalDescription(
                &link.peer_connection,
            ),
            DialState::Subscribe { .. } => action is Subscribe,
            DialState::SignalOffer { sdp, .. } => action == DialAction::<P, C, K>::SignalOffer(
                Signal {
                    signal_type: SignalType::Offer,
                    connection_id: self.connection_id,
                    data: sdp,
                    network_id: self.remote_network_id,
                },
            ),
            DialState::AwaitAnswer { .. } => action == DialAction::<P, C, K>::AwaitSignal(self.timeouts.negotiation),
            DialState::ParseCandidate { data, .. } => action == DialAction::<P, C, K>::ParseCandidate(&data),
            DialState::SetRemoteDescription { link, answer, .. } => action == DialAction::<
                P,
                C,
                K,
            >::SetRemoteDescription(&link.peer_connection, &answer),
            DialState::AwaitCandidate { .. } => action == DialAction::<P, C, K>::AwaitCandidate(
                self.timeouts.candidate,
            ),
            DialState::ParseFirstCandidate { data, .. } => action == DialAction::<P, C, K>::ParseCandidate(&data),
            DialState::AddCandidates { link, next, .. } => action == DialAction::<P, C, K>::AddCandidate(
                &link.peer_connection,
                &next,
            ),
            DialState::OpenReliable { link } => action == DialAction::<P, C, K>::AwaitOpen(
                &link.reliable,
                self.timeouts.start,
            ),
            DialState::OpenUnreliable { link } => action == DialAction::<P, C, K>::AwaitOpen(
                &link.unreliable,
                self.timeouts.start,
            ),
            DialState::Established { .. } => action is Finish,
            DialState::Failed { .. } => action is Finish,
        }
    }

    /// Whether this is the beginning of a negotiation with a remote network, with times.
    pub open spec fn begins(self, remote_network_id: String, timeouts: Timeouts) -> bool {
        self.remote_network_id == remote_network_id && self.timeouts == timeouts && self.state is Credentials
    }

    /// Whether this is what becomes of a negotiation after an event: its state moves,
    /// and all else stays.
    pub open spec fn leads_to(self, event: DialEvent<P, C, K>, after: Self) -> bool {
        &&& after.connection_id == self.connection_id
        &&& after.remote_network_id == self.remote_network_id
        &&& after.timeouts == self.timeouts
        &&& self.state.follows(self.connection_id, self.remote_network_id@, event, after.state)
    }

    /// Whether this is what a negotiation comes to, on a network.
    pub open spec fn comes_to(self, local_network_id: String, outcome: Option<Result<Session<P, C>, Failure>>) -> bool {
        match self.state {
            DialState::Established { link } => outcome matches Some(Ok(session)) && link.carries(
                session,
                self.connection_id,
                local_network_id,
                self.remote_network_id,
            ),
            DialState::Failed { failure } => outcome == Some(Err::<Session<P, C>, Failure>(failure)),
            _ => outcome is None,
        }
    }

    /// The negotiation of a connection, at its beginning.
    pub fn new(connection_id: u64, remote_network_id: String, timeouts: Timeouts) -> (negotiation: Self)
        ensures
            negotiation == (Negotiation {
                connection_id,
                remote_network_id,
                timeouts,
                state: DialState::<P, C, K>::Credentials,
            }),
            negotiation.begins(remote_network_id, timeouts),
    {
        Negotiation { connection_id, remote_network_id, timeouts, state: DialState::Credentials }
    }

    /// The step to take next.
    pub fn action(&self) -> (action: DialAction<'_, P, C, K>)
        ensures
            self.asks_for(action),
    {
        match &self.state {
            DialState::Credentials => DialAction::FetchCredentials,
            DialState::PeerConnection { credentials } => DialAction::BuildPeerConnection(credentials.as_ref()),
            DialState::ReliableChannel { peer_connection } => DialAction::CreateReliableChannel(peer_connection),
            DialState::UnreliableChannel { peer_connection, .. } => DialAction::CreateUnreliableChannel(
                peer_connection,
            ),
            DialState::CreateOffer { link } => DialAction::CreateOffer(&link.peer_connection),
            DialState::SetLocalDescription { link, offer } => DialAction::SetLocalDescription(
                &link.peer_connection,
                &offer.description,
            ),
            DialState::ForwardCandidates { .. } => DialAction::ForwardCandidates,
            DialState::Gathering { .. } => DialAction::AwaitGathering(self.timeouts.start),
            DialState::ReadLocalDescription { link } => DialAction::ReadLocalDescription(&link.peer_connection),
            DialState::Subscribe { .. } => DialAction::Subscribe,
            DialState::SignalOffer { sdp, .. } => DialAction::SignalOffer(
                Signal::offer(self.connection_id, sdp.clone(), self.remote_network_id.clone()),
            ),
            DialState::AwaitAnswer { .. } => DialAction::AwaitSignal(self.timeouts.negotiation),
            DialState::ParseCandidate { data, .. } => DialAction::ParseCandidate(data),
            DialState::SetRemoteDescription { link, answer, .. } => DialAction::SetRemoteDescription(
                &link.peer_connection,
                answer,
            ),
            DialState::AwaitCandidate { .. } => DialAction::AwaitCandidate(self.timeouts.candidate),
            DialState::ParseFirstCandidate { data, .. } => DialAction::ParseCandidate(data),
            DialState::AddCandidates { link, next, .. } => DialAction::AddCandidate(&link.peer_connection, next),
            DialState::OpenReliable { link } => DialAction::AwaitOpen(&link.reliable, self.timeouts.start),
            DialState::OpenUnreliable { link } => DialAction::AwaitOpen(&link.unreliable, self.timeouts.start),
            DialState::Established { .. } => DialAction::Finish,
            DialState::Failed { .. } => DialAction::Finish,
        }
    }

    /// The negotiation after an event.
    pub fn negotiate(self, event: DialEvent<P, C, K>) -> (after: Self)
        ensures
            after.connection_id == self.connection_id,
            after.remote_network_id == self.remote_network_id,
            after.timeouts == self.timeouts,
            self.state.follows(self.connection_id, self.remote_network_id@, event, after.state),
            self.leads_to(event, after),
    {
        let connection_id = self.connection_id;
        let remote_network_id = self.remote_network_id;
        let timeouts = self.timeouts;
        let state = match (self.state, event) {
            (DialState::Credentials, DialEvent::Credentials(result)) => match result {
                Ok(credentials) => DialState::PeerConnection { credentials },
                Err(error) => DialState::Failed {
                    failure: Failure::reported(SignalErrorCode::SignalingTurnAuthFailed, error),
                },
            },
            (DialState::PeerConnection { .. }, DialEvent::PeerConnection(result)) => match result {
                Ok(peer_connection) => DialState::ReliableChannel { peer_connection },
                Err(error) => DialState::Failed {
                    failure: Failure::reported(SignalErrorCode::FailedToCreatePeerConnection, error),
                },
            },
            (DialState::ReliableChannel { peer_connection }, DialEvent::Channel(result)) => match result {
                Ok(reliable) => DialState::UnreliableChannel { peer_connection, reliable },
                Err(error) => DialState::Failed {
                    failure: Failure::reported(
                        SignalErrorCode::FailedToCreatePeerConnection,
                        NethernetError::from(error),
                    ),
                },
            },
            (DialState::UnreliableChannel { peer_connection, reliable }, DialEvent::Channel(result)) => match result {
                Ok(unreliable) => DialState::CreateOffer { link: Link { peer_connection, reliable, unreliable } },
                Err(error) => DialState::Failed {
                    failure: Failure::reported(
                        SignalErrorCode::FailedToCreatePeerConnection,
                        NethernetError::from(error),
                    ),
                },
            },
            (DialState::CreateOffer { link }, DialEvent::Offer(result)) => match result {
                Ok(offer) => DialState::SetLocalDescription { link, offer },
                Err(error) => DialState::Failed {
                    failure: Failure::reported(SignalErrorCode::FailedToCreateOffer, NethernetError::from(error)),
                },
            },
            (
                DialState::SetLocalDescription { link, offer },
                DialEvent::LocalDescriptionSet { result, disable_trickle_ice },
            ) => match result {
                Ok(()) => if disable_trickle_ice {
                    DialState::Gathering { link }
                } else {
                    DialState::ForwardCandidates { link, sdp: offer.sdp }
                },
                Err(error) => DialState::Failed {
                    failure: Failure::reported(
                        SignalErrorCode::FailedToSetLocalDescription,
                        NethernetError::from(error),
                    ),
                },
            },
            (DialState::ForwardCandidates { link, sdp }, DialEvent::Forwarding) => DialState::Subscribe { link, sdp },
            (DialState::Gathering { link }, DialEvent::Gathered(result)) => match result {
                Ok(()) => DialState::ReadLocalDescription { link },
                Err(error) => DialState::Failed {
                    failure: Failure::reported(SignalErrorCode::FailedToCreateOffer, error),
                },
            },
            (DialState::ReadLocalDescription { link }, DialEvent::LocalSdp(sdp)) => match sdp {
                Some(sdp) => DialState::Subscribe { link, sdp },
                None => DialState::Failed {
                    failure: Failure::reported(
                        SignalErrorCode::FailedToCreateOffer,
                        NethernetError::InvalidState("missing local description".to_owned()),
                    ),
                },
            },
            (DialState::Subscribe { link, sdp }, DialEvent::Subscribed) => DialState::SignalOffer { link, sdp },
            (DialState::SignalOffer { link, .. }, DialEvent::OfferSignaled(result)) => match result {
                Ok(()) => DialState::AwaitAnswer { link, candidates: Vec::new() },
                Err(error) => DialState::Failed { failure: Failure::silent(error) },
            },
            (DialState::AwaitAnswer { .. }, DialEvent::SignalsEnded) => DialState::Failed {
                failure: Failure::silent(NethernetError::ConnectionClosed),
            },
            (DialState::AwaitAnswer { .. }, DialEvent::AnswerTimedOut) => DialState::Failed {
                failure: Failure::reported(
                    SignalErrorCode::NegotiationTimeoutWaitingForResponse,
                    NethernetError::Timeout,
                ),
            },
            (DialState::AwaitAnswer { link, candidates }, DialEvent::Signal(signal)) => if signal.is_of(
                connection_id,
                &remote_network_id,
            ) {
                DialState::on_signal(link, candidates, signal)
            } else {
                DialState::AwaitAnswer { link, candidates }
            },
            (DialState::ParseCandidate { link, candidates, .. }, DialEvent::CandidateParsed(parsed)) => {
                let mut candidates = candidates;
                if let Some(candidate) = parsed {
                    candidates.push(candidate);
                }
                DialState::AwaitAnswer { link, candidates }
            },
            (
                DialState::SetRemoteDescription { link, candidates, holds_candidate, .. },
                DialEvent::RemoteDescriptionSet(result),
            ) => match result {
                Ok(()) => if candidates.len() == 0 && !holds_candidate {
                    DialState::AwaitCandidate { link }
                } else {
                    add_candidates(link, candidates)
                },
                Err(error) => DialState::Failed {
                    failure: Failure::reported(
                        SignalErrorCode::FailedToSetRemoteDescription,
                        NethernetError::WebRtc(error),
                    ),
                },
            },
            (DialState::AwaitCandidate { .. }, DialEvent::SignalsEnded) => DialState::Failed {
                failure: Failure::silent(NethernetError::ConnectionClosed),
            },
            (DialState::AwaitCandidate { .. }, DialEvent::CandidateTimedOut) => DialState::Failed {
                failure: Failure::reported(
                    SignalErrorCode::NegotiationTimeoutWaitingForResponse,
                    NethernetError::Timeout,
                ),
            },
            (DialState::AwaitCandidate { link }, DialEvent::Signal(signal)) => if signal.is_of(
                connection_id,
                &remote_network_id,
            ) {
                DialState::on_signal_after_answer(link, signal)
            } else {
                DialState::AwaitCandidate { link }
            },
            (DialState::ParseFirstCandidate { link, .. }, DialEvent::CandidateParsed(parsed)) => match parsed {
                Some(candidate) => {
                    let mut candidates: Vec<K> = Vec::new();
                    candidates.push(candidate);
                    proof {
                        assert(candidates@ =~= seq![candidate]);
                    }
                    add_candidates(link, candidates)
                },
                None => DialState::AwaitCandidate { link },
            },
            (DialState::AddCandidates { link, rest, .. }, DialEvent::CandidateAdded) => add_candidates(link, rest),
            (DialState::OpenReliable { link }, DialEvent::ChannelOpen(result)) => match result {
                Ok(()) => DialState::OpenUnreliable { link },
                Err(error) => DialState::Failed { failure: Failure::reported(SignalErrorCode::Ice, error) },
            },
            (DialState::OpenUnreliable { link }, DialEvent::ChannelOpen(result)) => match result {
                Ok(()) => DialState::Established { link },
                Err(error) => DialState::Failed { failure: Failure::reported(SignalErrorCode::Ice, error) },
            },
            (state, _) => state,
        };
        Negotiation { connection_id, remote_network_id, timeouts, state }
    }

    /// Whether the time of a wait begins here, given the wait whose time is running.
    /// While the same wait goes on, its time runs on, whatever comes in meanwhile.
    pub fn begins_wait(&self, running: Option<TimedWait>) -> (begins: bool)
        ensures
            begins == (self.state.wait() is Some && self.state.wait() != running),
            begins == self.state.begins_wait(running),
    {
        let wait = self.wait();
        match (wait, running) {
            (None, _) => false,
            (Some(_), None) => true,
            (Some(wait), Some(running)) => wait != running,
        }
    }

    /// What the negotiation waits for, with a time of its own.
    pub fn wait(&self) -> (wait: Option<TimedWait>)
        ensures
            wait == self.state.wait(),
    {
        match &self.state {
            DialState::Gathering { .. } => Some(TimedWait::Gathering),
            DialState::AwaitAnswer { .. } => Some(TimedWait::Answer),
            DialState::ParseCandidate { .. } => Some(TimedWait::Answer),
            DialState::AwaitCandidate { .. } => Some(TimedWait::Candidate),
            DialState::ParseFirstCandidate { .. } => Some(TimedWait::Candidate),
            DialState::OpenReliable { .. } => Some(TimedWait::ReliableOpen),
            DialState::OpenUnreliable { .. } => Some(TimedWait::UnreliableOpen),
            _ => None,
        }
    }

    /// What the negotiation came to, once it is over: a session, or a failure.
    pub fn finish(self, local_network_id: String) -> (outcome: Option<Result<Session<P, C>, Failure>>)
        ensures
            match self.state {
                DialState::Established { link } => outcome matches Some(Ok(session)) && link.carries(
                    session,
                    self.connection_id,
                    local_network_id,
                    self.remote_network_id,
                ),
                DialState::Failed { failure } => outcome == Some(Err::<Session<P, C>, Failure>(failure)),
                _ => outcome is None,
            },
            self.comes_to(local_network_id, outcome),
    {
        match self.state {
            DialState::Established { link } => Some(
                link.establish(self.connection_id, local_network_id, self.remote_network_id),
            ),
            DialState::Failed { failure } => Some(Err(failure)),
            _ => None,
        }
    }
}

/// A course of a negotiation: the states that it passes through, and the event
/// between each and the next.
pub struct Course<P, C, K> {
    /// The connection.
    pub connection_id: u64,
    /// The remote network.
    pub remote_network_id: Seq<char>,
    /// The states, one more than there are events.
    pub states: Seq<DialState<P, C, K>>,
    /// The events.
    pub events: Seq<DialEvent<P, C, K>>,
}

/// Where in a course the steps that a connection needs were taken.
pub struct Milestones {
    /// The offer was made the local description.
    pub described: int,
    /// The offer was signaled.
    pub signaled: int,
    /// The answer came.
    pub answered: int,
    /// The answer was made the remote description.
    pub accepted: int,
    /// The reliable data channel opened.
    pub first_open: int,
    /// The unreliable data channel opened.
    pub second_open: int,
}

impl<P, C, K> DialState<P, C, K> {
    /// How much of the negotiation is done: nothing of note; the offer made the
    /// local description; the offer signaled; the answer received; the answer made
    /// the remote description; the first channel open; and the second.
    pub open spec fn stage(self) -> nat {
        match self {
            DialState::ForwardCandidates { .. } => 1,
            DialState::Gathering { .. } => 1,
            DialState::ReadLocalDescription { .. } => 1,
            DialState::Subscribe { .. } => 1,
            DialState::SignalOffer { .. } => 1,
            DialState::AwaitAnswer { .. } => 2,
            DialState::ParseCandidate { .. } => 2,
            DialState::SetRemoteDescription { .. } => 3,
            DialState::AwaitCandidate { .. } => 4,
            DialState::ParseFirstCandidate { .. } => 4,
            DialState::AddCandidates { .. } => 4,
            DialState::OpenReliable { .. } => 4,
            DialState::OpenUnreliable { .. } => 5,
            DialState::Established { .. } => 6,
            _ => 0,
        }
    }

    /// The place of the step to take here in the order of all steps.
    pub open spec fn rank(self) -> nat {
        match self {
            DialState::Credentials => 0,
            DialState::PeerConnection { .. } => 1,
            DialState::ReliableChannel { .. } => 2,
            DialState::UnreliableChannel { .. } => 3,
            DialState::CreateOffer { .. } => 4,
            DialState::SetLocalDescription { .. } => 5,
            DialState::ForwardCandidates { .. } => 6,
            DialState::Gathering { .. } => 7,
            DialState::ReadLocalDescription { .. } => 8,
            DialState::Subscribe { .. } => 9,
            DialState::SignalOffer { .. } => 10,
            DialState::AwaitAnswer { .. } => 11,
            DialState::ParseCandidate { .. } => 11,
            DialState::SetRemoteDescription { .. } => 12,
            DialState::AwaitCandidate { .. } => 13,
            DialState::ParseFirstCandidate { .. } => 13,
            DialState::AddCandidates { .. } => 14,
            DialState::OpenReliable { .. } => 15,
            DialState::OpenUnreliable { .. } => 16,
            DialState::Established { .. } => 17,
            DialState::Failed { .. } => 18,
        }
    }

    /// The candidates that are still to be added.
    pub open spec fn pending_candidates(self) -> Seq<K> {
        match self {
            DialState::AwaitAnswer { candidates, .. } => candidates@,
            DialState::ParseCandidate { candidates, .. } => candidates@,
            DialState::SetRemoteDescription { candidates, .. } => candidates@,
            DialState::AddCandidates { next, rest, .. } => seq![next] + rest@,
            _ => Seq::empty(),
        }
    }

    /// The candidate that is parsed, if any, where an event meets the negotiation here.
    pub open spec fn parses(self, event: DialEvent<P, C, K>) -> Seq<K> {
        match (self, event) {
            (DialState::ParseCandidate { .. }, DialEvent::CandidateParsed(Some(candidate))) => seq![candidate],
            (DialState::ParseFirstCandidate { .. }, DialEvent::CandidateParsed(Some(candidate))) => seq![candidate],
            _ => Seq::empty(),
        }
    }

    /// The candidate that is added, if any, where an event meets the negotiation here.
    pub open spec fn adds_candidate(self, event: DialEvent<P, C, K>) -> Seq<K> {
        match (self, event) {
            (DialState::AddCandidates { next, .. }, DialEvent::CandidateAdded) => seq![next],
            _ => Seq::empty(),
        }
    }
}

impl<P, C, K> DialState<P, C, K> {
    /// The connection, as far as it is built: the peer connection, the reliable and
    /// the unreliable data channel.
    pub open spec fn built(self) -> (Option<P>, Option<C>, Option<C>) {
        match self {
            DialState::ReliableChannel { peer_connection } => (Some(peer_connection), None, None),
            DialState::UnreliableChannel { peer_connection, reliable } => (
                Some(peer_connection),
                Some(reliable),
                None,
            ),
            DialState::CreateOffer { link } => link.parts(),
            DialState::SetLocalDescription { link, .. } => link.parts(),
            DialState::ForwardCandidates { link, .. } => link.parts(),
            DialState::Gathering { link } => link.parts(),
            DialState::ReadLocalDescription { link } => link.parts(),
            DialState::Subscribe { link, .. } => link.parts(),
            DialState::SignalOffer { link, .. } => link.parts(),
            DialState::AwaitAnswer { link, .. } => link.parts(),
            DialState::ParseCandidate { link, .. } => link.parts(),
            DialState::SetRemoteDescription { link, .. } => link.parts(),
            DialState::AwaitCandidate { link } => link.parts(),
            DialState::ParseFirstCandidate { link, .. } => link.parts(),
            DialState::AddCandidates { link, .. } => link.parts(),
            DialState::OpenReliable { link } => link.parts(),
            DialState::OpenUnreliable { link } => link.parts(),
            DialState::Established { link } => link.parts(),
            _ => (None, None, None),
        }
    }
}

/// Where in a course the text of the offer came from.
pub struct OfferSource {
    /// The offer was created.
    pub created: int,
    /// The offer was made the local description.
    pub described: int,
    /// The local candidates were gathered.
    pub gathered: int,
    /// The local description was read back.
    pub read: int,
}

impl<P, C, K> Course<P, C, K> {
    /// Whether the signals of the other end were subscribed to at a place.
    pub open spec fn subscribes(self, at: int) -> bool {
        &&& 0 <= at < self.events.len()
        &&& self.states[at] is Subscribe
        &&& self.events[at] is Subscribed
    }

    /// Whether an offer was created at a place.
    pub open spec fn creates_offer(self, at: int, offer: LocalDescription) -> bool {
        &&& 0 <= at < self.events.len()
        &&& self.states[at] is CreateOffer
        &&& self.events[at] == DialEvent::<P, C, K>::Offer(Ok(offer))
    }

    /// Whether an offer was made the local description at a place, with candidates to
    /// go within it or not.
    pub open spec fn describes(self, at: int, offer: LocalDescription, disable_trickle_ice: bool) -> bool {
        &&& 0 <= at < self.events.len()
        &&& self.states[at] matches DialState::SetLocalDescription { offer: set, .. } && set == offer
        &&& self.events[at] matches DialEvent::LocalDescriptionSet { result: Ok(_), disable_trickle_ice: disable }
            && disable == disable_trickle_ice
    }

    /// Whether the local candidates were gathered at a place.
    pub open spec fn gathers(self, at: int) -> bool {
        &&& 0 <= at < self.events.len()
        &&& self.states[at] is Gathering
        &&& self.events[at] matches DialEvent::Gathered(Ok(_))
    }

    /// Whether a text was read back as the local description at a place.
    pub open spec fn reads_back(self, at: int, sdp: String) -> bool {
        &&& 0 <= at < self.events.len()
        &&& self.states[at] is ReadLocalDescription
        &&& self.events[at] == DialEvent::<P, C, K>::LocalSdp(Some(sdp))
    }

    /// Whether a text is the one to signal as an offer, by where it came from. Where
    /// candidates go within the offer, it was read back after they were gathered;
    /// otherwise it is the text of the offer as created.
    pub open spec fn settles_offer_text(
        self,
        at: OfferSource,
        offer: LocalDescription,
        disable_trickle_ice: bool,
        sdp: String,
    ) -> bool {
        &&& at.created < at.described
        &&& self.creates_offer(at.created, offer)
        &&& self.describes(at.described, offer, disable_trickle_ice)
        &&& if disable_trickle_ice {
            at.described < at.gathered < at.read && self.gathers(at.gathered) && self.reads_back(at.read, sdp)
        } else {
            sdp == offer.sdp
        }
    }

    /// Whether places account for what the last state holds of the offer's text.
    spec fn traces(self, at: OfferSource, offer: LocalDescription, disable_trickle_ice: bool) -> bool {
        match self.states.last() {
            DialState::SetLocalDescription { offer: set, .. } => set == offer && self.creates_offer(at.created, offer),
            DialState::ForwardCandidates { sdp, .. } => {
                !disable_trickle_ice && self.settles_offer_text(at, offer, disable_trickle_ice, sdp)
            },
            DialState::Gathering { .. } => {
                &&& disable_trickle_ice && at.created < at.described
                &&& self.creates_offer(at.created, offer)
                &&& self.describes(at.described, offer, disable_trickle_ice)
            },
            DialState::ReadLocalDescription { .. } => {
                &&& disable_trickle_ice && at.created < at.described < at.gathered
                &&& self.creates_offer(at.created, offer)
                &&& self.describes(at.described, offer, disable_trickle_ice)
                &&& self.gathers(at.gathered)
            },
            DialState::Subscribe { sdp, .. } => self.settles_offer_text(at, offer, disable_trickle_ice, sdp),
            DialState::SignalOffer { sdp, .. } => self.settles_offer_text(at, offer, disable_trickle_ice, sdp),
            _ => true,
        }
    }

    /// Whether the parts of a connection were built by the events at three places,
    /// in order, as far as they are built at all.
    pub open spec fn builds(self, parts: (Option<P>, Option<C>, Option<C>), at: (int, int, int)) -> bool {
        &&& parts.0 matches Some(peer_connection) ==> 0 <= at.0 < self.events.len() && self.events[at.0]
            == DialEvent::<P, C, K>::PeerConnection(Ok(peer_connection))
        &&& parts.1 matches Some(reliable) ==> at.0 < at.1 < self.events.len() && self.events[at.1]
            == DialEvent::<P, C, K>::Channel(Ok(reliable))
        &&& parts.2 matches Some(unreliable) ==> at.1 < at.2 < self.events.len() && self.events[at.2]
            == DialEvent::<P, C, K>::Channel(Ok(unreliable))
    }

    /// Whether the states follow one another, from the beginning of a negotiation.
    pub open spec fn valid(self) -> bool {
        &&& self.states.len() == self.events.len() + 1
        &&& self.states[0] is Credentials
        &&& forall|i: int|
            0 <= i < self.events.len() ==> (#[trigger] self.states[i]).follows(
                self.connection_id,
                self.remote_network_id,
                self.events[i],
                self.states[i + 1],
            )
    }

    /// The course up to the event before the last.
    pub open spec fn shorter(self) -> Self {
        Course { states: self.states.drop_last(), events: self.events.drop_last(), ..self }
    }

    /// The candidates that were parsed, in order.
    pub open spec fn parsed(self) -> Seq<K>
        decreases self.events.len(),
    {
        if self.events.len() == 0 {
            Seq::empty()
        } else {
            self.shorter().parsed() + self.states[self.events.len() - 1].parses(self.events.last())
        }
    }

    /// The candidates that were added to the peer connection, in order.
    pub open spec fn added(self) -> Seq<K>
        decreases self.events.len(),
    {
        if self.events.len() == 0 {
            Seq::empty()
        } else {
            self.shorter().added() + self.states[self.events.len() - 1].adds_candidate(self.events.last())
        }
    }

    /// How much of the negotiation is done at each state.
    pub open spec fn stages(self) -> Seq<nat> {
        self.states.map_values(|state: DialState<P, C, K>| state.stage())
    }

    /// Whether an event brings an answer of the remote network that can be parsed.
    pub open spec fn brings_answer(self, event: DialEvent<P, C, K>) -> bool {
        event matches DialEvent::Signal(signal) && signal.belongs_to(self.connection_id, self.remote_network_id)
            && signal.signal_type == SignalType::Answer && crate::transport::answer_description(signal.data@) is Ok
    }

    /// Whether the event at a place brings an answer that itself names a candidate.
    pub open spec fn answer_names_candidate(self, at: int) -> bool {
        &&& 0 <= at < self.events.len()
        &&& self.brings_answer(self.events[at])
        &&& crate::transport::description::holds_candidate(self.events[at]->Signal_0.data@)
    }

    /// The wait whose time is running when a state is reached, if every time was
    /// begun as [`Negotiation::begins_wait`] says.
    pub open spec fn running(self, at: int) -> Option<TimedWait>
        decreases at,
    {
        if at <= 0 {
            None
        } else {
            match self.states[at - 1].wait() {
                Some(wait) => Some(wait),
                None => self.running(at - 1),
            }
        }
    }

    /// Whether the time of a wait begins at a state.
    pub open spec fn begins_time(self, wait: TimedWait, at: int) -> bool {
        0 <= at < self.states.len() && self.states[at].wait() == Some(wait) && self.running(at) != Some(wait)
    }

    /// Whether a wait goes on from right after one place to another, without a break.
    pub open spec fn waits(self, wait: TimedWait, after: int, until: int) -> bool {
        &&& 0 <= after < until < self.states.len()
        &&& self.states[after].wait() != Some(wait)
        &&& forall|i: int| after < i <= until ==> (#[trigger] self.states[i]).wait() == Some(wait)
    }

    /// Whether the steps that a connection needs were taken at these places, in order.
    pub open spec fn passes(self, at: Milestones) -> bool {
        &&& 0 <= at.described < at.signaled < at.answered < at.accepted < at.first_open < at.second_open
            < self.events.len()
        &&& self.events[at.described] matches DialEvent::LocalDescriptionSet { result: Ok(_), .. }
        &&& self.events[at.signaled] matches DialEvent::OfferSignaled(Ok(_))
        &&& self.brings_answer(self.events[at.answered])
        &&& self.events[at.accepted] matches DialEvent::RemoteDescriptionSet(Ok(_))
        &&& self.events[at.first_open] matches DialEvent::ChannelOpen(Ok(_))
        &&& self.events[at.second_open] matches DialEvent::ChannelOpen(Ok(_))
        &&& self.states.last() matches DialState::Established { link } && {
            &&& self.states[at.first_open] == DialState::<P, C, K>::OpenReliable { link }
            &&& self.states[at.second_open] == DialState::<P, C, K>::OpenUnreliable { link }
        }
    }
}

/// A signal of another connection changes nothing, wherever a negotiation stands.
pub proof fn law_other_signals_are_ignored<P, C, K>(
    state: DialState<P, C, K>,
    connection_id: u64,
    remote_network_id: Seq<char>,
    signal: Signal,
    next: DialState<P, C, K>,
)
    requires
        !signal.belongs_to(connection_id, remote_network_id),
        state.follows(connection_id, remote_network_id, DialEvent::Signal(signal), next),
    ensures
        next == state,
{
}

/// Once a connection stands, or its negotiation failed, no event changes that.
pub proof fn law_outcome_is_final<P, C, K>(
    state: DialState<P, C, K>,
    connection_id: u64,
    remote_network_id: Seq<char>,
    event: DialEvent<P, C, K>,
    next: DialState<P, C, K>,
)
    requires
        state is Established || state is Failed,
        state.follows(connection_id, remote_network_id, event, next),
    ensures
        next == state,
{
}

/// A negotiation fails only for a cause: a step failed; the local description is
/// missing; the signals ended, or the answer or the first candidate took too long;
/// or a signal of this connection brought an error or, while the answer was waited
/// for, an offer or an answer that cannot be parsed.
pub proof fn law_failure_has_a_cause<P, C, K>(
    state: DialState<P, C, K>,
    connection_id: u64,
    remote_network_id: Seq<char>,
    event: DialEvent<P, C, K>,
    next: DialState<P, C, K>,
)
    requires
        !(state is Failed),
        state.follows(connection_id, remote_network_id, event, next),
    ensures
        next is Failed <==> state.expects(event) && {
            ||| event.failure() is Some
            ||| event == DialEvent::<P, C, K>::LocalSdp(None)
            ||| event is SignalsEnded
            ||| event is AnswerTimedOut
            ||| event is CandidateTimedOut
            ||| event matches DialEvent::Signal(signal) && signal.belongs_to(connection_id, remote_network_id) && {
                ||| signal.signal_type == SignalType::Error
                ||| state is AwaitAnswer && signal.signal_type == SignalType::Offer
                ||| state is AwaitAnswer && signal.signal_type == SignalType::Answer && crate::transport::answer_description(
                    signal.data@,
                ) is Err
            }
        },
{
}

/// An offer that crosses the one of this end is refused: the negotiation fails,
/// and the other end is told that its offer was ignored.
pub proof fn law_crossing_offer_is_refused<P, C, K>(
    state: DialState<P, C, K>,
    connection_id: u64,
    remote_network_id: String,
    offer: Signal,
    next: DialState<P, C, K>,
)
    requires
        state is AwaitAnswer,
        offer.signal_type == SignalType::Offer,
        offer.belongs_to(connection_id, remote_network_id@),
        state.follows(connection_id, remote_network_id@, DialEvent::Signal(offer), next),
    ensures
        next is Failed,
        next->failure.report(connection_id, remote_network_id) == Some(
            crate::signal::ErrorSignal {
                connection_id,
                code: SignalErrorCode::IncomingConnectionIgnored,
                network_id: remote_network_id,
            },
        ),
{
}

/// The other end is told of every failure but three: that the offer could not be
/// signaled, that the signals ended, and that the other end itself reported an
/// error.
pub proof fn law_failures_are_reported<P, C, K>(
    state: DialState<P, C, K>,
    connection_id: u64,
    remote_network_id: Seq<char>,
    event: DialEvent<P, C, K>,
    next: DialState<P, C, K>,
)
    requires
        !(state is Failed),
        state.follows(connection_id, remote_network_id, event, next),
        next is Failed,
    ensures
        next->failure.code is None <==> {
            ||| event is OfferSignaled
            ||| event is SignalsEnded
            ||| event matches DialEvent::Signal(signal) && signal.signal_type == SignalType::Error
        },
{
}

pub(crate) proof fn lemma_last_step<P, C, K>(course: Course<P, C, K>)
    requires
        course.valid(),
        course.events.len() > 0,
    ensures
        course.shorter().valid(),
        course.states[course.events.len() - 1] == course.shorter().states.last(),
        course.states[course.events.len() - 1].follows(
            course.connection_id,
            course.remote_network_id,
            course.events.last(),
            course.states.last(),
        ),
{
    let shorter = course.shorter();
    assert forall|i: int| 0 <= i < shorter.events.len() implies (#[trigger] shorter.states[i]).follows(
        shorter.connection_id,
        shorter.remote_network_id,
        shorter.events[i],
        shorter.states[i + 1],
    ) by {
        assert(course.states[i].follows(
            course.connection_id,
            course.remote_network_id,
            course.events[i],
            course.states[i + 1],
        ));
    }
}

/// Along every course of a negotiation that has not failed, the candidates that
/// were added, followed by those still to be added, are the ones that were
/// parsed, in the order in which they came.
pub proof fn law_candidates_are_kept<P, C, K>(course: Course<P, C, K>)
    requires
        course.valid(),
        !(course.states.last() is Failed),
    ensures
        course.added() + course.states.last().pending_candidates() == course.parsed(),
    decreases course.events.len(),
{
    if course.events.len() > 0 {
        let shorter = course.shorter();
        let state = shorter.states.last();
        let event = course.events.last();
        let next = course.states.last();
        lemma_last_step(course);
        law_candidates_are_kept(shorter);
        assert(state.adds_candidate(event) + next.pending_candidates() =~= state.pending_candidates()
            + state.parses(event));
        assert(course.added() + next.pending_candidates() =~= shorter.added() + (state.adds_candidate(event)
            + next.pending_candidates()));
        assert(course.parsed() =~= shorter.added() + (state.pending_candidates() + state.parses(event)));
    }
}

/// A connection that stands was told every candidate of the other end that came
/// while its answer or its first candidate was waited for and could be parsed: each
/// once, in order, and no other.
pub proof fn law_early_candidates_are_added<P, C, K>(course: Course<P, C, K>)
    requires
        course.valid(),
        course.states.last() is Established,
    ensures
        course.added() == course.parsed(),
{
    law_candidates_are_kept(course);
    assert(course.added() + Seq::<K>::empty() =~= course.added());
}

/// No connection stands without a candidate of the other end: one came and was
/// parsed, or the answer itself names one.
pub proof fn law_established_with_a_candidate<P, C, K>(course: Course<P, C, K>)
    requires
        course.valid(),
        course.states.last() is Established,
    ensures
        course.parsed().len() > 0 || exists|at: int| course.answer_names_candidate(at),
{
    lemma_candidate_known(course);
}

/// Where the answer is accepted, or about to be and said to name a candidate, one
/// is known.
proof fn lemma_candidate_known<P, C, K>(course: Course<P, C, K>)
    requires
        course.valid(),
    ensures
        course.states.last().rank() >= 14 && !(course.states.last() is Failed) ==> course.parsed().len() > 0
            || exists|at: int| course.answer_names_candidate(at),
        course.states.last() matches DialState::SetRemoteDescription { holds_candidate: true, .. } ==> exists|at: int|
            course.answer_names_candidate(at),
    decreases course.events.len(),
{
    if course.events.len() > 0 {
        let shorter = course.shorter();
        let n = course.events.len() - 1;
        let state = shorter.states.last();
        let next = course.states.last();
        lemma_last_step(course);
        lemma_candidate_known(shorter);
        assert(course.parsed().len() >= shorter.parsed().len());
        if exists|at: int| shorter.answer_names_candidate(at) {
            let at = choose|at: int| shorter.answer_names_candidate(at);
            assert(course.answer_names_candidate(at));
        }
        if next is SetRemoteDescription && state is AwaitAnswer {
            if next->SetRemoteDescription_holds_candidate {
                assert(course.answer_names_candidate(n));
            }
        }
        if state is SetRemoteDescription {
            law_candidates_are_kept(shorter);
            assert(shorter.parsed().len() >= state.pending_candidates().len());
        }
    }
}

/// The wait for the first candidate ends in time: a negotiation that has none when
/// its answer is accepted waits the time for it, and if that runs out, fails with a
/// time-out that the other end is told of.
pub proof fn law_missing_candidate_times_out<P, C, K>(
    link: Link<P, C>,
    candidates: Vec<K>,
    answer: RTCSessionDescription,
    connection_id: u64,
    remote_network_id: String,
    timeouts: Timeouts,
    accepted: DialState<P, C, K>,
    action: DialAction<P, C, K>,
    next: DialState<P, C, K>,
)
    requires
        candidates@.len() == 0,
        (DialState::SetRemoteDescription { link, candidates, answer, holds_candidate: false }).follows(
            connection_id,
            remote_network_id@,
            DialEvent::RemoteDescriptionSet(Ok(())),
            accepted,
        ),
        (Negotiation { connection_id, remote_network_id, timeouts, state: accepted }).asks_for(action),
        accepted.follows(connection_id, remote_network_id@, DialEvent::CandidateTimedOut, next),
    ensures
        action == DialAction::<P, C, K>::AwaitCandidate(timeouts.candidate),
        next.failed_with(
            Some(SignalErrorCode::NegotiationTimeoutWaitingForResponse),
            crate::error::ErrorView::Timeout,
        ),
{
}

proof fn lemma_rank<P, C, K>(course: Course<P, C, K>, i: int, j: int)
    requires
        course.valid(),
        0 <= i <= j < course.states.len(),
    ensures
        course.states[i].rank() <= course.states[j].rank(),
    decreases j - i,
{
    if i < j {
        lemma_rank(course, i, j - 1);
        assert(course.states[j - 1].follows(
            course.connection_id,
            course.remote_network_id,
            course.events[j - 1],
            course.states[j - 1 + 1],
        ));
    }
}

/// Every wait is one stretch of a negotiation: once it is over it does not come
/// again.
pub proof fn law_each_wait_is_one_stretch<P, C, K>(course: Course<P, C, K>, wait: TimedWait, i: int, j: int, k: int)
    requires
        course.valid(),
        0 <= i <= j <= k < course.states.len(),
        course.states[i].wait() == Some(wait),
        course.states[k].wait() == Some(wait),
    ensures
        course.states[j].wait() == Some(wait),
{
    lemma_rank(course, i, j);
    lemma_rank(course, j, k);
}

/// The time of a wait begins once in a negotiation: nothing that comes in prolongs it.
pub proof fn law_time_of_a_wait_begins_once<P, C, K>(course: Course<P, C, K>, wait: TimedWait, i: int, j: int)
    requires
        course.valid(),
        course.begins_time(wait, i),
        course.begins_time(wait, j),
    ensures
        i == j,
{
    if i < j {
        law_each_wait_is_one_stretch(course, wait, i, j - 1, j);
    } else if j < i {
        law_each_wait_is_one_stretch(course, wait, j, i - 1, i);
    }
}

proof fn lemma_wait_begins<P, C, K>(course: Course<P, C, K>, wait: TimedWait, until: int) -> (after: int)
    requires
        course.valid(),
        0 <= until < course.states.len(),
        course.states[until].wait() == Some(wait),
    ensures
        course.waits(wait, after, until),
    decreases until,
{
    let before = until - 1;
    if course.states[before].wait() == Some(wait) {
        lemma_wait_begins(course, wait, before)
    } else {
        before
    }
}

/// The wait for the answer begins when the offer was signaled and goes on from there
/// without a break: no signal that comes in meanwhile begins its time anew.
pub proof fn law_answer_wait_begins_with_the_offer<P, C, K>(course: Course<P, C, K>, until: int)
    requires
        course.valid(),
        0 <= until < course.states.len(),
        course.states[until].wait() == Some(TimedWait::Answer),
    ensures
        exists|after: int|
            course.waits(TimedWait::Answer, after, until) && (#[trigger] course.events[after] matches
                DialEvent::OfferSignaled(Ok(_))),
{
    let after = lemma_wait_begins(course, TimedWait::Answer, until);
    assert(course.states[after].follows(
        course.connection_id,
        course.remote_network_id,
        course.events[after],
        course.states[after + 1],
    ));
    assert(course.states[after + 1].wait() == Some(TimedWait::Answer));
}

/// The wait for the first candidate begins when the answer was accepted and goes on
/// from there without a break.
pub proof fn law_candidate_wait_begins_with_the_answer<P, C, K>(course: Course<P, C, K>, until: int)
    requires
        course.valid(),
        0 <= until < course.states.len(),
        course.states[until].wait() == Some(TimedWait::Candidate),
    ensures
        exists|after: int|
            course.waits(TimedWait::Candidate, after, until) && (#[trigger] course.events[after] matches
                DialEvent::RemoteDescriptionSet(Ok(_))),
{
    let after = lemma_wait_begins(course, TimedWait::Candidate, until);
    assert(course.states[after].follows(
        course.connection_id,
        course.remote_network_id,
        course.events[after],
        course.states[after + 1],
    ));
    assert(course.states[after + 1].wait() == Some(TimedWait::Candidate));
}

/// What a negotiation holds of its connection is what was built for it: the peer
/// connection, then the reliable data channel, then the unreliable one. None is
/// replaced or exchanged for another.
pub proof fn law_connection_is_the_one_built<P, C, K>(course: Course<P, C, K>)
    requires
        course.valid(),
    ensures
        exists|at: (int, int, int)| course.builds(course.states.last().built(), at),
    decreases course.events.len(),
{
    if course.events.len() == 0 {
        assert(course.builds(course.states.last().built(), (0, 0, 0)));
    } else {
        let shorter = course.shorter();
        let state = shorter.states.last();
        let next = course.states.last();
        let n = course.events.len() - 1;
        lemma_last_step(course);
        law_connection_is_the_one_built(shorter);
        let at = choose|at: (int, int, int)| shorter.builds(state.built(), at);
        assert(course.builds(state.built(), at));
        if next.built().0 is None {
            assert(course.builds(next.built(), at));
        } else if state.built().0 is None {
            assert(course.builds(next.built(), (n, 0, 0)));
        } else if state.built().1 is None && next.built().1 is Some {
            assert(course.builds(next.built(), (at.0, n, 0)));
        } else if state.built().2 is None && next.built().2 is Some {
            assert(course.builds(next.built(), (at.0, at.1, n)));
        } else {
            assert(next.built() == state.built());
        }
    }
}

proof fn lemma_offer_traced<P, C, K>(course: Course<P, C, K>) -> (traced: (OfferSource, LocalDescription, bool))
    requires
        course.valid(),
    ensures
        course.traces(traced.0, traced.1, traced.2),
    decreases course.events.len(),
{
    if course.events.len() == 0 {
        arbitrary()
    } else {
        let shorter = course.shorter();
        let n = course.events.len() - 1;
        let state = shorter.states.last();
        lemma_last_step(course);
        let (at, offer, disable) = lemma_offer_traced(shorter);
        if course.states.last() == state {
            (at, offer, disable)
        } else {
            match (state, course.events.last()) {
                (DialState::CreateOffer { .. }, DialEvent::Offer(Ok(created))) => {
                    (OfferSource { created: n, ..at }, created, disable)
                },
                (
                    DialState::SetLocalDescription { .. },
                    DialEvent::LocalDescriptionSet { disable_trickle_ice, .. },
                ) => (OfferSource { described: n, ..at }, offer, disable_trickle_ice),
                (DialState::Gathering { .. }, _) => (OfferSource { gathered: n, ..at }, offer, disable),
                (DialState::ReadLocalDescription { .. }, _) => (OfferSource { read: n, ..at }, offer, disable),
                _ => (at, offer, disable),
            }
        }
    }
}

/// Which text is signaled as the offer depends on where candidates go. Where they go
/// within the offer, it is the local description read back after they were gathered;
/// otherwise it is the text of the offer as created, which was made the local
/// description.
pub proof fn law_trickling_decides_the_offer_text<P, C, K>(course: Course<P, C, K>)
    requires
        course.valid(),
        course.states.last() is SignalOffer,
    ensures
        exists|at: OfferSource, offer: LocalDescription, disable_trickle_ice: bool|
            course.settles_offer_text(at, offer, disable_trickle_ice, course.states.last()->SignalOffer_sdp),
{
    let (at, offer, disable) = lemma_offer_traced(course);
    assert(course.settles_offer_text(at, offer, disable, course.states.last()->SignalOffer_sdp));
}

/// A negotiation subscribes to the signals once, and before it signals its offer; and
/// it signals one offer.
pub proof fn law_one_offer_after_subscribing<P, C, K>(course: Course<P, C, K>, i: int, j: int)
    requires
        course.valid(),
        0 <= i < course.events.len(),
        0 <= j < course.events.len(),
        course.states[i] is SignalOffer,
        course.events[i] is OfferSignaled,
    ensures
        course.states[j] is SignalOffer && course.events[j] is OfferSignaled ==> j == i,
        course.states[j] is Subscribe && course.events[j] is Subscribed ==> j < i,
        exists|k: int| 0 <= k < i && course.subscribes(k),
        forall|k: int, l: int| #[trigger] course.subscribes(k) && #[trigger] course.subscribes(l) ==> k == l,
{
    let k = lemma_subscribed(course, i);
    assert(course.states[i].follows(
        course.connection_id,
        course.remote_network_id,
        course.events[i],
        course.states[i + 1],
    ));
    if i < j {
        lemma_rank(course, i + 1, j);
    } else if j < i {
        assert(course.states[j].follows(
            course.connection_id,
            course.remote_network_id,
            course.events[j],
            course.states[j + 1],
        ));
        lemma_rank(course, j + 1, i);
    }
    assert forall|k: int, l: int| #[trigger] course.subscribes(k) && #[trigger] course.subscribes(l) implies k == l by {
        lemma_subscribed_once(course, k, l);
        lemma_subscribed_once(course, l, k);
    }
}

proof fn lemma_subscribed_once<P, C, K>(course: Course<P, C, K>, k: int, l: int)
    requires
        course.valid(),
        course.subscribes(k),
        course.subscribes(l),
    ensures
        !(k < l),
{
    if k < l {
        assert(course.states[k].follows(
            course.connection_id,
            course.remote_network_id,
            course.events[k],
            course.states[k + 1],
        ));
        lemma_rank(course, k + 1, l);
    }
}

proof fn lemma_subscribed<P, C, K>(course: Course<P, C, K>, i: int) -> (k: int)
    requires
        course.valid(),
        0 <= i < course.states.len(),
        course.states[i] is SignalOffer,
    ensures
        0 <= k < i,
        course.subscribes(k),
    decreases i,
{
    assert(course.states[i - 1].follows(
        course.connection_id,
        course.remote_network_id,
        course.events[i - 1],
        course.states[i - 1 + 1],
    ));
    if course.states[i - 1] is SignalOffer {
        lemma_subscribed(course, i - 1)
    } else {
        i - 1
    }
}

proof fn lemma_gradual<P, C, K>(course: Course<P, C, K>)
    requires
        course.valid(),
        !(course.states.last() is Failed),
    ensures
        crate::transport::progress::gradual(course.stages()),
    decreases course.events.len(),
{
    if course.events.len() > 0 {
        lemma_last_step(course);
        lemma_gradual(course.shorter());
        let front = course.shorter().stages();
        let stages = course.stages();
        assert forall|i: int| 0 <= i < stages.len() - 1 implies #[trigger] stages[i] <= stages[i + 1] <= stages[i]
            + 1 by {
            if i < stages.len() - 2 {
                assert(front[i] <= front[i + 1] <= front[i] + 1);
            }
        }
    }
}

/// Which event each stage is entered by.
proof fn lemma_stage_entered<P, C, K>(course: Course<P, C, K>, at: int, stage: nat)
    requires
        course.valid(),
        crate::transport::progress::enters(course.stages(), at, stage),
    ensures
        stage == 1 ==> (course.events[at] matches DialEvent::LocalDescriptionSet { result: Ok(_), .. }),
        stage == 2 ==> (course.events[at] matches DialEvent::OfferSignaled(Ok(_))),
        stage == 3 ==> course.brings_answer(course.events[at]),
        stage == 4 ==> (course.events[at] matches DialEvent::RemoteDescriptionSet(Ok(_))),
        stage == 5 || stage == 6 ==> (course.events[at] matches DialEvent::ChannelOpen(Ok(_))),
        stage == 5 ==> course.states[at] is OpenReliable,
        stage == 6 ==> course.states[at] is OpenUnreliable,
{
    assert(course.states[at].follows(
        course.connection_id,
        course.remote_network_id,
        course.events[at],
        course.states[at + 1],
    ));
    assert(course.stages()[at + 1] == course.states[at + 1].stage());
}

/// The connection that stands at the end is the one that stood when all of it was
/// built.
proof fn lemma_link_kept<P, C, K>(course: Course<P, C, K>, at: int)
    requires
        course.valid(),
        0 <= at < course.states.len(),
        course.states[at].built().2 is Some,
        !(course.states.last() is Failed),
    ensures
        course.states.last().built() == course.states[at].built(),
    decreases course.events.len(),
{
    if at < course.events.len() {
        lemma_last_step(course);
        lemma_link_kept(course.shorter(), at);
    }
}

/// No connection stands without its steps, in order: the offer was made the local
/// description; it was signaled; an answer of the remote network came; it was made
/// the remote description; the reliable data channel of the connection opened; and
/// then the unreliable one did.
pub proof fn law_established_in_order<P, C, K>(course: Course<P, C, K>)
    requires
        course.valid(),
        course.states.last() is Established,
    ensures
        exists|at: Milestones| course.passes(at),
{
    let stages = course.stages();
    lemma_gradual(course);
    let a = crate::transport::progress::lemma_entered(stages, 1);
    let b = crate::transport::progress::lemma_entered(stages, 2);
    let c = crate::transport::progress::lemma_entered(stages, 3);
    let d = crate::transport::progress::lemma_entered(stages, 4);
    let e = crate::transport::progress::lemma_entered(stages, 5);
    let f = crate::transport::progress::lemma_entered(stages, 6);
    crate::transport::progress::lemma_order(stages, a, 1, b, 2);
    crate::transport::progress::lemma_order(stages, b, 2, c, 3);
    crate::transport::progress::lemma_order(stages, c, 3, d, 4);
    crate::transport::progress::lemma_order(stages, d, 4, e, 5);
    crate::transport::progress::lemma_order(stages, e, 5, f, 6);
    lemma_stage_entered(course, a, 1);
    lemma_stage_entered(course, b, 2);
    lemma_stage_entered(course, c, 3);
    lemma_stage_entered(course, d, 4);
    lemma_stage_entered(course, e, 5);
    lemma_stage_entered(course, f, 6);
    lemma_link_kept(course, e);
    lemma_link_kept(course, f);
    assert(course.passes(
        Milestones { described: a, signaled: b, answered: c, accepted: d, first_open: e, second_open: f },
    ));
}

} // verus!
