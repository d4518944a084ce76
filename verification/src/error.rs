//! Errors of the transport, and the codes that signals carry.

use vstd::prelude::*;

verus! {

/// `webrtc::error::Error`, the error of every WebRTC operation.
#[verifier::external_type_specification]
#[verifier::external_body]
pub struct ExWebRtcError(webrtc::error::Error);

/// Why a negotiation failed, as one end tells the other.
#[derive(Clone, Copy, Debug, PartialEq, Eq, Structural)]
pub enum SignalErrorCode {
    /// The peer connection or one of its data channels could not be created.
    FailedToCreatePeerConnection,
    /// The connection did not come up.
    Ice,
    /// The offer could not be created.
    FailedToCreateOffer,
    /// The answer could not be created.
    FailedToCreateAnswer,
    /// The local session description was refused.
    FailedToSetLocalDescription,
    /// The remote session description was refused.
    FailedToSetRemoteDescription,
    /// No answer came in time, or no candidate after it.
    NegotiationTimeoutWaitingForResponse,
    /// The data channels of the other end did not open in time.
    NegotiationTimeoutWaitingForAccept,
    /// An offer came while this end was itself connecting.
    IncomingConnectionIgnored,
    /// The code of the other end could not be read.
    SignalingUnknownError,
    /// No credentials for the relay servers could be had.
    SignalingTurnAuthFailed,
    /// A code received from the other end, by its number.
    Code(u32),
}

impl From<u32> for SignalErrorCode {
    fn from(number: u32) -> (code: Self) {
        SignalErrorCode::Code(number)
    }
}

impl vstd::std_specs::convert::FromSpecImpl<u32> for SignalErrorCode {
    open spec fn obeys_from_spec() -> bool {
        true
    }

    open spec fn from_spec(number: u32) -> Self {
        SignalErrorCode::Code(number)
    }
}

/// What can go wrong with a connection.
#[derive(Debug)]
pub enum NethernetError {
    /// The connection, or what feeds it, is closed.
    ConnectionClosed,
    /// A step took too long.
    Timeout,
    /// A data channel failed.
    DataChannel(String),
    /// A value that must exist by now is missing.
    InvalidState(String),
    /// The other end reported an error.
    Signaled(SignalErrorCode),
    /// Anything else.
    Other(String),
    /// A WebRTC operation failed.
    WebRtc(webrtc::error::Error),
}

/// A [`NethernetError`] with its text as a sequence of characters.
pub enum ErrorView {
    /// See [`NethernetError::ConnectionClosed`].
    ConnectionClosed,
    /// See [`NethernetError::Timeout`].
    Timeout,
    /// See [`NethernetError::DataChannel`].
    DataChannel(Seq<char>),
    /// See [`NethernetError::InvalidState`].
    InvalidState(Seq<char>),
    /// See [`NethernetError::Signaled`].
    Signaled(SignalErrorCode),
    /// See [`NethernetError::Other`].
    Other(Seq<char>),
    /// See [`NethernetError::WebRtc`].
    WebRtc(webrtc::error::Error),
}

impl View for NethernetError {
    type V = ErrorView;

    open spec fn view(&self) -> ErrorView {
        match *self {
            NethernetError::ConnectionClosed => ErrorView::ConnectionClosed,
            NethernetError::Timeout => ErrorView::Timeout,
            NethernetError::DataChannel(text) => ErrorView::DataChannel(text@),
            NethernetError::InvalidState(text) => ErrorView::InvalidState(text@),
            NethernetError::Signaled(code) => ErrorView::Signaled(code),
            NethernetError::Other(text) => ErrorView::Other(text@),
            NethernetError::WebRtc(error) => ErrorView::WebRtc(error),
        }
    }
}

impl From<webrtc::error::Error> for NethernetError {
    fn from(error: webrtc::error::Error) -> (wrapped: Self) {
        NethernetError::WebRtc(error)
    }
}

impl vstd::std_specs::convert::FromSpecImpl<webrtc::error::Error> for NethernetError {
    open spec fn obeys_from_spec() -> bool {
        true
    }

    open spec fn from_spec(error: webrtc::error::Error) -> Self {
        NethernetError::WebRtc(error)
    }
}

impl NethernetError {
    /// Whether the error reports a data channel failure in the words of a WebRTC error.
    pub open spec fn tells_channel_failure(self, error: webrtc::error::Error) -> bool {
        self matches NethernetError::DataChannel(text) && vstd::string::to_string_from_display_ensures::<webrtc::error::Error>(
            &error,
            text,
        )
    }

    /// The failure of a data channel, in the words of the WebRTC error.
    pub fn data_channel(error: &webrtc::error::Error) -> (wrapped: Self)
        ensures
            wrapped.tells_channel_failure(*error),
    {
        NethernetError::DataChannel(error.to_string())
    }
}

} // verus!
