//! Signals: the messages that two networks exchange, over a signaling service,
//! to set up a connection.

use crate::error::SignalErrorCode;
use vstd::prelude::*;

verus! {

/// What a signal says.
#[derive(Clone, Copy, Debug, PartialEq, Eq, Structural)]
pub enum SignalType {
    /// The sender wants to connect; the data is its session description.
    Offer,
    /// The sender accepts an offer; the data is its session description.
    Answer,
    /// The sender can be reached over one more ICE candidate, described by the data.
    Candidate,
    /// The sender gave the connection up; the data is an error code.
    Error,
}

/// A signal of one connection.
#[derive(Debug)]
pub struct Signal {
    /// What the signal says.
    pub signal_type: SignalType,
    /// The connection that the signal is about.
    pub connection_id: u64,
    /// A session description, an ICE candidate or an error code.
    pub data: String,
    /// The network at the other end.
    pub network_id: String,
}

/// The report to the other end that a negotiation failed.
#[derive(Debug)]
pub struct ErrorSignal {
    /// The connection that was given up.
    pub connection_id: u64,
    /// Why it was given up.
    pub code: SignalErrorCode,
    /// The network at the other end.
    pub network_id: String,
}

impl Signal {
    /// Whether the signal belongs to the connection with a remote network.
    pub open spec fn belongs_to(self, connection_id: u64, network_id: Seq<char>) -> bool {
        self.connection_id == connection_id && self.network_id@ == network_id
    }

    /// An offer to a network.
    pub fn offer(connection_id: u64, sdp: String, network_id: String) -> (signal: Self)
        ensures
            signal == (Signal { signal_type: SignalType::Offer, connection_id, data: sdp, network_id }),
    {
        Signal { signal_type: SignalType::Offer, connection_id, data: sdp, network_id }
    }

    /// An answer to the offer of a network.
    pub fn answer(connection_id: u64, sdp: String, network_id: String) -> (signal: Self)
        ensures
            signal == (Signal { signal_type: SignalType::Answer, connection_id, data: sdp, network_id }),
    {
        Signal { signal_type: SignalType::Answer, connection_id, data: sdp, network_id }
    }

    /// A local candidate, for a network.
    pub fn candidate(connection_id: u64, data: String, network_id: String) -> (signal: Self)
        ensures
            signal == (Signal { signal_type: SignalType::Candidate, connection_id, data, network_id }),
    {
        Signal { signal_type: SignalType::Candidate, connection_id, data, network_id }
    }

    /// The report of a failed negotiation, to a network.
    pub fn error(connection_id: u64, code: SignalErrorCode, network_id: String) -> (signal: ErrorSignal)
        ensures
            signal == (ErrorSignal { connection_id, code, network_id }),
    {
        ErrorSignal { connection_id, code, network_id }
    }

    /// Whether the signal belongs to the connection with a remote network.
    pub fn is_of(&self, connection_id: u64, network_id: &String) -> (same: bool)
        ensures
            same == self.belongs_to(connection_id, network_id@),
    {
        self.connection_id == connection_id && self.network_id == *network_id
    }
}

} // verus!
