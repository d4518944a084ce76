//! What goes on beside a connection: local candidates are forwarded to the other
//! end, and its further signals are watched for.

use crate::signal::{Signal, SignalType};
use vstd::prelude::*;

verus! {

/// The forwarding of local ICE candidates to a network, one signal each.
pub struct CandidateForwarder {
    connection_id: u64,
    network_id: String,
    index: usize,
}

/// What a [`CandidateForwarder`] consists of.
pub struct ForwarderView {
    /// The connection that the candidates are for.
    pub connection_id: u64,
    /// The network that they go to.
    pub network_id: String,
    /// How many were forwarded.
    pub index: nat,
}

impl View for CandidateForwarder {
    type V = ForwarderView;

    closed spec fn view(&self) -> ForwarderView {
        ForwarderView { connection_id: self.connection_id, network_id: self.network_id, index: self.index as nat }
    }
}

impl ForwarderView {
    /// Forwarding for a connection with a network, that has not begun.
    pub open spec fn begin(connection_id: u64, network_id: String) -> Self {
        ForwarderView { connection_id, network_id, index: 0 }
    }

    /// Whether this signal is sent for a candidate, and this is the forwarding after it.
    pub open spec fn forwards(self, data: String, signal: Signal, after: Self) -> bool {
        &&& signal == (Signal {
            signal_type: SignalType::Candidate,
            connection_id: self.connection_id,
            data,
            network_id: self.network_id,
        })
        &&& after == (ForwarderView { index: self.index + 1, ..self })
    }
}

impl CandidateForwarder {
    /// Forwarding that has not begun.
    pub fn new(connection_id: u64, network_id: String) -> (forwarder: Self)
        ensures
            forwarder@ == (ForwarderView { connection_id, network_id, index: 0 }),
            forwarder@ == ForwarderView::begin(connection_id, network_id),
    {
        CandidateForwarder { connection_id, network_id, index: 0 }
    }

    /// The number that the next candidate is formatted with.
    pub fn index(&self) -> (index: usize)
        ensures
            index == self@.index,
    {
        self.index
    }

    /// The signal for a candidate, formatted with the number of its turn.
    pub fn forward(&mut self, data: String) -> (signal: Signal)
        requires
            old(self)@.index < usize::MAX,
        ensures
            signal == (Signal {
                signal_type: SignalType::Candidate,
                connection_id: old(self)@.connection_id,
                data,
                network_id: old(self)@.network_id,
            }),
            final(self)@ == (ForwarderView { index: old(self)@.index + 1, ..old(self)@ }),
            old(self)@.forwards(data, signal, final(self)@),
    {
        self.index += 1;
        Signal::candidate(self.connection_id, data, self.network_id.clone())
    }

    /// Whether forwarding goes on after a signal was sent, or could not be.
    pub fn goes_on<E>(result: &Result<(), E>) -> (on: bool)
        ensures
            on == (result is Ok),
    {
        result.is_ok()
    }
}

/// What can happen while the further signals of a connection are watched for.
pub enum WatchEvent {
    /// The session closed.
    Closed,
    /// A signal came.
    Signal(Signal),
    /// There will be no more signals.
    Ended,
}

/// What to do next with a connection that is watched. `K` is an ICE candidate.
pub enum WatchStep<K> {
    /// Wait for what happens next.
    Wait,
    /// Parse a candidate of the other end.
    ParseCandidate(String),
    /// Add a candidate of the other end, then wait for what happens next; it does
    /// not matter whether the candidate could be added.
    AddCandidate(K),
    /// Close the session, whatever comes of that, and stop.
    CloseSession,
    /// Stop watching. The end that answered also forgets the connection.
    Stop,
}

impl<K> WatchStep<K> {
    /// Whether this is what an event leads to at the end that asked for the connection.
    pub open spec fn follows_dialed(self, connection_id: u64, remote_network_id: Seq<char>, event: WatchEvent) -> bool {
        match event {
            WatchEvent::Closed => self is Stop,
            WatchEvent::Ended => self is Stop,
            WatchEvent::Signal(signal) => if !signal.belongs_to(connection_id, remote_network_id) {
                self is Wait
            } else {
                match signal.signal_type {
                    SignalType::Candidate => self == WatchStep::<K>::ParseCandidate(signal.data),
                    SignalType::Error => self is CloseSession,
                    _ => self is Wait,
                }
            },
        }
    }

    /// Whether this is what an event leads to at the end that answered.
    pub open spec fn follows_answered(self, event: WatchEvent) -> bool {
        match event {
            WatchEvent::Closed => self is Stop,
            WatchEvent::Ended => self is Stop,
            WatchEvent::Signal(signal) => match signal.signal_type {
                SignalType::Candidate => self == WatchStep::<K>::ParseCandidate(signal.data),
                SignalType::Error => self is Stop,
                _ => self is Wait,
            },
        }
    }

    /// Whether this is what parsing a candidate leads to.
    pub open spec fn follows_parse(self, parsed: Option<K>) -> bool {
        match parsed {
            Some(candidate) => self == WatchStep::AddCandidate(candidate),
            None => self is Wait,
        }
    }

    /// What an event leads to at the end that asked for the connection. Its
    /// signals come from everyone, so those of other connections are passed over.
    pub fn after_dialed(connection_id: u64, remote_network_id: &String, event: WatchEvent) -> (step: Self)
        ensures
            step.follows_dialed(connection_id, remote_network_id@, event),
    {
        match event {
            WatchEvent::Closed => WatchStep::Stop,
            WatchEvent::Ended => WatchStep::Stop,
            WatchEvent::Signal(signal) => if !signal.is_of(connection_id, remote_network_id) {
                WatchStep::Wait
            } else {
                match signal.signal_type {
                    SignalType::Candidate => WatchStep::ParseCandidate(signal.data),
                    SignalType::Error => WatchStep::CloseSession,
                    _ => WatchStep::Wait,
                }
            },
        }
    }

    /// What an event leads to at the end that answered. Its signals are all of
    /// this connection.
    pub fn after_answered(event: WatchEvent) -> (step: Self)
        ensures
            step.follows_answered(event),
    {
        match event {
            WatchEvent::Closed => WatchStep::Stop,
            WatchEvent::Ended => WatchStep::Stop,
            WatchEvent::Signal(signal) => match signal.signal_type {
                SignalType::Candidate => WatchStep::ParseCandidate(signal.data),
                SignalType::Error => WatchStep::Stop,
                _ => WatchStep::Wait,
            },
        }
    }

    /// What parsing a candidate leads to: text that is no candidate is passed over.
    pub fn after_parse(parsed: Option<K>) -> (step: Self)
        ensures
            step.follows_parse(parsed),
    {
        match parsed {
            Some(candidate) => WatchStep::AddCandidate(candidate),
            None => WatchStep::Wait,
        }
    }
}

} // verus!
