//! What goes on beside a connection.

use crate::signal::Signal;
use crate::transport::watch::{ForwarderView, WatchEvent, WatchStep};
use vstd::prelude::*;

verus! {

/// At the end that asked, a signal with the number of the connection and the name of the
/// remote network is acted upon: a candidate is parsed, and an error closes the session.
/// Every other signal is passed over, and only an end of the session or of the signals
/// ends the watch.
pub proof fn law_dialed_connection_is_watched<K>(
    connection_id: u64,
    remote_network_id: String,
    event: WatchEvent,
    step: WatchStep<K>,
)
    requires
        step.follows_dialed(connection_id, remote_network_id@, event),
    ensures
        (event matches WatchEvent::Signal(signal) ==> ({
            let own = signal.connection_id == connection_id && signal.network_id@ == remote_network_id@;
            &&& own && signal.signal_type is Candidate ==> (step matches WatchStep::ParseCandidate(data) && data@
                == signal.data@)
            &&& step is CloseSession <==> own && signal.signal_type is Error
            &&& !own || signal.signal_type is Offer || signal.signal_type is Answer ==> step is Wait
        })),
        step is Stop <==> event is Closed || event is Ended,
{
}

/// At the end that answered, every candidate in the inbox is parsed, an error ends the
/// watch, and so does an end of the session or of the signals; nothing else does.
pub proof fn law_answered_connection_is_watched<K>(event: WatchEvent, step: WatchStep<K>)
    requires
        step.follows_answered(event),
    ensures
        (event matches WatchEvent::Signal(signal) ==> ({
            &&& signal.signal_type is Candidate ==> (step matches WatchStep::ParseCandidate(data) && data@
                == signal.data@)
            &&& step is Stop <==> signal.signal_type is Error
            &&& signal.signal_type is Offer || signal.signal_type is Answer ==> step is Wait
        })),
        event is Closed || event is Ended ==> step is Stop,
        !(step is CloseSession),
{
}

/// Every candidate that could be parsed is added.
pub proof fn law_late_candidate_is_added<K>(parsed: Option<K>, step: WatchStep<K>)
    requires
        step.follows_parse(parsed),
    ensures
        parsed matches Some(candidate) ==> (step matches WatchStep::AddCandidate(added) && added == candidate),
        parsed is None ==> step is Wait,
{
}

/// Every local candidate goes to the remote network under the number of the connection,
/// and the next one has the next number of turn.
pub proof fn law_local_candidate_goes_to_the_remote_network(
    forwarder: ForwarderView,
    data: String,
    signal: Signal,
    after: ForwarderView,
)
    requires
        forwarder.forwards(data, signal, after),
    ensures
        signal.signal_type is Candidate,
        signal.connection_id == forwarder.connection_id,
        signal.network_id@ == forwarder.network_id@,
        signal.data@ == data@,
        after.index == forwarder.index + 1,
        after.connection_id == forwarder.connection_id,
        after.network_id@ == forwarder.network_id@,
{
}

/// Forwarding begins with the number zero, for its connection and its network.
pub proof fn law_forwarding_begins_at_zero(connection_id: u64, network_id: String)
    ensures
        ForwarderView::begin(connection_id, network_id).index == 0,
        ForwarderView::begin(connection_id, network_id).connection_id == connection_id,
        ForwarderView::begin(connection_id, network_id).network_id@ == network_id@,
{
}

} // verus!
