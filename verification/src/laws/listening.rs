//! What a listener does with signals and sessions.

use crate::error::NethernetError;
use crate::signal::Signal;
use crate::transport::listener::{ListenerEvent, ListenerStep, ListenerView};
use crate::transport::ConnectionConfig;
use vstd::prelude::*;

verus! {

/// A connection is told by the characters of its network's name and by all of its number.
pub proof fn law_connections_are_told_apart(one: Signal, other: Signal)
    ensures
        one.connection() == (one.network_id@, one.connection_id),
        one.connection() == other.connection() <==> one.network_id@ == other.network_id@ && one.connection_id
            == other.connection_id,
{
}

/// A listener that is open answers every offer, and puts any other signal into the inbox
/// that is registered under the name of its network and its number; only where there is
/// none is the signal passed over.
pub proof fn law_signal_goes_where_it_belongs<H>(listener: ListenerView<H>, signal: Signal, step: ListenerStep<H>)
    requires
        !listener.closed,
        listener.leads_to(ListenerEvent::Signal(signal), step),
    ensures
        ({
            let key = (signal.network_id@, signal.connection_id);
            &&& signal.signal_type is Offer ==> (step matches ListenerStep::Answer(offer) && offer == signal)
            &&& !(signal.signal_type is Offer) && listener.inboxes.contains_key(key) ==> (step matches
                ListenerStep::Forward(inbox, forwarded) && *inbox == listener.inboxes[key] && forwarded == signal)
            &&& !(signal.signal_type is Offer) && !listener.inboxes.contains_key(key) ==> step is Ignore
        }),
{
}

/// A listener stops exactly if it was closed, cancelled, or has no more signals.
pub proof fn law_listener_stops_for_a_cause<H>(listener: ListenerView<H>, event: ListenerEvent, step: ListenerStep<H>)
    requires
        listener.leads_to(event, step),
    ensures
        step is Stop <==> listener.closed || event is Cancelled || event is Ended,
{
}

/// After the connection of an offer was registered, a signal with the same number and
/// network goes to that inbox; one with another number or network goes where it went.
pub proof fn law_inbox_gets_the_signals_of_its_offer<H>(
    listener: ListenerView<H>,
    offer: Signal,
    inbox: H,
    signal: Signal,
    before: ListenerStep<H>,
    after: ListenerStep<H>,
)
    requires
        !listener.closed,
        !(signal.signal_type is Offer),
        listener.leads_to(ListenerEvent::Signal(signal), before),
        listener.registered(offer, inbox).leads_to(ListenerEvent::Signal(signal), after),
    ensures
        signal.connection_id == offer.connection_id && signal.network_id@ == offer.network_id@ ==> (after matches
            ListenerStep::Forward(to, forwarded) && *to == inbox && forwarded == signal),
        signal.connection_id != offer.connection_id || signal.network_id@ != offer.network_id@ ==> after == before,
{
}

/// After a connection was forgotten, a signal with its number and network is passed
/// over; one with another number or network goes where it went.
pub proof fn law_forgotten_inbox_gets_nothing<H>(
    listener: ListenerView<H>,
    network_id: String,
    connection_id: u64,
    signal: Signal,
    before: ListenerStep<H>,
    after: ListenerStep<H>,
)
    requires
        !listener.closed,
        !(signal.signal_type is Offer),
        listener.leads_to(ListenerEvent::Signal(signal), before),
        listener.forgotten(network_id@, connection_id).leads_to(ListenerEvent::Signal(signal), after),
    ensures
        signal.connection_id == connection_id && signal.network_id@ == network_id@ ==> after is Ignore,
        signal.connection_id != connection_id || signal.network_id@ != network_id@ ==> after == before,
{
}

/// A listener begins open, on its network as a whole, with its options, and knows no
/// connection.
pub proof fn law_listener_begins_open<H>(network_id: String, config: ConnectionConfig, connection: (Seq<char>, u64))
    ensures
        ({
            let listener = ListenerView::<H>::begin(network_id, config);
            &&& listener.local_addr.network_id@ == network_id@
            &&& listener.local_addr.connection_id is None
            &&& listener.config == config
            &&& !listener.inboxes.contains_key(connection)
            &&& !listener.closed
        }),
{
}

/// Registering and forgetting connections leaves a listener on its network, with its
/// options, open or closed as it was; and closing it only closes it.
pub proof fn law_listener_stays_what_it_is<H>(
    listener: ListenerView<H>,
    offer: Signal,
    inbox: H,
    network_id: String,
    connection_id: u64,
)
    ensures
        ({
            let registered = listener.registered(offer, inbox);
            let forgotten = listener.forgotten(network_id@, connection_id);
            let shut = listener.shut();
            &&& registered.local_addr == listener.local_addr && forgotten.local_addr == listener.local_addr
                && shut.local_addr == listener.local_addr
            &&& registered.config == listener.config && forgotten.config == listener.config && shut.config
                == listener.config
            &&& registered.closed == listener.closed && forgotten.closed == listener.closed
            &&& shut.closed && shut.inboxes == listener.inboxes
        }),
{
}

/// Accepting gives the session that is next, and an error exactly where there is none.
pub proof fn law_accept_gives_the_next_session<S>(next: Option<S>)
    ensures
        ({
            let result = crate::transport::listener::accept_result(next);
            &&& next matches Some(session) ==> (result matches Ok(given) && given == session)
            &&& next is None ==> (result matches Err(error) && error is ConnectionClosed)
        }),
{
}

} // verus!
