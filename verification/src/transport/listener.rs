//! The listener: it routes the signals of a network to the connections that they
//! belong to, and answers the offers among them.

use crate::addr::Addr;
use crate::error::NethernetError;
use crate::signal::{ErrorSignal, Signal, SignalType};
use crate::transport::{ConnectionConfig, Failure};
use vstd::prelude::*;

verus! {

/// What tells connections apart: the remote network and the connection's number.
pub type ConnectionKeyView = (Seq<char>, u64);

/// The inbox `H` of a connection under negotiation or in use.
struct Dispatcher<H> {
    network_id: String,
    connection_id: u64,
    inbox: H,
}

impl<H> Dispatcher<H> {
    spec fn key(self) -> ConnectionKeyView {
        (self.network_id@, self.connection_id)
    }
}

/// The inboxes of all connections, each under its connection.
pub struct SignalDispatchers<H> {
    entries: Vec<Dispatcher<H>>,
}

impl<H> SignalDispatchers<H> {
    /// No connection has two inboxes.
    pub closed spec fn wf(self) -> bool {
        forall|i: int, j: int|
            0 <= i < j < self.entries@.len() ==> (#[trigger] self.entries@[i]).key() != (#[trigger] self.entries@[j]).key()
    }

    spec fn holds(self, i: int, key: ConnectionKeyView) -> bool {
        0 <= i < self.entries@.len() && self.entries@[i].key() == key
    }

    spec fn position(self, key: ConnectionKeyView) -> int {
        choose|i: int| self.holds(i, key)
    }
}

impl<H> View for SignalDispatchers<H> {
    type V = Map<ConnectionKeyView, H>;

    closed spec fn view(&self) -> Map<ConnectionKeyView, H> {
        Map::new(
            |key: ConnectionKeyView| exists|i: int| self.holds(i, key),
            |key: ConnectionKeyView| self.entries@[self.position(key)].inbox,
        )
    }
}

impl<H> SignalDispatchers<H> {
    proof fn lemma_entry(self, i: int)
        requires
            self.wf(),
            0 <= i < self.entries@.len(),
        ensures
            self@.contains_key(self.entries@[i].key()),
            self@[self.entries@[i].key()] == self.entries@[i].inbox,
    {
        let key = self.entries@[i].key();
        assert(self.holds(i, key));
        let j = self.position(key);
        assert(self.holds(j, key));
        assert(i == j);
    }

    /// No inboxes.
    pub fn new() -> (dispatchers: Self)
        ensures
            dispatchers.wf(),
            dispatchers@ == Map::<ConnectionKeyView, H>::empty(),
    {
        let dispatchers = SignalDispatchers { entries: Vec::new() };
        proof {
            assert(dispatchers@ =~= Map::<ConnectionKeyView, H>::empty());
        }
        dispatchers
    }

    fn find(&self, network_id: &String, connection_id: u64) -> (found: Option<usize>)
        requires
            self.wf(),
        ensures
            match found {
                Some(i) => i < self.entries@.len() && self.entries@[i as int].key() == (network_id@, connection_id),
                None => !self@.contains_key((network_id@, connection_id)),
            },
    {
        let mut i: usize = 0;
        while i < self.entries.len()
            invariant
                i <= self.entries@.len(),
                forall|j: int| 0 <= j < i ==> (#[trigger] self.entries@[j]).key() != (network_id@, connection_id),
            decreases self.entries.len() - i,
        {
            let entry = &self.entries[i];
            if entry.connection_id == connection_id && entry.network_id == *network_id {
                return Some(i);
            }
            i += 1;
        }
        None
    }

    /// The inbox of a connection, if it has one.
    pub fn get(&self, network_id: &String, connection_id: u64) -> (inbox: Option<&H>)
        requires
            self.wf(),
        ensures
            match inbox {
                Some(inbox) => self@.contains_key((network_id@, connection_id)) && self@[(network_id@, connection_id)]
                    == *inbox,
                None => !self@.contains_key((network_id@, connection_id)),
            },
    {
        match self.find(network_id, connection_id) {
            Some(i) => {
                proof {
                    self.lemma_entry(i as int);
                }
                Some(&self.entries[i].inbox)
            },
            None => None,
        }
    }

    /// Takes the inbox of a connection away, if it has one.
    pub fn remove(&mut self, network_id: &String, connection_id: u64)
        requires
            old(self).wf(),
        ensures
            final(self).wf(),
            final(self)@ == old(self)@.remove((network_id@, connection_id)),
    {
        match self.find(network_id, connection_id) {
            Some(i) => {
                let ghost before = *self;
                let _ = self.entries.remove(i);
                proof {
                    self.lemma_removed(before, i as int);
                }
            },
            None => {
                proof {
                    assert(self@.remove((network_id@, connection_id)) =~= self@);
                }
            },
        }
    }

    proof fn lemma_removed(self, before: Self, i: int)
        requires
            before.wf(),
            0 <= i < before.entries@.len(),
            self.entries@ == before.entries@.remove(i),
        ensures
            self.wf(),
            self@ == before@.remove(before.entries@[i].key()),
    {
        let gone = before.entries@[i].key();
        assert forall|a: int, b: int| 0 <= a < b < self.entries@.len() implies (
        #[trigger] self.entries@[a]).key() != (#[trigger] self.entries@[b]).key() by {
            let a2 = if a < i { a } else { a + 1 };
            let b2 = if b < i { b } else { b + 1 };
            assert(before.entries@[a2].key() != before.entries@[b2].key());
        }
        assert forall|key: ConnectionKeyView| #[trigger] self@.contains_key(key) == before@.remove(
            gone,
        ).contains_key(key) by {
            if self@.contains_key(key) {
                let a = self.position(key);
                assert(self.holds(a, key));
                let a2 = if a < i { a } else { a + 1 };
                assert(before.holds(a2, key));
                assert(before.entries@[a2].key() != before.entries@[i].key());
            }
            if before@.remove(gone).contains_key(key) {
                let a = before.position(key);
                assert(before.holds(a, key));
                let a2 = if a < i { a } else { a - 1 };
                assert(self.holds(a2, key));
            }
        }
        assert forall|key: ConnectionKeyView| #[trigger] self@.contains_key(key) implies self@[key] == before@.remove(
            gone,
        )[key] by {
            let a = self.position(key);
            assert(self.holds(a, key));
            let a2 = if a < i { a } else { a + 1 };
            self.lemma_entry(a);
            before.lemma_entry(a2);
        }
        assert(self@ =~= before@.remove(gone));
    }

    /// Gives a connection an inbox, in place of any that it had.
    pub fn insert(&mut self, network_id: String, connection_id: u64, inbox: H)
        requires
            old(self).wf(),
        ensures
            final(self).wf(),
            final(self)@ == old(self)@.insert((network_id@, connection_id), inbox),
    {
        let ghost first = *self;
        self.remove(&network_id, connection_id);
        let ghost before = *self;
        let ghost key = (network_id@, connection_id);
        self.entries.push(Dispatcher { network_id, connection_id, inbox });
        proof {
            assert(before@.insert(key, inbox) =~= first@.insert(key, inbox));
            assert(self.entries@.drop_last() =~= before.entries@);
            self.lemma_pushed(before, key, inbox);
        }
    }

    proof fn lemma_pushed(self, before: Self, key: ConnectionKeyView, inbox: H)
        requires
            before.wf(),
            !before@.contains_key(key),
            self.entries@.len() == before.entries@.len() + 1,
            self.entries@.drop_last() == before.entries@,
            self.entries@.last().key() == key,
            self.entries@.last().inbox == inbox,
        ensures
            self.wf(),
            self@ == before@.insert(key, inbox),
    {
        assert forall|a: int| 0 <= a < before.entries@.len() implies self.entries@[a] == before.entries@[a]
            && before.entries@[a].key() != key by {
            assert(self.entries@.drop_last()[a] == before.entries@[a]);
            assert(before.holds(a, before.entries@[a].key()));
        }
        assert forall|other: ConnectionKeyView| #[trigger] self@.contains_key(other) == before@.insert(
            key,
            inbox,
        ).contains_key(other) by {
            if self@.contains_key(other) {
                let a = self.position(other);
                assert(self.holds(a, other));
                if a < before.entries@.len() {
                    assert(before.holds(a, other));
                }
            }
            if other == key {
                assert(self.holds(before.entries@.len() as int, key));
            } else if before@.contains_key(other) {
                let a = before.position(other);
                assert(before.holds(a, other));
                assert(self.holds(a, other));
            }
        }
        assert forall|other: ConnectionKeyView| #[trigger] self@.contains_key(other) implies self@[other]
            == before@.insert(key, inbox)[other] by {
            let a = self.position(other);
            assert(self.holds(a, other));
            self.lemma_entry(a);
            if a < before.entries@.len() {
                before.lemma_entry(a);
            }
        }
        assert(self@ =~= before@.insert(key, inbox));
    }
}

/// What can happen to a listener.
pub enum ListenerEvent {
    /// The listener was closed.
    Cancelled,
    /// A signal came.
    Signal(Signal),
    /// There will be no more signals.
    Ended,
}

/// What a listener does next. `H` is the inbox of a connection.
pub enum ListenerStep<'a, H> {
    /// Stop listening.
    Stop,
    /// Make an inbox for the connection of an offer, register it, and answer.
    Answer(Signal),
    /// Put a signal into the inbox of its connection, if that still takes any.
    Forward(&'a H, Signal),
    /// Pass a signal over: its connection is not known.
    Ignore,
}

/// The state of a listener whose connections have inboxes `H`.
pub struct NethernetListener<H> {
    local_addr: Addr,
    config: ConnectionConfig,
    dispatchers: SignalDispatchers<H>,
    closed: bool,
}

/// What a [`NethernetListener`] consists of.
pub struct ListenerView<H> {
    /// The address of the network that it listens on.
    pub local_addr: Addr,
    /// The options of its negotiations.
    pub config: ConnectionConfig,
    /// The inboxes of its connections.
    pub inboxes: Map<ConnectionKeyView, H>,
    /// Whether it was closed.
    pub closed: bool,
}

impl<H> View for NethernetListener<H> {
    type V = ListenerView<H>;

    closed spec fn view(&self) -> ListenerView<H> {
        ListenerView {
            local_addr: self.local_addr,
            config: self.config,
            inboxes: self.dispatchers@,
            closed: self.closed,
        }
    }
}

impl Signal {
    /// The connection that the signal belongs to.
    pub open spec fn connection(self) -> ConnectionKeyView {
        (self.network_id@, self.connection_id)
    }
}

impl<H> ListenerView<H> {
    /// A listener on a network, with options, that knows no connection.
    pub open spec fn begin(network_id: String, config: ConnectionConfig) -> Self {
        ListenerView {
            local_addr: Addr { network_id, connection_id: None },
            config,
            inboxes: Map::empty(),
            closed: false,
        }
    }

    /// The listener once the connection of an offer has an inbox.
    pub open spec fn registered(self, offer: Signal, inbox: H) -> Self {
        ListenerView { inboxes: self.inboxes.insert(offer.connection(), inbox), ..self }
    }

    /// The listener once a connection has no inbox any more.
    pub open spec fn forgotten(self, network_id: Seq<char>, connection_id: u64) -> Self {
        ListenerView { inboxes: self.inboxes.remove((network_id, connection_id)), ..self }
    }

    /// The listener once it was closed.
    pub open spec fn shut(self) -> Self {
        ListenerView { closed: true, ..self }
    }

    /// Whether a step is what an event leads to.
    pub open spec fn leads_to(self, event: ListenerEvent, step: ListenerStep<H>) -> bool {
        if self.closed {
            step is Stop
        } else {
            match event {
                ListenerEvent::Cancelled => step is Stop,
                ListenerEvent::Ended => step is Stop,
                ListenerEvent::Signal(signal) => if signal.signal_type == SignalType::Offer {
                    step == ListenerStep::<H>::Answer(signal)
                } else if self.inboxes.contains_key(signal.connection()) {
                    step == ListenerStep::Forward(&self.inboxes[signal.connection()], signal)
                } else {
                    step is Ignore
                },
            }
        }
    }
}

/// What accepting comes to, given the next inbound session. There is none only once
/// no more can come: the listener was closed, or its signals ended and every answer
/// under way is over.
pub open spec fn accept_result<S>(next: Option<S>) -> Result<S, NethernetError> {
    match next {
        Some(session) => Ok(session),
        None => Err(NethernetError::ConnectionClosed),
    }
}

impl<H> NethernetListener<H> {
    /// The inboxes of the listener are in order.
    pub closed spec fn wf(self) -> bool {
        self.dispatchers.wf()
    }

    /// A listener on a network, with the standard options.
    pub fn bind(network_id: String) -> (result: Result<Self, NethernetError>)
        ensures
            result matches Ok(listener) && {
                &&& listener.wf()
                &&& listener@.local_addr == (Addr { network_id, connection_id: None })
                &&& listener@.config.timeouts == crate::transport::Timeouts::standard()
                &&& listener@.inboxes == Map::<ConnectionKeyView, H>::empty()
                &&& !listener@.closed
            },
    {
        Self::bind_with(network_id, ConnectionConfig::default())
    }

    /// A listener on a network, with explicit options.
    pub fn bind_with(network_id: String, config: ConnectionConfig) -> (result: Result<Self, NethernetError>)
        ensures
            result matches Ok(listener) && {
                &&& listener.wf()
                &&& listener@ == (ListenerView {
                    local_addr: Addr { network_id, connection_id: None },
                    config,
                    inboxes: Map::<ConnectionKeyView, H>::empty(),
                    closed: false,
                })
                &&& listener@ == ListenerView::<H>::begin(network_id, config)
            },
    {
        Ok(
            NethernetListener {
                local_addr: Addr::network(network_id),
                config,
                dispatchers: SignalDispatchers::new(),
                closed: false,
            },
        )
    }

    /// What an event leads to.
    pub fn handle(&self, event: ListenerEvent) -> (step: ListenerStep<'_, H>)
        requires
            self.wf(),
        ensures
            self@.leads_to(event, step),
    {
        if self.closed {
            return ListenerStep::Stop;
        }
        match event {
            ListenerEvent::Cancelled => ListenerStep::Stop,
            ListenerEvent::Ended => ListenerStep::Stop,
            ListenerEvent::Signal(signal) => {
                if signal.signal_type == SignalType::Offer {
                    ListenerStep::Answer(signal)
                } else {
                    match self.dispatchers.get(&signal.network_id, signal.connection_id) {
                        Some(inbox) => ListenerStep::Forward(inbox, signal),
                        None => ListenerStep::Ignore,
                    }
                }
            },
        }
    }

    /// Gives the connection of an offer its inbox, in place of any that it had.
    pub fn register(&mut self, offer: &Signal, inbox: H)
        requires
            old(self).wf(),
        ensures
            final(self).wf(),
            final(self)@ == (ListenerView {
                inboxes: old(self)@.inboxes.insert(offer.connection(), inbox),
                ..old(self)@
            }),
            final(self)@ == old(self)@.registered(*offer, inbox),
    {
        self.dispatchers.insert(offer.network_id.clone(), offer.connection_id, inbox);
    }

    /// Takes the inbox of a connection away, if it has one.
    pub fn unregister(&mut self, network_id: &String, connection_id: u64)
        requires
            old(self).wf(),
        ensures
            final(self).wf(),
            final(self)@ == (ListenerView {
                inboxes: old(self)@.inboxes.remove((network_id@, connection_id)),
                ..old(self)@
            }),
            final(self)@ == old(self)@.forgotten(network_id@, connection_id),
    {
        self.dispatchers.remove(network_id, connection_id);
    }

    /// Forgets a connection whose offer could not be answered, and says what to
    /// tell the other end.
    pub fn answer_failed(&mut self, network_id: String, connection_id: u64, failure: &Failure) -> (report: Option<
        ErrorSignal,
    >)
        requires
            old(self).wf(),
        ensures
            final(self).wf(),
            final(self)@ == (ListenerView {
                inboxes: old(self)@.inboxes.remove((network_id@, connection_id)),
                ..old(self)@
            }),
            final(self)@ == old(self)@.forgotten(network_id@, connection_id),
            report == failure.report(connection_id, network_id),
    {
        self.dispatchers.remove(&network_id, connection_id);
        failure.signal_error(connection_id, network_id)
    }

    /// What accepting comes to, given the next inbound session if there is one.
    pub fn accept<S>(&self, next: Option<S>) -> (session: Result<S, NethernetError>)
        ensures
            session == accept_result(next),
    {
        match next {
            Some(session) => Ok(session),
            None => Err(NethernetError::ConnectionClosed),
        }
    }

    /// Closes the listener: it does nothing more with signals.
    pub fn close(&mut self) -> (result: Result<(), NethernetError>)
        requires
            old(self).wf(),
        ensures
            final(self).wf(),
            result is Ok,
            final(self)@ == (ListenerView { closed: true, ..old(self)@ }),
            final(self)@ == old(self)@.shut(),
    {
        self.closed = true;
        Ok(())
    }

    /// The address of the network that the listener is on.
    pub fn local_addr(&self) -> (addr: &Addr)
        ensures
            *addr == self@.local_addr,
    {
        &self.local_addr
    }

    /// The options of the listener's negotiations.
    pub fn config(&self) -> (config: &ConnectionConfig)
        ensures
            *config == self@.config,
    {
        &self.config
    }
}

/// Once the connection of an offer is registered, its further signals go to the
/// inbox that was registered last, and to no other.
pub proof fn law_registered_connection_gets_its_signals<H>(
    listener: ListenerView<H>,
    offer: Signal,
    inbox: H,
    signal: Signal,
    step: ListenerStep<H>,
)
    requires
        !listener.closed,
        signal.connection() == offer.connection(),
        signal.signal_type != SignalType::Offer,
        (ListenerView { inboxes: listener.inboxes.insert(offer.connection(), inbox), ..listener }).leads_to(
            ListenerEvent::Signal(signal),
            step,
        ),
    ensures
        step == ListenerStep::Forward(&inbox, signal),
{
}

/// Once a connection is forgotten, its further signals are passed over.
pub proof fn law_forgotten_connection_gets_nothing<H>(
    listener: ListenerView<H>,
    signal: Signal,
    step: ListenerStep<H>,
)
    requires
        !listener.closed,
        signal.signal_type != SignalType::Offer,
        (ListenerView { inboxes: listener.inboxes.remove(signal.connection()), ..listener }).leads_to(
            ListenerEvent::Signal(signal),
            step,
        ),
    ensures
        step is Ignore,
{
}

/// To register or to forget a connection changes nothing for the signals of others.
pub proof fn law_connections_are_independent<H>(
    listener: ListenerView<H>,
    connection: ConnectionKeyView,
    inbox: H,
    signal: Signal,
    step: ListenerStep<H>,
)
    requires
        signal.connection() != connection,
    ensures
        (ListenerView { inboxes: listener.inboxes.insert(connection, inbox), ..listener }).leads_to(
            ListenerEvent::Signal(signal),
            step,
        ) == listener.leads_to(ListenerEvent::Signal(signal), step),
        (ListenerView { inboxes: listener.inboxes.remove(connection), ..listener }).leads_to(
            ListenerEvent::Signal(signal),
            step,
        ) == listener.leads_to(ListenerEvent::Signal(signal), step),
{
}

/// Every offer is answered, also one of a connection that is registered already.
pub proof fn law_every_offer_is_answered<H>(listener: ListenerView<H>, offer: Signal, step: ListenerStep<H>)
    requires
        !listener.closed,
        offer.signal_type == SignalType::Offer,
        listener.leads_to(ListenerEvent::Signal(offer), step),
    ensures
        step == ListenerStep::<H>::Answer(offer),
{
}

/// The inbound sessions `S` of a listener.
pub struct Incoming<S> {
    /// Those that wait to be accepted, in order.
    pub queued: Seq<S>,
    /// Those that were accepted, in order.
    pub accepted: Seq<S>,
    /// Whether no more can come: the listener was closed, or its signals ended and
    /// every answer under way is over.
    pub closed: bool,
}

/// What can happen to the inbound sessions of a listener.
pub enum IncomingChange<S> {
    /// An established session is handed over; a closed listener refuses it.
    Deliver(S),
    /// The next session is accepted, once there is one or no more can come.
    Accept,
    /// The listener is closed, or its signals ended and every answer under way is
    /// over. What is queued stays.
    Close,
}

impl<S> Incoming<S> {
    /// No session yet.
    pub open spec fn begin() -> Self {
        Incoming { queued: Seq::empty(), accepted: Seq::empty(), closed: false }
    }

    /// The next session, if there is one.
    pub open spec fn next(self) -> Option<S> {
        if self.queued.len() > 0 {
            Some(self.queued.first())
        } else {
            None
        }
    }

    /// The sessions after a change.
    pub open spec fn after(self, change: IncomingChange<S>) -> Self {
        match change {
            IncomingChange::Deliver(session) => if self.closed {
                self
            } else {
                Incoming { queued: self.queued.push(session), ..self }
            },
            IncomingChange::Accept => match self.next() {
                Some(session) => Incoming {
                    queued: self.queued.drop_first(),
                    accepted: self.accepted.push(session),
                    ..self
                },
                None => self,
            },
            IncomingChange::Close => Incoming { closed: true, ..self },
        }
    }

    /// The sessions after some changes.
    pub open spec fn after_all(self, changes: Seq<IncomingChange<S>>) -> Self
        decreases changes.len(),
    {
        if changes.len() == 0 {
            self
        } else {
            self.after_all(changes.drop_last()).after(changes.last())
        }
    }

    /// The sessions after so many were accepted, one after the other.
    pub open spec fn after_accepts(self, n: nat) -> Self
        decreases n,
    {
        if n == 0 {
            self
        } else {
            self.after_accepts((n - 1) as nat).after(IncomingChange::Accept)
        }
    }
}

/// The sessions that were handed over as long as more could come, in order.
pub open spec fn sessions_taken<S>(changes: Seq<IncomingChange<S>>) -> Seq<S>
    decreases changes.len(),
{
    if changes.len() == 0 {
        Seq::empty()
    } else {
        let front = changes.drop_last();
        match changes.last() {
            IncomingChange::Deliver(session) => if Incoming::begin().after_all(front).closed {
                sessions_taken(front)
            } else {
                sessions_taken(front).push(session)
            },
            _ => sessions_taken(front),
        }
    }
}

/// Sessions are accepted in the order in which they were handed over, each once, and
/// none is lost: those accepted, followed by those queued, are those handed over as
/// long as more could come.
pub proof fn law_sessions_are_accepted_in_order<S>(changes: Seq<IncomingChange<S>>)
    ensures
        ({
            let incoming = Incoming::begin().after_all(changes);
            incoming.accepted + incoming.queued == sessions_taken(changes)
        }),
    decreases changes.len(),
{
    let after = Incoming::begin().after_all(changes);
    if changes.len() == 0 {
        assert(after.accepted + after.queued =~= Seq::empty());
    } else {
        law_sessions_are_accepted_in_order(changes.drop_last());
        let before = Incoming::begin().after_all(changes.drop_last());
        match changes.last() {
            IncomingChange::Deliver(session) => {
                if !before.closed {
                    assert(after.accepted + after.queued =~= (before.accepted + before.queued).push(session));
                }
            },
            IncomingChange::Accept => {
                assert(after.accepted + after.queued =~= before.accepted + before.queued);
            },
            IncomingChange::Close => {},
        }
    }
}

/// Once no more sessions can come, as after a listener was closed, the sessions that were queued by then are accepted,
/// each once and in order; every accept after that finds the connection closed.
pub proof fn law_closed_listener_hands_out_what_is_queued<S>(incoming: Incoming<S>, n: nat)
    requires
        incoming.closed,
    ensures
        ({
            let later = incoming.after_accepts(n);
            &&& later.closed
            &&& accept_result(later.next()) == if n < incoming.queued.len() {
                Ok::<S, NethernetError>(incoming.queued[n as int])
            } else {
                Err::<S, NethernetError>(NethernetError::ConnectionClosed)
            }
            &&& later.queued == if n <= incoming.queued.len() {
                incoming.queued.skip(n as int)
            } else {
                Seq::empty()
            }
        }),
    decreases n,
{
    if n == 0 {
        assert(incoming.queued.skip(0) =~= incoming.queued);
    } else {
        law_closed_listener_hands_out_what_is_queued(incoming, (n - 1) as nat);
        let before = incoming.after_accepts((n - 1) as nat);
        let later = incoming.after_accepts(n);
        if n <= incoming.queued.len() {
            assert(later.queued =~= incoming.queued.skip(n as int));
        } else {
            assert(before.queued =~= Seq::empty());
        }
    }
}

/// A closed listener does nothing with any event.
pub proof fn law_closed_listener_stops<H>(listener: ListenerView<H>, event: ListenerEvent, step: ListenerStep<H>)
    requires
        (ListenerView { closed: true, ..listener }).leads_to(event, step),
    ensures
        step is Stop,
{
}

} // verus!
