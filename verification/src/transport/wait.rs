//! The waits of a negotiation: for ICE gathering, for the data channels of the
//! other end, and for a data channel to open.

use crate::error::NethernetError;
use crate::session::ChannelEvent;
use vstd::prelude::*;

verus! {

/// How far the gathering of local ICE candidates is.
#[derive(Clone, Copy, Debug, PartialEq, Eq, Structural)]
pub enum GatheringState {
    /// Not known.
    Unspecified,
    /// Not begun.
    New,
    /// Under way.
    Gathering,
    /// Done.
    Complete,
}

/// What can happen while one report after the other is waited for.
pub enum Awaited<T> {
    /// A report.
    Report(T),
    /// There will be no more reports.
    Ended,
    /// The time is up.
    TimedOut,
}

/// What a wait comes to if nothing but its end, in either way, was reported.
pub open spec fn wait_failure<T>(event: Awaited<T>) -> Option<NethernetError> {
    match event {
        Awaited::Report(_) => None,
        Awaited::Ended => Some(NethernetError::ConnectionClosed),
        Awaited::TimedOut => Some(NethernetError::Timeout),
    }
}

/// What waiting for ICE gathering to complete comes to, once it is over.
pub open spec fn gathering_result(event: Awaited<GatheringState>) -> Option<Result<(), NethernetError>> {
    match wait_failure(event) {
        Some(error) => Some(Err(error)),
        None => if event == Awaited::Report(GatheringState::Complete) {
            Some(Ok(()))
        } else {
            None
        },
    }
}

/// What waiting for a data channel to open comes to, once it is over.
pub open spec fn open_result(event: Awaited<ChannelEvent>) -> Option<Result<(), NethernetError>> {
    match wait_failure(event) {
        Some(error) => Some(Err(error)),
        None => if event == Awaited::Report(ChannelEvent::Open) {
            Some(Ok(()))
        } else {
            None
        },
    }
}

/// The result of waiting for ICE gathering to complete, once there is one.
pub fn wait_for_gathering_complete(event: Awaited<GatheringState>) -> (result: Option<Result<(), NethernetError>>)
    ensures
        result == gathering_result(event),
{
    match event {
        Awaited::Report(GatheringState::Complete) => Some(Ok(())),
        Awaited::Report(_) => None,
        Awaited::Ended => Some(Err(NethernetError::ConnectionClosed)),
        Awaited::TimedOut => Some(Err(NethernetError::Timeout)),
    }
}

/// The result of waiting for a data channel to open, once there is one. What the
/// channel reports before it opens is dropped.
pub fn wait_for_channel_open(event: Awaited<ChannelEvent>) -> (result: Option<Result<(), NethernetError>>)
    ensures
        result == open_result(event),
{
    match event {
        Awaited::Report(ChannelEvent::Open) => Some(Ok(())),
        Awaited::Report(_) => None,
        Awaited::Ended => Some(Err(NethernetError::ConnectionClosed)),
        Awaited::TimedOut => Some(Err(NethernetError::Timeout)),
    }
}

/// The labels by which the two data channels of a connection are told apart.
pub struct ChannelLabels {
    /// The label of the reliable channel.
    pub reliable: String,
    /// The label of the unreliable channel.
    pub unreliable: String,
}

/// A data channel that the other end opened, with its label if that could be read.
pub struct RemoteChannel<C> {
    /// The channel.
    pub channel: C,
    /// Its label.
    pub label: Result<String, webrtc::error::Error>,
}

/// The data channels of the other end that were seen so far.
pub struct RemoteChannels<C> {
    /// The last reliable one.
    pub reliable: Option<C>,
    /// The last unreliable one.
    pub unreliable: Option<C>,
}

/// How far the wait for the data channels of the other end is.
pub enum ChannelWait<C> {
    /// At least one of the two is missing.
    Waiting(RemoteChannels<C>),
    /// The reliable and the unreliable channel, or why they did not come.
    Done(Result<(C, C), NethernetError>),
}

impl ChannelLabels {
    /// Whether a label is that of the reliable channel.
    pub open spec fn names_reliable(self, label: Seq<char>) -> bool {
        label == self.reliable@
    }

    /// Whether a label is that of the unreliable channel. Where both channels have
    /// the same label, it names the reliable one.
    pub open spec fn names_unreliable(self, label: Seq<char>) -> bool {
        label != self.reliable@ && label == self.unreliable@
    }
}

impl<C> RemoteChannels<C> {
    /// The channels once another one was seen: it takes the place of the one that
    /// had its label, and is dropped if its label is neither.
    pub open spec fn with(self, labels: ChannelLabels, label: Seq<char>, channel: C) -> Self {
        RemoteChannels {
            reliable: if labels.names_reliable(label) { Some(channel) } else { self.reliable },
            unreliable: if labels.names_unreliable(label) { Some(channel) } else { self.unreliable },
        }
    }

    /// The wait that these channels amount to.
    pub open spec fn wait(self) -> ChannelWait<C> {
        if self.reliable is Some && self.unreliable is Some {
            ChannelWait::Done(Ok((self.reliable->0, self.unreliable->0)))
        } else {
            ChannelWait::Waiting(self)
        }
    }

    /// Whether this is how far the wait is once something happened.
    pub open spec fn leads_to(
        self,
        labels: ChannelLabels,
        event: Awaited<RemoteChannel<C>>,
        wait: ChannelWait<C>,
    ) -> bool {
        match event {
            Awaited::Report(RemoteChannel { channel, label: Ok(label) }) => wait == self.with(
                labels,
                label@,
                channel,
            ).wait(),
            Awaited::Report(RemoteChannel { channel: _, label: Err(error) }) => wait matches ChannelWait::Done(
                Err(failure),
            ) && failure.tells_channel_failure(error),
            Awaited::Ended => wait == ChannelWait::<C>::Done(Err(NethernetError::ConnectionClosed)),
            Awaited::TimedOut => wait == ChannelWait::<C>::Done(Err(NethernetError::Timeout)),
        }
    }

    /// No channel seen yet.
    pub fn new() -> (channels: Self)
        ensures
            channels == (RemoteChannels { reliable: None::<C>, unreliable: None::<C> }),
    {
        RemoteChannels { reliable: None, unreliable: None }
    }

    /// Takes what happened while the channels were waited for.
    pub fn wait_for_channels(self, labels: &ChannelLabels, event: Awaited<RemoteChannel<C>>) -> (wait: ChannelWait<C>)
        ensures
            self.leads_to(*labels, event, wait),
    {
        let remote = match event {
            Awaited::Report(remote) => remote,
            Awaited::Ended => {
                return ChannelWait::Done(Err(NethernetError::ConnectionClosed));
            },
            Awaited::TimedOut => {
                return ChannelWait::Done(Err(NethernetError::Timeout));
            },
        };
        let label = match remote.label {
            Ok(label) => label,
            Err(error) => {
                return ChannelWait::Done(Err(NethernetError::data_channel(&error)));
            },
        };
        let mut channels = self;
        if label == labels.reliable {
            channels.reliable = Some(remote.channel);
        } else if label == labels.unreliable {
            channels.unreliable = Some(remote.channel);
        }
        match (channels.reliable, channels.unreliable) {
            (Some(reliable), Some(unreliable)) => ChannelWait::Done(Ok((reliable, unreliable))),
            (reliable, unreliable) => ChannelWait::Waiting(RemoteChannels { reliable, unreliable }),
        }
    }
}

/// The channels seen after some reports, each of a label and a channel.
pub open spec fn channels_seen<C>(labels: ChannelLabels, reports: Seq<(Seq<char>, C)>) -> RemoteChannels<C>
    decreases reports.len(),
{
    if reports.len() == 0 {
        RemoteChannels { reliable: None, unreliable: None }
    } else {
        channels_seen(labels, reports.drop_last()).with(labels, reports.last().0, reports.last().1)
    }
}

/// Whether a channel is the last among some reports whose label is of a kind.
pub open spec fn is_last_of<C>(
    reports: Seq<(Seq<char>, C)>,
    of_kind: spec_fn(Seq<char>) -> bool,
    channel: Option<C>,
) -> bool {
    match channel {
        Some(channel) => exists|i: int| #![trigger reports[i]]
            0 <= i < reports.len() && of_kind(reports[i].0) && reports[i].1 == channel && (forall|j: int| #![trigger reports[j]]
                i < j < reports.len() ==> !of_kind(reports[j].0)),
        None => forall|i: int| #![trigger reports[i]] 0 <= i < reports.len() ==> !of_kind(reports[i].0),
    }
}

proof fn lemma_last_of<C>(
    reports: Seq<(Seq<char>, C)>,
    of_kind: spec_fn(Seq<char>) -> bool,
    before: Option<C>,
    after: Option<C>,
)
    requires
        reports.len() > 0,
        is_last_of(reports.drop_last(), of_kind, before),
        after == if of_kind(reports.last().0) { Some(reports.last().1) } else { before },
    ensures
        is_last_of(reports, of_kind, after),
{
    let front = reports.drop_last();
    let n = reports.len() - 1;
    if of_kind(reports.last().0) {
        assert(reports[n] == reports.last());
    } else {
        assert(reports[n] == reports.last());
        match before {
            Some(channel) => {
                let i = choose|i: int| #![trigger front[i]]
                    0 <= i < front.len() && of_kind(front[i].0) && front[i].1 == channel && (forall|j: int| #![trigger front[j]]
                        i < j < front.len() ==> !of_kind(front[j].0));
                assert(reports[i] == front[i]);
                assert forall|j: int| #![trigger reports[j]] i < j < reports.len() implies !of_kind(reports[j].0) by {
                    if j < n {
                        assert(reports[j] == front[j]);
                    }
                }
            },
            None => {
                assert forall|i: int| #![trigger reports[i]] 0 <= i < reports.len() implies !of_kind(reports[i].0) by {
                    if i < n {
                        assert(reports[i] == front[i]);
                    }
                }
            },
        }
    }
}

/// Of several channels with the same label the last one counts.
pub proof fn law_last_channel_counts<C>(labels: ChannelLabels, reports: Seq<(Seq<char>, C)>)
    ensures
        is_last_of(
            reports,
            |label: Seq<char>| labels.names_reliable(label),
            channels_seen(labels, reports).reliable,
        ),
        is_last_of(
            reports,
            |label: Seq<char>| labels.names_unreliable(label),
            channels_seen(labels, reports).unreliable,
        ),
    decreases reports.len(),
{
    if reports.len() > 0 {
        let front = reports.drop_last();
        law_last_channel_counts(labels, front);
        let before = channels_seen(labels, front);
        let after = channels_seen(labels, reports);
        lemma_last_of(
            reports,
            |label: Seq<char>| labels.names_reliable(label),
            before.reliable,
            after.reliable,
        );
        lemma_last_of(
            reports,
            |label: Seq<char>| labels.names_unreliable(label),
            before.unreliable,
            after.unreliable,
        );
    }
}

/// The wait for the channels is over exactly when one of either label was seen.
pub proof fn law_wait_ends_with_both_channels<C>(labels: ChannelLabels, reports: Seq<(Seq<char>, C)>)
    ensures
        channels_seen(labels, reports).wait() is Done <==> {
            &&& exists|i: int| 0 <= i < reports.len() && labels.names_reliable(#[trigger] reports[i].0)
            &&& exists|i: int| 0 <= i < reports.len() && labels.names_unreliable(#[trigger] reports[i].0)
        },
{
    law_last_channel_counts(labels, reports);
    let seen = channels_seen(labels, reports);
    if seen.reliable is Some {
        assert(exists|i: int| 0 <= i < reports.len() && labels.names_reliable(#[trigger] reports[i].0));
    }
    if seen.unreliable is Some {
        assert(exists|i: int| 0 <= i < reports.len() && labels.names_unreliable(#[trigger] reports[i].0));
    }
}

} // verus!
