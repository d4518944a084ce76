//! What the waits of a negotiation come to.

use crate::error::NethernetError;
use crate::session::ChannelEvent;
use crate::transport::wait::{Awaited, ChannelLabels, ChannelWait, GatheringState, RemoteChannel, RemoteChannels};
use vstd::prelude::*;

verus! {

/// Gathering is waited for until it is complete: nothing else that is reported ends the
/// wait, and it fails exactly if the reports end or the time is up.
pub proof fn law_gathering_ends_when_complete(event: Awaited<GatheringState>)
    ensures
        (crate::transport::wait::gathering_result(event) matches Some(Ok(_))) <==> (event matches Awaited::Report(state)
            && state is Complete),
        crate::transport::wait::gathering_result(event) is None <==> (event matches Awaited::Report(state)
            && !(state is Complete)),
        event is Ended ==> (crate::transport::wait::gathering_result(event) matches Some(Err(error))
            && error is ConnectionClosed),
        event is TimedOut ==> (crate::transport::wait::gathering_result(event) matches Some(Err(error))
            && error is Timeout),
{
}

/// A data channel is waited for until it is open: nothing else that it reports ends the
/// wait, and it fails exactly if the channel is gone or the time is up.
pub proof fn law_channel_wait_ends_when_open(event: Awaited<ChannelEvent>)
    ensures
        (crate::transport::wait::open_result(event) matches Some(Ok(_))) <==> (event matches Awaited::Report(report)
            && report is Open),
        crate::transport::wait::open_result(event) is None <==> (event matches Awaited::Report(report)
            && !(report is Open)),
        event is Ended ==> (crate::transport::wait::open_result(event) matches Some(Err(error))
            && error is ConnectionClosed),
        event is TimedOut ==> (crate::transport::wait::open_result(event) matches Some(Err(error)) && error is Timeout),
{
}

/// A channel of the other end is told by the characters of its label. One with the
/// label of the reliable channel is the reliable one; any other with the label of the
/// unreliable channel is the unreliable one; any further channel is dropped. The wait is
/// over exactly when both are there.
pub proof fn law_label_tells_the_channel<C>(
    seen: RemoteChannels<C>,
    labels: ChannelLabels,
    channel: C,
    label: String,
    wait: ChannelWait<C>,
)
    requires
        (seen.leads_to(labels, Awaited::Report(RemoteChannel { channel, label: Ok(label) }), wait)),
    ensures
        ({
            let reliable = if label@ == labels.reliable@ { Some(channel) } else { seen.reliable };
            let unreliable = if label@ == labels.unreliable@ && label@ != labels.reliable@ {
                Some(channel)
            } else {
                seen.unreliable
            };
            &&& reliable is Some && unreliable is Some ==> (wait matches ChannelWait::Done(Ok((first, second)))
                && Some(first) == reliable && Some(second) == unreliable)
            &&& reliable is None || unreliable is None ==> (wait matches ChannelWait::Waiting(still) && still.reliable
                == reliable && still.unreliable == unreliable)
        }),
{
}

/// The wait for the channels fails exactly with a cause: a label could not be read, the
/// channels ended, or the time is up.
pub proof fn law_channel_wait_fails_with_its_cause<C>(
    seen: RemoteChannels<C>,
    labels: ChannelLabels,
    event: Awaited<RemoteChannel<C>>,
    wait: ChannelWait<C>,
)
    requires
        seen.leads_to(labels, event, wait),
    ensures
        ((wait matches ChannelWait::Done(Err(_))) <==> {
            ||| event is Ended
            ||| event is TimedOut
            ||| event matches Awaited::Report(remote) && remote.label is Err
        }),
        event is Ended ==> (wait matches ChannelWait::Done(Err(error)) && error is ConnectionClosed),
        event is TimedOut ==> (wait matches ChannelWait::Done(Err(error)) && error is Timeout),
        event matches Awaited::Report(remote) ==> (remote.label matches Err(unread) ==> (wait matches ChannelWait::Done(
            Err(NethernetError::DataChannel(text)),
        ) && vstd::string::to_string_from_display_ensures::<webrtc::error::Error>(&unread, text))),
{
}

/// A run of the wait for the channels: what was seen before each report, and the reports.
pub struct ChannelRun<C> {
    /// What was seen before each report.
    pub seen: Seq<RemoteChannels<C>>,
    /// The channels reported.
    pub channels: Seq<C>,
    /// Their labels.
    pub labels: Seq<String>,
}

impl<C> ChannelRun<C> {
    /// Whether each report leads to what was seen before the next, from nothing on.
    pub open spec fn valid(self, labels: ChannelLabels) -> bool {
        &&& self.seen.len() == self.channels.len() + 1
        &&& self.labels.len() == self.channels.len()
        &&& self.seen[0].reliable is None && self.seen[0].unreliable is None
        &&& forall|i: int|
            0 <= i < self.channels.len() ==> (#[trigger] self.seen[i]).leads_to(
                labels,
                Awaited::Report(RemoteChannel { channel: self.channels[i], label: Ok(self.labels[i]) }),
                ChannelWait::Waiting(self.seen[i + 1]),
            )
    }

    /// Whether a channel is the last one reported under a label.
    pub open spec fn last_of(self, label: Seq<char>, channel: C) -> bool {
        exists|i: int| #![trigger self.channels[i]]
            0 <= i < self.channels.len() && self.channels[i] == channel && self.labels[i]@ == label && (forall|j: int| #![trigger self.labels[j]]
                i < j < self.channels.len() ==> self.labels[j]@ != label)
    }
}

proof fn lemma_run<C>(run: ChannelRun<C>, labels: ChannelLabels, n: int)
    requires
        run.valid(labels),
        labels.reliable@ != labels.unreliable@,
        0 <= n < run.seen.len(),
    ensures
        ({
            let so_far = ChannelRun { seen: run.seen.take(n + 1), channels: run.channels.take(n), labels: run.labels.take(n) };
            &&& run.seen[n].reliable matches Some(channel) ==> so_far.last_of(labels.reliable@, channel)
            &&& run.seen[n].unreliable matches Some(channel) ==> so_far.last_of(labels.unreliable@, channel)
        }),
    decreases n,
{
    if n > 0 {
        lemma_run(run, labels, n - 1);
        let before = ChannelRun { seen: run.seen.take(n), channels: run.channels.take(n - 1), labels: run.labels.take(n - 1) };
        let after = ChannelRun { seen: run.seen.take(n + 1), channels: run.channels.take(n), labels: run.labels.take(n) };
        assert(run.seen[n - 1].leads_to(
            labels,
            Awaited::Report(RemoteChannel { channel: run.channels[n - 1], label: Ok(run.labels[n - 1]) }),
            ChannelWait::Waiting(run.seen[n - 1 + 1]),
        ));
        assert(after.channels.drop_last() =~= before.channels);
        assert(after.labels.drop_last() =~= before.labels);
        lemma_last_moves(before, after, labels.reliable@, run.seen[n - 1].reliable, run.seen[n].reliable);
        lemma_last_moves(before, after, labels.unreliable@, run.seen[n - 1].unreliable, run.seen[n].unreliable);
    }
}

proof fn lemma_last_moves<C>(
    before: ChannelRun<C>,
    after: ChannelRun<C>,
    label: Seq<char>,
    earlier: Option<C>,
    later: Option<C>,
)
    requires
        after.channels.len() == before.channels.len() + 1,
        after.labels.len() == after.channels.len(),
        before.labels.len() == before.channels.len(),
        after.channels.drop_last() == before.channels,
        after.labels.drop_last() == before.labels,
        earlier matches Some(channel) ==> before.last_of(label, channel),
        (later == if after.labels.last()@ == label { Some(after.channels.last()) } else { earlier }),
    ensures
        later matches Some(channel) ==> after.last_of(label, channel),
{
    let n = before.channels.len() as int;
    assert(after.labels[n] == after.labels.last());
    assert(after.channels[n] == after.channels.last());
    if let Some(channel) = later {
        if after.labels.last()@ != label {
            let i = choose|i: int| #![trigger before.channels[i]]
                0 <= i < before.channels.len() && before.channels[i] == channel && before.labels[i]@ == label && (forall|j: int| #![trigger before.labels[j]]
                    i < j < before.channels.len() ==> before.labels[j]@ != label);
            assert(after.channels[i] == before.channels[i]);
            assert(after.labels[i] == before.labels[i]);
            assert forall|j: int| #![trigger after.labels[j]] i < j < after.channels.len() implies after.labels[j]@ != label by {
                if j < n {
                    assert(after.labels[j] == before.labels[j]);
                }
            }
        }
    }
}

/// Where the two labels differ, the wait ends with the last channel that was reported
/// under the characters of the reliable label as the reliable one, and with the last
/// under those of the unreliable label as the unreliable one.
pub proof fn law_wait_ends_with_the_channels_labeled<C>(
    run: ChannelRun<C>,
    labels: ChannelLabels,
    channel: C,
    label: String,
    reliable: C,
    unreliable: C,
)
    requires
        run.valid(labels),
        labels.reliable@ != labels.unreliable@,
        (run.seen.last().leads_to(
            labels,
            Awaited::Report(RemoteChannel { channel, label: Ok(label) }),
            ChannelWait::Done(Ok((reliable, unreliable))),
        )),
    ensures
        ({
            let whole = ChannelRun { seen: run.seen, channels: run.channels.push(channel), labels: run.labels.push(label) };
            whole.last_of(labels.reliable@, reliable) && whole.last_of(labels.unreliable@, unreliable)
        }),
{
    let n = run.channels.len() as int;
    lemma_run(run, labels, n);
    let before = ChannelRun { seen: run.seen.take(n + 1), channels: run.channels.take(n), labels: run.labels.take(n) };
    let whole = ChannelRun { seen: run.seen, channels: run.channels.push(channel), labels: run.labels.push(label) };
    assert(whole.channels.drop_last() =~= before.channels);
    assert(whole.labels.drop_last() =~= before.labels);
    lemma_last_moves(before, whole, labels.reliable@, run.seen[n].reliable, Some(reliable));
    lemma_last_moves(before, whole, labels.unreliable@, run.seen[n].unreliable, Some(unreliable));
}

} // verus!
