//! What reading, writing, flushing and connecting come to.

use crate::error::NethernetError;
use crate::session::{CloseStep, Session};
use crate::signal::ErrorSignal;
use crate::transport::stream::{Attempt, StreamItem, StreamView, Write};
use crate::transport::Failure;
use bytes::Bytes;
use vstd::prelude::*;

verus! {

/// A write fails exactly if an attempt at a send failed, with the error of that
/// attempt; it is put off exactly if the send before it is still under way; and it takes
/// all its bytes in every other case, however many they are.
pub proof fn law_write_comes_to_its_sends<S, F>(
    stream: StreamView<S, F>,
    retry: Attempt,
    fresh: F,
    attempt: Attempt,
    length: usize,
    error: NethernetError,
)
    ensures
        ({
            let result = stream.write(retry, fresh, attempt, length).1;
            let begun = stream.sending is None || retry is Done;
            &&& result == Write::Failed(error) <==> {
                ||| stream.sending is Some && retry == Attempt::Failed(error)
                ||| begun && attempt == Attempt::Failed(error)
            }
            &&& result is Pending <==> stream.sending is Some && retry is Pending
            &&& result == Write::Taken(length) <==> begun && (attempt is Done || attempt is Pending)
            &&& result is Taken ==> result == Write::Taken(length)
        }),
{
}

/// After a write, a send is under way exactly if one was left so: the one before, where
/// the write was put off, or the write's own.
pub proof fn law_write_leaves_its_send_under_way<S, F>(
    stream: StreamView<S, F>,
    retry: Attempt,
    fresh: F,
    attempt: Attempt,
    length: usize,
)
    ensures
        ({
            let after = stream.write(retry, fresh, attempt, length).0;
            let begun = stream.sending is None || retry is Done;
            &&& begun && attempt is Pending ==> after.sending == Some(fresh)
            &&& begun && !(attempt is Pending) ==> after.sending is None
            &&& !begun && retry is Pending ==> after.sending == stream.sending
            &&& !begun && retry is Failed ==> after.sending is None
            &&& after.session == stream.session
            &&& after.closing == stream.closing
        }),
{
}

/// The parts of a write: the send before it, attempted again, lets the write go on
/// exactly if it is done; and the write's own send lets it take all its bytes exactly
/// if it did not fail.
pub proof fn law_parts_of_a_write<S, F>(
    stream: StreamView<S, F>,
    sending: F,
    attempt: Attempt,
    length: usize,
    error: NethernetError,
)
    ensures
        ({
            let (resumed, put_off) = stream.write_resumed(sending, attempt);
            let (started, result) = stream.write_started(sending, attempt, length);
            &&& put_off is None <==> attempt is Done
            &&& put_off == Some(Write::Failed(error)) <==> attempt == Attempt::Failed(error)
            &&& put_off == Some(Write::Pending) <==> attempt is Pending
            &&& resumed == started
            &&& result == Write::Taken(length) <==> !(attempt is Failed)
            &&& result == Write::Failed(error) <==> attempt == Attempt::Failed(error)
            &&& attempt is Pending ==> started.sending == Some(sending)
            &&& !(attempt is Pending) ==> started == stream
            &&& started.session == stream.session && started.closing == stream.closing
        }),
{
}

/// A flush comes to what the send under way does, and is done at once where there is none.
pub proof fn law_flush_comes_to_the_send<S, F>(
    stream: StreamView<S, F>,
    sending: F,
    attempt: Attempt,
    error: NethernetError,
)
    ensures
        stream.flushed(None).1 is Done && stream.flushed(None).0 == stream,
        ({
            let (after, result) = stream.flushed(Some((sending, attempt)));
            &&& result is Done <==> attempt is Done
            &&& result is Pending <==> attempt is Pending
            &&& result == Attempt::Failed(error) <==> attempt == Attempt::Failed(error)
            &&& attempt is Pending ==> after.sending == Some(sending)
            &&& !(attempt is Pending) ==> after == stream
            &&& after.session == stream.session && after.closing == stream.closing
        }),
        ({
            let (after, result) = stream.flush(attempt);
            &&& stream.sending is None ==> result is Done && after == stream
            &&& stream.sending is Some && attempt is Done ==> result is Done
            &&& stream.sending is Some && attempt is Pending ==> result is Pending && after == stream
            &&& result == Attempt::Failed(error) <==> stream.sending is Some && attempt == Attempt::Failed(error)
            &&& !(attempt is Pending) ==> after.sending is None
        }),
        ({
            let (after, result) = stream.close_attempted(sending, attempt);
            &&& result is Done <==> attempt is Done
            &&& result is Pending <==> attempt is Pending
            &&& result == Attempt::Failed(error) <==> attempt == Attempt::Failed(error)
            &&& attempt is Pending ==> after.closing == Some(sending)
            &&& !(attempt is Pending) ==> after == stream
            &&& after.session == stream.session && after.sending == stream.sending
        }),
{
}

/// A write sends all its bytes, in order, and takes as many as it was given.
pub proof fn law_write_stages_all_its_bytes(buf: Seq<u8>, staged: (Bytes, usize))
    requires
        crate::transport::stream::stages(buf, staged),
    ensures
        staged.1 == buf.len(),
        crate::buffer::bytes_contents(staged.0).len() == buf.len(),
        forall|i: int| 0 <= i < buf.len() ==> crate::buffer::bytes_contents(staged.0)[i] == #[trigger] buf[i],
{
}

/// A stream begins with nothing under way; to take out what is under way leaves all
/// else as it is.
pub proof fn law_nothing_is_under_way_at_first<S, F>(session: S, stream: StreamView<S, F>)
    ensures
        StreamView::<S, F>::over(session).session == session,
        StreamView::<S, F>::over(session).sending is None,
        StreamView::<S, F>::over(session).closing is None,
        stream.idle().sending is None && stream.idle().session == stream.session && stream.idle().closing
            == stream.closing,
        stream.without_close().closing is None && stream.without_close().session == stream.session
            && stream.without_close().sending == stream.sending,
{
}

/// The first shutdown that has flushed the stream takes every step of closing the
/// session, and leaves it closed and otherwise as it was; a close under way is left alone.
pub proof fn law_shutdown_takes_every_close_step<P, C, F>(
    stream: StreamView<Session<P, C>, F>,
    steps: Seq<CloseStep>,
    after: StreamView<Session<P, C>, F>,
)
    requires
        stream.begins_close(steps, after),
    ensures
        stream.closing is Some ==> steps.len() == 0 && after == stream,
        (stream.closing is None ==> {
            &&& steps == stream.session@.close_steps()
            &&& after.session@.closed
            &&& after.session@.peer_connection == stream.session@.peer_connection
            &&& after.session@.reliable_channel == stream.session@.reliable_channel
            &&& after.session@.unreliable_channel == stream.session@.unreliable_channel
            &&& after.session@.local == stream.session@.local && after.session@.remote == stream.session@.remote
            &&& after.sending == stream.sending && after.closing is None
        }),
{
}

/// A shutdown goes on exactly if the flush before it is done; otherwise it comes to what
/// the flush did.
pub proof fn law_shutdown_waits_for_its_flush(flushed: Attempt, error: NethernetError)
    ensures
        ({
            let result = crate::transport::stream::shutdown_flushed(flushed);
            &&& result is None <==> flushed is Done
            &&& flushed is Pending ==> (result matches Some(attempt) && attempt is Pending)
            &&& result == Some(Attempt::Failed(error)) <==> flushed == Attempt::Failed(error)
        }),
{
}

/// A reader gets every message that was received, as it is; the end exactly where there
/// is no message, and the error exactly where there is one.
pub proof fn law_reader_gets_what_was_received(received: Result<Option<Bytes>, NethernetError>)
    ensures
        ({
            let item = crate::transport::stream::item_of(received);
            &&& received matches Ok(Some(data)) ==> (item matches StreamItem::Data(bytes) && bytes == data)
            &&& (received matches Ok(None)) <==> item is End
            &&& received matches Err(error) ==> (item matches StreamItem::Failed(failure) && failure == error)
        }),
{
}

/// The caller of a connect gets the stream exactly if the negotiation succeeded, and its
/// error otherwise. The other end is told exactly of a failure that has a code: that
/// code, about this connection, to the remote network.
pub proof fn law_connect_reports_its_failure<T>(
    result: Result<T, Failure>,
    connection_id: u64,
    remote_network_id: String,
    outcome: (Option<ErrorSignal>, Result<T, NethernetError>),
)
    requires
        crate::transport::stream::comes_to(result, connection_id, remote_network_id, outcome),
    ensures
        result matches Ok(stream) ==> (outcome.1 matches Ok(given) && given == stream) && outcome.0 is None,
        result matches Err(failure) ==> (outcome.1 matches Err(error) && error == failure.error),
        outcome.0 is Some <==> (result matches Err(failure) && failure.code is Some),
        result matches Err(failure) ==> (outcome.0 matches Some(report) ==> Some(report.code) == failure.code
            && report.connection_id == connection_id && report.network_id@ == remote_network_id@),
{
}

} // verus!
