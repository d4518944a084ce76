//! The stream over a session, and the start of its connection.

use crate::addr::Addr;
use crate::buffer::{bytes_len, copy_from_slice};
use crate::error::{NethernetError, SignalErrorCode};
use crate::session::{CloseStep, Receive, Session, Transmission};
use crate::signal::ErrorSignal;
use crate::transport::negotiation::Negotiation;
use crate::transport::{ConnectionConfig, Failure};
use bytes::Bytes;
use rand::Rng;
use vstd::prelude::*;

verus! {

/// Whether a character is white space, by the property of that name in Unicode.
pub open spec fn is_white_space(c: char) -> bool {
    let point = c as int;
    ||| 0x9 <= point <= 0xd
    ||| point == 0x20
    ||| point == 0x85
    ||| point == 0xa0
    ||| point == 0x1680
    ||| 0x2000 <= point <= 0x200a
    ||| point == 0x2028
    ||| point == 0x2029
    ||| point == 0x202f
    ||| point == 0x205f
    ||| point == 0x3000
}

/// A text without the white space that it begins with.
pub open spec fn trim_front(text: Seq<char>) -> Seq<char>
    decreases text.len(),
{
    if text.len() > 0 && is_white_space(text.first()) {
        trim_front(text.drop_first())
    } else {
        text
    }
}

/// A text without the white space that it ends with.
pub open spec fn trim_back(text: Seq<char>) -> Seq<char>
    decreases text.len(),
{
    if text.len() > 0 && is_white_space(text.last()) {
        trim_back(text.drop_last())
    } else {
        text
    }
}

/// Whether a character is a decimal digit.
pub open spec fn is_digit(c: char) -> bool {
    '0' <= c <= '9'
}

/// The number that a text of decimal digits stands for.
pub open spec fn decimal_value(digits: Seq<char>) -> nat
    decreases digits.len(),
{
    if digits.len() == 0 {
        0
    } else {
        decimal_value(digits.drop_last()) * 10 + (digits.last() as int - '0' as int) as nat
    }
}

/// The digits of a number, without the sign that may stand before them.
pub open spec fn unsigned_digits(text: Seq<char>) -> Seq<char> {
    if text.len() > 0 && text.first() == '+' {
        text.drop_first()
    } else {
        text
    }
}

/// The number that a text stands for: an optional plus sign and digits, no more,
/// with a value that fits.
pub open spec fn decimal_u32(text: Seq<char>) -> Option<u32> {
    let digits = unsigned_digits(text);
    if digits.len() > 0 && (forall|i: int| 0 <= i < digits.len() ==> is_digit(#[trigger] digits[i])) && decimal_value(
        digits,
    ) <= u32::MAX {
        Some(decimal_value(digits) as u32)
    } else {
        None
    }
}

/// The code that the data of an error signal stands for.
pub open spec fn error_code(data: Seq<char>) -> SignalErrorCode {
    match decimal_u32(trim_back(trim_front(data))) {
        Some(number) => SignalErrorCode::Code(number),
        None => SignalErrorCode::SignalingUnknownError,
    }
}

/// `str::trim`: the text without the white space at either end.
#[verifier::external_body]
fn trim(text: &str) -> (trimmed: &str)
    ensures
        trimmed@ == trim_back(trim_front(text@)),
{
    text.trim()
}

/// `str::parse` to a `u32`: the number that the text stands for, in decimal.
#[verifier::external_body]
fn parse_u32(text: &str) -> (number: Option<u32>)
    ensures
        number == decimal_u32(text@),
{
    text.parse::<u32>().ok()
}

/// Parses the error code of an error signal.
pub fn parse_error_code(data: &str) -> (code: SignalErrorCode)
    ensures
        code == error_code(data@),
{
    match parse_u32(trim(data)) {
        Some(number) => SignalErrorCode::from(number),
        None => SignalErrorCode::SignalingUnknownError,
    }
}

/// The number that eight bytes stand for, the least significant byte first.
pub open spec fn little_endian(bytes: Seq<u8>) -> int
    decreases bytes.len(),
{
    if bytes.len() == 0 {
        0
    } else {
        bytes.first() + 0x100 * little_endian(bytes.drop_first())
    }
}

/// `rand::rng` and `Rng::fill_bytes`: eight bytes of chance. They can be any
/// bytes, so nothing is claimed of them. The call panics if the operating system
/// has no randomness to seed the generator with.
#[verifier::external_body]
fn random_bytes() -> (bytes: [u8; 8]) {
    let mut bytes = [0u8; 8];
    rand::rng().fill_bytes(&mut bytes);
    bytes
}

/// The number of a connection, from bytes drawn for it.
pub fn connection_id(bytes: [u8; 8]) -> (connection_id: u64)
    ensures
        connection_id == little_endian(bytes@),
{
    proof {
        reveal_with_fuel(little_endian, 9);
    }
    let high: u64 = bytes[4] as u64 + 0x100 * (bytes[5] as u64 + 0x100 * (bytes[6] as u64 + 0x100 * (bytes[7] as u64)));
    bytes[0] as u64 + 0x100 * (bytes[1] as u64 + 0x100 * (bytes[2] as u64 + 0x100 * (bytes[3] as u64 + 0x100 * high)))
}

/// The failure of a negotiation that was cancelled.
pub fn connect_cancelled() -> (failure: Failure)
    ensures
        failure.says(None, crate::error::ErrorView::ConnectionClosed),
        failure.code is None,
        failure.error is ConnectionClosed,
{
    Failure::silent(NethernetError::ConnectionClosed)
}

/// Whether this is what an attempt to connect comes to: a report to the other end,
/// and a result for the caller.
pub open spec fn comes_to<T>(
    result: Result<T, Failure>,
    connection_id: u64,
    remote_network_id: String,
    outcome: (Option<ErrorSignal>, Result<T, NethernetError>),
) -> bool {
    match result {
        Ok(stream) => outcome.0 is None && outcome.1 == Ok::<T, NethernetError>(stream),
        Err(failure) => outcome.1 == Err::<T, NethernetError>(failure.error) && outcome.0 == failure.report(
            connection_id,
            remote_network_id,
        ),
    }
}

/// What an attempt to connect comes to: the signal to send to the other end, if
/// it is to be told of a failure, and the result for the caller.
pub fn connect_outcome<T>(result: Result<T, Failure>, connection_id: u64, remote_network_id: String) -> (outcome: (
    Option<ErrorSignal>,
    Result<T, NethernetError>,
))
    ensures
        comes_to(result, connection_id, remote_network_id, outcome),
{
    match result {
        Ok(stream) => (None, Ok(stream)),
        Err(failure) => {
            let report = failure.signal_error(connection_id, remote_network_id);
            (report, Err(failure.error))
        },
    }
}

/// What a reader of the byte stream gets.
pub enum StreamItem {
    /// The bytes of the next message.
    Data(Bytes),
    /// The end of the stream.
    End,
    /// An error, in place of a message.
    Failed(NethernetError),
}

/// What the reader gets, from what was received.
pub open spec fn item_of(received: Result<Option<Bytes>, NethernetError>) -> StreamItem {
    match received {
        Ok(Some(data)) => StreamItem::Data(data),
        Ok(None) => StreamItem::End,
        Err(error) => StreamItem::Failed(error),
    }
}

/// What the reader gets, from what was received. Another receive begins in any case.
pub fn stream_item(received: Result<Option<Bytes>, NethernetError>) -> (item: StreamItem)
    ensures
        item == item_of(received),
{
    match received {
        Ok(Some(data)) => StreamItem::Data(data),
        Ok(None) => StreamItem::End,
        Err(error) => StreamItem::Failed(error),
    }
}

/// How far an operation is that may take several attempts.
pub enum Attempt {
    /// It is done.
    Done,
    /// It failed.
    Failed(NethernetError),
    /// It is to be attempted again.
    Pending,
}

/// What a write comes to.
pub enum Write {
    /// So many bytes were taken.
    Taken(usize),
    /// It failed.
    Failed(NethernetError),
    /// It is to be attempted again.
    Pending,
}

/// The state of a byte stream over a session `S`, with operations `F` under way.
pub struct NethernetStream<S, F> {
    session: S,
    send_future: Option<F>,
    shutdown_future: Option<F>,
}

/// What a [`NethernetStream`] consists of.
pub struct StreamView<S, F> {
    /// The session under the stream.
    pub session: S,
    /// The send under way.
    pub sending: Option<F>,
    /// The close under way.
    pub closing: Option<F>,
}

impl<S, F> View for NethernetStream<S, F> {
    type V = StreamView<S, F>;

    closed spec fn view(&self) -> StreamView<S, F> {
        StreamView { session: self.session, sending: self.send_future, closing: self.shutdown_future }
    }
}

impl<S, F> StreamView<S, F> {
    /// The stream with no send under way.
    pub open spec fn idle(self) -> Self {
        StreamView { sending: None, ..self }
    }

    /// The stream, and what its write comes to, once the send before was attempted
    /// again: nothing yet, if that send is done.
    pub open spec fn write_resumed(self, sending: F, attempt: Attempt) -> (Self, Option<Write>) {
        match attempt {
            Attempt::Done => (self, None),
            Attempt::Failed(error) => (self, Some(Write::Failed(error))),
            Attempt::Pending => (StreamView { sending: Some(sending), ..self }, Some(Write::Pending)),
        }
    }

    /// The stream, and what its write comes to, once the send of the write itself
    /// was attempted.
    pub open spec fn write_started(self, sending: F, attempt: Attempt, length: usize) -> (Self, Write) {
        match attempt {
            Attempt::Done => (self, Write::Taken(length)),
            Attempt::Failed(error) => (self, Write::Failed(error)),
            Attempt::Pending => (StreamView { sending: Some(sending), ..self }, Write::Taken(length)),
        }
    }

    /// A whole write: the send before it, if one is under way, is attempted again,
    /// and if that does not end the write its own send is attempted.
    pub open spec fn write(self, retry: Attempt, fresh: F, attempt: Attempt, length: usize) -> (Self, Write) {
        match self.sending {
            None => self.idle().write_started(fresh, attempt, length),
            Some(sending) => match self.idle().write_resumed(sending, retry) {
                (stream, Some(result)) => (stream, result),
                (stream, None) => stream.write_started(fresh, attempt, length),
            },
        }
    }

    /// The stream, and what its flush comes to, once the send under way, if there
    /// was one, was attempted again.
    pub open spec fn flushed(self, retried: Option<(F, Attempt)>) -> (Self, Attempt) {
        match retried {
            None => (self, Attempt::Done),
            Some((sending, Attempt::Pending)) => (StreamView { sending: Some(sending), ..self }, Attempt::Pending),
            Some((_, finished)) => (self, finished),
        }
    }

    /// A whole flush: the send under way, if there is one, is attempted again.
    pub open spec fn flush(self, retry: Attempt) -> (Self, Attempt) {
        self.idle().flushed(
            match self.sending {
                Some(sending) => Some((sending, retry)),
                None => None,
            },
        )
    }

    /// The stream, and what its shutdown comes to, once the close of the session
    /// was attempted.
    pub open spec fn close_attempted(self, closing: F, attempt: Attempt) -> (Self, Attempt) {
        match attempt {
            Attempt::Pending => (StreamView { closing: Some(closing), ..self }, Attempt::Pending),
            finished => (self, finished),
        }
    }

    /// A whole shutdown: the stream is flushed, and once it is, the close under
    /// way, or a fresh one where there is none, is attempted.
    pub open spec fn shutdown(self, retry: Attempt, fresh: F, attempt: Attempt) -> (Self, Attempt) {
        match self.flush(retry) {
            (flushed, Attempt::Done) => (StreamView { closing: None, ..flushed }).close_attempted(
                match flushed.closing {
                    Some(closing) => closing,
                    None => fresh,
                },
                attempt,
            ),
            unfinished => unfinished,
        }
    }
}

/// Whether this is the message that a write of some bytes sends, and how many of them
/// the write takes.
pub open spec fn stages(buf: Seq<u8>, staged: (Bytes, usize)) -> bool {
    crate::buffer::bytes_contents(staged.0) == buf && staged.1 == buf.len()
}

/// What a shutdown comes to once the stream was flushed: nothing yet, if the flush is
/// done.
pub open spec fn shutdown_flushed(flushed: Attempt) -> Option<Attempt> {
    match flushed {
        Attempt::Done => None,
        unfinished => Some(unfinished),
    }
}

impl<S, F> StreamView<S, F> {
    /// A stream over a session with nothing under way.
    pub open spec fn over(session: S) -> Self {
        StreamView { session, sending: None, closing: None }
    }

    /// The stream with no close under way.
    pub open spec fn without_close(self) -> Self {
        StreamView { closing: None, ..self }
    }
}

impl<S, F> NethernetStream<S, F> {
    /// Begins to connect to a remote network, with the standard options.
    pub fn connect<P, C, K>(remote_network_id: String) -> (negotiation: Negotiation<P, C, K>)
        ensures
            negotiation.remote_network_id == remote_network_id,
            negotiation.timeouts == crate::transport::Timeouts::standard(),
            negotiation.state is Credentials,
            negotiation.begins(remote_network_id, crate::transport::Timeouts::standard()),
    {
        Self::connect_with(remote_network_id, &ConnectionConfig::default())
    }

    /// Begins to connect to a remote network, with explicit options. The number
    /// of the connection is drawn by chance.
    pub fn connect_with<P, C, K>(remote_network_id: String, config: &ConnectionConfig) -> (negotiation: Negotiation<
        P,
        C,
        K,
    >)
        ensures
            negotiation.remote_network_id == remote_network_id,
            negotiation.timeouts == config.timeouts,
            negotiation.state is Credentials,
            negotiation.begins(remote_network_id, config.timeouts),
    {
        Negotiation::new(connection_id(random_bytes()), remote_network_id, config.timeouts)
    }

    /// A stream over an established session, with nothing under way.
    pub fn from_session(session: S) -> (stream: Self)
        ensures
            stream@ == (StreamView { session, sending: None::<F>, closing: None::<F> }),
            stream@ == StreamView::<S, F>::over(session),
    {
        NethernetStream { session, send_future: None, shutdown_future: None }
    }

    /// The session under the stream.
    pub fn session(&self) -> (session: &S)
        ensures
            *session == self@.session,
    {
        &self.session
    }

    /// Takes the send under way out, to attempt it again.
    pub fn take_send(&mut self) -> (sending: Option<F>)
        ensures
            sending == old(self)@.sending,
            final(self)@ == old(self)@.idle(),
    {
        self.send_future.take()
    }

    /// Takes the close under way out, to attempt it again.
    pub fn take_shutdown(&mut self) -> (closing: Option<F>)
        ensures
            closing == old(self)@.closing,
            final(self)@ == (StreamView { closing: None::<F>, ..old(self)@ }),
            final(self)@ == old(self)@.without_close(),
    {
        self.shutdown_future.take()
    }

    /// What a write comes to once the send before it was attempted again: nothing
    /// yet, if that send is done.
    pub fn poll_write_resumed(&mut self, sending: F, attempt: Attempt) -> (result: Option<Write>)
        ensures
            (final(self)@, result) == old(self)@.write_resumed(sending, attempt),
    {
        match attempt {
            Attempt::Done => None,
            Attempt::Failed(error) => Some(Write::Failed(error)),
            Attempt::Pending => {
                self.send_future = Some(sending);
                Some(Write::Pending)
            },
        }
    }

    /// The message that a write sends, and how many bytes the write takes: all of them.
    pub fn stage_write(buf: &[u8]) -> (staged: (Bytes, usize))
        ensures
            crate::buffer::bytes_contents(staged.0) == buf@,
            staged.1 == buf@.len(),
            stages(buf@, staged),
    {
        let data = copy_from_slice(buf);
        let length = bytes_len(&data);
        (data, length)
    }

    /// What a write comes to once its own send was attempted for the first time.
    /// A send that is still under way counts as written.
    pub fn poll_write_started(&mut self, sending: F, attempt: Attempt, length: usize) -> (result: Write)
        ensures
            (final(self)@, result) == old(self)@.write_started(sending, attempt, length),
    {
        match attempt {
            Attempt::Done => Write::Taken(length),
            Attempt::Failed(error) => Write::Failed(error),
            Attempt::Pending => {
                self.send_future = Some(sending);
                Write::Taken(length)
            },
        }
    }

    /// What a flush comes to, given the send that was under way, if any, and its
    /// attempt.
    pub fn poll_flush(&mut self, retried: Option<(F, Attempt)>) -> (result: Attempt)
        ensures
            (final(self)@, result) == old(self)@.flushed(retried),
    {
        match retried {
            None => Attempt::Done,
            Some((_, Attempt::Done)) => Attempt::Done,
            Some((_, Attempt::Failed(error))) => Attempt::Failed(error),
            Some((sending, Attempt::Pending)) => {
                self.send_future = Some(sending);
                Attempt::Pending
            },
        }
    }

    /// What a shutdown comes to once the stream was flushed: nothing yet, if the
    /// flush is done.
    pub fn poll_shutdown_flushed(flushed: Attempt) -> (result: Option<Attempt>)
        ensures
            result == match flushed {
                Attempt::Done => None,
                unfinished => Some(unfinished),
            },
            result == shutdown_flushed(flushed),
    {
        match flushed {
            Attempt::Done => None,
            Attempt::Failed(error) => Some(Attempt::Failed(error)),
            Attempt::Pending => Some(Attempt::Pending),
        }
    }

    /// What a shutdown comes to once the close of the session was attempted.
    pub fn poll_shutdown(&mut self, closing: F, attempt: Attempt) -> (result: Attempt)
        ensures
            (final(self)@, result) == old(self)@.close_attempted(closing, attempt),
    {
        match attempt {
            Attempt::Done => Attempt::Done,
            Attempt::Failed(error) => Attempt::Failed(error),
            Attempt::Pending => {
                self.shutdown_future = Some(closing);
                Attempt::Pending
            },
        }
    }
}

impl<P, C, F> StreamView<Session<P, C>, F> {
    /// A close is under way only where the session was closed.
    pub open spec fn sound(self) -> bool {
        self.closing is Some ==> self.session@.closed
    }

    /// Whether these steps are taken, and this is the stream, once the close of the
    /// session was begun, unless one was under way.
    pub open spec fn begins_close(self, steps: Seq<CloseStep>, after: Self) -> bool {
        if self.closing is Some {
            steps.len() == 0 && after == self
        } else {
            &&& steps == self.session@.close_steps()
            &&& after.session@ == (crate::session::SessionView { closed: true, ..self.session@ })
            &&& after == (StreamView { session: after.session, ..self })
        }
    }

    /// Whether a whole shutdown takes these steps, comes to this result and leaves
    /// this stream: the stream is flushed, and once it is, the close of the session
    /// is begun, unless one is under way, and attempted.
    pub open spec fn shuts_down(
        self,
        retry: Attempt,
        fresh: F,
        attempt: Attempt,
        steps: Seq<CloseStep>,
        after: Self,
        result: Attempt,
    ) -> bool {
        let flushed = self.flush(retry).0;
        if self.flush(retry).1 is Done {
            &&& flushed.begins_close(steps, StreamView { session: after.session, ..flushed })
            &&& (after, result) == (StreamView { session: after.session, ..self }).shutdown(retry, fresh, attempt)
        } else {
            steps.len() == 0 && (after, result) == self.flush(retry)
        }
    }
}

impl<P, C, F> NethernetStream<Session<P, C>, F> {
    /// Begins to send a reliable message over the session.
    pub fn send(&self, segments: Result<Vec<Bytes>, NethernetError>) -> (result: Result<
        (&C, Transmission),
        NethernetError,
    >)
        ensures
            self@.session@.begins_reliable_send(segments, result),
    {
        self.session.send(segments)
    }

    /// Begins to send an unreliable message over the session.
    pub fn send_unreliable(&self, segments: Result<Vec<Bytes>, NethernetError>) -> (result: Result<
        (&C, Transmission),
        NethernetError,
    >)
        ensures
            self@.session@.begins_unreliable_send(segments, result),
    {
        self.session.send_unreliable(segments)
    }

    /// Whether a receiver of unreliable messages has one to wait for.
    pub fn recv_unreliable(&self) -> (receive: Receive)
        ensures
            receive == self@.session@.receive(crate::session::ChannelKind::Unreliable),
    {
        self.session.recv_unreliable()
    }

    /// Whether a receiver of reliable messages has one to wait for.
    pub fn recv(&self) -> (receive: Receive)
        ensures
            receive == self@.session@.receive(crate::session::ChannelKind::Reliable),
    {
        self.session.recv()
    }

    /// Closes the session and says what that takes, in order.
    pub fn close(&mut self) -> (steps: Vec<CloseStep>)
        ensures
            steps@ == old(self)@.session@.close_steps(),
            final(self)@.session@ == (crate::session::SessionView { closed: true, ..old(self)@.session@ }),
            final(self)@ == (StreamView { session: final(self)@.session, ..old(self)@ }),
    {
        self.session.close()
    }

    /// Begins to close the session for a shutdown, and says what that takes, in order:
    /// nothing, if a close is under way.
    pub fn begin_shutdown(&mut self) -> (steps: Vec<CloseStep>)
        ensures
            old(self)@.begins_close(steps@, final(self)@),
    {
        if self.shutdown_future.is_none() {
            self.session.close()
        } else {
            Vec::new()
        }
    }

    /// The remote transport address.
    pub fn remote_addr(&self) -> (addr: Addr)
        ensures
            addr == self@.session@.remote,
    {
        self.session.remote_addr()
    }

    /// The local transport address.
    pub fn local_addr(&self) -> (addr: Addr)
        ensures
            addr == self@.session@.local,
    {
        self.session.local_addr()
    }
}

/// A write takes all its bytes or none. It takes them only once the send before
/// it is done; where that send is still under way, the stream is left as it was.
pub proof fn law_writes_wait_for_each_other<S, F>(
    stream: StreamView<S, F>,
    retry: Attempt,
    fresh: F,
    attempt: Attempt,
    length: usize,
)
    ensures
        ({
            let (after, result) = stream.write(retry, fresh, attempt, length);
            &&& result matches Write::Taken(taken) ==> taken == length && (stream.sending is Some ==> retry is Done)
                && after.sending == if attempt is Pending { Some(fresh) } else { None }
            &&& result is Pending ==> stream.sending is Some && after == stream
            &&& result is Failed ==> after.sending is None
            &&& after.session == stream.session && after.closing == stream.closing
        }),
{
}

/// A flush is done only when no send is under way any more; where one still is,
/// the stream is left as it was.
pub proof fn law_flush_leaves_nothing_under_way<S, F>(stream: StreamView<S, F>, retry: Attempt)
    ensures
        ({
            let (after, result) = stream.flush(retry);
            &&& result is Done <==> stream.sending is None || retry is Done
            &&& result is Pending ==> after == stream
            &&& !(result is Pending) ==> after == stream.idle()
        }),
{
}

/// A shutdown begins to close the session only once the stream is flushed, and it
/// is done only once the close is. A close under way is carried on, not begun anew.
pub proof fn law_shutdown_flushes_first<S, F>(stream: StreamView<S, F>, retry: Attempt, fresh: F, attempt: Attempt)
    ensures
        ({
            let (after, result) = stream.shutdown(retry, fresh, attempt);
            let closing = match stream.closing {
                Some(closing) => closing,
                None => fresh,
            };
            &&& !(stream.flush(retry).1 is Done) ==> (after, result) == stream.flush(retry) && after.closing
                == stream.closing
            &&& stream.flush(retry).1 is Done ==> result == attempt && after.sending is None && after.closing
                == if attempt is Pending { Some(closing) } else { None }
            &&& result is Done <==> stream.flush(retry).1 is Done && attempt is Done
            &&& after.session == stream.session
        }),
{
}

/// A shutdown that is done has closed the session. As long as the flush before it is
/// not done, or has failed, the session is left as it was, and nothing is closed.
/// What closing takes is done by the first shutdown that gets so far: a later one
/// closes nothing again.
pub proof fn law_shutdown_closes_the_session<P, C, F>(
    stream: StreamView<Session<P, C>, F>,
    retry: Attempt,
    fresh: F,
    attempt: Attempt,
    steps: Seq<CloseStep>,
    after: StreamView<Session<P, C>, F>,
    result: Attempt,
)
    requires
        stream.sound(),
        stream.shuts_down(retry, fresh, attempt, steps, after, result),
    ensures
        after.sound(),
        result is Done ==> after.session@.closed,
        stream.flush(retry).1 is Done ==> after.session@.closed && result == attempt,
        !(stream.flush(retry).1 is Done) ==> after.session == stream.session && steps.len() == 0 && result
            == stream.flush(retry).1,
        steps.len() > 0 ==> !stream.session@.closed && after.session@.closed && steps == stream.session@.close_steps(),
        stream.session@.closed ==> steps.len() == 0 && after.session@.closed,
{
}

/// The attempt at a close that has ended with an outcome.
pub open spec fn ended(outcome: Result<(), NethernetError>) -> Attempt {
    match outcome {
        Ok(_) => Attempt::Done,
        Err(error) => Attempt::Failed(error),
    }
}

/// Once the close that a flushed stream began has ended, the shutdown comes to what
/// closing the peer connection did; where the session was closed before, the peer
/// connection is not closed again, and the shutdown is done.
pub proof fn law_shutdown_comes_to_the_close<P, C, F>(
    stream: StreamView<Session<P, C>, F>,
    retry: Attempt,
    fresh: F,
    peer_connection_closed: Option<Result<(), webrtc::error::Error>>,
    steps: Seq<CloseStep>,
    after: StreamView<Session<P, C>, F>,
    result: Attempt,
)
    requires
        stream.closing is None,
        stream.flush(retry).1 is Done,
        peer_connection_closed is Some <==> steps.contains(CloseStep::ClosePeerConnection),
        stream.shuts_down(
            retry,
            fresh,
            ended(crate::session::close_outcome(peer_connection_closed)),
            steps,
            after,
            result,
        ),
    ensures
        after.session@.closed && after.closing is None,
        stream.session@.closed ==> peer_connection_closed is None && result is Done,
        !stream.session@.closed ==> (peer_connection_closed matches Some(closed) && result == match closed {
            Ok(_) => Attempt::Done,
            Err(error) => Attempt::Failed(NethernetError::WebRtc(error)),
        }),
{
    if !stream.session@.closed {
        crate::session::law_close_covers_everything_once(stream.session@);
        assert(steps[steps.len() - 1] is ClosePeerConnection);
    }
}

proof fn lemma_trim_front(space: Seq<char>, text: Seq<char>)
    requires
        forall|i: int| 0 <= i < space.len() ==> is_white_space(#[trigger] space[i]),
    ensures
        trim_front(space + text) == trim_front(text),
    decreases space.len(),
{
    if space.len() > 0 {
        assert((space + text).drop_first() =~= space.drop_first() + text);
        lemma_trim_front(space.drop_first(), text);
    } else {
        assert(space + text =~= text);
    }
}

proof fn lemma_trim_back(text: Seq<char>, space: Seq<char>)
    requires
        forall|i: int| 0 <= i < space.len() ==> is_white_space(#[trigger] space[i]),
    ensures
        trim_back(text + space) == trim_back(text),
    decreases space.len(),
{
    if space.len() > 0 {
        assert((text + space).drop_last() =~= text + space.drop_last());
        lemma_trim_back(text, space.drop_last());
    } else {
        assert(text + space =~= text);
    }
}

proof fn lemma_trim_front_of(text: Seq<char>, space: Seq<char>)
    requires
        forall|i: int| 0 <= i < space.len() ==> is_white_space(#[trigger] space[i]),
    ensures
        trim_front(text).len() > 0 ==> trim_front(text + space) == trim_front(text) + space,
        trim_front(text).len() == 0 ==> trim_front(text + space) == Seq::<char>::empty(),
    decreases text.len(),
{
    if text.len() == 0 {
        lemma_trim_front(space, Seq::empty());
        assert(text + space =~= space + Seq::<char>::empty());
        assert(trim_front(Seq::<char>::empty()) =~= Seq::<char>::empty());
    } else if is_white_space(text.first()) {
        assert((text + space).drop_first() =~= text.drop_first() + space);
        lemma_trim_front_of(text.drop_first(), space);
    }
}

/// White space around the error code of a signal does not matter.
pub proof fn law_space_around_code_is_ignored(before: Seq<char>, data: Seq<char>, after: Seq<char>)
    requires
        forall|i: int| 0 <= i < before.len() ==> is_white_space(#[trigger] before[i]),
        forall|i: int| 0 <= i < after.len() ==> is_white_space(#[trigger] after[i]),
    ensures
        error_code(before + data + after) == error_code(data),
{
    assert(before + data + after =~= before + (data + after));
    lemma_trim_front(before, data + after);
    lemma_trim_front_of(data, after);
    if trim_front(data).len() > 0 {
        lemma_trim_back(trim_front(data), after);
    } else {
        assert(trim_front(data) =~= Seq::<char>::empty());
    }
}

} // verus!
