//! The server-side request handler: one per stream. Decodes a bounded request
//! body, echoes the message back, half-closes the stream once the response is
//! fully written, and only then — and only for a `Shutdown` request — signals
//! an orderly process shutdown. The surrounding I/O layer performs each
//! returned action and reports its outcome back as the next event.

use vstd::prelude::*;

use crate::message::Message;
use crate::message::ProtocolError;
use crate::message::lemma_decode_exact;
use crate::message::lemma_round_trip;
use crate::message::spec_decode;
use crate::message::spec_encode;

verus! {

/// The response computed for one request: the body to write back, and whether
/// an orderly process shutdown must be initiated once writing completes.
#[derive(Debug)]
pub struct Response {
    pub body: Vec<u8>,
    pub initiate_shutdown: bool,
}

/// The server's response to one complete request body, as a function of that
/// body alone: the echoed wire form of the decoded message, or the error the
/// stream is rejected with.
pub open spec fn spec_server_response(request: Seq<u8>) -> Result<Seq<u8>, ProtocolError> {
    match spec_decode(request) {
        Some(m) => Ok(spec_encode(m)),
        None => Err(ProtocolError::InvalidMessage),
    }
}

/// Decode a complete request body and produce the response. Succeeds exactly
/// on the two valid wire tokens; every other body is rejected with a
/// recoverable error that concerns this stream alone. On success the response
/// body equals the request body, and shutdown is requested exactly by the
/// `Shutdown` message.
pub fn handle_request_bytes(request: &Vec<u8>) -> (r: Result<Response, ProtocolError>)
    ensures
        r matches Ok(resp) ==> spec_server_response(request@) == Ok::<Seq<u8>, ProtocolError>(
            resp.body@,
        ),
        r matches Err(e) ==> spec_server_response(request@) == Err::<Seq<u8>, ProtocolError>(e),
        r matches Ok(resp) ==> resp.body@ == request@,
        r matches Ok(resp) ==> (resp.initiate_shutdown <==> spec_decode(request@) == Some(
            Message::Shutdown,
        )),
{
    match Message::decode(request) {
        Ok(m) => {
            let body = m.encode();
            proof {
                lemma_decode_exact(request@, m);
            }
            Ok(Response { body, initiate_shutdown: m == Message::Shutdown })
        },
        Err(e) => Err(e),
    }
}

/// Law (identity echo): a request that is a valid wire token is echoed
/// verbatim: within one stream, the response body equals the request body,
/// for both message variants.
pub proof fn lemma_identity_echo(request: Seq<u8>, m: Message)
    requires
        spec_decode(request) == Some(m),
    ensures
        spec_server_response(request) == Ok::<Seq<u8>, ProtocolError>(request),
{
    lemma_decode_exact(request, m);
}

/// Law (request/response match): the server's response to the wire form of
/// any message is that wire form again, and it decodes back to the message
/// that was sent.
pub proof fn lemma_request_response_match(m: Message)
    ensures
        spec_server_response(spec_encode(m)) == Ok::<Seq<u8>, ProtocolError>(spec_encode(m)),
        spec_decode(spec_encode(m)) == Some(m),
{
    lemma_round_trip(m);
    lemma_identity_echo(spec_encode(m), m);
}

/// The lifecycle of one server-side stream handler. Exactly one
/// request/response exchange happens per stream; the stream is never reused.
#[derive(Clone, Copy, Debug, PartialEq, Eq, Structural)]
pub enum StreamState {
    /// Waiting for the request body to be read to completion.
    AwaitingRequest,
    /// The request decoded to `message`; the echoed response is being written.
    WritingResponse { message: Message },
    /// The response is fully written; the write side is being half-closed.
    FinishingStream { message: Message },
    /// The exchange is over; `shutdown_signaled` records whether this stream
    /// initiated the process shutdown.
    Completed { shutdown_signaled: bool },
    /// The stream was abandoned: bad request or transport failure.
    Failed,
}

/// What the I/O layer must do after a step. Every action concerns the one
/// stream the handler owns, except `SignalShutdown`, the deliberate
/// process-wide stop request.
#[derive(Clone, Copy, Debug, PartialEq, Eq, Structural)]
pub enum StreamAction {
    /// Encode `message` and write it as the response body.
    WriteResponse { message: Message },
    /// Half-close the write side: the response is complete.
    FinishStream,
    /// Ask the process to stop serving; only ever follows a finished
    /// `Shutdown` response.
    SignalShutdown,
    /// Give up on this stream alone; other streams are unaffected.
    AbandonStream,
    /// Nothing to do.
    Idle,
}

/// One observation delivered to a stream handler, for reasoning about whole
/// runs of the handler.
pub enum StreamEvent {
    /// The request body was read to completion.
    BodyRead { body: Seq<u8> },
    /// The response write completed.
    WriteCompleted,
    /// The half-close of the write side completed.
    FinishCompleted,
    /// Reading, writing or closing failed at the transport.
    TransportFailure,
}

/// The step taken when the request body has been read to completion.
pub open spec fn spec_on_request_body(s: StreamState, body: Seq<u8>) -> (StreamState, StreamAction) {
    match s {
        StreamState::AwaitingRequest => match spec_decode(body) {
            Some(m) => (
                StreamState::WritingResponse { message: m },
                StreamAction::WriteResponse { message: m },
            ),
            None => (StreamState::Failed, StreamAction::AbandonStream),
        },
        _ => (s, StreamAction::Idle),
    }
}

/// The step taken when the response write completed.
pub open spec fn spec_on_write_completed(s: StreamState) -> (StreamState, StreamAction) {
    match s {
        StreamState::WritingResponse { message } => (
            StreamState::FinishingStream { message },
            StreamAction::FinishStream,
        ),
        _ => (s, StreamAction::Idle),
    }
}

/// The step taken when the half-close completed. Only here, with the response
/// fully delivered, does a `Shutdown` exchange signal the process shutdown.
pub open spec fn spec_on_finish_completed(s: StreamState) -> (StreamState, StreamAction) {
    match s {
        StreamState::FinishingStream { message } => if message == Message::Shutdown {
            (StreamState::Completed { shutdown_signaled: true }, StreamAction::SignalShutdown)
        } else {
            (StreamState::Completed { shutdown_signaled: false }, StreamAction::Idle)
        },
        _ => (s, StreamAction::Idle),
    }
}

/// The step taken when the transport failed: the stream alone is abandoned.
pub open spec fn spec_on_transport_failure(s: StreamState) -> (StreamState, StreamAction) {
    match s {
        StreamState::Completed { .. } => (s, StreamAction::Idle),
        _ => (StreamState::Failed, StreamAction::AbandonStream),
    }
}

/// One step of the stream handler.
pub open spec fn spec_stream_step(s: StreamState, e: StreamEvent) -> (StreamState, StreamAction) {
    match e {
        StreamEvent::BodyRead { body } => spec_on_request_body(s, body),
        StreamEvent::WriteCompleted => spec_on_write_completed(s),
        StreamEvent::FinishCompleted => spec_on_finish_completed(s),
        StreamEvent::TransportFailure => spec_on_transport_failure(s),
    }
}

/// Step the handler on a completely read request body.
pub fn on_request_body(state: StreamState, body: &Vec<u8>) -> (r: (StreamState, StreamAction))
    ensures
        r == spec_on_request_body(state, body@),
{
    match state {
        StreamState::AwaitingRequest => match Message::decode(body) {
            Ok(m) => (
                StreamState::WritingResponse { message: m },
                StreamAction::WriteResponse { message: m },
            ),
            Err(_) => (StreamState::Failed, StreamAction::AbandonStream),
        },
        _ => (state, StreamAction::Idle),
    }
}

/// Step the handler when the response write completed.
pub fn on_write_completed(state: StreamState) -> (r: (StreamState, StreamAction))
    ensures
        r == spec_on_write_completed(state),
{
    match state {
        StreamState::WritingResponse { message } => (
            StreamState::FinishingStream { message },
            StreamAction::FinishStream,
        ),
        _ => (state, StreamAction::Idle),
    }
}

/// Step the handler when the half-close of the write side completed.
pub fn on_finish_completed(state: StreamState) -> (r: (StreamState, StreamAction))
    ensures
        r == spec_on_finish_completed(state),
{
    match state {
        StreamState::FinishingStream { message } => if message == Message::Shutdown {
            (StreamState::Completed { shutdown_signaled: true }, StreamAction::SignalShutdown)
        } else {
            (StreamState::Completed { shutdown_signaled: false }, StreamAction::Idle)
        },
        _ => (state, StreamAction::Idle),
    }
}

/// Step the handler when the transport reported a failure.
pub fn on_transport_failure(state: StreamState) -> (r: (StreamState, StreamAction))
    ensures
        r == spec_on_transport_failure(state),
{
    match state {
        StreamState::Completed { .. } => (state, StreamAction::Idle),
        _ => (StreamState::Failed, StreamAction::AbandonStream),
    }
}

/// Law (shutdown sequencing, single step): a shutdown signal is only ever
/// emitted by the completed half-close of a stream that carried a `Shutdown`
/// request and whose response was already fully written.
pub proof fn lemma_shutdown_signal_needs_finished_response(s: StreamState, e: StreamEvent)
    ensures
        spec_stream_step(s, e).1 == StreamAction::SignalShutdown ==> (e is FinishCompleted && s
            == (StreamState::FinishingStream { message: Message::Shutdown })),
{
}

/// The states and actions produced by running one stream handler from `s0`
/// through a sequence of events, in order: entry `k` holds the state after
/// step `k` and the action step `k` requested.
pub open spec fn stream_run(s0: StreamState, events: Seq<StreamEvent>) -> Seq<
    (StreamState, StreamAction),
>
    decreases events.len(),
{
    if events.len() == 0 {
        Seq::empty()
    } else {
        let prev = stream_run(s0, events.drop_last());
        let before = if prev.len() == 0 {
            s0
        } else {
            prev.last().0
        };
        prev.push(spec_stream_step(before, events.last()))
    }
}

/// The state a run ends in.
pub open spec fn stream_run_final(s0: StreamState, events: Seq<StreamEvent>) -> StreamState {
    let run = stream_run(s0, events);
    if run.len() == 0 {
        s0
    } else {
        run.last().0
    }
}

pub proof fn lemma_stream_run_len(s0: StreamState, events: Seq<StreamEvent>)
    ensures
        stream_run(s0, events).len() == events.len(),
    decreases events.len(),
{
    if events.len() > 0 {
        lemma_stream_run_len(s0, events.drop_last());
    }
}

/// A run over a prefix of the events is the prefix of the run.
proof fn lemma_stream_run_prefix(s0: StreamState, events: Seq<StreamEvent>, k: int)
    requires
        0 <= k <= events.len(),
    ensures
        stream_run(s0, events.take(k)) =~= stream_run(s0, events).take(k),
    decreases events.len(),
{
    lemma_stream_run_len(s0, events);
    if k == events.len() {
        assert(events.take(k) =~= events);
        assert(stream_run(s0, events).take(k) =~= stream_run(s0, events));
    } else {
        let prev = events.drop_last();
        lemma_stream_run_len(s0, prev);
        lemma_stream_run_prefix(s0, prev, k);
        assert(events.take(k) =~= prev.take(k));
        assert(stream_run(s0, events).take(k) =~= stream_run(s0, prev).take(k));
    }
}

/// In a run from the initial state: while the response is being written, its
/// write was already requested; while the stream is being finished, both the
/// response write and the half-close were already requested, in that order.
proof fn lemma_stream_run_history(events: Seq<StreamEvent>)
    ensures
        stream_run_final(StreamState::AwaitingRequest, events) matches StreamState::WritingResponse {
            message,
        } ==> exists|i: int|
            0 <= i < events.len() && stream_run(StreamState::AwaitingRequest, events)[i].1 == (
            StreamAction::WriteResponse { message }),
        stream_run_final(StreamState::AwaitingRequest, events) matches StreamState::FinishingStream {
            message,
        } ==> exists|i: int, j: int|
            0 <= i < j < events.len() && stream_run(StreamState::AwaitingRequest, events)[i].1 == (
            StreamAction::WriteResponse { message }) && stream_run(
                StreamState::AwaitingRequest,
                events,
            )[j].1 == StreamAction::FinishStream,
    decreases events.len(),
{
    let s0 = StreamState::AwaitingRequest;
    lemma_stream_run_len(s0, events);
    if events.len() > 0 {
        let n = events.len() as int;
        let prev = events.drop_last();
        lemma_stream_run_history(prev);
        lemma_stream_run_len(s0, prev);
        let before = stream_run_final(s0, prev);
        let step = spec_stream_step(before, events.last());
        let run = stream_run(s0, events);
        let prun = stream_run(s0, prev);
        assert(run == prun.push(step));
        assert(run[n - 1] == step);
        match step.0 {
            StreamState::WritingResponse { message } => {
                if step.1 == (StreamAction::WriteResponse { message }) {
                    assert(0 <= n - 1 < n && run[n - 1].1 == (StreamAction::WriteResponse {
                        message,
                    }));
                } else {
                    assert(before == (StreamState::WritingResponse { message }));
                    let i = choose|i: int|
                        0 <= i < prev.len() && prun[i].1 == (StreamAction::WriteResponse {
                            message,
                        });
                    assert(run[i] == prun[i]);
                    assert(0 <= i < n && run[i].1 == (StreamAction::WriteResponse { message }));
                }
            },
            StreamState::FinishingStream { message } => {
                if step.1 == StreamAction::FinishStream {
                    assert(before == (StreamState::WritingResponse { message }));
                    let i = choose|i: int|
                        0 <= i < prev.len() && prun[i].1 == (StreamAction::WriteResponse {
                            message,
                        });
                    assert(run[i] == prun[i]);
                    assert(0 <= i < n - 1 < n && run[i].1 == (StreamAction::WriteResponse {
                        message,
                    }) && run[n - 1].1 == StreamAction::FinishStream);
                } else {
                    assert(before == (StreamState::FinishingStream { message }));
                    let (i, j) = choose|i: int, j: int|
                        0 <= i < j < prev.len() && prun[i].1 == (StreamAction::WriteResponse {
                            message,
                        }) && prun[j].1 == StreamAction::FinishStream;
                    assert(run[i] == prun[i]);
                    assert(run[j] == prun[j]);
                    assert(0 <= i < j < n && run[i].1 == (StreamAction::WriteResponse { message })
                        && run[j].1 == StreamAction::FinishStream);
                }
            },
            _ => {},
        }
    }
}

/// Law (shutdown sequencing, whole run): in any run of one stream handler
/// from the initial state, a shutdown signal at step `k` is strictly preceded
/// by the request to write the `Shutdown` response and, after that, by the
/// request to half-close the stream: the response is fully on its way before
/// the process is ever asked to stop serving.
pub proof fn lemma_shutdown_sequenced(events: Seq<StreamEvent>, k: int)
    requires
        0 <= k < events.len(),
        stream_run(StreamState::AwaitingRequest, events)[k].1 == StreamAction::SignalShutdown,
    ensures
        exists|i: int, j: int|
            0 <= i < j < k && stream_run(StreamState::AwaitingRequest, events)[i].1 == (
            StreamAction::WriteResponse { message: Message::Shutdown }) && stream_run(
                StreamState::AwaitingRequest,
                events,
            )[j].1 == StreamAction::FinishStream,
{
    let s0 = StreamState::AwaitingRequest;
    lemma_stream_run_len(s0, events);
    let p = events.take(k + 1);
    lemma_stream_run_prefix(s0, events, k + 1);
    lemma_stream_run_len(s0, p);
    let prevp = p.drop_last();
    assert(prevp =~= events.take(k));
    lemma_stream_run_len(s0, prevp);
    let before = stream_run_final(s0, prevp);
    let step = spec_stream_step(before, p.last());
    assert(stream_run(s0, p)[k] == step);
    assert(stream_run(s0, p)[k] == stream_run(s0, events)[k]);
    lemma_shutdown_signal_needs_finished_response(before, p.last());
    assert(before == (StreamState::FinishingStream { message: Message::Shutdown }));
    lemma_stream_run_history(prevp);
    lemma_stream_run_prefix(s0, events, k);
    let (i, j) = choose|i: int, j: int|
        0 <= i < j < prevp.len() && stream_run(s0, prevp)[i].1 == (StreamAction::WriteResponse {
            message: Message::Shutdown,
        }) && stream_run(s0, prevp)[j].1 == StreamAction::FinishStream;
    assert(stream_run(s0, prevp) =~= stream_run(s0, events).take(k));
    assert(stream_run(s0, events)[i] == stream_run(s0, prevp)[i]);
    assert(stream_run(s0, events)[j] == stream_run(s0, prevp)[j]);
    assert(0 <= i < j < k && stream_run(s0, events)[i].1 == (StreamAction::WriteResponse {
        message: Message::Shutdown,
    }) && stream_run(s0, events)[j].1 == StreamAction::FinishStream);
}

} // verus!
