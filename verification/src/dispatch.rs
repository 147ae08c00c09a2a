//! The server-side connection acceptor and per-connection stream dispatcher:
//! the decisions of the two accept loops, and the isolation guarantees
//! between the streams of one connection and between concurrent sessions.

use vstd::prelude::*;

use crate::handler::StreamAction;
use crate::handler::StreamEvent;
use crate::handler::StreamState;
use crate::handler::spec_server_response;
use crate::handler::spec_stream_step;
use crate::message::ProtocolError;
use crate::message::spec_decode;

verus! {

/// What the transport reported when the dispatcher waited for the next
/// bidirectional stream on one connection.
#[derive(Clone, Copy, Debug, PartialEq, Eq, Structural)]
pub enum StreamAcceptOutcome {
    /// The peer opened a stream.
    Opened,
    /// The peer closed the connection deliberately.
    ClosedByPeer,
    /// Some other transport-level failure.
    TransportError,
}

/// The dispatcher's decision after each accept: spawn an independent handler
/// for the new stream, stop cleanly, or stop reporting the error upward. A
/// stopped dispatcher affects its own connection alone.
#[derive(Clone, Copy, Debug, PartialEq, Eq, Structural)]
pub enum DispatchAction {
    SpawnRequestHandler,
    StopClean,
    StopWithError,
}

/// The dispatcher's decision for one accept outcome.
pub open spec fn spec_dispatch_step(outcome: StreamAcceptOutcome) -> DispatchAction {
    match outcome {
        StreamAcceptOutcome::Opened => DispatchAction::SpawnRequestHandler,
        StreamAcceptOutcome::ClosedByPeer => DispatchAction::StopClean,
        StreamAcceptOutcome::TransportError => DispatchAction::StopWithError,
    }
}

/// Decide what the stream-accept loop of one connection does next: every
/// stream the peer opens gets its own handler; a deliberate close by the peer
/// ends the loop cleanly; any other transport error ends it with the error.
pub fn dispatch_step(outcome: StreamAcceptOutcome) -> (r: DispatchAction)
    ensures
        r == spec_dispatch_step(outcome),
{
    match outcome {
        StreamAcceptOutcome::Opened => DispatchAction::SpawnRequestHandler,
        StreamAcceptOutcome::ClosedByPeer => DispatchAction::StopClean,
        StreamAcceptOutcome::TransportError => DispatchAction::StopWithError,
    }
}

/// The state of the connection acceptor: one per listening endpoint.
#[derive(Clone, Copy, Debug, PartialEq, Eq, Structural)]
pub struct AcceptorState {
    pub accepting: bool,
}

/// The acceptor's decision after each event at the listening endpoint.
#[derive(Clone, Copy, Debug, PartialEq, Eq, Structural)]
pub enum AcceptorAction {
    /// Hand the incoming attempt to its own handling task.
    SpawnConnectionHandler,
    /// Turn the incoming attempt away: the server is no longer serving.
    RefuseConnection,
    /// Keep listening: a single failed connection never stops the acceptor.
    ContinueAccepting,
    /// Stop waiting for further connections.
    StopAccepting,
}

/// A fresh acceptor is listening.
pub fn acceptor_start() -> (r: AcceptorState)
    ensures
        r == (AcceptorState { accepting: true }),
{
    AcceptorState { accepting: true }
}

/// Decide what to do with an incoming connection attempt: while the acceptor
/// is accepting, every attempt gets its own independent handling task.
pub fn on_incoming_connection(state: AcceptorState) -> (r: (AcceptorState, AcceptorAction))
    ensures
        state.accepting ==> r == (state, AcceptorAction::SpawnConnectionHandler),
        !state.accepting ==> r == (state, AcceptorAction::RefuseConnection),
{
    if state.accepting {
        (state, AcceptorAction::SpawnConnectionHandler)
    } else {
        (state, AcceptorAction::RefuseConnection)
    }
}

/// A failed handshake (or a single connection's failure) is logged and
/// discarded: it never stops the acceptor from accepting further connections.
pub fn on_handshake_failed(state: AcceptorState) -> (r: (AcceptorState, AcceptorAction))
    ensures
        r == (state, AcceptorAction::ContinueAccepting),
{
    (state, AcceptorAction::ContinueAccepting)
}

/// An orderly shutdown request stops the acceptor from taking new work; it is
/// the only application-level event that does.
pub fn on_shutdown_requested(state: AcceptorState) -> (r: (AcceptorState, AcceptorAction))
    ensures
        r == (AcceptorState { accepting: false }, AcceptorAction::StopAccepting),
{
    (AcceptorState { accepting: false }, AcceptorAction::StopAccepting)
}

/// Delivering one event to stream `i` of a connection: only that stream
/// steps; the action is the stepped stream's own.
pub open spec fn spec_deliver(streams: Seq<StreamState>, i: int, e: StreamEvent) -> (
    Seq<StreamState>,
    StreamAction,
)
    recommends
        0 <= i < streams.len(),
{
    let (s2, a) = spec_stream_step(streams[i], e);
    (streams.update(i, s2), a)
}

/// Law (isolation): an event on one stream of a connection leaves every other
/// stream of that connection exactly as it was.
pub proof fn lemma_stream_event_isolated(streams: Seq<StreamState>, i: int, e: StreamEvent)
    requires
        0 <= i < streams.len(),
    ensures
        spec_deliver(streams, i, e).0.len() == streams.len(),
        forall|j: int|
            0 <= j < streams.len() && j != i ==> spec_deliver(streams, i, e).0[j] == streams[j],
{
}

/// Law (isolation of decode failures): a decode failure on one stream
/// abandons that stream alone. Every other stream of the connection is
/// untouched, and the resulting action neither closes the connection nor
/// signals shutdown.
pub proof fn lemma_decode_failure_isolated(streams: Seq<StreamState>, i: int, body: Seq<u8>)
    requires
        0 <= i < streams.len(),
        streams[i] is AwaitingRequest,
        spec_decode(body) is None,
    ensures
        spec_deliver(streams, i, StreamEvent::BodyRead { body }).1 == StreamAction::AbandonStream,
        forall|j: int|
            0 <= j < streams.len() && j != i ==> spec_deliver(
                streams,
                i,
                StreamEvent::BodyRead { body },
            ).0[j] == streams[j],
{
}

/// The responses of the server to a batch of concurrent sessions, one per
/// session, each a function of that session's own request alone.
pub open spec fn spec_session_responses(requests: Seq<Seq<u8>>) -> Seq<
    Result<Seq<u8>, ProtocolError>,
> {
    requests.map_values(|request: Seq<u8>| spec_server_response(request))
}

/// Law (no cross-talk): each of any number of concurrent sessions receives
/// exactly the response determined by its own request; what the other
/// sessions send has no influence on it.
pub proof fn lemma_no_cross_talk(requests1: Seq<Seq<u8>>, requests2: Seq<Seq<u8>>, i: int)
    requires
        0 <= i < requests1.len(),
        0 <= i < requests2.len(),
        requests1[i] == requests2[i],
    ensures
        spec_session_responses(requests1)[i] == spec_server_response(requests1[i]),
        spec_session_responses(requests1)[i] == spec_session_responses(requests2)[i],
{
}

} // verus!
