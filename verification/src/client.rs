//! The client session: one connection, one stream, one request, one full
//! response. The session's decisions are a state machine; the surrounding I/O
//! layer performs each returned action and reports its outcome back as the
//! next event. Every failure surfaces under a clear category; a partial
//! response is never silently dropped.

use vstd::prelude::*;

use crate::message::Message;
use crate::message::spec_decode;

verus! {

/// The failure category a session reports: which step of the exchange failed.
#[derive(Clone, Copy, Debug, PartialEq, Eq, Structural)]
pub enum SessionError {
    /// Establishing the connection failed (including identity validation).
    ConnectFailed,
    /// Opening the bidirectional stream failed.
    OpenStreamFailed,
    /// Writing the request or half-closing the write side failed.
    SendFailed,
    /// Reading the response to completion failed (including the size cap).
    ReceiveFailed,
    /// The response body was not a valid wire token.
    InvalidResponse,
}

/// The states of one client session, in the order a successful session
/// passes through them.
#[derive(Clone, Copy, Debug, PartialEq, Eq, Structural)]
pub enum ClientState {
    /// Establishing the connection, pinned to the one trusted certificate.
    Connecting { message: Message },
    /// Opening the single bidirectional stream.
    OpeningStream { message: Message },
    /// Writing the encoded request and half-closing the write side.
    SendingRequest { message: Message },
    /// Reading the full response, bounded by the configured maximum size.
    AwaitingResponse { message: Message },
    /// The response decoded; closing the connection, then a bounded grace
    /// wait so the peer can observe the close.
    ClosingConnection { response: Message },
    /// The session succeeded with the decoded response.
    Finished { response: Message },
    /// The session failed, under exactly one category.
    Failed { error: SessionError },
}

/// What the I/O layer must do next for this session.
#[derive(Clone, Copy, Debug, PartialEq, Eq, Structural)]
pub enum ClientAction {
    /// Connect to the server, trusting the pinned certificate.
    Connect,
    /// Open one bidirectional stream on the connection.
    OpenStream,
    /// Encode `message`, write it, and half-close the write side.
    SendRequest { message: Message },
    /// Read the response body to completion under the size cap.
    ReadResponse,
    /// Close the connection, then wait out the grace period.
    CloseConnection,
    /// Report the failure to the caller.
    ReportFailure { error: SessionError },
    /// Nothing to do.
    Idle,
}

/// The step taken when the connection was established.
pub open spec fn spec_on_connected(s: ClientState) -> (ClientState, ClientAction) {
    match s {
        ClientState::Connecting { message } => (
            ClientState::OpeningStream { message },
            ClientAction::OpenStream,
        ),
        _ => (s, ClientAction::Idle),
    }
}

/// The step taken when connecting failed.
pub open spec fn spec_on_connect_failed(s: ClientState) -> (ClientState, ClientAction) {
    match s {
        ClientState::Connecting { .. } => (
            ClientState::Failed { error: SessionError::ConnectFailed },
            ClientAction::ReportFailure { error: SessionError::ConnectFailed },
        ),
        _ => (s, ClientAction::Idle),
    }
}

/// The step taken when the stream was opened.
pub open spec fn spec_on_stream_opened(s: ClientState) -> (ClientState, ClientAction) {
    match s {
        ClientState::OpeningStream { message } => (
            ClientState::SendingRequest { message },
            ClientAction::SendRequest { message },
        ),
        _ => (s, ClientAction::Idle),
    }
}

/// The step taken when opening the stream failed.
pub open spec fn spec_on_stream_open_failed(s: ClientState) -> (ClientState, ClientAction) {
    match s {
        ClientState::OpeningStream { .. } => (
            ClientState::Failed { error: SessionError::OpenStreamFailed },
            ClientAction::ReportFailure { error: SessionError::OpenStreamFailed },
        ),
        _ => (s, ClientAction::Idle),
    }
}

/// The step taken when the request was fully written and half-closed.
pub open spec fn spec_on_request_sent(s: ClientState) -> (ClientState, ClientAction) {
    match s {
        ClientState::SendingRequest { message } => (
            ClientState::AwaitingResponse { message },
            ClientAction::ReadResponse,
        ),
        _ => (s, ClientAction::Idle),
    }
}

/// The step taken when writing or half-closing failed.
pub open spec fn spec_on_send_failed(s: ClientState) -> (ClientState, ClientAction) {
    match s {
        ClientState::SendingRequest { .. } => (
            ClientState::Failed { error: SessionError::SendFailed },
            ClientAction::ReportFailure { error: SessionError::SendFailed },
        ),
        _ => (s, ClientAction::Idle),
    }
}

/// The step taken when the response body was read to completion: a valid
/// token moves the session on to closing; anything else is an invalid
/// response. A partial or undecodable response is never passed off as
/// success.
pub open spec fn spec_on_response_body(s: ClientState, body: Seq<u8>) -> (
    ClientState,
    ClientAction,
) {
    match s {
        ClientState::AwaitingResponse { .. } => match spec_decode(body) {
            Some(response) => (
                ClientState::ClosingConnection { response },
                ClientAction::CloseConnection,
            ),
            None => (
                ClientState::Failed { error: SessionError::InvalidResponse },
                ClientAction::ReportFailure { error: SessionError::InvalidResponse },
            ),
        },
        _ => (s, ClientAction::Idle),
    }
}

/// The step taken when reading the response failed, the size cap included.
pub open spec fn spec_on_receive_failed(s: ClientState) -> (ClientState, ClientAction) {
    match s {
        ClientState::AwaitingResponse { .. } => (
            ClientState::Failed { error: SessionError::ReceiveFailed },
            ClientAction::ReportFailure { error: SessionError::ReceiveFailed },
        ),
        _ => (s, ClientAction::Idle),
    }
}

/// The step taken when the close and the grace wait completed.
pub open spec fn spec_on_connection_closed(s: ClientState) -> (ClientState, ClientAction) {
    match s {
        ClientState::ClosingConnection { response } => (
            ClientState::Finished { response },
            ClientAction::Idle,
        ),
        _ => (s, ClientAction::Idle),
    }
}

/// Begin a session that will send `message`.
pub fn start_session(message: Message) -> (r: (ClientState, ClientAction))
    ensures
        r == (ClientState::Connecting { message }, ClientAction::Connect),
{
    (ClientState::Connecting { message }, ClientAction::Connect)
}

/// Step the session when the connection was established.
pub fn on_connected(state: ClientState) -> (r: (ClientState, ClientAction))
    ensures
        r == spec_on_connected(state),
{
    match state {
        ClientState::Connecting { message } => (
            ClientState::OpeningStream { message },
            ClientAction::OpenStream,
        ),
        _ => (state, ClientAction::Idle),
    }
}

/// Step the session when connecting failed.
pub fn on_connect_failed(state: ClientState) -> (r: (ClientState, ClientAction))
    ensures
        r == spec_on_connect_failed(state),
{
    match state {
        ClientState::Connecting { message: _ } => (
            ClientState::Failed { error: SessionError::ConnectFailed },
            ClientAction::ReportFailure { error: SessionError::ConnectFailed },
        ),
        _ => (state, ClientAction::Idle),
    }
}

/// Step the session when the stream was opened.
pub fn on_stream_opened(state: ClientState) -> (r: (ClientState, ClientAction))
    ensures
        r == spec_on_stream_opened(state),
{
    match state {
        ClientState::OpeningStream { message } => (
            ClientState::SendingRequest { message },
            ClientAction::SendRequest { message },
        ),
        _ => (state, ClientAction::Idle),
    }
}

/// Step the session when opening the stream failed.
pub fn on_stream_open_failed(state: ClientState) -> (r: (ClientState, ClientAction))
    ensures
        r == spec_on_stream_open_failed(state),
{
    match state {
        ClientState::OpeningStream { message: _ } => (
            ClientState::Failed { error: SessionError::OpenStreamFailed },
            ClientAction::ReportFailure { error: SessionError::OpenStreamFailed },
        ),
        _ => (state, ClientAction::Idle),
    }
}

/// Step the session when the request was fully written and half-closed.
pub fn on_request_sent(state: ClientState) -> (r: (ClientState, ClientAction))
    ensures
        r == spec_on_request_sent(state),
{
    match state {
        ClientState::SendingRequest { message } => (
            ClientState::AwaitingResponse { message },
            ClientAction::ReadResponse,
        ),
        _ => (state, ClientAction::Idle),
    }
}

/// Step the session when writing or half-closing failed.
pub fn on_send_failed(state: ClientState) -> (r: (ClientState, ClientAction))
    ensures
        r == spec_on_send_failed(state),
{
    match state {
        ClientState::SendingRequest { message: _ } => (
            ClientState::Failed { error: SessionError::SendFailed },
            ClientAction::ReportFailure { error: SessionError::SendFailed },
        ),
        _ => (state, ClientAction::Idle),
    }
}

/// Step the session on the completely read response body.
pub fn on_response_body(state: ClientState, body: &Vec<u8>) -> (r: (ClientState, ClientAction))
    ensures
        r == spec_on_response_body(state, body@),
{
    match state {
        ClientState::AwaitingResponse { message: _ } => match Message::decode(body) {
            Ok(response) => (
                ClientState::ClosingConnection { response },
                ClientAction::CloseConnection,
            ),
            Err(_) => (
                ClientState::Failed { error: SessionError::InvalidResponse },
                ClientAction::ReportFailure { error: SessionError::InvalidResponse },
            ),
        },
        _ => (state, ClientAction::Idle),
    }
}

/// Step the session when reading the response failed.
pub fn on_receive_failed(state: ClientState) -> (r: (ClientState, ClientAction))
    ensures
        r == spec_on_receive_failed(state),
{
    match state {
        ClientState::AwaitingResponse { message: _ } => (
            ClientState::Failed { error: SessionError::ReceiveFailed },
            ClientAction::ReportFailure { error: SessionError::ReceiveFailed },
        ),
        _ => (state, ClientAction::Idle),
    }
}

/// Step the session when the close and grace wait completed.
pub fn on_connection_closed(state: ClientState) -> (r: (ClientState, ClientAction))
    ensures
        r == spec_on_connection_closed(state),
{
    match state {
        ClientState::ClosingConnection { response } => (
            ClientState::Finished { response },
            ClientAction::Idle,
        ),
        _ => (state, ClientAction::Idle),
    }
}

/// Law: a session only ever finishes with a response that the received body
/// actually decoded to; success can never be reported for a body that is not
/// a valid wire token.
pub proof fn lemma_finished_means_decoded(s: ClientState, body: Seq<u8>)
    ensures
        spec_on_response_body(s, body).0 matches ClientState::ClosingConnection { response } ==> (
        spec_decode(body) == Some(response) || s == (ClientState::ClosingConnection { response })),
        (s is AwaitingResponse && spec_decode(body) is None) ==> spec_on_response_body(s, body).0
            == (ClientState::Failed { error: SessionError::InvalidResponse }),
{
}

} // verus!
