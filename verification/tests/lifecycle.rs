use quic_echo::client::start_session;
use quic_echo::client::on_connected;
use quic_echo::client::on_connect_failed;
use quic_echo::client::on_connection_closed;
use quic_echo::client::on_receive_failed;
use quic_echo::client::on_request_sent;
use quic_echo::client::on_response_body;
use quic_echo::client::on_send_failed;
use quic_echo::client::on_stream_open_failed;
use quic_echo::client::on_stream_opened;
use quic_echo::client::ClientAction;
use quic_echo::client::ClientState;
use quic_echo::client::SessionError;
use quic_echo::dispatch::acceptor_start;
use quic_echo::dispatch::dispatch_step;
use quic_echo::dispatch::on_handshake_failed;
use quic_echo::dispatch::on_incoming_connection;
use quic_echo::dispatch::on_shutdown_requested;
use quic_echo::dispatch::AcceptorAction;
use quic_echo::dispatch::DispatchAction;
use quic_echo::dispatch::StreamAcceptOutcome;
use quic_echo::handler::on_finish_completed;
use quic_echo::handler::on_request_body;
use quic_echo::handler::on_transport_failure;
use quic_echo::handler::on_write_completed;
use quic_echo::handler::StreamAction;
use quic_echo::handler::StreamState;
use quic_echo::identity::Identity;
use quic_echo::identity::IdentityError;
use quic_echo::identity::issue_self_signed;
use quic_echo::message::Message;

#[test]
fn stream_walks_hello_exchange_without_shutdown() {
    let (s, a) = on_request_body(StreamState::AwaitingRequest, &vec![b'0']);
    assert_eq!(
        a,
        StreamAction::WriteResponse {
            message: Message::Hello
        }
    );
    let (s, a) = on_write_completed(s);
    assert_eq!(a, StreamAction::FinishStream);
    let (s, a) = on_finish_completed(s);
    assert_eq!(a, StreamAction::Idle);
    assert_eq!(
        s,
        StreamState::Completed {
            shutdown_signaled: false
        }
    );
}

#[test]
fn shutdown_signal_comes_only_after_response_and_half_close() {
    let (s, a) = on_request_body(StreamState::AwaitingRequest, &vec![b'1']);
    assert_eq!(
        a,
        StreamAction::WriteResponse {
            message: Message::Shutdown
        }
    );
    assert!(!matches!(a, StreamAction::SignalShutdown));
    let (s, a) = on_write_completed(s);
    assert_eq!(a, StreamAction::FinishStream);
    assert!(!matches!(a, StreamAction::SignalShutdown));
    let (s, a) = on_finish_completed(s);
    assert_eq!(a, StreamAction::SignalShutdown);
    assert_eq!(
        s,
        StreamState::Completed {
            shutdown_signaled: true
        }
    );
}

#[test]
fn decode_failure_abandons_only_its_own_stream() {
    let mut streams = vec![
        StreamState::AwaitingRequest,
        StreamState::AwaitingRequest,
        StreamState::WritingResponse {
            message: Message::Hello,
        },
    ];
    let (failed, action) = on_request_body(streams[1], &b"garbage".to_vec());
    streams[1] = failed;
    assert_eq!(action, StreamAction::AbandonStream);
    assert_eq!(streams[1], StreamState::Failed);
    // the other streams of the connection are exactly as they were
    assert_eq!(streams[0], StreamState::AwaitingRequest);
    assert_eq!(
        streams[2],
        StreamState::WritingResponse {
            message: Message::Hello
        }
    );
    // and the connection's dispatcher keeps accepting streams
    assert_eq!(
        dispatch_step(StreamAcceptOutcome::Opened),
        DispatchAction::SpawnRequestHandler
    );
}

#[test]
fn transport_failure_on_a_stream_never_signals_shutdown() {
    let (s, a) = on_transport_failure(StreamState::WritingResponse {
        message: Message::Shutdown,
    });
    assert_eq!(s, StreamState::Failed);
    assert_eq!(a, StreamAction::AbandonStream);
}

#[test]
fn dispatcher_stops_cleanly_when_peer_closes() {
    assert_eq!(
        dispatch_step(StreamAcceptOutcome::ClosedByPeer),
        DispatchAction::StopClean
    );
    assert_eq!(
        dispatch_step(StreamAcceptOutcome::TransportError),
        DispatchAction::StopWithError
    );
}

#[test]
fn acceptor_survives_failed_handshakes_and_stops_on_shutdown() {
    let acceptor = acceptor_start();
    assert!(acceptor.accepting);
    let (acceptor, a) = on_incoming_connection(acceptor);
    assert_eq!(a, AcceptorAction::SpawnConnectionHandler);
    let (acceptor, a) = on_handshake_failed(acceptor);
    assert_eq!(a, AcceptorAction::ContinueAccepting);
    assert!(acceptor.accepting);
    let (acceptor, a) = on_shutdown_requested(acceptor);
    assert_eq!(a, AcceptorAction::StopAccepting);
    assert!(!acceptor.accepting);
    let (_, a) = on_incoming_connection(acceptor);
    assert_eq!(a, AcceptorAction::RefuseConnection);
}

#[test]
fn client_session_walks_hello_exchange() {
    let (s, a) = start_session(Message::Hello);
    assert_eq!(a, ClientAction::Connect);
    let (s, a) = on_connected(s);
    assert_eq!(a, ClientAction::OpenStream);
    let (s, a) = on_stream_opened(s);
    assert_eq!(
        a,
        ClientAction::SendRequest {
            message: Message::Hello
        }
    );
    let (s, a) = on_request_sent(s);
    assert_eq!(a, ClientAction::ReadResponse);
    // the server echoes the request
    let (s, a) = on_response_body(s, &Message::Hello.encode());
    assert_eq!(a, ClientAction::CloseConnection);
    let (s, a) = on_connection_closed(s);
    assert_eq!(a, ClientAction::Idle);
    assert_eq!(
        s,
        ClientState::Finished {
            response: Message::Hello
        }
    );
}

#[test]
fn client_reports_each_failure_under_its_own_category() {
    let (connecting, _) = start_session(Message::Hello);
    let (s, a) = on_connect_failed(connecting);
    assert_eq!(
        s,
        ClientState::Failed {
            error: SessionError::ConnectFailed
        }
    );
    assert_eq!(
        a,
        ClientAction::ReportFailure {
            error: SessionError::ConnectFailed
        }
    );

    let (opening, _) = on_connected(connecting);
    let (s, _) = on_stream_open_failed(opening);
    assert_eq!(
        s,
        ClientState::Failed {
            error: SessionError::OpenStreamFailed
        }
    );

    let (sending, _) = on_stream_opened(opening);
    let (s, _) = on_send_failed(sending);
    assert_eq!(
        s,
        ClientState::Failed {
            error: SessionError::SendFailed
        }
    );

    let (awaiting, _) = on_request_sent(sending);
    let (s, _) = on_receive_failed(awaiting);
    assert_eq!(
        s,
        ClientState::Failed {
            error: SessionError::ReceiveFailed
        }
    );

    let (s, _) = on_response_body(awaiting, &b"junk".to_vec());
    assert_eq!(
        s,
        ClientState::Failed {
            error: SessionError::InvalidResponse
        }
    );
}

#[test]
fn end_to_end_hello_then_shutdown_scenario() {
    // ten clients say hello; the server echoes each
    let acceptor = acceptor_start();
    for _ in 0..10 {
        let (_, a) = on_incoming_connection(acceptor);
        assert_eq!(a, AcceptorAction::SpawnConnectionHandler);
        let (s, a) = on_request_body(StreamState::AwaitingRequest, &Message::Hello.encode());
        assert_eq!(
            a,
            StreamAction::WriteResponse {
                message: Message::Hello
            }
        );
        let (s, _) = on_write_completed(s);
        let (_, a) = on_finish_completed(s);
        assert_eq!(a, StreamAction::Idle);
    }
    // one client sends shutdown; the response is finished before the signal
    let (s, a) = on_request_body(StreamState::AwaitingRequest, &Message::Shutdown.encode());
    assert_eq!(
        a,
        StreamAction::WriteResponse {
            message: Message::Shutdown
        }
    );
    let (s, a) = on_write_completed(s);
    assert_eq!(a, StreamAction::FinishStream);
    let (_, a) = on_finish_completed(s);
    assert_eq!(a, StreamAction::SignalShutdown);
    // the signal stops the acceptor; new connections are refused
    let (acceptor, _) = on_shutdown_requested(acceptor);
    let (_, a) = on_incoming_connection(acceptor);
    assert_eq!(a, AcceptorAction::RefuseConnection);
}

#[test]
fn identity_holds_the_bytes_it_was_given() {
    let identity = Identity::new(vec![1, 2, 3], vec![4, 5]);
    assert_eq!(identity.certificate_der(), &vec![1, 2, 3]);
    assert_eq!(identity.private_key_der(), &vec![4, 5]);
}

#[test]
fn issue_self_signed_produces_an_identity() {
    let identity = issue_self_signed(String::from("localhost")).unwrap();
    assert!(!identity.certificate_der().is_empty());
    assert!(!identity.private_key_der().is_empty());
}

#[test]
fn issue_self_signed_rejects_a_subject_that_is_not_ascii() {
    let result = issue_self_signed(String::from("caf\u{e9}.example"));
    assert!(matches!(result, Err(IdentityError::GenerationFailed)));
}
