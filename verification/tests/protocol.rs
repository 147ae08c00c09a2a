use quic_echo::body::append_chunk;
use quic_echo::body::read_body;
use quic_echo::body::BUFFER_SIZE;
use quic_echo::handler::handle_request_bytes;
use quic_echo::message::Message;
use quic_echo::message::ProtocolError;

#[test]
fn encode_hello_is_ascii_zero() {
    assert_eq!(Message::Hello.encode(), vec![b'0']);
}

#[test]
fn encode_shutdown_is_ascii_one() {
    assert_eq!(Message::Shutdown.encode(), vec![b'1']);
}

#[test]
fn round_trip_hello() {
    let wire = Message::Hello.encode();
    assert_eq!(Message::decode(&wire), Ok(Message::Hello));
}

#[test]
fn round_trip_shutdown() {
    let wire = Message::Shutdown.encode();
    assert_eq!(Message::decode(&wire), Ok(Message::Shutdown));
}

#[test]
fn decode_rejects_everything_else() {
    let invalid: Vec<Vec<u8>> = vec![
        vec![],
        vec![b'2'],
        vec![b'a'],
        vec![0u8],
        vec![b'0', b'0'],
        vec![b'0', b'1'],
        vec![b'1', b'\n'],
        b"hello".to_vec(),
        vec![b'0'; 100],
    ];
    for body in invalid {
        assert_eq!(Message::decode(&body), Err(ProtocolError::InvalidMessage));
    }
}

#[test]
fn handler_echoes_hello() {
    let request = vec![b'0'];
    let response = handle_request_bytes(&request).unwrap();
    assert_eq!(response.body, request);
    assert!(!response.initiate_shutdown);
}

#[test]
fn handler_echoes_shutdown_and_requests_shutdown() {
    let request = vec![b'1'];
    let response = handle_request_bytes(&request).unwrap();
    assert_eq!(response.body, request);
    assert!(response.initiate_shutdown);
}

#[test]
fn handler_rejects_invalid_request() {
    let request = vec![b'7'];
    assert_eq!(
        handle_request_bytes(&request).unwrap_err(),
        ProtocolError::InvalidMessage
    );
}

#[test]
fn concurrent_requests_get_their_own_responses() {
    let requests: Vec<Vec<u8>> = (0..32)
        .map(|i| if i % 2 == 0 { vec![b'0'] } else { vec![b'1'] })
        .collect();
    for request in &requests {
        let response = handle_request_bytes(request).unwrap();
        assert_eq!(&response.body, request);
    }
}

#[test]
fn body_at_exactly_maximum_size_succeeds() {
    let chunks = vec![vec![b'x'; BUFFER_SIZE]];
    let body = read_body(&chunks, BUFFER_SIZE).unwrap();
    assert_eq!(body.len(), BUFFER_SIZE);
}

#[test]
fn body_one_byte_over_maximum_fails_bounded() {
    let chunks = vec![vec![b'x'; BUFFER_SIZE], vec![b'x']];
    assert_eq!(
        read_body(&chunks, BUFFER_SIZE),
        Err(ProtocolError::OversizedBody)
    );
}

#[test]
fn oversize_reported_as_soon_as_a_chunk_crosses_the_cap() {
    let chunks = vec![vec![b'a'; 600], vec![b'b'; 600], vec![b'c'; 600]];
    assert_eq!(read_body(&chunks, 1024), Err(ProtocolError::OversizedBody));
}

#[test]
fn read_body_assembles_chunks_in_order() {
    let chunks = vec![b"ab".to_vec(), b"".to_vec(), b"cde".to_vec()];
    assert_eq!(read_body(&chunks, 16).unwrap(), b"abcde".to_vec());
}

#[test]
fn append_chunk_keeps_body_unchanged_on_overflow() {
    let mut body = vec![b'q'; 10];
    let chunk = vec![b'r'; 7];
    assert_eq!(
        append_chunk(&mut body, &chunk, 16),
        Err(ProtocolError::OversizedBody)
    );
    assert_eq!(body, vec![b'q'; 10]);
    assert_eq!(append_chunk(&mut body, &chunk, 17), Ok(()));
    assert_eq!(body.len(), 17);
}
