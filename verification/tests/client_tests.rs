use hyper_connect::crypto::message_crypto::{decrypt_message, EncryptedMessagePayload};
use hyper_connect::crypto::session::{Keypair, Session};
use hyper_connect::network::client::{
    after_send, check_response_frame, text_message_frame, PoolDecision, SendAction, SendState,
    TcpClient, TextMessageError, TransportError, CONNECT_TIMEOUT_SECS, KEEPALIVE_INTERVAL_SECS,
    RECV_BUFFER_SIZE, SEND_BUFFER_SIZE,
};
use hyper_connect::protocol::{Frame, MessageType, ProtocolError};

fn session_pair() -> (Session, Session) {
    let kp1 = Keypair::generate();
    let kp2 = Keypair::generate();
    let public1 = kp1.public_bytes();
    let public2 = kp2.public_bytes();
    let session1 = Session::from_ecdh(kp1.secret, &public2).unwrap();
    let session2 = Session::from_ecdh(kp2.secret, &public1).unwrap();
    (session1, session2)
}

#[test]
fn test_client_creation() {
    let client = TcpClient::new();
    assert_eq!(client.connection_count(), 0);
}

#[test]
fn test_socket_optimization() {
    // Socket tuning needs a live TCP connection.
}

#[test]
fn socket_tuning_constants() {
    assert_eq!(CONNECT_TIMEOUT_SECS, 5);
    assert_eq!(KEEPALIVE_INTERVAL_SECS, 30);
    assert_eq!(SEND_BUFFER_SIZE, 4 * 1024 * 1024);
    assert_eq!(RECV_BUFFER_SIZE, 4 * 1024 * 1024);
}

#[test]
fn simultaneous_requests_dial_once() {
    let mut client = TcpClient::new();
    let mut dials = 0;
    let mut waits = 0;
    for _ in 0..10 {
        match client.get_connection("peer") {
            PoolDecision::Dial => dials += 1,
            PoolDecision::Wait => waits += 1,
            PoolDecision::Reuse => panic!("nothing is connected yet"),
        }
    }
    assert_eq!(dials, 1);
    assert_eq!(waits, 9);
    assert_eq!(client.connection_count(), 1);

    client.connection_established("peer", None);
    for _ in 0..10 {
        assert_eq!(client.get_connection("peer"), PoolDecision::Reuse);
    }
    assert_eq!(client.connection_count(), 1);
    // another device has its own dial
    assert_eq!(client.get_connection("other"), PoolDecision::Dial);
    assert_eq!(client.connection_count(), 2);
}

#[test]
fn a_failed_dial_frees_the_slot() {
    let mut client = TcpClient::new();
    assert_eq!(client.get_connection("peer"), PoolDecision::Dial);
    assert!(client.is_connected("peer"));
    client.connection_failed("peer");
    assert!(!client.is_connected("peer"));
    assert_eq!(client.get_connection("peer"), PoolDecision::Dial);
}

#[test]
fn send_is_retried_at_most_once() {
    assert_eq!(
        after_send(SendState::FirstAttempt, true),
        (SendState::Done, SendAction::Finished)
    );
    assert_eq!(
        after_send(SendState::FirstAttempt, false),
        (SendState::Retry, SendAction::EvictAndRetry)
    );
    assert_eq!(after_send(SendState::Retry, true), (SendState::Done, SendAction::Finished));
    assert_eq!(
        after_send(SendState::Retry, false),
        (SendState::Done, SendAction::GiveUp(TransportError::SendFailed))
    );
    assert_eq!(after_send(SendState::Done, false), (SendState::Done, SendAction::Nothing));
    assert_eq!(after_send(SendState::Done, true), (SendState::Done, SendAction::Nothing));
}

#[test]
fn pool_retry_on_stale_socket() {
    let (session, peer_session) = session_pair();
    let mut client = TcpClient::new();
    assert_eq!(client.get_connection("bob"), PoolDecision::Dial);
    client.connection_established("bob", Some(session));

    let frame = client.send_text_message("bob", b"{\"type\":\"TEXT_MESSAGE\"}".to_vec()).unwrap();
    assert_eq!(frame.message_type, MessageType::EncryptedMessage);

    // the write fails: the entry is evicted and the send goes on
    let (state, action) = client.send_frame("bob", SendState::FirstAttempt, false);
    assert_eq!(action, SendAction::EvictAndRetry);
    assert_eq!(state, SendState::Retry);
    assert!(!client.is_connected("bob"));

    // exactly one dial, and with it one handshake
    assert_eq!(client.get_connection("bob"), PoolDecision::Dial);
    assert_eq!(client.get_connection("bob"), PoolDecision::Wait);
    client.connection_established("bob", Some(session));
    assert_eq!(client.get_connection("bob"), PoolDecision::Reuse);

    // the second write succeeds
    let (state, action) = client.send_frame("bob", state, true);
    assert_eq!((state, action), (SendState::Done, SendAction::Finished));
    assert!(client.is_connected("bob"));

    let text = String::from_utf8(frame.payload).unwrap();
    let envelope = EncryptedMessagePayload::from_json(&text).unwrap();
    assert_eq!(decrypt_message(&peer_session, &envelope).unwrap(), "{\"type\":\"TEXT_MESSAGE\"}");
}

#[test]
fn a_second_failure_gives_up_and_keeps_the_pool() {
    let mut client = TcpClient::new();
    client.connection_established("bob", None);
    let (state, _) = client.send_frame("bob", SendState::FirstAttempt, false);
    client.connection_established("bob", None);
    let (state, action) = client.send_frame("bob", state, false);
    assert_eq!(state, SendState::Done);
    assert_eq!(action, SendAction::GiveUp(TransportError::SendFailed));
    assert!(client.is_connected("bob"));
}

#[test]
fn text_goes_plain_without_a_session() {
    let mut client = TcpClient::new();
    assert_eq!(
        client.send_text_message("bob", b"hi".to_vec()).unwrap_err(),
        TextMessageError::NotConnected
    );
    assert_eq!(client.get_connection("bob"), PoolDecision::Dial);
    assert_eq!(
        client.send_text_message("bob", b"hi".to_vec()).unwrap_err(),
        TextMessageError::NotConnected
    );
    client.connection_established("bob", None);
    assert!(client.session("bob").is_none());
    let frame = client.send_text_message("bob", vec![0xFF, 0x00]).unwrap();
    assert_eq!(frame.message_type, MessageType::TextMessage);
    assert_eq!(frame.payload, vec![0xFF, 0x00]);
}

#[test]
fn text_goes_encrypted_with_a_session() {
    let (session, peer_session) = session_pair();
    let frame = text_message_frame(Some(&session), b"hello".to_vec()).unwrap();
    assert_eq!(frame.message_type, MessageType::EncryptedMessage);
    let text = String::from_utf8(frame.payload).unwrap();
    assert!(!text.contains("hello"));
    let envelope = EncryptedMessagePayload::from_json(&text).unwrap();
    assert_eq!(decrypt_message(&peer_session, &envelope).unwrap(), "hello");

    assert_eq!(
        text_message_frame(Some(&session), vec![0xFF]).unwrap_err(),
        TextMessageError::InvalidUtf8
    );
    assert_eq!(
        text_message_frame(Some(&session), vec![b'x'; 1024 * 1024 + 1]).unwrap_err(),
        TextMessageError::MessageTooLarge
    );
    assert!(text_message_frame(Some(&session), vec![b'x'; 1024 * 1024]).is_ok());
}

#[test]
fn file_helpers_build_frames() {
    let p = vec![1u8, 2, 3];
    assert_eq!(TcpClient::send_file_request(p.clone()).message_type, MessageType::FileRequest);
    assert_eq!(TcpClient::send_file_data(p.clone()).message_type, MessageType::FileData);
    assert_eq!(TcpClient::send_file_ack(p.clone()).message_type, MessageType::FileAck);
    assert_eq!(TcpClient::send_file_complete(p.clone()).message_type, MessageType::FileComplete);
    assert_eq!(TcpClient::send_file_cancel(p.clone()).message_type, MessageType::FileCancel);
    assert_eq!(TcpClient::send_file_reject(p.clone()).message_type, MessageType::FileReject);
    assert_eq!(TcpClient::send_file_data(p.clone()).payload, p);
}

#[test]
fn closing_connections() {
    let mut client = TcpClient::new();
    client.connection_established("a", None);
    client.connection_established("b", None);
    assert_eq!(client.connection_count(), 2);
    assert!(client.close_connection("a"));
    assert!(!client.close_connection("a"));
    assert_eq!(client.connection_count(), 1);
    assert_eq!(client.close_all(), 1);
    assert_eq!(client.connection_count(), 0);
}

#[test]
fn only_a_hello_response_answers_a_secure_hello() {
    let ok = Frame::new(MessageType::HelloResponse, Vec::new());
    assert_eq!(check_response_frame(&ok), Ok(()));
    let wrong = Frame::new(MessageType::Hello, Vec::new());
    assert_eq!(check_response_frame(&wrong), Err(ProtocolError::UnexpectedMessageType));
}
