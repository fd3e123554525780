use ft::file_transfer::receive::{ReceiveAction, ReceiveError, Receiver};
use ft::file_transfer::send::{
    chunk_message, complete_message, on_read, on_response, AckOutcome, SendStep, CHUNK_SIZE,
};
use ft::network::client::{
    build_request, request_message, request_outcome, ClientHandshake, HandshakeError, RequestOutcome,
};
use ft::network::listener::{Connection, ConnectionAction};
use ft::protocol::{Message, MessageType};
use ft::security::{calculate_file_hash, encrypt, SecurityError};

/// Runs a key exchange between a client and a connection, then a request, and returns the
/// key each side holds.
fn agree(conn: &mut Connection) -> ([u8; 32], [u8; 32]) {
    let (handshake, hello) = ClientHandshake::start().unwrap();
    let reply = match conn.on_message(hello) {
        ConnectionAction::Reply(reply) => reply,
        other => panic!("unexpected action: {:?}", other),
    };
    let client_key = handshake.finish(reply).unwrap();
    let request = request_message(Some("f.txt".to_string()), 5, "h".to_string());
    match conn.on_message(request) {
        ConnectionAction::Receive { reply, file_name, size, hash, key } => {
            assert_eq!(reply, Message::new(MessageType::Accept));
            assert_eq!(file_name, "f.txt");
            assert_eq!(size, 5);
            assert_eq!(hash, "h");
            (client_key, key)
        }
        other => panic!("unexpected action: {:?}", other),
    }
}

#[test]
fn test_key_exchange() {
    let mut conn = Connection::new();
    let (client_key, server_key) = agree(&mut conn);
    assert_eq!(client_key, server_key);
}

#[test]
fn fresh_exchanges_give_fresh_keys() {
    let mut conn = Connection::new();
    let (first, _) = agree(&mut conn);
    let (second, server_second) = agree(&mut conn);
    assert_eq!(second, server_second);
    assert_ne!(first, second);
}

#[test]
fn handshake_start_sends_public_key() {
    let (_, hello) = ClientHandshake::start().unwrap();
    assert_eq!(hello.version, 1);
    assert!(matches!(hello.msg_type, MessageType::KeyExchange { .. }));
}

#[test]
fn handshake_refuses_other_answers() {
    let (handshake, _) = ClientHandshake::start().unwrap();
    let res = handshake.finish(Message::new(MessageType::Accept));
    assert!(matches!(res, Err(HandshakeError::ExpectedKeyExchange)));
}

#[test]
fn request_before_exchange_uses_zero_key() {
    let mut conn = Connection::new();
    match conn.on_message(request_message(None, 0, String::new())) {
        ConnectionAction::Receive { key, file_name, .. } => {
            assert_eq!(key, [0u8; 32]);
            assert_eq!(file_name, "unknown");
        }
        other => panic!("unexpected action: {:?}", other),
    }
}

#[test]
fn connection_closes_on_cancel_and_ignores_others() {
    let mut conn = Connection::new();
    assert!(matches!(conn.on_message(Message::new(MessageType::Cancel)), ConnectionAction::Close));
    assert!(matches!(conn.on_message(Message::new(MessageType::Complete)), ConnectionAction::Ignore));
    assert!(matches!(
        conn.on_message(Message::new(MessageType::Ack { offset: 3 })),
        ConnectionAction::Ignore
    ));
}

#[test]
fn request_names_last_path_component() {
    let msg = build_request("/tmp/some/dir/send.txt", 42, "abc".to_string());
    assert_eq!(
        msg,
        Message::new(MessageType::Request {
            file_name: "send.txt".to_string(),
            size: 42,
            hash: "abc".to_string()
        })
    );
    let msg = build_request("/", 1, "x".to_string());
    assert!(matches!(msg.msg_type, MessageType::Request { ref file_name, .. } if file_name == "unknown"));
}

#[test]
fn request_outcomes() {
    assert!(matches!(request_outcome(Message::new(MessageType::Accept)), RequestOutcome::Accepted));
    assert!(matches!(request_outcome(Message::new(MessageType::Reject)), RequestOutcome::Rejected));
    match request_outcome(Message::new(MessageType::Cancel)) {
        RequestOutcome::Unexpected(other) => assert_eq!(other, MessageType::Cancel),
        other => panic!("unexpected: {:?}", other),
    }
}

#[test]
fn chunk_is_acknowledged_and_delivered() {
    let key = [3u8; 32];
    let chunk = b"Hello, world!";
    let msg = chunk_message(chunk, &key, 100).unwrap();
    let mut receiver = Receiver::new(calculate_file_hash(chunk));
    let ack = match receiver.on_message(msg, &key).unwrap() {
        ReceiveAction::Write { plaintext, ack } => {
            assert_eq!(plaintext, chunk.to_vec());
            ack
        }
        other => panic!("unexpected action: {:?}", other),
    };
    assert_eq!(ack, Message::new(MessageType::Ack { offset: 113 }));
    assert_eq!(receiver.received_bytes(), 13);
    assert_eq!(on_response(100, chunk.len(), ack), AckOutcome::Continue(113));
}

#[test]
fn receiver_counts_all_chunks() {
    let key = [4u8; 32];
    let mut receiver = Receiver::new(calculate_file_hash(b"abcdefgh"));
    let mut offset = 0u64;
    for chunk in [&b"abc"[..], &b""[..], &b"defgh"[..]] {
        let msg = chunk_message(chunk, &key, offset).unwrap();
        match receiver.on_message(msg, &key).unwrap() {
            ReceiveAction::Write { ack, .. } => match on_response(offset, chunk.len(), ack) {
                AckOutcome::Continue(next) => offset = next,
                other => panic!("unexpected: {:?}", other),
            },
            other => panic!("unexpected action: {:?}", other),
        }
    }
    assert_eq!(offset, 8);
    assert_eq!(receiver.received_bytes(), 8);
    assert!(matches!(
        receiver.on_message(complete_message(), &key).unwrap(),
        ReceiveAction::Finished
    ));
}

#[test]
fn receiver_refuses_wrong_key_and_strangers() {
    let mut receiver = Receiver::new(String::new());
    let msg = chunk_message(b"data", &[1u8; 32], 0).unwrap();
    assert!(matches!(
        receiver.on_message(msg, &[2u8; 32]),
        Err(ReceiveError::Decryption(SecurityError::DecryptionFailed))
    ));
    let short = Message::new(MessageType::Chunk { offset: 0, data: vec![1, 2, 3] });
    assert!(matches!(
        receiver.on_message(short, &[2u8; 32]),
        Err(ReceiveError::Decryption(SecurityError::InvalidDataLength))
    ));
    match receiver.on_message(Message::new(MessageType::Accept), &[2u8; 32]) {
        Err(ReceiveError::Unexpected(other)) => assert_eq!(other, MessageType::Accept),
        other => panic!("unexpected: {:?}", other),
    }
    assert!(matches!(
        receiver.on_message(Message::new(MessageType::Cancel), &[2u8; 32]),
        Ok(ReceiveAction::Cancelled)
    ));
    assert_eq!(receiver.received_bytes(), 0);
}

#[test]
fn receiver_refuses_overflowing_offset() {
    let key = [5u8; 32];
    let data = encrypt(b"xy", &key).unwrap();
    let msg = Message::new(MessageType::Chunk { offset: u64::MAX - 1, data });
    let mut receiver = Receiver::new(String::new());
    assert!(matches!(receiver.on_message(msg, &key), Err(ReceiveError::CountOverflow)));
}

#[test]
fn sender_reads_answers() {
    assert_eq!(
        on_response(10, 5, Message::new(MessageType::Ack { offset: 16 })),
        AckOutcome::OffsetMismatch { expected: 15, got: 16 }
    );
    assert_eq!(on_response(10, 5, Message::new(MessageType::Cancel)), AckOutcome::Cancelled);
    assert_eq!(
        on_response(u64::MAX, 5, Message::new(MessageType::Reject)),
        AckOutcome::Unexpected(MessageType::Reject)
    );
    assert_eq!(CHUNK_SIZE, 262_144);
    assert_eq!(complete_message(), Message::new(MessageType::Complete));
}

#[test]
fn completion_with_wrong_digest_is_refused() {
    let key = [6u8; 32];
    let announced = calculate_file_hash(b"Hello, world!");
    let mut receiver = Receiver::new(announced.clone());
    let msg = chunk_message(b"Hello, world?", &key, 0).unwrap();
    assert!(matches!(receiver.on_message(msg, &key), Ok(ReceiveAction::Write { .. })));
    match receiver.on_message(complete_message(), &key) {
        Err(ReceiveError::IntegrityMismatch { expected, actual }) => {
            assert_eq!(expected, announced);
            assert_eq!(actual, calculate_file_hash(b"Hello, world?"));
        }
        other => panic!("unexpected: {:?}", other),
    }
}

#[test]
fn empty_transfer_checks_digest_of_nothing() {
    let key = [6u8; 32];
    let mut receiver = Receiver::new(
        "e3b0c44298fc1c149afbf4c8996fb92427ae41e4649b934ca495991b7852b855".to_string(),
    );
    assert!(matches!(receiver.on_message(complete_message(), &key), Ok(ReceiveAction::Finished)));
    let mut other = Receiver::new("abc123".to_string());
    assert!(matches!(
        other.on_message(complete_message(), &key),
        Err(ReceiveError::IntegrityMismatch { .. })
    ));
}

#[test]
fn request_hash_reaches_the_receiver_check() {
    let key = [8u8; 32];
    let contents = b"Hello, this is a secure P2P file transfer test!";
    let mut conn = Connection::new();
    let request = request_message(Some("send.txt".to_string()), contents.len() as u64, calculate_file_hash(contents));
    let hash = match conn.on_message(request) {
        ConnectionAction::Receive { hash, .. } => hash,
        other => panic!("unexpected action: {:?}", other),
    };
    let mut receiver = Receiver::new(hash);
    let (first, second) = contents.split_at(20);
    for (offset, chunk) in [(0u64, first), (20u64, second)] {
        let msg = chunk_message(chunk, &key, offset).unwrap();
        assert!(matches!(receiver.on_message(msg, &key), Ok(ReceiveAction::Write { .. })));
    }
    assert!(matches!(receiver.on_message(complete_message(), &key), Ok(ReceiveAction::Finished)));
}

#[test]
fn empty_read_finishes_and_other_reads_send() {
    let key = [9u8; 32];
    match on_read(b"", &key, 7).unwrap() {
        SendStep::Finish(m) => assert_eq!(m, Message::new(MessageType::Complete)),
        other => panic!("unexpected: {:?}", other),
    }
    match on_read(b"abc", &key, 7).unwrap() {
        SendStep::Send(m) => match m.msg_type {
            MessageType::Chunk { offset, data } => {
                assert_eq!(offset, 7);
                assert_eq!(data.len(), 12 + 3 + 16);
            }
            other => panic!("unexpected: {:?}", other),
        },
        other => panic!("unexpected: {:?}", other),
    }
}

#[test]
fn request_from_empty_path_is_unknown() {
    let msg = build_request("", 0, String::new());
    assert!(matches!(msg.msg_type, MessageType::Request { ref file_name, .. } if file_name == "unknown"));
    let msg = build_request("send.txt", 3, "h".to_string());
    assert!(matches!(msg.msg_type, MessageType::Request { ref file_name, .. } if file_name == "send.txt"));
}
