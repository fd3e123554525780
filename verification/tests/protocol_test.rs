use ft::network::io::payload_length;
use ft::protocol::{deserialize, serialize, Message, MessageType, ProtocolError, HEADER_SIZE, MAGIC};
use serde_json::Value;

/// The JSON text that the wire format gives a message (serde's externally tagged form).
fn message_json(msg: &Message) -> Vec<u8> {
    let msg_type = match &msg.msg_type {
        MessageType::Request { file_name, size, hash } => {
            let mut fields = serde_json::Map::new();
            fields.insert("file_name".to_string(), Value::String(file_name.clone()));
            fields.insert("size".to_string(), Value::from(*size));
            fields.insert("hash".to_string(), Value::String(hash.clone()));
            let mut tagged = serde_json::Map::new();
            tagged.insert("Request".to_string(), Value::Object(fields));
            Value::Object(tagged)
        }
        MessageType::Accept => Value::String("Accept".to_string()),
        other => panic!("not needed here: {:?}", other),
    };
    let mut obj = serde_json::Map::new();
    obj.insert("version".to_string(), Value::from(msg.version));
    obj.insert("msg_type".to_string(), msg_type);
    serde_json::to_vec(&Value::Object(obj)).unwrap()
}

#[test]
fn test_serialize_deserialize() {
    let msg = Message::new(MessageType::Request {
        file_name: "test.txt".to_string(),
        size: 1024,
        hash: "abc123".to_string(),
    });
    let json = message_json(&msg);
    let bytes = serialize(&json);
    let payload = deserialize(&bytes).unwrap();
    assert_eq!(payload, json);
    let value: Value = serde_json::from_slice(&payload).unwrap();
    assert_eq!(value["version"], Value::from(1u32));
    assert_eq!(value["msg_type"]["Request"]["file_name"], Value::from("test.txt"));
    assert_eq!(value["msg_type"]["Request"]["size"], Value::from(1024u64));
    assert_eq!(value["msg_type"]["Request"]["hash"], Value::from("abc123"));
}

#[test]
fn test_invalid_magic() {
    let mut bytes = serialize(&message_json(&Message::new(MessageType::Accept)));
    bytes[0] = b'X';
    assert!(matches!(deserialize(&bytes), Err(ProtocolError::InvalidMagic)));
}

#[test]
fn test_length_mismatch() {
    let mut bytes = serialize(&message_json(&Message::new(MessageType::Accept)));
    bytes.pop(); // Remove one byte from payload
    assert!(matches!(
        deserialize(&bytes),
        Err(ProtocolError::LengthMismatch { .. })
    ));
}

#[test]
fn message_new_sets_version_one() {
    let msg = Message::new(MessageType::Complete);
    assert_eq!(msg.version, 1);
    assert_eq!(msg.msg_type, MessageType::Complete);
}

#[test]
fn frame_layout_is_magic_length_payload() {
    let frame = serialize(b"hello");
    assert_eq!(&MAGIC, b"MAGIC");
    assert_eq!(HEADER_SIZE, 9);
    assert_eq!(frame, b"MAGIC\x00\x00\x00\x05hello".to_vec());
    let empty = serialize(b"");
    assert_eq!(empty, b"MAGIC\x00\x00\x00\x00".to_vec());
}

#[test]
fn frame_length_is_big_endian() {
    let payload = vec![7u8; 0x01_02_03];
    let frame = serialize(&payload);
    assert_eq!(&frame[5..9], &[0x00, 0x01, 0x02, 0x03]);
    assert_eq!(frame.len(), HEADER_SIZE + payload.len());
    assert_eq!(deserialize(&frame).unwrap(), payload);
}

#[test]
fn unframe_of_frame_gives_payload_back() {
    for payload in [&b""[..], &b"x"[..], &b"{\"version\":1}"[..]] {
        assert_eq!(deserialize(&serialize(payload)).unwrap(), payload.to_vec());
    }
}

#[test]
fn short_frame_reports_header_size() {
    match deserialize(b"MAG") {
        Err(ProtocolError::LengthMismatch { expected, actual }) => {
            assert_eq!(expected, 9);
            assert_eq!(actual, 3);
        }
        other => panic!("unexpected: {:?}", other),
    }
}

#[test]
fn truncated_frame_reports_both_lengths() {
    let mut bytes = serialize(b"abcdef");
    bytes.pop();
    match deserialize(&bytes) {
        Err(ProtocolError::LengthMismatch { expected, actual }) => {
            assert_eq!(expected, 6);
            assert_eq!(actual, 5);
        }
        other => panic!("unexpected: {:?}", other),
    }
}

#[test]
fn header_gives_payload_length() {
    let frame = serialize(b"abcdef");
    let mut header = [0u8; HEADER_SIZE];
    header.copy_from_slice(&frame[..HEADER_SIZE]);
    assert_eq!(payload_length(&header).unwrap(), 6);
    header[4] = b'X';
    assert!(matches!(payload_length(&header), Err(ProtocolError::InvalidMagic)));
}

#[test]
fn protocol_error_texts() {
    assert_eq!(ProtocolError::InvalidMagic.to_string(), "Invalid magic header");
    assert_eq!(
        ProtocolError::LengthMismatch { expected: 9, actual: 1024 }.to_string(),
        "Length mismatch: expected 9, got 1024"
    );
    assert_eq!(
        ProtocolError::LengthMismatch { expected: 0, actual: 10 }.to_string(),
        "Length mismatch: expected 0, got 10"
    );
    assert_eq!(
        ProtocolError::SerializationError("bad".to_string()).to_string(),
        "Serialization error: bad"
    );
    assert_eq!(
        ProtocolError::DeserializationError("eof".to_string()).to_string(),
        "Deserialization error: eof"
    );
    let bad = [0xffu8];
    let e = std::str::from_utf8(&bad).unwrap_err();
    assert!(ProtocolError::Utf8Error(e).to_string().starts_with("UTF-8 error: "));
}
