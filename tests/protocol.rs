use bytes::Bytes;
use node_protocol::envelope::DecodeError;
use node_protocol::layout::reads_in_bounds;
use node_protocol::protocol::{
    HandshakeMessage, Message, PingMessage, ProtocolError, ProtocolMessage,
};
use serde::ser::SerializeStruct;
use serde::Serializer;

struct PingFields<'a>(&'a str);

impl serde::Serialize for PingFields<'_> {
    fn serialize<S: Serializer>(&self, s: S) -> Result<S::Ok, S::Error> {
        let mut st = s.serialize_struct("PingMessage", 1)?;
        st.serialize_field("message", self.0)?;
        st.end()
    }
}

struct HandshakeFields<'a>(&'a str, &'a str);

impl serde::Serialize for HandshakeFields<'_> {
    fn serialize<S: Serializer>(&self, s: S) -> Result<S::Ok, S::Error> {
        let mut st = s.serialize_struct("HandshakeMessage", 2)?;
        st.serialize_field("message", self.0)?;
        st.serialize_field("version", self.1)?;
        st.end()
    }
}

fn ping(s: &str) -> Message {
    Message::Ping(PingMessage {
        message: String::from(s),
    })
}

fn handshake(m: &str, v: &str) -> Message {
    Message::Handshake(HandshakeMessage {
        message: String::from(m),
        version: String::from(v),
    })
}

fn serde_ping_bytes(s: &str) -> Vec<u8> {
    let mut ser = flexbuffers::FlexbufferSerializer::new();
    (&mut ser)
        .serialize_newtype_variant("Message", 0, "Ping", &PingFields(s))
        .unwrap();
    ser.take_buffer()
}

fn serde_handshake_bytes(m: &str, v: &str) -> Vec<u8> {
    let mut ser = flexbuffers::FlexbufferSerializer::new();
    (&mut ser)
        .serialize_newtype_variant("Message", 1, "Handshake", &HandshakeFields(m, v))
        .unwrap();
    ser.take_buffer()
}

fn round_trip(m: &Message) -> Message {
    let b = m.as_bytes().unwrap();
    Message::from_bytes(&b).unwrap()
}

#[test]
fn it_serialized_ping_message() {
    let ping_message = Message::Ping(PingMessage {
        message: String::from("ping"),
    });
    let b = Bytes::from(serde_ping_bytes("ping"));

    let msg = Message::from_bytes(&b).unwrap();
    assert_eq!(msg, ping_message);
}

#[test]
fn it_matches_start_message_for_ping() {
    let start_message = PingMessage::start().unwrap();
    assert_eq!(
        start_message,
        Message::Ping(PingMessage {
            message: String::from("ping")
        })
    );
}

#[test]
fn it_invoked_received_message_after_deseralization() {
    let b: Bytes = Message::Ping(PingMessage {
        message: String::from("ping"),
    })
    .as_bytes()
    .unwrap();

    let msg: Message = Message::from_bytes(&b).unwrap();

    let response = msg.response_for_received().unwrap();
    assert_eq!(
        response,
        Some(Message::Ping(PingMessage {
            message: String::from("pong")
        }))
    );
}

#[test]
fn handshake_start_is_helo_with_version() {
    assert_eq!(
        HandshakeMessage::start(),
        Some(handshake("helo", "0.1.0"))
    );
}

#[test]
fn ping_is_answered_with_pong() {
    assert_eq!(ping("ping").response_for_received(), Ok(Some(ping("pong"))));
}

#[test]
fn pong_ends_the_ping_exchange() {
    assert_eq!(ping("pong").response_for_received(), Ok(None));
}

#[test]
fn other_ping_content_ends_quietly() {
    assert_eq!(ping("").response_for_received(), Ok(None));
    assert_eq!(ping("PING").response_for_received(), Ok(None));
}

#[test]
fn helo_is_answered_with_oleh() {
    assert_eq!(
        handshake("helo", "0.1.0").response_for_received(),
        Ok(Some(handshake("oleh", "0.1.0")))
    );
}

#[test]
fn oleh_completes_the_handshake() {
    assert_eq!(handshake("oleh", "0.1.0").response_for_received(), Ok(None));
}

#[test]
fn garbage_handshake_is_a_bad_message() {
    assert_eq!(
        handshake("garbage", "0.1.0").response_for_received(),
        Err(ProtocolError::BadMessage)
    );
}

#[test]
fn helo_reply_carries_our_version() {
    assert_eq!(
        handshake("helo", "9.9.9").response_for_received(),
        Ok(Some(handshake("oleh", "0.1.0")))
    );
}

#[test]
fn trait_replies_match_envelope_replies() {
    let p = PingMessage {
        message: String::from("ping"),
    };
    assert_eq!(p.response_for_received(), Ok(Some(ping("pong"))));
    let h = HandshakeMessage {
        message: String::from("nope"),
        version: String::from("0.1.0"),
    };
    assert_eq!(h.response_for_received(), Err(ProtocolError::BadMessage));
}

#[test]
fn ping_round_trips() {
    let m = ping("ping");
    assert_eq!(round_trip(&m), m);
}

#[test]
fn handshake_round_trips() {
    let m = handshake("helo", "0.1.0");
    assert_eq!(round_trip(&m), m);
}

#[test]
fn odd_strings_round_trip() {
    let m = handshake("", "héllo \u{1F600}");
    assert_eq!(round_trip(&m), m);
    let m = ping("with\0nul");
    assert_eq!(round_trip(&m), m);
}

#[test]
fn encoding_matches_serde_layout() {
    let b = ping("ping").as_bytes().unwrap();
    assert_eq!(b.to_vec(), serde_ping_bytes("ping"));
    let b = handshake("helo", "0.1.0").as_bytes().unwrap();
    assert_eq!(b.to_vec(), serde_handshake_bytes("helo", "0.1.0"));
    assert_ne!(b.len(), 0);
}

#[test]
fn serde_handshake_decodes() {
    let b = serde_handshake_bytes("oleh", "0.1.0");
    assert_eq!(Message::from_bytes(&b), Ok(handshake("oleh", "0.1.0")));
}

#[test]
fn empty_buffer_is_a_decode_error() {
    assert_eq!(Message::from_bytes(&[]), Err(DecodeError));
}

#[test]
fn truncated_buffer_is_a_decode_error() {
    let b = handshake("helo", "0.1.0").as_bytes().unwrap();
    for n in 0..b.len() {
        let r = Message::from_bytes(&b[..n]);
        if let Ok(m) = r {
            panic!("prefix of {} bytes decoded to {:?}", n, m);
        }
    }
}

#[test]
fn garbage_bytes_are_a_decode_error() {
    assert_eq!(Message::from_bytes(&[1, 2]), Err(DecodeError));
    assert_eq!(Message::from_bytes(&[0xff; 16]), Err(DecodeError));
}

#[test]
fn unknown_kind_is_a_decode_error() {
    let mut builder = flexbuffers::Builder::default();
    let mut root = builder.start_map();
    let mut inner = root.start_map("Pong");
    inner.push("message", "ping");
    inner.end_map();
    root.end_map();
    assert_eq!(Message::from_bytes(builder.view()), Err(DecodeError));
}

#[test]
fn missing_version_is_a_decode_error() {
    let b = ping("helo").as_bytes().unwrap();
    assert_eq!(
        Message::from_bytes(&b),
        Ok(ping("helo"))
    );
    let mut builder = flexbuffers::Builder::default();
    let mut root = builder.start_map();
    let mut inner = root.start_map("Handshake");
    inner.push("message", "helo");
    inner.end_map();
    root.end_map();
    assert_eq!(Message::from_bytes(builder.view()), Err(DecodeError));
}

#[test]
fn from_entry_builds_each_kind() {
    assert_eq!(
        Message::from_entry(String::from("Ping"), Some(String::from("a")), None),
        Ok(ping("a"))
    );
    assert_eq!(
        Message::from_entry(
            String::from("Handshake"),
            Some(String::from("a")),
            Some(String::from("b"))
        ),
        Ok(handshake("a", "b"))
    );
    assert_eq!(
        Message::from_entry(String::from("Handshake"), Some(String::from("a")), None),
        Err(DecodeError)
    );
    assert_eq!(
        Message::from_entry(String::from("Ping"), None, Some(String::from("b"))),
        Err(DecodeError)
    );
    assert_eq!(
        Message::from_entry(String::from("ping"), Some(String::from("a")), None),
        Err(DecodeError)
    );
}

#[test]
fn kinds_are_not_equal() {
    assert_ne!(ping("helo"), handshake("helo", ""));
    assert_ne!(ping("a"), ping("b"));
    assert_ne!(handshake("a", "b"), handshake("a", "c"));
}

/// The address of the root map and its slot width, read as the flexbuffer
/// reader reads them (for buffers whose root width and offset are one byte).
fn root_map_at(b: &[u8]) -> (usize, usize) {
    let len = b.len();
    assert_eq!(b[len - 1], 1);
    let w = 1usize << (b[len - 2] & 3);
    let a0 = len - 3;
    (a0 - b[a0] as usize, w)
}

#[test]
fn oversized_root_length_is_a_decode_error() {
    let mut b = ping("ping").as_bytes().unwrap().to_vec();
    let (a, w) = root_map_at(&b);
    assert_eq!(w, 1);
    b[a - w] = 200;
    assert!(!reads_in_bounds(&b));
    assert_eq!(Message::from_bytes(&b), Err(DecodeError));
}

#[test]
fn oversized_nested_length_is_a_decode_error() {
    let mut b = handshake("helo", "0.1.0").as_bytes().unwrap().to_vec();
    let (a, w) = root_map_at(&b);
    let nested = a - b[a] as usize;
    let w2 = 1usize << (b[a + w] & 3);
    assert_eq!(w2, 1);
    b[nested - w2] = 250;
    assert!(!reads_in_bounds(&b));
    assert_eq!(Message::from_bytes(&b), Err(DecodeError));
}

#[test]
fn every_single_byte_change_decodes_without_panic() {
    let b = handshake("helo", "0.1.0").as_bytes().unwrap().to_vec();
    for i in 0..b.len() {
        for v in [0u8, 1, 2, 7, 8, 36, 128, 200, 255] {
            let mut c = b.clone();
            c[i] = v;
            let _ = Message::from_bytes(&c);
        }
    }
}

#[test]
fn encodings_are_read_in_bounds() {
    let long = "x".repeat(300);
    let longer = "y".repeat(70000);
    for m in [
        ping("ping"),
        ping(""),
        handshake("helo", "0.1.0"),
        handshake(&long, "v"),
        handshake("m", &longer),
    ] {
        let b = m.as_bytes().unwrap();
        assert!(reads_in_bounds(&b));
        assert_eq!(Message::from_bytes(&b), Ok(m));
    }
    assert!(reads_in_bounds(&serde_handshake_bytes("oleh", "0.1.0")));
}

#[test]
fn short_buffers_are_not_in_bounds() {
    assert!(!reads_in_bounds(&[]));
    assert!(!reads_in_bounds(&[9 << 2, 1]));
}

#[test]
fn root_with_two_entries_is_a_decode_error() {
    let mut builder = flexbuffers::Builder::default();
    let mut root = builder.start_map();
    let mut inner = root.start_map("Ping");
    inner.push("message", "ping");
    inner.end_map();
    let mut other = root.start_map("Handshake");
    other.push("message", "helo");
    other.push("version", "0.1.0");
    other.end_map();
    root.end_map();
    assert!(!reads_in_bounds(builder.view()));
    assert_eq!(Message::from_bytes(builder.view()), Err(DecodeError));
}
