//! The binary envelope: a message travels as a flexbuffer map with one key,
//! the message kind, whose value is the map of the message's string fields.
use crate::layout::{lookup_safe, reads_in_bounds};
use crate::protocol::{HandshakeMessage, Message, MessageModel, PingMessage};
use crate::wire::{
    build_tagged_map, bytes_content, bytes_from_vec, field_lookup, first_key, flex_first_key,
    flex_nested_str, flex_tagged_map, nested_str, opt_string_model, pairs_model, valid_fields,
    valid_key,
};
use bytes::Bytes;
use vstd::prelude::*;

verus! {

/// The bytes of a received message are not a message of any known kind.
#[derive(Debug, Clone, Copy, PartialEq, Eq, Structural)]
pub struct DecodeError;

/// The key that names the kind of a message.
pub open spec fn tag_of(m: MessageModel) -> Seq<char> {
    match m {
        MessageModel::Ping { .. } => "Ping"@,
        MessageModel::Handshake { .. } => "Handshake"@,
    }
}

/// The string fields of a message, by field name.
pub open spec fn fields_of(m: MessageModel) -> Seq<(Seq<char>, Seq<char>)> {
    match m {
        MessageModel::Ping { message } => seq![("message"@, message)],
        MessageModel::Handshake { message, version } => seq![
            ("message"@, message),
            ("version"@, version),
        ],
    }
}

/// The bytes that a message travels as.
pub open spec fn encoding(m: MessageModel) -> Seq<u8> {
    flex_tagged_map(tag_of(m), fields_of(m))
}

/// The message that a kind and the fields read under it make up, if they do.
pub open spec fn entry_model(
    tag: Seq<char>,
    message: Option<Seq<char>>,
    version: Option<Seq<char>>,
) -> Option<MessageModel> {
    if tag == "Ping"@ {
        match message {
            Some(message) => Some(MessageModel::Ping { message }),
            None => None,
        }
    } else if tag == "Handshake"@ {
        match (message, version) {
            (Some(message), Some(version)) => Some(MessageModel::Handshake { message, version }),
            _ => None,
        }
    } else {
        None
    }
}

/// The message that `b` holds, if any: the kind is the first key of the root
/// map, and the fields are read from the map under it. Bytes on which the
/// lookup could read out of bounds hold no message.
pub open spec fn decoding(b: Seq<u8>) -> Option<MessageModel> {
    if !lookup_safe(b) {
        None
    } else {
        match flex_first_key(b) {
            Some(tag) => entry_model(
            tag,
            flex_nested_str(b, tag, "message"@),
                flex_nested_str(b, tag, "version"@),
            ),
            None => None,
        }
    }
}

/// The model of what decoding returns: the message, or nothing.
pub open spec fn decode_model(r: Result<Message, DecodeError>) -> Option<MessageModel> {
    match r {
        Ok(m) => Some(m@),
        Err(_) => None,
    }
}

/// The key names of the envelope are valid flexbuffer keys and differ.
proof fn lemma_key_names()
    ensures
        valid_key("Ping"@),
        valid_key("Handshake"@),
        valid_key("message"@),
        valid_key("version"@),
        "message"@ != "version"@,
        "Ping"@ != "Handshake"@,
{
    reveal_strlit("Ping");
    reveal_strlit("Handshake");
    reveal_strlit("message");
    reveal_strlit("version");
    assert("message"@[0] != "version"@[0]);
    assert("Ping"@.len() != "Handshake"@.len());
}

/// The fields of a message are laid out under valid, distinct keys, and
/// looking each name up gives back the field.
proof fn lemma_fields_of(m: MessageModel)
    ensures
        valid_key(tag_of(m)),
        valid_fields(fields_of(m)),
        entry_model(
            tag_of(m),
            field_lookup(fields_of(m), "message"@),
            field_lookup(fields_of(m), "version"@),
        ) == Some(m),
{
    lemma_key_names();
    let fs = fields_of(m);
    assert(fs[0].0 == "message"@);
    match m {
        MessageModel::Ping { message } => {
            assert(field_lookup(fs, "message"@) == Some(message));
        },
        MessageModel::Handshake { message, version } => {
            assert(fs[1].0 == "version"@);
            assert(field_lookup(fs, "message"@) == Some(message));
            assert(field_lookup(fs, "version"@) == Some(version));
        },
    }
}

impl Message {
    /// The message that a kind and the fields read under it make up: a ping
    /// needs its message, a handshake its message and version. Any other kind,
    /// or a missing field, is a `DecodeError`.
    pub fn from_entry(tag: String, message: Option<String>, version: Option<String>) -> (r: Result<
        Message,
        DecodeError,
    >)
        ensures
            decode_model(r) == entry_model(
                tag@,
                opt_string_model(message),
                opt_string_model(version),
            ),
    {
        let ping = "Ping".to_owned();
        let handshake = "Handshake".to_owned();
        if tag == ping {
            match message {
                Some(message) => Ok(Message::Ping(PingMessage { message })),
                None => Err(DecodeError),
            }
        } else if tag == handshake {
            match (message, version) {
                (Some(message), Some(version)) => Ok(
                    Message::Handshake(HandshakeMessage { message, version }),
                ),
                _ => Err(DecodeError),
            }
        } else {
            Err(DecodeError)
        }
    }

    /// The bytes that this message travels as; always present, and laid out
    /// so that decoding reads only inside them.
    pub fn as_bytes(&self) -> (r: Option<Bytes>)
        ensures
            r matches Some(b) && bytes_content(b) == encoding(self@) && lookup_safe(
                bytes_content(b),
            ),
    {
        proof {
            lemma_fields_of(self@);
        }
        let buf = match self {
            Message::Ping(p) => {
                let fields = vec![("message", p.message.as_str())];
                assert(pairs_model(fields@) =~= fields_of(self@));
                build_tagged_map("Ping", fields.as_slice())
            },
            Message::Handshake(h) => {
                let fields = vec![("message", h.message.as_str()), ("version", h.version.as_str())];
                assert(pairs_model(fields@) =~= fields_of(self@));
                build_tagged_map("Handshake", fields.as_slice())
            },
        };
        Some(bytes_from_vec(buf))
    }

    /// The message that `b` holds. Bytes that are not a message of a known
    /// kind give a `DecodeError`: among them a buffer of fewer than three
    /// bytes, and one whose offsets or lengths point past its end. A truncated
    /// encoding may still hold another, shorter message. The bytes that
    /// `as_bytes` gives for any message give back that message.
    pub fn from_bytes(b: &[u8]) -> (r: Result<Message, DecodeError>)
        ensures
            decode_model(r) == decoding(b@),
            b@.len() < 3 ==> r is Err,
            !lookup_safe(b@) ==> r is Err,
            forall|m: MessageModel|
                #[trigger] encoding(m) == b@ && lookup_safe(b@) ==> decode_model(r) == Some(m),
    {
        let safe = reads_in_bounds(b);
        match first_key(b) {
            None => {
                assert forall|m: MessageModel| #[trigger] encoding(m) != b@ by {
                    lemma_fields_of(m);
                };
                Err(DecodeError)
            },
            Some(tag) => {
                if !safe {
                    return Err(DecodeError);
                }
                let message = nested_str(b, tag.as_str(), "message");
                let version = nested_str(b, tag.as_str(), "version");
                let r = Message::from_entry(tag, message, version);
                assert forall|m: MessageModel| #[trigger] encoding(m) == b@ implies decode_model(r)
                    == Some(m) by {
                    lemma_fields_of(m);
                    lemma_key_names();
                };
                r
            },
        }
    }
}

} // verus!
