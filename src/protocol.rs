use vstd::prelude::*;

verus! {

/// A liveness probe: "ping" asks for a "pong".
#[derive(Debug)]
pub struct PingMessage {
    pub message: String,
}

/// A version handshake: "helo" asks for an "oleh", which ends the exchange.
#[derive(Debug)]
pub struct HandshakeMessage {
    pub message: String,
    pub version: String,
}

/// The envelope: one of the message kinds.
#[derive(Debug)]
pub enum Message {
    Ping(PingMessage),
    Handshake(HandshakeMessage),
}

/// A received message that breaks the protocol.
#[derive(Debug, Clone, Copy, PartialEq, Eq, Structural)]
pub enum ProtocolError {
    /// A handshake whose content is neither "helo" nor "oleh".
    BadMessage,
}

impl PartialEq for PingMessage {
    fn eq(&self, other: &PingMessage) -> (r: bool) {
        self.message == other.message
    }
}

impl vstd::std_specs::cmp::PartialEqSpecImpl for PingMessage {
    open spec fn obeys_eq_spec() -> bool {
        true
    }

    open spec fn eq_spec(&self, other: &PingMessage) -> bool {
        self@ == other@
    }
}

impl PartialEq for HandshakeMessage {
    fn eq(&self, other: &HandshakeMessage) -> (r: bool) {
        self.message == other.message && self.version == other.version
    }
}

impl vstd::std_specs::cmp::PartialEqSpecImpl for HandshakeMessage {
    open spec fn obeys_eq_spec() -> bool {
        true
    }

    open spec fn eq_spec(&self, other: &HandshakeMessage) -> bool {
        self@ == other@
    }
}

impl PartialEq for Message {
    fn eq(&self, other: &Message) -> (r: bool) {
        match (self, other) {
            (Message::Ping(a), Message::Ping(b)) => a == b,
            (Message::Handshake(a), Message::Handshake(b)) => a == b,
            _ => false,
        }
    }
}

impl vstd::std_specs::cmp::PartialEqSpecImpl for Message {
    open spec fn obeys_eq_spec() -> bool {
        true
    }

    open spec fn eq_spec(&self, other: &Message) -> bool {
        self@ == other@
    }
}

/// The mathematical value of a message: its kind and its strings.
pub enum MessageModel {
    Ping { message: Seq<char> },
    Handshake { message: Seq<char>, version: Seq<char> },
}

impl View for PingMessage {
    type V = Seq<char>;

    open spec fn view(&self) -> Seq<char> {
        self.message@
    }
}

impl View for HandshakeMessage {
    type V = (Seq<char>, Seq<char>);

    open spec fn view(&self) -> (Seq<char>, Seq<char>) {
        (self.message@, self.version@)
    }
}

impl View for Message {
    type V = MessageModel;

    open spec fn view(&self) -> MessageModel {
        match self {
            Message::Ping(p) => MessageModel::Ping { message: p.message@ },
            Message::Handshake(h) => MessageModel::Handshake {
                message: h.message@,
                version: h.version@,
            },
        }
    }
}

/// The model of an optional message.
pub open spec fn option_model(o: Option<Message>) -> Option<MessageModel> {
    match o {
        Some(m) => Some(m@),
        None => None,
    }
}

/// The model of what a response function returns.
pub open spec fn response_model(r: Result<Option<Message>, ProtocolError>) -> Result<
    Option<MessageModel>,
    ProtocolError,
> {
    match r {
        Ok(o) => Ok(option_model(o)),
        Err(e) => Err(e),
    }
}

/// The version that this side of a handshake announces.
pub open spec fn protocol_version() -> Seq<char> {
    "0.1.0"@
}

/// The message that opens a ping exchange.
pub open spec fn ping_start() -> MessageModel {
    MessageModel::Ping { message: "ping"@ }
}

/// The message that opens a handshake.
pub open spec fn handshake_start() -> MessageModel {
    MessageModel::Handshake { message: "helo"@, version: protocol_version() }
}

/// Ping's rule: a "ping" is answered with a "pong"; anything else ends the
/// exchange quietly.
pub open spec fn ping_reply(message: Seq<char>) -> Result<Option<MessageModel>, ProtocolError> {
    if message == "ping"@ {
        Ok(Some(MessageModel::Ping { message: "pong"@ }))
    } else {
        Ok(None)
    }
}

/// The handshake's rule: "helo" is answered with "oleh" and our version,
/// "oleh" completes the handshake, and anything else is a violation.
pub open spec fn handshake_reply(message: Seq<char>) -> Result<
    Option<MessageModel>,
    ProtocolError,
> {
    if message == "helo"@ {
        Ok(Some(MessageModel::Handshake { message: "oleh"@, version: protocol_version() }))
    } else if message == "oleh"@ {
        Ok(None)
    } else {
        Err(ProtocolError::BadMessage)
    }
}

/// What to send back on receipt of `m`, dispatched on its kind.
pub open spec fn reply(m: MessageModel) -> Result<Option<MessageModel>, ProtocolError> {
    match m {
        MessageModel::Ping { message } => ping_reply(message),
        MessageModel::Handshake { message, .. } => handshake_reply(message),
    }
}

/// The capability that each message kind has: the message that opens its
/// exchange, and the reply to a message of its kind.
pub trait ProtocolMessage: Sized {
    /// The message that opens the exchange.
    spec fn start_model() -> MessageModel;

    /// The reply to `self`.
    spec fn reply_model(&self) -> Result<Option<MessageModel>, ProtocolError>;

    /// The message that opens an exchange of this kind: a constructor per
    /// kind, so the kind is chosen by the type it is called on.
    fn start() -> (r: Option<Message>)
        ensures
            option_model(r) == Some(Self::start_model()),
    ;

    /// What to send back on receipt of `self`: `Ok(None)` once the exchange
    /// is over, `Err` where the message breaks the protocol.
    fn response_for_received(&self) -> (r: Result<Option<Message>, ProtocolError>)
        ensures
            response_model(r) == self.reply_model(),
    ;
}

impl ProtocolMessage for PingMessage {
    open spec fn start_model() -> MessageModel {
        ping_start()
    }

    open spec fn reply_model(&self) -> Result<Option<MessageModel>, ProtocolError> {
        ping_reply(self@)
    }

    fn start() -> (r: Option<Message>) {
        Some(Message::Ping(PingMessage { message: "ping".to_owned() }))
    }

    fn response_for_received(&self) -> (r: Result<Option<Message>, ProtocolError>) {
        let ping = "ping".to_owned();
        if self.message == ping {
            Ok(Some(Message::Ping(PingMessage { message: "pong".to_owned() })))
        } else {
            Ok(None)
        }
    }
}

impl ProtocolMessage for HandshakeMessage {
    open spec fn start_model() -> MessageModel {
        handshake_start()
    }

    open spec fn reply_model(&self) -> Result<Option<MessageModel>, ProtocolError> {
        handshake_reply(self.message@)
    }

    fn start() -> (r: Option<Message>) {
        Some(
            Message::Handshake(
                HandshakeMessage { message: "helo".to_owned(), version: "0.1.0".to_owned() },
            ),
        )
    }

    fn response_for_received(&self) -> (r: Result<Option<Message>, ProtocolError>) {
        let helo = "helo".to_owned();
        let oleh = "oleh".to_owned();
        if self.message == helo {
            Ok(
                Some(
                    Message::Handshake(
                        HandshakeMessage { message: oleh, version: "0.1.0".to_owned() },
                    ),
                ),
            )
        } else if self.message == oleh {
            Ok(None)
        } else {
            Err(ProtocolError::BadMessage)
        }
    }
}

impl Message {
    /// The reply to a received message, by the rule of its kind.
    pub fn response_for_received(&self) -> (r: Result<Option<Message>, ProtocolError>)
        ensures
            response_model(r) == reply(self@),
    {
        match self {
            Message::Ping(m) => m.response_for_received(),
            Message::Handshake(m) => m.response_for_received(),
        }
    }
}

} // verus!
