//! The messages of the game session, and the classifier that turns a frame
//! of the chat transport into one of them.

use crate::json::{document_strings, json_strings, parse, string_at, text_at};
use crate::text::same_text;
use serde_json::Value;
use tokio_tungstenite::tungstenite::Message;
use vstd::prelude::*;

verus! {

/// tungstenite's `Message`, one frame of the transport. Nothing is known of
/// what is inside one but through [`frame_text`].
#[verifier::external_type_specification]
#[verifier::external_body]
pub struct ExMessage(tokio_tungstenite::tungstenite::Message);

/// The text that a frame of the transport carries, where it is a text frame;
/// `None` for a binary, ping, pong, close or raw frame.
pub uninterp spec fn frame_text(message: Message) -> Option<Seq<char>>;

/// Tells the variants of tungstenite's `Message` apart: a text frame gives
/// up its text, any other frame comes back as it is.
#[verifier::external_body]
fn into_text(message: Message) -> (text: Result<String, Message>)
    ensures
        match text {
            Ok(text) => frame_text(message) == Some(text@),
            Err(other) => frame_text(message) is None && other == message,
        },
{
    match message {
        Message::Text(text) => Ok(text),
        other => Err(other),
    }
}

/// Everything that can reach the game session.
#[derive(Debug)]
pub enum GeneralMessage {
    /// A request that expects an answer.
    CommandMessage(CommandMessage),
    /// An event of the chat transport.
    TwitchMessage(TwitchMessage),
    /// A line to deliver to the chat.
    TwitchSendMessage(String),
}

/// The requests that expect an answer.
#[derive(Debug)]
pub enum CommandMessage {
    /// Asks for the session's identity.
    GetSessionId,
    /// Asks for a snapshot of the round.
    GetGameState,
    /// Starts a round on a phrase.
    SetGameWord { word: String },
}

/// The events of the chat transport.
#[derive(Debug)]
pub enum TwitchMessage {
    /// A frame that was not looked at.
    Message { message: Message },
    /// A chat line of a player.
    PlayerMessage { message_text: String, message_id: String, player_id: String, player_name: String },
    /// The transport's greeting, with the identity it gave the session.
    WelcomeMessage { session_id: String },
    /// A text frame of a type that the game does not act on.
    OtherText { text: String },
    /// A frame that is not text.
    Other { mesage: Message },
    /// Nothing to act on.
    Unrecognized,
}

/// A request as plain text.
pub enum Command {
    GetSessionId,
    GetGameState,
    SetGameWord { word: Seq<char> },
}

impl View for CommandMessage {
    type V = Command;

    open spec fn view(&self) -> Command {
        match *self {
            CommandMessage::GetSessionId => Command::GetSessionId,
            CommandMessage::GetGameState => Command::GetGameState,
            CommandMessage::SetGameWord { word } => Command::SetGameWord { word: word@ },
        }
    }
}

/// A message to the game session as plain text.
pub enum Inbound {
    CommandMessage(Command),
    TwitchMessage(TwitchEvent),
    TwitchSendMessage(Seq<char>),
}

impl View for GeneralMessage {
    type V = Inbound;

    open spec fn view(&self) -> Inbound {
        match *self {
            GeneralMessage::CommandMessage(command) => Inbound::CommandMessage(command@),
            GeneralMessage::TwitchMessage(message) => Inbound::TwitchMessage(message@),
            GeneralMessage::TwitchSendMessage(text) => Inbound::TwitchSendMessage(text@),
        }
    }
}

/// A transport event as plain text.
pub enum TwitchEvent {
    Message { message: Message },
    PlayerMessage {
        message_text: Seq<char>,
        message_id: Seq<char>,
        player_id: Seq<char>,
        player_name: Seq<char>,
    },
    WelcomeMessage { session_id: Seq<char> },
    OtherText { text: Seq<char> },
    Other { mesage: Message },
    Unrecognized,
}

impl View for TwitchMessage {
    type V = TwitchEvent;

    open spec fn view(&self) -> TwitchEvent {
        match *self {
            TwitchMessage::Message { message } => TwitchEvent::Message { message },
            TwitchMessage::PlayerMessage { message_text, message_id, player_id, player_name } => {
                TwitchEvent::PlayerMessage {
                    message_text: message_text@,
                    message_id: message_id@,
                    player_id: player_id@,
                    player_name: player_name@,
                }
            },
            TwitchMessage::WelcomeMessage { session_id } => TwitchEvent::WelcomeMessage {
                session_id: session_id@,
            },
            TwitchMessage::OtherText { text } => TwitchEvent::OtherText { text: text@ },
            TwitchMessage::Other { mesage } => TwitchEvent::Other { mesage },
            TwitchMessage::Unrecognized => TwitchEvent::Unrecognized,
        }
    }
}

/// What the classifier reads of one text frame: the strings at six places of
/// its JSON document, each absent where the document has no string there.
#[derive(Debug)]
pub struct FrameFields {
    /// `metadata.message_type`
    pub message_type: Option<String>,
    /// `payload.event.message.text`
    pub text: Option<String>,
    /// `payload.event.message_id`
    pub message_id: Option<String>,
    /// `payload.event.chatter_user_id`
    pub chatter_user_id: Option<String>,
    /// `payload.event.chatter_user_name`
    pub chatter_user_name: Option<String>,
    /// `payload.session.id`
    pub session_id: Option<String>,
}

/// The fields of a frame as plain text.
pub struct Fields {
    pub message_type: Option<Seq<char>>,
    pub text: Option<Seq<char>>,
    pub message_id: Option<Seq<char>>,
    pub chatter_user_id: Option<Seq<char>>,
    pub chatter_user_name: Option<Seq<char>>,
    pub session_id: Option<Seq<char>>,
}

impl View for FrameFields {
    type V = Fields;

    open spec fn view(&self) -> Fields {
        Fields {
            message_type: self.message_type.deep_view(),
            text: self.text.deep_view(),
            message_id: self.message_id.deep_view(),
            chatter_user_id: self.chatter_user_id.deep_view(),
            chatter_user_name: self.chatter_user_name.deep_view(),
            session_id: self.session_id.deep_view(),
        }
    }
}

/// The fields that a document with the given strings has.
pub open spec fn fields_of(strings: Map<Seq<Seq<char>>, Seq<char>>) -> Fields {
    Fields {
        message_type: string_at(strings, seq!["metadata"@, "message_type"@]),
        text: string_at(strings, seq!["payload"@, "event"@, "message"@, "text"@]),
        message_id: string_at(strings, seq!["payload"@, "event"@, "message_id"@]),
        chatter_user_id: string_at(strings, seq!["payload"@, "event"@, "chatter_user_id"@]),
        chatter_user_name: string_at(strings, seq!["payload"@, "event"@, "chatter_user_name"@]),
        session_id: string_at(strings, seq!["payload"@, "session"@, "id"@]),
    }
}

/// A field's text, the empty text standing for an absent field.
pub open spec fn or_empty(field: Option<Seq<char>>) -> Seq<char> {
    match field {
        Some(text) => text,
        None => Seq::empty(),
    }
}

/// The event that a text frame with the given fields stands for. `raw` is the
/// frame's whole text, kept where the type is one that the game does not act
/// on.
pub open spec fn classify(fields: Fields, raw: Seq<char>) -> TwitchEvent {
    match fields.message_type {
        None => TwitchEvent::Unrecognized,
        Some(kind) => if kind == "notification"@ {
            TwitchEvent::PlayerMessage {
                message_text: or_empty(fields.text),
                message_id: or_empty(fields.message_id),
                player_id: or_empty(fields.chatter_user_id),
                player_name: or_empty(fields.chatter_user_name),
            }
        } else if kind == "session_welcome"@ {
            TwitchEvent::WelcomeMessage { session_id: or_empty(fields.session_id) }
        } else if kind == "session_keepalive"@ {
            TwitchEvent::Unrecognized
        } else {
            TwitchEvent::OtherText { text: raw }
        },
    }
}

/// The event that a frame's text stands for: nothing where the text is not
/// JSON, else what its fields say.
pub open spec fn classify_text(text: Seq<char>) -> TwitchEvent {
    match document_strings(text) {
        None => TwitchEvent::Unrecognized,
        Some(strings) => classify(fields_of(strings), text),
    }
}

/// The event that a frame stands for: a frame that is not text is kept as it
/// is and looked at no further.
pub open spec fn classify_frame(message: Message) -> TwitchEvent {
    match frame_text(message) {
        Some(text) => classify_text(text),
        None => TwitchEvent::Other { mesage: message },
    }
}

/// Whether an event goes on to the game session: the greeting and the chat
/// lines do, nothing else.
pub open spec fn qualifies(event: TwitchEvent) -> bool {
    event is WelcomeMessage || event is PlayerMessage
}

/// An owned copy of a text that may be absent.
fn owned(text: Option<&str>) -> (copy: Option<String>)
    ensures
        copy.deep_view() == text.deep_view(),
{
    match text {
        Some(text) => Some(text.to_owned()),
        None => None,
    }
}

/// The text of a field, the empty string where the field is absent.
fn unwrap_or_default(field: Option<String>) -> (text: String)
    ensures
        text@ == or_empty(field.deep_view()),
{
    match field {
        Some(text) => text,
        None => String::new(),
    }
}

impl FrameFields {
    /// Reads the six fields out of a parsed frame.
    pub fn read(document: &Value) -> (fields: Self)
        ensures
            fields@ == fields_of(json_strings(*document)),
    {
        let message_type = ["metadata", "message_type"];
        let text = ["payload", "event", "message", "text"];
        let message_id = ["payload", "event", "message_id"];
        let chatter_user_id = ["payload", "event", "chatter_user_id"];
        let chatter_user_name = ["payload", "event", "chatter_user_name"];
        let session_id = ["payload", "session", "id"];
        proof {
            assert(message_type.deep_view() =~= seq!["metadata"@, "message_type"@]);
            assert(text.deep_view() =~= seq!["payload"@, "event"@, "message"@, "text"@]);
            assert(message_id.deep_view() =~= seq!["payload"@, "event"@, "message_id"@]);
            assert(chatter_user_id.deep_view() =~= seq!["payload"@, "event"@, "chatter_user_id"@]);
            assert(chatter_user_name.deep_view() =~= seq![
                "payload"@,
                "event"@,
                "chatter_user_name"@,
            ]);
            assert(session_id.deep_view() =~= seq!["payload"@, "session"@, "id"@]);
        }
        FrameFields {
            message_type: owned(text_at(document, &message_type)),
            text: owned(text_at(document, &text)),
            message_id: owned(text_at(document, &message_id)),
            chatter_user_id: owned(text_at(document, &chatter_user_id)),
            chatter_user_name: owned(text_at(document, &chatter_user_name)),
            session_id: owned(text_at(document, &session_id)),
        }
    }
}

impl TwitchMessage {
    /// Classifies a text frame by the fields read of it. A field that a chat
    /// line or a greeting lacks counts as empty; a frame without a message
    /// type, and a keepalive, are nothing to act on; a frame of any other
    /// type is kept as text.
    pub fn from_fields(fields: FrameFields, raw: String) -> (message: Self)
        ensures
            message@ == classify(fields@, raw@),
    {
        let FrameFields {
            message_type,
            text,
            message_id,
            chatter_user_id,
            chatter_user_name,
            session_id,
        } = fields;
        match message_type {
            None => Self::Unrecognized,
            Some(kind) => {
                if same_text(kind.as_str(), "notification") {
                    Self::PlayerMessage {
                        message_text: unwrap_or_default(text),
                        message_id: unwrap_or_default(message_id),
                        player_id: unwrap_or_default(chatter_user_id),
                        player_name: unwrap_or_default(chatter_user_name),
                    }
                } else if same_text(kind.as_str(), "session_welcome") {
                    Self::WelcomeMessage { session_id: unwrap_or_default(session_id) }
                } else if same_text(kind.as_str(), "session_keepalive") {
                    Self::Unrecognized
                } else {
                    Self::OtherText { text: raw }
                }
            },
        }
    }

    /// Classifies the text of a frame. Text that is not JSON is nothing to act
    /// on.
    pub fn from_message_text(value: String) -> (message: Self)
        ensures
            message@ == classify_text(value@),
    {
        match parse(value.as_str()) {
            Ok(document) => {
                let fields = FrameFields::read(&document);
                Self::from_fields(fields, value)
            },
            Err(_) => Self::Unrecognized,
        }
    }

    /// Wraps the event for the game session where it is one that the session
    /// acts on, and drops it where it is not.
    pub fn forwarded(self) -> (forwarded: Option<GeneralMessage>)
        ensures
            match forwarded {
                Some(GeneralMessage::TwitchMessage(message)) => qualifies(self@) && message == self,
                Some(_) => false,
                None => !qualifies(self@),
            },
    {
        match self {
            TwitchMessage::WelcomeMessage { session_id } => Some(
                GeneralMessage::TwitchMessage(TwitchMessage::WelcomeMessage { session_id }),
            ),
            TwitchMessage::PlayerMessage { message_text, message_id, player_id, player_name } => {
                Some(
                    GeneralMessage::TwitchMessage(
                        TwitchMessage::PlayerMessage {
                            message_text,
                            message_id,
                            player_id,
                            player_name,
                        },
                    ),
                )
            },
            _ => None,
        }
    }
}

impl From<Message> for TwitchMessage {
    /// Classifies one frame of the transport.
    fn from(value: Message) -> (message: Self)
        ensures
            message@ == classify_frame(value),
    {
        match into_text(value) {
            Ok(text) => Self::from_message_text(text),
            Err(other) => Self::Other { mesage: other },
        }
    }
}

/// The conversion from a frame is specified by the `ensures` of `from`
/// itself: an event holds strings, which no spec function can build.
impl vstd::std_specs::convert::FromSpecImpl<Message> for TwitchMessage {
    open spec fn obeys_from_spec() -> bool {
        false
    }

    open spec fn from_spec(value: Message) -> TwitchMessage {
        arbitrary()
    }
}

} // verus!
