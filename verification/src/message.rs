//! The application message: its kinds, its fields and the messages that the
//! hub itself emits.

use vstd::prelude::*;
use vstd::string::StringExecFns;

verus! {

/// The closed set of message kinds.
#[derive(Debug, Clone, Copy, PartialEq, Eq, Structural)]
pub enum MessageType {
    System,
    User,
    Init,
    File,
}

/// One message as it travels between a client and the hub.
#[derive(Debug)]
pub struct ChatMessage {
    pub message_type: MessageType,
    pub content: String,
    pub sender_username: Option<String>,
    pub filename: Option<String>,
    pub file_id: Option<String>,
}

/// The mathematical value of a [`ChatMessage`].
pub struct MessageView {
    pub kind: MessageType,
    pub content: Seq<char>,
    pub sender_username: Option<Seq<char>>,
    pub filename: Option<Seq<char>>,
    pub file_id: Option<Seq<char>>,
}

/// The text of an optional string, where there is one.
pub open spec fn text_of(field: Option<String>) -> Option<Seq<char>> {
    match field {
        Some(s) => Some(s@),
        None => None,
    }
}

impl View for ChatMessage {
    type V = MessageView;

    open spec fn view(&self) -> MessageView {
        MessageView {
            kind: self.message_type,
            content: self.content@,
            sender_username: text_of(self.sender_username),
            filename: text_of(self.filename),
            file_id: text_of(self.file_id),
        }
    }
}

/// A copy of an optional string.
pub fn clone_text(field: &Option<String>) -> (copy: Option<String>)
    ensures
        text_of(copy) == text_of(*field),
{
    match field {
        Some(s) => Some(s.clone()),
        None => None,
    }
}

impl Clone for ChatMessage {
    fn clone(&self) -> (copy: Self)
        ensures
            copy@ == self@,
    {
        ChatMessage {
            message_type: self.message_type,
            content: self.content.clone(),
            sender_username: clone_text(&self.sender_username),
            filename: clone_text(&self.filename),
            file_id: clone_text(&self.file_id),
        }
    }
}

impl MessageView {
    /// What the hub itself may put on the wire: a file notice names its
    /// sender, file and identifier and carries no payload; no other kind
    /// names a file.
    pub open spec fn is_conformant(self) -> bool {
        if self.kind == MessageType::File {
            &&& self.content.len() == 0
            &&& self.sender_username is Some
            &&& self.filename is Some
            &&& self.file_id is Some
        } else {
            self.filename is None && self.file_id is None
        }
    }
}

/// The greeting that opens a connection: it tells the client its own name.
pub open spec fn init_view(username: Seq<char>) -> MessageView {
    MessageView {
        kind: MessageType::Init,
        content: Seq::empty(),
        sender_username: Some(username),
        filename: None,
        file_id: None,
    }
}

/// A notice from the hub itself.
pub open spec fn system_view(content: Seq<char>) -> MessageView {
    MessageView {
        kind: MessageType::System,
        content,
        sender_username: None,
        filename: None,
        file_id: None,
    }
}

/// Plain text that a client sent, under that client's name.
pub open spec fn user_view(content: Seq<char>, username: Seq<char>) -> MessageView {
    MessageView {
        kind: MessageType::User,
        content,
        sender_username: Some(username),
        filename: None,
        file_id: None,
    }
}

/// The notice that a file is available: who sent it, what it is called and
/// under which identifier it can be fetched. It never carries the payload.
pub open spec fn file_view(
    sender: Seq<char>,
    filename: Seq<char>,
    file_id: Seq<char>,
) -> MessageView {
    MessageView {
        kind: MessageType::File,
        content: Seq::empty(),
        sender_username: Some(sender),
        filename: Some(filename),
        file_id: Some(file_id),
    }
}

pub open spec fn welcome_text(username: Seq<char>) -> Seq<char> {
    "Welcome to the chat, "@ + username + "!"@
}

pub open spec fn joined_text(username: Seq<char>) -> Seq<char> {
    username + " has joined the chat."@
}

pub open spec fn left_text(username: Seq<char>) -> Seq<char> {
    username + " has left the chat."@
}

impl ChatMessage {
    /// The greeting for the connection of `username`.
    pub fn init(username: &str) -> (msg: ChatMessage)
        ensures
            msg@ == init_view(username@),
    {
        ChatMessage {
            message_type: MessageType::Init,
            content: String::new(),
            sender_username: Some(String::from_str(username)),
            filename: None,
            file_id: None,
        }
    }

    /// A notice from the hub with the given text.
    pub fn system(content: String) -> (msg: ChatMessage)
        ensures
            msg@ == system_view(content@),
    {
        ChatMessage {
            message_type: MessageType::System,
            content,
            sender_username: None,
            filename: None,
            file_id: None,
        }
    }

    /// The welcome that only the new connection receives.
    pub fn welcome(username: &str) -> (msg: ChatMessage)
        ensures
            msg@ == system_view(welcome_text(username@)),
    {
        let mut content = String::from_str("Welcome to the chat, ");
        content.append(username);
        content.append("!");
        ChatMessage::system(content)
    }

    /// The notice to everyone that `username` is here.
    pub fn joined(username: &str) -> (msg: ChatMessage)
        ensures
            msg@ == system_view(joined_text(username@)),
    {
        let mut content = String::from_str(username);
        content.append(" has joined the chat.");
        ChatMessage::system(content)
    }

    /// The notice to everyone that `username` is gone.
    pub fn left(username: &str) -> (msg: ChatMessage)
        ensures
            msg@ == system_view(left_text(username@)),
    {
        let mut content = String::from_str(username);
        content.append(" has left the chat.");
        ChatMessage::system(content)
    }

    /// A text message of `username`.
    pub fn user(content: String, username: &str) -> (msg: ChatMessage)
        ensures
            msg@ == user_view(content@, username@),
    {
        ChatMessage {
            message_type: MessageType::User,
            content,
            sender_username: Some(String::from_str(username)),
            filename: None,
            file_id: None,
        }
    }

    /// The notice of a stored file. Its content is empty whatever the upload
    /// held.
    pub fn file(sender: String, filename: String, file_id: String) -> (msg: ChatMessage)
        ensures
            msg@ == file_view(sender@, filename@, file_id@),
            msg@.content.len() == 0,
            msg@.is_conformant(),
    {
        ChatMessage {
            message_type: MessageType::File,
            content: String::new(),
            sender_username: Some(sender),
            filename: Some(filename),
            file_id: Some(file_id),
        }
    }
}

} // verus!
