//! The life of a connection: admission, the frames it sends, and its end.

use tokio::sync::mpsc::UnboundedSender;
use vstd::prelude::*;

use crate::codec::{encode, wire_text};
use crate::handling_files::{handle_file_message, uploadable, FileUpload};
use crate::ident::{fresh_uuid, hyphenated};
use crate::message::{
    init_view, joined_text, left_text, system_view, user_view, welcome_text, ChatMessage,
    MessageType, MessageView,
};
use crate::registry::{broadcast_to_all, reaches_each_once, Client, Delivery, Registry};
use crate::shared::SessionStore;

verus! {

/// Why an upgrade was turned away: no token, or one that no session knows.
#[derive(Debug, Clone, Copy, PartialEq, Eq, Structural)]
pub struct Unauthorized;

/// One frame offered to every registered connection.
#[derive(Debug)]
pub struct Fanout {
    /// The frame, encoded once.
    pub frame: String,
    /// What each connection's queue did with it.
    pub deliveries: Vec<Delivery>,
}

/// One frame offered to one connection.
#[derive(Debug)]
pub struct Sent {
    pub frame: String,
    pub accepted: bool,
}

/// A connection that was let in and is not live yet: all that is known of
/// it is the user it belongs to.
#[derive(Debug)]
pub struct Admitted {
    username: String,
}

/// A live connection: it is registered under its identifier, and its user
/// stays the same for as long as it lives.
#[derive(Debug)]
pub struct Connection {
    id: u128,
    username: String,
}

impl Admitted {
    /// The user the connection belongs to.
    pub closed spec fn name(&self) -> Seq<char> {
        self.username@
    }

    /// The user the connection belongs to.
    pub fn username(&self) -> (name: &str)
        ensures
            name@ == self.name(),
    {
        self.username.as_str()
    }
}

impl Connection {
    /// The identifier under which the connection is registered.
    pub closed spec fn ident(&self) -> u128 {
        self.id
    }

    /// The user the connection belongs to.
    pub closed spec fn name(&self) -> Seq<char> {
        self.username@
    }

    /// The identifier under which the connection is registered.
    pub fn id(&self) -> (id: u128)
        ensures
            id == self.ident(),
    {
        self.id
    }

    /// The user the connection belongs to.
    pub fn username(&self) -> (name: &str)
        ensures
            name@ == self.name(),
    {
        self.username.as_str()
    }
}

/// What bringing a connection to life did.
#[derive(Debug)]
pub struct Admission {
    /// The connection, now live.
    pub connection: Connection,
    /// The greeting, offered to the new connection only.
    pub init: Sent,
    /// The welcome, offered to the new connection only.
    pub welcome: Sent,
    /// The notice that the user joined, offered to everyone.
    pub joined: Fanout,
}

impl Fanout {
    /// `msg` went to exactly the connections in `registered`.
    pub open spec fn carries(self, msg: MessageView, registered: Set<u128>) -> bool {
        &&& self.frame@ == wire_text(msg)
        &&& reaches_each_once(self.deliveries@, registered)
    }
}

/// Decides whether a connection is let in: it is, for the user that its
/// token stands for, exactly when it presents a token that a session
/// knows. A connection that is turned away is never registered.
pub fn handle_ws_auth(session_token: Option<String>, sessions: &SessionStore) -> (admitted:
    Result<Admitted, Unauthorized>)
    ensures
        admitted is Ok <==> (session_token matches Some(token) && sessions@.contains_key(token@)),
        admitted matches Ok(let_in) ==> let_in.name() == sessions@[session_token->0@],
{
    match session_token {
        Some(token) => match sessions.validate(token.as_str()) {
            Some(username) => Ok(Admitted { username }),
            None => Err(Unauthorized),
        },
        None => Err(Unauthorized),
    }
}

/// Encodes `msg` once and offers the frame to every registered connection.
pub fn broadcast(clients: &Registry, msg: &ChatMessage) -> (fanout: Fanout)
    ensures
        fanout.carries(msg@, clients@.dom()),
{
    let frame = encode(msg);
    let deliveries = broadcast_to_all(clients, frame.clone());
    Fanout { frame, deliveries }
}

/// Encodes `msg` and offers the frame to the connection `id` only.
pub fn unicast(clients: &Registry, id: u128, msg: &ChatMessage) -> (sent: Sent)
    ensures
        sent.frame@ == wire_text(msg@),
        sent.accepted ==> clients@.contains_key(id),
{
    let frame = encode(msg);
    let accepted = match clients.send_to(id, frame.clone()) {
        Some(delivery) => delivery.accepted,
        None => false,
    };
    Sent { frame, accepted }
}

/// Brings an admitted connection to life under the identifier `id`: it is
/// registered, then greeted and welcomed alone, then announced to everyone,
/// itself included.
pub fn open_connection(
    clients: &mut Registry,
    id: u128,
    sender: UnboundedSender<String>,
    admitted: Admitted,
) -> (admission: Admission)
    ensures
        admission.connection.ident() == id,
        admission.connection.name() == admitted.name(),
        final(clients)@ == old(clients)@.insert(id, Client { sender }),
        admission.init.frame@ == wire_text(init_view(admitted.name())),
        admission.welcome.frame@ == wire_text(system_view(welcome_text(admitted.name()))),
        admission.joined.carries(system_view(joined_text(admitted.name())), final(clients)@.dom()),
{
    clients.register(id, Client { sender });
    let username = admitted.username;
    let init = unicast(clients, id, &ChatMessage::init(username.as_str()));
    let welcome = unicast(clients, id, &ChatMessage::welcome(username.as_str()));
    let joined = broadcast(clients, &ChatMessage::joined(username.as_str()));
    Admission { connection: Connection { id, username }, init, welcome, joined }
}

/// Brings an admitted connection to life under a newly drawn identifier.
pub fn handle_connection(
    clients: &mut Registry,
    sender: UnboundedSender<String>,
    admitted: Admitted,
) -> (admission: Admission)
    ensures
        admission.connection.name() == admitted.name(),
        final(clients)@ == old(clients)@.insert(admission.connection.ident(), Client { sender }),
        admission.init.frame@ == wire_text(init_view(admitted.name())),
        admission.welcome.frame@ == wire_text(system_view(welcome_text(admitted.name()))),
        admission.joined.carries(system_view(joined_text(admitted.name())), final(clients)@.dom()),
{
    let id = fresh_uuid();
    open_connection(clients, id, sender, admitted)
}

/// Ends a connection: it leaves the registry, and then those that remain
/// are told that its user left. The connection is used up, so it cannot
/// end twice.
pub fn handle_disconnect(clients: &mut Registry, connection: Connection) -> (left: Fanout)
    ensures
        final(clients)@ == old(clients)@.remove(connection.ident()),
        left.carries(system_view(left_text(connection.name())), final(clients)@.dom()),
{
    clients.unregister(connection.id);
    broadcast(clients, &ChatMessage::left(connection.username.as_str()))
}

/// The message that a text frame stands for: what it decoded to, or, where
/// it did not decode, its raw text as a message of the connection's user.
pub open spec fn message_of(
    text: Seq<char>,
    decoded: Option<ChatMessage>,
    username: Seq<char>,
) -> MessageView {
    match decoded {
        Some(msg) => msg@,
        None => user_view(text, username),
    }
}

/// Reads a text frame as a message. A frame that did not decode is no
/// error: it is the text of a `User` message, word for word, under the
/// name of the connection's user.
pub fn interpret_frame(text: String, decoded: Option<ChatMessage>, username: &str) -> (msg:
    ChatMessage)
    ensures
        msg@ == message_of(text@, decoded, username@),
        decoded is None ==> msg@.kind == MessageType::User && msg@.content == text@,
{
    match decoded {
        Some(msg) => msg,
        None => ChatMessage::user(text, username),
    }
}

/// What the hub did with a frame.
#[derive(Debug)]
pub enum FrameOutcome {
    /// A `User` message went to everyone as it was.
    Broadcast(Fanout),
    /// A `File` message became an upload that waits to be written.
    Upload(FileUpload),
    /// A `File` message that cannot be relayed was dropped.
    Dropped,
    /// A `System` or `Init` message from a client was passed over.
    Ignored,
}

/// The rule by which a message is dispatched, by its kind alone.
pub open spec fn dispatched(msg: MessageView, registered: Set<u128>, outcome: FrameOutcome) -> bool {
    match msg.kind {
        MessageType::User => outcome matches FrameOutcome::Broadcast(fanout) && fanout.carries(
            msg,
            registered,
        ),
        MessageType::File => if uploadable(msg) {
            &&& outcome matches FrameOutcome::Upload(upload)
            &&& exists|bits: u128| upload.file_id@ == #[trigger] hyphenated(bits)
            &&& upload.file_id@.len() == 36
            &&& upload.is_upload_of(
                upload.file_id@,
                msg.filename->0,
                msg.sender_username->0,
                crate::handling_files::base64_decoding(msg.content)->0,
            )
        } else {
            outcome is Dropped
        },
        MessageType::System | MessageType::Init => outcome is Ignored,
    }
}

/// Handles one text frame of a live connection: `text` is the frame and
/// `decoded` the message it decoded to, if it did.
pub fn handle_frame(
    clients: &Registry,
    connection: &Connection,
    text: String,
    decoded: Option<ChatMessage>,
) -> (outcome: FrameOutcome)
    ensures
        dispatched(message_of(text@, decoded, connection.name()), clients@.dom(), outcome),
{
    let msg = interpret_frame(text, decoded, connection.username.as_str());
    match msg.message_type {
        MessageType::User => FrameOutcome::Broadcast(broadcast(clients, &msg)),
        MessageType::File => match handle_file_message(msg) {
            Some(upload) => FrameOutcome::Upload(upload),
            None => FrameOutcome::Dropped,
        },
        MessageType::System | MessageType::Init => FrameOutcome::Ignored,
    }
}

/// A `User` message that was decoded goes out again with every field as
/// it came in: the frame that everyone is offered is the frame of that
/// message, and no other message has that frame.
pub proof fn law_user_message_is_relayed_unchanged(
    msg: MessageView,
    registered: Set<u128>,
    outcome: FrameOutcome,
)
    requires
        msg.kind == MessageType::User,
        dispatched(msg, registered, outcome),
    ensures
        outcome matches FrameOutcome::Broadcast(fanout) && fanout.frame@ == wire_text(msg),
        forall|other: MessageView| wire_text(other) == #[trigger] wire_text(msg) ==> other == msg,
{
    assert forall|other: MessageView| wire_text(other) == #[trigger] wire_text(msg) implies other
        == msg by {
        crate::codec::law_frame_determines_message(other, msg);
    }
}

/// A frame that did not decode always goes out as a `User` message whose
/// content is the frame's text, word for word, under the name of the
/// connection's user.
pub proof fn law_undecodable_frame_is_relayed_as_text(
    text: Seq<char>,
    username: Seq<char>,
    registered: Set<u128>,
    outcome: FrameOutcome,
)
    requires
        dispatched(message_of(text, None, username), registered, outcome),
    ensures
        message_of(text, None, username).kind == MessageType::User,
        message_of(text, None, username).content == text,
        message_of(text, None, username).sender_username == Some(username),
        outcome matches FrameOutcome::Broadcast(fanout) && fanout.carries(
            user_view(text, username),
            registered,
        ),
{
}

/// Only `User` messages are relayed as they came: a frame that everyone is
/// offered on behalf of a client never has another kind.
pub proof fn law_only_user_messages_are_relayed(
    msg: MessageView,
    registered: Set<u128>,
    outcome: FrameOutcome,
)
    requires
        dispatched(msg, registered, outcome),
        outcome is Broadcast,
    ensures
        msg.kind == MessageType::User,
{
}

} // verus!
