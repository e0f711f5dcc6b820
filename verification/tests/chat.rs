use chat_hub::chat::{
    broadcast, handle_connection, handle_disconnect, handle_frame, handle_ws_auth, interpret_frame,
    open_connection, unicast, Admitted, Connection, FrameOutcome, Unauthorized,
};
use chat_hub::message::{ChatMessage, MessageType};
use chat_hub::registry::{Delivery, Registry};
use chat_hub::shared::SessionStore;
use tokio::sync::mpsc::{unbounded_channel, UnboundedReceiver};

fn sessions() -> SessionStore {
    let mut sessions = SessionStore::new();
    sessions.insert("tok1".to_string(), "alice".to_string());
    sessions.insert("tok2".to_string(), "bob".to_string());
    sessions
}

fn let_in(sessions: &SessionStore, token: &str) -> Admitted {
    handle_ws_auth(Some(token.to_string()), sessions).unwrap()
}

fn join(
    registry: &mut Registry,
    sessions: &SessionStore,
    token: &str,
    id: u128,
) -> (Connection, UnboundedReceiver<String>) {
    let (sender, receiver) = unbounded_channel();
    let admission = open_connection(registry, id, sender, let_in(sessions, token));
    (admission.connection, receiver)
}

fn drain(receiver: &mut UnboundedReceiver<String>) -> Vec<String> {
    let mut frames = Vec::new();
    while let Ok(frame) = receiver.try_recv() {
        frames.push(frame);
    }
    frames
}

fn frame(kind: &str, content: &str, sender: Option<&str>) -> String {
    let sender = match sender {
        Some(name) => format!("\"{}\"", name),
        None => "null".to_string(),
    };
    format!(
        "{{\"kind\":\"{}\",\"content\":\"{}\",\"sender_username\":{},\"filename\":null,\"file_id\":null}}",
        kind, content, sender
    )
}

fn user_message(content: &str, sender: Option<&str>) -> ChatMessage {
    ChatMessage {
        message_type: MessageType::User,
        content: content.to_string(),
        sender_username: sender.map(|s| s.to_string()),
        filename: None,
        file_id: None,
    }
}

#[test]
fn a_known_token_is_let_in_under_its_user() {
    let sessions = sessions();
    let admitted = handle_ws_auth(Some("tok1".to_string()), &sessions).unwrap();
    assert_eq!(admitted.username(), "alice");
    let admitted = handle_ws_auth(Some("tok2".to_string()), &sessions).unwrap();
    assert_eq!(admitted.username(), "bob");
}

#[test]
fn an_unknown_token_is_turned_away_and_nothing_happens() {
    let sessions = sessions();
    let mut registry = Registry::new();
    let (_alice, mut alice_queue) = join(&mut registry, &sessions, "tok1", 1);
    drain(&mut alice_queue);
    let size = registry.len();
    let denied = handle_ws_auth(Some("bogus".to_string()), &sessions);
    assert_eq!(denied.err(), Some(Unauthorized));
    assert_eq!(registry.len(), size);
    assert!(drain(&mut alice_queue).is_empty());
}

#[test]
fn a_missing_token_is_turned_away() {
    assert_eq!(handle_ws_auth(None, &sessions()).err(), Some(Unauthorized));
    assert_eq!(
        handle_ws_auth(Some("tok1".to_string()), &SessionStore::new()).err(),
        Some(Unauthorized)
    );
}

#[test]
fn two_clients_join_and_one_says_hi() {
    let sessions = sessions();
    let mut registry = Registry::new();

    let (alice_sender, mut alice_queue) = unbounded_channel();
    let alice = open_connection(&mut registry, 1, alice_sender, let_in(&sessions, "tok1"));
    assert_eq!(alice.connection.id(), 1);
    assert_eq!(alice.connection.username(), "alice");
    assert!(alice.init.accepted && alice.welcome.accepted);
    assert_eq!(alice.init.frame, frame("Init", "", Some("alice")));
    assert_eq!(alice.welcome.frame, frame("System", "Welcome to the chat, alice!", None));
    assert_eq!(alice.joined.frame, frame("System", "alice has joined the chat.", None));
    assert_eq!(alice.joined.deliveries, vec![Delivery { id: 1, accepted: true }]);

    let (bob_sender, mut bob_queue) = unbounded_channel();
    let bob = open_connection(&mut registry, 2, bob_sender, let_in(&sessions, "tok2"));
    let mut reached: Vec<u128> = bob.joined.deliveries.iter().map(|d| d.id).collect();
    reached.sort();
    assert_eq!(reached, vec![1, 2]);

    let text = frame("User", "hi", Some("alice"));
    let outcome = handle_frame(
        &registry,
        &alice.connection,
        text.clone(),
        Some(user_message("hi", Some("alice"))),
    );
    match outcome {
        FrameOutcome::Broadcast(fanout) => {
            assert_eq!(fanout.frame, text);
            assert_eq!(fanout.deliveries.len(), 2);
        }
        other => panic!("unexpected outcome: {:?}", other),
    }

    assert_eq!(
        drain(&mut alice_queue),
        vec![
            frame("Init", "", Some("alice")),
            frame("System", "Welcome to the chat, alice!", None),
            frame("System", "alice has joined the chat.", None),
            frame("System", "bob has joined the chat.", None),
            frame("User", "hi", Some("alice")),
        ]
    );
    assert_eq!(
        drain(&mut bob_queue),
        vec![
            frame("Init", "", Some("bob")),
            frame("System", "Welcome to the chat, bob!", None),
            frame("System", "bob has joined the chat.", None),
            frame("User", "hi", Some("alice")),
        ]
    );
}

#[test]
fn a_disconnect_removes_the_connection_and_tells_the_rest() {
    let sessions = sessions();
    let mut registry = Registry::new();
    let (alice, mut alice_queue) = join(&mut registry, &sessions, "tok1", 1);
    let (_bob, mut bob_queue) = join(&mut registry, &sessions, "tok2", 2);
    drain(&mut alice_queue);
    drain(&mut bob_queue);

    let left = handle_disconnect(&mut registry, alice);
    assert!(!registry.contains(1));
    assert!(registry.contains(2));
    assert_eq!(registry.len(), 1);
    assert_eq!(left.frame, frame("System", "alice has left the chat.", None));
    assert_eq!(left.deliveries, vec![Delivery { id: 2, accepted: true }]);
    assert_eq!(drain(&mut bob_queue), vec![frame("System", "alice has left the chat.", None)]);
    assert!(drain(&mut alice_queue).is_empty());
}

#[test]
fn a_frame_that_does_not_decode_is_the_text_of_a_user_message() {
    let sessions = sessions();
    let mut registry = Registry::new();
    let (alice, mut alice_queue) = join(&mut registry, &sessions, "tok1", 1);
    drain(&mut alice_queue);
    let raw = "just {some} \"text\"";
    let msg = interpret_frame(raw.to_string(), None, "alice");
    assert_eq!(msg.message_type, MessageType::User);
    assert_eq!(msg.content, raw);
    assert_eq!(msg.sender_username, Some("alice".to_string()));
    assert_eq!(msg.filename, None);
    assert_eq!(msg.file_id, None);

    match handle_frame(&registry, &alice, raw.to_string(), None) {
        FrameOutcome::Broadcast(fanout) => {
            assert_eq!(fanout.frame, frame("User", "just {some} \\\"text\\\"", Some("alice")))
        }
        other => panic!("unexpected outcome: {:?}", other),
    }
    assert_eq!(
        drain(&mut alice_queue),
        vec![frame("User", "just {some} \\\"text\\\"", Some("alice"))]
    );
}

#[test]
fn a_decoded_frame_is_the_message_it_decoded_to() {
    let decoded = user_message("hello", None);
    let msg = interpret_frame("ignored".to_string(), Some(decoded), "alice");
    assert_eq!(msg.message_type, MessageType::User);
    assert_eq!(msg.content, "hello");
    assert_eq!(msg.sender_username, None);
}

#[test]
fn a_user_message_is_relayed_with_the_sender_it_came_with() {
    let sessions = sessions();
    let mut registry = Registry::new();
    let (alice, mut alice_queue) = join(&mut registry, &sessions, "tok1", 1);
    drain(&mut alice_queue);
    let outcome =
        handle_frame(&registry, &alice, String::new(), Some(user_message("hi", Some("mallory"))));
    assert!(matches!(outcome, FrameOutcome::Broadcast(_)));
    assert_eq!(drain(&mut alice_queue), vec![frame("User", "hi", Some("mallory"))]);
}

#[test]
fn system_and_init_messages_from_a_client_are_passed_over() {
    let sessions = sessions();
    let mut registry = Registry::new();
    let (alice, mut alice_queue) = join(&mut registry, &sessions, "tok1", 1);
    drain(&mut alice_queue);
    for kind in [MessageType::System, MessageType::Init] {
        let mut msg = user_message("I am the server", Some("alice"));
        msg.message_type = kind;
        let outcome = handle_frame(&registry, &alice, String::new(), Some(msg));
        assert!(matches!(outcome, FrameOutcome::Ignored));
    }
    assert!(drain(&mut alice_queue).is_empty());
}

#[test]
fn a_file_message_becomes_an_upload_and_is_not_relayed() {
    let sessions = sessions();
    let mut registry = Registry::new();
    let (alice, mut alice_queue) = join(&mut registry, &sessions, "tok1", 1);
    drain(&mut alice_queue);
    let msg = ChatMessage {
        message_type: MessageType::File,
        content: "aGVsbG8=".to_string(),
        sender_username: Some("alice".to_string()),
        filename: Some("hello.txt".to_string()),
        file_id: None,
    };
    match handle_frame(&registry, &alice, String::new(), Some(msg)) {
        FrameOutcome::Upload(upload) => {
            assert_eq!(upload.data, b"hello");
            assert_eq!(upload.filename, "hello.txt");
            assert_eq!(upload.sender_username, "alice");
        }
        other => panic!("unexpected outcome: {:?}", other),
    }
    assert!(drain(&mut alice_queue).is_empty());
}

#[test]
fn a_file_message_that_cannot_be_relayed_is_dropped() {
    let sessions = sessions();
    let mut registry = Registry::new();
    let (alice, mut alice_queue) = join(&mut registry, &sessions, "tok1", 1);
    drain(&mut alice_queue);
    let msg = ChatMessage {
        message_type: MessageType::File,
        content: "not base64!".to_string(),
        sender_username: Some("alice".to_string()),
        filename: Some("hello.txt".to_string()),
        file_id: None,
    };
    assert!(matches!(
        handle_frame(&registry, &alice, String::new(), Some(msg)),
        FrameOutcome::Dropped
    ));
    assert!(drain(&mut alice_queue).is_empty());
}

#[test]
fn new_connections_get_identifiers_of_their_own() {
    let sessions = sessions();
    let mut registry = Registry::new();
    let (first_sender, mut first_queue) = unbounded_channel();
    let first = handle_connection(&mut registry, first_sender, let_in(&sessions, "tok1"));
    let (second_sender, _second_queue) = unbounded_channel();
    let second = handle_connection(&mut registry, second_sender, let_in(&sessions, "tok1"));
    assert_ne!(first.connection.id(), second.connection.id());
    assert!(registry.contains(first.connection.id()));
    assert!(registry.contains(second.connection.id()));
    assert_eq!(registry.len(), 2);
    assert_eq!(second.joined.deliveries.len(), 2);
    assert_eq!(
        drain(&mut first_queue),
        vec![
            frame("Init", "", Some("alice")),
            frame("System", "Welcome to the chat, alice!", None),
            frame("System", "alice has joined the chat.", None),
            frame("System", "alice has joined the chat.", None),
        ]
    );
}

#[test]
fn a_message_is_encoded_once_and_offered_to_everyone() {
    let sessions = sessions();
    let mut registry = Registry::new();
    let (_alice, mut alice_queue) = join(&mut registry, &sessions, "tok1", 1);
    let (_bob, mut bob_queue) = join(&mut registry, &sessions, "tok2", 2);
    drain(&mut alice_queue);
    drain(&mut bob_queue);
    let fanout = broadcast(&registry, &ChatMessage::system("maintenance".to_string()));
    assert_eq!(fanout.frame, frame("System", "maintenance", None));
    assert_eq!(fanout.deliveries.len(), 2);
    assert_eq!(drain(&mut alice_queue), vec![fanout.frame.clone()]);
    assert_eq!(drain(&mut bob_queue), vec![fanout.frame.clone()]);
}

#[test]
fn a_message_for_one_connection_reaches_no_other() {
    let sessions = sessions();
    let mut registry = Registry::new();
    let (_alice, mut alice_queue) = join(&mut registry, &sessions, "tok1", 1);
    let (_bob, mut bob_queue) = join(&mut registry, &sessions, "tok2", 2);
    drain(&mut alice_queue);
    drain(&mut bob_queue);
    let sent = unicast(&registry, 2, &ChatMessage::system("psst".to_string()));
    assert!(sent.accepted);
    assert_eq!(drain(&mut bob_queue), vec![frame("System", "psst", None)]);
    assert!(drain(&mut alice_queue).is_empty());
    let lost = unicast(&registry, 3, &ChatMessage::system("psst".to_string()));
    assert!(!lost.accepted);
}
