use chat_hub::handling_files::{
    announce_file, finish_upload, handle_file_download, handle_file_message, plan_upload,
    serve_file, storage_directory, DownloadReply,
};
use chat_hub::message::{ChatMessage, MessageType};
use chat_hub::registry::{Client, Registry};
use tokio::sync::mpsc::{unbounded_channel, UnboundedReceiver};

fn upload_request(content: &str, filename: Option<&str>, sender: Option<&str>) -> ChatMessage {
    ChatMessage {
        message_type: MessageType::File,
        content: content.to_string(),
        sender_username: sender.map(|s| s.to_string()),
        filename: filename.map(|s| s.to_string()),
        file_id: None,
    }
}

fn connect(registry: &mut Registry, id: u128) -> UnboundedReceiver<String> {
    let (sender, receiver) = unbounded_channel();
    registry.register(id, Client { sender });
    receiver
}

fn listing(names: &[&str]) -> Vec<String> {
    names.iter().map(|s| s.to_string()).collect()
}

fn not_found(reply: DownloadReply) -> String {
    assert_eq!(reply.status(), 404);
    match reply {
        DownloadReply::NotFound { message } => message,
        other => panic!("unexpected reply: {:?}", other),
    }
}

#[test]
fn an_upload_is_decoded_and_given_a_place_in_the_store() {
    let upload =
        handle_file_message(upload_request("aGVsbG8gd29ybGQ=", Some("hello.txt"), Some("alice")))
            .unwrap();
    assert_eq!(upload.data, b"hello world");
    assert_eq!(upload.filename, "hello.txt");
    assert_eq!(upload.sender_username, "alice");
    assert_eq!(upload.path, format!("./uploads/{}_hello.txt", upload.file_id));
}

#[test]
fn a_file_identifier_is_a_hyphenated_uuid() {
    let upload = handle_file_message(upload_request("", Some("empty"), Some("alice"))).unwrap();
    assert!(upload.data.is_empty());
    assert_eq!(upload.file_id.len(), 36);
    for (i, c) in upload.file_id.chars().enumerate() {
        if i == 8 || i == 13 || i == 18 || i == 23 {
            assert_eq!(c, '-');
        } else {
            assert!(c.is_ascii_digit() || ('a'..='f').contains(&c));
        }
    }
    assert_eq!(uuid::Uuid::parse_str(&upload.file_id).unwrap().to_string(), upload.file_id);
    let other = handle_file_message(upload_request("", Some("empty"), Some("alice"))).unwrap();
    assert_ne!(upload.file_id, other.file_id);
}

#[test]
fn an_upload_without_a_name_or_a_sender_is_dropped() {
    assert!(handle_file_message(upload_request("aGk=", None, Some("alice"))).is_none());
    assert!(handle_file_message(upload_request("aGk=", Some("a.txt"), None)).is_none());
    assert!(handle_file_message(upload_request("aGk=", None, None)).is_none());
}

#[test]
fn an_upload_that_is_not_base64_is_dropped() {
    for content in ["###", "aGk", "aGk=="] {
        assert!(
            handle_file_message(upload_request(content, Some("a.txt"), Some("alice"))).is_none()
        );
    }
    assert!(handle_file_message(upload_request("aGk=", Some("a.txt"), Some("alice"))).is_some());
}

#[test]
fn a_planned_upload_keeps_what_it_was_given() {
    let upload = plan_upload(
        "id-1".to_string(),
        "my file.bin".to_string(),
        "bob".to_string(),
        vec![0, 255, 7],
    );
    assert_eq!(upload.file_id, "id-1");
    assert_eq!(upload.filename, "my file.bin");
    assert_eq!(upload.sender_username, "bob");
    assert_eq!(upload.path, "./uploads/id-1_my file.bin");
    assert_eq!(upload.data, vec![0, 255, 7]);
    assert_eq!(storage_directory(), "./uploads");
}

#[test]
fn the_notice_of_a_file_has_its_metadata_and_no_content() {
    let mut registry = Registry::new();
    let mut a = connect(&mut registry, 1);
    let mut b = connect(&mut registry, 2);
    let upload =
        plan_upload("id-1".to_string(), "a.txt".to_string(), "alice".to_string(), vec![1, 2, 3]);
    let notice = announce_file(&registry, &upload);
    let expected = "{\"kind\":\"File\",\"content\":\"\",\"sender_username\":\"alice\",\"filename\":\"a.txt\",\"file_id\":\"id-1\"}";
    assert_eq!(notice.frame, expected);
    assert_eq!(notice.deliveries.len(), 2);
    assert_eq!(a.try_recv().unwrap(), expected);
    assert_eq!(b.try_recv().unwrap(), expected);
    assert!(a.try_recv().is_err());
}

#[test]
fn only_a_file_that_was_written_is_announced() {
    let mut registry = Registry::new();
    let mut a = connect(&mut registry, 1);
    let upload = plan_upload("id-1".to_string(), "a.txt".to_string(), "alice".to_string(), vec![]);
    assert!(finish_upload(&registry, &upload, false).is_none());
    assert!(a.try_recv().is_err());
    let notice = finish_upload(&registry, &upload, true).unwrap();
    assert_eq!(a.try_recv().unwrap(), notice.frame);
}

#[test]
fn a_missing_store_is_a_not_found() {
    let reply = handle_file_download("abc", None).unwrap_err();
    assert_eq!(not_found(reply), "Uploads directory not found");
}

#[test]
fn an_identifier_without_a_stored_file_is_a_not_found() {
    let entries = listing(&["abd_a.txt", "abcd_b.txt", "xabc_c.txt", "abc", "ab_c_d"]);
    let reply = handle_file_download("abc", Some(&entries)).unwrap_err();
    assert_eq!(not_found(reply), "File not found");
    let reply = handle_file_download("abc", Some(&Vec::new())).unwrap_err();
    assert_eq!(not_found(reply), "File not found");
}

#[test]
fn a_stored_file_is_found_by_its_identifier() {
    let entries = listing(&["zzz_other.png", "abc_report_final.txt", "abc_second.txt"]);
    let entry = handle_file_download("abc", Some(&entries)).unwrap();
    assert_eq!(entry.index, 1);
    assert_eq!(entry.filename, "report_final.txt");
    assert_eq!(entry.content_type, "text/plain");
    assert_eq!(entry.content_disposition, "attachment; filename=\"report_final.txt\"");
}

#[test]
fn the_content_type_goes_by_the_extension() {
    let entries = listing(&["1_a.png", "2_b.json", "3_c", "4_d.unknownext", "5_E.HTML", "6_"]);
    let types: Vec<String> = ["1", "2", "3", "4", "5", "6"]
        .iter()
        .map(|id| handle_file_download(id, Some(&entries)).unwrap().content_type)
        .collect();
    assert_eq!(
        types,
        vec![
            "image/png",
            "application/json",
            "application/octet-stream",
            "application/octet-stream",
            "text/html",
            "application/octet-stream",
        ]
    );
    assert_eq!(handle_file_download("6", Some(&entries)).unwrap().filename, "");
}

#[test]
fn names_beyond_ascii_are_stripped_by_characters() {
    let entries = listing(&["ключ_файл é.txt"]);
    let entry = handle_file_download("ключ", Some(&entries)).unwrap();
    assert_eq!(entry.filename, "файл é.txt");
    assert_eq!(entry.content_disposition, "attachment; filename=\"файл é.txt\"");
}

#[test]
fn a_file_that_was_read_is_served_byte_for_byte() {
    let entries = listing(&["abc_a.bin"]);
    let entry = handle_file_download("abc", Some(&entries)).unwrap();
    let reply = serve_file(entry, Some(vec![0, 1, 2, 254, 255]));
    assert_eq!(reply.status(), 200);
    match reply {
        DownloadReply::File { content, content_type, content_disposition } => {
            assert_eq!(content, vec![0, 1, 2, 254, 255]);
            assert_eq!(content_type, "application/octet-stream");
            assert_eq!(content_disposition, "attachment; filename=\"a.bin\"");
        }
        other => panic!("unexpected reply: {:?}", other),
    }
}

#[test]
fn a_file_that_cannot_be_read_is_an_internal_error() {
    let entries = listing(&["abc_a.bin"]);
    let entry = handle_file_download("abc", Some(&entries)).unwrap();
    let reply = serve_file(entry, None);
    assert_eq!(reply.status(), 500);
    match reply {
        DownloadReply::ReadError { message } => assert_eq!(message, "Error reading file"),
        other => panic!("unexpected reply: {:?}", other),
    }
}

#[test]
fn what_was_uploaded_is_what_comes_back() {
    let upload =
        handle_file_message(upload_request("3q2+7w==", Some("dead_beef.bin"), Some("alice")))
            .unwrap();
    assert_eq!(upload.data, vec![0xde, 0xad, 0xbe, 0xef]);
    let stored = upload.path.strip_prefix("./uploads/").unwrap().to_string();
    let entries = vec!["00000000-0000-4000-8000-000000000000_x.bin".to_string(), stored];
    let entry = handle_file_download(&upload.file_id, Some(&entries)).unwrap();
    assert_eq!(entry.index, 1);
    assert_eq!(entry.filename, "dead_beef.bin");
    match serve_file(entry, Some(upload.data.clone())) {
        DownloadReply::File { content, content_disposition, .. } => {
            assert_eq!(content, vec![0xde, 0xad, 0xbe, 0xef]);
            assert_eq!(content_disposition, "attachment; filename=\"dead_beef.bin\"");
        }
        other => panic!("unexpected reply: {:?}", other),
    }
}
