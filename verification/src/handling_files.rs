//! The file relay: an upload is decoded and given a place in the store, a
//! notice without the payload goes to everyone, and a stored file is found
//! again by its identifier.

use vstd::prelude::*;
use vstd::string::{StrSliceExecFns, StringExecFns};

use crate::chat::{broadcast, Fanout};
use crate::codec::{json_text, wire_text};
use crate::ident::{fresh_uuid, hyphenated, uuid_text};
use crate::message::{file_view, ChatMessage, MessageType, MessageView};
use crate::registry::Registry;
use crate::text::starts_with;

verus! {

/// The bytes that a base64 text stands for, where it stands for any.
pub uninterp spec fn base64_decoding(text: Seq<char>) -> Option<Seq<u8>>;

/// The content type that goes with a file name, by its extension as the
/// platform's paths define it.
pub uninterp spec fn guessed_mime(name: Seq<char>) -> Seq<char>;

/// Calls `base64::decode`, which reads the standard alphabet with padding.
/// The contract gives its result the name [`base64_decoding`], `None`
/// standing for any error: it depends on the text alone.
#[verifier::external_body]
#[allow(deprecated)]
fn decode_base64(text: &str) -> (bytes: Option<Vec<u8>>)
    ensures
        match bytes {
            Some(b) => base64_decoding(text@) == Some(b@),
            None => base64_decoding(text@) is None,
        },
{
    base64::decode(text).ok()
}

/// Calls `mime_guess::from_path` and takes the first guess, or
/// `application/octet-stream` where there is none, as text. The contract
/// gives its result the name [`guessed_mime`]: it depends on the file name
/// alone.
#[verifier::external_body]
fn guess_content_type(name: &str) -> (mime: String)
    ensures
        mime@ == guessed_mime(name@),
{
    mime_guess::from_path(name).first_or_octet_stream().to_string()
}

/// The name under which a file is stored: its identifier, an underscore,
/// and the name it was sent with.
pub open spec fn stored_name(file_id: Seq<char>, filename: Seq<char>) -> Seq<char> {
    file_id + "_"@ + filename
}

/// Where a file is stored: in a flat directory, under its stored name.
pub open spec fn storage_path(file_id: Seq<char>, filename: Seq<char>) -> Seq<char> {
    "./uploads"@ + "/"@ + stored_name(file_id, filename)
}

/// The header that has the client save the file under `filename`.
pub open spec fn disposition_text(filename: Seq<char>) -> Seq<char> {
    "attachment; filename=\""@ + filename + "\""@
}

/// Whether a directory entry is stored under the identifier `file_id`.
pub open spec fn stored_under(entry: Seq<char>, file_id: Seq<char>) -> bool {
    (file_id + "_"@).is_prefix_of(entry)
}

/// What follows the identifier and the underscore in an entry's name.
pub open spec fn original_name(entry: Seq<char>, file_id: Seq<char>) -> Seq<char> {
    entry.subrange(file_id.len() as int + 1, entry.len() as int)
}

/// The names of a listing as texts.
pub open spec fn names(listing: Seq<String>) -> Seq<Seq<char>> {
    listing.map_values(|name: String| name@)
}

/// The entry at `index` is the first, in the listing's order, that is
/// stored under `file_id`.
pub open spec fn first_stored_under(entries: Seq<Seq<char>>, file_id: Seq<char>, index: int) -> bool {
    &&& 0 <= index < entries.len()
    &&& stored_under(entries[index], file_id)
    &&& forall|j: int| 0 <= j < index ==> !stored_under(#[trigger] entries[j], file_id)
}

/// No entry of the listing is stored under `file_id`.
pub open spec fn none_stored_under(entries: Seq<Seq<char>>, file_id: Seq<char>) -> bool {
    forall|j: int| 0 <= j < entries.len() ==> !stored_under(#[trigger] entries[j], file_id)
}

/// An upload that is ready to be written.
#[derive(Debug)]
pub struct FileUpload {
    /// The identifier under which the file will be known.
    pub file_id: String,
    /// The name the file was sent with.
    pub filename: String,
    /// Who sent it.
    pub sender_username: String,
    /// Where to write it.
    pub path: String,
    /// What to write: the payload, decoded.
    pub data: Vec<u8>,
}

impl FileUpload {
    /// The upload of `filename` by `sender`, stored under `file_id`.
    pub open spec fn is_upload_of(
        self,
        file_id: Seq<char>,
        filename: Seq<char>,
        sender: Seq<char>,
        data: Seq<u8>,
    ) -> bool {
        &&& self.file_id@ == file_id
        &&& self.filename@ == filename
        &&& self.sender_username@ == sender
        &&& self.path@ == storage_path(file_id, filename)
        &&& self.data@ == data
    }

    /// The notice that tells everyone of this file.
    pub open spec fn notice(self) -> MessageView {
        file_view(self.sender_username@, self.filename@, self.file_id@)
    }
}

/// A message can be relayed when it names a file and a sender and its
/// content is base64.
pub open spec fn uploadable(msg: MessageView) -> bool {
    &&& msg.filename is Some
    &&& msg.sender_username is Some
    &&& base64_decoding(msg.content) is Some
}

/// Gives the decoded upload its place in the store under `file_id`.
pub fn plan_upload(file_id: String, filename: String, sender: String, data: Vec<u8>) -> (upload:
    FileUpload)
    ensures
        upload.is_upload_of(file_id@, filename@, sender@, data@),
{
    let mut path = storage_directory();
    path.append("/");
    path.append(file_id.as_str());
    path.append("_");
    path.append(filename.as_str());
    assert(path@ =~= storage_path(file_id@, filename@));
    FileUpload { file_id, filename, sender_username: sender, path, data }
}

/// Prepares the upload that a `File` message asks for, under a newly drawn
/// identifier. A message without a file name or a sender, or whose content
/// is not base64, is dropped: the result is `None`.
pub fn handle_file_message(chat_msg: ChatMessage) -> (upload: Option<FileUpload>)
    ensures
        upload is Some <==> uploadable(chat_msg@),
        upload matches Some(u) ==> {
            &&& exists|bits: u128| u.file_id@ == #[trigger] hyphenated(bits)
            &&& u.file_id@.len() == 36
            &&& u.is_upload_of(
                u.file_id@,
                chat_msg@.filename->0,
                chat_msg@.sender_username->0,
                base64_decoding(chat_msg@.content)->0,
            )
        },
{
    let ChatMessage { message_type: _, content, sender_username, filename, file_id: _ } = chat_msg;
    match (filename, sender_username) {
        (Some(filename), Some(sender)) => match decode_base64(content.as_str()) {
            Some(data) => {
                let file_id = uuid_text(fresh_uuid());
                Some(plan_upload(file_id, filename, sender, data))
            },
            None => None,
        },
        _ => None,
    }
}

/// Tells everyone of a stored file: who sent it, its name and its
/// identifier, and nothing of its content.
pub fn announce_file(clients: &Registry, upload: &FileUpload) -> (notice: Fanout)
    ensures
        notice.carries(upload.notice(), clients@.dom()),
{
    let msg = ChatMessage::file(
        upload.sender_username.clone(),
        upload.filename.clone(),
        upload.file_id.clone(),
    );
    broadcast(clients, &msg)
}

/// Ends an upload once the write has been tried: a file that was written
/// is announced to everyone, one that was not is dropped without a word.
pub fn finish_upload(clients: &Registry, upload: &FileUpload, written: bool) -> (notice: Option<
    Fanout,
>)
    ensures
        notice is Some <==> written,
        notice matches Some(fanout) ==> fanout.carries(upload.notice(), clients@.dom()),
{
    if written {
        Some(announce_file(clients, upload))
    } else {
        None
    }
}

/// The directory that holds the stored files.
pub fn storage_directory() -> (directory: String)
    ensures
        directory@ == "./uploads"@,
{
    String::from_str("./uploads")
}

/// A stored file that a request has found.
#[derive(Debug)]
pub struct StoredEntry {
    /// Its place in the listing.
    pub index: usize,
    /// The name it was sent with.
    pub filename: String,
    /// The content type that goes with that name.
    pub content_type: String,
    /// The header that has the client save it under that name.
    pub content_disposition: String,
}

/// The answer to a request for a file.
#[derive(Debug)]
pub enum DownloadReply {
    /// Nothing is stored under the identifier.
    NotFound { message: String },
    /// The file is there and could not be read.
    ReadError { message: String },
    /// The file, byte for byte, with its headers.
    File { content: Vec<u8>, content_type: String, content_disposition: String },
}

impl DownloadReply {
    pub open spec fn spec_status(&self) -> u16 {
        match self {
            DownloadReply::NotFound { .. } => 404,
            DownloadReply::ReadError { .. } => 500,
            DownloadReply::File { .. } => 200,
        }
    }

    /// The HTTP status of the answer.
    #[verifier::when_used_as_spec(spec_status)]
    pub fn status(&self) -> (code: u16)
        ensures
            code == self.spec_status(),
    {
        match self {
            DownloadReply::NotFound { .. } => 404,
            DownloadReply::ReadError { .. } => 500,
            DownloadReply::File { .. } => 200,
        }
    }
}

/// Looks a file up by its identifier in the listing of the store, `None`
/// standing for a store that is not there. The first entry, in the
/// listing's order, whose name begins with the identifier and an underscore
/// is the file; without one the answer is that nothing was found.
pub fn handle_file_download(file_id: &str, listing: Option<&Vec<String>>) -> (lookup: Result<
    StoredEntry,
    DownloadReply,
>)
    ensures
        match lookup {
            Ok(entry) => {
                &&& listing matches Some(l)
                &&& first_stored_under(names(l@), file_id@, entry.index as int)
                &&& entry.filename@ == original_name(l@[entry.index as int]@, file_id@)
                &&& entry.content_type@ == guessed_mime(l@[entry.index as int]@)
                &&& entry.content_disposition@ == disposition_text(entry.filename@)
            },
            Err(DownloadReply::NotFound { message }) => match listing {
                Some(l) => none_stored_under(names(l@), file_id@) && message@ == "File not found"@,
                None => message@ == "Uploads directory not found"@,
            },
            Err(_) => false,
        },
{
    let entries = match listing {
        Some(entries) => entries,
        None => {
            return Err(
                DownloadReply::NotFound { message: String::from_str("Uploads directory not found") },
            );
        },
    };
    let mut prefix = String::from_str(file_id);
    prefix.append("_");
    let id_len = file_id.unicode_len();
    let mut i: usize = 0;
    while i < entries.len()
        invariant
            i <= entries.len(),
            listing == Some(entries),
            prefix@ == file_id@ + "_"@,
            id_len == file_id@.len(),
            forall|j: int| 0 <= j < i ==> !stored_under(#[trigger] names(entries@)[j], file_id@),
        decreases entries.len() - i,
    {
        let name = entries[i].as_str();
        assert(names(entries@)[i as int] == name@);
        if starts_with(name, prefix.as_str()) {
            let name_len = name.unicode_len();
            proof {
                reveal_strlit("_");
                assert(prefix@.len() == id_len + 1);
                assert(prefix@.len() <= name@.len());
            }
            let filename = String::from_str(name.substring_char(id_len + 1, name_len));
            let mut content_disposition = String::from_str("attachment; filename=\"");
            content_disposition.append(filename.as_str());
            content_disposition.append("\"");
            return Ok(
                StoredEntry {
                    index: i,
                    filename,
                    content_type: guess_content_type(name),
                    content_disposition,
                },
            );
        }
        i = i + 1;
    }
    Err(DownloadReply::NotFound { message: String::from_str("File not found") })
}

/// Answers with the file once its bytes have been read, `None` standing for
/// a read that failed.
pub fn serve_file(entry: StoredEntry, read: Option<Vec<u8>>) -> (reply: DownloadReply)
    ensures
        match read {
            Some(bytes) => reply == (DownloadReply::File {
                content: bytes,
                content_type: entry.content_type,
                content_disposition: entry.content_disposition,
            }),
            None => reply matches DownloadReply::ReadError { message } && message@
                == "Error reading file"@,
        },
{
    match read {
        Some(content) => DownloadReply::File {
            content,
            content_type: entry.content_type,
            content_disposition: entry.content_disposition,
        },
        None => DownloadReply::ReadError { message: String::from_str("Error reading file") },
    }
}

/// A notice of a stored file never carries content: whatever the upload
/// held, the frame that goes to everyone has the kind `File`, an empty
/// content, and the sender, the name and the identifier of the file.
pub proof fn law_file_notice_has_no_content(upload: FileUpload)
    ensures
        upload.notice().kind == MessageType::File,
        upload.notice().content.len() == 0,
        upload.notice().is_conformant(),
        wire_text(upload.notice()) == "{\"kind\":\"File\",\"content\":\"\",\"sender_username\":"@
            + json_text(upload.sender_username@) + ",\"filename\":"@ + json_text(upload.filename@)
            + ",\"file_id\":"@ + json_text(upload.file_id@) + "}"@,
{
    reveal_strlit("{\"kind\":");
    reveal_strlit("\"File\"");
    reveal_strlit(",\"content\":");
    reveal_strlit(",\"sender_username\":");
    reveal_strlit("{\"kind\":\"File\",\"content\":\"\",\"sender_username\":");
    let empty = Seq::<char>::empty();
    assert(json_text(empty) =~= seq!['"', '"']) by {
        assert(crate::codec::escaped_text(empty) =~= empty);
    }
    assert("{\"kind\":"@ + "\"File\""@ + ",\"content\":"@ + json_text(empty)
        + ",\"sender_username\":"@
        =~= "{\"kind\":\"File\",\"content\":\"\",\"sender_username\":"@);
}

/// A file that was written is found again by its identifier, under the
/// name it was sent with: where the entry written for it is the first in
/// the listing that is stored under the identifier, the lookup picks that
/// entry, and what it strips the identifier from is the original name.
pub proof fn law_stored_file_is_found(
    entries: Seq<Seq<char>>,
    file_id: Seq<char>,
    filename: Seq<char>,
    index: int,
)
    requires
        0 <= index < entries.len(),
        entries[index] == stored_name(file_id, filename),
        forall|j: int| 0 <= j < index ==> !stored_under(#[trigger] entries[j], file_id),
    ensures
        first_stored_under(entries, file_id, index),
        original_name(entries[index], file_id) == filename,
        disposition_text(original_name(entries[index], file_id)) == disposition_text(filename),
{
    reveal_strlit("_");
    let prefix = file_id + "_"@;
    assert(stored_name(file_id, filename).subrange(0, prefix.len() as int) =~= prefix);
    assert(original_name(stored_name(file_id, filename), file_id) =~= filename);
}

/// Identifiers of one length do not take each other's files: a file
/// stored under one of them is stored under no other.
pub proof fn law_identifiers_of_one_length_do_not_clash(
    file_id: Seq<char>,
    other_id: Seq<char>,
    other_name: Seq<char>,
)
    requires
        file_id.len() == other_id.len(),
        stored_under(stored_name(other_id, other_name), file_id),
    ensures
        other_id == file_id,
{
    reveal_strlit("_");
    let entry = stored_name(other_id, other_name);
    let prefix = file_id + "_"@;
    assert(prefix =~= entry.subrange(0, prefix.len() as int));
    assert forall|i: int| 0 <= i < file_id.len() implies file_id[i] == other_id[i] by {
        assert(prefix[i] == file_id[i]);
        assert(entry.subrange(0, prefix.len() as int)[i] == entry[i]);
        assert(entry[i] == other_id[i]);
    }
    assert(other_id =~= file_id);
}

} // verus!
