//! The files of the web front end.
//!
//! The files themselves are kept by the caller. This module says which
//! file a request asks for and what the answer looks like.

use vstd::prelude::*;
use vstd::string::*;
use crate::api::STATUS_OK;

verus! {

/// The file served where a request names none.
pub const INDEX_FILE: &'static str = "index.html";

/// There is no such file.
pub const STATUS_NOT_FOUND: u16 = 404;

/// What a request for a missing file is told.
pub const NOT_FOUND_TEXT: &'static str = "Not found";

/// The answer to a request for a file.
#[derive(Debug)]
pub struct FileReply {
    pub status: u16,
    /// The media type of the body, where one is stated.
    pub content_type: Option<String>,
    pub body: Vec<u8>,
}

/// Mathematical value of a [`FileReply`].
pub ghost struct FileReplyView {
    pub status: u16,
    pub content_type: Option<Seq<char>>,
    pub body: Seq<u8>,
}

impl View for FileReply {
    type V = FileReplyView;

    open spec fn view(&self) -> FileReplyView {
        FileReplyView {
            status: self.status,
            content_type: match self.content_type {
                Some(t) => Some(t@),
                None => None,
            },
            body: self.body@,
        }
    }
}

/// The file that a request for `filename` asks for.
pub open spec fn asset_path_spec(filename: Seq<char>) -> Seq<char> {
    if filename.len() == 0 {
        INDEX_FILE@
    } else {
        filename
    }
}

/// The answer that hands out `content` as `content_type`.
pub open spec fn found_reply_spec(content: Seq<u8>, content_type: Seq<char>) -> FileReplyView {
    FileReplyView { status: STATUS_OK, content_type: Some(content_type), body: content }
}

/// The answer to a request for a file that is not there.
pub open spec fn not_found_reply_spec() -> FileReplyView {
    FileReplyView {
        status: STATUS_NOT_FOUND,
        content_type: None,
        body: vstd::utf8::encode_utf8(NOT_FOUND_TEXT@),
    }
}

/// The file that a request for `filename` asks for: the index where it
/// names none.
pub fn asset_path<'a>(filename: &'a str) -> (path: &'a str)
    ensures
        path@ == asset_path_spec(filename@),
{
    if filename.is_empty() {
        INDEX_FILE
    } else {
        filename
    }
}

/// Guesses the media type of the file at `path` from its extension, with
/// `mime_guess::from_path` and `MimeGuess::first_or_octet_stream`.
///
/// Nothing is taken on trust of the guess. What counts as the extension
/// is decided by the platform's rules for paths.
#[verifier::external_body]
fn guess_content_type(path: &str) -> (content_type: String) {
    mime_guess::from_path(path).first_or_octet_stream().as_ref().to_owned()
}

/// The answer that hands out `content` as `content_type`.
pub fn found_reply(content: Vec<u8>, content_type: String) -> (reply: FileReply)
    ensures
        reply@ == found_reply_spec(content@, content_type@),
{
    FileReply { status: STATUS_OK, content_type: Some(content_type), body: content }
}

/// The answer to a request for a file that is not there.
pub fn not_found_reply() -> (reply: FileReply)
    ensures
        reply@ == not_found_reply_spec(),
{
    FileReply { status: STATUS_NOT_FOUND, content_type: None, body: NOT_FOUND_TEXT.as_bytes_vec() }
}

/// The answer to a request for the file at `path`, given what the caller
/// holds under that path. A file that is there is handed out as it is,
/// with the media type that its name suggests.
pub fn serve_static(path: &str, content: Option<Vec<u8>>) -> (reply: FileReply)
    ensures
        match content {
            None => reply@ == not_found_reply_spec(),
            Some(bytes) => exists|content_type: Seq<char>|
                reply@ == #[trigger] found_reply_spec(bytes@, content_type),
        },
{
    match content {
        None => not_found_reply(),
        Some(bytes) => {
            let content_type = guess_content_type(path);
            found_reply(bytes, content_type)
        },
    }
}

} // verus!
