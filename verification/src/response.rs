//! Responses: a status, an optional content type and a body, and the bytes
//! that go on the wire for them.

use vstd::prelude::*;
use vstd::string::{StrSliceExecFns, StringExecFns};
use vstd::utf8::encode_utf8;

verus! {

/// The statuses that the server answers with.
#[derive(Clone, Copy, Debug, PartialEq, Eq, Structural)]
pub enum Status {
    Success,
    Created,
    Unauthorized,
    NotFound,
    MethodNotAllowed,
}

/// What the server answers.
#[derive(Debug)]
pub struct Response {
    pub status: Status,
    /// The MIME type of the body, where the body is a file.
    pub content_type: Option<&'static str>,
    pub body: Vec<u8>,
}

/// A response as plain values.
pub struct ResponseView {
    pub status: Status,
    pub content_type: Option<Seq<char>>,
    pub body: Seq<u8>,
}

impl View for Response {
    type V = ResponseView;

    open spec fn view(&self) -> ResponseView {
        ResponseView {
            status: self.status,
            content_type: match self.content_type {
                Some(mime) => Some(mime@),
                None => None,
            },
            body: self.body@,
        }
    }
}

/// The status line of each status, without its line ending.
pub open spec fn status_text(status: Status) -> Seq<char> {
    match status {
        Status::Success => "HTTP/1.1 200 OK"@,
        Status::Created => "HTTP/1.1 201 Created"@,
        Status::Unauthorized => "HTTP/1.1 401 Unauthorized"@,
        Status::NotFound => "HTTP/1.1 404 Not Found"@,
        Status::MethodNotAllowed => "HTTP/1.1 405 Method Not Allowed"@,
    }
}

/// The head of a response: the status line, the content type where there is
/// one, and the empty line that ends the head.
pub open spec fn head_text(response: ResponseView) -> Seq<char> {
    match response.content_type {
        Some(mime) => status_text(response.status) + "\r\nContent-Type: "@ + mime
            + "; charset=UTF-8\r\n\r\n"@,
        None => status_text(response.status) + "\r\n\r\n"@,
    }
}

/// The bytes of a response: its head in UTF-8, then its body.
pub open spec fn wire_bytes(response: ResponseView) -> Seq<u8> {
    encode_utf8(head_text(response)) + response.body
}

impl Status {
    /// The status line, without its line ending.
    pub fn line(self) -> (text: &'static str)
        ensures
            text@ == status_text(self),
    {
        match self {
            Status::Success => "HTTP/1.1 200 OK",
            Status::Created => "HTTP/1.1 201 Created",
            Status::Unauthorized => "HTTP/1.1 401 Unauthorized",
            Status::NotFound => "HTTP/1.1 404 Not Found",
            Status::MethodNotAllowed => "HTTP/1.1 405 Method Not Allowed",
        }
    }
}

impl Response {
    /// A response with a status and a note for the reader, or none.
    pub fn with_note(status: Status, note: &str) -> (r: Response)
        ensures
            r@ == (ResponseView { status, content_type: None, body: encode_utf8(note@) }),
    {
        Response { status, content_type: None, body: note.as_bytes_vec() }
    }

    /// The head of the response as text.
    pub fn head(&self) -> (text: String)
        ensures
            text@ == head_text(self@),
    {
        let mut text = String::from_str(self.status.line());
        match self.content_type {
            Some(mime) => {
                text.append("\r\nContent-Type: ");
                text.append(mime);
                text.append("; charset=UTF-8\r\n\r\n");
            },
            None => {
                text.append("\r\n\r\n");
            },
        }
        text
    }

    /// The bytes to send: the head, then the body.
    pub fn to_bytes(self) -> (bytes: Vec<u8>)
        ensures
            bytes@ == wire_bytes(self@),
    {
        let head = self.head();
        let mut bytes = head.as_str().as_bytes_vec();
        let mut body = self.body;
        bytes.append(&mut body);
        bytes
    }
}

} // verus!
