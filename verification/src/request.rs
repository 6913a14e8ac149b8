//! The request parser: from the bytes of a request to its method, path,
//! body length and authorization line. Parsing never fails; what is missing
//! falls back to a default.

use crate::text::{
    chars_of, find_line, find_line_with_prefix, first_line, first_token, line_stop_from,
    parse_decimal, parse_usize, second_token, token_from,
};
use vstd::prelude::*;
use vstd::slice::slice_subrange;
use vstd::string::StrSliceExecFns;
use vstd::utf8::{decode_utf8, valid_utf8};

verus! {

/// The method of a request.
#[derive(Clone, Copy, Debug, PartialEq, Eq, Structural)]
pub enum Method {
    Get,
    Post,
    Put,
    Delete,
    Other,
}

/// What the server reads out of a request.
#[derive(Clone, Debug)]
pub struct Request {
    pub method: Method,
    pub path: String,
    pub content_length: usize,
    /// The whole authorization line, name included, where there is one.
    pub authorization: Option<String>,
}

/// A request as plain values.
pub struct RequestView {
    pub method: Method,
    pub path: Seq<char>,
    pub content_length: usize,
    pub authorization: Option<Seq<char>>,
}

impl View for Request {
    type V = RequestView;

    open spec fn view(&self) -> RequestView {
        RequestView {
            method: self.method,
            path: self.path@,
            content_length: self.content_length,
            authorization: match self.authorization {
                Some(line) => Some(line@),
                None => None,
            },
        }
    }
}

/// The method that a token names. The comparison is exact: `get` names none.
pub open spec fn method_of(token: Seq<char>) -> Method {
    if token == "GET"@ {
        Method::Get
    } else if token == "POST"@ {
        Method::Post
    } else if token == "PUT"@ {
        Method::Put
    } else if token == "DELETE"@ {
        Method::Delete
    } else {
        Method::Other
    }
}

/// The part of `s` within `bounds`, or `default` where there are none.
pub open spec fn slice_or(s: Seq<char>, bounds: Option<(int, int)>, default: Seq<char>) -> Seq<
    char,
> {
    match bounds {
        Some((from, to)) => s.subrange(from, to),
        None => default,
    }
}

/// The request line: the first line of the text, or nothing.
pub open spec fn request_line(text: Seq<char>) -> Seq<char> {
    slice_or(text, first_line(text), Seq::empty())
}

/// The method: named by the first token of the request line.
pub open spec fn method_spec(text: Seq<char>) -> Method {
    let line = request_line(text);
    method_of(slice_or(line, first_token(line), Seq::empty()))
}

/// The path: the second token of the request line, or `/`.
pub open spec fn path_spec(text: Seq<char>) -> Seq<char> {
    let line = request_line(text);
    slice_or(line, second_token(line), "/"@)
}

/// The authorization line: the first line that starts with `authorization:`
/// in any case of its letters.
pub open spec fn authorization_spec(text: Seq<char>) -> Option<Seq<char>> {
    match find_line(text, 0, "authorization:"@) {
        Some((from, to)) => Some(text.subrange(from, to)),
        None => None,
    }
}

/// The number that the second token of `line` writes, or 0.
pub open spec fn length_value(line: Seq<char>) -> usize {
    match second_token(line) {
        Some((from, to)) => match parse_decimal(line.subrange(from, to)) {
            Some(n) => n,
            None => 0,
        },
        None => 0,
    }
}

/// The body length: the number on the first line that starts with
/// `content-length:` in any case of its letters. It is 0 where there is no
/// such line, or where that line holds no number that fits.
pub open spec fn content_length_spec(text: Seq<char>) -> usize {
    match find_line(text, 0, "content-length:"@) {
        Some((from, to)) => length_value(text.subrange(from, to)),
        None => 0,
    }
}

/// The request that a text holds.
pub open spec fn parse_spec(text: Seq<char>) -> RequestView {
    RequestView {
        method: method_spec(text),
        path: path_spec(text),
        content_length: content_length_spec(text),
        authorization: authorization_spec(text),
    }
}

/// What lossy UTF-8 decoding makes of a sequence of bytes.
pub uninterp spec fn utf8_lossy(bytes: Seq<u8>) -> Seq<char>;

/// Calls `String::from_utf8_lossy`, which decodes bytes as UTF-8 and puts
/// U+FFFD in place of what is not valid. The contract names the result, and
/// claims one thing of it: bytes that are valid UTF-8 decode to the text they
/// encode. Where and how often U+FFFD is put is not claimed.
#[verifier::external_body]
fn decode_lossy(bytes: &[u8]) -> (text: String)
    ensures
        text@ == utf8_lossy(bytes@),
        valid_utf8(bytes@) ==> text@ == decode_utf8(bytes@),
{
    String::from_utf8_lossy(bytes).into_owned()
}

/// Tests whether `a` holds exactly the characters of `b`.
pub fn chars_equal(a: &[char], b: &str) -> (r: bool)
    ensures
        r == (a@ == b@),
{
    let other = chars_of(b);
    if a.len() != other.len() {
        return false;
    }
    let mut i: usize = 0;
    while i < a.len()
        invariant
            i <= a@.len() == other@.len(),
            other@ == b@,
            forall|j: int| 0 <= j < i ==> a@[j] == other@[j],
        decreases a@.len() - i,
    {
        if a[i] != other[i] {
            return false;
        }
        i += 1;
    }
    assert(a@ =~= b@);
    true
}

/// Names the method that `token` stands for.
pub fn classify_method(token: &[char]) -> (m: Method)
    ensures
        m == method_of(token@),
{
    if chars_equal(token, "GET") {
        Method::Get
    } else if chars_equal(token, "POST") {
        Method::Post
    } else if chars_equal(token, "PUT") {
        Method::Put
    } else if chars_equal(token, "DELETE") {
        Method::Delete
    } else {
        Method::Other
    }
}

/// Finds the second token of `line`.
pub fn second_token_of(line: &[char]) -> (r: Option<(usize, usize)>)
    ensures
        match r {
            Some((a, b)) => second_token(line@) == Some((a as int, b as int)) && a < b
                <= line@.len(),
            None => second_token(line@) is None,
        },
{
    match token_from(line, 0) {
        Some((_, stop)) => token_from(line, stop),
        None => None,
    }
}

/// Reads the body length out of the characters of a request.
pub fn content_length_in(chars: &[char]) -> (n: usize)
    ensures
        n == content_length_spec(chars@),
{
    let name = chars_of("content-length:");
    match find_line_with_prefix(chars, name.as_slice()) {
        Some((from, to)) => {
            let line: &[char] = slice_subrange(chars, from, to);
            match second_token_of(line) {
                Some((a, b)) => match parse_usize(slice_subrange(line, a, b)) {
                    Some(n) => n,
                    None => 0,
                },
                None => 0,
            }
        },
        None => 0,
    }
}

/// Reads the body length out of a request: the number after the name on its
/// first `Content-Length` line, or 0.
pub fn get_content_length(request: &str) -> (n: usize)
    ensures
        n == content_length_spec(request@),
{
    let chars = chars_of(request);
    content_length_in(chars.as_slice())
}

/// Parses the text of a request.
pub fn parse_request_text(text: &str) -> (r: Request)
    ensures
        r@ == parse_spec(text@),
{
    let owned = chars_of(text);
    let chars: &[char] = owned.as_slice();
    let stop: usize = if chars.len() == 0 {
        0
    } else {
        line_stop_from(chars, 0)
    };
    let line: &[char] = slice_subrange(chars, 0, stop);
    assert(line@ =~= request_line(text@));
    let first = token_from(line, 0);
    let method = match first {
        Some((a, b)) => classify_method(slice_subrange(line, a, b)),
        None => {
            assert(line@.subrange(0, 0) =~= Seq::<char>::empty());
            classify_method(slice_subrange(line, 0, 0))
        },
    };
    let path: String = match second_token_of(line) {
        Some((a, b)) => {
            assert(text@.subrange(a as int, b as int) =~= line@.subrange(a as int, b as int));
            text.substring_char(a, b).to_owned()
        },
        None => "/".to_owned(),
    };
    let name = chars_of("authorization:");
    let authorization: Option<String> = match find_line_with_prefix(chars, name.as_slice()) {
        Some((from, to)) => Some(text.substring_char(from, to).to_owned()),
        None => None,
    };
    let content_length = content_length_in(chars);
    Request { method, path, content_length, authorization }
}

/// Parses the bytes of a request, decoding them as UTF-8 and replacing what
/// is not valid.
pub fn parse_request(bytes: &[u8]) -> (r: Request)
    ensures
        r@ == parse_spec(utf8_lossy(bytes@)),
        valid_utf8(bytes@) ==> r@ == parse_spec(decode_utf8(bytes@)),
{
    let text = decode_lossy(bytes);
    parse_request_text(text.as_str())
}

} // verus!
