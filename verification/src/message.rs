//! Requests and responses as plain values: what the router reads of a
//! request, and what a transport needs to send a response.

use vstd::prelude::*;
use vstd::utf8::encode_utf8;
use crate::json::{lemma_quoted_tells_text, quote, quoted};
use crate::text::occurs_at;

verus! {

/// The head of an HTTP request. The body is not part of it: it arrives as a
/// stream and is handed over once it is complete.
#[derive(Debug, PartialEq, Eq)]
pub struct Request {
    /// The method as it stands on the request line, such as `GET`.
    pub method: String,
    /// The path of the request target, without query.
    pub path: String,
    /// The query of the request target, where it has one, without the
    /// question mark. It is there for the context factory; no route reads it.
    pub query: Option<String>,
    /// The header fields, name and value, in the order received.
    pub headers: Vec<(String, String)>,
}

/// The three statuses this endpoint answers with.
#[derive(Debug, Clone, Copy, PartialEq, Eq, Structural)]
pub enum Status {
    /// 200
    Success,
    /// 404
    NotFound,
    /// 500
    ServerError,
}

impl Status {
    /// The status code as a number.
    pub open spec fn number(self) -> u16 {
        match self {
            Status::Success => 200,
            Status::NotFound => 404,
            Status::ServerError => 500,
        }
    }

    /// The status code as a number.
    pub fn code(self) -> (code: u16)
        ensures
            code == self.number(),
    {
        match self {
            Status::Success => 200,
            Status::NotFound => 404,
            Status::ServerError => 500,
        }
    }
}

/// The media types of the bodies this endpoint sends.
#[derive(Debug, Clone, Copy, PartialEq, Eq, Structural)]
pub enum ContentType {
    /// `text/html`
    Html,
    /// `application/json`
    Json,
}

impl ContentType {
    /// The value of the `Content-Type` header.
    pub open spec fn text(self) -> Seq<char> {
        match self {
            ContentType::Html => "text/html"@,
            ContentType::Json => "application/json"@,
        }
    }

    /// The value of the `Content-Type` header.
    pub fn as_str(self) -> (value: &'static str)
        ensures
            value@ == self.text(),
    {
        match self {
            ContentType::Html => "text/html",
            ContentType::Json => "application/json",
        }
    }
}

/// A response, ready to be sent.
#[derive(Debug, PartialEq, Eq)]
pub struct Response {
    pub status: Status,
    /// The `Content-Type` header, where the response has one.
    pub content_type: Option<ContentType>,
    /// The `Content-Length` header, where the response sets it itself; where
    /// it is `None` the transport derives it from the body.
    pub content_length: Option<usize>,
    pub body: String,
}

/// A response as a mathematical value.
pub struct ResponseView {
    pub status: Status,
    pub content_type: Option<ContentType>,
    pub content_length: Option<nat>,
    pub body: Seq<char>,
}

impl View for Response {
    type V = ResponseView;

    open spec fn view(&self) -> ResponseView {
        ResponseView {
            status: self.status,
            content_type: self.content_type,
            content_length: match self.content_length {
                Some(n) => Some(n as nat),
                None => None,
            },
            body: self.body@,
        }
    }
}

/// What the body of a failure response starts with.
pub const FAILURE_HEAD: &'static str = "{\"status\": 500, \"description\": ";

/// What the body of a failure response ends with.
pub const FAILURE_TAIL: &'static str = "}";

/// The answer to a request that no route matches: 404 and nothing else.
pub open spec fn not_found() -> ResponseView {
    ResponseView {
        status: Status::NotFound,
        content_type: None,
        content_length: None,
        body: Seq::empty(),
    }
}

/// The answer that carries an HTML page.
pub open spec fn html_page(page: Seq<char>) -> ResponseView {
    ResponseView {
        status: Status::Success,
        content_type: Some(ContentType::Html),
        content_length: None,
        body: page,
    }
}

/// The answer that carries the result of an execution, as it was encoded.
pub open spec fn json_result(encoded: Seq<char>) -> ResponseView {
    ResponseView {
        status: Status::Success,
        content_type: Some(ContentType::Json),
        content_length: None,
        body: encoded,
    }
}

/// The body that describes a failure: a JSON object with the status 500 and
/// the description as a JSON string.
pub open spec fn failure_body(description: Seq<char>) -> Seq<char> {
    FAILURE_HEAD@ + quoted(description) + FAILURE_TAIL@
}

/// The answer to a request for which there is no result to send: 500, a
/// JSON body that describes the failure, and the length of that body in
/// bytes.
pub open spec fn failure(description: Seq<char>) -> ResponseView {
    ResponseView {
        status: Status::ServerError,
        content_type: Some(ContentType::Json),
        content_length: Some(encode_utf8(failure_body(description)).len()),
        body: failure_body(description),
    }
}

/// A failure response is framed as one: the status is 500, the type is
/// `application/json`, the length is that of the body in bytes, and the body
/// is the fixed head, the description as a JSON string, and the closing
/// brace. Whatever the description, the string literal for it is not empty.
pub proof fn lemma_failure_is_framed(description: Seq<char>)
    ensures
        failure(description).status.number() == 500,
        failure(description).content_type == Some(ContentType::Json),
        failure(description).content_length == Some(
            encode_utf8(failure(description).body).len(),
        ),
        occurs_at(failure(description).body, FAILURE_HEAD@, 0),
        occurs_at(failure(description).body, quoted(description), FAILURE_HEAD@.len() as int),
        occurs_at(
            failure(description).body,
            FAILURE_TAIL@,
            (FAILURE_HEAD@.len() + quoted(description).len()) as int,
        ),
        failure(description).body.len() == FAILURE_HEAD@.len() + quoted(description).len()
            + FAILURE_TAIL@.len(),
        quoted(description).len() >= 2,
{
    let body = failure_body(description);
    let head = FAILURE_HEAD@.len() as int;
    let literal = quoted(description).len() as int;
    assert(body.subrange(0, head) =~= FAILURE_HEAD@);
    assert(body.subrange(head, head + literal) =~= quoted(description));
    assert(body.subrange(head + literal, head + literal + FAILURE_TAIL@.len()) =~= FAILURE_TAIL@);
}

/// The description can be read off a failure response: two failures with
/// the same body describe the same.
pub proof fn lemma_failure_tells_description(first: Seq<char>, second: Seq<char>)
    requires
        failure_body(first) == failure_body(second),
    ensures
        first == second,
{
    let head = FAILURE_HEAD@.len() as int;
    let tail = FAILURE_TAIL@.len() as int;
    let a = failure_body(first);
    let b = failure_body(second);
    assert(a.len() == head + quoted(first).len() + tail);
    assert(b.len() == head + quoted(second).len() + tail);
    assert(quoted(first) =~= a.subrange(head, a.len() - tail));
    assert(quoted(second) =~= b.subrange(head, b.len() - tail));
    lemma_quoted_tells_text(first, second);
}

impl Response {
    /// The answer to a request that no route matches.
    pub fn not_found() -> (response: Response)
        ensures
            response@ == not_found(),
    {
        Response {
            status: Status::NotFound,
            content_type: None,
            content_length: None,
            body: String::new(),
        }
    }

    /// The answer that carries `page` as HTML.
    pub fn html(page: String) -> (response: Response)
        ensures
            response@ == html_page(page@),
    {
        Response {
            status: Status::Success,
            content_type: Some(ContentType::Html),
            content_length: None,
            body: page,
        }
    }

    /// The answer that carries an encoded execution result.
    pub fn json(encoded: String) -> (response: Response)
        ensures
            response@ == json_result(encoded@),
    {
        Response {
            status: Status::Success,
            content_type: Some(ContentType::Json),
            content_length: None,
            body: encoded,
        }
    }

    /// The answer to a request for which there is no result to send.
    pub fn failure(description: &str) -> (response: Response)
        ensures
            response@ == failure(description@),
    {
        let mut body = String::from_str(FAILURE_HEAD);
        let literal = quote(description);
        body.append(literal.as_str());
        body.append(FAILURE_TAIL);
        let length = body.as_str().as_bytes().len();
        Response {
            status: Status::ServerError,
            content_type: Some(ContentType::Json),
            content_length: Some(length),
            body,
        }
    }
}

} // verus!
