//! Read-only data model for one captured HTTP transaction log: headers,
//! request, response, content, and the entry pairing one request with one
//! response. Values are built once, at startup, from the parsed log file and
//! never mutated afterwards.

use vstd::prelude::*;

verus! {

/// One HTTP header: a name and a value.
pub struct Header {
    pub name: String,
    pub value: String,
}

/// One query-string parameter of a request.
pub struct QueryString {
    pub name: String,
    pub value: String,
}

/// The posted body of a request: its mime type and optional text.
pub struct PostData {
    pub mime_type: String,
    pub text: Option<String>,
}

/// One captured HTTP request.
pub struct Request {
    pub method: String,
    pub url: String,
    pub headers: Vec<Header>,
    pub query_string: Vec<QueryString>,
    pub post_data: Option<PostData>,
}

/// The body of a response: optional mime type and optional raw text.
pub struct Content {
    pub mime_type: Option<String>,
    pub text: Option<String>,
}

/// One captured HTTP response.
pub struct Response {
    pub status: i64,
    pub status_text: String,
    pub http_version: String,
    pub headers: Vec<Header>,
    pub content: Content,
}

/// One request/response transaction of the log.
pub struct Entry {
    pub request: Request,
    pub response: Response,
}

/// The outcome of parsing a log file: either a format version whose entries
/// this viewer extracts, or a recognized container in a version it does not
/// support, which yields no entries (degraded, not fatal).
pub enum ParsedLog {
    Recognized(Vec<Entry>),
    UnsupportedVersion,
}

impl ParsedLog {
    /// The entries a parse outcome contributes to the session.
    pub open spec fn spec_entries(self) -> Seq<Entry> {
        match self {
            ParsedLog::Recognized(entries) => entries@,
            ParsedLog::UnsupportedVersion => Seq::empty(),
        }
    }

    /// Extracts the entry sequence: all entries of a recognized log, none of
    /// an unsupported one.
    pub fn entries(self) -> (r: Vec<Entry>)
        ensures
            r@ == self.spec_entries(),
    {
        match self {
            ParsedLog::Recognized(entries) => entries,
            ParsedLog::UnsupportedVersion => Vec::new(),
        }
    }
}

} // verus!
