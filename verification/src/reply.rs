//! What the server answers.
//!
//! A reply is a page, a line of plain text or a redirect; a file is answered
//! with a head, and the file itself after it.  Pages are rendered outside
//! this library; each function here that closes a request takes the rendered
//! page, if rendering gave one, and says what is sent with it or without it.

use crate::error::{label_of, status_of, ErrorKind};
use vstd::prelude::*;

verus! {

/// The status of a reply that carries what was asked for.
pub const OK: u16 = 200;

/// The status of a reply that sends the client to another path for good.
pub const MOVED_PERMANENTLY: u16 = 301;

/// The status of a reply to a request that the server failed to serve.
pub const INTERNAL_SERVER_ERROR: u16 = 500;

/// Whether the client is to show a file or to store it.
#[derive(Clone, Copy, Debug, PartialEq, Eq, Structural)]
pub enum Disposition {
    Inline,
    Attachment,
}

/// The head of a response that carries a file.  Its status is 200.
#[derive(Clone, Debug, PartialEq, Eq)]
pub struct FileHead {
    /// The content type.
    pub content_type: String,
    /// How the client is to treat the file.
    pub disposition: Disposition,
    /// The name that the client is given for the file.  Without a name no
    /// disposition is sent at all.
    pub file_name: Option<String>,
    /// The length of the body in bytes, where the file told it.
    pub content_length: Option<u64>,
}

/// The model of a `FileHead`.
pub struct FileHeadModel {
    pub content_type: Seq<char>,
    pub disposition: Disposition,
    pub file_name: Option<Seq<char>>,
    pub content_length: Option<u64>,
}

impl View for FileHead {
    type V = FileHeadModel;

    open spec fn view(&self) -> FileHeadModel {
        FileHeadModel {
            content_type: self.content_type@,
            disposition: self.disposition,
            file_name: match self.file_name {
                Some(name) => Some(name@),
                None => None,
            },
            content_length: self.content_length,
        }
    }
}

/// An answer to a request.
#[derive(Clone, Debug, PartialEq, Eq)]
pub enum Reply {
    /// A page of HTML.
    Html { status: u16, body: String },
    /// A line of plain text, sent without a content type of its own.
    Plain { status: u16, body: String },
    /// A permanent redirect to `location`.
    Redirect { location: String },
}

/// The model of a `Reply`.
pub enum ReplyModel {
    Html { status: u16, body: Seq<char> },
    Plain { status: u16, body: Seq<char> },
    Redirect { location: Seq<char> },
}

impl View for Reply {
    type V = ReplyModel;

    open spec fn view(&self) -> ReplyModel {
        match self {
            Reply::Html { status, body } => ReplyModel::Html { status: *status, body: body@ },
            Reply::Plain { status, body } => ReplyModel::Plain { status: *status, body: body@ },
            Reply::Redirect { location } => ReplyModel::Redirect { location: location@ },
        }
    }
}

/// The HTTP status of a reply.
pub open spec fn reply_status(reply: ReplyModel) -> u16 {
    match reply {
        ReplyModel::Html { status, .. } => status,
        ReplyModel::Plain { status, .. } => status,
        ReplyModel::Redirect { .. } => MOVED_PERMANENTLY,
    }
}

/// The content type that a reply names: HTML for a page, none for anything
/// else.
pub open spec fn reply_content_type(reply: ReplyModel) -> Option<Seq<char>> {
    match reply {
        ReplyModel::Html { .. } => Some("text/html"@),
        _ => None,
    }
}

/// The answer to a failure of the given kind: the rendered error page under
/// the status of the kind, or, where rendering failed, the label of the kind
/// as plain text under the same status.
pub open spec fn error_reply(kind: ErrorKind, page: Option<Seq<char>>) -> ReplyModel {
    match page {
        Some(body) => ReplyModel::Html { status: status_of(kind), body },
        None => ReplyModel::Plain { status: status_of(kind), body: label_of(kind) },
    }
}

/// The answer that carries a directory listing: the rendered page with
/// status 200, or, where rendering failed, a plain line with status 500.
pub open spec fn listing_reply_of(page: Option<Seq<char>>) -> ReplyModel {
    match page {
        Some(body) => ReplyModel::Html { status: OK, body },
        None => ReplyModel::Plain {
            status: INTERNAL_SERVER_ERROR,
            body: "Error rendering template"@,
        },
    }
}

impl Reply {
    /// The HTTP status of this reply.
    pub fn status(&self) -> (code: u16)
        ensures
            code == reply_status(self@),
    {
        match self {
            Reply::Html { status, .. } => *status,
            Reply::Plain { status, .. } => *status,
            Reply::Redirect { .. } => MOVED_PERMANENTLY,
        }
    }

    /// The content type that this reply names, if it names one.
    pub fn content_type(&self) -> (out: Option<&'static str>)
        ensures
            match out {
                Some(name) => reply_content_type(self@) == Some(name@),
                None => reply_content_type(self@) is None,
            },
    {
        match self {
            Reply::Html { .. } => Some("text/html"),
            _ => None,
        }
    }
}

/// The answer to a failure of the given kind, with the rendered error page
/// if there is one.
pub fn error_message(kind: ErrorKind, page: Option<String>) -> (reply: Reply)
    ensures
        reply@ == error_reply(
            kind,
            match page {
                Some(body) => Some(body@),
                None => None,
            },
        ),
        reply_status(reply@) == status_of(kind),
{
    match page {
        Some(body) => Reply::Html { status: kind.status(), body },
        None => Reply::Plain { status: kind.status(), body: String::from_str(kind.label()) },
    }
}

/// The answer that carries a directory listing, with the rendered page if
/// there is one.
pub fn listing_reply(page: Option<String>) -> (reply: Reply)
    ensures
        reply@ == listing_reply_of(
            match page {
                Some(body) => Some(body@),
                None => None,
            },
        ),
{
    match page {
        Some(body) => Reply::Html { status: OK, body },
        None => Reply::Plain {
            status: INTERNAL_SERVER_ERROR,
            body: String::from_str("Error rendering template"),
        },
    }
}

} // verus!
