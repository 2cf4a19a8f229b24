//! Errors: the failure handed to the fallback, and the server's own error.
use vstd::prelude::*;

use crate::status::{canonical_reason, canonical_reason_of, decimal, status_text};

verus! {

/// The reason phrase of a status code, empty when none is registered.
pub open spec fn reason_text(code: u16) -> Seq<char> {
    match canonical_reason_of(code) {
        Some(r) => r,
        None => Seq::empty(),
    }
}

/// `"{code} - {description}"`, the one-line form of an error.
pub open spec fn error_line(code: u16, description: Seq<char>) -> Seq<char> {
    decimal(code as nat) + " - "@ + description
}

/// The failure a request ends in: nothing claimed it, or the candidate that
/// claimed it failed to dispatch. The fallback renders it.
#[derive(Debug)]
pub struct HttpError<R> {
    /// The request that could not be answered.
    pub request: R,
    /// HTTP status code.
    pub status_code: u16,
    /// The reason phrase of the status code.
    pub description: String,
}

fn line_of(code: u16, description: &str) -> (r: String)
    ensures
        r@ == error_line(code, description@),
{
    proof {
        reveal_strlit(" - ");
    }
    let mut line = status_text(code);
    line.append(" - ");
    line.append(description);
    line
}

impl<R> HttpError<R> {
    fn reason(status_code: u16) -> (r: String)
        ensures
            r@ == reason_text(status_code),
    {
        match canonical_reason(status_code) {
            Some(reason) => String::from_str(reason),
            None => String::new(),
        }
    }

    /// A failure of `request` with `status_code`; its description is the
    /// status code's reason phrase.
    pub fn new(request: R, status_code: u16) -> (r: Self)
        ensures
            r.request == request,
            r.status_code == status_code,
            r.description@ == reason_text(status_code),
    {
        HttpError { request, status_code, description: Self::reason(status_code) }
    }

    /// The reason phrase of the status code.
    pub fn description(&self) -> (r: &str)
        ensures
            r@ == self.description@,
    {
        self.description.as_str()
    }

    /// The error in one line: status code, then description.
    pub fn message(&self) -> (r: String)
        ensures
            r@ == error_line(self.status_code, self.description@),
    {
        line_of(self.status_code, self.description.as_str())
    }
}

/// The reason an `RssError` gives: the status code, its reason phrase after
/// `" - "` when one is registered, and the message on a line of its own when
/// there is one.
pub open spec fn rss_reason(code: u16, message: Option<Seq<char>>) -> Seq<char> {
    let head = match canonical_reason_of(code) {
        Some(r) => decimal(code as nat) + " - "@ + r,
        None => decimal(code as nat),
    };
    match message {
        Some(m) => head + "\n"@ + m,
        None => head,
    }
}

/// An error of the server, with the HTTP status it maps to.
#[derive(Debug)]
pub struct RssError {
    /// HTTP status code.
    pub status_code: u16,
    /// Error description.
    pub description: String,
    /// Status code, reason phrase and message, as `rss_reason` lays them out.
    pub reason: String,
}

impl RssError {
    fn reason(status_code: u16, message: Option<&str>) -> (r: String)
        ensures
            r@ == rss_reason(
                status_code,
                match message {
                    Some(m) => Some(m@),
                    None => None,
                },
            ),
    {
        proof {
            reveal_strlit(" - ");
            reveal_strlit("\n");
        }
        let mut text = status_text(status_code);
        if let Some(reason) = canonical_reason(status_code) {
            text.append(" - ");
            text.append(reason);
        }
        if let Some(message) = message {
            text.append("\n");
            text.append(message);
        }
        text
    }

    /// An error with `status_code`; its description is `message` when given,
    /// else the reason.
    pub fn new(status_code: u16, message: Option<&str>) -> (r: Self)
        ensures
            r.status_code == status_code,
            r.reason@ == rss_reason(
                status_code,
                match message {
                    Some(m) => Some(m@),
                    None => None,
                },
            ),
            r.description@ == match message {
                Some(m) => m@,
                None => rss_reason(status_code, None),
            },
    {
        let description = match message {
            Some(message) => String::from_str(message),
            None => Self::reason(status_code, None),
        };
        RssError { reason: Self::reason(status_code, message), status_code, description }
    }

    /// The reason: status code, reason phrase and message.
    pub fn reason_text(&self) -> (r: &str)
        ensures
            r@ == self.reason@,
    {
        self.reason.as_str()
    }

    /// The error in one line: status code, then description.
    pub fn message(&self) -> (r: String)
        ensures
            r@ == error_line(self.status_code, self.description@),
    {
        line_of(self.status_code, self.description.as_str())
    }
}

} // verus!
