//! Interpreting the resolver's JSON reply.
//!
//! The resolver answers a POSTed request body with a JSON object. A
//! `status` of `"stream"` carries the direct stream URL under `url`; any
//! other status carries a failure reason under `text`. The reply text is
//! reduced to plain string fields by one trusted call into serde_json;
//! everything decided from those fields is verified.

use vstd::prelude::*;

use crate::error::ErrorKind;
use crate::error::PipelineError;
use crate::strutil::str_eq;

verus! {

/// A resolver reply reduced to plain values: whether the text parsed as
/// JSON at all, and its `status`, `url` and `text` fields where they are
/// strings.
pub struct ParsedReply {
    pub valid: bool,
    pub status: Option<String>,
    pub url: Option<String>,
    pub text: Option<String>,
}

/// The spec-level image of a `ParsedReply`.
pub struct ReplyFields {
    pub valid: bool,
    pub status: Option<Seq<char>>,
    pub url: Option<Seq<char>>,
    pub text: Option<Seq<char>>,
}

impl View for ParsedReply {
    type V = ReplyFields;

    open spec fn view(&self) -> ReplyFields {
        ReplyFields {
            valid: self.valid,
            status: match self.status {
                Some(s) => Some(s@),
                None => None,
            },
            url: match self.url {
                Some(s) => Some(s@),
                None => None,
            },
            text: match self.text {
                Some(s) => Some(s@),
                None => None,
            },
        }
    }
}

/// The fields that parsing a resolver reply text yields.
pub uninterp spec fn reply_fields_of(body: Seq<char>) -> ReplyFields;

/// Relies on serde_json::from_str to parse the reply text and on
/// serde_json::Value::get and serde_json::Value::as_str to read its
/// `status`, `url` and `text` fields where they are JSON strings; what
/// comes back depends on the reply text alone.
#[verifier::external_body]
fn parse_reply(body: &str) -> (r: ParsedReply)
    ensures
        r@ == reply_fields_of(body@),
{
    match serde_json::from_str::<serde_json::Value>(body) {
        Ok(v) => ParsedReply {
            valid: true,
            status: v.get("status").and_then(|f| f.as_str()).map(|s| s.to_owned()),
            url: v.get("url").and_then(|f| f.as_str()).map(|s| s.to_owned()),
            text: v.get("text").and_then(|f| f.as_str()).map(|s| s.to_owned()),
        },
        Err(_) => ParsedReply { valid: false, status: None, url: None, text: None },
    }
}

/// The reason given for a reply that is not a JSON object with a string
/// `status` field.
pub open spec fn malformed_reply_text() -> Seq<char> {
    "resolver reply was not a JSON object with a status field"@
}

/// The reason given for a `stream` reply that carries no `url` field.
pub open spec fn missing_url_text() -> Seq<char> {
    "resolver reply had status stream but no url field"@
}

/// The reason given for a failure reply that carries no `text` field.
pub open spec fn no_reason_text() -> Seq<char> {
    "resolver reported a failure without giving a reason"@
}

/// What reading a reply's fields must yield: the stream URL exactly when
/// the reply is valid JSON with status `"stream"` and a `url` field; a
/// protocol error when the reply is unparsable, has no string status, or
/// claims a stream without a URL; and a resolution error carrying the
/// reply's own reason (or a fixed one if it gave none) for every other
/// status.
pub open spec fn spec_read_reply(f: ReplyFields) -> Result<Seq<char>, (ErrorKind, Seq<char>)> {
    if !f.valid || f.status is None {
        Err((ErrorKind::Protocol, malformed_reply_text()))
    } else if f.status == Some("stream"@) {
        match f.url {
            Some(u) => Ok(u),
            None => Err((ErrorKind::Protocol, missing_url_text())),
        }
    } else {
        match f.text {
            Some(t) => Err((ErrorKind::Resolution, t)),
            None => Err((ErrorKind::Resolution, no_reason_text())),
        }
    }
}

/// Reads a parsed reply and returns the stream URL or the exact failure
/// that `spec_read_reply` assigns to it.
pub fn read_reply(p: ParsedReply) -> (r: Result<String, PipelineError>)
    ensures
        match r {
            Ok(u) => spec_read_reply(p@) == Ok::<Seq<char>, (ErrorKind, Seq<char>)>(u@),
            Err(e) => spec_read_reply(p@) == Err::<Seq<char>, (ErrorKind, Seq<char>)>(
                (e.spec_kind(), e.spec_message()),
            ),
        },
{
    if !p.valid {
        return Err(
            PipelineError::Protocol(
                "resolver reply was not a JSON object with a status field".to_owned(),
            ),
        );
    }
    let status = match p.status {
        Some(s) => s,
        None => {
            return Err(
                PipelineError::Protocol(
                    "resolver reply was not a JSON object with a status field".to_owned(),
                ),
            );
        },
    };
    if str_eq(status.as_str(), "stream") {
        match p.url {
            Some(u) => Ok(u),
            None => Err(
                PipelineError::Protocol(
                    "resolver reply had status stream but no url field".to_owned(),
                ),
            ),
        }
    } else {
        match p.text {
            Some(t) => Err(PipelineError::Resolution(t)),
            None => Err(
                PipelineError::Resolution(
                    "resolver reported a failure without giving a reason".to_owned(),
                ),
            ),
        }
    }
}

/// Handles one resolver reply text end to end: parse it, then read it.
/// The result is pinned, through `spec_read_reply`, to the fields that
/// parsing the text yields.
pub fn resolve_reply(body: &str) -> (r: Result<String, PipelineError>)
    ensures
        match r {
            Ok(u) => spec_read_reply(reply_fields_of(body@)) == Ok::<
                Seq<char>,
                (ErrorKind, Seq<char>),
            >(u@),
            Err(e) => spec_read_reply(reply_fields_of(body@)) == Err::<
                Seq<char>,
                (ErrorKind, Seq<char>),
            >((e.spec_kind(), e.spec_message())),
        },
{
    let parsed = parse_reply(body);
    read_reply(parsed)
}

} // verus!
