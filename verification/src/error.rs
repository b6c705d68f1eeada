//! Errors of the Protect client, and how an error response of the API
//! becomes one.

use vstd::prelude::*;

use crate::text::{chars_of, decimal, push_str, string_from_range, to_owned, u64_decimal};
use reqwest::Error as ReqwestError;
use serde_json::Error as JsonError;

verus! {

#[verifier::external_type_specification]
#[verifier::external_body]
pub struct ExReqwestError(ReqwestError);

#[verifier::external_type_specification]
#[verifier::external_body]
pub struct ExJsonError(JsonError);

/// Errors returned by client operations.
#[derive(Debug)]
pub enum Error {
    /// Transport-level HTTP failure (connection refused, TLS, timeout, ...).
    Http(ReqwestError),
    /// A structured error response: HTTP status, the API's symbolic error
    /// name (e.g. `unauthorized`) and its human-readable text.
    Api { status: u16, code: String, message: String },
    /// A response body did not match the expected JSON schema.
    Json(JsonError),
    /// A URL passed to or built by the client is not valid.
    InvalidUrl(String),
    /// The builder was finalised without an API key.
    MissingApiKey,
    /// Anything that fits none of the above.
    Other(String),
}

/// `Result<T, ferro_protect::Error>`.
pub type Result<T> = std::result::Result<T, Error>;

/// The JSON shape of an API error response.
#[derive(Debug, Clone, PartialEq, Eq)]
pub struct ApiErrorBody {
    pub name: String,
    pub error: Option<String>,
    pub message: Option<String>,
}

/// The body's message: `error`, else `message`, else `(no message)`.
pub open spec fn body_message(b: ApiErrorBody) -> Seq<char> {
    match b.error {
        Some(e) => e@,
        None => match b.message {
            Some(m) => m@,
            None => "(no message)"@,
        },
    }
}

impl ApiErrorBody {
    /// The human-readable text: `error`, else `message`, else
    /// `(no message)`.
    pub fn message(self) -> (m: String)
        ensures
            m@ == body_message(self),
    {
        match self.error {
            Some(e) => e,
            None => match self.message {
                Some(m) => m,
                None => to_owned("(no message)"),
            },
        }
    }
}

/// Bytes `c` takes in UTF-8.
pub open spec fn utf8_len(c: char) -> nat {
    if (c as u32) < 0x80 {
        1
    } else if (c as u32) < 0x800 {
        2
    } else if (c as u32) < 0x10000 {
        3
    } else {
        4
    }
}

/// Bytes the first `n` characters of `s` take in UTF-8: the byte offset
/// of character `n`.
pub open spec fn byte_offset(s: Seq<char>, n: int) -> nat
    decreases n,
{
    if n <= 0 {
        0
    } else {
        byte_offset(s, n - 1) + utf8_len(s[n - 1])
    }
}

/// Longest length of body text kept in an error message, in bytes.
pub const BODY_LIMIT: usize = 512;

/// `body` cut before the first character that starts at byte 512 or
/// later, with `...` appended when anything was cut.
pub open spec fn truncated(s: Seq<char>, r: Seq<char>) -> bool {
    exists|k: int|
        0 <= k <= s.len() && (forall|i: int| 0 <= i < k ==> #[trigger] byte_offset(s, i) < 512) && (k
            < s.len() ==> byte_offset(s, k) >= 512) && r == s.take(k) + (if k < s.len() {
            "..."@
        } else {
            Seq::<char>::empty()
        })
}

fn char_utf8_len(c: char) -> (n: usize)
    ensures
        n == utf8_len(c),
{
    let code = c as u32;
    if code < 0x80 {
        1
    } else if code < 0x800 {
        2
    } else if code < 0x10000 {
        3
    } else {
        4
    }
}

/// Keeps every character of `body` that starts before byte 512; appends
/// `...` when something was cut.
pub fn truncate_body(body: &str) -> (r: String)
    ensures
        truncated(body@, r@),
{
    let v = chars_of(body);
    let mut off: usize = 0;
    let mut i: usize = 0;
    while i < v.len()
        invariant
            i <= v.len(),
            v@ == body@,
            off == byte_offset(v@, i as int),
            off < BODY_LIMIT,
            forall|k: int| 0 <= k < i ==> #[trigger] byte_offset(v@, k) < 512,
        decreases v.len() - i,
    {
        let n = char_utf8_len(v[i]);
        if off + n >= BODY_LIMIT {
            let mut r = string_from_range(&v, 0, i + 1);
            if i + 1 < v.len() {
                push_str(&mut r, "...");
                proof {
                    assert(byte_offset(v@, (i + 1) as int) >= 512);
                    assert(v@.subrange(0, (i + 1) as int) == v@.take((i + 1) as int));
                }
            } else {
                assert(v@.subrange(0, (i + 1) as int) == v@.take((i + 1) as int));
                assert(v@.take((i + 1) as int) + Seq::<char>::empty() == v@.take((i + 1) as int));
            }
            proof {
                let k = (i + 1) as int;
                assert(forall|j: int| 0 <= j < k ==> #[trigger] byte_offset(v@, j) < 512) by {
                    assert forall|j: int| 0 <= j < k implies #[trigger] byte_offset(v@, j) < 512 by {
                        if j < i {
                        } else {
                            assert(j == i);
                        }
                    }
                }
            }
            return r;
        }
        off = off + n;
        i = i + 1;
    }
    let r = to_owned(body);
    proof {
        let k = v@.len() as int;
        assert(v@.take(k) == v@);
        assert(v@.take(k) + Seq::<char>::empty() == v@);
    }
    r
}

impl Error {
    /// The error for an API response with `status` whose body text is
    /// `raw`: with the parsed body (when it had the expected shape), its
    /// name and message; otherwise code `unknown` and the body text,
    /// truncated.
    pub fn from_body(status: u16, parsed: Option<ApiErrorBody>, raw: &str) -> (e: Error)
        ensures
            match parsed {
                Some(b) => e matches Error::Api { status: s, code, message } && s == status && code@
                    == b.name@ && message@ == body_message(b),
                None => e matches Error::Api { status: s, code, message } && s == status && code@
                    == "unknown"@ && truncated(raw@, message@),
            },
    {
        match parsed {
            Some(b) => {
                let code = to_owned(b.name.as_str());
                Error::Api { status, code, message: b.message() }
            },
            None => Error::Api { status, code: to_owned("unknown"), message: truncate_body(raw) },
        }
    }
}


/// `Display` of `reqwest::Error`. Its text depends on what failed on the
/// wire, so nothing about it is stated.
#[verifier::external_body]
pub(crate) fn reqwest_error_text(e: &ReqwestError) -> (r: String) {
    e.to_string()
}

/// `Display` of `serde_json::Error`: the parser's account of what did not
/// match. Nothing about it is stated.
#[verifier::external_body]
fn json_error_text(e: &JsonError) -> (r: String) {
    e.to_string()
}

impl Error {
    /// The human-readable message.
    pub fn message(&self) -> (m: String)
        ensures
            self matches Error::Api { status, code, message } ==> m@ == "API error "@ + decimal(
                *status as nat,
            ) + " ("@ + code@ + "): "@ + message@,
            self matches Error::InvalidUrl(u) ==> m@ == "Invalid URL: "@ + u@,
            self is MissingApiKey ==> m@ == "API key not provided"@,
            self matches Error::Other(t) ==> m@ == t@,
            self is Http ==> exists|t: Seq<char>| m@ == "HTTP error: "@ + t,
            self is Json ==> exists|t: Seq<char>| m@ == "Failed to deserialize response: "@ + t,
    {
        match self {
            Error::Http(e) => {
                let mut m = to_owned("HTTP error: ");
                let t = reqwest_error_text(e);
                push_str(&mut m, t.as_str());
                m
            },
            Error::Api { status, code, message } => {
                let mut m = to_owned("API error ");
                let digits = u64_decimal(*status as u64);
                push_str(&mut m, digits.as_str());
                push_str(&mut m, " (");
                push_str(&mut m, code.as_str());
                push_str(&mut m, "): ");
                push_str(&mut m, message.as_str());
                m
            },
            Error::Json(e) => {
                let mut m = to_owned("Failed to deserialize response: ");
                let t = json_error_text(e);
                push_str(&mut m, t.as_str());
                m
            },
            Error::InvalidUrl(u) => {
                let mut m = to_owned("Invalid URL: ");
                push_str(&mut m, u.as_str());
                m
            },
            Error::MissingApiKey => to_owned("API key not provided"),
            Error::Other(t) => to_owned(t.as_str()),
        }
    }
}

} // verus!
