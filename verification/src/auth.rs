//! The API key and the `X-API-Key` header value made from it.

use vstd::prelude::*;

use http::header::InvalidHeaderValue;
use http::HeaderValue;

verus! {

#[verifier::external_type_specification]
#[verifier::external_body]
pub struct ExHeaderValue(HeaderValue);

#[verifier::external_type_specification]
#[verifier::external_body]
pub struct ExInvalidHeaderValue(InvalidHeaderValue);

/// Name of the header the Protect integration API reads the key from.
pub const API_KEY_HEADER: &'static str = "x-api-key";

/// A byte a header value may hold: visible ASCII, any byte of a
/// non-ASCII character, or a tab; not a control character or DEL.
pub open spec fn header_char_ok(c: char) -> bool {
    ((c as u32) >= 32 && (c as u32) != 127) || c == '\t'
}

/// Whether `s` can be a header value.
pub open spec fn header_text_ok(s: Seq<char>) -> bool {
    forall|i: int| 0 <= i < s.len() ==> header_char_ok(#[trigger] s[i])
}

/// An `X-API-Key` header value, with the text it was made from and
/// whether it is marked sensitive (left out of debug output).
pub struct ApiKeyHeader {
    value: HeaderValue,
    text: Ghost<Seq<char>>,
    sensitive: Ghost<bool>,
}

impl ApiKeyHeader {
    /// The text the value holds.
    pub closed spec fn text(self) -> Seq<char> {
        self.text@
    }

    /// Whether the value is marked sensitive.
    pub closed spec fn sensitive(self) -> bool {
        self.sensitive@
    }

    /// The header value itself.
    pub fn value(&self) -> &HeaderValue {
        &self.value
    }
}

/// `HeaderValue::from_str`: accepted exactly when every byte is visible
/// ASCII, a tab, or part of a non-ASCII character (byte >= 32 and not
/// 127, or a tab); the value then holds the bytes of `s` and is not
/// marked sensitive.
#[verifier::external_body]
fn header_value_from_str(s: &str) -> (r: Result<ApiKeyHeader, InvalidHeaderValue>)
    ensures
        r is Ok <==> header_text_ok(s@),
        r matches Ok(h) ==> h.text() == s@ && !h.sensitive(),
{
    match HeaderValue::from_str(s) {
        Ok(value) => Ok(ApiKeyHeader { value, text: Ghost(s@), sensitive: Ghost(false) }),
        Err(e) => Err(e),
    }
}

/// `HeaderValue::set_sensitive(true)`: marks the value sensitive and
/// leaves its bytes as they are.
#[verifier::external_body]
fn header_value_mark_sensitive(h: &mut ApiKeyHeader)
    ensures
        final(h).text() == old(h).text(),
        final(h).sensitive(),
{
    h.value.set_sensitive(true);
    h.sensitive = Ghost(true);
}

/// An API key. It has no `Debug`, so the key cannot land in logs by
/// accident.
pub struct ApiKey {
    key: String,
}

impl ApiKey {
    pub closed spec fn text(&self) -> Seq<char> {
        self.key@
    }

    pub fn new(key: String) -> (k: ApiKey)
        ensures
            k.text() == key@,
    {
        ApiKey { key }
    }

    /// The `X-API-Key` header value: the key's text, marked sensitive.
    /// Fails when the key holds a control character other than tab.
    pub fn header_value(&self) -> (r: Result<ApiKeyHeader, InvalidHeaderValue>)
        ensures
            r is Ok <==> header_text_ok(self.text()),
            r matches Ok(h) ==> h.text() == self.text() && h.sensitive(),
    {
        match header_value_from_str(self.key.as_str()) {
            Ok(mut v) => {
                header_value_mark_sensitive(&mut v);
                Ok(v)
            },
            Err(e) => Err(e),
        }
    }
}

} // verus!
