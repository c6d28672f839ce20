//! The response builder: accumulates protocol-dictated response actions
//! into a status code, a header mapping and an optional body.
//!
//! Each action fully determines the status code and the one header group it
//! owns; headers set by earlier actions are retained unless explicitly
//! overwritten. An action that would write a malformed header value fails
//! and leaves the response unchanged.

use vstd::prelude::*;
use vstd::string::StringSliceAdditionalSpecFns;

use crate::error::WebError;

verus! {

/// Whether a byte may stand in an HTTP header value: horizontal tab, or
/// anything at or above the space character except delete.
pub open spec fn valid_header_byte(b: u8) -> bool {
    b == 9 || (32 <= b && b != 127)
}

/// Whether text may stand in an HTTP header value: every byte of its
/// encoding is allowed there.
pub open spec fn valid_header_value(bytes: Seq<u8>) -> bool {
    forall|i: int| 0 <= i < bytes.len() ==> valid_header_byte(bytes[i])
}

/// Checks that text may stand in an HTTP header value.
pub fn check_header_value(value: &str) -> (r: bool)
    ensures
        r == valid_header_value(value.spec_bytes()),
{
    let bytes = value.as_bytes();
    let n = bytes.len();
    let mut i: usize = 0;
    while i < n
        invariant
            n == bytes@.len(),
            0 <= i <= n,
            bytes@ == value.spec_bytes(),
            forall|k: int| 0 <= k < i ==> valid_header_byte(bytes@[k]),
        decreases n - i,
    {
        let b = bytes[i];
        if !(b == 9 || (32 <= b && b != 127)) {
            assert(!valid_header_byte(value.spec_bytes()[i as int]));
            return false;
        }
        i += 1;
    }
    true
}

/// A normalized response: status code, the header groups that response
/// actions own, and an optional body.
#[derive(Clone, Debug)]
pub struct OAuthResponse {
    /// The HTTP status code.
    pub status: u16,
    /// The Location header, where a redirect action set one.
    pub location: Option<String>,
    /// The WWW-Authenticate header, where an unauthorized action set one.
    pub www_authenticate: Option<String>,
    /// The Content-Type header, where a body action set one.
    pub content_type: Option<String>,
    /// The response body, where a body action set one.
    pub body: Option<String>,
}

impl OAuthResponse {
    /// A response with no body, no headers and a 200 status.
    pub fn ok() -> (r: Self)
        ensures
            r.status == 200,
            r.location is None,
            r.www_authenticate is None,
            r.content_type is None,
            r.body is None,
    {
        OAuthResponse {
            status: 200,
            location: None,
            www_authenticate: None,
            content_type: None,
            body: None,
        }
    }

    /// Sets the Content-Type header; fails on a malformed value, leaving
    /// the response as it was.
    pub fn content_type(self, content_type: &str) -> (r: Result<Self, WebError>)
        ensures
            valid_header_value(content_type.spec_bytes()) ==> (r matches Ok(n) && {
                &&& n.content_type matches Some(c) && c@ == content_type@
                &&& n.status == self.status
                &&& n.location == self.location
                &&& n.www_authenticate == self.www_authenticate
                &&& n.body == self.body
            }),
            !valid_header_value(content_type.spec_bytes()) ==> (r matches Err(e) && e
                == WebError::Header),
    {
        if !check_header_value(content_type) {
            return Err(WebError::Header);
        }
        Ok(OAuthResponse { content_type: Some(content_type.to_owned()), ..self })
    }

    /// Sets the body of the response, leaving everything else as it was.
    pub fn body(self, body: &str) -> (r: Self)
        ensures
            r.body matches Some(b) && b@ == body@,
            r.status == self.status,
            r.location == self.location,
            r.www_authenticate == self.www_authenticate,
            r.content_type == self.content_type,
    {
        OAuthResponse { body: Some(body.to_owned()), ..self }
    }

    /// Marks the response successful: status 200, everything else kept.
    pub fn set_ok(&mut self) -> (r: Result<(), WebError>)
        ensures
            r is Ok,
            final(self).status == 200,
            final(self).location == old(self).location,
            final(self).www_authenticate == old(self).www_authenticate,
            final(self).content_type == old(self).content_type,
            final(self).body == old(self).body,
    {
        self.status = 200;
        Ok(())
    }

    /// Redirects the user agent: status 302 and the Location header set to
    /// the url's string form. A url that may not stand in a header value
    /// fails and leaves the response unchanged.
    pub fn redirect(&mut self, url: &str) -> (r: Result<(), WebError>)
        ensures
            valid_header_value(url.spec_bytes()) ==> ({
                &&& r is Ok
                &&& final(self).status == 302
                &&& final(self).location matches Some(l) && l@ == url@
                &&& final(self).www_authenticate == old(self).www_authenticate
                &&& final(self).content_type == old(self).content_type
                &&& final(self).body == old(self).body
            }),
            !valid_header_value(url.spec_bytes()) ==> (r matches Err(e) && e == WebError::Header
                && *final(self) == *old(self)),
    {
        if !check_header_value(url) {
            return Err(WebError::Header);
        }
        self.status = 302;
        self.location = Some(url.to_owned());
        Ok(())
    }

    /// Marks the response a client error: status 400, everything else
    /// kept.
    pub fn client_error(&mut self) -> (r: Result<(), WebError>)
        ensures
            r is Ok,
            final(self).status == 400,
            final(self).location == old(self).location,
            final(self).www_authenticate == old(self).www_authenticate,
            final(self).content_type == old(self).content_type,
            final(self).body == old(self).body,
    {
        self.status = 400;
        Ok(())
    }

    /// Demands authorization: status 401 and the WWW-Authenticate header
    /// set to the given kind. A kind that may not stand in a header value
    /// fails and leaves the response unchanged.
    pub fn unauthorized(&mut self, kind: &str) -> (r: Result<(), WebError>)
        ensures
            valid_header_value(kind.spec_bytes()) ==> ({
                &&& r is Ok
                &&& final(self).status == 401
                &&& final(self).www_authenticate matches Some(w) && w@ == kind@
                &&& final(self).location == old(self).location
                &&& final(self).content_type == old(self).content_type
                &&& final(self).body == old(self).body
            }),
            !valid_header_value(kind.spec_bytes()) ==> (r matches Err(e) && e == WebError::Header
                && *final(self) == *old(self)),
    {
        if !check_header_value(kind) {
            return Err(WebError::Header);
        }
        self.status = 401;
        self.www_authenticate = Some(kind.to_owned());
        Ok(())
    }

    /// Sets a plain-text body: the body becomes the text and the
    /// Content-Type header becomes `text/plain`, overwriting whatever an
    /// earlier body action left there. Status and other headers are kept.
    pub fn body_text(&mut self, text: &str) -> (r: Result<(), WebError>)
        ensures
            r is Ok,
            final(self).body matches Some(b) && b@ == text@,
            final(self).content_type matches Some(c) && c@ == "text/plain"@,
            final(self).status == old(self).status,
            final(self).location == old(self).location,
            final(self).www_authenticate == old(self).www_authenticate,
    {
        self.body = Some(text.to_owned());
        self.content_type = Some("text/plain".to_owned());
        Ok(())
    }

    /// Sets a json body: the body becomes the text and the Content-Type
    /// header becomes `application/json`, overwriting whatever an earlier
    /// body action left there. Status and other headers are kept.
    pub fn body_json(&mut self, json: &str) -> (r: Result<(), WebError>)
        ensures
            r is Ok,
            final(self).body matches Some(b) && b@ == json@,
            final(self).content_type matches Some(c) && c@ == "application/json"@,
            final(self).status == old(self).status,
            final(self).location == old(self).location,
            final(self).www_authenticate == old(self).www_authenticate,
    {
        self.body = Some(json.to_owned());
        self.content_type = Some("application/json".to_owned());
        Ok(())
    }
}

impl Default for OAuthResponse {
    /// The same empty 200 response as [`OAuthResponse::ok`].
    fn default() -> (r: Self)
        ensures
            r.status == 200,
            r.location is None,
            r.www_authenticate is None,
            r.content_type is None,
            r.body is None,
    {
        OAuthResponse::ok()
    }
}

} // verus!
