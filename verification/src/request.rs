//! The request adapters: extraction of normalized fields from raw HTTP
//! input.
//!
//! Construction fails immediately when more than one Authorization header
//! is present. Query and body extraction failures are not fatal: an
//! unparseable field is stored as absent, and the corresponding error is
//! raised only when something later reads that field.

use vstd::prelude::*;

use crate::error::WebError;
use crate::params::NormalizedParameter;
use crate::params::urldecoded_pairs;

verus! {

/// The Authorization field that a raw header collection yields: the text of
/// the single header, `None` where there is no header or its value is not
/// readable text. Meaningful only where the collection holds at most one
/// header.
pub open spec fn auth_of(headers: Seq<Option<String>>) -> Option<String> {
    if headers.len() == 1 {
        headers[0]
    } else {
        None
    }
}

/// How a stored optional field relates to the raw text it was decoded
/// from: absent raw text or text that does not decode leaves the field
/// absent; decodable text is stored decoded.
pub open spec fn decoded_field(field: Option<NormalizedParameter>, raw: Option<&str>) -> bool {
    match raw {
        Option::None => field is None,
        Option::Some(s) => match urldecoded_pairs(s@) {
            Option::Some(p) => field matches Some(f) && f@ == p,
            Option::None => field is None,
        },
    }
}

/// A normalized request holding everything the engine's request contract
/// asks of this layer.
///
/// Absence of `query` or `body` is a distinct state from "present but
/// empty": it means the raw input was missing or not parseable, and only a
/// read of that field reports the error.
#[derive(Clone, Debug)]
pub struct OAuthRequest {
    /// The single Authorization header, where one readable header was
    /// present.
    pub auth: Option<String>,
    /// The decoded query string, where one was present and parseable.
    pub query: Option<NormalizedParameter>,
    /// The decoded form body, where one was present and parseable.
    pub body: Option<NormalizedParameter>,
}

/// A header-only adapter for guarding resources: it extracts only the
/// Authorization field and never touches query or body, so the raw body
/// stays available to the surrounding handler.
#[derive(Clone, Debug)]
pub struct OAuthResource {
    /// The single Authorization header, where one readable header was
    /// present.
    pub auth: Option<String>,
}

/// Picks the Authorization field out of a raw header collection: at most
/// one header may be present. Each element is the text of one header, or
/// `None` where its value is not readable text.
fn extract_auth(auth_headers: Vec<Option<String>>) -> (r: Result<Option<String>, WebError>)
    ensures
        auth_headers@.len() > 1 ==> (r matches Err(e) && e == WebError::Authorization),
        auth_headers@.len() <= 1 ==> (r matches Ok(a) && a == auth_of(auth_headers@)),
{
    if auth_headers.len() > 1 {
        return Err(WebError::Authorization);
    }
    let mut auth_headers = auth_headers;
    match auth_headers.pop() {
        Some(h) => Ok(h),
        None => Ok(None),
    }
}

impl OAuthRequest {
    /// Builds a normalized request from the raw header collection, the raw
    /// query string and the raw form body, each `None` where the raw
    /// request offers no such text.
    ///
    /// More than one Authorization header is a hard failure. A query or
    /// body that does not decode is stored as absent, not an error: only a
    /// later read of that field fails.
    pub fn new(auth_headers: Vec<Option<String>>, query: Option<&str>, body: Option<&str>) -> (r:
        Result<Self, WebError>)
        ensures
            auth_headers@.len() > 1 ==> (r matches Err(e) && e == WebError::Authorization),
            auth_headers@.len() <= 1 ==> (r matches Ok(req) && {
                &&& req.auth == auth_of(auth_headers@)
                &&& decoded_field(req.query, query)
                &&& decoded_field(req.body, body)
            }),
    {
        let auth = extract_auth(auth_headers)?;
        let query = match query {
            Some(s) => NormalizedParameter::from_urlencoded(s),
            None => None,
        };
        let body = match body {
            Some(s) => NormalizedParameter::from_urlencoded(s),
            None => None,
        };
        Ok(OAuthRequest { auth, query, body })
    }

    /// Builds a normalized request from already-extracted parts.
    pub fn from_parts(
        auth: Option<String>,
        query: Option<NormalizedParameter>,
        body: Option<NormalizedParameter>,
    ) -> (r: Self)
        ensures
            r.auth == auth,
            r.query == query,
            r.body == body,
    {
        OAuthRequest { auth, query, body }
    }

    /// The Authorization header of the request, where one was present.
    pub fn authorization_header(&self) -> (r: Option<&str>)
        ensures
            match r {
                Option::Some(s) => self.auth matches Some(a) && a@ == s@,
                Option::None => self.auth is None,
            },
    {
        match &self.auth {
            Some(s) => Some(s.as_str()),
            None => None,
        }
    }

    /// The decoded query of the request, where one was present.
    pub fn query(&self) -> (r: Option<&NormalizedParameter>)
        ensures
            match r {
                Option::Some(q) => self.query == Some(*q),
                Option::None => self.query is None,
            },
    {
        match &self.query {
            Some(q) => Some(q),
            None => None,
        }
    }

    /// Replaces the decoded query, handing back what stood there, so a
    /// caller can edit the query before running an operation. Verus does
    /// not return a mutable borrow of the field; this swap stands in for
    /// one.
    pub fn set_query(&mut self, query: Option<NormalizedParameter>) -> (r: Option<
        NormalizedParameter,
    >)
        ensures
            final(self).query == query,
            final(self).auth == old(self).auth,
            final(self).body == old(self).body,
            r == old(self).query,
    {
        let mut query = query;
        core::mem::swap(&mut self.query, &mut query);
        query
    }

    /// The decoded body of the request, where one was present.
    pub fn body(&self) -> (r: Option<&NormalizedParameter>)
        ensures
            match r {
                Option::Some(b) => self.body == Some(*b),
                Option::None => self.body is None,
            },
    {
        match &self.body {
            Some(b) => Some(b),
            None => None,
        }
    }

    /// The decoded query, or the missing-query error where the request
    /// carried none that parsed. This is the deferred failure: a request
    /// whose query never gets read never reports it.
    pub fn require_query(&self) -> (r: Result<&NormalizedParameter, WebError>)
        ensures
            match r {
                Result::Ok(q) => self.query == Some(*q),
                Result::Err(e) => self.query is None && e == WebError::Query,
            },
    {
        match &self.query {
            Some(q) => Ok(q),
            None => Err(WebError::Query),
        }
    }

    /// The decoded form body, or the missing-body error where the request
    /// carried none that parsed. This is the deferred failure: a request
    /// whose body never gets read never reports it.
    pub fn urlbody(&self) -> (r: Result<&NormalizedParameter, WebError>)
        ensures
            match r {
                Result::Ok(b) => self.body == Some(*b),
                Result::Err(e) => self.body is None && e == WebError::Body,
            },
    {
        match &self.body {
            Some(b) => Ok(b),
            None => Err(WebError::Body),
        }
    }

    /// The Authorization header for the engine's request contract. Always
    /// succeeds: a request with more than one header never got
    /// constructed.
    pub fn authheader(&self) -> (r: Result<Option<&str>, WebError>)
        ensures
            r matches Ok(a) && match a {
                Option::Some(s) => self.auth matches Some(x) && x@ == s@,
                Option::None => self.auth is None,
            },
    {
        Ok(self.authorization_header())
    }
}

impl OAuthResource {
    /// Extracts the Authorization field from the raw header collection,
    /// with the same one-or-none invariant as a full request, and nothing
    /// else.
    pub fn new(auth_headers: Vec<Option<String>>) -> (r: Result<Self, WebError>)
        ensures
            auth_headers@.len() > 1 ==> (r matches Err(e) && e == WebError::Authorization),
            auth_headers@.len() <= 1 ==> (r matches Ok(res) && res.auth == auth_of(auth_headers@)),
    {
        let auth = extract_auth(auth_headers)?;
        Ok(OAuthResource { auth })
    }

    /// The Authorization header, where one was present.
    pub fn authorization_header(&self) -> (r: Option<&str>)
        ensures
            match r {
                Option::Some(s) => self.auth matches Some(a) && a@ == s@,
                Option::None => self.auth is None,
            },
    {
        match &self.auth {
            Some(s) => Some(s.as_str()),
            None => None,
        }
    }

    /// Turns this header-only adapter into a full request, with query and
    /// body forced absent, so the same operation machinery can run
    /// resource-protection checks.
    pub fn into_request(self) -> (r: OAuthRequest)
        ensures
            r.auth == self.auth,
            r.query is None,
            r.body is None,
    {
        OAuthRequest { query: None, body: None, auth: self.auth }
    }
}

impl From<OAuthResource> for OAuthRequest {
    /// The same conversion as [`OAuthResource::into_request`].
    fn from(o: OAuthResource) -> (r: Self) {
        o.into_request()
    }
}

impl vstd::std_specs::convert::FromSpecImpl<OAuthResource> for OAuthRequest {
    open spec fn obeys_from_spec() -> bool {
        true
    }

    open spec fn from_spec(o: OAuthResource) -> Self {
        OAuthRequest { auth: o.auth, query: None, body: None }
    }
}

} // verus!
