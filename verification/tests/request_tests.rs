use oxide_auth_actix::error::WebError;
use oxide_auth_actix::params::NormalizedParameter;
use oxide_auth_actix::request::{OAuthRequest, OAuthResource};

#[test]
fn one_auth_header_preserved() {
    let headers = vec![Some("Bearer token".to_string())];
    let req = OAuthRequest::new(headers, None, None).unwrap();
    assert_eq!(req.authorization_header(), Some("Bearer token"));
}

#[test]
fn two_auth_headers_rejected() {
    let headers = vec![
        Some("Bearer one".to_string()),
        Some("Bearer two".to_string()),
    ];
    let err = OAuthRequest::new(headers, None, None).unwrap_err();
    assert!(matches!(err, WebError::Authorization));
}

#[test]
fn zero_auth_headers_is_none_not_error() {
    let req = OAuthRequest::new(Vec::new(), None, None).unwrap();
    assert_eq!(req.authorization_header(), None);
}

#[test]
fn unreadable_single_header_yields_none() {
    let req = OAuthRequest::new(vec![None], None, None).unwrap();
    assert_eq!(req.authorization_header(), None);
}

#[test]
fn two_headers_rejected_even_if_unreadable() {
    let err = OAuthRequest::new(vec![None, None], None, None).unwrap_err();
    assert!(matches!(err, WebError::Authorization));
}

#[test]
fn absent_body_constructs_and_only_body_access_fails() {
    let headers = vec![Some("Bearer token".to_string())];
    let req = OAuthRequest::new(headers, Some("code=abc"), None).unwrap();
    assert_eq!(req.authorization_header(), Some("Bearer token"));
    assert!(req.query().is_some());
    assert!(req.body().is_none());
    let err = req.urlbody().unwrap_err();
    assert!(matches!(err, WebError::Body));
    assert!(req.authheader().is_ok());
}

#[test]
fn present_form_body_is_decoded_and_readable() {
    let req = OAuthRequest::new(Vec::new(), None, Some("grant_type=authorization_code")).unwrap();
    let body = req.urlbody().unwrap();
    assert_eq!(
        body.pair(0),
        &("grant_type".to_string(), "authorization_code".to_string())
    );
    let err = req.require_query().unwrap_err();
    assert!(matches!(err, WebError::Query));
}

#[test]
fn absent_query_access_fails_with_query_kind() {
    let req = OAuthRequest::new(Vec::new(), None, None).unwrap();
    let err = req.require_query().unwrap_err();
    assert!(matches!(err, WebError::Query));
}

#[test]
fn query_is_decoded_on_construction() {
    let req = OAuthRequest::new(Vec::new(), Some("code=abc&state=xyz"), None).unwrap();
    let query = req.query().unwrap();
    assert_eq!(query.len(), 2);
    assert_eq!(query.pair(0), &("code".to_string(), "abc".to_string()));
    assert_eq!(query.pair(1), &("state".to_string(), "xyz".to_string()));
}

#[test]
fn from_parts_stores_the_parts_as_given() {
    let query = NormalizedParameter::from_pairs(vec![("a".to_string(), "1".to_string())]);
    let req = OAuthRequest::from_parts(Some("Bearer x".to_string()), Some(query), None);
    assert_eq!(req.authorization_header(), Some("Bearer x"));
    assert_eq!(req.query().unwrap().len(), 1);
    assert!(req.body().is_none());
}

#[test]
fn set_query_edits_the_query_and_returns_the_old_one() {
    let mut req = OAuthRequest::new(Vec::new(), Some("code=abc"), None).unwrap();
    let edited = NormalizedParameter::from_pairs(vec![("code".to_string(), "xyz".to_string())]);
    let old = req.set_query(Some(edited));
    assert_eq!(old.unwrap().pair(0), &("code".to_string(), "abc".to_string()));
    assert_eq!(
        req.query().unwrap().pair(0),
        &("code".to_string(), "xyz".to_string())
    );
    let old = req.set_query(None);
    assert!(old.is_some());
    assert!(req.query().is_none());
}

#[test]
fn resource_extracts_only_auth() {
    let headers = vec![Some("Bearer token".to_string())];
    let res = OAuthResource::new(headers).unwrap();
    assert_eq!(res.authorization_header(), Some("Bearer token"));
}

#[test]
fn resource_rejects_two_headers() {
    let headers = vec![
        Some("Bearer one".to_string()),
        Some("Bearer two".to_string()),
    ];
    let err = OAuthResource::new(headers).unwrap_err();
    assert!(matches!(err, WebError::Authorization));
}

#[test]
fn resource_into_request_forces_fields_absent() {
    let headers = vec![Some("Bearer token".to_string())];
    let res = OAuthResource::new(headers).unwrap();
    let req = res.into_request();
    assert_eq!(req.authorization_header(), Some("Bearer token"));
    assert!(req.query().is_none());
    assert!(req.body().is_none());
}

#[test]
fn resource_from_conversion_matches_into_request() {
    let res = OAuthResource::new(vec![Some("Bearer x".to_string())]).unwrap();
    let req = OAuthRequest::from(res);
    assert_eq!(req.authorization_header(), Some("Bearer x"));
    assert!(req.query().is_none());
    assert!(req.body().is_none());
}
