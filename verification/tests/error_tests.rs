use oxide_auth_actix::error::{OAuthFailure, ProtocolError, WebError};

#[test]
fn every_kind_has_its_description() {
    assert_eq!(WebError::Header.description(), "Couldn't set header");
    assert_eq!(WebError::Encoding.description(), "Error decoding request");
    assert_eq!(WebError::Form.description(), "Request is not a form");
    assert_eq!(WebError::Query.description(), "No query present");
    assert_eq!(WebError::Body.description(), "No body present");
    assert_eq!(
        WebError::Authorization.description(),
        "Request has invalid Authorization headers"
    );
    assert_eq!(WebError::Canceled.description(), "Operation canceled");
    assert_eq!(WebError::Mailbox.description(), "An actor's mailbox was full");
}

#[test]
fn endpoint_kind_describes_the_protocol_error() {
    let e = WebError::Endpoint(ProtocolError::BadRequest);
    assert_eq!(e.description(), "Request was invalid");
    let e = WebError::Endpoint(ProtocolError::DenySilently);
    assert_eq!(e.description(), "Suspicious request may be an attack");
    let e = WebError::Endpoint(ProtocolError::PrimitiveError);
    assert_eq!(e.description(), "Server component failed during OAuth flow");
}

#[test]
fn default_status_fails_closed_to_500() {
    assert_eq!(WebError::Header.status_code(), 500);
    assert_eq!(WebError::Query.status_code(), 500);
    assert_eq!(WebError::Mailbox.status_code(), 500);
    assert_eq!(WebError::Endpoint(ProtocolError::BadRequest).status_code(), 500);
}

#[test]
fn protocol_errors_convert_without_losing_their_kind() {
    let e = WebError::from(ProtocolError::PrimitiveError);
    assert!(matches!(e, WebError::Endpoint(ProtocolError::PrimitiveError)));
}

#[test]
fn oauth_failure_discloses_client_errors_as_400() {
    assert_eq!(OAuthFailure(ProtocolError::DenySilently).status_code(), 400);
    assert_eq!(OAuthFailure(ProtocolError::BadRequest).status_code(), 400);
    assert_eq!(OAuthFailure(ProtocolError::PrimitiveError).status_code(), 500);
}

#[test]
fn oauth_failure_describes_its_protocol_error() {
    let f = OAuthFailure(ProtocolError::DenySilently);
    assert_eq!(f.description(), "Suspicious request may be an attack");
}
