use gmusic::api::{FlowAction, RequestFlow, TokenGrant};
use gmusic::error::Error;
use gmusic::token::{AuthToken, Token};

fn fresh_cache() -> AuthToken {
    let mut cache = AuthToken::new();
    cache.set_token(Token {
        access_secret: "access-1".to_owned(),
        refresh_secret: Some("refresh-1".to_owned()),
        issued_at_ms: 0,
        ttl_ms: 1_000_000,
    });
    cache
}

fn grant(access: &str) -> TokenGrant {
    TokenGrant { access_secret: access.to_owned(), ttl_ms: 1_000_000 }
}

#[test]
fn single_401_causes_one_refresh_and_one_retry() {
    let mut cache = fresh_cache();
    let mut flow = RequestFlow::new();

    let a1 = flow.start(&cache, 10);
    let header1 = match a1 {
        FlowAction::Send { auth_header } => auth_header,
        _ => panic!("expected a send"),
    };
    assert_eq!(header1, "Bearer access-1");

    let a2 = flow.on_response(&cache, 401, b"denied".to_vec());
    let secret = match a2 {
        FlowAction::Refresh { refresh_secret } => refresh_secret,
        _ => panic!("expected a refresh"),
    };
    assert_eq!(secret, "refresh-1");

    let a3 = flow.on_refresh_outcome(&mut cache, Ok(grant("access-2")), 11);
    let header2 = match a3 {
        FlowAction::Send { auth_header } => auth_header,
        _ => panic!("expected the retried send"),
    };
    assert_eq!(header2, "Bearer access-2");

    let a4 = flow.on_response(&cache, 200, b"payload".to_vec());
    match a4 {
        FlowAction::Finish { result } => {
            let resp = result.unwrap();
            assert_eq!(resp.status, 200);
            assert_eq!(resp.body, b"payload".to_vec());
        }
        _ => panic!("expected the terminal outcome"),
    }

    // Exactly one refresh and exactly one retried request.
    assert_eq!(flow.refreshes(), 1);
    assert_eq!(flow.sends(), 2);
    assert!(flow.is_complete());
    // The refresh kept the refresh secret.
    let token = cache.get_token().unwrap();
    assert_eq!(token.refresh_secret.as_deref(), Some("refresh-1"));
    assert_eq!(token.access_secret, "access-2");
}

#[test]
fn second_401_is_a_terminal_protocol_error() {
    let mut cache = fresh_cache();
    let mut flow = RequestFlow::new();

    let a1 = flow.start(&cache, 10);
    assert!(matches!(a1, FlowAction::Send { .. }));
    let a2 = flow.on_response(&cache, 401, Vec::new());
    assert!(matches!(a2, FlowAction::Refresh { .. }));
    let a3 = flow.on_refresh_outcome(&mut cache, Ok(grant("access-2")), 11);
    assert!(matches!(a3, FlowAction::Send { .. }));

    let a4 = flow.on_response(&cache, 401, b"still denied".to_vec());
    match a4 {
        FlowAction::Finish { result } => match result {
            Err(Error::ProtocolError { status, body }) => {
                assert_eq!(status, 401);
                assert_eq!(body, b"still denied".to_vec());
            }
            other => panic!("expected a protocol error, got {:?}", other),
        },
        _ => panic!("expected the terminal outcome"),
    }
    assert_eq!(flow.refreshes(), 1);
    assert_eq!(flow.sends(), 2);
}

#[test]
fn stale_cache_refreshes_before_the_first_send() {
    let mut cache = AuthToken::new();
    cache.set_token(Token {
        access_secret: "stale".to_owned(),
        refresh_secret: Some("refresh-1".to_owned()),
        issued_at_ms: 0,
        ttl_ms: 10,
    });
    let mut flow = RequestFlow::new();

    let a1 = flow.start(&cache, 100);
    assert!(matches!(a1, FlowAction::Refresh { .. }));
    let a2 = flow.on_refresh_outcome(&mut cache, Ok(grant("fresh")), 100);
    match a2 {
        FlowAction::Send { auth_header } => assert_eq!(auth_header, "Bearer fresh"),
        _ => panic!("expected the first send"),
    }
    let a3 = flow.on_response(&cache, 204, Vec::new());
    match a3 {
        FlowAction::Finish { result } => assert_eq!(result.unwrap().status, 204),
        _ => panic!("expected the terminal outcome"),
    }
    assert_eq!(flow.refreshes(), 1);
    assert_eq!(flow.sends(), 1);
}

#[test]
fn unpopulated_cache_fails_without_any_request() {
    let cache = AuthToken::new();
    let mut flow = RequestFlow::new();
    let a1 = flow.start(&cache, 0);
    match a1 {
        FlowAction::Finish { result } => {
            assert!(matches!(result, Err(Error::Unauthenticated)));
        }
        _ => panic!("expected the terminal outcome"),
    }
    assert_eq!(flow.sends(), 0);
    assert_eq!(flow.refreshes(), 0);
}

#[test]
fn missing_refresh_secret_fails_without_any_request() {
    let mut cache = AuthToken::new();
    cache.set_token(Token {
        access_secret: "stale".to_owned(),
        refresh_secret: None,
        issued_at_ms: 0,
        ttl_ms: 10,
    });
    let mut flow = RequestFlow::new();
    let a1 = flow.start(&cache, 100);
    match a1 {
        FlowAction::Finish { result } => {
            assert!(matches!(result, Err(Error::RefreshTokenMissing)));
        }
        _ => panic!("expected the terminal outcome"),
    }
    assert_eq!(flow.sends(), 0);
}

#[test]
fn gateway_failure_is_terminal() {
    let mut cache = AuthToken::new();
    cache.set_token(Token {
        access_secret: "stale".to_owned(),
        refresh_secret: Some("refresh-1".to_owned()),
        issued_at_ms: 0,
        ttl_ms: 10,
    });
    let mut flow = RequestFlow::new();
    let a1 = flow.start(&cache, 100);
    assert!(matches!(a1, FlowAction::Refresh { .. }));
    let a2 = flow.on_refresh_outcome(
        &mut cache,
        Err(Error::AuthProtocolError("rejected".to_owned())),
        100,
    );
    match a2 {
        FlowAction::Finish { result } => {
            assert!(matches!(result, Err(Error::AuthProtocolError(_))));
        }
        _ => panic!("expected the terminal outcome"),
    }
    assert_eq!(flow.sends(), 0);
}

#[test]
fn non_401_error_status_is_terminal() {
    let cache = fresh_cache();
    let mut flow = RequestFlow::new();
    let a1 = flow.start(&cache, 10);
    assert!(matches!(a1, FlowAction::Send { .. }));
    let a2 = flow.on_response(&cache, 500, b"oops".to_vec());
    match a2 {
        FlowAction::Finish { result } => match result {
            Err(Error::ProtocolError { status, .. }) => assert_eq!(status, 500),
            other => panic!("expected a protocol error, got {:?}", other),
        },
        _ => panic!("expected the terminal outcome"),
    }
    assert_eq!(flow.refreshes(), 0);
    assert_eq!(flow.sends(), 1);
}

#[test]
fn transport_failure_is_terminal() {
    let cache = fresh_cache();
    let mut flow = RequestFlow::new();
    let a1 = flow.start(&cache, 10);
    assert!(matches!(a1, FlowAction::Send { .. }));
    let a2 = flow.on_transport_error(Error::TransportError("connection reset".to_owned()));
    match a2 {
        FlowAction::Finish { result } => {
            assert!(matches!(result, Err(Error::TransportError(_))));
        }
        _ => panic!("expected the terminal outcome"),
    }
    assert!(flow.is_complete());
}
