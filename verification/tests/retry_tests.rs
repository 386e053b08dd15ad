use kiro_auth_client::retry::{
    classify_response, deserialization_failure, Action, AuthError, Event, OpKind, RetrySession,
    MAX_ATTEMPTS, RETRY_DELAY_MS,
};

fn transport(msg: &str) -> Event {
    Event::TransportError { message: msg.to_string() }
}

fn response(status: u16, body: &str) -> Event {
    Event::Response { status, body: body.to_string() }
}

#[test]
fn success_on_first_attempt_no_delay() {
    for op in [OpKind::CreateToken, OpKind::RefreshToken] {
        let mut session = RetrySession::new(op);
        assert_eq!(session.attempt_count(), 0);
        let action = session.handle(response(200, "{\"accessToken\":\"a\"}"));
        assert_eq!(
            action,
            Action::Complete { result: Ok("{\"accessToken\":\"a\"}".to_string()) }
        );
        assert_eq!(session.attempt_count(), 1);
        assert!(session.finished());
    }
}

#[test]
fn two_transport_failures_then_success_on_third_attempt() {
    let mut session = RetrySession::new(OpKind::CreateToken);
    let a1 = session.handle(transport("dns failure"));
    assert_eq!(a1, Action::RetryAfterDelay { delay_ms: RETRY_DELAY_MS });
    let a2 = session.handle(transport("timeout"));
    assert_eq!(a2, Action::RetryAfterDelay { delay_ms: RETRY_DELAY_MS });
    assert!(!session.finished());
    let a3 = session.handle(response(201, "ok-body"));
    assert_eq!(a3, Action::Complete { result: Ok("ok-body".to_string()) });
    assert_eq!(session.attempt_count(), 3);
    assert!(session.finished());
}

#[test]
fn three_transport_failures_return_last_message() {
    let mut session = RetrySession::new(OpKind::RefreshToken);
    assert_eq!(
        session.handle(transport("first")),
        Action::RetryAfterDelay { delay_ms: 2000 }
    );
    assert_eq!(
        session.handle(transport("second")),
        Action::RetryAfterDelay { delay_ms: 2000 }
    );
    let last = session.handle(transport("third"));
    assert_eq!(
        last,
        Action::Complete {
            result: Err(AuthError::Transport { message: "third".to_string() })
        }
    );
    assert_eq!(session.attempt_count(), MAX_ATTEMPTS);
    assert!(session.finished());
}

#[test]
fn http_500_fails_immediately_without_retry() {
    let mut session = RetrySession::new(OpKind::CreateToken);
    let action = session.handle(response(500, "server fire"));
    assert_eq!(
        action,
        Action::Complete {
            result: Err(AuthError::HttpStatus { status: 500, body: "server fire".to_string() })
        }
    );
    assert_eq!(session.attempt_count(), 1);
    assert!(session.finished());
}

#[test]
fn refresh_401_is_specialized_expired_error() {
    let mut refresh = RetrySession::new(OpKind::RefreshToken);
    let refresh_action = refresh.handle(response(401, "unauthorized"));
    assert_eq!(
        refresh_action,
        Action::Complete { result: Err(AuthError::TokenExpired) }
    );

    // the code exchange keeps the generic status error for the same response
    let mut create = RetrySession::new(OpKind::CreateToken);
    let create_action = create.handle(response(401, "unauthorized"));
    assert_eq!(
        create_action,
        Action::Complete {
            result: Err(AuthError::HttpStatus { status: 401, body: "unauthorized".to_string() })
        }
    );
    assert_ne!(refresh_action, create_action);
}

#[test]
fn invalid_json_body_is_terminal_deserialization_error() {
    let mut session = RetrySession::new(OpKind::CreateToken);
    let action = session.handle(response(200, "not json at all"));
    let body = match action {
        Action::Complete { result: Ok(body) } => body,
        other => panic!("expected completion with a body, got {:?}", other),
    };
    // exactly one attempt was made and the session takes no further event
    assert_eq!(session.attempt_count(), 1);
    assert!(session.finished());
    let parse: Result<serde_json::Value, _> = serde_json::from_str(&body);
    let err = parse.expect_err("body must not parse");
    let auth_err = deserialization_failure(err.to_string());
    assert!(matches!(auth_err, AuthError::Deserialization { .. }));
    assert_ne!(
        auth_err,
        AuthError::Transport { message: err.to_string() }
    );
}

#[test]
fn body_read_failure_is_terminal() {
    let mut session = RetrySession::new(OpKind::RefreshToken);
    let action = session.handle(Event::BodyReadFailed { message: "connection reset".to_string() });
    assert_eq!(
        action,
        Action::Complete {
            result: Err(AuthError::BodyRead { message: "connection reset".to_string() })
        }
    );
    assert_eq!(session.attempt_count(), 1);
    assert!(session.finished());
}

#[test]
fn classify_response_status_ranges() {
    let ok = classify_response(OpKind::CreateToken, 204, "x".to_string());
    assert_eq!(ok, Ok("x".to_string()));
    let edge = classify_response(OpKind::RefreshToken, 299, "y".to_string());
    assert_eq!(edge, Ok("y".to_string()));
    let low = classify_response(OpKind::CreateToken, 199, "z".to_string());
    assert_eq!(low, Err(AuthError::HttpStatus { status: 199, body: "z".to_string() }));
    let high = classify_response(OpKind::RefreshToken, 300, "w".to_string());
    assert_eq!(high, Err(AuthError::HttpStatus { status: 300, body: "w".to_string() }));
}
