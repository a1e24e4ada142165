//! The retry guard driven through its request lifecycles: one Forbidden
//! buys one re-authentication and one retry, a second Forbidden is
//! delivered as an error, and body classification separates data grids
//! from error grids.

use raystack::auth::{AuthError, AuthErrorKind};
use raystack::{BodySummary, GuardCommand, RequestGuard, RequestOutcome, ResponseEvent};

fn grid_body(meta_err: Option<&str>) -> ResponseEvent {
    ResponseEvent::Body {
        body: BodySummary::Grid { meta_err: meta_err.map(|s| s.to_owned()) },
    }
}

#[test]
fn request_header_carries_bearer_token() {
    let g = RequestGuard::new("tok123".to_owned());
    assert_eq!(g.request_header(), "BEARER authToken=tok123");
}

#[test]
fn success_body_is_delivered_unchanged() {
    let mut g = RequestGuard::new("tok".to_owned());
    let cmd = g.on_response(grid_body(None));
    assert!(matches!(
        cmd,
        GuardCommand::Deliver { outcome: RequestOutcome::Success }
    ));
}

#[test]
fn error_grid_marker_is_detected() {
    let mut g = RequestGuard::new("tok".to_owned());
    let cmd = g.on_response(grid_body(Some("m:")));
    assert!(matches!(
        cmd,
        GuardCommand::Deliver { outcome: RequestOutcome::ErrorGrid }
    ));
}

#[test]
fn non_marker_err_meta_is_not_an_error_grid() {
    let mut g = RequestGuard::new("tok".to_owned());
    let cmd = g.on_response(grid_body(Some("something else")));
    assert!(matches!(
        cmd,
        GuardCommand::Deliver { outcome: RequestOutcome::Success }
    ));
}

#[test]
fn forbidden_triggers_one_reauth_and_one_retry() {
    let mut g = RequestGuard::new("stale".to_owned());

    let cmd = g.on_response(ResponseEvent::Forbidden);
    assert!(matches!(cmd, GuardCommand::Authenticate));

    let cmd = g.on_auth_outcome(Ok("fresh".to_owned()));
    assert!(matches!(cmd, GuardCommand::Retry));
    assert_eq!(g.auth_token(), "fresh");
    assert!(g.was_refreshed());
    assert_eq!(g.request_header(), "BEARER authToken=fresh");

    // The second consecutive Forbidden propagates; no third attempt.
    let cmd = g.on_response(ResponseEvent::Forbidden);
    assert!(matches!(
        cmd,
        GuardCommand::Deliver { outcome: RequestOutcome::Forbidden }
    ));
}

#[test]
fn retry_after_refresh_delivers_its_body() {
    let mut g = RequestGuard::new("stale".to_owned());
    g.on_response(ResponseEvent::Forbidden);
    g.on_auth_outcome(Ok("fresh".to_owned()));
    let cmd = g.on_response(grid_body(None));
    assert!(matches!(
        cmd,
        GuardCommand::Deliver { outcome: RequestOutcome::Success }
    ));
}

#[test]
fn failed_reauthentication_is_delivered() {
    let mut g = RequestGuard::new("stale".to_owned());
    g.on_response(ResponseEvent::Forbidden);
    let cmd = g.on_auth_outcome(Err(AuthError::ServerValidation {
        server_id: "http://test.example/ui".to_owned(),
    }));
    match cmd {
        GuardCommand::Deliver { outcome: RequestOutcome::AuthFailed { error } } => {
            assert_eq!(error.error_kind(), AuthErrorKind::ServerValidation);
        }
        _ => panic!("a failed re-authentication must be delivered"),
    }
}

#[test]
fn transport_error_is_delivered() {
    let mut g = RequestGuard::new("tok".to_owned());
    let cmd = g.on_response(ResponseEvent::Transport { msg: "timed out".to_owned() });
    match cmd {
        GuardCommand::Deliver { outcome: RequestOutcome::TransportError { msg } } => {
            assert_eq!(msg, "timed out");
        }
        _ => panic!("a transport error must be delivered"),
    }
}

#[test]
fn bad_grid_shape_is_delivered() {
    let mut g = RequestGuard::new("tok".to_owned());
    let error = raystack::ParseJsonGridError::new("no rows".to_owned());
    let cmd = g.on_response(ResponseEvent::Body { body: BodySummary::BadShape { error } });
    match cmd {
        GuardCommand::Deliver { outcome: RequestOutcome::BadGrid { error } } => {
            assert_eq!(error.msg, "no rows");
        }
        _ => panic!("a malformed grid must be delivered as such"),
    }
}
