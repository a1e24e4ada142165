//! The handshake machine driven through whole scripted sessions: a
//! correct server's run ends in its token, a wrong server signature is
//! rejected, a missing challenge header fails at once, and every attempt
//! draws a fresh nonce.

use raystack::auth::AuthErrorKind;
use raystack::{Handshake, HandshakeEvent, HandshakeOutcome};

fn response(www: Option<&str>, info: Option<&str>) -> HandshakeEvent {
    HandshakeEvent::Response {
        www_authenticate: www.map(|s| s.to_owned()),
        authentication_info: info.map(|s| s.to_owned()),
    }
}

fn scripted_handshake() -> Handshake {
    Handshake::new_with_nonce(
        "name".to_owned(),
        "p4ssw0rd".to_owned(),
        "http://test.example/ui".to_owned(),
        "clientnonce123".to_owned(),
    )
}

#[test]
fn hello_request_encodes_username() {
    let m = scripted_handshake();
    assert_eq!(m.hello_request(), "HELLO username=bmFtZQ");
}

#[test]
fn correct_server_run_yields_token() {
    let mut m = scripted_handshake();

    let out = m.on_response(response(
        Some("SCRAM handshakeToken=abc123, hash=SHA-256"),
        None,
    ));
    match out {
        HandshakeOutcome::Continue { authorization } => {
            assert_eq!(
                authorization,
                "SCRAM handshakeToken=abc123, data=bj1uYW1lLHI9Y2xpZW50bm9uY2UxMjM"
            );
        }
        _ => panic!("round one should continue"),
    }

    let out = m.on_response(response(
        Some("SCRAM data=cj1zZXJ2ZXJub25jZTQ1NixzPWMyRnNkQSxpPTQwOTY"),
        None,
    ));
    match out {
        HandshakeOutcome::Continue { authorization } => {
            assert_eq!(
                authorization,
                "SCRAM handshakeToken=abc123, data=Yz1iaXdzLHI9c2VydmVybm9uY2U0NTYsc\
                 D1SdWRYdGMwajMzaS9CK0pRMXRVVGFDN0lLNFJWK3dVQUtEK1RQWEdZSFdF"
            );
        }
        _ => panic!("round two should continue"),
    }

    let out = m.on_response(response(
        None,
        Some("authToken=tok999, data=dj1tUm1aR2xtSlpPV0h3dmNTRU5Ub2VrVTNuakhxd3VPaHJhM2I1QnRwa3VrPQ"),
    ));
    match out {
        HandshakeOutcome::Token { auth_token } => assert_eq!(auth_token, "tok999"),
        _ => panic!("round three should hand over the token"),
    }
}

#[test]
fn sha512_server_run_yields_token() {
    let mut m = scripted_handshake();
    assert!(matches!(
        m.on_response(response(Some("SCRAM handshakeToken=abc123, hash=SHA-512"), None)),
        HandshakeOutcome::Continue { .. }
    ));
    assert!(matches!(
        m.on_response(response(
            Some("SCRAM data=cj1zZXJ2ZXJub25jZTQ1NixzPWMyRnNkQSxpPTQwOTY"),
            None
        )),
        HandshakeOutcome::Continue { .. }
    ));
    let out = m.on_response(response(
        None,
        Some(
            "authToken=tok512, data=dj1kZUFGcWhnNnNmNU9CMjI0NEJHQjRNMWREZUQ2MDNjRHVRc21lbVBlRE5u\
             dFJ1aTk1NHo0RUhJUUdwa3dKeVNlOUJ3YWE4VXRDSk1mMnBFcyttV0tvdz09",
        ),
    ));
    match out {
        HandshakeOutcome::Token { auth_token } => assert_eq!(auth_token, "tok512"),
        _ => panic!("SHA-512 session should succeed"),
    }
}

#[test]
fn wrong_server_signature_is_rejected() {
    let mut m = scripted_handshake();
    m.on_response(response(Some("SCRAM handshakeToken=abc123, hash=SHA-256"), None));
    m.on_response(response(
        Some("SCRAM data=cj1zZXJ2ZXJub25jZTQ1NixzPWMyRnNkQSxpPTQwOTY"),
        None,
    ));
    // The server issues a token, but signs with the wrong value: the token
    // must be discarded and the failure must name server validation.
    let out = m.on_response(response(None, Some("authToken=tok999, data=dj1XUk9ORw")));
    match out {
        HandshakeOutcome::Failed { error } => {
            assert_eq!(error.error_kind(), AuthErrorKind::ServerValidation);
        }
        _ => panic!("a wrong signature must fail the handshake"),
    }
}

#[test]
fn missing_challenge_header_fails_immediately() {
    let mut m = scripted_handshake();
    let out = m.on_response(response(None, None));
    match out {
        HandshakeOutcome::Failed { error } => {
            assert_eq!(error.error_kind(), AuthErrorKind::MissingHeader);
        }
        _ => panic!("a missing challenge header must fail the handshake"),
    }
}

#[test]
fn unknown_hash_function_fails() {
    let mut m = scripted_handshake();
    let out = m.on_response(response(Some("SCRAM handshakeToken=abc, hash=MD5"), None));
    match out {
        HandshakeOutcome::Failed { error } => {
            assert_eq!(error.error_kind(), AuthErrorKind::UnknownHashFunction);
        }
        _ => panic!("an unknown hash function must fail the handshake"),
    }
}

#[test]
fn zero_iterations_fails() {
    let mut m = scripted_handshake();
    m.on_response(response(Some("SCRAM handshakeToken=abc, hash=SHA-256"), None));
    // data decodes to "r=x,s=c2FsdA,i=0"
    let out = m.on_response(response(Some("SCRAM data=cj14LHM9YzJGc2RBLGk9MA"), None));
    match out {
        HandshakeOutcome::Failed { error } => {
            assert_eq!(error.error_kind(), AuthErrorKind::ParseIterations);
        }
        _ => panic!("a zero iteration count must fail the handshake"),
    }
}

#[test]
fn unparseable_iterations_fails() {
    let mut m = scripted_handshake();
    m.on_response(response(Some("SCRAM handshakeToken=abc, hash=SHA-256"), None));
    // data decodes to "r=x,s=c2FsdA,i=many"
    let out = m.on_response(response(Some("SCRAM data=cj14LHM9YzJGc2RBLGk9bWFueQ"), None));
    match out {
        HandshakeOutcome::Failed { error } => {
            assert_eq!(error.error_kind(), AuthErrorKind::ParseIterations);
        }
        _ => panic!("an unparseable iteration count must fail the handshake"),
    }
}

#[test]
fn bad_base64_data_fails() {
    let mut m = scripted_handshake();
    m.on_response(response(Some("SCRAM handshakeToken=abc, hash=SHA-256"), None));
    let out = m.on_response(response(Some("SCRAM data=!!!notbase64!!!"), None));
    match out {
        HandshakeOutcome::Failed { error } => {
            assert_eq!(error.error_kind(), AuthErrorKind::Base64Decode);
        }
        _ => panic!("undecodable data must fail the handshake"),
    }
}

#[test]
fn non_utf8_data_fails() {
    let mut m = scripted_handshake();
    m.on_response(response(Some("SCRAM handshakeToken=abc, hash=SHA-256"), None));
    // data decodes from base64, but the bytes are not UTF-8 text
    let out = m.on_response(response(Some("SCRAM data=/w"), None));
    match out {
        HandshakeOutcome::Failed { error } => {
            assert_eq!(error.error_kind(), AuthErrorKind::Utf8Decode);
        }
        _ => panic!("non-UTF-8 data must fail the handshake"),
    }
}

#[test]
fn missing_key_in_challenge_fails() {
    let mut m = scripted_handshake();
    let out = m.on_response(response(Some("SCRAM hash=SHA-256"), None));
    match out {
        HandshakeOutcome::Failed { error } => {
            assert_eq!(error.error_kind(), AuthErrorKind::KeyValuePair);
        }
        _ => panic!("a challenge without the handshake token must fail"),
    }
}

#[test]
fn transport_failure_fails_the_attempt() {
    let mut m = scripted_handshake();
    let out = m.on_response(HandshakeEvent::Transport { msg: "connection refused".to_owned() });
    match out {
        HandshakeOutcome::Failed { error } => {
            assert_eq!(error.error_kind(), AuthErrorKind::Http);
        }
        _ => panic!("a transport failure must fail the handshake"),
    }
}

#[test]
fn fresh_attempts_draw_fresh_nonces() {
    let a = Handshake::new(
        "name".to_owned(),
        "p4ssw0rd".to_owned(),
        "http://test.example/ui".to_owned(),
    )
    .unwrap();
    let b = Handshake::new(
        "name".to_owned(),
        "p4ssw0rd".to_owned(),
        "http://test.example/ui".to_owned(),
    )
    .unwrap();
    assert_ne!(a.nonce(), b.nonce());
    assert!(a.nonce().len() >= 32);
    assert!(a.nonce().len() <= 64);
    assert!(a.nonce().chars().all(|c| c.is_ascii_hexdigit()));
}
