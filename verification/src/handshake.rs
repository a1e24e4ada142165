//! The three-round authentication handshake as a state machine.
//!
//! The machine never touches the network.  Its driver sends each
//! `Continue` header as an Authorization header on a GET of the auth
//! endpoint, then hands the interesting response headers back through
//! `on_response`; the machine parses, computes the proofs, and decides
//! the next step.  A machine is single-use: one instance serves exactly
//! one authentication attempt with one fresh nonce.

use vstd::prelude::*;

use crate::auth::{
    auth_message, client_final_message, client_final_no_proof_message, client_first_message,
    client_proof, derive_salted_password, generate_nonce, hello_header_value, is_server_valid,
    parse_hello_response, parse_server_final_response, parse_server_first_response,
    scram_header_value, spec_auth_message, spec_client_final_no_proof, spec_client_first,
    spec_client_proof, spec_expected_server_signature, spec_hello_header, spec_nonce_bytes,
    spec_parse_hello, spec_parse_server_final, spec_parse_server_first, spec_salted_password,
    spec_scram_header, AuthError, AuthErrorKind,
};
use crate::b64::{base64_decode_standard, spec_base64_nopad, spec_base64_std_decode};
use crate::crypto::HashFunction;
use crate::text::spec_hex_of_bytes;

verus! {

/// Where the handshake stands, with what later rounds still need.
pub enum SpecHandshakeState {
    /// The hello request may be sent; no response seen yet.
    AwaitingHello,
    /// Round two sent: the echoed token, the chosen hash function and the
    /// client-first message are fixed.
    AwaitingServerFirst {
        handshake_token: Seq<char>,
        hash_fn: HashFunction,
        client_first: Seq<char>,
    },
    /// The proof was sent: what remains is to check the server signature
    /// over the signed text.
    AwaitingServerFinal {
        hash_fn: HashFunction,
        auth_msg: Seq<char>,
        salted_password: Seq<u8>,
    },
    /// The handshake ended, in success or failure.
    Done,
}

/// A handshake attempt, as its contracts see it.
pub struct SpecHandshake {
    pub username: Seq<char>,
    pub password: Seq<char>,
    pub nonce: Seq<char>,
    pub state: SpecHandshakeState,
}

/// One HTTP answer, reduced to the headers the handshake reads; or the
/// transport's failure to produce one.
pub enum HandshakeEvent {
    Response { www_authenticate: Option<String>, authentication_info: Option<String> },
    Transport { msg: String },
}

/// The spec-level mirror of a handshake event.
pub enum SpecHandshakeEvent {
    Response { www_authenticate: Option<Seq<char>>, authentication_info: Option<Seq<char>> },
    Transport,
}

impl View for HandshakeEvent {
    type V = SpecHandshakeEvent;

    open spec fn view(&self) -> SpecHandshakeEvent {
        match self {
            HandshakeEvent::Response { www_authenticate, authentication_info } => {
                SpecHandshakeEvent::Response {
                    www_authenticate: www_authenticate.deep_view(),
                    authentication_info: authentication_info.deep_view(),
                }
            },
            HandshakeEvent::Transport { .. } => SpecHandshakeEvent::Transport,
        }
    }
}

/// What the driver must do next.
pub enum HandshakeOutcome {
    /// Send another GET with this Authorization header value.
    Continue { authorization: String },
    /// The handshake succeeded; use this bearer token from now on.
    Token { auth_token: String },
    /// The handshake failed; no token may be used.
    Failed { error: AuthError },
}

/// The spec-level mirror of an outcome.
pub enum SpecHandshakeOutcome {
    Continue { authorization: Seq<char> },
    Token { auth_token: Seq<char> },
    Failed { kind: AuthErrorKind },
}

impl View for HandshakeOutcome {
    type V = SpecHandshakeOutcome;

    open spec fn view(&self) -> SpecHandshakeOutcome {
        match self {
            HandshakeOutcome::Continue { authorization } => {
                SpecHandshakeOutcome::Continue { authorization: authorization@ }
            },
            HandshakeOutcome::Token { auth_token } => {
                SpecHandshakeOutcome::Token { auth_token: auth_token@ }
            },
            HandshakeOutcome::Failed { error } => {
                SpecHandshakeOutcome::Failed { kind: error.kind() }
            },
        }
    }
}

enum HandshakeState {
    AwaitingHello,
    AwaitingServerFirst { handshake_token: String, hash_fn: HashFunction, client_first: String },
    AwaitingServerFinal { hash_fn: HashFunction, auth_msg: String, salted_password: Vec<u8> },
    Done,
}

impl View for HandshakeState {
    type V = SpecHandshakeState;

    closed spec fn view(&self) -> SpecHandshakeState {
        match self {
            HandshakeState::AwaitingHello => SpecHandshakeState::AwaitingHello,
            HandshakeState::AwaitingServerFirst { handshake_token, hash_fn, client_first } => {
                SpecHandshakeState::AwaitingServerFirst {
                    handshake_token: handshake_token@,
                    hash_fn: *hash_fn,
                    client_first: client_first@,
                }
            },
            HandshakeState::AwaitingServerFinal { hash_fn, auth_msg, salted_password } => {
                SpecHandshakeState::AwaitingServerFinal {
                    hash_fn: *hash_fn,
                    auth_msg: auth_msg@,
                    salted_password: salted_password@,
                }
            },
            HandshakeState::Done => SpecHandshakeState::Done,
        }
    }
}

/// What one event does to a handshake: the machine afterwards, and what
/// the driver must do.  This is the whole client side of the protocol.
pub open spec fn spec_handshake_next(m: SpecHandshake, ev: SpecHandshakeEvent) -> (
    SpecHandshake,
    SpecHandshakeOutcome,
) {
    let done = SpecHandshake { state: SpecHandshakeState::Done, ..m };
    match ev {
        SpecHandshakeEvent::Transport => (
            done,
            SpecHandshakeOutcome::Failed { kind: AuthErrorKind::Http },
        ),
        SpecHandshakeEvent::Response { www_authenticate, authentication_info } => match m.state {
            SpecHandshakeState::AwaitingHello => match spec_parse_hello(www_authenticate) {
                Err(k) => (done, SpecHandshakeOutcome::Failed { kind: k }),
                Ok((handshake_token, hash_fn)) => {
                    let client_first = spec_client_first(m.username, m.nonce);
                    (
                        SpecHandshake {
                            state: SpecHandshakeState::AwaitingServerFirst {
                                handshake_token,
                                hash_fn,
                                client_first,
                            },
                            ..m
                        },
                        SpecHandshakeOutcome::Continue {
                            authorization: spec_scram_header(handshake_token, client_first),
                        },
                    )
                },
            },
            SpecHandshakeState::AwaitingServerFirst { handshake_token, hash_fn, client_first } => {
                match spec_parse_server_first(www_authenticate) {
                    Err(k) => (done, SpecHandshakeOutcome::Failed { kind: k }),
                    Ok((server_first, server_nonce, server_salt, iterations)) => {
                        match spec_base64_std_decode(server_salt) {
                            None => (
                                done,
                                SpecHandshakeOutcome::Failed { kind: AuthErrorKind::Base64Decode },
                            ),
                            Some(salt) => {
                                let salted_password = spec_salted_password(
                                    hash_fn,
                                    m.password,
                                    salt,
                                    iterations as nat,
                                );
                                let client_final_no_proof = spec_client_final_no_proof(
                                    server_nonce,
                                );
                                let auth_msg = spec_auth_message(
                                    client_first,
                                    server_first,
                                    client_final_no_proof,
                                );
                                let client_final = client_final_no_proof + ",p="@
                                    + spec_base64_nopad(
                                    spec_client_proof(hash_fn, salted_password, auth_msg),
                                );
                                (
                                    SpecHandshake {
                                        state: SpecHandshakeState::AwaitingServerFinal {
                                            hash_fn,
                                            auth_msg,
                                            salted_password,
                                        },
                                        ..m
                                    },
                                    SpecHandshakeOutcome::Continue {
                                        authorization: spec_scram_header(
                                            handshake_token,
                                            client_final,
                                        ),
                                    },
                                )
                            },
                        }
                    },
                }
            },
            SpecHandshakeState::AwaitingServerFinal { hash_fn, auth_msg, salted_password } => {
                match spec_parse_server_final(authentication_info) {
                    Err(k) => (done, SpecHandshakeOutcome::Failed { kind: k }),
                    Ok((auth_token, v)) => {
                        if spec_expected_server_signature(hash_fn, salted_password, auth_msg)
                            == v {
                            (done, SpecHandshakeOutcome::Token { auth_token })
                        } else {
                            (
                                done,
                                SpecHandshakeOutcome::Failed {
                                    kind: AuthErrorKind::ServerValidation,
                                },
                            )
                        }
                    },
                }
            },
            SpecHandshakeState::Done => (
                done,
                SpecHandshakeOutcome::Failed { kind: AuthErrorKind::Http },
            ),
        },
    }
}

/// One authentication attempt against one server.
pub struct Handshake {
    username: String,
    password: String,
    server_id: String,
    nonce: String,
    state: HandshakeState,
}

impl View for Handshake {
    type V = SpecHandshake;

    closed spec fn view(&self) -> SpecHandshake {
        SpecHandshake {
            username: self.username@,
            password: self.password@,
            nonce: self.nonce@,
            state: self.state@,
        }
    }
}

fn opt_as_str(o: &Option<String>) -> (r: Option<&str>)
    ensures
        r.deep_view() == o.deep_view(),
{
    match o {
        Some(s) => Some(s.as_str()),
        None => None,
    }
}

impl Handshake {
    /// Begin an attempt with a caller-chosen nonce.
    pub fn new_with_nonce(
        username: String,
        password: String,
        server_id: String,
        nonce: String,
    ) -> (m: Handshake)
        ensures
            m@ == (SpecHandshake {
                username: username@,
                password: password@,
                nonce: nonce@,
                state: SpecHandshakeState::AwaitingHello,
            }),
    {
        Handshake { username, password, server_id, nonce, state: HandshakeState::AwaitingHello }
    }

    /// Begin an attempt with a freshly generated random nonce.
    pub fn new(username: String, password: String, server_id: String) -> (r: Result<
        Handshake,
        AuthError,
    >)
        ensures
            r matches Ok(m) ==> {
                &&& m@.username == username@
                &&& m@.password == password@
                &&& m@.state is AwaitingHello
                &&& exists|bs: Seq<u8>|
                    bs.len() == spec_nonce_bytes() && m@.nonce == spec_hex_of_bytes(bs)
            },
            r matches Err(e) ==> e.kind() == AuthErrorKind::GenerateNonce,
    {
        let nonce = match generate_nonce() {
            Ok(nonce) => nonce,
            Err(e) => {
                return Err(e);
            },
        };
        Ok(Self::new_with_nonce(username, password, server_id, nonce))
    }

    /// The nonce this attempt uses.
    pub fn nonce(&self) -> (r: &str)
        ensures
            r@ == self@.nonce,
    {
        self.nonce.as_str()
    }

    /// The Authorization header of the hello request, the handshake's first
    /// round.
    pub fn hello_request(&self) -> (r: String)
        ensures
            r@ == spec_hello_header(self@.username),
    {
        hello_header_value(self.username.as_str())
    }

    /// Feed one HTTP answer to the machine and learn the next step.
    pub fn on_response(&mut self, event: HandshakeEvent) -> (r: HandshakeOutcome)
        requires
            !(old(self)@.state is Done),
        ensures
            (final(self)@, r@) == spec_handshake_next(old(self)@, event@),
    {
        let (next, outcome): (HandshakeState, HandshakeOutcome) = match event {
            HandshakeEvent::Transport { msg } => (
                HandshakeState::Done,
                HandshakeOutcome::Failed { error: AuthError::Http { msg } },
            ),
            HandshakeEvent::Response { www_authenticate, authentication_info } => {
                match &self.state {
                    HandshakeState::AwaitingHello => {
                        match parse_hello_response(opt_as_str(&www_authenticate)) {
                            Err(e) => (
                                HandshakeState::Done,
                                HandshakeOutcome::Failed { error: e },
                            ),
                            Ok(config) => {
                                let client_first = client_first_message(
                                    self.username.as_str(),
                                    self.nonce.as_str(),
                                );
                                let authorization = scram_header_value(
                                    config.handshake_token.as_str(),
                                    client_first.as_str(),
                                );
                                (
                                    HandshakeState::AwaitingServerFirst {
                                        handshake_token: config.handshake_token,
                                        hash_fn: config.hash_fn,
                                        client_first,
                                    },
                                    HandshakeOutcome::Continue { authorization },
                                )
                            },
                        }
                    },
                    HandshakeState::AwaitingServerFirst {
                        handshake_token,
                        hash_fn,
                        client_first,
                    } => {
                        match parse_server_first_response(opt_as_str(&www_authenticate)) {
                            Err(e) => (
                                HandshakeState::Done,
                                HandshakeOutcome::Failed { error: e },
                            ),
                            Ok(server_first) => {
                                match base64_decode_standard(server_first.server_salt.as_str()) {
                                    Err(msg) => (
                                        HandshakeState::Done,
                                        HandshakeOutcome::Failed {
                                            error: AuthError::Base64Decode { msg },
                                        },
                                    ),
                                    Ok(salt) => {
                                        let salted_password = derive_salted_password(
                                            hash_fn,
                                            self.password.as_str(),
                                            salt.as_slice(),
                                            server_first.server_iterations,
                                        );
                                        let client_final_no_proof = client_final_no_proof_message(
                                            server_first.server_nonce.as_str(),
                                        );
                                        let auth_msg = auth_message(
                                            client_first.as_str(),
                                            server_first.server_first_msg.as_str(),
                                            client_final_no_proof.as_str(),
                                        );
                                        let proof_bytes = client_proof(
                                            hash_fn,
                                            &salted_password,
                                            auth_msg.as_str(),
                                        );
                                        let client_final = client_final_message(
                                            client_final_no_proof.as_str(),
                                            &proof_bytes,
                                        );
                                        let authorization = scram_header_value(
                                            handshake_token.as_str(),
                                            client_final.as_str(),
                                        );
                                        (
                                            HandshakeState::AwaitingServerFinal {
                                                hash_fn: *hash_fn,
                                                auth_msg,
                                                salted_password,
                                            },
                                            HandshakeOutcome::Continue { authorization },
                                        )
                                    },
                                }
                            },
                        }
                    },
                    HandshakeState::AwaitingServerFinal {
                        hash_fn,
                        auth_msg,
                        salted_password,
                    } => {
                        match parse_server_final_response(opt_as_str(&authentication_info)) {
                            Err(e) => (
                                HandshakeState::Done,
                                HandshakeOutcome::Failed { error: e },
                            ),
                            Ok(server_final) => {
                                if is_server_valid(
                                    auth_msg.as_str(),
                                    salted_password,
                                    server_final.server_signature.as_str(),
                                    hash_fn,
                                ) {
                                    (
                                        HandshakeState::Done,
                                        HandshakeOutcome::Token {
                                            auth_token: server_final.auth_token,
                                        },
                                    )
                                } else {
                                    (
                                        HandshakeState::Done,
                                        HandshakeOutcome::Failed {
                                            error: AuthError::ServerValidation {
                                                server_id: self.server_id.clone(),
                                            },
                                        },
                                    )
                                }
                            },
                        }
                    },
                    HandshakeState::Done => {
                        // Excluded by the precondition; kept total for the
                        // compiler's sake.
                        (
                            HandshakeState::Done,
                            HandshakeOutcome::Failed {
                                error: AuthError::Http { msg: String::new() },
                            },
                        )
                    },
                }
            },
        };
        self.state = next;
        outcome
    }
}

} // verus!
