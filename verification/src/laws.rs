//! The laws the two state machines obey, stated and proved once for all
//! inputs: a correctly playing server always gets its token accepted, a
//! bad server signature is always rejected, a missing first challenge
//! fails the handshake before any further round, and Forbidden buys
//! exactly one re-authentication and one retry.

use vstd::prelude::*;

use crate::auth::{
    spec_auth_message, spec_client_final_no_proof, spec_client_first, spec_expected_server_signature,
    spec_parse_hello, spec_parse_server_final, spec_parse_server_first, spec_salted_password,
    AuthErrorKind,
};
use crate::b64::spec_base64_std_decode;
use crate::crypto::HashFunction;
use crate::handshake::{
    spec_handshake_next, SpecHandshake, SpecHandshakeEvent, SpecHandshakeOutcome,
    SpecHandshakeState,
};
use crate::session::{
    spec_guard_on_auth, spec_guard_on_response, GuardState, SpecGuard, SpecGuardCommand,
    SpecRequestOutcome, SpecResponseEvent,
};

verus! {

/// Against any server that answers the three rounds by the protocol —
/// parseable challenges, a decodable salt, and a final signature computed
/// from the same salted password and signed text as the client's — the
/// handshake accepts every round and ends by handing over the server's
/// bearer token.
pub proof fn lemma_correct_server_handshake_succeeds(
    m: SpecHandshake,
    www1: Seq<char>,
    www2: Seq<char>,
    info3: Seq<char>,
    info1: Option<Seq<char>>,
    info2: Option<Seq<char>>,
    www3: Option<Seq<char>>,
    handshake_token: Seq<char>,
    hash_fn: HashFunction,
    server_first: Seq<char>,
    server_nonce: Seq<char>,
    server_salt: Seq<char>,
    iterations: u32,
    salt: Seq<u8>,
    auth_token: Seq<char>,
    server_signature: Seq<char>,
)
    requires
        m.state is AwaitingHello,
        spec_parse_hello(Some(www1)) == Ok::<_, AuthErrorKind>((handshake_token, hash_fn)),
        spec_parse_server_first(Some(www2)) == Ok::<_, AuthErrorKind>(
            (server_first, server_nonce, server_salt, iterations),
        ),
        spec_base64_std_decode(server_salt) == Some(salt),
        spec_parse_server_final(Some(info3)) == Ok::<_, AuthErrorKind>(
            (auth_token, server_signature),
        ),
        server_signature == spec_expected_server_signature(
            hash_fn,
            spec_salted_password(hash_fn, m.password, salt, iterations as nat),
            spec_auth_message(
                spec_client_first(m.username, m.nonce),
                server_first,
                spec_client_final_no_proof(server_nonce),
            ),
        ),
    ensures
        ({
            let (m1, o1) = spec_handshake_next(
                m,
                SpecHandshakeEvent::Response {
                    www_authenticate: Some(www1),
                    authentication_info: info1,
                },
            );
            let (m2, o2) = spec_handshake_next(
                m1,
                SpecHandshakeEvent::Response {
                    www_authenticate: Some(www2),
                    authentication_info: info2,
                },
            );
            let (m3, o3) = spec_handshake_next(
                m2,
                SpecHandshakeEvent::Response {
                    www_authenticate: www3,
                    authentication_info: Some(info3),
                },
            );
            &&& o1 is Continue
            &&& o2 is Continue
            &&& o3 == SpecHandshakeOutcome::Token { auth_token }
            &&& m3.state is Done
        }),
{
}

/// Whenever the final round parses but its `v` value differs from the
/// server signature this client computed for itself, the handshake fails
/// with the server-validation kind and hands over no token, whatever the
/// earlier rounds held.
pub proof fn lemma_bad_server_signature_rejected(
    m: SpecHandshake,
    hash_fn: HashFunction,
    auth_msg: Seq<char>,
    salted_password: Seq<u8>,
    www: Option<Seq<char>>,
    info: Seq<char>,
    auth_token: Seq<char>,
    server_signature: Seq<char>,
)
    requires
        m.state == (SpecHandshakeState::AwaitingServerFinal { hash_fn, auth_msg, salted_password }),
        spec_parse_server_final(Some(info)) == Ok::<_, AuthErrorKind>(
            (auth_token, server_signature),
        ),
        server_signature != spec_expected_server_signature(hash_fn, salted_password, auth_msg),
    ensures
        ({
            let (m2, out) = spec_handshake_next(
                m,
                SpecHandshakeEvent::Response {
                    www_authenticate: www,
                    authentication_info: Some(info),
                },
            );
            &&& out == SpecHandshakeOutcome::Failed { kind: AuthErrorKind::ServerValidation }
            &&& !(out is Token)
            &&& m2.state is Done
        }),
{
}

/// When the server's first answer carries no challenge header at all, the
/// handshake fails at once with the missing-header kind: the outcome asks
/// for no further round, and the machine is done.
pub proof fn lemma_missing_challenge_header_fails(m: SpecHandshake, info: Option<Seq<char>>)
    requires
        m.state is AwaitingHello,
    ensures
        ({
            let (m2, out) = spec_handshake_next(
                m,
                SpecHandshakeEvent::Response {
                    www_authenticate: None,
                    authentication_info: info,
                },
            );
            &&& out == SpecHandshakeOutcome::Failed { kind: AuthErrorKind::MissingHeader }
            &&& !(out is Continue)
            &&& m2.state is Done
        }),
{
}

/// Attempts that drew different nonces open with different client-first
/// messages, whatever else they share: no part of one attempt's exchange
/// is reused by the next.
pub proof fn lemma_distinct_nonces_distinct_messages(
    username: Seq<char>,
    nonce1: Seq<char>,
    nonce2: Seq<char>,
)
    requires
        nonce1 != nonce2,
    ensures
        spec_client_first(username, nonce1) != spec_client_first(username, nonce2),
{
    let prefix = "n="@ + username + ",r="@;
    if spec_client_first(username, nonce1) == spec_client_first(username, nonce2) {
        assert(spec_client_first(username, nonce1) =~= prefix + nonce1);
        assert(spec_client_first(username, nonce2) =~= prefix + nonce2);
        assert((prefix + nonce1).len() == prefix.len() + nonce1.len());
        assert((prefix + nonce2).len() == prefix.len() + nonce2.len());
        assert(nonce1.len() == nonce2.len());
        assert forall|i: int| 0 <= i < nonce1.len() implies nonce1[i] == nonce2[i] by {
            assert((prefix + nonce1)[prefix.len() + i] == nonce1[i]);
            assert((prefix + nonce2)[prefix.len() + i] == nonce2[i]);
        }
        assert(nonce1 =~= nonce2);
    }
}

/// A first Forbidden answer buys exactly one re-authentication and one
/// retry; a second consecutive Forbidden is delivered as an error, with
/// the guard complete, so no third attempt can follow.
pub proof fn lemma_forbidden_retries_once(g: SpecGuard, fresh_token: Seq<char>)
    requires
        g.state is AwaitingResponse,
        !g.refreshed,
    ensures
        ({
            let (g1, c1) = spec_guard_on_response(g, SpecResponseEvent::Forbidden);
            let (g2, c2) = spec_guard_on_auth(g1, Ok(fresh_token));
            let (g3, c3) = spec_guard_on_response(g2, SpecResponseEvent::Forbidden);
            &&& c1 is Authenticate
            &&& c2 is Retry
            &&& g2.auth_token == fresh_token
            &&& c3 == SpecGuardCommand::Deliver { outcome: SpecRequestOutcome::Forbidden }
            &&& g3.state == GuardState::Complete
        }),
{
}

} // verus!
