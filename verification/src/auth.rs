//! The pieces of the three-round challenge-response handshake: its error
//! taxonomy, the exact texts of the messages each round sends, the parsers
//! for each round's response, and the proof computations of the final round.
//!
//! Nothing here touches the network: every function maps plain values to
//! plain values, and the state machine in `handshake` strings them
//! together.

use vstd::prelude::*;

use crate::b64::{
    base64_encode_no_padding, base64_encode_padded, spec_base64_nopad,
    spec_base64_nopad_decode_text, spec_base64_pad, spec_base64_step_failed,
};
use crate::crypto::{spec_digest, spec_hmac, spec_pbkdf2, HashFunction};
use crate::kv::{parse_key_value_pairs, spec_lookup, spec_parse_kvps, KeyValuePairs};
use crate::text::{spec_hex_of_bytes, hex_string, str_eq};
use vstd::utf8::encode_utf8;

verus! {

/// The distinguishable kinds of authentication failure.
#[derive(Clone, Copy, Debug, PartialEq, Eq, Structural)]
pub enum AuthErrorKind {
    /// The underlying HTTP transport failed.
    Http,
    /// An expected response header was absent or unreadable.
    MissingHeader,
    /// A key-value list would not parse, or lacked a needed key.
    KeyValuePair,
    /// The server named a hash function this client does not know.
    UnknownHashFunction,
    /// The iteration count would not parse as a positive integer.
    ParseIterations,
    /// A base64-encoded payload would not decode.
    Base64Decode,
    /// A decoded payload was not valid UTF-8 text.
    Utf8Decode,
    /// The local random generator failed while making a nonce.
    GenerateNonce,
    /// The server's signature did not match the expected one: the server's
    /// identity could not be confirmed.
    ServerValidation,
}

/// An error which occurred during the authentication process, carrying its
/// kind and a human-readable description.
#[derive(Debug)]
pub enum AuthError {
    /// The underlying HTTP transport failed.
    Http { msg: String },
    /// An expected response header was absent or unreadable.
    MissingHeader { header: String },
    /// A key-value list would not parse, or lacked a needed key.
    KeyValuePair { msg: String },
    /// The server named a hash function this client does not know.
    UnknownHashFunction { name: String },
    /// The iteration count would not parse as a positive integer.
    ParseIterations { value: String },
    /// A base64-encoded payload would not decode.
    Base64Decode { msg: String },
    /// A decoded payload was not valid UTF-8 text.
    Utf8Decode { msg: String },
    /// The local random generator failed while making a nonce.
    GenerateNonce { msg: String },
    /// The server's signature did not match the expected one.
    ServerValidation { server_id: String },
}

impl AuthError {
    /// The kind of this error.
    pub open spec fn kind(&self) -> AuthErrorKind {
        match self {
            AuthError::Http { .. } => AuthErrorKind::Http,
            AuthError::MissingHeader { .. } => AuthErrorKind::MissingHeader,
            AuthError::KeyValuePair { .. } => AuthErrorKind::KeyValuePair,
            AuthError::UnknownHashFunction { .. } => AuthErrorKind::UnknownHashFunction,
            AuthError::ParseIterations { .. } => AuthErrorKind::ParseIterations,
            AuthError::Base64Decode { .. } => AuthErrorKind::Base64Decode,
            AuthError::Utf8Decode { .. } => AuthErrorKind::Utf8Decode,
            AuthError::GenerateNonce { .. } => AuthErrorKind::GenerateNonce,
            AuthError::ServerValidation { .. } => AuthErrorKind::ServerValidation,
        }
    }

    /// The kind of this error, as a value.
    pub fn error_kind(&self) -> (k: AuthErrorKind)
        ensures
            k == self.kind(),
    {
        match self {
            AuthError::Http { .. } => AuthErrorKind::Http,
            AuthError::MissingHeader { .. } => AuthErrorKind::MissingHeader,
            AuthError::KeyValuePair { .. } => AuthErrorKind::KeyValuePair,
            AuthError::UnknownHashFunction { .. } => AuthErrorKind::UnknownHashFunction,
            AuthError::ParseIterations { .. } => AuthErrorKind::ParseIterations,
            AuthError::Base64Decode { .. } => AuthErrorKind::Base64Decode,
            AuthError::Utf8Decode { .. } => AuthErrorKind::Utf8Decode,
            AuthError::GenerateNonce { .. } => AuthErrorKind::GenerateNonce,
            AuthError::ServerValidation { .. } => AuthErrorKind::ServerValidation,
        }
    }

    /// The text of this error's description, by kind.
    pub open spec fn spec_message(&self) -> Seq<char> {
        match self {
            AuthError::Http { msg } => "HTTP client error: "@ + msg@,
            AuthError::MissingHeader { header } => "missing HTTP header "@ + header@,
            AuthError::KeyValuePair { msg } => "could not parse key-value pair: "@ + msg@,
            AuthError::UnknownHashFunction { name } => "unsupported hash function "@ + name@,
            AuthError::ParseIterations { value } => {
                "could not parse the iteration count as a positive integer: "@ + value@
            },
            AuthError::Base64Decode { msg } => "could not decode a base64-encoded string: "@
                + msg@,
            AuthError::Utf8Decode { msg } => "could not decode a string as UTF8: "@ + msg@,
            AuthError::GenerateNonce { msg } => "could not generate a nonce: "@ + msg@,
            AuthError::ServerValidation { server_id } => {
                "could not validate the identity of the server "@ + server_id@
            },
        }
    }

    /// A human-readable description of this error.
    pub fn message(&self) -> (r: String)
        ensures
            r@ == self.spec_message(),
    {
        match self {
            AuthError::Http { msg } => {
                let mut out = String::from_str("HTTP client error: ");
                out.append(msg.as_str());
                out
            },
            AuthError::MissingHeader { header } => {
                let mut out = String::from_str("missing HTTP header ");
                out.append(header.as_str());
                out
            },
            AuthError::KeyValuePair { msg } => {
                let mut out = String::from_str("could not parse key-value pair: ");
                out.append(msg.as_str());
                out
            },
            AuthError::UnknownHashFunction { name } => {
                let mut out = String::from_str("unsupported hash function ");
                out.append(name.as_str());
                out
            },
            AuthError::ParseIterations { value } => {
                let mut out = String::from_str(
                    "could not parse the iteration count as a positive integer: ",
                );
                out.append(value.as_str());
                out
            },
            AuthError::Base64Decode { msg } => {
                let mut out = String::from_str("could not decode a base64-encoded string: ");
                out.append(msg.as_str());
                out
            },
            AuthError::Utf8Decode { msg } => {
                let mut out = String::from_str("could not decode a string as UTF8: ");
                out.append(msg.as_str());
                out
            },
            AuthError::GenerateNonce { msg } => {
                let mut out = String::from_str("could not generate a nonce: ");
                out.append(msg.as_str());
                out
            },
            AuthError::ServerValidation { server_id } => {
                let mut out = String::from_str(
                    "could not validate the identity of the server ",
                );
                out.append(server_id.as_str());
                out
            },
        }
    }
}

/// The hash function a server's round-one answer names, if this client
/// knows it.
pub open spec fn spec_parse_hash_function(s: Seq<char>) -> Option<HashFunction> {
    if s == "SHA-256"@ {
        Some(HashFunction::Sha256)
    } else if s == "SHA-512"@ {
        Some(HashFunction::Sha512)
    } else {
        None
    }
}

/// Parse the server's hash-function name.
pub fn parse_hash_function(s: &str) -> (r: Option<HashFunction>)
    ensures
        r == spec_parse_hash_function(s@),
{
    if str_eq(s, "SHA-256") {
        Some(HashFunction::Sha256)
    } else if str_eq(s, "SHA-512") {
        Some(HashFunction::Sha512)
    } else {
        None
    }
}

/// Whether `c` is a decimal digit.
pub open spec fn spec_is_digit(c: char) -> bool {
    48 <= c as int && c as int <= 57
}

/// The numeric value of a decimal digit string.
pub open spec fn spec_digits_value(s: Seq<char>) -> int
    decreases s.len(),
{
    if s.len() == 0 {
        0
    } else {
        spec_digits_value(s.drop_last()) * 10 + (s.last() as int - 48)
    }
}

/// The `u32` a digit string denotes: one or more digits, in range.
pub open spec fn spec_parse_digits(s: Seq<char>) -> Option<u32> {
    if s.len() == 0 || exists|j: int| 0 <= j < s.len() && !spec_is_digit(s[j]) {
        None
    } else if spec_digits_value(s) > u32::MAX {
        None
    } else {
        Some(spec_digits_value(s) as u32)
    }
}

/// The `u32` a decimal string denotes: an optional leading `+`, then one
/// or more digits, in range — the inputs Rust's own `u32` parsing accepts.
pub open spec fn spec_parse_u32(s: Seq<char>) -> Option<u32> {
    if s.len() > 0 && s[0] == '+' {
        spec_parse_digits(s.drop_first())
    } else {
        spec_parse_digits(s)
    }
}

proof fn lemma_digits_value_bounds(s: Seq<char>, i: int)
    requires
        forall|j: int| 0 <= j < s.len() ==> spec_is_digit(s[j]),
        0 <= i <= s.len(),
    ensures
        0 <= spec_digits_value(s.take(i)) <= spec_digits_value(s),
    decreases s.len() - i,
{
    if i == s.len() {
        assert(s.take(i) =~= s);
        lemma_digits_value_nonneg(s);
    } else {
        lemma_digits_value_bounds(s, i + 1);
        assert(s.take(i + 1).drop_last() =~= s.take(i));
        assert(s.take(i + 1).last() == s[i]);
        lemma_digits_value_nonneg(s.take(i));
    }
}

proof fn lemma_digits_value_nonneg(s: Seq<char>)
    requires
        forall|j: int| 0 <= j < s.len() ==> spec_is_digit(s[j]),
    ensures
        spec_digits_value(s) >= 0,
    decreases s.len(),
{
    if s.len() > 0 {
        assert(forall|j: int|
            0 <= j < s.drop_last().len() ==> spec_is_digit(#[trigger] s.drop_last()[j]));
        lemma_digits_value_nonneg(s.drop_last());
    }
}

/// Parse a decimal string as a `u32`.
pub fn parse_u32(s: &str) -> (r: Option<u32>)
    ensures
        r == spec_parse_u32(s@),
{
    let len = s.unicode_len();
    if len > 0 && s.get_char(0) == '+' {
        let rest = s.substring_char(1, len);
        proof {
            assert(rest@ =~= s@.drop_first());
        }
        parse_digits(rest)
    } else {
        parse_digits(s)
    }
}

fn parse_digits(s: &str) -> (r: Option<u32>)
    ensures
        r == spec_parse_digits(s@),
{
    let len = s.unicode_len();
    if len == 0 {
        return None;
    }
    let mut acc: u64 = 0;
    let mut i: usize = 0;
    while i < len
        invariant
            0 <= i <= len,
            len == s@.len(),
            forall|j: int| 0 <= j < i ==> spec_is_digit(s@[j]),
            acc == spec_digits_value(s@.take(i as int)),
            acc <= u32::MAX,
        decreases len - i,
    {
        let c = s.get_char(i) as u32;
        if c < 48 || c > 57 {
            proof {
                assert(!spec_is_digit(s@[i as int]));
            }
            return None;
        }
        let d: u64 = (c - 48) as u64;
        acc = acc * 10 + d;
        proof {
            assert(s@.take(i + 1 as int).drop_last() =~= s@.take(i as int));
            assert(s@.take(i + 1 as int).last() == s@[i as int]);
        }
        if acc > 0xffff_ffff {
            proof {
                if forall|j: int| 0 <= j < s@.len() ==> spec_is_digit(s@[j]) {
                    lemma_digits_value_bounds(s@, i + 1);
                }
            }
            return None;
        }
        i = i + 1;
    }
    proof {
        assert(s@.take(len as int) =~= s@);
    }
    Some(acc as u32)
}

/// The first message the client sends: its username and fresh nonce.
pub open spec fn spec_client_first(username: Seq<char>, nonce: Seq<char>) -> Seq<char> {
    "n="@ + username + ",r="@ + nonce
}

/// The closing message fragment, before the proof is attached: the fixed
/// no-channel-binding marker and the server's nonce.
pub open spec fn spec_client_final_no_proof(server_nonce: Seq<char>) -> Seq<char> {
    "c=biws,r="@ + server_nonce
}

/// The text both sides sign: the three message fragments joined by commas.
pub open spec fn spec_auth_message(
    client_first: Seq<char>,
    server_first: Seq<char>,
    client_final_no_proof: Seq<char>,
) -> Seq<char> {
    client_first + ","@ + server_first + ","@ + client_final_no_proof
}

/// The round-one Authorization header: the HELLO scheme with the
/// base64-encoded username.
pub open spec fn spec_hello_header(username: Seq<char>) -> Seq<char> {
    "HELLO username="@ + spec_base64_nopad(encode_utf8(username))
}

/// A SCRAM Authorization header: the echoed handshake token and the
/// base64-encoded payload.
pub open spec fn spec_scram_header(token: Seq<char>, data: Seq<char>) -> Seq<char> {
    "SCRAM handshakeToken="@ + token + ", data="@ + spec_base64_nopad(encode_utf8(data))
}

/// The salted password: PBKDF2 of the password's UTF-8 bytes.
pub open spec fn spec_salted_password(
    h: HashFunction,
    password: Seq<char>,
    salt: Seq<u8>,
    iterations: nat,
) -> Seq<u8> {
    spec_pbkdf2(h, encode_utf8(password), salt, iterations)
}

/// The client key: an HMAC of the fixed text `Client Key` under the
/// salted password.
pub open spec fn spec_client_key(h: HashFunction, salted_password: Seq<u8>) -> Seq<u8> {
    spec_hmac(h, salted_password, encode_utf8("Client Key"@))
}

/// The stored key: the digest of the client key.
pub open spec fn spec_stored_key(h: HashFunction, salted_password: Seq<u8>) -> Seq<u8> {
    spec_digest(h, spec_client_key(h, salted_password))
}

/// The client signature: an HMAC of the signed text under the stored key.
pub open spec fn spec_client_signature(
    h: HashFunction,
    salted_password: Seq<u8>,
    auth_message: Seq<char>,
) -> Seq<u8> {
    spec_hmac(h, spec_stored_key(h, salted_password), encode_utf8(auth_message))
}

/// Byte-wise exclusive or of two equal-length byte strings.
pub open spec fn spec_xor(a: Seq<u8>, b: Seq<u8>) -> Seq<u8>
    recommends
        a.len() == b.len(),
{
    Seq::new(a.len(), |i: int| a[i] ^ b[i])
}

/// The client proof: the client key masked with the client signature.
pub open spec fn spec_client_proof(
    h: HashFunction,
    salted_password: Seq<u8>,
    auth_message: Seq<char>,
) -> Seq<u8> {
    spec_xor(spec_client_key(h, salted_password), spec_client_signature(h, salted_password, auth_message))
}

/// The server key: an HMAC of the fixed text `Server Key` under the
/// salted password.
pub open spec fn spec_server_key(h: HashFunction, salted_password: Seq<u8>) -> Seq<u8> {
    spec_hmac(h, salted_password, encode_utf8("Server Key"@))
}

/// The server signature this client expects, base64-rendered with padding.
pub open spec fn spec_expected_server_signature(
    h: HashFunction,
    salted_password: Seq<u8>,
    auth_message: Seq<char>,
) -> Seq<char> {
    spec_base64_pad(
        spec_hmac(h, spec_server_key(h, salted_password), encode_utf8(auth_message)),
    )
}

/// Build the client-first message from the username and nonce.
pub fn client_first_message(username: &str, nonce: &str) -> (r: String)
    ensures
        r@ == spec_client_first(username@, nonce@),
{
    let mut out = String::from_str("n=");
    out.append(username);
    out.append(",r=");
    out.append(nonce);
    proof {
        assert(out@ =~= spec_client_first(username@, nonce@));
    }
    out
}

/// Build the closing message fragment around the server's nonce.
pub fn client_final_no_proof_message(server_nonce: &str) -> (r: String)
    ensures
        r@ == spec_client_final_no_proof(server_nonce@),
{
    let mut out = String::from_str("c=biws,r=");
    out.append(server_nonce);
    proof {
        assert(out@ =~= spec_client_final_no_proof(server_nonce@));
    }
    out
}

/// Join the three message fragments into the text both sides sign.
pub fn auth_message(
    client_first: &str,
    server_first: &str,
    client_final_no_proof: &str,
) -> (r: String)
    ensures
        r@ == spec_auth_message(client_first@, server_first@, client_final_no_proof@),
{
    let mut out = String::from_str("");
    out.append(client_first);
    out.append(",");
    out.append(server_first);
    out.append(",");
    out.append(client_final_no_proof);
    proof {
        reveal_strlit("");
        assert(out@ =~= spec_auth_message(client_first@, server_first@, client_final_no_proof@));
    }
    out
}

/// Build the round-one Authorization header for a username.
pub fn hello_header_value(username: &str) -> (r: String)
    ensures
        r@ == spec_hello_header(username@),
{
    let encoded = base64_encode_no_padding(username.as_bytes());
    let mut out = String::from_str("HELLO username=");
    out.append(encoded.as_str());
    proof {
        assert(out@ =~= spec_hello_header(username@));
    }
    out
}

/// Build a SCRAM Authorization header from the handshake token and a
/// payload.
pub fn scram_header_value(token: &str, data: &str) -> (r: String)
    ensures
        r@ == spec_scram_header(token@, data@),
{
    let encoded = base64_encode_no_padding(data.as_bytes());
    let mut out = String::from_str("SCRAM handshakeToken=");
    out.append(token);
    out.append(", data=");
    out.append(encoded.as_str());
    proof {
        assert(out@ =~= spec_scram_header(token@, data@));
    }
    out
}

/// Byte-wise exclusive or of two equal-length byte strings.
pub fn xor_bytes(a: &Vec<u8>, b: &Vec<u8>) -> (r: Vec<u8>)
    requires
        a@.len() == b@.len(),
    ensures
        r@ == spec_xor(a@, b@),
{
    let mut out: Vec<u8> = Vec::new();
    let mut i: usize = 0;
    while i < a.len()
        invariant
            i <= a@.len(),
            a@.len() == b@.len(),
            out@ == spec_xor(a@, b@).take(i as int),
        decreases a@.len() - i,
    {
        out.push(a[i] ^ b[i]);
        proof {
            assert(out@ =~= spec_xor(a@, b@).take(i + 1 as int));
        }
        i = i + 1;
    }
    proof {
        assert(spec_xor(a@, b@).take(a@.len() as int) =~= spec_xor(a@, b@));
    }
    out
}

/// Derive the salted password from the password text, salt bytes and
/// iteration count.
pub fn derive_salted_password(
    hash_fn: &HashFunction,
    password: &str,
    salt: &[u8],
    iterations: u32,
) -> (r: Vec<u8>)
    requires
        iterations >= 1,
    ensures
        r@ == spec_salted_password(*hash_fn, password@, salt@, iterations as nat),
        r@.len() == hash_fn.spec_dk_len(),
{
    hash_fn.pbkdf2(password.as_bytes(), salt, iterations)
}

/// Compute the client proof for the signed text.
pub fn client_proof(
    hash_fn: &HashFunction,
    salted_password: &Vec<u8>,
    auth_message: &str,
) -> (r: Vec<u8>)
    ensures
        r@ == spec_client_proof(*hash_fn, salted_password@, auth_message@),
        r@.len() == hash_fn.spec_dk_len(),
{
    let client_key = hash_fn.hmac_sign(salted_password.as_slice(), "Client Key".as_bytes());
    let stored_key = hash_fn.digest(client_key.as_slice());
    let client_signature = hash_fn.hmac_sign(stored_key.as_slice(), auth_message.as_bytes());
    let r = xor_bytes(&client_key, &client_signature);
    proof {
        assert(r@.len() == hash_fn.spec_dk_len());
    }
    r
}

/// Attach the base64-encoded proof to the closing message fragment.
pub fn client_final_message(client_final_no_proof: &str, proof_bytes: &Vec<u8>) -> (r: String)
    ensures
        r@ == client_final_no_proof@ + ",p="@ + spec_base64_nopad(proof_bytes@),
{
    let encoded = base64_encode_no_padding(proof_bytes.as_slice());
    let mut out = String::from_str("");
    out.append(client_final_no_proof);
    out.append(",p=");
    out.append(encoded.as_str());
    proof {
        reveal_strlit("");
        assert(out@ =~= client_final_no_proof@ + ",p="@ + spec_base64_nopad(proof_bytes@));
    }
    out
}

/// Compute the server signature this client expects, base64-rendered.
pub fn expected_server_signature(
    hash_fn: &HashFunction,
    salted_password: &Vec<u8>,
    auth_message: &str,
) -> (r: String)
    ensures
        r@ == spec_expected_server_signature(*hash_fn, salted_password@, auth_message@),
{
    let server_key = hash_fn.hmac_sign(salted_password.as_slice(), "Server Key".as_bytes());
    let signature = hash_fn.hmac_sign(server_key.as_slice(), auth_message.as_bytes());
    base64_encode_padded(signature.as_slice())
}

/// Whether the signature the server sent matches the one this client
/// expects; only a match confirms the server's identity.
pub fn is_server_valid(
    auth_message: &str,
    salted_password: &Vec<u8>,
    server_signature: &str,
    hash_fn: &HashFunction,
) -> (r: bool)
    ensures
        r == (spec_expected_server_signature(*hash_fn, salted_password@, auth_message@)
            == server_signature@),
{
    let expected = expected_server_signature(hash_fn, salted_password, auth_message);
    str_eq(expected.as_str(), server_signature)
}

/// Relies on `ring::rand::SecureRandom::fill` on a `SystemRandom`: on
/// success the buffer holds `n` freshly drawn random bytes; nothing is
/// assumed about their values.
#[verifier::external_body]
fn fill_random_bytes(n: usize) -> (r: Result<Vec<u8>, String>)
    ensures
        r matches Ok(v) ==> v@.len() == n,
{
    let mut out = vec![0u8; n];
    ring::rand::SecureRandom::fill(&ring::rand::SystemRandom::new(), &mut out)
        .map_err(|err| format!("{}", err))?;
    Ok(out)
}

/// How many random bytes a nonce draws on: 256 bits.
pub open spec fn spec_nonce_bytes() -> usize {
    32
}

/// Generate a fresh client nonce: 32 random bytes, rendered as lowercase
/// hex.
pub fn generate_nonce() -> (r: Result<String, AuthError>)
    ensures
        r matches Ok(s) ==> exists|bs: Seq<u8>|
            bs.len() == spec_nonce_bytes() && s@ == spec_hex_of_bytes(bs),
        r matches Err(e) ==> e.kind() == AuthErrorKind::GenerateNonce,
{
    match fill_random_bytes(32) {
        Ok(bytes) => {
            let s = hex_string(bytes.as_slice());
            proof {
                assert(bytes@.len() == spec_nonce_bytes() && s@ == spec_hex_of_bytes(bytes@));
            }
            Ok(s)
        },
        Err(msg) => Err(AuthError::GenerateNonce { msg }),
    }
}

/// What the server fixed in its round-one answer: the handshake token to
/// echo and the hash function for the rest of the session.
pub struct AuthSessionConfig {
    pub handshake_token: String,
    pub hash_fn: HashFunction,
}

/// The round-one parse: the `handshakeToken` and `hash` entries of the
/// challenge header, or the first failure.
pub open spec fn spec_parse_hello(header: Option<Seq<char>>) -> Result<
    (Seq<char>, HashFunction),
    AuthErrorKind,
> {
    match header {
        None => Err(AuthErrorKind::MissingHeader),
        Some(h) => match spec_parse_kvps(h) {
            None => Err(AuthErrorKind::KeyValuePair),
            Some(pairs) => match spec_lookup(pairs, "handshakeToken"@) {
                None => Err(AuthErrorKind::KeyValuePair),
                Some(token) => match spec_lookup(pairs, "hash"@) {
                    None => Err(AuthErrorKind::KeyValuePair),
                    Some(hash_name) => match spec_parse_hash_function(hash_name) {
                        None => Err(AuthErrorKind::UnknownHashFunction),
                        Some(hash_fn) => Ok((token, hash_fn)),
                    },
                },
            },
        },
    }
}

/// Parse the server's round-one challenge header.
pub fn parse_hello_response(header: Option<&str>) -> (r: Result<AuthSessionConfig, AuthError>)
    ensures
        r matches Ok(c) ==> spec_parse_hello(header.deep_view()) == Ok::<_, AuthErrorKind>(
            (c.handshake_token@, c.hash_fn),
        ),
        r matches Err(e) ==> spec_parse_hello(header.deep_view()) matches Err(k) && e.kind() == k,
{
    let header = match header {
        None => {
            return Err(AuthError::MissingHeader { header: String::from_str("www-authenticate") });
        },
        Some(h) => h,
    };
    let kvps = match parse_key_value_pairs(header) {
        Ok(kvps) => kvps,
        Err(e) => {
            return Err(AuthError::KeyValuePair { msg: e.msg });
        },
    };
    let handshake_token = match kvps.get("handshakeToken") {
        Ok(v) => v,
        Err(e) => {
            return Err(AuthError::KeyValuePair { msg: e.msg });
        },
    };
    let hash_name = match kvps.get("hash") {
        Ok(v) => v,
        Err(e) => {
            return Err(AuthError::KeyValuePair { msg: e.msg });
        },
    };
    let hash_fn = match parse_hash_function(hash_name.as_str()) {
        Some(h) => h,
        None => {
            return Err(AuthError::UnknownHashFunction { name: hash_name });
        },
    };
    Ok(AuthSessionConfig { handshake_token, hash_fn })
}

/// What the server's round-two answer carries: the decoded server-first
/// message and the nonce, salt and iteration count inside it.
pub struct ServerFirstResponse {
    pub server_first_msg: String,
    pub server_iterations: u32,
    pub server_nonce: String,
    pub server_salt: String,
}

/// The round-two parse: the base64 `data` payload of the challenge header,
/// decoded and read as a key-value list with entries `r`, `s` and `i`;
/// an iteration count of zero is a protocol violation and fails.
pub open spec fn spec_parse_server_first(header: Option<Seq<char>>) -> Result<
    (Seq<char>, Seq<char>, Seq<char>, u32),
    AuthErrorKind,
> {
    match header {
        None => Err(AuthErrorKind::MissingHeader),
        Some(h) => match spec_parse_kvps(h) {
            None => Err(AuthErrorKind::KeyValuePair),
            Some(pairs) => match spec_lookup(pairs, "data"@) {
                None => Err(AuthErrorKind::KeyValuePair),
                Some(data_b64) => match spec_base64_nopad_decode_text(data_b64) {
                    None => if spec_base64_step_failed(data_b64) {
                        Err(AuthErrorKind::Base64Decode)
                    } else {
                        Err(AuthErrorKind::Utf8Decode)
                    },
                    Some(data) => match spec_parse_kvps(data) {
                        None => Err(AuthErrorKind::KeyValuePair),
                        Some(inner) => match spec_lookup(inner, "r"@) {
                            None => Err(AuthErrorKind::KeyValuePair),
                            Some(server_nonce) => match spec_lookup(inner, "s"@) {
                                None => Err(AuthErrorKind::KeyValuePair),
                                Some(server_salt) => match spec_lookup(inner, "i"@) {
                                    None => Err(AuthErrorKind::KeyValuePair),
                                    Some(iter_text) => match spec_parse_u32(iter_text) {
                                        None => Err(AuthErrorKind::ParseIterations),
                                        Some(n) => if n == 0 {
                                            Err(AuthErrorKind::ParseIterations)
                                        } else {
                                            Ok((data, server_nonce, server_salt, n))
                                        },
                                    },
                                },
                            },
                        },
                    },
                },
            },
        },
    }
}

/// Parse the server's round-two challenge header.
pub fn parse_server_first_response(header: Option<&str>) -> (r: Result<
    ServerFirstResponse,
    AuthError,
>)
    ensures
        r matches Ok(s) ==> spec_parse_server_first(header.deep_view()) == Ok::<_, AuthErrorKind>(
            (s.server_first_msg@, s.server_nonce@, s.server_salt@, s.server_iterations),
        ),
        r matches Ok(s) ==> s.server_iterations >= 1,
        r matches Err(e) ==> spec_parse_server_first(header.deep_view()) matches Err(k)
            && e.kind() == k,
{
    let header = match header {
        None => {
            return Err(AuthError::MissingHeader { header: String::from_str("www-authenticate") });
        },
        Some(h) => h,
    };
    let kvps = match parse_key_value_pairs(header) {
        Ok(kvps) => kvps,
        Err(e) => {
            return Err(AuthError::KeyValuePair { msg: e.msg });
        },
    };
    let data_b64 = match kvps.get("data") {
        Ok(v) => v,
        Err(e) => {
            return Err(AuthError::KeyValuePair { msg: e.msg });
        },
    };
    let data = match crate::b64::base64_decode_no_padding_bytes(data_b64.as_str()) {
        Ok(bytes) => match crate::b64::string_from_utf8(bytes) {
            Ok(text) => text,
            Err(msg) => {
                return Err(AuthError::Utf8Decode { msg });
            },
        },
        Err(msg) => {
            return Err(AuthError::Base64Decode { msg });
        },
    };
    let inner = match parse_key_value_pairs(data.as_str()) {
        Ok(kvps) => kvps,
        Err(e) => {
            return Err(AuthError::KeyValuePair { msg: e.msg });
        },
    };
    let server_nonce = match inner.get("r") {
        Ok(v) => v,
        Err(e) => {
            return Err(AuthError::KeyValuePair { msg: e.msg });
        },
    };
    let server_salt = match inner.get("s") {
        Ok(v) => v,
        Err(e) => {
            return Err(AuthError::KeyValuePair { msg: e.msg });
        },
    };
    let iter_text = match inner.get("i") {
        Ok(v) => v,
        Err(e) => {
            return Err(AuthError::KeyValuePair { msg: e.msg });
        },
    };
    let server_iterations = match parse_u32(iter_text.as_str()) {
        Some(n) => n,
        None => {
            return Err(AuthError::ParseIterations { value: iter_text });
        },
    };
    if server_iterations == 0 {
        return Err(AuthError::ParseIterations { value: iter_text });
    }
    Ok(ServerFirstResponse {
        server_first_msg: data,
        server_iterations,
        server_nonce,
        server_salt,
    })
}

/// What the server's final answer carries: the bearer token and the
/// server's signature over the handshake.
pub struct ServerSecondResponse {
    pub auth_token: String,
    pub server_signature: String,
}

/// The final-round parse: the `authToken` entry and, inside the decoded
/// base64 `data` payload, the server signature `v`.
pub open spec fn spec_parse_server_final(header: Option<Seq<char>>) -> Result<
    (Seq<char>, Seq<char>),
    AuthErrorKind,
> {
    match header {
        None => Err(AuthErrorKind::MissingHeader),
        Some(h) => match spec_parse_kvps(h) {
            None => Err(AuthErrorKind::KeyValuePair),
            Some(pairs) => match spec_lookup(pairs, "authToken"@) {
                None => Err(AuthErrorKind::KeyValuePair),
                Some(auth_token) => match spec_lookup(pairs, "data"@) {
                    None => Err(AuthErrorKind::KeyValuePair),
                    Some(data_b64) => match spec_base64_nopad_decode_text(data_b64) {
                        None => if spec_base64_step_failed(data_b64) {
                            Err(AuthErrorKind::Base64Decode)
                        } else {
                            Err(AuthErrorKind::Utf8Decode)
                        },
                        Some(data) => match spec_parse_kvps(data) {
                            None => Err(AuthErrorKind::KeyValuePair),
                            Some(inner) => match spec_lookup(inner, "v"@) {
                                None => Err(AuthErrorKind::KeyValuePair),
                                Some(v) => Ok((auth_token, v)),
                            },
                        },
                    },
                },
            },
        },
    }
}

/// Parse the server's final answer header.
pub fn parse_server_final_response(header: Option<&str>) -> (r: Result<
    ServerSecondResponse,
    AuthError,
>)
    ensures
        r matches Ok(s) ==> spec_parse_server_final(header.deep_view()) == Ok::<_, AuthErrorKind>(
            (s.auth_token@, s.server_signature@),
        ),
        r matches Err(e) ==> spec_parse_server_final(header.deep_view()) matches Err(k)
            && e.kind() == k,
{
    let header = match header {
        None => {
            return Err(
                AuthError::MissingHeader { header: String::from_str("authentication-info") },
            );
        },
        Some(h) => h,
    };
    let kvps = match parse_key_value_pairs(header) {
        Ok(kvps) => kvps,
        Err(e) => {
            return Err(AuthError::KeyValuePair { msg: e.msg });
        },
    };
    let auth_token = match kvps.get("authToken") {
        Ok(v) => v,
        Err(e) => {
            return Err(AuthError::KeyValuePair { msg: e.msg });
        },
    };
    let data_b64 = match kvps.get("data") {
        Ok(v) => v,
        Err(e) => {
            return Err(AuthError::KeyValuePair { msg: e.msg });
        },
    };
    let data = match crate::b64::base64_decode_no_padding_bytes(data_b64.as_str()) {
        Ok(bytes) => match crate::b64::string_from_utf8(bytes) {
            Ok(text) => text,
            Err(msg) => {
                return Err(AuthError::Utf8Decode { msg });
            },
        },
        Err(msg) => {
            return Err(AuthError::Base64Decode { msg });
        },
    };
    let inner = match parse_key_value_pairs(data.as_str()) {
        Ok(kvps) => kvps,
        Err(e) => {
            return Err(AuthError::KeyValuePair { msg: e.msg });
        },
    };
    let server_signature = match inner.get("v") {
        Ok(v) => v,
        Err(e) => {
            return Err(AuthError::KeyValuePair { msg: e.msg });
        },
    };
    Ok(ServerSecondResponse { auth_token, server_signature })
}

} // verus!
