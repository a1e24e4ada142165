//! The digest, HMAC and key-derivation primitives used by the handshake.
//!
//! The server selects one of two hash algorithms in the first round of the
//! handshake; that choice fixes the digest, HMAC and PBKDF2 variants for the
//! rest of the session.  The primitives themselves are supplied by `ring`;
//! their outputs are modelled as uninterpreted functions of the inputs.

use vstd::prelude::*;

verus! {

/// The two digest algorithms a server may select for the handshake.
#[derive(Clone, Copy, Debug, PartialEq, Eq, Structural)]
pub enum HashFunction {
    Sha256,
    Sha512,
}

/// The derived key that PBKDF2 under the given algorithm produces from a
/// password, salt and iteration count.
pub uninterp spec fn spec_pbkdf2(
    h: HashFunction,
    password: Seq<u8>,
    salt: Seq<u8>,
    iterations: nat,
) -> Seq<u8>;

/// The HMAC tag over `data` under `key`, under the given algorithm.
pub uninterp spec fn spec_hmac(h: HashFunction, key: Seq<u8>, data: Seq<u8>) -> Seq<u8>;

/// The digest of `data` under the given algorithm.
pub uninterp spec fn spec_digest(h: HashFunction, data: Seq<u8>) -> Seq<u8>;

impl HashFunction {
    /// Length in bytes of this algorithm's digest, HMAC and derived-key
    /// outputs.
    pub open spec fn spec_dk_len(&self) -> usize {
        match self {
            HashFunction::Sha256 => 32,
            HashFunction::Sha512 => 64,
        }
    }

    /// Return the derived-key length, in bytes.
    pub fn dk_len(&self) -> (n: usize)
        ensures
            n == self.spec_dk_len(),
    {
        match self {
            HashFunction::Sha256 => 32,
            HashFunction::Sha512 => 64,
        }
    }

    /// Relies on `ring::pbkdf2::derive`: fills a buffer of the digest length
    /// with the PBKDF2 derived key for the password, salt and iteration
    /// count; the output is a function of those inputs alone.
    #[verifier::external_body]
    pub(crate) fn pbkdf2(&self, password: &[u8], salt: &[u8], iterations: u32) -> (r: Vec<u8>)
        requires
            iterations >= 1,
        ensures
            r@ == spec_pbkdf2(*self, password@, salt@, iterations as nat),
            r@.len() == self.spec_dk_len(),
    {
        let algorithm = match self {
            HashFunction::Sha256 => ring::pbkdf2::PBKDF2_HMAC_SHA256,
            HashFunction::Sha512 => ring::pbkdf2::PBKDF2_HMAC_SHA512,
        };
        let len: usize = match self {
            HashFunction::Sha256 => 32,
            HashFunction::Sha512 => 64,
        };
        let mut dk = vec![0u8; len];
        let iterations = core::num::NonZeroU32::new(iterations).unwrap();
        ring::pbkdf2::derive(algorithm, iterations, salt, password, &mut dk);
        dk
    }

    /// Relies on `ring::hmac::Key::new` and `ring::hmac::sign`: the tag is
    /// the HMAC of `data` under `key_value` and is one digest long.
    #[verifier::external_body]
    pub(crate) fn hmac_sign(&self, key_value: &[u8], data: &[u8]) -> (r: Vec<u8>)
        ensures
            r@ == spec_hmac(*self, key_value@, data@),
            r@.len() == self.spec_dk_len(),
    {
        let algorithm = match self {
            HashFunction::Sha256 => ring::hmac::HMAC_SHA256,
            HashFunction::Sha512 => ring::hmac::HMAC_SHA512,
        };
        let key = ring::hmac::Key::new(algorithm, key_value);
        ring::hmac::sign(&key, data).as_ref().to_vec()
    }

    /// Relies on `ring::digest::digest`: the SHA-256 or SHA-512 digest of
    /// the input, 32 or 64 bytes long.
    #[verifier::external_body]
    pub(crate) fn digest(&self, input: &[u8]) -> (r: Vec<u8>)
        ensures
            r@ == spec_digest(*self, input@),
            r@.len() == self.spec_dk_len(),
    {
        let algorithm = match self {
            HashFunction::Sha256 => &ring::digest::SHA256,
            HashFunction::Sha512 => &ring::digest::SHA512,
        };
        ring::digest::digest(algorithm, input).as_ref().to_vec()
    }
}

} // verus!
