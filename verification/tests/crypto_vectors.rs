//! Fixed test vectors for the key-derivation, HMAC and digest pipeline:
//! output lengths for both hash functions, and exact values checked
//! against independent reference computations.

use raystack::auth::{
    client_proof, derive_salted_password, expected_server_signature, is_server_valid,
};
use raystack::HashFunction;

fn to_hex(bytes: &[u8]) -> String {
    let mut out = String::new();
    for b in bytes {
        out.push_str(&format!("{:02x}", b));
    }
    out
}

#[test]
fn pbkdf2_sha256_reference_vector() {
    let dk = derive_salted_password(&HashFunction::Sha256, "p4ssw0rd", b"salt", 4096);
    assert_eq!(dk.len(), 32);
    assert_eq!(
        to_hex(&dk),
        "57f0c0210256c2f8313cc82874c2cffb7b397ac91555a380954d08e59aee2368"
    );
}

#[test]
fn pbkdf2_sha512_reference_vector() {
    let dk = derive_salted_password(&HashFunction::Sha512, "p4ssw0rd", b"salt", 4096);
    assert_eq!(dk.len(), 64);
    assert_eq!(
        to_hex(&dk),
        "db04664e52e930d39926ee0f04a7bfa1ee3e59582934c542289b9bfebe45c806\
         b6f3fd4eb3993415b161ffefcb09292aeb04fe67395973610216fb7dd7091979"
    );
}

#[test]
fn dk_len_matches_digest_sizes() {
    assert_eq!(HashFunction::Sha256.dk_len(), 32);
    assert_eq!(HashFunction::Sha512.dk_len(), 64);
}

#[test]
fn client_proof_has_digest_length() {
    let salted = derive_salted_password(&HashFunction::Sha256, "pw", b"s", 1);
    let proof = client_proof(&HashFunction::Sha256, &salted, "n=a,r=b,r=c,s=d,i=1,c=biws,r=c");
    assert_eq!(proof.len(), 32);
    let salted = derive_salted_password(&HashFunction::Sha512, "pw", b"s", 1);
    let proof = client_proof(&HashFunction::Sha512, &salted, "n=a,r=b,r=c,s=d,i=1,c=biws,r=c");
    assert_eq!(proof.len(), 64);
}

#[test]
fn server_signature_reference_vector() {
    let salted: Vec<u8> = (0u8..32).collect();
    let auth_msg = "n=name,r=abc,r=def,s=c2FsdA,i=1,c=biws,r=def";
    let signature = expected_server_signature(&HashFunction::Sha256, &salted, auth_msg);
    assert_eq!(signature, "9txbaji61kRE6IGn0r/tPMeIvO8hrcfIFPiJnHZbSwc=");
    assert!(is_server_valid(
        auth_msg,
        &salted,
        "9txbaji61kRE6IGn0r/tPMeIvO8hrcfIFPiJnHZbSwc=",
        &HashFunction::Sha256
    ));
    assert!(!is_server_valid(auth_msg, &salted, "AAAA", &HashFunction::Sha256));
}
