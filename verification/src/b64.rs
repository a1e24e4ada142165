//! Base64 and UTF-8 conversions used on the wire.
//!
//! The handshake sends every payload base64-encoded with the standard
//! alphabet and no padding, and compares the server's signature against a
//! padded rendering.  The encodings themselves come from the `base64`
//! crate and `std`; their outputs are modelled as uninterpreted functions
//! of the input bytes.

use vstd::prelude::*;

use vstd::utf8::{decode_utf8, valid_utf8};

verus! {

/// The standard-alphabet, unpadded base64 rendering of `bytes`.
pub uninterp spec fn spec_base64_nopad(bytes: Seq<u8>) -> Seq<char>;

/// The standard-alphabet, padded base64 rendering of `bytes`.
pub uninterp spec fn spec_base64_pad(bytes: Seq<u8>) -> Seq<char>;

/// The bytes that the unpadded base64 string `s` denotes, or `None` if it
/// is not valid unpadded base64.
pub uninterp spec fn spec_base64_nopad_decode(s: Seq<char>) -> Option<Seq<u8>>;

/// Relies on `base64::encode_config` with the standard character set and
/// padding switched off: the rendering is a function of the input bytes
/// alone, and empty input gives an empty string.
#[verifier::external_body]
pub(crate) fn base64_encode_no_padding(bytes: &[u8]) -> (r: String)
    ensures
        r@ == spec_base64_nopad(bytes@),
        bytes@.len() == 0 ==> r@.len() == 0,
{
    let config = base64::Config::new(base64::CharacterSet::Standard, false);
    base64::encode_config(bytes, config)
}

/// Relies on `base64::encode`: the standard-alphabet, padded rendering,
/// a function of the input bytes alone.
#[verifier::external_body]
pub(crate) fn base64_encode_padded(bytes: &[u8]) -> (r: String)
    ensures
        r@ == spec_base64_pad(bytes@),
{
    base64::encode(bytes)
}

/// Relies on `base64::decode_config` with the standard character set and
/// padding switched off: it returns the denoted bytes, and fails exactly
/// on input that is not valid unpadded base64.
#[verifier::external_body]
pub(crate) fn base64_decode_no_padding_bytes(s: &str) -> (r: Result<Vec<u8>, String>)
    ensures
        r matches Ok(v) ==> spec_base64_nopad_decode(s@) == Some(v@),
        r is Err <==> spec_base64_nopad_decode(s@) is None,
{
    let config = base64::Config::new(base64::CharacterSet::Standard, false);
    base64::decode_config(s, config).map_err(|err| format!("{}", err))
}

/// The bytes that `s` denotes under the standard base64 alphabet, with
/// the decoder accepting padded input; `None` if it will not decode.
pub uninterp spec fn spec_base64_std_decode(s: Seq<char>) -> Option<Seq<u8>>;

/// Relies on `base64::decode`: the standard character set, used for
/// payloads that may arrive padded; it returns the denoted bytes and
/// fails exactly on input it cannot read.
#[verifier::external_body]
pub(crate) fn base64_decode_standard(s: &str) -> (r: Result<Vec<u8>, String>)
    ensures
        r matches Ok(v) ==> spec_base64_std_decode(s@) == Some(v@),
        r is Err <==> spec_base64_std_decode(s@) is None,
{
    base64::decode(s).map_err(|err| format!("{}", err))
}

/// Relies on `String::from_utf8`: it succeeds exactly on valid UTF-8 and
/// then decodes it.
#[verifier::external_body]
pub(crate) fn string_from_utf8(bytes: Vec<u8>) -> (r: Result<String, String>)
    ensures
        r matches Ok(v) ==> valid_utf8(bytes@) && v@ == decode_utf8(bytes@),
        r is Err <==> !valid_utf8(bytes@),
{
    String::from_utf8(bytes).map_err(|err| format!("{}", err))
}

/// The text that the unpadded base64 string `s` denotes: its decoded bytes
/// read as UTF-8, or `None` if either step fails.
pub open spec fn spec_base64_nopad_decode_text(s: Seq<char>) -> Option<Seq<char>> {
    match spec_base64_nopad_decode(s) {
        None => None,
        Some(bytes) => if valid_utf8(bytes) {
            Some(decode_utf8(bytes))
        } else {
            None
        },
    }
}

/// Whether decoding failed on the base64 step (as opposed to the UTF-8
/// step); meaningful when the decode is `None`.
pub open spec fn spec_base64_step_failed(s: Seq<char>) -> bool {
    spec_base64_nopad_decode(s) is None
}

} // verus!
