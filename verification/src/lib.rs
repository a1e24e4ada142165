//! Client-side core of a SkySpark / Project Haystack HTTP client:
//! the SCRAM-style authentication handshake and the token-refresh retry
//! policy that wraps every authenticated request.
//!
//! The handshake and the retry policy are written as state machines over
//! plain values: an unverified shell performs the HTTP round trips and
//! hands the interesting parts of each response (header values, status
//! class, grid metadata) back to the machines, which decide every next
//! step here.  The cryptographic primitives come from `ring` and the
//! base64 renderings from `base64`, each behind a stated contract; all
//! parsing, message building and protocol decisions are verified.

pub mod auth;
pub mod b64;
pub mod crypto;
pub mod grid;
pub mod handshake;
pub mod kv;
pub mod laws;
pub mod number;
pub mod session;
pub mod text;
pub mod tz;
pub mod uri;

pub use auth::{
    AuthError, AuthErrorKind, AuthSessionConfig, ServerFirstResponse, ServerSecondResponse,
};
pub use crypto::HashFunction;
pub use grid::ParseJsonGridError;
pub use handshake::{Handshake, HandshakeEvent, HandshakeOutcome};
pub use kv::{parse_key_value_pairs, KeyValuePairParseError, KeyValuePairs};
pub use number::ParseNumberError;
pub use session::{BodySummary, GuardCommand, RequestGuard, RequestOutcome, ResponseEvent};
pub use tz::{skyspark_tz_string_to_tz, time_zone_name_to_short_name};
pub use uri::has_valid_path_segments;
