//! The token-refresh retry policy that wraps every authenticated request.
//!
//! One `RequestGuard` steers one outbound request.  The driver sends the
//! request with the guard's bearer header; if the server answers
//! Forbidden — its signal that the token expired — the guard orders
//! exactly one full re-authentication and one retry with the fresh
//! token.  Anything after that is delivered to the caller: a second
//! Forbidden, like every other failure, propagates without a third
//! attempt.

use vstd::prelude::*;

use crate::auth::{AuthError, AuthErrorKind};
use crate::grid::{spec_is_error_grid, ParseJsonGridError};

verus! {

/// The `Authorization` header value carrying a bearer token.
pub open spec fn spec_bearer_header(token: Seq<char>) -> Seq<char> {
    "BEARER authToken="@ + token
}

/// Build the `Authorization` header value for a bearer token.
pub fn bearer_header_value(token: &str) -> (r: String)
    ensures
        r@ == spec_bearer_header(token@),
{
    let mut out = String::from_str("BEARER authToken=");
    out.append(token);
    proof {
        assert(out@ =~= spec_bearer_header(token@));
    }
    out
}

/// A non-Forbidden response body, reduced to plain facts.
pub enum BodySummary {
    /// The body could not be read as JSON at all.
    Undecoded { msg: String },
    /// The body was JSON, but not grid-shaped.
    BadShape { error: ParseJsonGridError },
    /// The body was a grid; `meta_err` is its `err` metadata entry where
    /// that entry is a string.
    Grid { meta_err: Option<String> },
}

/// The spec-level mirror of a body summary.
pub enum SpecBodySummary {
    Undecoded,
    BadShape,
    Grid { meta_err: Option<Seq<char>> },
}

impl View for BodySummary {
    type V = SpecBodySummary;

    open spec fn view(&self) -> SpecBodySummary {
        match self {
            BodySummary::Undecoded { .. } => SpecBodySummary::Undecoded,
            BodySummary::BadShape { .. } => SpecBodySummary::BadShape,
            BodySummary::Grid { meta_err } => SpecBodySummary::Grid {
                meta_err: meta_err.deep_view(),
            },
        }
    }
}

/// One HTTP exchange, as the guard sees it.
pub enum ResponseEvent {
    /// The request could not be sent, or no response arrived.
    Transport { msg: String },
    /// The server answered with the Forbidden status.
    Forbidden,
    /// The server answered with any other status; the body follows.
    Body { body: BodySummary },
}

/// The spec-level mirror of a response event.
pub enum SpecResponseEvent {
    Transport,
    Forbidden,
    Body { body: SpecBodySummary },
}

impl View for ResponseEvent {
    type V = SpecResponseEvent;

    open spec fn view(&self) -> SpecResponseEvent {
        match self {
            ResponseEvent::Transport { .. } => SpecResponseEvent::Transport,
            ResponseEvent::Forbidden => SpecResponseEvent::Forbidden,
            ResponseEvent::Body { body } => SpecResponseEvent::Body { body: body@ },
        }
    }
}

/// What one request ends in, for the caller.
pub enum RequestOutcome {
    /// The response carried a well-formed grid with no error marker.
    Success,
    /// The response carried a grid marked as a server-side error.
    ErrorGrid,
    /// The transport failed, or the body was not JSON.
    TransportError { msg: String },
    /// The body was JSON but not grid-shaped.
    BadGrid { error: ParseJsonGridError },
    /// The server answered Forbidden even after re-authentication.
    Forbidden,
    /// Re-authentication itself failed.
    AuthFailed { error: AuthError },
}

/// The spec-level mirror of a request outcome.
pub enum SpecRequestOutcome {
    Success,
    ErrorGrid,
    TransportError,
    BadGrid,
    Forbidden,
    AuthFailed { kind: AuthErrorKind },
}

impl View for RequestOutcome {
    type V = SpecRequestOutcome;

    open spec fn view(&self) -> SpecRequestOutcome {
        match self {
            RequestOutcome::Success => SpecRequestOutcome::Success,
            RequestOutcome::ErrorGrid => SpecRequestOutcome::ErrorGrid,
            RequestOutcome::TransportError { .. } => SpecRequestOutcome::TransportError,
            RequestOutcome::BadGrid { .. } => SpecRequestOutcome::BadGrid,
            RequestOutcome::Forbidden => SpecRequestOutcome::Forbidden,
            RequestOutcome::AuthFailed { error } => SpecRequestOutcome::AuthFailed {
                kind: error.kind(),
            },
        }
    }
}

/// What the driver must do next.
pub enum GuardCommand {
    /// Run a full re-authentication handshake, then report it through
    /// `on_auth_outcome`.
    Authenticate,
    /// Send the same request once more, with the guard's current bearer
    /// header.
    Retry,
    /// The request is over; hand this to the caller.
    Deliver { outcome: RequestOutcome },
}

/// The spec-level mirror of a guard command.
pub enum SpecGuardCommand {
    Authenticate,
    Retry,
    Deliver { outcome: SpecRequestOutcome },
}

impl View for GuardCommand {
    type V = SpecGuardCommand;

    open spec fn view(&self) -> SpecGuardCommand {
        match self {
            GuardCommand::Authenticate => SpecGuardCommand::Authenticate,
            GuardCommand::Retry => SpecGuardCommand::Retry,
            GuardCommand::Deliver { outcome } => SpecGuardCommand::Deliver { outcome: outcome@ },
        }
    }
}

/// Where the guard stands.
#[derive(Clone, Copy, Debug, PartialEq, Eq, Structural)]
pub enum GuardState {
    /// A request is in flight; a response event is expected.
    AwaitingResponse,
    /// A re-authentication is running; its outcome is expected.
    Authenticating,
    /// The request was delivered, one way or the other.
    Complete,
}

/// A guard for one request, as its contracts see it.
pub struct SpecGuard {
    pub auth_token: Seq<char>,
    pub refreshed: bool,
    pub state: GuardState,
}

/// What a grid body delivers: the error-grid signal decides between data
/// and a server-side error.
pub open spec fn spec_classify_body(b: SpecBodySummary) -> SpecRequestOutcome {
    match b {
        SpecBodySummary::Undecoded => SpecRequestOutcome::TransportError,
        SpecBodySummary::BadShape => SpecRequestOutcome::BadGrid,
        SpecBodySummary::Grid { meta_err } => if spec_is_error_grid(meta_err) {
            SpecRequestOutcome::ErrorGrid
        } else {
            SpecRequestOutcome::Success
        },
    }
}

/// What one response event does to the guard.  Forbidden triggers one
/// re-authentication the first time and is delivered as an error the
/// second; every other event is delivered at once.
pub open spec fn spec_guard_on_response(g: SpecGuard, ev: SpecResponseEvent) -> (
    SpecGuard,
    SpecGuardCommand,
) {
    let complete = SpecGuard { state: GuardState::Complete, ..g };
    match ev {
        SpecResponseEvent::Transport => (
            complete,
            SpecGuardCommand::Deliver { outcome: SpecRequestOutcome::TransportError },
        ),
        SpecResponseEvent::Forbidden => {
            if !g.refreshed {
                (
                    SpecGuard { state: GuardState::Authenticating, ..g },
                    SpecGuardCommand::Authenticate,
                )
            } else {
                (
                    complete,
                    SpecGuardCommand::Deliver { outcome: SpecRequestOutcome::Forbidden },
                )
            }
        },
        SpecResponseEvent::Body { body } => (
            complete,
            SpecGuardCommand::Deliver { outcome: spec_classify_body(body) },
        ),
    }
}

/// What a re-authentication outcome does to the guard: a fresh token is
/// stored and the request retried once; a failure is delivered.
pub open spec fn spec_guard_on_auth(g: SpecGuard, outcome: Result<Seq<char>, AuthErrorKind>) -> (
    SpecGuard,
    SpecGuardCommand,
) {
    match outcome {
        Ok(token) => (
            SpecGuard { auth_token: token, refreshed: true, state: GuardState::AwaitingResponse },
            SpecGuardCommand::Retry,
        ),
        Err(k) => (
            SpecGuard { state: GuardState::Complete, ..g },
            SpecGuardCommand::Deliver {
                outcome: SpecRequestOutcome::AuthFailed { kind: k },
            },
        ),
    }
}

/// The retry guard around one outbound request.
pub struct RequestGuard {
    auth_token: String,
    refreshed: bool,
    state: GuardState,
}

impl View for RequestGuard {
    type V = SpecGuard;

    closed spec fn view(&self) -> SpecGuard {
        SpecGuard {
            auth_token: self.auth_token@,
            refreshed: self.refreshed,
            state: self.state,
        }
    }
}

impl RequestGuard {
    /// Guard one request that will authenticate with `auth_token`.
    pub fn new(auth_token: String) -> (g: RequestGuard)
        ensures
            g@ == (SpecGuard {
                auth_token: auth_token@,
                refreshed: false,
                state: GuardState::AwaitingResponse,
            }),
    {
        RequestGuard { auth_token, refreshed: false, state: GuardState::AwaitingResponse }
    }

    /// The token the next attempt must carry.
    pub fn auth_token(&self) -> (r: &str)
        ensures
            r@ == self@.auth_token,
    {
        self.auth_token.as_str()
    }

    /// Whether this request already re-authenticated, so that its token is
    /// fresher than the one it started with.
    pub fn was_refreshed(&self) -> (r: bool)
        ensures
            r == self@.refreshed,
    {
        self.refreshed
    }

    /// The `Authorization` header value for the next attempt.
    pub fn request_header(&self) -> (r: String)
        ensures
            r@ == spec_bearer_header(self@.auth_token),
    {
        bearer_header_value(self.auth_token.as_str())
    }

    /// Feed the response of the attempt in flight.
    pub fn on_response(&mut self, event: ResponseEvent) -> (r: GuardCommand)
        requires
            old(self)@.state is AwaitingResponse,
        ensures
            (final(self)@, r@) == spec_guard_on_response(old(self)@, event@),
    {
        match event {
            ResponseEvent::Transport { msg } => {
                self.state = GuardState::Complete;
                GuardCommand::Deliver { outcome: RequestOutcome::TransportError { msg } }
            },
            ResponseEvent::Forbidden => {
                if !self.refreshed {
                    self.state = GuardState::Authenticating;
                    GuardCommand::Authenticate
                } else {
                    self.state = GuardState::Complete;
                    GuardCommand::Deliver { outcome: RequestOutcome::Forbidden }
                }
            },
            ResponseEvent::Body { body } => {
                self.state = GuardState::Complete;
                let outcome = match body {
                    BodySummary::Undecoded { msg } => RequestOutcome::TransportError { msg },
                    BodySummary::BadShape { error } => RequestOutcome::BadGrid { error },
                    BodySummary::Grid { meta_err } => {
                        if crate::grid::is_error_grid_marker(&meta_err) {
                            RequestOutcome::ErrorGrid
                        } else {
                            RequestOutcome::Success
                        }
                    },
                };
                GuardCommand::Deliver { outcome }
            },
        }
    }

    /// Feed the outcome of the ordered re-authentication.
    pub fn on_auth_outcome(&mut self, outcome: Result<String, AuthError>) -> (r: GuardCommand)
        requires
            old(self)@.state is Authenticating,
        ensures
            ({
                let spec_outcome = match outcome {
                    Ok(t) => Ok(t@),
                    Err(e) => Err(e.kind()),
                };
                (final(self)@, r@) == spec_guard_on_auth(old(self)@, spec_outcome)
            }),
    {
        match outcome {
            Ok(token) => {
                self.auth_token = token;
                self.refreshed = true;
                self.state = GuardState::AwaitingResponse;
                GuardCommand::Retry
            },
            Err(error) => {
                self.state = GuardState::Complete;
                GuardCommand::Deliver { outcome: RequestOutcome::AuthFailed { error } }
            },
        }
    }
}

} // verus!
