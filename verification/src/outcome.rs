//! What the extractor hands to the request layer.

use crate::cookies::{Session, SessionView};
use vstd::prelude::*;

verus! {

/// The HTTP status that goes out with a refusal.
#[derive(Clone, Copy, Debug, PartialEq, Eq, Structural)]
pub enum Status {
    /// 401 Unauthorized.
    Unauthorized,
}

impl Status {
    /// The number of the status.
    pub open spec fn spec_code(self) -> u16 {
        match self {
            Status::Unauthorized => 401,
        }
    }

    /// The number of the status, as it stands in the response line.
    #[verifier::when_used_as_spec(spec_code)]
    pub fn code(self) -> (c: u16)
        ensures
            c == self.spec_code(),
    {
        match self {
            Status::Unauthorized => 401,
        }
    }
}

/// Why a request was refused. There is one reason on purpose: a caller
/// cannot tell a missing cookie from an empty or an unreadable one.
#[derive(Clone, Copy, Debug, PartialEq, Eq, Structural)]
pub enum AuthorizationError {
    /// No readable session came with the request.
    Unauthorized,
}

/// The result of looking for a session in a request.
#[derive(Clone, Debug)]
pub enum Outcome {
    /// The cookie was there and held a session.
    Success(Session),
    /// There is no session: the status to answer with, and the reason.
    Failure(Status, AuthorizationError),
}

impl Outcome {
    /// The one refusal there is.
    pub open spec fn unauthorized() -> Outcome {
        Outcome::Failure(Status::Unauthorized, AuthorizationError::Unauthorized)
    }

    /// Whether this is the outcome for `session`: success with a record of
    /// the same contents, or the refusal where there is none.
    pub open spec fn answers(self, session: Option<SessionView>) -> bool {
        match session {
            Some(view) => self matches Outcome::Success(s) && s@ == view,
            None => self == Outcome::unauthorized(),
        }
    }

    /// Success with the session, or the refusal where there is none.
    pub fn of(session: Option<Session>) -> (outcome: Outcome)
        ensures
            match session {
                Some(s) => outcome == Outcome::Success(s),
                None => outcome == Outcome::unauthorized(),
            },
    {
        match session {
            Some(s) => Outcome::Success(s),
            None => Outcome::Failure(Status::Unauthorized, AuthorizationError::Unauthorized),
        }
    }
}

} // verus!
