//! The session record and the extractor that finds it in a request.
//!
//! The extractor decodes; it does not judge. A session that comes out of it
//! was in the cookie, in the right shape. Whether it is still good is for a
//! later guard to say.

use crate::jar::{cookie_of, cookies, private_cookie, private_cookies, request_cookies};
use crate::outcome::Outcome;
use crate::payload::decoded;
use rocket::http::CookieJar;
use rocket::Request;
use vstd::prelude::*;

verus! {

/// The name of the cookie that carries the session.
pub const SESSION_COOKIE: &'static str = "session";

/// What a user's login left in the session cookie.
///
/// A record says that a cookie of this shape came with the request, and no
/// more. Whether the user has logged out since, or the session has expired,
/// is for others to find out.
#[derive(Debug, Clone)]
pub struct Session {
    /// The user id as the identity store has it.
    pub id: i32,
    /// The user's email at the time of the login.
    pub email: String,
    /// A random token, one per login.
    pub auth_key: String,
    /// The Unix time of the login, in seconds.
    pub issued_at: i32,
}

/// A session record as a mathematical value.
pub struct SessionView {
    pub id: int,
    pub email: Seq<char>,
    pub auth_key: Seq<char>,
    pub issued_at: int,
}

impl View for Session {
    type V = SessionView;

    open spec fn view(&self) -> SessionView {
        SessionView {
            id: self.id as int,
            email: self.email@,
            auth_key: self.auth_key@,
            issued_at: self.issued_at as int,
        }
    }
}

/// What the cookie store answered, as a mathematical value: the text of the
/// cookie, or `None` where the request has none.
pub open spec fn text_of_cookie(cookie: Option<&str>) -> Option<Seq<char>> {
    match cookie {
        Some(text) => Some(text@),
        None => None,
    }
}

/// The session in the session cookie: `None` where the cookie is missing,
/// and where its text stands for no session.
pub open spec fn session_in(cookie: Option<Seq<char>>) -> Option<SessionView> {
    match cookie {
        Some(text) => decoded(text),
        None => None,
    }
}

/// The session among the private cookies of a request: the one in the
/// cookie called [`SESSION_COOKIE`].
pub open spec fn session_among(cookies: Map<Seq<char>, Seq<char>>) -> Option<SessionView> {
    session_in(cookie_of(cookies, SESSION_COOKIE@))
}

/// Looks for the session in the private cookie [`SESSION_COOKIE`] of a jar.
/// Without that cookie there is no session.
pub fn get_session(cookies: &CookieJar<'_>) -> (r: Option<Session>)
    ensures
        match r {
            Some(s) => session_among(private_cookies(*cookies)) == Some(s@),
            None => session_among(private_cookies(*cookies)) is None,
        },
        !private_cookies(*cookies).contains_key(SESSION_COOKIE@) ==> r is None,
{
    match private_cookie(cookies, SESSION_COOKIE) {
        Some(text) => Session::decode(text.as_str()),
        None => None,
    }
}

impl Session {
    /// The extractor, on what the cookie store answered: the text of the
    /// session cookie, or `None` where the request has none. The outcome is
    /// success with the session that the text stands for, and the one
    /// refusal in every other case: without a cookie, with an empty one, and
    /// with one that cannot be decoded.
    pub fn extract(cookie: Option<&str>) -> (outcome: Outcome)
        ensures
            outcome.answers(session_in(text_of_cookie(cookie))),
            cookie is None ==> outcome == Outcome::unauthorized(),
            cookie matches Some(text) && text@.len() == 0 ==> outcome == Outcome::unauthorized(),
    {
        match cookie {
            Some(text) => Outcome::of(Session::decode(text)),
            None => Outcome::of(None),
        }
    }

    /// The extractor, on a request: success with the session in its private
    /// cookie [`SESSION_COOKIE`], and the refusal where there is none. A
    /// request without that cookie is always refused.
    pub fn from_request(request: &Request<'_>) -> (outcome: Outcome)
        ensures
            outcome.answers(session_among(request_cookies(*request))),
            !request_cookies(*request).contains_key(SESSION_COOKIE@) ==> outcome
                == Outcome::unauthorized(),
    {
        Outcome::of(get_session(cookies(request)))
    }
}

} // verus!
