//! The cookies of a request, as `rocket` hands them out.
//!
//! A jar and a request are opaque here. What the extractor needs of them is
//! one private cookie by name, which `rocket` authenticates and decrypts. The
//! contracts of the two functions marked `external_body` are taken on trust.

use rocket::http::CookieJar;
use rocket::Request;
use vstd::prelude::*;

verus! {

#[verifier::external_type_specification]
#[verifier::external_body]
pub struct ExCookieJar<'a>(rocket::http::CookieJar<'a>);

#[verifier::external_type_specification]
#[verifier::external_body]
pub struct ExRequest<'r>(rocket::Request<'r>);

/// The private cookies that came in `jar`, by name: for each cookie that
/// authenticates and decrypts under the application's key, its clear text.
pub uninterp spec fn private_cookies(jar: rocket::http::CookieJar<'_>) -> Map<Seq<char>, Seq<char>>;

/// The private cookies that came with `request`, by name.
pub uninterp spec fn request_cookies(request: rocket::Request<'_>) -> Map<Seq<char>, Seq<char>>;

/// The cookie called `name` among `cookies`, if there is one.
pub open spec fn cookie_of(cookies: Map<Seq<char>, Seq<char>>, name: Seq<char>) -> Option<Seq<char>> {
    if cookies.contains_key(name) {
        Some(cookies[name])
    } else {
        None
    }
}

/// Calls `Request::cookies`. Trusted: the jar that it returns holds the
/// cookies that came with the request.
#[verifier::external_body]
pub(crate) fn cookies<'a, 'r>(request: &'a Request<'r>) -> (jar: &'a CookieJar<'r>)
    ensures
        private_cookies(*jar) == request_cookies(*request),
{
    request.cookies()
}

/// Calls `CookieJar::get_private`, and `Cookie::value` on the cookie that it
/// found. Trusted: it returns the clear text of the cookie of that name as
/// it came with the request, and `None` where there is no such cookie or it
/// fails to authenticate or decrypt. Cookies that were added or removed
/// while the request is handled do not count.
#[verifier::external_body]
pub(crate) fn private_cookie(jar: &CookieJar<'_>, name: &str) -> (value: Option<String>)
    ensures
        match value {
            Some(text) => cookie_of(private_cookies(*jar), name@) == Some(text@),
            None => cookie_of(private_cookies(*jar), name@) is None,
        },
{
    jar.get_private(name).map(|cookie| cookie.value().to_owned())
}

} // verus!
