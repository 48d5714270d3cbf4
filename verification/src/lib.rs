//! The session guard of a web application: it finds the session record in
//! the private cookie of a request, or refuses the request as unauthorized.
//!
//! - [`cookies`] holds the record, [`cookies::Session`], and the extractor:
//!   [`cookies::Session::from_request`] on a request,
//!   [`cookies::get_session`] on a cookie jar, and
//!   [`cookies::Session::extract`] on the text of the cookie.
//! - [`payload`] is the format of the cookie's text, with
//!   [`cookies::Session::decode`] and [`cookies::Session::encode`], and what
//!   is proved of them.
//! - [`outcome`] is what the request layer gets back.
//! - [`json`] and [`jar`] stand between the library and the crates that it
//!   calls, `serde_json` and `rocket`. What they say of those crates is
//!   taken on trust; everything else is verified.

pub mod cookies;
pub mod jar;
pub mod json;
pub mod outcome;
pub mod payload;
