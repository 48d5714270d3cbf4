//! The text in the session cookie: a JSON object with exactly the members
//! `id`, `email`, `auth_key` and `issued_at`.

use crate::cookies::{Session, SessionView};
use crate::json::{
    as_integer, as_object, as_text, count, document, insert, integer_value, member, member_of,
    members_of, no_members, object_value, parse, parsed, render, rendered, text_value, Json,
};
use serde_json::Value;
use vstd::prelude::*;

verus! {

/// The names of the members of a payload.
pub open spec fn field_names() -> Set<Seq<char>> {
    set!["id"@, "email"@, "auth_key"@, "issued_at"@]
}

/// Whether `n` can stand in an `i32` field.
pub open spec fn fits_i32(n: int) -> bool {
    i32::MIN <= n <= i32::MAX
}

/// Whether `doc` is an object whose members are the four fields and no
/// others.
pub open spec fn has_the_fields(doc: Json) -> bool {
    doc matches Json::Object(members) && members.dom() == field_names()
}

/// The session that `doc` holds: `doc` is an object, its members are the
/// four fields and no others, `id` and `issued_at` are integers that fit in
/// an `i32`, `email` and `auth_key` are strings. `None` for every other
/// document.
pub open spec fn session_of(doc: Json) -> Option<SessionView> {
    match doc {
        Json::Object(members) => match (
            members["id"@],
            members["email"@],
            members["auth_key"@],
            members["issued_at"@],
        ) {
            (
                Json::Integer(id),
                Json::Text(email),
                Json::Text(auth_key),
                Json::Integer(issued_at),
            ) => if has_the_fields(doc) && fits_i32(id) && fits_i32(issued_at) {
                Some(SessionView { id, email, auth_key, issued_at })
            } else {
                None
            },
            _ => None,
        },
        _ => None,
    }
}

/// The document that stands for `session`: an object with the four fields.
pub open spec fn document_of(session: SessionView) -> Json {
    Json::Object(
        Map::empty().insert("id"@, Json::Integer(session.id)).insert(
            "email"@,
            Json::Text(session.email),
        ).insert("auth_key"@, Json::Text(session.auth_key)).insert(
            "issued_at"@,
            Json::Integer(session.issued_at),
        ),
    )
}

/// The session that the text of a cookie stands for: the text is not
/// empty, it is JSON, and the document holds a session.
pub open spec fn decoded(text: Seq<char>) -> Option<SessionView> {
    if text.len() == 0 {
        None
    } else {
        match parsed(text) {
            Some(doc) => session_of(doc),
            None => None,
        }
    }
}

/// The member called `name` of the object that `text` is read as: `None`
/// where `text` is not JSON, where it is not an object, and where the
/// object has no such member.
pub open spec fn read_member(text: Seq<char>, name: Seq<char>) -> Option<Json> {
    match parsed(text) {
        Some(Json::Object(members)) => member_of(members, name),
        _ => None,
    }
}

/// Whether `text` is a payload of `session`: a text that is not empty and
/// that is read as the document of `session`.
pub open spec fn is_payload_of(text: Seq<char>, session: SessionView) -> bool {
    text.len() > 0 && parsed(text) == Some(document_of(session))
}

/// The four names differ from each other, so there are four of them. This
/// is what a caller needs to tell the members of a document apart.
pub proof fn lemma_field_names()
    ensures
        field_names().finite(),
        field_names().len() == 4,
        "id"@ != "email"@,
        "id"@ != "auth_key"@,
        "id"@ != "issued_at"@,
        "email"@ != "auth_key"@,
        "email"@ != "issued_at"@,
        "auth_key"@ != "issued_at"@,
{
    reveal_strlit("id");
    reveal_strlit("email");
    reveal_strlit("auth_key");
    reveal_strlit("issued_at");
    // No two of the names have the same length.
    assert("id"@.len() == 2);
    assert("email"@.len() == 5);
    assert("auth_key"@.len() == 8);
    assert("issued_at"@.len() == 9);
}

/// A set of four strings that has the four names in it has nothing else.
proof fn lemma_only_the_fields(names: Set<Seq<char>>)
    requires
        names.finite(),
        names.len() == 4,
        names.contains("id"@),
        names.contains("email"@),
        names.contains("auth_key"@),
        names.contains("issued_at"@),
    ensures
        names == field_names(),
{
    lemma_field_names();
    vstd::set_lib::lemma_subset_equality(field_names(), names);
}

/// The document of a session holds that session: each field comes back as
/// it went in.
pub proof fn lemma_document_holds_session(session: Session)
    ensures
        session_of(document_of(session@)) == Some(session@),
{
    lemma_field_names();
}

/// Round trip: decoding a payload of a session gives that session, field by
/// field.
pub proof fn lemma_payload_decodes(session: Session, text: Seq<char>)
    requires
        is_payload_of(text, session@),
    ensures
        decoded(text) == Some(session@),
{
    lemma_document_holds_session(session);
}

/// Only payloads decode: a text that stands for a session is a payload of
/// that session, and the numbers of the session fit in an `i32`.
pub proof fn lemma_only_payloads_decode(text: Seq<char>, session: SessionView)
    requires
        decoded(text) == Some(session),
    ensures
        is_payload_of(text, session),
        fits_i32(session.id),
        fits_i32(session.issued_at),
{
    let members = parsed(text)->0->Object_0;
    assert(members =~= document_of(session)->Object_0);
}

/// Two sessions with the same payload are the same session.
pub proof fn lemma_payload_names_one_session(a: Session, b: Session, text: Seq<char>)
    requires
        is_payload_of(text, a@),
        is_payload_of(text, b@),
    ensures
        a@ == b@,
{
    lemma_payload_decodes(a, text);
    lemma_payload_decodes(b, text);
}

/// A text that is JSON but lacks one of the four fields stands for no
/// session.
pub proof fn lemma_missing_field_is_rejected(text: Seq<char>, name: Seq<char>)
    requires
        parsed(text) is Some,
        read_member(text, name) is None,
        field_names().contains(name),
    ensures
        decoded(text) is None,
{
}

/// A text that is JSON, with something that is not an integer under `id` or
/// under `issued_at`, stands for no session.
pub proof fn lemma_non_integer_is_rejected(text: Seq<char>, name: Seq<char>)
    requires
        read_member(text, name) matches Some(found) && !(found is Integer),
        name == "id"@ || name == "issued_at"@,
    ensures
        decoded(text) is None,
{
}

/// A text that is JSON, with something that is not a string under `email`
/// or under `auth_key`, stands for no session.
pub proof fn lemma_non_string_is_rejected(text: Seq<char>, name: Seq<char>)
    requires
        read_member(text, name) matches Some(found) && !(found is Text),
        name == "email"@ || name == "auth_key"@,
    ensures
        decoded(text) is None,
{
}

/// A text that is JSON, with an integer under `id` or under `issued_at`
/// that does not fit in an `i32`, stands for no session.
pub proof fn lemma_wide_integer_is_rejected(text: Seq<char>, name: Seq<char>)
    requires
        read_member(text, name) matches Some(Json::Integer(n)) && !fits_i32(n),
        name == "id"@ || name == "issued_at"@,
    ensures
        decoded(text) is None,
{
}

/// A text that is JSON but has a member besides the four fields, or is no
/// object at all, stands for no session.
pub proof fn lemma_other_shape_is_rejected(text: Seq<char>)
    requires
        parsed(text) matches Some(doc) && !has_the_fields(doc),
    ensures
        decoded(text) is None,
{
}

/// A text that is not JSON stands for no session, and neither does the
/// empty text.
pub proof fn lemma_unreadable_is_rejected(text: Seq<char>)
    requires
        text.len() == 0 || parsed(text) is None,
    ensures
        decoded(text) is None,
{
}

/// The integer under `name`, narrowed to an `i32`.
spec fn integer_member_of(members: Map<Seq<char>, Json>, name: Seq<char>) -> Option<i32> {
    match member_of(members, name) {
        Some(Json::Integer(n)) => if fits_i32(n) {
            Some(n as i32)
        } else {
            None
        },
        _ => None,
    }
}

/// The string under `name`.
spec fn text_member_of(members: Map<Seq<char>, Json>, name: Seq<char>) -> Option<Seq<char>> {
    match member_of(members, name) {
        Some(Json::Text(s)) => Some(s),
        _ => None,
    }
}

/// Reads the member `name` as an `i32`: `None` where there is no such
/// member, where it is not an integer, and where the integer does not fit.
fn integer_member(members: &serde_json::Map<String, Value>, name: &str) -> (r: Option<i32>)
    ensures
        r == integer_member_of(members_of(*members), name@),
{
    match member(members, name) {
        Some(found) => match as_integer(found) {
            Some(n) => if i32::MIN as i64 <= n && n <= i32::MAX as i64 {
                Some(n as i32)
            } else {
                None
            },
            None => None,
        },
        None => None,
    }
}

/// Reads the member `name` as a string: `None` where there is no such
/// member, and where it is not a string.
fn text_member(members: &serde_json::Map<String, Value>, name: &str) -> (r: Option<String>)
    ensures
        match r {
            Some(s) => text_member_of(members_of(*members), name@) == Some(s@),
            None => text_member_of(members_of(*members), name@) is None,
        },
{
    match member(members, name) {
        Some(found) => match as_text(found) {
            Some(s) => Some(s.to_owned()),
            None => None,
        },
        None => None,
    }
}

impl Session {
    /// Reads a session out of a parsed payload. The result is the session
    /// that the document holds, and `None` where it holds none: where a
    /// field is missing, has the wrong type or does not fit, and where the
    /// value is not an object or has a member besides the four.
    pub fn from_value(value: &Value) -> (r: Option<Session>)
        ensures
            match r {
                Some(s) => session_of(document(*value)) == Some(s@),
                None => session_of(document(*value)) is None,
            },
    {
        proof {
            // Four members are needed: there are four names.
            lemma_field_names();
        }
        let members = match as_object(value) {
            Some(members) => members,
            None => {
                return None;
            },
        };
        if count(members) != 4 {
            return None;
        }
        let id = integer_member(members, "id");
        let email = text_member(members, "email");
        let auth_key = text_member(members, "auth_key");
        let issued_at = integer_member(members, "issued_at");
        match (id, email, auth_key, issued_at) {
            (Some(id), Some(email), Some(auth_key), Some(issued_at)) => {
                proof {
                    lemma_only_the_fields(members_of(*members).dom());
                }
                Some(Session { id, email, auth_key, issued_at })
            },
            _ => None,
        }
    }

    /// The payload as a JSON value: an object that holds the four fields
    /// under their names. Reading the value gives this session back.
    pub fn to_value(&self) -> (value: Value)
        ensures
            document(value) == document_of(self@),
            session_of(document(value)) == Some(self@),
    {
        proof {
            lemma_document_holds_session(*self);
        }
        let mut members = no_members();
        insert(&mut members, "id", integer_value(self.id as i64));
        insert(&mut members, "email", text_value(self.email.as_str()));
        insert(&mut members, "auth_key", text_value(self.auth_key.as_str()));
        insert(&mut members, "issued_at", integer_value(self.issued_at as i64));
        object_value(members)
    }

    /// Encodes the session as the text of a cookie: the compact JSON text of
    /// its document.
    pub fn encode(&self) -> (payload: String)
        ensures
            payload@ == rendered(document_of(self@)),
    {
        render(&self.to_value())
    }

    /// Decodes the text of a session cookie. The result is the session that
    /// the text stands for; every text that stands for none gives `None`,
    /// the empty text among them.
    pub fn decode(text: &str) -> (r: Option<Session>)
        ensures
            match r {
                Some(s) => decoded(text@) == Some(s@),
                None => decoded(text@) is None,
            },
            text@.len() == 0 ==> r is None,
    {
        if text.is_empty() {
            return None;
        }
        match parse(text) {
            Ok(value) => Session::from_value(&value),
            Err(_) => None,
        }
    }
}

} // verus!
