//! Sessions: the user information that the proxy hands to the protected
//! pages, and the sessions opened at login.

pub mod ep;

use vstd::prelude::*;

use crate::base64url::{decode_padded, decode_padded_text, encode_padded, law_decode_inverts_encode};
use crate::http::Status;
use crate::models::{sessions, Timestamp};

verus! {

/// The cookie that holds the session identifier.
pub const PATROL_COOKIE: &'static str = "patrol";

/// The header in which the proxy passes the signed-in user, as padded
/// URL-safe Base64 of a JSON object.
pub const PATROL_HEADER: &'static str = "x-patrol";

/// The message that a header whose JSON is not a user is refused with.
pub const UNPARSABLE_HEADER_MESSAGE: &'static str =
    "Failed to parse the X-Patrol header with user information";

/// The signed-in user, as the protected pages see it.
#[derive(Debug, Clone, PartialEq, Eq)]
pub struct Session {
    pub username: String,
    pub first_name: String,
    pub last_name: String,
    pub profile_picture: bool,
    pub roles: Vec<String>,
    pub created_at: Timestamp,
}

/// Why a request to a protected page is refused.
#[derive(Debug, Clone, Copy, PartialEq, Eq)]
pub enum SessionRejection {
    /// No user header came with the request.
    Missing,
    /// The header is not padded URL-safe Base64.
    Undecodable,
    /// The decoded header is not the JSON of a user.
    Unparsable,
}

impl SessionRejection {
    /// The status the request is answered with.
    pub fn status(&self) -> (s: Status)
        ensures
            s == match self {
                SessionRejection::Missing => Status::Unauthorized,
                SessionRejection::Undecodable => Status::InternalServerError,
                SessionRejection::Unparsable => Status::UnprocessableEntity,
            },
    {
        match self {
            SessionRejection::Missing => Status::Unauthorized,
            SessionRejection::Undecodable => Status::InternalServerError,
            SessionRejection::Unparsable => Status::UnprocessableEntity,
        }
    }

    /// The message the answer carries, where it carries one.
    pub fn message(&self) -> (m: Option<&'static str>)
        ensures
            match self {
                SessionRejection::Unparsable => m matches Some(t) && t@
                    == UNPARSABLE_HEADER_MESSAGE@,
                _ => m is None,
            },
    {
        match self {
            SessionRejection::Unparsable => Some(UNPARSABLE_HEADER_MESSAGE),
            _ => None,
        }
    }
}

/// What the user header of a request comes to: the JSON bytes it carries,
/// or why the request is refused before they are read.
pub open spec fn header_payload(header: Option<Seq<char>>) -> Result<Seq<u8>, SessionRejection> {
    match header {
        None => Err(SessionRejection::Missing),
        Some(text) => match decode_padded(text) {
            Some(bytes) => Ok(bytes),
            None => Err(SessionRejection::Undecodable),
        },
    }
}

/// Reads the user header of a request to a protected page: without one the
/// request is unauthorized; otherwise it must decode as padded URL-safe
/// Base64, and the decoded JSON is what the page gets (parsed by the caller;
/// where it does not parse, the answer is `SessionRejection::Unparsable`).
pub fn session_middleware(header: Option<&str>) -> (res: Result<Vec<u8>, SessionRejection>)
    ensures
        match res {
            Ok(bytes) => header_payload(
                match header {
                    Some(h) => Some(h@),
                    None => None,
                },
            ) == Ok::<Seq<u8>, SessionRejection>(bytes@),
            Err(r) => header_payload(
                match header {
                    Some(h) => Some(h@),
                    None => None,
                },
            ) == Err::<Seq<u8>, SessionRejection>(r),
        },
{
    match header {
        None => Err(SessionRejection::Missing),
        Some(text) => match decode_padded_text(text) {
            Some(bytes) => Ok(bytes),
            None => Err(SessionRejection::Undecodable),
        },
    }
}

/// A header that carries the encoding of some JSON hands that JSON on; a
/// request without the header is unauthorized.
pub proof fn law_header_round_trip(json: Seq<u8>)
    ensures
        header_payload(Some(encode_padded(json))) == Ok::<Seq<u8>, SessionRejection>(json),
        header_payload(None) == Err::<Seq<u8>, SessionRejection>(SessionRejection::Missing),
{
    law_decode_inverts_encode(json);
}

/// The row that opens a session with the identifier `session_id` for
/// `username`; the identifier is what the session cookie then holds.
pub fn new(session_id: String, username: String) -> (row: sessions::NewSession)
    ensures
        row.id == session_id,
        row.user_username == username,
{
    sessions::NewSession { id: session_id, user_username: username }
}

} // verus!
