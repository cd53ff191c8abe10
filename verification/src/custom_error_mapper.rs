//! The errors a request can end in, and the HTTP reply each one becomes.
use vstd::prelude::*;

verus! {

broadcast use vstd::string::group_string_axioms;

/// Why a request failed.
#[derive(Debug)]
pub enum APIError {
    /// The database failed; the text is the database's own message.
    SqlxError(String),
    /// The master password was wrong.
    Unauthorized,
    /// No such access key.
    NotFound,
    /// The access key has expired.
    Expired,
    /// The access key was revoked.
    Revoked,
    /// Too many failed attempts: the door is locked for now.
    Locked,
    /// A setting the service needs is missing; the text names it.
    EnvError(String),
    /// Home Assistant could not be reached or refused to open the door.
    HomeAssistantError,
}

/// An HTTP reply: its status code and its text body.
#[derive(Debug)]
pub struct ApiReply {
    pub status: u16,
    pub body: String,
}

/// The status code that answers each error.
pub open spec fn error_status(e: APIError) -> u16 {
    match e {
        APIError::SqlxError(_) => 500,
        APIError::Unauthorized => 401,
        APIError::NotFound => 404,
        APIError::Expired => 408,
        APIError::Revoked => 410,
        APIError::Locked => 423,
        APIError::EnvError(_) => 500,
        APIError::HomeAssistantError => 502,
    }
}

/// The text that answers each error.
pub open spec fn error_body(e: APIError) -> Seq<char> {
    match e {
        APIError::SqlxError(m) => "DB error: "@ + m@,
        APIError::Unauthorized => "Wrong Master Password"@,
        APIError::NotFound => "Wrong access key"@,
        APIError::Expired => "Key Expired"@,
        APIError::Revoked => "Key Revoked"@,
        APIError::Locked => "Too many failed attempts"@,
        APIError::EnvError(m) => m@,
        APIError::HomeAssistantError => "Home Assistant request failed"@,
    }
}

impl APIError {
    /// The HTTP reply that reports this error: a server error with the
    /// database's message for database failures, and a fixed status and text
    /// for each refusal.
    pub fn into_response(self) -> (r: ApiReply)
        ensures
            r.status == error_status(self),
            r.body@ == error_body(self),
    {
        match self {
            APIError::SqlxError(m) => {
                let body = String::from_str("DB error: ").concat(m.as_str());
                ApiReply { status: 500, body }
            },
            APIError::Unauthorized => ApiReply {
                status: 401,
                body: String::from_str("Wrong Master Password"),
            },
            APIError::NotFound => ApiReply { status: 404, body: String::from_str("Wrong access key") },
            APIError::Expired => ApiReply { status: 408, body: String::from_str("Key Expired") },
            APIError::Revoked => ApiReply { status: 410, body: String::from_str("Key Revoked") },
            APIError::Locked => ApiReply {
                status: 423,
                body: String::from_str("Too many failed attempts"),
            },
            APIError::EnvError(m) => ApiReply { status: 500, body: m },
            APIError::HomeAssistantError => ApiReply {
                status: 502,
                body: String::from_str("Home Assistant request failed"),
            },
        }
    }
}

/// The reply to every error: database failures and missing settings are
/// server errors (500) carrying their message, a wrong master password is 401,
/// an unknown key 404, an expired key 408, a revoked key 410, a locked system
/// 423 and a failed Home Assistant call 502; every refusal has its own status.
pub proof fn lemma_error_replies(m: String)
    ensures
        error_status(APIError::SqlxError(m)) == 500 && error_body(APIError::SqlxError(m)) == "DB error: "@ + m@,
        error_status(APIError::Unauthorized) == 401 && error_body(APIError::Unauthorized) == "Wrong Master Password"@,
        error_status(APIError::NotFound) == 404 && error_body(APIError::NotFound) == "Wrong access key"@,
        error_status(APIError::Expired) == 408 && error_body(APIError::Expired) == "Key Expired"@,
        error_status(APIError::Revoked) == 410 && error_body(APIError::Revoked) == "Key Revoked"@,
        error_status(APIError::Locked) == 423 && error_body(APIError::Locked) == "Too many failed attempts"@,
        error_status(APIError::EnvError(m)) == 500 && error_body(APIError::EnvError(m)) == m@,
        error_status(APIError::HomeAssistantError) == 502 && error_body(APIError::HomeAssistantError)
            == "Home Assistant request failed"@,
{
}

} // verus!
