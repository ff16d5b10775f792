//! The public error body, `{"reason": ...}`, paired with the status it is
//! sent with; the authentication check answers with it.

use vstd::prelude::*;
use vstd::string::StringExecFns;

verus! {

/// The body of a failed request.
#[derive(Debug)]
pub struct APIError {
    pub reason: String,
}

impl APIError {
    /// A query failed: 500, `Database error`.
    pub fn database_error() -> (r: (u16, APIError))
        ensures
            r.0 == 500,
            r.1.reason@ == "Database error"@,
    {
        (500, APIError { reason: String::from_str("Database error") })
    }

    /// An unknown query key: 400, `Unknown query : <query>`.
    pub fn unknown_query(query: &str) -> (r: (u16, APIError))
        ensures
            r.0 == 400,
            r.1.reason@ == "Unknown query : "@ + query@,
    {
        let mut reason = String::from_str("Unknown query : ");
        reason.append(query);
        (400, APIError { reason })
    }

    /// No API key given: 400, `"key" parameter is required`.
    pub fn no_api_key() -> (r: (u16, APIError))
        ensures
            r.0 == 400,
            r.1.reason@ == "\"key\" parameter is required"@,
    {
        (400, APIError { reason: String::from_str("\"key\" parameter is required") })
    }

    /// An API key that matches no user: 401, `Invalid API Key`.
    pub fn bad_api_key() -> (r: (u16, APIError))
        ensures
            r.0 == 401,
            r.1.reason@ == "Invalid API Key"@,
    {
        (401, APIError { reason: String::from_str("Invalid API Key") })
    }
}

} // verus!
