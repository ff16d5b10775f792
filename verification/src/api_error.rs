//! The error the version-1 endpoints answer with: a status and a reason,
//! sent as `{"reason": ...}`.

use vstd::prelude::*;
use vstd::string::StringExecFns;

verus! {

/// A failed request: the HTTP status and the reason given to the client.
#[derive(Debug)]
pub struct APIError {
    pub code: u16,
    pub reason: String,
}

impl APIError {
    /// A query failed: 500 `Database error`.
    pub fn database_error() -> (e: APIError)
        ensures
            e.code == 500,
            e.reason@ == "Database error"@,
    {
        APIError { code: 500, reason: String::from_str("Database error") }
    }

    /// An unknown query key: 400 `Unknown query: <query>`.
    pub fn unknown_query(query: &str) -> (e: APIError)
        ensures
            e.code == 400,
            e.reason@ == "Unknown query: "@ + query@,
    {
        let mut reason = String::from_str("Unknown query: ");
        reason.append(query);
        APIError { code: 400, reason }
    }

    /// No API key given: 401 `"key" parameter is required`.
    pub fn no_api_key() -> (e: APIError)
        ensures
            e.code == 401,
            e.reason@ == "\"key\" parameter is required"@,
    {
        APIError { code: 401, reason: String::from_str("\"key\" parameter is required") }
    }

    /// An API key that matches no user: 401 `Invalid API Key`.
    pub fn bad_api_key() -> (e: APIError)
        ensures
            e.code == 401,
            e.reason@ == "Invalid API Key"@,
    {
        APIError { code: 401, reason: String::from_str("Invalid API Key") }
    }

    /// No record with this id: 404 `The provided id is invalid: <id>`.
    pub fn bad_id(id: &str) -> (e: APIError)
        ensures
            e.code == 404,
            e.reason@ == "The provided id is invalid: "@ + id@,
    {
        let mut reason = String::from_str("The provided id is invalid: ");
        reason.append(id);
        APIError { code: 404, reason }
    }

    /// A value the request may not hold: 400 `Invalid value: <reason>`.
    pub fn invalid_value(reason: &str) -> (e: APIError)
        ensures
            e.code == 400,
            e.reason@ == "Invalid value: "@ + reason@,
    {
        let mut text = String::from_str("Invalid value: ");
        text.append(reason);
        APIError { code: 400, reason: text }
    }
}

} // verus!
