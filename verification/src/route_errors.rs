//! The errors the endpoints answer with: an HTTP status, the reason given to
//! the client, and, for unexpected failures, the chain of causes kept for the
//! logs.

use vstd::prelude::*;
use vstd::string::StringExecFns;
use crate::errors::{ApiErrorResponse, error_chain_fmt, error_chain_text};
use crate::text::{decimal_text, push_decimal_i64};

verus! {

/// An unexpected failure: the message of the outermost error (the context
/// the endpoint attached) and the messages of its successive causes.
#[derive(Debug)]
pub struct ErrorChain {
    pub message: String,
    pub causes: Vec<String>,
}

impl ErrorChain {
    /// The cause messages as character sequences.
    pub open spec fn cause_views(self) -> Seq<Seq<char>> {
        self.causes@.map_values(|c: String| c@)
    }
}

/// The failures of the asset, coin and price endpoints. Each endpoint answers
/// with the variants its contract names.
#[derive(Debug)]
pub enum RouteError {
    /// No record with this id belongs to the user: 404 Not Found.
    InvalidId,
    /// The request holds an invalid value: 400 Bad Request.
    ValidationError(String),
    /// The user already has an asset for this coin: 409 Conflict.
    DuplicateCoin(i64),
    /// The price table lacks one of the tracked prices: 500.
    ValueNotFound(String),
    /// The path names no known price: 404 Not Found.
    UnknownPriceKey(String),
    /// Anything else, such as a failed query: 500.
    UnexpectedError(ErrorChain),
}

pub type GetAssetsError = RouteError;
pub type CreateCashAssetError = RouteError;
pub type DeleteCashAssetError = RouteError;
pub type GetCashAssetError = RouteError;
pub type UpdateCashAssetError = RouteError;
pub type CreateCoinAssetError = RouteError;
pub type DeleteCoinAssetError = RouteError;
pub type GetCoinAssetError = RouteError;
pub type UpdateCoinAssetError = RouteError;
pub type GetCoinError = RouteError;
pub type SearchCoinsError = RouteError;
pub type GetPricesError = RouteError;
pub type GetPriceError = RouteError;
pub type CreateRawAssetError = RouteError;
pub type DeleteRawAssetError = RouteError;
pub type GetRawAssetError = RouteError;
pub type UpdateRawAssetError = RouteError;

/// The reason given for an unknown id.
pub open spec fn invalid_id_reason() -> Seq<char> {
    "The provided id is invalid"@
}

/// The reason given when the user already has an asset for the coin.
pub open spec fn duplicate_coin_reason(coin_id: i64) -> Seq<char> {
    "You already possess coin_id "@ + decimal_text(coin_id as int)
}

/// The reason given when a tracked price is missing.
pub open spec fn value_not_found_reason(name: Seq<char>) -> Seq<char> {
    "No price found for "@ + name + ". This should not happen"@
}

impl RouteError {
    /// The status each variant is answered with.
    pub open spec fn status_of(&self) -> u16 {
        match self {
            RouteError::InvalidId => 404,
            RouteError::ValidationError(_) => 400,
            RouteError::DuplicateCoin(_) => 409,
            RouteError::ValueNotFound(_) => 500,
            RouteError::UnknownPriceKey(_) => 404,
            RouteError::UnexpectedError(_) => 500,
        }
    }

    /// The reason each variant gives: its message.
    pub open spec fn reason_of(&self) -> Seq<char> {
        match self {
            RouteError::InvalidId => invalid_id_reason(),
            RouteError::ValidationError(m) => m@,
            RouteError::DuplicateCoin(id) => duplicate_coin_reason(*id),
            RouteError::ValueNotFound(name) => value_not_found_reason(name@),
            RouteError::UnknownPriceKey(m) => m@,
            RouteError::UnexpectedError(chain) => chain.message@,
        }
    }

    /// The causes behind each variant; only unexpected failures have some.
    pub open spec fn causes_of(&self) -> Seq<Seq<char>> {
        match self {
            RouteError::UnexpectedError(chain) => chain.cause_views(),
            _ => Seq::empty(),
        }
    }

    /// The text logged for the error: its reason and the chain of its causes.
    pub fn debug_text(&self) -> (text: String)
        ensures
            text@ == error_chain_text(self.reason_of(), self.causes_of()),
    {
        let reason = self.reason();
        match self {
            RouteError::UnexpectedError(chain) => error_chain_fmt(reason.as_str(), &chain.causes),
            _ => {
                let none: Vec<String> = Vec::new();
                assert(none@.map_values(|c: String| c@) == Seq::<Seq<char>>::empty());
                error_chain_fmt(reason.as_str(), &none)
            },
        }
    }
}

impl ApiErrorResponse for RouteError {
    open spec fn spec_status(&self) -> u16 {
        self.status_of()
    }

    open spec fn spec_reason(&self) -> Seq<char> {
        self.reason_of()
    }

    fn status(&self) -> (code: u16) {
        match self {
            RouteError::InvalidId => 404,
            RouteError::ValidationError(_) => 400,
            RouteError::DuplicateCoin(_) => 409,
            RouteError::ValueNotFound(_) => 500,
            RouteError::UnknownPriceKey(_) => 404,
            RouteError::UnexpectedError(_) => 500,
        }
    }

    fn reason(&self) -> (text: String) {
        match self {
            RouteError::InvalidId => String::from_str("The provided id is invalid"),
            RouteError::ValidationError(m) => m.clone(),
            RouteError::DuplicateCoin(id) => {
                let mut text = String::from_str("You already possess coin_id ");
                push_decimal_i64(&mut text, *id);
                text
            },
            RouteError::ValueNotFound(name) => {
                let mut text = String::from_str("No price found for ");
                text.append(name.as_str());
                text.append(". This should not happen");
                text
            },
            RouteError::UnknownPriceKey(m) => m.clone(),
            RouteError::UnexpectedError(chain) => chain.message.clone(),
        }
    }
}

/// Every endpoint error is answered with its own status, which is a valid
/// HTTP status.
pub proof fn lemma_route_error_status_kept(e: RouteError)
    ensures
        crate::errors::is_valid_status(e.status_of()),
        crate::errors::spec_response_status(e.status_of()) == e.status_of(),
{
}

/// The failure of the health check: the database cannot be reached, which is
/// answered with 503 Service Unavailable.
#[derive(Debug)]
pub enum HealthCheckError {
    UnexpectedError(ErrorChain),
}

impl ApiErrorResponse for HealthCheckError {
    open spec fn spec_status(&self) -> u16 {
        503
    }

    open spec fn spec_reason(&self) -> Seq<char> {
        match self {
            HealthCheckError::UnexpectedError(chain) => chain.message@,
        }
    }

    fn status(&self) -> (code: u16) {
        503
    }

    fn reason(&self) -> (text: String) {
        match self {
            HealthCheckError::UnexpectedError(chain) => chain.message.clone(),
        }
    }
}

} // verus!
