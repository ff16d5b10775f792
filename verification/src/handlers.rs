//! What the asset, coin and price endpoints answer, given what the database
//! returned. Queries are made by the caller; each function here decides the
//! answer from their outcome.

use vstd::prelude::*;
use crate::assets::{
    CashAsset, CashAssetsDto, CoinAssetResponse, CoinAssetRow, RawAsset, RawAssetsDto,
    cash_asset_response, cash_asset_response_of, coin_asset_response_of, raw_asset_response,
    raw_asset_response_of,
};
use crate::coins::{CoinResponse, CoinRow, coin_response_of};
use crate::route_errors::{ErrorChain, RouteError};

verus! {

/// 201 Created: the answer to a successful creation.
pub open spec fn created() -> u16 {
    201
}

/// 204 No Content: the answer to a successful update or deletion.
pub open spec fn no_content() -> u16 {
    204
}

/// A request body that failed its checks is answered with its message.
pub fn validated<T>(checked: Result<T, String>) -> (r: Result<T, RouteError>)
    ensures
        checked matches Ok(v) ==> r == Ok::<T, RouteError>(v),
        checked matches Err(m) ==> (r matches Err(RouteError::ValidationError(e)) && e == m),
{
    match checked {
        Ok(v) => Ok(v),
        Err(m) => Err(RouteError::ValidationError(m)),
    }
}

/// A failed query, with the context the endpoint gives it.
pub fn unexpected(chain: ErrorChain) -> (r: RouteError)
    ensures
        r == RouteError::UnexpectedError(chain),
{
    RouteError::UnexpectedError(chain)
}

/// The answer to a request for one cash asset: the asset, or `InvalidId`
/// when the user has no cash asset with that id.
pub fn get_cash_asset(found: Option<CashAsset>) -> (r: Result<CashAssetsDto, RouteError>)
    ensures
        found matches Some(a) ==> r == Ok::<CashAssetsDto, RouteError>(cash_asset_response_of(a)),
        found is None ==> r matches Err(RouteError::InvalidId),
{
    match found {
        Some(a) => Ok(cash_asset_response(a)),
        None => Err(RouteError::InvalidId),
    }
}

/// The answer to a request for one raw-metal asset: the asset, or
/// `InvalidId` when the user has no raw-metal asset with that id.
pub fn get_raw_asset(found: Option<RawAsset>) -> (r: Result<RawAssetsDto, RouteError>)
    ensures
        found matches Some(a) ==> r == Ok::<RawAssetsDto, RouteError>(raw_asset_response_of(a)),
        found is None ==> r matches Err(RouteError::InvalidId),
{
    match found {
        Some(a) => Ok(raw_asset_response(a)),
        None => Err(RouteError::InvalidId),
    }
}

/// The answer to a request for one coin asset: the asset with its coin, or
/// `InvalidId` when the user has no asset for that coin.
pub fn get_coin_asset(found: Option<CoinAssetRow>) -> (r: Result<CoinAssetResponse, RouteError>)
    ensures
        found matches Some(row) ==> r == Ok::<CoinAssetResponse, RouteError>(coin_asset_response_of(row)),
        found is None ==> r matches Err(RouteError::InvalidId),
{
    match found {
        Some(row) => Ok(CoinAssetResponse::from(row)),
        None => Err(RouteError::InvalidId),
    }
}

/// The answer to a request for one coin: the coin, or `InvalidId` when no
/// coin has that id.
pub fn get_coin(found: Option<CoinRow>) -> (r: Result<CoinResponse, RouteError>)
    ensures
        found matches Some(row) ==> r == Ok::<CoinResponse, RouteError>(coin_response_of(row)),
        found is None ==> r matches Err(RouteError::InvalidId),
{
    match found {
        Some(row) => Ok(CoinResponse::from(row)),
        None => Err(RouteError::InvalidId),
    }
}

/// The answer to a coin search: every coin found, in the order of the
/// search ranking.
pub fn search_coins(rows: Vec<CoinRow>) -> (coins: Vec<CoinResponse>)
    ensures
        coins@ == rows@.map_values(|row: CoinRow| coin_response_of(row)),
{
    let mut coins: Vec<CoinResponse> = Vec::new();
    for row in it: rows.into_iter()
        invariant
            coins@ == it.seq().take(it.index() as int).map_values(|row: CoinRow| coin_response_of(row)),
    {
        let ghost i = it.index();
        coins.push(CoinResponse::from(row));
        assert(it.seq().take(i + 1) == it.seq().take(i as int).push(it.seq()[i as int]));
    }
    coins
}

/// The answer to an update, given how many rows it changed: none means that
/// no asset with that id belongs to the user.
pub fn updated(rows_affected: u64) -> (r: Result<u16, RouteError>)
    ensures
        rows_affected == 0 ==> r matches Err(RouteError::InvalidId),
        rows_affected > 0 ==> r == Ok::<u16, RouteError>(no_content()),
{
    if rows_affected == 0 {
        Err(RouteError::InvalidId)
    } else {
        Ok(204)
    }
}

/// Why an insertion failed: the database refused a second row for the same
/// key, or anything else.
#[derive(Debug)]
pub enum InsertFailure {
    UniqueViolation(ErrorChain),
    Other(ErrorChain),
}

/// The answer to the creation of a coin asset: a second asset for the same
/// coin is a conflict; any other failure is unexpected.
pub fn create_coin_asset(coin_id: i64, inserted: Result<(), InsertFailure>) -> (r: Result<u16, RouteError>)
    ensures
        inserted is Ok ==> r == Ok::<u16, RouteError>(created()),
        inserted matches Err(InsertFailure::UniqueViolation(_)) ==> r == Err::<u16, RouteError>(
            RouteError::DuplicateCoin(coin_id),
        ),
        inserted matches Err(InsertFailure::Other(chain)) ==> r == Err::<u16, RouteError>(
            RouteError::UnexpectedError(chain),
        ),
{
    match inserted {
        Ok(()) => Ok(201),
        Err(InsertFailure::UniqueViolation(_)) => Err(RouteError::DuplicateCoin(coin_id)),
        Err(InsertFailure::Other(chain)) => Err(RouteError::UnexpectedError(chain)),
    }
}

} // verus!
