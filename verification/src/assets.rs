//! A user's assets: raw metal, cash and coins, as stored and as sent back.

use vstd::prelude::*;
use vstd::std_specs::convert::FromSpecImpl;
use crate::coins::{CoinResponse, CoinRow, coin_response_of};

verus! {

/// A raw-metal asset as stored.
#[derive(Debug)]
pub struct RawAsset {
    pub id: i64,
    pub name: String,
    pub possessed: i64,
    pub unit_weight: i64,
    pub composition: String,
    pub purity: i64,
}

/// A raw-metal asset as sent to clients.
#[derive(Debug)]
pub struct RawAssetsDto {
    pub id: i64,
    pub name: String,
    pub possessed: i64,
    pub unit_weight: i64,
    pub composition: String,
    pub purity: i64,
}

/// The same record under the name the current endpoints use.
pub type RawAssetResponse = RawAssetsDto;

/// A cash asset as stored.
#[derive(Debug)]
pub struct CashAsset {
    pub id: i64,
    pub name: String,
    pub possessed: i64,
    pub unit_value: i64,
}

/// A cash asset as sent to clients.
#[derive(Debug)]
pub struct CashAssetsDto {
    pub id: i64,
    pub name: String,
    pub possessed: i64,
    pub unit_value: i64,
}

/// The same record under the name the current endpoints use.
pub type CashAssetResponse = CashAssetsDto;

/// A coin asset joined with its coin and the images of the coin's faces.
#[derive(Debug)]
pub struct CoinAssetRow {
    pub possessed: i64,
    pub id: i64,
    pub numista_id: String,
    pub name: String,
    pub min_year: String,
    pub max_year: Option<String>,
    pub composition: String,
    pub purity: i64,
    pub obverse: Option<i64>,
    pub reverse: Option<i64>,
    pub edge: Option<i64>,
    pub o_image_url: Option<String>,
    pub o_thumbnail_url: Option<String>,
    pub o_lettering: Option<String>,
    pub o_description: Option<String>,
    pub o_copyright: Option<String>,
    pub r_image_url: Option<String>,
    pub r_thumbnail_url: Option<String>,
    pub r_lettering: Option<String>,
    pub r_description: Option<String>,
    pub r_copyright: Option<String>,
    pub e_image_url: Option<String>,
    pub e_thumbnail_url: Option<String>,
    pub e_lettering: Option<String>,
    pub e_description: Option<String>,
    pub e_copyright: Option<String>,
}

/// A coin asset as sent to clients: how many are possessed, and the coin.
#[derive(Debug)]
pub struct CoinAssetResponse {
    pub possessed: i64,
    pub coin_data: CoinResponse,
}

/// The same record, as the version-1 endpoints name it.
pub type CoinAssetsDto = CoinAssetResponse;

/// Every asset of a user.
#[derive(Debug)]
pub struct AssetsResponse {
    pub raw_assets: Vec<RawAssetsDto>,
    pub cash_assets: Vec<CashAssetsDto>,
    pub coin_assets: Vec<CoinAssetResponse>,
}

/// The same response, as the version-1 endpoints name it.
pub type AssetsDto = AssetsResponse;

/// The coin part of a coin-asset row.
pub open spec fn coin_row_of(row: CoinAssetRow) -> CoinRow {
    CoinRow {
        id: row.id,
        numista_id: row.numista_id,
        name: row.name,
        min_year: row.min_year,
        max_year: row.max_year,
        composition: row.composition,
        purity: row.purity,
        obverse: row.obverse,
        reverse: row.reverse,
        edge: row.edge,
        o_image_url: row.o_image_url,
        o_thumbnail_url: row.o_thumbnail_url,
        o_lettering: row.o_lettering,
        o_description: row.o_description,
        o_copyright: row.o_copyright,
        r_image_url: row.r_image_url,
        r_thumbnail_url: row.r_thumbnail_url,
        r_lettering: row.r_lettering,
        r_description: row.r_description,
        r_copyright: row.r_copyright,
        e_image_url: row.e_image_url,
        e_thumbnail_url: row.e_thumbnail_url,
        e_lettering: row.e_lettering,
        e_description: row.e_description,
        e_copyright: row.e_copyright,
    }
}

/// A coin asset's response: its count, and the response of its coin.
pub open spec fn coin_asset_response_of(row: CoinAssetRow) -> CoinAssetResponse {
    CoinAssetResponse { possessed: row.possessed, coin_data: coin_response_of(coin_row_of(row)) }
}

impl From<CoinAssetRow> for CoinAssetResponse {
    fn from(row: CoinAssetRow) -> (response: Self) {
        let possessed = row.possessed;
        let coin = CoinRow {
            id: row.id,
            numista_id: row.numista_id,
            name: row.name,
            min_year: row.min_year,
            max_year: row.max_year,
            composition: row.composition,
            purity: row.purity,
            obverse: row.obverse,
            reverse: row.reverse,
            edge: row.edge,
            o_image_url: row.o_image_url,
            o_thumbnail_url: row.o_thumbnail_url,
            o_lettering: row.o_lettering,
            o_description: row.o_description,
            o_copyright: row.o_copyright,
            r_image_url: row.r_image_url,
            r_thumbnail_url: row.r_thumbnail_url,
            r_lettering: row.r_lettering,
            r_description: row.r_description,
            r_copyright: row.r_copyright,
            e_image_url: row.e_image_url,
            e_thumbnail_url: row.e_thumbnail_url,
            e_lettering: row.e_lettering,
            e_description: row.e_description,
            e_copyright: row.e_copyright,
        };
        CoinAssetResponse { possessed, coin_data: CoinResponse::from(coin) }
    }
}

impl FromSpecImpl<CoinAssetRow> for CoinAssetResponse {
    open spec fn obeys_from_spec() -> bool {
        true
    }

    open spec fn from_spec(row: CoinAssetRow) -> CoinAssetResponse {
        coin_asset_response_of(row)
    }
}

/// A coin asset's coin data is exactly what the coin endpoint answers for its
/// coin: both go through the same conversion of a coin row.
pub proof fn lemma_coin_asset_uses_coin_response(row: CoinAssetRow)
    ensures
        coin_asset_response_of(row).coin_data == coin_response_of(coin_row_of(row)),
        coin_asset_response_of(row).possessed == row.possessed,
{
}

/// The response for a raw-metal asset: the same fields.
pub open spec fn raw_asset_response_of(asset: RawAsset) -> RawAssetsDto {
    RawAssetsDto {
        id: asset.id,
        name: asset.name,
        possessed: asset.possessed,
        unit_weight: asset.unit_weight,
        composition: asset.composition,
        purity: asset.purity,
    }
}

/// The response for a cash asset: the same fields.
pub open spec fn cash_asset_response_of(asset: CashAsset) -> CashAssetsDto {
    CashAssetsDto { id: asset.id, name: asset.name, possessed: asset.possessed, unit_value: asset.unit_value }
}

/// The response for a raw-metal asset holds the stored values field for
/// field.
pub proof fn lemma_raw_asset_response_fields(asset: RawAsset)
    ensures
        ({
            let r = raw_asset_response_of(asset);
            &&& r.id == asset.id
            &&& r.name == asset.name
            &&& r.possessed == asset.possessed
            &&& r.unit_weight == asset.unit_weight
            &&& r.composition == asset.composition
            &&& r.purity == asset.purity
        }),
{
}

/// The response for a cash asset holds the stored values field for field.
pub proof fn lemma_cash_asset_response_fields(asset: CashAsset)
    ensures
        ({
            let r = cash_asset_response_of(asset);
            &&& r.id == asset.id
            &&& r.name == asset.name
            &&& r.possessed == asset.possessed
            &&& r.unit_value == asset.unit_value
        }),
{
}

/// A coin asset's response holds its count, the coin's own columns, and for
/// each face the coin holds a key for, that face's joined image columns.
pub proof fn lemma_coin_asset_response_fields(row: CoinAssetRow)
    ensures
        ({
            let r = coin_asset_response_of(row);
            let c = r.coin_data;
            &&& r.possessed == row.possessed
            &&& c.id == row.id
            &&& c.numista_id == row.numista_id
            &&& c.name == row.name
            &&& c.min_year == row.min_year
            &&& c.max_year == row.max_year
            &&& c.composition == row.composition
            &&& c.purity == row.purity
            &&& (c.obverse is Some <==> row.obverse is Some)
            &&& (c.reverse is Some <==> row.reverse is Some)
            &&& (c.edge is Some <==> row.edge is Some)
            &&& c.obverse matches Some(f) ==> f.image_url == row.o_image_url && f.thumbnail_url == row.o_thumbnail_url
                && f.lettering == row.o_lettering && f.description == row.o_description && f.copyright
                == row.o_copyright
            &&& c.reverse matches Some(f) ==> f.image_url == row.r_image_url && f.thumbnail_url == row.r_thumbnail_url
                && f.lettering == row.r_lettering && f.description == row.r_description && f.copyright
                == row.r_copyright
            &&& c.edge matches Some(f) ==> f.image_url == row.e_image_url && f.thumbnail_url == row.e_thumbnail_url
                && f.lettering == row.e_lettering && f.description == row.e_description && f.copyright
                == row.e_copyright
        }),
{
}

/// The response for a raw-metal asset.
pub fn raw_asset_response(asset: RawAsset) -> (response: RawAssetsDto)
    ensures
        response == raw_asset_response_of(asset),
        response.id == asset.id && response.name == asset.name && response.possessed == asset.possessed
            && response.unit_weight == asset.unit_weight && response.composition == asset.composition
            && response.purity == asset.purity,
{
    RawAssetsDto {
        id: asset.id,
        name: asset.name,
        possessed: asset.possessed,
        unit_weight: asset.unit_weight,
        composition: asset.composition,
        purity: asset.purity,
    }
}

/// The response for a cash asset.
pub fn cash_asset_response(asset: CashAsset) -> (response: CashAssetsDto)
    ensures
        response == cash_asset_response_of(asset),
        response.id == asset.id && response.name == asset.name && response.possessed == asset.possessed
            && response.unit_value == asset.unit_value,
{
    CashAssetsDto { id: asset.id, name: asset.name, possessed: asset.possessed, unit_value: asset.unit_value }
}

/// Every asset of a user, each list in the order the database returned it.
pub fn assets_response(
    raw_assets: Vec<RawAsset>,
    cash_assets: Vec<CashAsset>,
    coin_assets: Vec<CoinAssetRow>,
) -> (response: AssetsResponse)
    ensures
        response.raw_assets@ == raw_assets@.map_values(|a: RawAsset| raw_asset_response_of(a)),
        response.cash_assets@ == cash_assets@.map_values(|a: CashAsset| cash_asset_response_of(a)),
        response.coin_assets@ == coin_assets@.map_values(|r: CoinAssetRow| coin_asset_response_of(r)),
{
    let mut raw_out: Vec<RawAssetsDto> = Vec::new();
    for a in it: raw_assets.into_iter()
        invariant
            raw_out@ == it.seq().take(it.index() as int).map_values(|a: RawAsset| raw_asset_response_of(a)),
    {
        let ghost i = it.index();
        raw_out.push(raw_asset_response(a));
        assert(it.seq().take(i + 1) == it.seq().take(i as int).push(it.seq()[i as int]));
    }
    let mut cash_out: Vec<CashAssetsDto> = Vec::new();
    for a in it: cash_assets.into_iter()
        invariant
            cash_out@ == it.seq().take(it.index() as int).map_values(|a: CashAsset| cash_asset_response_of(a)),
    {
        let ghost i = it.index();
        cash_out.push(cash_asset_response(a));
        assert(it.seq().take(i + 1) == it.seq().take(i as int).push(it.seq()[i as int]));
    }
    let mut coin_out: Vec<CoinAssetResponse> = Vec::new();
    for r in it: coin_assets.into_iter()
        invariant
            coin_out@ == it.seq().take(it.index() as int).map_values(|r: CoinAssetRow| coin_asset_response_of(r)),
    {
        let ghost i = it.index();
        coin_out.push(CoinAssetResponse::from(r));
        assert(it.seq().take(i + 1) == it.seq().take(i as int).push(it.seq()[i as int]));
    }
    AssetsResponse { raw_assets: raw_out, cash_assets: cash_out, coin_assets: coin_out }
}

} // verus!
