use api::assets::{CashAsset, RawAsset};
use api::errors::ApiErrorResponse;
use api::handlers;
use api::handlers::InsertFailure;
use api::handlers_v1::{self, CoinInsertFailure, SqlPiece};
use api::requests::UpdateRawAsset;
use api::route_errors::{ErrorChain, RouteError};

fn chain(message: &str) -> ErrorChain {
    ErrorChain { message: message.to_string(), causes: vec![] }
}

#[test]
fn update_without_matching_row_is_invalid_id() {
    let Err(e) = handlers::updated(0) else { panic!("no row") };
    assert!(matches!(e, RouteError::InvalidId));
    assert_eq!(e.status(), 404);
    assert_eq!(handlers::updated(1).ok(), Some(204));
}

#[test]
fn lookups_by_id() {
    assert!(matches!(handlers::get_cash_asset(None), Err(RouteError::InvalidId)));
    let a = handlers::get_cash_asset(Some(CashAsset { id: 1, name: "c".into(), possessed: 2, unit_value: 3 })).unwrap();
    assert_eq!((a.id, a.possessed, a.unit_value), (1, 2, 3));
    let r = handlers::get_raw_asset(Some(RawAsset {
        id: 4,
        name: "r".into(),
        possessed: 1,
        unit_weight: 2,
        composition: "gold".into(),
        purity: 3,
    }))
    .unwrap();
    assert_eq!((r.id, r.unit_weight, r.purity), (4, 2, 3));
    assert!(matches!(handlers::get_coin(None), Err(RouteError::InvalidId)));
    assert!(matches!(handlers::get_coin_asset(None), Err(RouteError::InvalidId)));
}

#[test]
fn validation_errors_are_bad_requests() {
    let Err(e) = handlers::validated::<i64>(Err("possessed must be >= 1".into())) else { panic!() };
    assert_eq!((e.status(), e.reason().as_str()), (400, "possessed must be >= 1"));
    assert_eq!(handlers::validated::<i64>(Ok(3)).ok(), Some(3));
}

#[test]
fn create_coin_asset_outcomes() {
    assert_eq!(handlers::create_coin_asset(5, Ok(())).ok(), Some(201));
    let Err(e) = handlers::create_coin_asset(5, Err(InsertFailure::UniqueViolation(chain("dup")))) else { panic!() };
    assert!(matches!(e, RouteError::DuplicateCoin(5)));
    assert_eq!((e.status(), e.reason().as_str()), (409, "You already possess coin_id 5"));
    let Err(e) = handlers::create_coin_asset(5, Err(InsertFailure::Other(chain("Failed to insert coin asset")))) else {
        panic!()
    };
    assert_eq!((e.status(), e.reason().as_str()), (500, "Failed to insert coin asset"));
}

#[test]
fn first_version_lookups() {
    let Err(e) = handlers_v1::get_cash_asset(17, Ok(None)) else { panic!() };
    assert_eq!((e.code, e.reason.as_str()), (404, "The provided id is invalid: 17"));
    let Err(e) = handlers_v1::get_raw_asset(-3, Ok(None)) else { panic!() };
    assert_eq!(e.reason, "The provided id is invalid: -3");
    let Err(e) = handlers_v1::get_raw_asset(3, Err(())) else { panic!() };
    assert_eq!((e.code, e.reason.as_str()), (500, "Database error"));
    let Err(e) = handlers_v1::expected_row::<i64>(Ok(None)) else { panic!() };
    assert_eq!(e.code, 500);
    let Err(e) = handlers_v1::known_query::<i64>(Err("copper".into())) else { panic!() };
    assert_eq!((e.code, e.reason.as_str()), (400, "Unknown query: copper"));
}

#[test]
fn first_version_coin_asset_creation() {
    assert_eq!(handlers_v1::create_coin_asset(9, Ok(())).ok(), Some(201));
    let Err(e) = handlers_v1::create_coin_asset(9, Err(CoinInsertFailure::UniqueViolation)) else { panic!() };
    assert_eq!((e.code, e.reason.as_str()), (400, "Invalid value: you already possess coin_id 9"));
    let Err(e) = handlers_v1::create_coin_asset(9, Err(CoinInsertFailure::Other)) else { panic!() };
    assert_eq!(e.code, 500);
}

fn render(pieces: &[SqlPiece]) -> (String, Vec<String>) {
    let mut sql = String::new();
    let mut binds = vec![];
    for p in pieces {
        match p {
            SqlPiece::Text(t) => sql.push_str(t),
            SqlPiece::BindText(t) => {
                sql.push('?');
                binds.push(t.clone());
            }
            SqlPiece::BindInt(v) => {
                sql.push('?');
                binds.push(v.to_string());
            }
        }
    }
    (sql, binds)
}

#[test]
fn cash_asset_update_statement() {
    let pieces = handlers_v1::update_a_cash_asset(2, 8, Some("Euro".into()), None, Some(20));
    let (sql, binds) = render(&pieces);
    assert_eq!(sql, "UPDATE cash_assets SET name = ?, unit_value = ? WHERE id = ? AND user_id = ?");
    assert_eq!(binds, vec!["Euro", "20", "8", "2"]);
    let (sql, _) = render(&handlers_v1::update_a_cash_asset(2, 8, None, Some(3), None));
    assert_eq!(sql, "UPDATE cash_assets SET possessed = ? WHERE id = ? AND user_id = ?");
}

#[test]
fn cash_asset_update_plan() {
    let Err(e) = handlers_v1::update_cash_asset(1, 1, None, Some(0), Some(-5)) else { panic!() };
    assert_eq!(e.reason, "Invalid value: possessed must be >= 1");
    let Err(e) = handlers_v1::update_cash_asset(1, 1, None, Some(2), Some(-5)) else { panic!() };
    assert_eq!(e.reason, "Invalid value: unit_value must be >= 0");
    assert!(matches!(handlers_v1::update_cash_asset(1, 1, None, None, None), Ok(None)));
    let Ok(Some(pieces)) = handlers_v1::update_cash_asset(1, 1, None, Some(2), None) else { panic!() };
    assert_eq!(render(&pieces).0, "UPDATE cash_assets SET possessed = ? WHERE id = ? AND user_id = ?");
}

#[test]
fn first_version_update_decisions() {
    assert!(handlers_v1::coin_asset_update_needed(2, 3));
    assert!(!handlers_v1::coin_asset_update_needed(3, 3));
    let none = UpdateRawAsset { name: None, possessed: None, unit_weight: None, composition: None, purity: None };
    assert!(!handlers_v1::raw_asset_update_needed(&none));
    let some = UpdateRawAsset { purity: Some(999), ..none };
    assert!(handlers_v1::raw_asset_update_needed(&some));
    assert_eq!(handlers_v1::written(204, Ok(())).ok(), Some(204));
    let Err(e) = handlers_v1::written(201, Err(())) else { panic!() };
    assert_eq!(e.reason, "Database error");
}

#[test]
fn search_keeps_ranking_order() {
    fn row(id: i64, obverse: Option<i64>) -> api::coins::CoinRow {
        api::coins::CoinRow {
            id,
            numista_id: format!("N{id}"),
            name: format!("coin {id}"),
            min_year: "1900".into(),
            max_year: None,
            composition: "silver".into(),
            purity: 835,
            obverse,
            reverse: None,
            edge: None,
            o_image_url: Some("o".into()),
            o_thumbnail_url: None,
            o_lettering: None,
            o_description: None,
            o_copyright: None,
            r_image_url: None,
            r_thumbnail_url: None,
            r_lettering: None,
            r_description: None,
            r_copyright: None,
            e_image_url: None,
            e_thumbnail_url: None,
            e_lettering: None,
            e_description: None,
            e_copyright: None,
        }
    }
    let coins = handlers::search_coins(vec![row(9, Some(1)), row(2, None)]);
    assert_eq!(coins.len(), 2);
    assert_eq!((coins[0].id, coins[1].id), (9, 2));
    assert!(coins[0].obverse.is_some());
    assert!(coins[1].obverse.is_none());
    assert!(handlers::search_coins(vec![]).is_empty());
}

#[test]
fn first_version_found_rows() {
    assert_eq!(handlers_v1::found_by_id(1, Ok(Some(5u8))).ok(), Some(5));
    assert_eq!(handlers_v1::queried(Ok(7u8)).ok(), Some(7));
    let Err(e) = handlers_v1::queried::<u8>(Err(())) else { panic!() };
    assert_eq!(e.code, 500);
    assert_eq!(handlers_v1::expected_row(Ok(Some(1u8))).ok(), Some(1));
    let Err(e) = handlers_v1::expected_row::<u8>(Err(())) else { panic!() };
    assert_eq!(e.reason, "Database error");
    assert_eq!(handlers_v1::checked::<u8>(Ok(4)).ok(), Some(4));
    let Err(e) = handlers_v1::checked::<u8>(Err("name is empty".into())) else { panic!() };
    assert_eq!(e.reason, "Invalid value: name is empty");
}

#[test]
fn first_version_coin_asset_data() {
    let e = api::api_error::APIError::database_error();
    let Err(err) = handlers_v1::coin_asset_data(3, Err(e)) else { panic!() };
    assert_eq!(err.code, 500);
    let data = api::coins::CoinResponse {
        id: 1,
        numista_id: "N".into(),
        name: "n".into(),
        min_year: "1".into(),
        max_year: None,
        composition: "c".into(),
        purity: 1,
        obverse: None,
        reverse: None,
        edge: None,
    };
    let asset = handlers_v1::coin_asset_data(3, Ok(data)).unwrap();
    assert_eq!((asset.possessed, asset.coin_data.id), (3, 1));
}
