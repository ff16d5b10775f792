use api::assets::{assets_response, CashAsset, CoinAssetResponse, CoinAssetRow, RawAsset};
use api::coins::{
    convert_coin_model_to_coin_response, Coin, CoinImage, CoinResponse, CoinRow, ConversionStep,
};

fn s(v: &str) -> Option<String> {
    Some(v.to_string())
}

fn row(obverse: Option<i64>, reverse: Option<i64>, edge: Option<i64>) -> CoinRow {
    CoinRow {
        id: 3,
        numista_id: "N-1".to_string(),
        name: "20 Francs".to_string(),
        min_year: "1850".to_string(),
        max_year: None,
        composition: "gold".to_string(),
        purity: 900,
        obverse,
        reverse,
        edge,
        o_image_url: s("o.png"),
        o_thumbnail_url: s("o_t.png"),
        o_lettering: s("REPUBLIQUE"),
        o_description: None,
        o_copyright: None,
        r_image_url: None,
        r_thumbnail_url: None,
        r_lettering: None,
        r_description: None,
        r_copyright: None,
        e_image_url: s("e.png"),
        e_thumbnail_url: None,
        e_lettering: None,
        e_description: None,
        e_copyright: s("(c)"),
    }
}

#[test]
fn coin_response_sides_follow_keys() {
    let r = CoinResponse::from(row(Some(1), None, Some(9)));
    assert_eq!(r.id, 3);
    assert_eq!(r.name, "20 Francs");
    assert_eq!(r.purity, 900);
    let o = r.obverse.expect("obverse key present");
    assert_eq!(o.image_url, s("o.png"));
    assert_eq!(o.lettering, s("REPUBLIQUE"));
    assert!(r.reverse.is_none());
    let e = r.edge.expect("edge key present");
    assert_eq!(e.copyright, s("(c)"));
}

#[test]
fn coin_response_drops_images_without_key() {
    let r = CoinResponse::from(row(None, None, None));
    assert!(r.obverse.is_none() && r.reverse.is_none() && r.edge.is_none());
}

#[test]
fn coin_response_side_without_images_is_empty_side() {
    let r = CoinResponse::from(row(None, Some(2), None));
    let side = r.reverse.expect("reverse key present");
    assert!(side.image_url.is_none() && side.thumbnail_url.is_none() && side.copyright.is_none());
}

fn asset_row(possessed: i64) -> CoinAssetRow {
    let c = row(Some(1), Some(2), None);
    CoinAssetRow {
        possessed,
        id: c.id,
        numista_id: c.numista_id,
        name: c.name,
        min_year: c.min_year,
        max_year: c.max_year,
        composition: c.composition,
        purity: c.purity,
        obverse: c.obverse,
        reverse: c.reverse,
        edge: c.edge,
        o_image_url: c.o_image_url,
        o_thumbnail_url: c.o_thumbnail_url,
        o_lettering: c.o_lettering,
        o_description: c.o_description,
        o_copyright: c.o_copyright,
        r_image_url: c.r_image_url,
        r_thumbnail_url: c.r_thumbnail_url,
        r_lettering: c.r_lettering,
        r_description: c.r_description,
        r_copyright: c.r_copyright,
        e_image_url: c.e_image_url,
        e_thumbnail_url: c.e_thumbnail_url,
        e_lettering: c.e_lettering,
        e_description: c.e_description,
        e_copyright: c.e_copyright,
    }
}

#[test]
fn coin_asset_response_matches_coin_response() {
    let a = CoinAssetResponse::from(asset_row(4));
    let c = CoinResponse::from(row(Some(1), Some(2), None));
    assert_eq!(a.possessed, 4);
    assert_eq!(a.coin_data.id, c.id);
    assert_eq!(a.coin_data.obverse.is_some(), c.obverse.is_some());
    assert_eq!(a.coin_data.reverse.is_some(), c.reverse.is_some());
    assert_eq!(a.coin_data.edge.is_some(), c.edge.is_some());
    assert!(a.coin_data.edge.is_none());
}

#[test]
fn assets_keep_database_order() {
    let raw = vec![
        RawAsset { id: 1, name: "bar".into(), possessed: 2, unit_weight: 100, composition: "gold".into(), purity: 999 },
        RawAsset { id: 5, name: "coin".into(), possessed: 1, unit_weight: 31, composition: "silver".into(), purity: 925 },
    ];
    let cash = vec![CashAsset { id: 9, name: "euro".into(), possessed: 3, unit_value: 50 }];
    let r = assets_response(raw, cash, vec![asset_row(7)]);
    assert_eq!(r.raw_assets.len(), 2);
    assert_eq!((r.raw_assets[0].id, r.raw_assets[1].id), (1, 5));
    assert_eq!(r.raw_assets[1].composition, "silver");
    assert_eq!(r.cash_assets[0].unit_value, 50);
    assert_eq!(r.coin_assets[0].possessed, 7);
}

#[test]
fn assets_of_user_without_assets() {
    let r = assets_response(vec![], vec![], vec![]);
    assert!(r.raw_assets.is_empty() && r.cash_assets.is_empty() && r.coin_assets.is_empty());
}

fn coin(obverse: Option<i64>, reverse: Option<i64>, edge: Option<i64>) -> Coin {
    Coin {
        id: 11,
        numista_id: "N-11".into(),
        name: "Vreneli".into(),
        min_year: "1897".into(),
        max_year: Some("1949".into()),
        composition: "gold".into(),
        purity: 900,
        obverse,
        reverse,
        edge,
    }
}

fn image(url: &str) -> CoinImage {
    CoinImage { image_url: s(url), thumbnail_url: None, lettering: None, description: None, copyright: None }
}

#[test]
fn conversion_fetches_only_present_faces_in_order() {
    let step = convert_coin_model_to_coin_response(coin(Some(5), None, Some(7)));
    let ConversionStep::FetchImage(next, key) = step else { panic!("expected a fetch") };
    assert_eq!(key, 5);
    let ConversionStep::FetchImage(next, key) = next.resume(Ok(Some(image("front.png")))) else {
        panic!("expected a second fetch")
    };
    assert_eq!(key, 7);
    let ConversionStep::Finished(Ok(data)) = next.resume(Ok(None)) else { panic!("expected data") };
    assert_eq!(data.id, 11);
    assert_eq!(data.obverse.unwrap().image_url, s("front.png"));
    assert!(data.reverse.is_none());
    assert!(data.edge.is_none());
}

#[test]
fn conversion_without_keys_finishes_at_once() {
    let ConversionStep::Finished(Ok(data)) = convert_coin_model_to_coin_response(coin(None, None, None)) else {
        panic!("expected data")
    };
    assert!(data.obverse.is_none() && data.reverse.is_none() && data.edge.is_none());
    assert_eq!(data.max_year, s("1949"));
}

#[test]
fn conversion_failed_fetch_is_database_error() {
    let ConversionStep::FetchImage(next, key) = convert_coin_model_to_coin_response(coin(None, Some(8), None)) else {
        panic!("expected a fetch")
    };
    assert_eq!(key, 8);
    let ConversionStep::Finished(Err(e)) = next.resume(Err(())) else { panic!("expected an error") };
    assert_eq!((e.code, e.reason.as_str()), (500, "Database error"));
}
