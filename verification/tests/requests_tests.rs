use api::requests::{
    create_cash_asset, create_coin_asset, create_raw_asset, parse_possessed, parse_unit_value,
    update_cash_asset, update_raw_asset,
};

#[test]
fn possessed_must_be_positive() {
    assert_eq!(parse_possessed(1), Ok(1));
    assert_eq!(parse_possessed(0), Err("possessed must be >= 1".to_string()));
    assert_eq!(parse_possessed(i64::MIN), Err("possessed must be >= 1".to_string()));
}

#[test]
fn unit_value_must_not_be_negative() {
    assert_eq!(parse_unit_value(0), Ok(0));
    assert_eq!(parse_unit_value(-1), Err("unit_value must be >= 0".to_string()));
}

#[test]
fn create_cash_asset_first_error_wins() {
    let ok = create_cash_asset(Ok("Euro".into()), 2, 50).unwrap();
    assert_eq!((ok.name.as_str(), ok.possessed, ok.unit_value), ("Euro", 2, 50));
    assert_eq!(create_cash_asset(Err("bad name".into()), 0, -1).err(), Some("bad name".to_string()));
    assert_eq!(create_cash_asset(Ok("x".into()), 0, -1).err(), Some("possessed must be >= 1".to_string()));
    assert_eq!(create_cash_asset(Ok("x".into()), 1, -1).err(), Some("unit_value must be >= 0".to_string()));
}

#[test]
fn update_cash_asset_checks_present_fields() {
    let u = update_cash_asset(None, None, None).unwrap();
    assert!(u.name.is_none() && u.possessed.is_none() && u.unit_value.is_none());
    let u = update_cash_asset(Some(Ok("n".into())), None, Some(7)).unwrap();
    assert_eq!((u.name.as_deref(), u.possessed, u.unit_value), (Some("n"), None, Some(7)));
    assert_eq!(update_cash_asset(None, Some(0), None).err(), Some("possessed must be >= 1".to_string()));
    assert_eq!(update_cash_asset(Some(Err("e".into())), Some(0), None).err(), Some("e".to_string()));
}

#[test]
fn create_coin_asset_checks_count() {
    let c = create_coin_asset(12, 3).unwrap();
    assert_eq!((c.coin_id, c.possessed), (12, 3));
    assert_eq!(create_coin_asset(12, -4).err(), Some("possessed must be >= 1".to_string()));
}

#[test]
fn raw_asset_requests() {
    let c = create_raw_asset(Ok("bar".into()), 1, Ok(100), Ok("gold".into()), Ok(999)).unwrap();
    assert_eq!((c.unit_weight, c.purity, c.composition.as_str()), (100, 999, "gold"));
    assert_eq!(
        create_raw_asset(Ok("bar".into()), 1, Err("w".into()), Err("c".into()), Ok(1)).err(),
        Some("w".to_string())
    );
    assert_eq!(
        create_raw_asset(Ok("bar".into()), 0, Err("w".into()), Ok("c".into()), Ok(1)).err(),
        Some("possessed must be >= 1".to_string())
    );
    let u = update_raw_asset(None, None, None, Some(Ok("silver".into())), None).unwrap();
    assert_eq!(u.composition.as_deref(), Some("silver"));
    assert_eq!(update_raw_asset(None, None, None, None, Some(Err("p".into()))).err(), Some("p".to_string()));
}
