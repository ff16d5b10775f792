use api::errors::ApiErrorResponse;
use api::prices::{find_price, get_all_prices, get_all_trade_values, get_one_price};
use api::route_errors::RouteError;

fn names(v: &[&str]) -> Vec<String> {
    v.iter().map(|n| n.to_string()).collect()
}

#[test]
fn all_prices_found_in_any_order() {
    let rows = names(&["SP500", "Silver", "Gold"]);
    let Ok((g, s, p)) = get_all_prices(&rows) else { panic!("all prices are there") };
    assert_eq!((g, s, p), (2, 1, 0));
    assert_eq!(get_all_trade_values(&rows), (2, 1, 0));
}

#[test]
fn first_row_of_a_name_wins() {
    let rows = names(&["Gold", "Silver", "Gold", "SP500", "Silver"]);
    assert_eq!(get_all_prices(&rows).ok(), Some((0, 1, 3)));
    assert_eq!(find_price(&rows, &"Gold".to_string()), Some(0));
    assert_eq!(find_price(&rows, &"gold".to_string()), None);
}

#[test]
fn missing_price_reports_first_missing_name() {
    let rows = names(&["Gold", "SP500"]);
    let Err(e) = get_all_prices(&rows) else { panic!("silver is missing") };
    assert!(matches!(&e, RouteError::ValueNotFound(n) if n == "Silver"));
    assert_eq!(e.status(), 500);
    assert_eq!(e.reason(), "No price found for Silver. This should not happen");
    let Err(e) = get_all_prices(&names(&[])) else { panic!("all are missing") };
    assert!(matches!(&e, RouteError::ValueNotFound(n) if n == "Gold"));
}

#[test]
fn one_price_found_or_unexpected() {
    assert_eq!(get_one_price("Gold", Some(3u32)).ok(), Some(3));
    let Err(RouteError::UnexpectedError(chain)) = get_one_price::<u32>("Silver", None) else {
        panic!("missing row")
    };
    assert_eq!(chain.message, "No price found for query key Silver. This should not happen");
    assert!(chain.causes.is_empty());
}
