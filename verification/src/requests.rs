//! Requests to create or change an asset, checked field by field; the first
//! field that fails its check (in the order of the request's fields) gives
//! the error message.
//!
//! The count of a possession and the unit value of cash are checked here.
//! The other fields (names, weights, compositions, purities) are checked by
//! their own domain types; their outcome is handed in as a `Result` whose
//! error is the message given to the client.

use vstd::prelude::*;
use vstd::string::StringExecFns;

verus! {

/// The message for a count below one.
pub open spec fn possessed_message() -> Seq<char> {
    "possessed must be >= 1"@
}

/// The message for a negative unit value.
pub open spec fn unit_value_message() -> Seq<char> {
    "unit_value must be >= 0"@
}

/// An outcome whose error is an owned message, read as characters.
pub open spec fn outcome<T>(r: Result<T, String>) -> Result<T, Seq<char>> {
    match r {
        Ok(v) => Ok(v),
        Err(m) => Err(m@),
    }
}

/// The count check: at least one.
pub open spec fn possessed_check(possessed: i64) -> Result<i64, Seq<char>> {
    if possessed >= 1 {
        Ok(possessed)
    } else {
        Err(possessed_message())
    }
}

/// The unit-value check: not negative.
pub open spec fn unit_value_check(unit_value: i64) -> Result<i64, Seq<char>> {
    if unit_value >= 0 {
        Ok(unit_value)
    } else {
        Err(unit_value_message())
    }
}

/// Checks a count of possessed items.
pub fn parse_possessed(possessed: i64) -> (r: Result<i64, String>)
    ensures
        outcome(r) == possessed_check(possessed),
        r is Ok <==> possessed >= 1,
        r matches Ok(p) ==> p == possessed,
{
    if possessed < 1 {
        Err(String::from_str("possessed must be >= 1"))
    } else {
        Ok(possessed)
    }
}

/// Checks a unit value of cash.
pub fn parse_unit_value(unit_value: i64) -> (r: Result<i64, String>)
    ensures
        outcome(r) == unit_value_check(unit_value),
        r is Ok <==> unit_value >= 0,
        r matches Ok(v) ==> v == unit_value,
{
    if unit_value < 0 {
        Err(String::from_str("unit_value must be >= 0"))
    } else {
        Ok(unit_value)
    }
}

/// The value of an optional field that was given and passed its check.
pub open spec fn given_value<T, E>(r: Option<Result<T, E>>) -> Option<T> {
    match r {
        Some(Ok(v)) => Some(v),
        _ => None,
    }
}

/// A cash asset to create.
#[derive(Debug)]
pub struct CreateCashAsset {
    pub name: String,
    pub possessed: i64,
    pub unit_value: i64,
}

/// Changes to a cash asset; absent fields keep their value.
#[derive(Debug)]
pub struct UpdateCashAsset {
    pub name: Option<String>,
    pub possessed: Option<i64>,
    pub unit_value: Option<i64>,
}

/// A coin asset to create.
#[derive(Debug)]
pub struct CreateCoinAsset {
    pub coin_id: i64,
    pub possessed: i64,
}

/// A raw-metal asset to create.
#[derive(Debug)]
pub struct CreateRawAsset {
    pub name: String,
    pub possessed: i64,
    pub unit_weight: i64,
    pub composition: String,
    pub purity: i64,
}

/// Changes to a raw-metal asset; absent fields keep their value.
#[derive(Debug)]
pub struct UpdateRawAsset {
    pub name: Option<String>,
    pub possessed: Option<i64>,
    pub unit_weight: Option<i64>,
    pub composition: Option<String>,
    pub purity: Option<i64>,
}

/// The check of an optional field: absent passes as absent.
pub open spec fn optional_check<T>(r: Option<Result<T, Seq<char>>>) -> Result<Option<T>, Seq<char>> {
    match r {
        None => Ok(None),
        Some(Ok(v)) => Ok(Some(v)),
        Some(Err(m)) => Err(m),
    }
}

/// An optional field's outcome, read as characters.
pub open spec fn optional_outcome<T>(r: Option<Result<T, String>>) -> Option<Result<T, Seq<char>>> {
    match r {
        None => None,
        Some(x) => Some(outcome(x)),
    }
}

/// The optional count, checked when present.
pub open spec fn optional_possessed(p: Option<i64>) -> Option<Result<i64, Seq<char>>> {
    match p {
        None => None,
        Some(v) => Some(possessed_check(v)),
    }
}

/// The optional unit value, checked when present.
pub open spec fn optional_unit_value(v: Option<i64>) -> Option<Result<i64, Seq<char>>> {
    match v {
        None => None,
        Some(x) => Some(unit_value_check(x)),
    }
}

fn transpose<T>(r: Option<Result<T, String>>) -> (out: Result<Option<T>, String>)
    ensures
        outcome(out) == optional_check(optional_outcome(r)),
{
    match r {
        None => Ok(None),
        Some(Ok(v)) => Ok(Some(v)),
        Some(Err(m)) => Err(m),
    }
}

fn check_optional_possessed(p: Option<i64>) -> (out: Result<Option<i64>, String>)
    ensures
        outcome(out) == optional_check(optional_possessed(p)),
{
    match p {
        None => Ok(None),
        Some(v) => match parse_possessed(v) {
            Ok(x) => Ok(Some(x)),
            Err(m) => Err(m),
        },
    }
}

fn check_optional_unit_value(u: Option<i64>) -> (out: Result<Option<i64>, String>)
    ensures
        outcome(out) == optional_check(optional_unit_value(u)),
{
    match u {
        None => Ok(None),
        Some(v) => match parse_unit_value(v) {
            Ok(x) => Ok(Some(x)),
            Err(m) => Err(m),
        },
    }
}

/// A cash asset to create, from the checked name and the raw count and value.
pub open spec fn create_cash_asset_spec(
    name: Result<String, Seq<char>>,
    possessed: i64,
    unit_value: i64,
) -> Result<CreateCashAsset, Seq<char>> {
    match (name, possessed_check(possessed), unit_value_check(unit_value)) {
        (Err(m), _, _) => Err(m),
        (Ok(_), Err(m), _) => Err(m),
        (Ok(_), Ok(_), Err(m)) => Err(m),
        (Ok(n), Ok(p), Ok(v)) => Ok(CreateCashAsset { name: n, possessed: p, unit_value: v }),
    }
}

/// Builds a cash asset to create; the first failing field gives the error.
pub fn create_cash_asset(name: Result<String, String>, possessed: i64, unit_value: i64) -> (r: Result<CreateCashAsset, String>)
    ensures
        outcome(r) == create_cash_asset_spec(outcome(name), possessed, unit_value),
        r is Ok <==> (name is Ok && possessed >= 1 && unit_value >= 0),
        r matches Ok(a) ==> (name matches Ok(n) && a.name == n) && a.possessed == possessed && a.unit_value
            == unit_value,
{
    let name = name?;
    let possessed = parse_possessed(possessed)?;
    let unit_value = parse_unit_value(unit_value)?;
    Ok(CreateCashAsset { name, possessed, unit_value })
}

/// Changes to a cash asset, from the checked name and the raw count and value.
pub open spec fn update_cash_asset_spec(
    name: Option<Result<String, Seq<char>>>,
    possessed: Option<i64>,
    unit_value: Option<i64>,
) -> Result<UpdateCashAsset, Seq<char>> {
    match (
        optional_check(name),
        optional_check(optional_possessed(possessed)),
        optional_check(optional_unit_value(unit_value)),
    ) {
        (Err(m), _, _) => Err(m),
        (Ok(_), Err(m), _) => Err(m),
        (Ok(_), Ok(_), Err(m)) => Err(m),
        (Ok(n), Ok(p), Ok(v)) => Ok(UpdateCashAsset { name: n, possessed: p, unit_value: v }),
    }
}

/// Builds the changes to a cash asset; the first failing field present gives
/// the error.
pub fn update_cash_asset(
    name: Option<Result<String, String>>,
    possessed: Option<i64>,
    unit_value: Option<i64>,
) -> (r: Result<UpdateCashAsset, String>)
    ensures
        outcome(r) == update_cash_asset_spec(optional_outcome(name), possessed, unit_value),
        r is Ok <==> (!(name matches Some(Err(_))) && !(possessed matches Some(p) && p < 1) && !(
        unit_value matches Some(v) && v < 0)),
        r matches Ok(u) ==> u.name == given_value(name) && u.possessed == possessed && u.unit_value == unit_value,
{
    let name = transpose(name)?;
    let possessed = check_optional_possessed(possessed)?;
    let unit_value = check_optional_unit_value(unit_value)?;
    Ok(UpdateCashAsset { name, possessed, unit_value })
}

/// A coin asset to create: the coin and its checked count.
pub open spec fn create_coin_asset_spec(coin_id: i64, possessed: i64) -> Result<CreateCoinAsset, Seq<char>> {
    match possessed_check(possessed) {
        Err(m) => Err(m),
        Ok(p) => Ok(CreateCoinAsset { coin_id, possessed: p }),
    }
}

/// Builds a coin asset to create.
pub fn create_coin_asset(coin_id: i64, possessed: i64) -> (r: Result<CreateCoinAsset, String>)
    ensures
        outcome(r) == create_coin_asset_spec(coin_id, possessed),
        r is Ok <==> possessed >= 1,
        r matches Ok(c) ==> c.coin_id == coin_id && c.possessed == possessed,
{
    let possessed = parse_possessed(possessed)?;
    Ok(CreateCoinAsset { coin_id, possessed })
}

/// A raw-metal asset to create, from the checked fields and the raw count.
pub open spec fn create_raw_asset_spec(
    name: Result<String, Seq<char>>,
    possessed: i64,
    unit_weight: Result<i64, Seq<char>>,
    composition: Result<String, Seq<char>>,
    purity: Result<i64, Seq<char>>,
) -> Result<CreateRawAsset, Seq<char>> {
    match (name, possessed_check(possessed), unit_weight, composition, purity) {
        (Err(m), _, _, _, _) => Err(m),
        (Ok(_), Err(m), _, _, _) => Err(m),
        (Ok(_), Ok(_), Err(m), _, _) => Err(m),
        (Ok(_), Ok(_), Ok(_), Err(m), _) => Err(m),
        (Ok(_), Ok(_), Ok(_), Ok(_), Err(m)) => Err(m),
        (Ok(n), Ok(p), Ok(w), Ok(c), Ok(q)) => Ok(
            CreateRawAsset { name: n, possessed: p, unit_weight: w, composition: c, purity: q },
        ),
    }
}

/// Builds a raw-metal asset to create; the first failing field gives the
/// error.
pub fn create_raw_asset(
    name: Result<String, String>,
    possessed: i64,
    unit_weight: Result<i64, String>,
    composition: Result<String, String>,
    purity: Result<i64, String>,
) -> (r: Result<CreateRawAsset, String>)
    ensures
        outcome(r) == create_raw_asset_spec(
            outcome(name),
            possessed,
            outcome(unit_weight),
            outcome(composition),
            outcome(purity),
        ),
        r is Ok <==> (name is Ok && possessed >= 1 && unit_weight is Ok && composition is Ok && purity is Ok),
        r matches Ok(a) ==> (name matches Ok(n) && a.name == n) && a.possessed == possessed && (
        unit_weight matches Ok(w) && a.unit_weight == w) && (composition matches Ok(c) && a.composition == c) && (
        purity matches Ok(q) && a.purity == q),
{
    let name = name?;
    let possessed = parse_possessed(possessed)?;
    let unit_weight = unit_weight?;
    let composition = composition?;
    let purity = purity?;
    Ok(CreateRawAsset { name, possessed, unit_weight, composition, purity })
}

/// Changes to a raw-metal asset, from the checked fields and the raw count.
pub open spec fn update_raw_asset_spec(
    name: Option<Result<String, Seq<char>>>,
    possessed: Option<i64>,
    unit_weight: Option<Result<i64, Seq<char>>>,
    composition: Option<Result<String, Seq<char>>>,
    purity: Option<Result<i64, Seq<char>>>,
) -> Result<UpdateRawAsset, Seq<char>> {
    match (
        optional_check(name),
        optional_check(optional_possessed(possessed)),
        optional_check(unit_weight),
        optional_check(composition),
        optional_check(purity),
    ) {
        (Err(m), _, _, _, _) => Err(m),
        (Ok(_), Err(m), _, _, _) => Err(m),
        (Ok(_), Ok(_), Err(m), _, _) => Err(m),
        (Ok(_), Ok(_), Ok(_), Err(m), _) => Err(m),
        (Ok(_), Ok(_), Ok(_), Ok(_), Err(m)) => Err(m),
        (Ok(n), Ok(p), Ok(w), Ok(c), Ok(q)) => Ok(
            UpdateRawAsset { name: n, possessed: p, unit_weight: w, composition: c, purity: q },
        ),
    }
}

/// Builds the changes to a raw-metal asset; the first failing field present
/// gives the error.
pub fn update_raw_asset(
    name: Option<Result<String, String>>,
    possessed: Option<i64>,
    unit_weight: Option<Result<i64, String>>,
    composition: Option<Result<String, String>>,
    purity: Option<Result<i64, String>>,
) -> (r: Result<UpdateRawAsset, String>)
    ensures
        outcome(r) == update_raw_asset_spec(
            optional_outcome(name),
            possessed,
            optional_outcome(unit_weight),
            optional_outcome(composition),
            optional_outcome(purity),
        ),
        r is Ok <==> (!(name matches Some(Err(_))) && !(possessed matches Some(p) && p < 1) && !(
        unit_weight matches Some(Err(_))) && !(composition matches Some(Err(_))) && !(purity matches Some(Err(_)))),
        r matches Ok(u) ==> u.name == given_value(name) && u.possessed == possessed && u.unit_weight == given_value(
            unit_weight,
        ) && u.composition == given_value(composition) && u.purity == given_value(purity),
{
    let name = transpose(name)?;
    let possessed = check_optional_possessed(possessed)?;
    let unit_weight = transpose(unit_weight)?;
    let composition = transpose(composition)?;
    let purity = transpose(purity)?;
    Ok(UpdateRawAsset { name, possessed, unit_weight, composition, purity })
}

/// The changes to a raw-metal asset carry every checked field in the field
/// of the same name: a change to the unit weight changes the unit weight,
/// and so on; fields not given stay unchanged.
pub proof fn lemma_update_raw_asset_fields(
    name: Option<Result<String, Seq<char>>>,
    possessed: Option<i64>,
    unit_weight: Option<Result<i64, Seq<char>>>,
    composition: Option<Result<String, Seq<char>>>,
    purity: Option<Result<i64, Seq<char>>>,
)
    ensures
        update_raw_asset_spec(name, possessed, unit_weight, composition, purity) is Ok <==> (!(name matches Some(
            Err(_),
        )) && !(possessed matches Some(p) && p < 1) && !(unit_weight matches Some(Err(_))) && !(
        composition matches Some(Err(_))) && !(purity matches Some(Err(_)))),
        update_raw_asset_spec(name, possessed, unit_weight, composition, purity) matches Ok(u) ==> u.name
            == given_value(name) && u.possessed == possessed && u.unit_weight == given_value(unit_weight)
            && u.composition == given_value(composition) && u.purity == given_value(purity),
{
}

/// A raw-metal asset to create carries every checked field in the field of
/// the same name.
pub proof fn lemma_create_raw_asset_fields(
    name: Result<String, Seq<char>>,
    possessed: i64,
    unit_weight: Result<i64, Seq<char>>,
    composition: Result<String, Seq<char>>,
    purity: Result<i64, Seq<char>>,
)
    ensures
        create_raw_asset_spec(name, possessed, unit_weight, composition, purity) is Ok <==> (name is Ok
            && possessed >= 1 && unit_weight is Ok && composition is Ok && purity is Ok),
        create_raw_asset_spec(name, possessed, unit_weight, composition, purity) matches Ok(a) ==> (name matches Ok(
            n,
        ) && a.name == n) && a.possessed == possessed && (unit_weight matches Ok(w) && a.unit_weight == w) && (
        composition matches Ok(c) && a.composition == c) && (purity matches Ok(q) && a.purity == q),
{
}

/// The changes to a cash asset carry every checked field in the field of
/// the same name.
pub proof fn lemma_update_cash_asset_fields(
    name: Option<Result<String, Seq<char>>>,
    possessed: Option<i64>,
    unit_value: Option<i64>,
)
    ensures
        update_cash_asset_spec(name, possessed, unit_value) is Ok <==> (!(name matches Some(Err(_))) && !(
        possessed matches Some(p) && p < 1) && !(unit_value matches Some(v) && v < 0)),
        update_cash_asset_spec(name, possessed, unit_value) matches Ok(u) ==> u.name == given_value(name)
            && u.possessed == possessed && u.unit_value == unit_value,
{
}

/// A cash asset to create carries its name, count and unit value.
pub proof fn lemma_create_cash_asset_fields(name: Result<String, Seq<char>>, possessed: i64, unit_value: i64)
    ensures
        create_cash_asset_spec(name, possessed, unit_value) is Ok <==> (name is Ok && possessed >= 1 && unit_value
            >= 0),
        create_cash_asset_spec(name, possessed, unit_value) matches Ok(a) ==> (name matches Ok(n) && a.name == n)
            && a.possessed == possessed && a.unit_value == unit_value,
{
}

} // verus!
