//! The tracked prices (gold, silver, S&P 500) and the lookups the price
//! endpoints make among the rows of the price table.
//!
//! A price row also holds its value (a floating-point number) and the date
//! of its last update; those travel beside the names used here.

use vstd::prelude::*;
use vstd::string::StringExecFns;
use crate::route_errors::{ErrorChain, RouteError};

verus! {

/// The name of the gold price row.
pub open spec fn gold() -> Seq<char> {
    "Gold"@
}

/// The name of the silver price row.
pub open spec fn silver() -> Seq<char> {
    "Silver"@
}

/// The name of the S&P 500 row.
pub open spec fn sp_500() -> Seq<char> {
    "SP500"@
}

/// The first row whose name is `name`, if any (`Iterator::find`).
pub open spec fn first_named(names: Seq<Seq<char>>, name: Seq<char>) -> Option<int> {
    if exists|i: int| 0 <= i < names.len() && names[i] == name {
        Some(choose|i: int| 0 <= i < names.len() && names[i] == name && forall|j: int| 0 <= j < i ==> names[j] != name)
    } else {
        None
    }
}

/// The row names as character sequences.
pub open spec fn name_views(names: Seq<String>) -> Seq<Seq<char>> {
    names.map_values(|n: String| n@)
}

/// The first row named `name`.
pub fn find_price(names: &Vec<String>, name: &String) -> (found: Option<usize>)
    ensures
        found matches Some(i) ==> first_named(name_views(names@), name@) == Some(i as int),
        found is None ==> first_named(name_views(names@), name@) is None,
{
    let ghost views = name_views(names@);
    let mut i: usize = 0;
    while i < names.len()
        invariant
            i <= names.len(),
            views == name_views(names@),
            forall|j: int| 0 <= j < i ==> views[j] != name@,
        decreases names.len() - i,
    {
        if names[i].eq(name) {
            assert(views[i as int] == name@);
            let ghost k = choose|k: int| 0 <= k < views.len() && views[k] == name@ && forall|j: int| 0 <= j < k ==> views[j] != name@;
            assert(k == i) by {
                if k < i {
                    assert(views[k] != name@);
                }
                if i < k {
                    assert(views[i as int] != name@);
                }
            }
            return Some(i);
        }
        i = i + 1;
    }
    None
}

/// Where the gold, silver and S&P 500 rows are, in that order; fails with the
/// first of them (in that order) that is missing.
pub open spec fn tracked_prices(names: Seq<Seq<char>>) -> Result<(int, int, int), Seq<char>> {
    match (first_named(names, gold()), first_named(names, silver()), first_named(names, sp_500())) {
        (None, _, _) => Err(gold()),
        (Some(_), None, _) => Err(silver()),
        (Some(_), Some(_), None) => Err(sp_500()),
        (Some(g), Some(s), Some(p)) => Ok((g, s, p)),
    }
}

/// The rows that answer a request for every price: the first row named
/// `Gold`, `Silver` and `SP500`. A missing one is answered with
/// `ValueNotFound` and its name, which should not happen.
pub fn get_all_prices(names: &Vec<String>) -> (rows: Result<(usize, usize, usize), RouteError>)
    ensures
        match tracked_prices(name_views(names@)) {
            Ok((g, s, p)) => rows matches Ok((gi, si, pi)) && gi == g && si == s && pi == p,
            Err(missing) => rows matches Err(RouteError::ValueNotFound(n)) && n@ == missing,
        },
{
    let gold_name = String::from_str("Gold");
    let silver_name = String::from_str("Silver");
    let sp_name = String::from_str("SP500");
    let g = match find_price(names, &gold_name) {
        Some(i) => i,
        None => return Err(RouteError::ValueNotFound(gold_name)),
    };
    let s = match find_price(names, &silver_name) {
        Some(i) => i,
        None => return Err(RouteError::ValueNotFound(silver_name)),
    };
    let p = match find_price(names, &sp_name) {
        Some(i) => i,
        None => return Err(RouteError::ValueNotFound(sp_name)),
    };
    Ok((g, s, p))
}

/// The rows that answer a request for every trade value: the first row
/// named `Gold`, `Silver` and `SP500`. Each of them must be there.
pub fn get_all_trade_values(names: &Vec<String>) -> (rows: (usize, usize, usize))
    requires
        tracked_prices(name_views(names@)) is Ok,
    ensures
        tracked_prices(name_views(names@)) == Ok::<(int, int, int), Seq<char>>((rows.0 as int, rows.1 as int, rows.2 as int)),
{
    match get_all_prices(names) {
        Ok(rows) => rows,
        Err(_) => {
            assert(false);
            (0, 0, 0)
        },
    }
}

proof fn lemma_minimal_named(names: Seq<Seq<char>>, name: Seq<char>, w: int)
    requires
        0 <= w < names.len(),
        names[w] == name,
    ensures
        exists|i: int| 0 <= i < names.len() && names[i] == name && forall|j: int| 0 <= j < i ==> names[j] != name,
    decreases w,
{
    if exists|j: int| 0 <= j < w && names[j] == name {
        let j = choose|j: int| 0 <= j < w && names[j] == name;
        lemma_minimal_named(names, name, j);
    } else {
        assert(forall|j: int| 0 <= j < w ==> names[j] != name);
    }
}

proof fn lemma_first_named(names: Seq<Seq<char>>, name: Seq<char>)
    ensures
        first_named(names, name) matches Some(i) ==> 0 <= i < names.len() && names[i] == name && forall|j: int|
            0 <= j < i ==> names[j] != name,
        first_named(names, name) is None ==> forall|j: int| 0 <= j < names.len() ==> names[j] != name,
{
    if exists|i: int| 0 <= i < names.len() && names[i] == name {
        let w = choose|i: int| 0 <= i < names.len() && names[i] == name;
        lemma_minimal_named(names, name, w);
    }
}

/// The rows found for the tracked prices carry their names, and no earlier
/// row does.
pub proof fn lemma_tracked_prices_named(names: Seq<Seq<char>>)
    ensures
        tracked_prices(names) matches Ok((g, s, p)) ==> {
            &&& 0 <= g < names.len() && names[g] == gold()
            &&& 0 <= s < names.len() && names[s] == silver()
            &&& 0 <= p < names.len() && names[p] == sp_500()
            &&& forall|j: int| 0 <= j < g ==> names[j] != gold()
            &&& forall|j: int| 0 <= j < s ==> names[j] != silver()
            &&& forall|j: int| 0 <= j < p ==> names[j] != sp_500()
        },
{
    lemma_first_named(names, gold());
    lemma_first_named(names, silver());
    lemma_first_named(names, sp_500());
}

/// The message of a price request whose key has no row.
pub open spec fn missing_price_message(key: Seq<char>) -> Seq<char> {
    "No price found for query key "@ + key + ". This should not happen"@
}

/// The answer to a request for one price, given the row found for its key:
/// the row, or, when there is none (which should not happen), an unexpected
/// error.
pub fn get_one_price<T>(key: &str, found: Option<T>) -> (reply: Result<T, RouteError>)
    ensures
        found matches Some(row) ==> reply == Ok::<T, RouteError>(row),
        found is None ==> (reply matches Err(RouteError::UnexpectedError(chain))
            && chain.message@ == missing_price_message(key@) && chain.causes@.len() == 0),
{
    match found {
        Some(row) => Ok(row),
        None => {
            let mut message = String::from_str("No price found for query key ");
            message.append(key);
            message.append(". This should not happen");
            Err(RouteError::UnexpectedError(ErrorChain { message, causes: Vec::new() }))
        },
    }
}

} // verus!
