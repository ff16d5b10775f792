//! What the version-1 endpoints answer, given what the database
//! returned. Their errors are `api_error::APIError`.

use vstd::prelude::*;
use vstd::string::StringExecFns;
use crate::api_error::APIError;
use crate::assets::{
    CashAsset, CashAssetsDto, CoinAssetsDto, RawAsset, RawAssetsDto, cash_asset_response,
    cash_asset_response_of, raw_asset_response, raw_asset_response_of,
};
use crate::coins::CoinDataDto;
use crate::requests::{UpdateRawAsset, possessed_message, unit_value_message};
use crate::text::{decimal_text, push_decimal_i64};

verus! {

/// The failure of a query: `Database error`.
pub open spec fn is_database_error(e: APIError) -> bool {
    e.code == 500 && e.reason@ == "Database error"@
}

/// An unknown id: `The provided id is invalid: <id>`.
pub open spec fn is_bad_id(e: APIError, id: i64) -> bool {
    e.code == 404 && e.reason@ == "The provided id is invalid: "@ + decimal_text(id as int)
}

/// A rejected value: `Invalid value: <reason>`.
pub open spec fn is_invalid_value(e: APIError, reason: Seq<char>) -> bool {
    e.code == 400 && e.reason@ == "Invalid value: "@ + reason
}

/// The error for an id that matches no record of the user.
pub fn bad_id(id: i64) -> (e: APIError)
    ensures
        is_bad_id(e, id),
{
    let mut text = String::new();
    push_decimal_i64(&mut text, id);
    APIError::bad_id(text.as_str())
}

/// The answer to a lookup by id: the record, `bad_id` when there is none,
/// `Database error` when the query failed.
pub fn found_by_id<T>(id: i64, found: Result<Option<T>, ()>) -> (r: Result<T, APIError>)
    ensures
        found matches Ok(Some(v)) ==> r == Ok::<T, APIError>(v),
        found matches Ok(None) ==> (r matches Err(e) && is_bad_id(e, id)),
        found is Err ==> (r matches Err(e) && is_database_error(e)),
{
    match found {
        Ok(Some(v)) => Ok(v),
        Ok(None) => Err(bad_id(id)),
        Err(()) => Err(APIError::database_error()),
    }
}

/// The answer to a request for one cash asset.
pub fn get_cash_asset(id: i64, found: Result<Option<CashAsset>, ()>) -> (r: Result<CashAssetsDto, APIError>)
    ensures
        found matches Ok(Some(a)) ==> r == Ok::<CashAssetsDto, APIError>(cash_asset_response_of(a)),
        found matches Ok(None) ==> (r matches Err(e) && is_bad_id(e, id)),
        found is Err ==> (r matches Err(e) && is_database_error(e)),
{
    let asset = found_by_id(id, found)?;
    Ok(cash_asset_response(asset))
}

/// The answer to a request for one raw-metal asset.
pub fn get_raw_asset(id: i64, found: Result<Option<RawAsset>, ()>) -> (r: Result<RawAssetsDto, APIError>)
    ensures
        found matches Ok(Some(a)) ==> r == Ok::<RawAssetsDto, APIError>(raw_asset_response_of(a)),
        found matches Ok(None) ==> (r matches Err(e) && is_bad_id(e, id)),
        found is Err ==> (r matches Err(e) && is_database_error(e)),
{
    let asset = found_by_id(id, found)?;
    Ok(raw_asset_response(asset))
}

/// A request body that failed its checks: `Invalid value: <message>`.
pub fn checked<T>(request: Result<T, String>) -> (r: Result<T, APIError>)
    ensures
        request matches Ok(v) ==> r == Ok::<T, APIError>(v),
        request matches Err(m) ==> (r matches Err(e) && is_invalid_value(e, m@)),
{
    match request {
        Ok(v) => Ok(v),
        Err(m) => Err(APIError::invalid_value(m.as_str())),
    }
}

/// The answer to a write (creation, update or deletion): `status` when it
/// succeeded, `Database error` when it failed.
pub fn written(status: u16, outcome: Result<(), ()>) -> (r: Result<u16, APIError>)
    ensures
        outcome is Ok ==> r == Ok::<u16, APIError>(status),
        outcome is Err ==> (r matches Err(e) && is_database_error(e)),
{
    match outcome {
        Ok(()) => Ok(status),
        Err(()) => Err(APIError::database_error()),
    }
}

/// Why a coin asset could not be inserted: the user already has one for the
/// coin, or anything else.
#[derive(Debug)]
pub enum CoinInsertFailure {
    UniqueViolation,
    Other,
}

/// `you already possess coin_id <id>`.
pub open spec fn already_possessed_message(coin_id: i64) -> Seq<char> {
    "you already possess coin_id "@ + decimal_text(coin_id as int)
}

/// The answer to the creation of a coin asset: a second asset for the same
/// coin is an invalid value; any other failure a database error.
pub fn create_coin_asset(coin_id: i64, inserted: Result<(), CoinInsertFailure>) -> (r: Result<u16, APIError>)
    ensures
        inserted is Ok ==> r == Ok::<u16, APIError>(201),
        inserted matches Err(CoinInsertFailure::UniqueViolation) ==> (r matches Err(e) && is_invalid_value(
            e,
            already_possessed_message(coin_id),
        )),
        inserted matches Err(CoinInsertFailure::Other) ==> (r matches Err(e) && is_database_error(e)),
{
    match inserted {
        Ok(()) => Ok(201),
        Err(CoinInsertFailure::UniqueViolation) => {
            let mut message = String::from_str("you already possess coin_id ");
            push_decimal_i64(&mut message, coin_id);
            Err(APIError::invalid_value(message.as_str()))
        },
        Err(CoinInsertFailure::Other) => Err(APIError::database_error()),
    }
}

/// The answer to a query that only fails or succeeds: `Database error` on
/// failure.
pub fn queried<T>(result: Result<T, ()>) -> (r: Result<T, APIError>)
    ensures
        result matches Ok(v) ==> r == Ok::<T, APIError>(v),
        result is Err ==> (r matches Err(e) && is_database_error(e)),
{
    match result {
        Ok(v) => Ok(v),
        Err(()) => Err(APIError::database_error()),
    }
}

/// A record that must exist (the database keeps no orphan rows): its absence
/// is answered like a failed query, with `Database error`.
pub fn expected_row<T>(found: Result<Option<T>, ()>) -> (r: Result<T, APIError>)
    ensures
        found matches Ok(Some(v)) ==> r == Ok::<T, APIError>(v),
        !(found is Ok && found->Ok_0 is Some) ==> (r matches Err(e) && is_database_error(e)),
{
    match found {
        Ok(Some(v)) => Ok(v),
        _ => Err(APIError::database_error()),
    }
}

/// A query key that is not known: `Unknown query: <message>`.
pub fn known_query<T>(parsed: Result<T, String>) -> (r: Result<T, APIError>)
    ensures
        parsed matches Ok(v) ==> r == Ok::<T, APIError>(v),
        parsed matches Err(m) ==> (r matches Err(e) && e.code == 400 && e.reason@ == "Unknown query: "@ + m@),
{
    match parsed {
        Ok(v) => Ok(v),
        Err(m) => Err(APIError::unknown_query(m.as_str())),
    }
}

/// The answer for a coin asset once its coin is converted: how many the user
/// possesses, and the coin data.
pub fn coin_asset_data(possessed: i64, coin_data: Result<CoinDataDto, APIError>) -> (r: Result<CoinAssetsDto, APIError>)
    ensures
        match coin_data {
            Ok(d) => r == Ok::<CoinAssetsDto, APIError>(CoinAssetsDto { possessed, coin_data: d }),
            Err(e) => r == Err::<CoinAssetsDto, APIError>(e),
        },
{
    let coin_data = coin_data?;
    Ok(CoinAssetsDto { possessed, coin_data })
}

/// A changed coin count is written; an unchanged one is not.
pub fn coin_asset_update_needed(current: i64, requested: i64) -> (r: bool)
    ensures
        r == (current != requested),
{
    current != requested
}

/// A change to a raw-metal asset is written only when it changes a field.
pub fn raw_asset_update_needed(update: &UpdateRawAsset) -> (r: bool)
    ensures
        r == (update.name is Some || update.possessed is Some || update.unit_weight is Some
            || update.composition is Some || update.purity is Some),
{
    update.name.is_some() || update.possessed.is_some() || update.unit_weight.is_some()
        || update.composition.is_some() || update.purity.is_some()
}

/// A piece of an SQL statement being built: text, or a value bound to a
/// placeholder (`QueryBuilder::push` and `QueryBuilder::push_bind`).
#[derive(Debug)]
pub enum SqlPiece {
    Text(String),
    BindText(String),
    BindInt(i64),
}

/// A piece of an SQL statement, its text read as characters.
pub enum SqlPieceView {
    Text(Seq<char>),
    BindText(Seq<char>),
    BindInt(i64),
}

impl View for SqlPiece {
    type V = SqlPieceView;

    open spec fn view(&self) -> SqlPieceView {
        match self {
            SqlPiece::Text(t) => SqlPieceView::Text(t@),
            SqlPiece::BindText(t) => SqlPieceView::BindText(t@),
            SqlPiece::BindInt(v) => SqlPieceView::BindInt(*v),
        }
    }
}

/// The pieces as views.
pub open spec fn pieces_view(pieces: Seq<SqlPiece>) -> Seq<SqlPieceView> {
    pieces.map_values(|p: SqlPiece| p@)
}

/// The statement updating the given fields of a user's cash asset: each
/// present field is set to its bound value, the assignments separated by
/// commas, for the row with that id and user.
pub open spec fn update_cash_asset_pieces(
    user_id: i64,
    asset_id: i64,
    name: Option<Seq<char>>,
    possessed: Option<i64>,
    unit_value: Option<i64>,
) -> Seq<SqlPieceView> {
    let set_name = match name {
        Some(n) => seq![SqlPieceView::Text("name = "@), SqlPieceView::BindText(n)],
        None => Seq::empty(),
    };
    let set_possessed = match possessed {
        Some(p) => (if name is Some {
            seq![SqlPieceView::Text(", "@)]
        } else {
            Seq::empty()
        }) + seq![SqlPieceView::Text("possessed = "@), SqlPieceView::BindInt(p)],
        None => Seq::empty(),
    };
    let set_unit_value = match unit_value {
        Some(v) => (if name is Some || possessed is Some {
            seq![SqlPieceView::Text(", "@)]
        } else {
            Seq::empty()
        }) + seq![SqlPieceView::Text("unit_value = "@), SqlPieceView::BindInt(v)],
        None => Seq::empty(),
    };
    seq![SqlPieceView::Text("UPDATE cash_assets SET "@)] + set_name + set_possessed + set_unit_value + seq![
        SqlPieceView::Text(" WHERE id = "@),
        SqlPieceView::BindInt(asset_id),
        SqlPieceView::Text(" AND user_id = "@),
        SqlPieceView::BindInt(user_id),
    ]
}

/// The optional name read as characters.
pub open spec fn name_view(name: Option<String>) -> Option<Seq<char>> {
    match name {
        Some(n) => Some(n@),
        None => None,
    }
}

/// Builds the statement that updates a user's cash asset.
pub fn update_a_cash_asset(
    user_id: i64,
    asset_id: i64,
    name: Option<String>,
    possessed: Option<i64>,
    unit_value: Option<i64>,
) -> (pieces: Vec<SqlPiece>)
    ensures
        pieces_view(pieces@) == update_cash_asset_pieces(user_id, asset_id, name_view(name), possessed, unit_value),
        rendered_sql(pieces_view(pieces@)) == "UPDATE cash_assets SET "@ + comma_join(
            cash_assignments(name is Some, possessed is Some, unit_value is Some),
        ) + " WHERE id = "@.push('?') + " AND user_id = "@.push('?'),
        bound_values(pieces_view(pieces@)) == (match name {
            Some(n) => seq![SqlPieceView::BindText(n@)],
            None => Seq::empty(),
        }) + (match possessed {
            Some(p) => seq![SqlPieceView::BindInt(p)],
            None => Seq::empty(),
        }) + (match unit_value {
            Some(v) => seq![SqlPieceView::BindInt(v)],
            None => Seq::empty(),
        }) + seq![SqlPieceView::BindInt(asset_id), SqlPieceView::BindInt(user_id)],
{
    let ghost name_v = name_view(name);
    let mut pieces: Vec<SqlPiece> = Vec::new();
    pieces.push(SqlPiece::Text(String::from_str("UPDATE cash_assets SET ")));
    let mut and = false;
    let ghost after_head = pieces_view(pieces@);
    assert(after_head == seq![SqlPieceView::Text("UPDATE cash_assets SET "@)]);
    if let Some(n) = name {
        pieces.push(SqlPiece::Text(String::from_str("name = ")));
        pieces.push(SqlPiece::BindText(n));
        and = true;
    }
    let ghost after_name = pieces_view(pieces@);
    if let Some(p) = possessed {
        if and {
            pieces.push(SqlPiece::Text(String::from_str(", ")));
        }
        pieces.push(SqlPiece::Text(String::from_str("possessed = ")));
        pieces.push(SqlPiece::BindInt(p));
        and = true;
    }
    let ghost after_possessed = pieces_view(pieces@);
    if let Some(v) = unit_value {
        if and {
            pieces.push(SqlPiece::Text(String::from_str(", ")));
        }
        pieces.push(SqlPiece::Text(String::from_str("unit_value = ")));
        pieces.push(SqlPiece::BindInt(v));
    }
    let ghost after_unit_value = pieces_view(pieces@);
    pieces.push(SqlPiece::Text(String::from_str(" WHERE id = ")));
    pieces.push(SqlPiece::BindInt(asset_id));
    pieces.push(SqlPiece::Text(String::from_str(" AND user_id = ")));
    pieces.push(SqlPiece::BindInt(user_id));
    assert(pieces_view(pieces@) =~= update_cash_asset_pieces(user_id, asset_id, name_v, possessed, unit_value));
    proof {
        lemma_update_statement_text(user_id, asset_id, name_v, possessed, unit_value);
    }
    pieces
}

/// The SQL text of a statement: its text pieces, with a `?` placeholder
/// for each bound value (as `QueryBuilder` writes it for SQLite).
pub open spec fn rendered_sql(pieces: Seq<SqlPieceView>) -> Seq<char>
    decreases pieces.len(),
{
    if pieces.len() == 0 {
        Seq::empty()
    } else {
        rendered_sql(pieces.drop_last()) + match pieces.last() {
            SqlPieceView::Text(t) => t,
            _ => seq!['?'],
        }
    }
}

/// The values bound to a statement, in the order of their placeholders.
pub open spec fn bound_values(pieces: Seq<SqlPieceView>) -> Seq<SqlPieceView>
    decreases pieces.len(),
{
    if pieces.len() == 0 {
        Seq::empty()
    } else {
        let before = bound_values(pieces.drop_last());
        match pieces.last() {
            SqlPieceView::Text(_) => before,
            b => before.push(b),
        }
    }
}

/// Parts joined by `", "`.
pub open spec fn comma_join(parts: Seq<Seq<char>>) -> Seq<char>
    decreases parts.len(),
{
    if parts.len() == 0 {
        Seq::empty()
    } else if parts.len() == 1 {
        parts[0]
    } else {
        comma_join(parts.drop_last()) + ", "@ + parts.last()
    }
}

/// `part` when `present`, nothing otherwise.
pub open spec fn if_present<A>(present: bool, part: A) -> Seq<A> {
    if present {
        seq![part]
    } else {
        Seq::empty()
    }
}

/// The assignments of the columns given, in the order name, possessed,
/// unit_value, each to a placeholder.
pub open spec fn cash_assignments(has_name: bool, has_possessed: bool, has_unit_value: bool) -> Seq<Seq<char>> {
    if_present(has_name, "name = "@.push('?')) + if_present(has_possessed, "possessed = "@.push('?'))
        + if_present(has_unit_value, "unit_value = "@.push('?'))
}

proof fn lemma_rendered_concat(a: Seq<SqlPieceView>, b: Seq<SqlPieceView>)
    ensures
        rendered_sql(a + b) == rendered_sql(a) + rendered_sql(b),
        bound_values(a + b) == bound_values(a) + bound_values(b),
    decreases b.len(),
{
    if b.len() == 0 {
        assert(a + b == a);
    } else {
        lemma_rendered_concat(a, b.drop_last());
        assert((a + b).drop_last() == a + b.drop_last());
        assert((a + b).last() == b.last());
    }
}

proof fn lemma_rendered_pair(x: SqlPieceView, y: SqlPieceView)
    ensures
        rendered_sql(seq![x, y]) == rendered_sql(seq![x]) + rendered_sql(seq![y]),
        bound_values(seq![x, y]) == bound_values(seq![x]) + bound_values(seq![y]),
{
    assert(seq![x, y] == seq![x] + seq![y]);
    lemma_rendered_concat(seq![x], seq![y]);
}

proof fn lemma_rendered_single(x: SqlPieceView)
    ensures
        rendered_sql(seq![x]) == match x {
            SqlPieceView::Text(t) => t,
            _ => seq!['?'],
        },
        bound_values(seq![x]) == match x {
            SqlPieceView::Text(_) => Seq::<SqlPieceView>::empty(),
            b => seq![b],
        },
{
    assert(seq![x].drop_last() == Seq::<SqlPieceView>::empty());
    assert(seq![x].last() == x);
    assert(rendered_sql(Seq::<SqlPieceView>::empty()) == Seq::<char>::empty());
    assert(bound_values(Seq::<SqlPieceView>::empty()) == Seq::<SqlPieceView>::empty());
    match x {
        SqlPieceView::Text(t) => {
            assert(Seq::<char>::empty() + t =~= t);
        },
        _ => {
            assert(Seq::<char>::empty() + seq!['?'] =~= seq!['?']);
            assert(Seq::<SqlPieceView>::empty().push(x) =~= seq![x]);
        },
    }
}

proof fn lemma_rendered_empty()
    ensures
        rendered_sql(Seq::<SqlPieceView>::empty()) == Seq::<char>::empty(),
        bound_values(Seq::<SqlPieceView>::empty()) == Seq::<SqlPieceView>::empty(),
{
}

proof fn lemma_rendered_assignment(column: Seq<char>, value: SqlPieceView)
    requires
        !(value is Text),
    ensures
        rendered_sql(seq![SqlPieceView::Text(column), value]) == column.push('?'),
        bound_values(seq![SqlPieceView::Text(column), value]) == seq![value],
{
    lemma_rendered_pair(SqlPieceView::Text(column), value);
    lemma_rendered_single(SqlPieceView::Text(column));
    lemma_rendered_single(value);
    assert(column + seq!['?'] =~= column.push('?'));
    assert(Seq::<SqlPieceView>::empty() + seq![value] =~= seq![value]);
}

proof fn lemma_rendered_separated(separated: bool, column: Seq<char>, value: SqlPieceView)
    requires
        !(value is Text),
    ensures
        ({
            let comma: Seq<SqlPieceView> = if separated { seq![SqlPieceView::Text(", "@)] } else { Seq::empty() };
            &&& rendered_sql(comma + seq![SqlPieceView::Text(column), value]) == (if separated {
                ", "@
            } else {
                Seq::empty()
            }) + column.push('?')
            &&& bound_values(comma + seq![SqlPieceView::Text(column), value]) == seq![value]
        }),
{
    let comma: Seq<SqlPieceView> = if separated { seq![SqlPieceView::Text(", "@)] } else { Seq::empty() };
    lemma_rendered_concat(comma, seq![SqlPieceView::Text(column), value]);
    lemma_rendered_assignment(column, value);
    lemma_rendered_single(SqlPieceView::Text(", "@));
    lemma_rendered_empty();
    assert(Seq::<SqlPieceView>::empty() + seq![value] =~= seq![value]);
}

proof fn lemma_rendered_where(asset_id: i64, user_id: i64)
    ensures
        rendered_sql(
            seq![
                SqlPieceView::Text(" WHERE id = "@),
                SqlPieceView::BindInt(asset_id),
                SqlPieceView::Text(" AND user_id = "@),
                SqlPieceView::BindInt(user_id),
            ],
        ) == " WHERE id = "@.push('?') + " AND user_id = "@.push('?'),
        bound_values(
            seq![
                SqlPieceView::Text(" WHERE id = "@),
                SqlPieceView::BindInt(asset_id),
                SqlPieceView::Text(" AND user_id = "@),
                SqlPieceView::BindInt(user_id),
            ],
        ) == seq![SqlPieceView::BindInt(asset_id), SqlPieceView::BindInt(user_id)],
{
    let t1 = seq![SqlPieceView::Text(" WHERE id = "@), SqlPieceView::BindInt(asset_id)];
    let t2 = seq![SqlPieceView::Text(" AND user_id = "@), SqlPieceView::BindInt(user_id)];
    assert(t1 + t2 =~= seq![
        SqlPieceView::Text(" WHERE id = "@),
        SqlPieceView::BindInt(asset_id),
        SqlPieceView::Text(" AND user_id = "@),
        SqlPieceView::BindInt(user_id),
    ]);
    lemma_rendered_concat(t1, t2);
    lemma_rendered_assignment(" WHERE id = "@, SqlPieceView::BindInt(asset_id));
    lemma_rendered_assignment(" AND user_id = "@, SqlPieceView::BindInt(user_id));
    assert(seq![SqlPieceView::BindInt(asset_id)] + seq![SqlPieceView::BindInt(user_id)] =~= seq![
        SqlPieceView::BindInt(asset_id),
        SqlPieceView::BindInt(user_id),
    ]);
}

/// The update statement of a cash asset reads `UPDATE cash_assets SET `,
/// then the assignments of the given columns (name, possessed, unit_value,
/// in that order) separated by `", "`, then ` WHERE id = ? AND user_id = ?`;
/// its placeholders are bound to the given values in the same order, then to
/// the asset id and the user id.
#[verifier::rlimit(40)]
pub proof fn lemma_update_statement_text(
    user_id: i64,
    asset_id: i64,
    name: Option<Seq<char>>,
    possessed: Option<i64>,
    unit_value: Option<i64>,
)
    ensures
        rendered_sql(update_cash_asset_pieces(user_id, asset_id, name, possessed, unit_value)) == "UPDATE cash_assets SET "@
            + comma_join(cash_assignments(name is Some, possessed is Some, unit_value is Some))
            + " WHERE id = "@.push('?') + " AND user_id = "@.push('?'),
        bound_values(update_cash_asset_pieces(user_id, asset_id, name, possessed, unit_value)) == (match name {
            Some(n) => seq![SqlPieceView::BindText(n)],
            None => Seq::empty(),
        }) + (match possessed {
            Some(p) => seq![SqlPieceView::BindInt(p)],
            None => Seq::empty(),
        }) + (match unit_value {
            Some(v) => seq![SqlPieceView::BindInt(v)],
            None => Seq::empty(),
        }) + seq![SqlPieceView::BindInt(asset_id), SqlPieceView::BindInt(user_id)],
{
    let head = seq![SqlPieceView::Text("UPDATE cash_assets SET "@)];
    let set_name = match name {
        Some(n) => seq![SqlPieceView::Text("name = "@), SqlPieceView::BindText(n)],
        None => Seq::empty(),
    };
    let comma1: Seq<SqlPieceView> = if name is Some { seq![SqlPieceView::Text(", "@)] } else { Seq::empty() };
    let comma2: Seq<SqlPieceView> = if name is Some || possessed is Some {
        seq![SqlPieceView::Text(", "@)]
    } else {
        Seq::empty()
    };
    let set_possessed = match possessed {
        Some(p) => comma1 + seq![SqlPieceView::Text("possessed = "@), SqlPieceView::BindInt(p)],
        None => Seq::empty(),
    };
    let set_unit_value = match unit_value {
        Some(v) => comma2 + seq![SqlPieceView::Text("unit_value = "@), SqlPieceView::BindInt(v)],
        None => Seq::empty(),
    };
    let tail = seq![
        SqlPieceView::Text(" WHERE id = "@),
        SqlPieceView::BindInt(asset_id),
        SqlPieceView::Text(" AND user_id = "@),
        SqlPieceView::BindInt(user_id),
    ];
    assert(update_cash_asset_pieces(user_id, asset_id, name, possessed, unit_value) == head + set_name + set_possessed
        + set_unit_value + tail);
    lemma_rendered_concat(head + set_name + set_possessed + set_unit_value, tail);
    lemma_rendered_concat(head + set_name + set_possessed, set_unit_value);
    lemma_rendered_concat(head + set_name, set_possessed);
    lemma_rendered_concat(head, set_name);
    lemma_rendered_single(SqlPieceView::Text("UPDATE cash_assets SET "@));
    lemma_rendered_where(asset_id, user_id);
    lemma_rendered_empty();
    let e = Seq::<char>::empty();
    let c = ", "@;
    let name_text = if name is Some { "name = "@.push('?') } else { e };
    let possessed_text = if possessed is Some {
        (if name is Some { c } else { e }) + "possessed = "@.push('?')
    } else {
        e
    };
    let unit_text = if unit_value is Some {
        (if name is Some || possessed is Some { c } else { e }) + "unit_value = "@.push('?')
    } else {
        e
    };
    match name {
        Some(n) => lemma_rendered_assignment("name = "@, SqlPieceView::BindText(n)),
        None => {},
    }
    match possessed {
        Some(p) => lemma_rendered_separated(name is Some, "possessed = "@, SqlPieceView::BindInt(p)),
        None => {},
    }
    match unit_value {
        Some(v) => lemma_rendered_separated(name is Some || possessed is Some, "unit_value = "@, SqlPieceView::BindInt(v)),
        None => {},
    }
    assert(rendered_sql(set_name) == name_text);
    assert(rendered_sql(set_possessed) == possessed_text);
    assert(rendered_sql(set_unit_value) == unit_text);
    lemma_comma_join_assignments(name is Some, possessed is Some, unit_value is Some);
    assert(rendered_sql(head) == "UPDATE cash_assets SET "@);
    assert(rendered_sql(update_cash_asset_pieces(user_id, asset_id, name, possessed, unit_value)) =~= "UPDATE cash_assets SET "@
        + comma_join(cash_assignments(name is Some, possessed is Some, unit_value is Some))
        + " WHERE id = "@.push('?') + " AND user_id = "@.push('?'));
    assert(bound_values(head) == Seq::<SqlPieceView>::empty());
    assert(bound_values(update_cash_asset_pieces(user_id, asset_id, name, possessed, unit_value)) =~= (match name {
        Some(n) => seq![SqlPieceView::BindText(n)],
        None => Seq::empty(),
    }) + (match possessed {
        Some(p) => seq![SqlPieceView::BindInt(p)],
        None => Seq::empty(),
    }) + (match unit_value {
        Some(v) => seq![SqlPieceView::BindInt(v)],
        None => Seq::empty(),
    }) + seq![SqlPieceView::BindInt(asset_id), SqlPieceView::BindInt(user_id)]);
}

/// Joining the assignments by `", "` puts a comma exactly before every
/// assignment that follows another one.
proof fn lemma_comma_join_assignments(has_name: bool, has_possessed: bool, has_unit_value: bool)
    ensures
        comma_join(cash_assignments(has_name, has_possessed, has_unit_value)) == (if has_name {
            "name = "@.push('?')
        } else {
            Seq::empty()
        }) + (if has_possessed {
            (if has_name { ", "@ } else { Seq::empty() }) + "possessed = "@.push('?')
        } else {
            Seq::empty()
        }) + (if has_unit_value {
            (if has_name || has_possessed { ", "@ } else { Seq::empty() }) + "unit_value = "@.push('?')
        } else {
            Seq::empty()
        }),
{
    let n = "name = "@.push('?');
    let p = "possessed = "@.push('?');
    let u = "unit_value = "@.push('?');
    let c = ", "@;
    let a = cash_assignments(has_name, has_possessed, has_unit_value);
    let e = Seq::<char>::empty();
    let target = (if has_name { n } else { e }) + (if has_possessed {
        (if has_name { c } else { e }) + p
    } else {
        e
    }) + (if has_unit_value {
        (if has_name || has_possessed { c } else { e }) + u
    } else {
        e
    });
    if has_name && has_possessed && has_unit_value {
        assert(a =~= seq![n, p, u]);
        assert(seq![n, p, u].drop_last() =~= seq![n, p]);
        assert(seq![n, p].drop_last() =~= seq![n]);
        assert(comma_join(seq![n]) == n);
        assert(comma_join(seq![n, p]) == n + c + p);
        assert(comma_join(seq![n, p, u]) == n + c + p + c + u);
        assert(comma_join(a) =~= target);
    } else if has_name && has_possessed {
        assert(a =~= seq![n, p]);
        assert(seq![n, p].drop_last() =~= seq![n]);
        assert(comma_join(seq![n]) == n);
        assert(comma_join(seq![n, p]) == n + c + p);
        assert(comma_join(a) =~= target);
    } else if has_name && has_unit_value {
        assert(a =~= seq![n, u]);
        assert(seq![n, u].drop_last() =~= seq![n]);
        assert(comma_join(seq![n]) == n);
        assert(comma_join(seq![n, u]) == n + c + u);
        assert(comma_join(a) =~= target);
    } else if has_possessed && has_unit_value {
        assert(a =~= seq![p, u]);
        assert(seq![p, u].drop_last() =~= seq![p]);
        assert(comma_join(seq![p]) == p);
        assert(comma_join(seq![p, u]) == p + c + u);
        assert(comma_join(a) =~= target);
    } else if has_name {
        assert(a =~= seq![n]);
        assert(comma_join(a) =~= target);
    } else if has_possessed {
        assert(a =~= seq![p]);
        assert(comma_join(a) =~= target);
    } else if has_unit_value {
        assert(a =~= seq![u]);
        assert(comma_join(a) =~= target);
    } else {
        assert(a =~= Seq::<Seq<char>>::empty());
        assert(comma_join(a) =~= target);
    }
}

/// A statement that sets at least one field starts with an assignment of a
/// bound value: its SET clause is never empty.
pub proof fn lemma_update_sets_a_field(
    user_id: i64,
    asset_id: i64,
    name: Option<Seq<char>>,
    possessed: Option<i64>,
    unit_value: Option<i64>,
)
    requires
        name is Some || possessed is Some || unit_value is Some,
    ensures
        update_cash_asset_pieces(user_id, asset_id, name, possessed, unit_value).len() >= 7,
        update_cash_asset_pieces(user_id, asset_id, name, possessed, unit_value)[1] == SqlPieceView::Text(
            "name = "@,
        ) || update_cash_asset_pieces(user_id, asset_id, name, possessed, unit_value)[1] == SqlPieceView::Text(
            "possessed = "@,
        ) || update_cash_asset_pieces(user_id, asset_id, name, possessed, unit_value)[1] == SqlPieceView::Text(
            "unit_value = "@,
        ),
{
}

/// What an update of a cash asset does: reject a count below one, then a
/// negative unit value; write nothing when no field is given; otherwise run
/// the update statement.
pub fn update_cash_asset(
    user_id: i64,
    asset_id: i64,
    name: Option<String>,
    possessed: Option<i64>,
    unit_value: Option<i64>,
) -> (r: Result<Option<Vec<SqlPiece>>, APIError>)
    ensures
        possessed matches Some(p) && p < 1 ==> (r matches Err(e) && is_invalid_value(e, possessed_message())),
        !(possessed matches Some(p) && p < 1) && (unit_value matches Some(v) && v < 0) ==> (r matches Err(e)
            && is_invalid_value(e, unit_value_message())),
        !(possessed matches Some(p) && p < 1) && !(unit_value matches Some(v) && v < 0) ==> (r matches Ok(plan) && (
        if name is None && possessed is None && unit_value is None {
            plan is None
        } else {
            plan matches Some(pieces) && pieces_view(pieces@) == update_cash_asset_pieces(
                user_id,
                asset_id,
                name_view(name),
                possessed,
                unit_value,
            )
        })),
{
    if let Some(p) = possessed {
        if p < 1 {
            return Err(APIError::invalid_value("possessed must be >= 1"));
        }
    }
    if let Some(v) = unit_value {
        if v < 0 {
            return Err(APIError::invalid_value("unit_value must be >= 0"));
        }
    }
    if name.is_none() && possessed.is_none() && unit_value.is_none() {
        Ok(None)
    } else {
        Ok(Some(update_a_cash_asset(user_id, asset_id, name, possessed, unit_value)))
    }
}

} // verus!
