//! Coins as the database returns them, and the coin data sent to clients.
//!
//! A coin's measurements (weight, size, thickness) are floating-point values;
//! they travel beside these records and are not part of them.

use vstd::prelude::*;
use vstd::std_specs::convert::FromSpecImpl;
use crate::api_error::APIError;

verus! {

/// One face of a coin (obverse, reverse or edge), as sent to clients.
#[derive(Debug)]
pub struct CoinSideDataDto {
    pub image_url: Option<String>,
    pub thumbnail_url: Option<String>,
    pub lettering: Option<String>,
    pub description: Option<String>,
    pub copyright: Option<String>,
}

/// A coin joined with the images of its three faces. A face's image columns
/// come from a left join, so they are all absent when the coin has no image
/// for that face.
#[derive(Debug)]
pub struct CoinRow {
    pub id: i64,
    pub numista_id: String,
    pub name: String,
    pub min_year: String,
    pub max_year: Option<String>,
    pub composition: String,
    pub purity: i64,
    pub obverse: Option<i64>,
    pub reverse: Option<i64>,
    pub edge: Option<i64>,
    pub o_image_url: Option<String>,
    pub o_thumbnail_url: Option<String>,
    pub o_lettering: Option<String>,
    pub o_description: Option<String>,
    pub o_copyright: Option<String>,
    pub r_image_url: Option<String>,
    pub r_thumbnail_url: Option<String>,
    pub r_lettering: Option<String>,
    pub r_description: Option<String>,
    pub r_copyright: Option<String>,
    pub e_image_url: Option<String>,
    pub e_thumbnail_url: Option<String>,
    pub e_lettering: Option<String>,
    pub e_description: Option<String>,
    pub e_copyright: Option<String>,
}

/// The coin data sent to clients.
#[derive(Debug)]
pub struct CoinResponse {
    pub id: i64,
    pub numista_id: String,
    pub name: String,
    pub min_year: String,
    pub max_year: Option<String>,
    pub composition: String,
    pub purity: i64,
    pub obverse: Option<CoinSideDataDto>,
    pub reverse: Option<CoinSideDataDto>,
    pub edge: Option<CoinSideDataDto>,
}

/// The same coin data, as the version-1 endpoints name it.
pub type CoinDataDto = CoinResponse;

/// A face is present exactly when the coin holds its image key; its fields
/// are then the joined image columns.
pub open spec fn side_of(
    key: Option<i64>,
    image_url: Option<String>,
    thumbnail_url: Option<String>,
    lettering: Option<String>,
    description: Option<String>,
    copyright: Option<String>,
) -> Option<CoinSideDataDto> {
    if key is Some {
        Some(CoinSideDataDto { image_url, thumbnail_url, lettering, description, copyright })
    } else {
        None
    }
}

/// The response for a coin row.
pub open spec fn coin_response_of(row: CoinRow) -> CoinResponse {
    CoinResponse {
        id: row.id,
        numista_id: row.numista_id,
        name: row.name,
        min_year: row.min_year,
        max_year: row.max_year,
        composition: row.composition,
        purity: row.purity,
        obverse: side_of(
            row.obverse,
            row.o_image_url,
            row.o_thumbnail_url,
            row.o_lettering,
            row.o_description,
            row.o_copyright,
        ),
        reverse: side_of(
            row.reverse,
            row.r_image_url,
            row.r_thumbnail_url,
            row.r_lettering,
            row.r_description,
            row.r_copyright,
        ),
        edge: side_of(
            row.edge,
            row.e_image_url,
            row.e_thumbnail_url,
            row.e_lettering,
            row.e_description,
            row.e_copyright,
        ),
    }
}

fn make_side(
    key: Option<i64>,
    image_url: Option<String>,
    thumbnail_url: Option<String>,
    lettering: Option<String>,
    description: Option<String>,
    copyright: Option<String>,
) -> (side: Option<CoinSideDataDto>)
    ensures
        side == side_of(key, image_url, thumbnail_url, lettering, description, copyright),
        side is Some <==> key is Some,
        side matches Some(f) ==> f.image_url == image_url && f.thumbnail_url == thumbnail_url && f.lettering
            == lettering && f.description == description && f.copyright == copyright,
{
    match key {
        Some(_) => Some(CoinSideDataDto { image_url, thumbnail_url, lettering, description, copyright }),
        None => None,
    }
}

/// The single place a `CoinResponse` is built from coin columns. A side
/// exists iff the coin holds its key; the joined image columns are then
/// guaranteed present by referential integrity.
impl From<CoinRow> for CoinResponse {
    fn from(row: CoinRow) -> (response: Self) {
        CoinResponse {
            id: row.id,
            numista_id: row.numista_id,
            name: row.name,
            min_year: row.min_year,
            max_year: row.max_year,
            composition: row.composition,
            purity: row.purity,
            obverse: make_side(
                row.obverse,
                row.o_image_url,
                row.o_thumbnail_url,
                row.o_lettering,
                row.o_description,
                row.o_copyright,
            ),
            reverse: make_side(
                row.reverse,
                row.r_image_url,
                row.r_thumbnail_url,
                row.r_lettering,
                row.r_description,
                row.r_copyright,
            ),
            edge: make_side(
                row.edge,
                row.e_image_url,
                row.e_thumbnail_url,
                row.e_lettering,
                row.e_description,
                row.e_copyright,
            ),
        }
    }
}

impl FromSpecImpl<CoinRow> for CoinResponse {
    open spec fn obeys_from_spec() -> bool {
        true
    }

    open spec fn from_spec(row: CoinRow) -> CoinResponse {
        coin_response_of(row)
    }
}

/// A coin as stored, with the keys of its three face images.
#[derive(Debug)]
pub struct Coin {
    pub id: i64,
    pub numista_id: String,
    pub name: String,
    pub min_year: String,
    pub max_year: Option<String>,
    pub composition: String,
    pub purity: i64,
    pub obverse: Option<i64>,
    pub reverse: Option<i64>,
    pub edge: Option<i64>,
}

/// A stored coin image.
#[derive(Debug)]
pub struct CoinImage {
    pub image_url: Option<String>,
    pub thumbnail_url: Option<String>,
    pub lettering: Option<String>,
    pub description: Option<String>,
    pub copyright: Option<String>,
}

/// The face data for a fetched image (none when no image row was found).
pub open spec fn side_of_image(image: Option<CoinImage>) -> Option<CoinSideDataDto> {
    match image {
        Some(i) => Some(
            CoinSideDataDto {
                image_url: i.image_url,
                thumbnail_url: i.thumbnail_url,
                lettering: i.lettering,
                description: i.description,
                copyright: i.copyright,
            },
        ),
        None => None,
    }
}

/// The image key of face `k` of a coin: 0 obverse, 1 reverse, 2 edge.
pub open spec fn key_at(coin: Coin, k: int) -> Option<i64> {
    if k == 0 {
        coin.obverse
    } else if k == 1 {
        coin.reverse
    } else {
        coin.edge
    }
}

/// The faces decided so far, extended with "no face" for every following
/// face whose coin holds no image key, up to the next face that has one.
pub open spec fn fill_absent(coin: Coin, sides: Seq<Option<CoinSideDataDto>>) -> Seq<Option<CoinSideDataDto>>
    decreases 3 - sides.len(),
{
    if sides.len() >= 3 || key_at(coin, sides.len() as int) is Some {
        sides
    } else {
        fill_absent(coin, sides.push(None))
    }
}

/// The coin data for a coin whose three faces are decided.
pub open spec fn assembled(coin: Coin, sides: Seq<Option<CoinSideDataDto>>) -> CoinResponse {
    CoinResponse {
        id: coin.id,
        numista_id: coin.numista_id,
        name: coin.name,
        min_year: coin.min_year,
        max_year: coin.max_year,
        composition: coin.composition,
        purity: coin.purity,
        obverse: sides[0],
        reverse: sides[1],
        edge: sides[2],
    }
}

/// A conversion of a coin into coin data that waits for an image fetch:
/// the coin and the faces decided so far (obverse first).
#[derive(Debug)]
pub struct CoinConversion {
    pub coin: Coin,
    pub sides: Vec<Option<CoinSideDataDto>>,
}

impl CoinConversion {
    /// The conversion waits for the image of the next face, which the coin
    /// holds a key for.
    pub open spec fn awaits_image(&self) -> bool {
        &&& self.sides@.len() < 3
        &&& key_at(self.coin, self.sides@.len() as int) is Some
    }
}

/// What a conversion asks for next: an image to fetch, with the conversion
/// to resume once it is fetched, or the final answer.
#[derive(Debug)]
pub enum ConversionStep {
    FetchImage(CoinConversion, i64),
    Finished(Result<CoinDataDto, APIError>),
}

/// The step a conversion takes once the faces `sides` are decided: faces
/// without an image key are skipped; the first face with one is fetched; when
/// all three are decided the coin data is complete.
pub open spec fn step_after(coin: Coin, sides: Seq<Option<CoinSideDataDto>>, step: ConversionStep) -> bool {
    let filled = fill_absent(coin, sides);
    if filled.len() >= 3 {
        step matches ConversionStep::Finished(Ok(data)) && data == assembled(coin, filled)
    } else {
        step matches ConversionStep::FetchImage(next, key) && next.coin == coin && next.sides@ == filled
            && key_at(coin, filled.len() as int) == Some(key)
    }
}

/// The failed fetch of an image: `Database error`.
pub open spec fn is_database_error(step: ConversionStep) -> bool {
    step matches ConversionStep::Finished(Err(e)) && e.code == 500 && e.reason@ == "Database error"@
}

fn side_from_image(image: Option<CoinImage>) -> (side: Option<CoinSideDataDto>)
    ensures
        side == side_of_image(image),
        side is Some <==> image is Some,
        image matches Some(i) ==> (side matches Some(f) && f.image_url == i.image_url && f.thumbnail_url
            == i.thumbnail_url && f.lettering == i.lettering && f.description == i.description && f.copyright
            == i.copyright),
{
    match image {
        Some(i) => Some(
            CoinSideDataDto {
                image_url: i.image_url,
                thumbnail_url: i.thumbnail_url,
                lettering: i.lettering,
                description: i.description,
                copyright: i.copyright,
            },
        ),
        None => None,
    }
}

fn key_of(coin: &Coin, k: usize) -> (key: Option<i64>)
    ensures
        key == key_at(*coin, k as int),
{
    if k == 0 {
        coin.obverse
    } else if k == 1 {
        coin.reverse
    } else {
        coin.edge
    }
}

/// Skips the faces without an image key, then asks for the next image or
/// completes the coin data.
fn advance(coin: Coin, sides: Vec<Option<CoinSideDataDto>>) -> (step: ConversionStep)
    requires
        sides@.len() <= 3,
    ensures
        step_after(coin, sides@, step),
{
    let ghost start = sides@;
    let mut sides = sides;
    while sides.len() < 3 && key_of(&coin, sides.len()).is_none()
        invariant
            sides@.len() <= 3,
            fill_absent(coin, sides@) == fill_absent(coin, start),
        decreases 3 - sides@.len(),
    {
        sides.push(None);
    }
    if sides.len() < 3 {
        let key = key_of(&coin, sides.len()).unwrap();
        ConversionStep::FetchImage(CoinConversion { coin, sides }, key)
    } else {
        let edge = sides.pop().unwrap();
        let reverse = sides.pop().unwrap();
        let obverse = sides.pop().unwrap();
        ConversionStep::Finished(
            Ok(
                CoinResponse {
                    id: coin.id,
                    numista_id: coin.numista_id,
                    name: coin.name,
                    min_year: coin.min_year,
                    max_year: coin.max_year,
                    composition: coin.composition,
                    purity: coin.purity,
                    obverse,
                    reverse,
                    edge,
                },
            ),
        )
    }
}

/// Starts turning a stored coin into coin data. The images of its faces are
/// fetched one at a time, obverse, reverse, then edge, and only for the
/// faces whose key the coin holds.
pub fn convert_coin_model_to_coin_response(coin: Coin) -> (step: ConversionStep)
    ensures
        step_after(coin, Seq::empty(), step),
{
    advance(coin, Vec::new())
}

impl CoinConversion {
    /// Continues a conversion with the outcome of the image fetch it asked
    /// for: a failed fetch ends it with `Database error`; a fetched image (or
    /// none found) decides the face.
    pub fn resume(self, fetched: Result<Option<CoinImage>, ()>) -> (step: ConversionStep)
        requires
            self.awaits_image(),
        ensures
            match fetched {
                Err(_) => is_database_error(step),
                Ok(image) => step_after(self.coin, self.sides@.push(side_of_image(image)), step),
            },
    {
        match fetched {
            Err(_) => ConversionStep::Finished(Err(APIError::database_error())),
            Ok(image) => {
                let mut sides = self.sides;
                sides.push(side_from_image(image));
                advance(self.coin, sides)
            },
        }
    }
}

/// A face of a coin's response is present exactly when the coin holds the
/// key of that face's image.
pub proof fn lemma_side_iff_key(row: CoinRow)
    ensures
        coin_response_of(row).obverse is Some <==> row.obverse is Some,
        coin_response_of(row).reverse is Some <==> row.reverse is Some,
        coin_response_of(row).edge is Some <==> row.edge is Some,
{
}

/// A coin's response holds the coin's own columns, and each present face
/// holds that face's joined image columns, each in the field of the same
/// name.
pub proof fn lemma_coin_response_fields(row: CoinRow)
    ensures
        ({
            let r = coin_response_of(row);
            &&& r.id == row.id
            &&& r.numista_id == row.numista_id
            &&& r.name == row.name
            &&& r.min_year == row.min_year
            &&& r.max_year == row.max_year
            &&& r.composition == row.composition
            &&& r.purity == row.purity
            &&& r.obverse matches Some(f) ==> f.image_url == row.o_image_url && f.thumbnail_url == row.o_thumbnail_url
                && f.lettering == row.o_lettering && f.description == row.o_description && f.copyright
                == row.o_copyright
            &&& r.reverse matches Some(f) ==> f.image_url == row.r_image_url && f.thumbnail_url == row.r_thumbnail_url
                && f.lettering == row.r_lettering && f.description == row.r_description && f.copyright
                == row.r_copyright
            &&& r.edge matches Some(f) ==> f.image_url == row.e_image_url && f.thumbnail_url == row.e_thumbnail_url
                && f.lettering == row.e_lettering && f.description == row.e_description && f.copyright
                == row.e_copyright
        }),
{
}

/// The face made from a fetched image holds each image column in the field
/// of the same name; no image found means no face.
pub proof fn lemma_side_of_image_fields(image: Option<CoinImage>)
    ensures
        side_of_image(image) is Some <==> image is Some,
        image matches Some(i) ==> (side_of_image(image) matches Some(f) && f.image_url == i.image_url
            && f.thumbnail_url == i.thumbnail_url && f.lettering == i.lettering && f.description == i.description
            && f.copyright == i.copyright),
{
}

/// Completed coin data holds the coin's own columns and the decided faces,
/// obverse first, then reverse, then edge.
pub proof fn lemma_assembled_fields(coin: Coin, sides: Seq<Option<CoinSideDataDto>>)
    requires
        sides.len() == 3,
    ensures
        ({
            let d = assembled(coin, sides);
            &&& d.id == coin.id
            &&& d.numista_id == coin.numista_id
            &&& d.name == coin.name
            &&& d.min_year == coin.min_year
            &&& d.max_year == coin.max_year
            &&& d.composition == coin.composition
            &&& d.purity == coin.purity
            &&& d.obverse == sides[0]
            &&& d.reverse == sides[1]
            &&& d.edge == sides[2]
        }),
{
}

/// A face decided from a fetched image is that image's data: resuming a
/// conversion records the image in the face it was fetched for.
pub proof fn lemma_resume_records_image(conversion: CoinConversion, image: Option<CoinImage>, step: ConversionStep)
    requires
        conversion.awaits_image(),
        step_after(conversion.coin, conversion.sides@.push(side_of_image(image)), step),
    ensures
        ({
            let k = conversion.sides@.len() as int;
            &&& step matches ConversionStep::FetchImage(next, _) ==> next.sides@[k] == side_of_image(image)
                && next.sides@.len() > k
            &&& step matches ConversionStep::Finished(Ok(d)) ==> (if k == 0 {
                d.obverse == side_of_image(image)
            } else if k == 1 {
                d.reverse == side_of_image(image)
            } else {
                d.edge == side_of_image(image)
            })
        }),
{
    let pushed = conversion.sides@.push(side_of_image(image));
    lemma_fill_absent(conversion.coin, pushed);
    let k = conversion.sides@.len() as int;
    assert(pushed[k] == side_of_image(image));
    assert(fill_absent(conversion.coin, pushed)[k] == pushed[k]);
}

/// Every decided face that is present belongs to a face the coin holds a
/// key for.
pub open spec fn faces_have_keys(coin: Coin, sides: Seq<Option<CoinSideDataDto>>) -> bool {
    forall|k: int| 0 <= k < sides.len() && (#[trigger] sides[k]) is Some ==> key_at(coin, k) is Some
}

proof fn lemma_fill_absent(coin: Coin, sides: Seq<Option<CoinSideDataDto>>)
    requires
        sides.len() <= 3,
    ensures
        sides.len() <= fill_absent(coin, sides).len() <= 3,
        forall|k: int| 0 <= k < sides.len() ==> #[trigger] fill_absent(coin, sides)[k] == sides[k],
        forall|k: int|
            sides.len() <= k < fill_absent(coin, sides).len() ==> (#[trigger] fill_absent(coin, sides)[k]) is None
                && key_at(coin, k) is None,
        fill_absent(coin, sides).len() < 3 ==> key_at(coin, fill_absent(coin, sides).len() as int) is Some,
    decreases 3 - sides.len(),
{
    if !(sides.len() >= 3 || key_at(coin, sides.len() as int) is Some) {
        let next = sides.push(None);
        lemma_fill_absent(coin, next);
        assert forall|k: int| 0 <= k < sides.len() implies #[trigger] fill_absent(coin, sides)[k] == sides[k] by {
            assert(next[k] == sides[k]);
        }
    }
}

/// The faces of a coin's data only come from faces the coin holds a key
/// for, and every image the conversion asks for is the key of the next such
/// face.
pub proof fn lemma_conversion_faces_have_keys(coin: Coin, sides: Seq<Option<CoinSideDataDto>>, step: ConversionStep)
    requires
        sides.len() <= 3,
        faces_have_keys(coin, sides),
        step_after(coin, sides, step),
    ensures
        step matches ConversionStep::Finished(Ok(data)) ==> (data.obverse is Some ==> coin.obverse is Some) && (
        data.reverse is Some ==> coin.reverse is Some) && (data.edge is Some ==> coin.edge is Some),
        step matches ConversionStep::FetchImage(next, key) ==> faces_have_keys(coin, next.sides@)
            && next.awaits_image() && key_at(coin, next.sides@.len() as int) == Some(key),
{
    lemma_fill_absent(coin, sides);
    let filled = fill_absent(coin, sides);
    assert forall|k: int| 0 <= k < filled.len() && (#[trigger] filled[k]) is Some implies key_at(coin, k) is Some by {
        if k < sides.len() {
            assert(filled[k] == sides[k]);
        }
    }
    if filled.len() >= 3 {
        assert(filled[0] is Some ==> key_at(coin, 0) is Some);
        assert(filled[1] is Some ==> key_at(coin, 1) is Some);
        assert(filled[2] is Some ==> key_at(coin, 2) is Some);
    }
}

/// Resuming a conversion with a fetched image keeps every present face
/// backed by a key.
pub proof fn lemma_resume_faces_have_keys(conversion: CoinConversion, image: Option<CoinImage>)
    requires
        conversion.awaits_image(),
        faces_have_keys(conversion.coin, conversion.sides@),
    ensures
        faces_have_keys(conversion.coin, conversion.sides@.push(side_of_image(image))),
{
    let sides = conversion.sides@;
    let pushed = sides.push(side_of_image(image));
    assert forall|k: int| 0 <= k < pushed.len() && (#[trigger] pushed[k]) is Some implies key_at(
        conversion.coin,
        k,
    ) is Some by {
        if k < sides.len() {
            assert(pushed[k] == sides[k]);
        }
    }
}

/// A coin without image keys needs no fetch: its data is complete at once,
/// with no face.
pub proof fn lemma_conversion_without_keys(coin: Coin, step: ConversionStep)
    requires
        coin.obverse is None,
        coin.reverse is None,
        coin.edge is None,
        step_after(coin, Seq::empty(), step),
    ensures
        step matches ConversionStep::Finished(Ok(data)) && data.obverse is None && data.reverse is None
            && data.edge is None,
{
    lemma_fill_absent(coin, Seq::empty());
}

} // verus!
