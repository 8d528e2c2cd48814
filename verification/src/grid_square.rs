//! The 100 km grid squares of a zone and the two letters that name them.
//!
//! Columns are lettered eastwards through the alphabet without I and O in
//! sets of eight: zones 1, 4, 7, .. use A to H, zones 2, 5, 8, .. use J to R
//! and zones 3, 6, 9, .. use S to Z. Rows are lettered northwards through A
//! to V, twenty letters that repeat every 2000 km; in zones with an even
//! number the lettering starts five rows later, at F.
//!
//! The polar grids have squares of the same size. Their columns are lettered
//! through the alphabet without D, E, I, M, N, O, V and W, eastwards from A
//! at the meridians 0 and 180 in the eastern band and up to Z at those
//! meridians in the western band. Their rows are lettered from A at the
//! southern edge of the grid, through the alphabet without I and O.
use crate::error::{ConversionError, MgrsField};
use crate::letters::{
    index_of, letter, letter_at, letter_index, polar_index_of, polar_letter, polar_letter_at,
    polar_letter_index,
};
use crate::zone::{is_polar_band, polar_band_is_east, polar_band_is_north};
use vstd::prelude::*;

verus! {

/// The side of a grid square, in metres.
pub const SQUARE_SIDE: u32 = 100_000;

/// The least easting of a zone's grid squares, in metres.
pub const MIN_EASTING: u32 = 100_000;

/// The eastings of a zone's grid squares lie below this, in metres.
pub const EASTING_LIMIT: u32 = 900_000;

/// The northings of a hemisphere lie below this, in metres.
pub const NORTHING_LIMIT: u32 = 10_000_000;

/// The number of rows after which the row letters repeat.
pub const ROW_CYCLE: u8 = 20;

/// The two letters of a grid square.
#[derive(Clone, Copy, Debug, PartialEq, Eq, Structural)]
pub struct GridSquare {
    pub column_letter: char,
    pub row_letter: char,
}

/// The south-west corner of a grid square, in metres.
#[derive(Clone, Copy, Debug, PartialEq, Eq, Structural)]
pub struct SquareOrigin {
    pub easting: u32,
    pub northing: u32,
}

/// Whether an easting and a northing lie in the part of a zone that grid
/// squares cover.
pub open spec fn in_envelope(easting: int, northing: int) -> bool {
    100_000 <= easting < 900_000 && 0 <= northing < 10_000_000
}

/// Which of the three sets of column letters a zone uses: 0 for A to H, 1
/// for J to R, 2 for S to Z.
pub open spec fn column_set(zone_number: int) -> int {
    (zone_number - 1) % 3
}

/// By how many rows the row lettering of a zone is moved on.
pub open spec fn row_shift(zone_number: int) -> int {
    if zone_number % 2 == 0 {
        5
    } else {
        0
    }
}

/// The column letter of the square that holds an easting.
pub open spec fn column_letter_at(easting: int, zone_number: int) -> char {
    letter_at(8 * column_set(zone_number) + easting / 100_000 - 1)
}

/// The row letter of the square that holds a northing.
pub open spec fn row_letter_at(northing: int, zone_number: int) -> char {
    letter_at((northing / 100_000 + row_shift(zone_number)) % 20)
}

/// The easting of the west edge of a column, if the letter is one of the
/// zone's eight.
pub open spec fn column_origin(column_letter: char, zone_number: int) -> Option<int> {
    match letter_index(column_letter) {
        Some(i) => if i / 8 == column_set(zone_number) {
            Some((i % 8 + 1) * 100_000)
        } else {
            None
        },
        None => None,
    }
}

/// The place of a row in its cycle of twenty, counted in rows from a
/// northing that is a multiple of 2000 km, if the letter is a row letter.
pub open spec fn row_in_cycle(row_letter: char, zone_number: int) -> Option<int> {
    match letter_index(row_letter) {
        Some(i) => if i < 20 {
            Some((i + 20 - row_shift(zone_number)) % 20)
        } else {
            None
        },
        None => None,
    }
}

/// The northing of the south edge of a row: of the rows with the given
/// letter, the first one that does not start south of the row that holds
/// `approximate_northing`.
pub open spec fn row_origin(row_letter: char, zone_number: int, approximate_northing: int)
    -> Option<int> {
    match row_in_cycle(row_letter, zone_number) {
        Some(place) => {
            let first = approximate_northing / 100_000;
            Some((first + (place + 20 - first % 20) % 20) * 100_000)
        },
        None => None,
    }
}

/// The outcome of decoding the two letters of a grid square.
pub open spec fn square_origin(
    column_letter: char,
    row_letter: char,
    zone_number: int,
    approximate_northing: int,
) -> Result<(int, int), ConversionError> {
    match column_origin(column_letter, zone_number) {
        None => Err(ConversionError::MalformedMgrs(MgrsField::Column)),
        Some(easting) => match row_origin(row_letter, zone_number, approximate_northing) {
            None => Err(ConversionError::MalformedMgrs(MgrsField::Row)),
            Some(northing) => if northing >= 10_000_000 {
                Err(ConversionError::OutOfProjectionDomain)
            } else {
                Ok((easting, northing))
            },
        },
    }
}

/// Of the rows that carry a letter, decoding picks the one nearest the
/// approximate northing from the north: it has the letter's place in the
/// cycle, does not start south of the approximate row, and no other such
/// row, `other_row`, starts south of it.
pub proof fn law_row_origin_is_nearest(
    row_letter: char,
    zone_number: int,
    approximate_northing: int,
    other_row: int,
)
    requires
        0 <= approximate_northing,
        row_in_cycle(row_letter, zone_number) is Some,
    ensures
        row_origin(row_letter, zone_number, approximate_northing) is Some,
        ({
            let origin = row_origin(row_letter, zone_number, approximate_northing)->0;
            let first = approximate_northing / 100_000;
            let place = row_in_cycle(row_letter, zone_number)->0;
            &&& origin % 100_000 == 0
            &&& first <= origin / 100_000 < first + 20
            &&& (origin / 100_000) % 20 == place
            &&& first <= other_row && other_row % 20 == place ==> origin / 100_000 <= other_row
        }),
{
}

/// Names the grid square that holds a position of a zone.
pub fn to_grid_square(easting: u32, northing: u32, zone_number: u8) -> (square: GridSquare)
    requires
        1 <= zone_number <= 60,
        in_envelope(easting as int, northing as int),
    ensures
        square.column_letter == column_letter_at(easting as int, zone_number as int),
        square.row_letter == row_letter_at(northing as int, zone_number as int),
        column_origin(square.column_letter, zone_number as int) == Some(
            easting as int - easting as int % 100_000,
        ),
        row_in_cycle(square.row_letter, zone_number as int) == Some(
            (northing as int / 100_000) % 20,
        ),
{
    let set: u8 = (zone_number - 1) % 3;
    let column: u8 = (easting / SQUARE_SIDE) as u8 - 1;
    let shift: u32 = if zone_number % 2 == 0 {
        5
    } else {
        0
    };
    let row: u8 = ((northing / SQUARE_SIDE + shift) % 20) as u8;
    GridSquare { column_letter: letter(8 * set + column), row_letter: letter(row) }
}

/// Finds the south-west corner of the grid square with the given letters.
///
/// The row letters repeat every 2000 km: the row meant is the first one with
/// that letter at or north of the row that holds `approximate_northing`,
/// which a caller takes from the southern edge of the latitude band.
///
/// Fails with `MalformedMgrs(Column)` for a letter that is not one of the
/// zone's eight, with `MalformedMgrs(Row)` for a letter that is not a row
/// letter, and with `OutOfProjectionDomain` where the row would start at or
/// beyond 10,000 km.
pub fn from_grid_square(
    column_letter: char,
    row_letter: char,
    zone_number: u8,
    approximate_northing: u32,
) -> (r: Result<SquareOrigin, ConversionError>)
    requires
        1 <= zone_number <= 60,
    ensures
        r is Ok <==> square_origin(
            column_letter,
            row_letter,
            zone_number as int,
            approximate_northing as int,
        ) is Ok,
        r is Ok ==> (r->Ok_0.easting as int, r->Ok_0.northing as int) == square_origin(
            column_letter,
            row_letter,
            zone_number as int,
            approximate_northing as int,
        )->Ok_0,
        r is Err ==> Err::<(int, int), ConversionError>(r->Err_0) == square_origin(
            column_letter,
            row_letter,
            zone_number as int,
            approximate_northing as int,
        ),
{
    let set: u8 = (zone_number - 1) % 3;
    let column: u8 = match index_of(column_letter) {
        Some(i) => i,
        None => { return Err(ConversionError::MalformedMgrs(MgrsField::Column)); },
    };
    if column / 8 != set {
        return Err(ConversionError::MalformedMgrs(MgrsField::Column));
    }
    let easting: u32 = (column as u32 % 8 + 1) * SQUARE_SIDE;
    let row: u8 = match index_of(row_letter) {
        Some(i) => i,
        None => { return Err(ConversionError::MalformedMgrs(MgrsField::Row)); },
    };
    if row >= ROW_CYCLE {
        return Err(ConversionError::MalformedMgrs(MgrsField::Row));
    }
    let shift: u8 = if zone_number % 2 == 0 {
        5
    } else {
        0
    };
    let place: u32 = ((row + 20 - shift) % 20) as u32;
    let first: u32 = approximate_northing / SQUARE_SIDE;
    let rows: u32 = first + (place + 20 - first % 20) % 20;
    if rows >= 100 {
        return Err(ConversionError::OutOfProjectionDomain);
    }
    Ok(SquareOrigin { easting, northing: rows * SQUARE_SIDE })
}

/// The position of the pole on either axis of a polar grid, in metres. The
/// meridians 0 and 180 have this easting.
pub const POLAR_CENTRE: u32 = 2_000_000;

/// The first column and row of 100 km of a polar grid, counted from the
/// origin of its eastings and northings.
pub open spec fn polar_first_index(north: bool) -> int {
    if north {
        13
    } else {
        8
    }
}

/// The columns and rows of a polar grid lie below this one.
pub open spec fn polar_index_limit(north: bool) -> int {
    if north {
        27
    } else {
        32
    }
}

/// Whether an easting and a northing lie in a polar grid.
pub open spec fn in_polar_envelope(north: bool, easting: int, northing: int) -> bool {
    &&& polar_first_index(north) * 100_000 <= easting < polar_index_limit(north) * 100_000
    &&& polar_first_index(north) * 100_000 <= northing < polar_index_limit(north) * 100_000
}

/// The column letter of the polar square that holds an easting.
pub open spec fn polar_column_letter_at(easting: int) -> char {
    let column = easting / 100_000;
    if column >= 20 {
        polar_letter_at(column - 20)
    } else {
        polar_letter_at(column - 2)
    }
}

/// The row letter of the polar square that holds a northing.
pub open spec fn polar_row_letter_at(northing: int, north: bool) -> char {
    letter_at(northing / 100_000 - polar_first_index(north))
}

/// The easting of the west edge of a polar column, if the letter names a
/// column of the band.
pub open spec fn polar_column_origin(column_letter: char, band: char) -> Option<int> {
    match polar_letter_index(column_letter) {
        Some(i) => {
            let column = if polar_band_is_east(band) {
                i + 20
            } else {
                i + 2
            };
            let north = polar_band_is_north(band);
            if polar_first_index(north) <= column < polar_index_limit(north) {
                Some(column * 100_000)
            } else {
                None
            }
        },
        None => None,
    }
}

/// The northing of the south edge of a polar row, if the letter names a row
/// of the band's grid.
pub open spec fn polar_row_origin(row_letter: char, band: char) -> Option<int> {
    match letter_index(row_letter) {
        Some(i) => {
            let north = polar_band_is_north(band);
            if i + polar_first_index(north) < polar_index_limit(north) {
                Some((i + polar_first_index(north)) * 100_000)
            } else {
                None
            }
        },
        None => None,
    }
}

/// The outcome of decoding the two letters of a polar square.
pub open spec fn polar_square_origin(band: char, column_letter: char, row_letter: char) -> Result<
    (int, int),
    ConversionError,
> {
    match polar_column_origin(column_letter, band) {
        None => Err(ConversionError::MalformedMgrs(MgrsField::Column)),
        Some(easting) => match polar_row_origin(row_letter, band) {
            None => Err(ConversionError::MalformedMgrs(MgrsField::Row)),
            Some(northing) => Ok((easting, northing)),
        },
    }
}

/// Names the square of a polar grid that holds a position.
pub fn to_polar_square(easting: u32, northing: u32, north: bool) -> (square: GridSquare)
    requires
        in_polar_envelope(north, easting as int, northing as int),
    ensures
        square.column_letter == polar_column_letter_at(easting as int),
        square.row_letter == polar_row_letter_at(northing as int, north),
        letter_index(square.column_letter) is Some,
        letter_index(square.row_letter) is Some,
{
    let column: u32 = easting / SQUARE_SIDE;
    let first: u32 = if north {
        13
    } else {
        8
    };
    let row: u32 = northing / SQUARE_SIDE - first;
    let column_letter = if column >= 20 {
        polar_letter((column - 20) as u8)
    } else {
        polar_letter((column - 2) as u8)
    };
    GridSquare { column_letter, row_letter: letter(row as u8) }
}

/// Finds the south-west corner of the square of a polar grid with the given
/// letters.
///
/// Fails with `MalformedMgrs(Column)` for a letter that names no column of
/// the band, and with `MalformedMgrs(Row)` for a letter that names no row of
/// the band's grid.
pub fn from_polar_square(band: char, column_letter: char, row_letter: char) -> (r: Result<
    SquareOrigin,
    ConversionError,
>)
    requires
        is_polar_band(band),
    ensures
        r is Ok <==> polar_square_origin(band, column_letter, row_letter) is Ok,
        r is Ok ==> (r->Ok_0.easting as int, r->Ok_0.northing as int) == polar_square_origin(
            band,
            column_letter,
            row_letter,
        )->Ok_0,
        r is Err ==> Err::<(int, int), ConversionError>(r->Err_0) == polar_square_origin(
            band,
            column_letter,
            row_letter,
        ),
{
    let north: bool = band == 'Y' || band == 'Z';
    let east: bool = band == 'B' || band == 'Z';
    let first: u32 = if north {
        13
    } else {
        8
    };
    let limit: u32 = if north {
        27
    } else {
        32
    };
    let index: u8 = match polar_index_of(column_letter) {
        Some(i) => i,
        None => { return Err(ConversionError::MalformedMgrs(MgrsField::Column)); },
    };
    let column: u32 = if east {
        index as u32 + 20
    } else {
        index as u32 + 2
    };
    if column < first || column >= limit {
        return Err(ConversionError::MalformedMgrs(MgrsField::Column));
    }
    let row: u32 = match index_of(row_letter) {
        Some(i) => i as u32 + first,
        None => { return Err(ConversionError::MalformedMgrs(MgrsField::Row)); },
    };
    if row >= limit {
        return Err(ConversionError::MalformedMgrs(MgrsField::Row));
    }
    Ok(SquareOrigin { easting: column * SQUARE_SIDE, northing: row * SQUARE_SIDE })
}

} // verus!
