//! Grid zones: which zone and which latitude band a point falls in.
//!
//! From 80 degrees south up to, not including, 84 degrees north the grid is
//! that of the sixty UTM zones. They are six degrees of longitude wide, but
//! for two exceptions: zone 32 is widened over south-west Norway, and around
//! Svalbard zones 31, 33, 35 and 37 share what zones 31 to 37 would cover.
//! The twenty latitude bands are eight degrees high and lettered from C in
//! the south to X in the north; the last one, X, is twelve degrees high.
//!
//! Beyond that lie the two polar grids, which have no zone number and are
//! told here by the number 0. Each has two bands: A west and B east of the
//! meridians 0 and 180 in the south, Y and Z in the north.
use crate::coordinate::GeographicCoordinate;
use crate::letters::{index_of, letter, letter_at, letter_index};
use vstd::prelude::*;

verus! {

/// The number of latitude bands of the UTM zones.
pub const BAND_COUNT: u8 = 20;

/// The zone number that stands for the polar grids.
pub const POLAR_ZONE: u8 = 0;

/// The side of a hemisphere that a point lies on.
#[derive(Clone, Copy, Debug, PartialEq, Eq, Structural)]
pub enum Hemisphere {
    North,
    South,
}

/// A zone with a latitude band.
#[derive(Clone, Copy, Debug, PartialEq, Eq, Structural)]
pub struct GridZone {
    /// The zone number, 1..=60, or 0 for the polar grids.
    pub zone_number: u8,
    /// The band letter: C..X without I and O, or A, B, Y, Z at the poles.
    pub latitude_band: char,
    /// The meridian at the middle of the zone, in degrees; 0 at the poles.
    pub central_meridian: i16,
}

/// Whether the latitudes with the given floor belong to a polar grid: those
/// south of 80 degrees south and those from 84 degrees north on.
pub open spec fn is_polar(latitude_floor: int) -> bool {
    latitude_floor < -80 || latitude_floor >= 84
}

/// The number of the band, from 0 for C to 19 for X, that holds the
/// latitudes with the given floor. Latitudes beyond the bands count to the
/// nearest one.
pub open spec fn band_index_at(latitude_floor: int) -> int {
    if latitude_floor < -80 {
        0
    } else if latitude_floor >= 72 {
        19
    } else {
        (latitude_floor + 80) / 8
    }
}

/// The letter of the band with the given number.
pub open spec fn band_letter(index: int) -> char
    recommends
        0 <= index < 20,
{
    letter_at(index + 2)
}

/// The number of the band with the given letter, if it is a band letter of
/// the UTM zones.
pub open spec fn band_index(band: char) -> Option<int> {
    match letter_index(band) {
        Some(i) => if 2 <= i < 22 {
            Some(i - 2)
        } else {
            None
        },
        None => None,
    }
}

/// Bands N to X lie north of the equator.
pub open spec fn band_is_north(index: int) -> bool {
    index >= 10
}

/// The hemisphere of the band with the given number.
pub open spec fn band_hemisphere(index: int) -> Hemisphere {
    if band_is_north(index) {
        Hemisphere::North
    } else {
        Hemisphere::South
    }
}

/// Whether the letter names a band of a polar grid.
pub open spec fn is_polar_band(band: char) -> bool {
    band == 'A' || band == 'B' || band == 'Y' || band == 'Z'
}

/// Whether a polar band is one of the north: Y or Z.
pub open spec fn polar_band_is_north(band: char) -> bool {
    band == 'Y' || band == 'Z'
}

/// Whether a polar band is an eastern one: B or Z.
pub open spec fn polar_band_is_east(band: char) -> bool {
    band == 'B' || band == 'Z'
}

/// The letter of the polar band of a hemisphere and a side.
pub open spec fn polar_band_letter(north: bool, east: bool) -> char {
    if north {
        if east {
            'Z'
        } else {
            'Y'
        }
    } else {
        if east {
            'B'
        } else {
            'A'
        }
    }
}

/// The hemisphere that a band letter lies in, polar bands included: the
/// letters from N on lie in the north.
pub open spec fn letter_hemisphere(band: char) -> Hemisphere {
    if band >= 'N' {
        Hemisphere::North
    } else {
        Hemisphere::South
    }
}

/// The floor of a longitude, with 180 taken as -180.
pub open spec fn wrapped_longitude(longitude_floor: int) -> int {
    if longitude_floor >= 180 {
        longitude_floor - 360
    } else {
        longitude_floor
    }
}

/// The zone that holds the longitude with the given floor where no exception
/// applies.
pub open spec fn regular_zone(longitude_floor: int) -> int {
    (wrapped_longitude(longitude_floor) + 180) / 6 + 1
}

/// The zone number of a point, from the floors of its latitude and
/// longitude: 0 in the polar grids.
pub open spec fn zone_number_at(latitude_floor: int, longitude_floor: int) -> int {
    let longitude = wrapped_longitude(longitude_floor);
    let band = band_index_at(latitude_floor);
    if is_polar(latitude_floor) {
        0
    } else if band == 17 && 3 <= longitude < 12 {
        // South-west Norway: band V from 3 to 12 degrees east.
        32
    } else if band == 19 && 0 <= longitude < 42 {
        // Svalbard: band X from 0 to 42 degrees east.
        if longitude < 9 {
            31
        } else if longitude < 21 {
            33
        } else if longitude < 33 {
            35
        } else {
            37
        }
    } else {
        regular_zone(longitude_floor)
    }
}

/// The band letter of a point, from the floors of its latitude and
/// longitude. In the polar grids the eastern band holds the longitudes from
/// 0 on.
pub open spec fn band_letter_at(latitude_floor: int, longitude_floor: int) -> char {
    if is_polar(latitude_floor) {
        polar_band_letter(latitude_floor >= 84, longitude_floor >= 0)
    } else {
        band_letter(band_index_at(latitude_floor))
    }
}

/// The central meridian of a zone, in degrees. The polar grids are centred
/// on the meridian 0.
pub open spec fn central_meridian_of(zone_number: int) -> int {
    if zone_number == 0 {
        0
    } else {
        (zone_number - 1) * 6 - 180 + 3
    }
}

/// The lowest row of 100 km, counted in the northing of its hemisphere, that
/// the band with the given number reaches anywhere in a zone.
pub open spec fn band_first_row(index: int) -> int
    recommends
        0 <= index < 20,
{
    if index == 0 {
        10
    } else if index == 1 {
        19
    } else if index == 2 {
        28
    } else if index == 3 {
        37
    } else if index == 4 {
        46
    } else if index == 5 {
        55
    } else if index == 6 {
        64
    } else if index == 7 {
        73
    } else if index == 8 {
        82
    } else if index == 9 {
        91
    } else if index == 10 {
        0
    } else if index == 11 {
        8
    } else if index == 12 {
        17
    } else if index == 13 {
        26
    } else if index == 14 {
        35
    } else if index == 15 {
        44
    } else if index == 16 {
        53
    } else if index == 17 {
        62
    } else if index == 18 {
        70
    } else {
        79
    }
}

/// How far a column of a zone lies from the nearer edge of the zone, in
/// columns: 0 for the two outermost, 3 for the two in the middle.
pub open spec fn edge_column(column: int) -> int {
    if column < 4 {
        column
    } else {
        7 - column
    }
}

/// Whether a band reaches a row of 100 km in a column of a zone. Rows are
/// counted in the northing of the band's hemisphere, columns from 0 to 7
/// eastwards.
///
/// A band reaches the same rows in every column, but for the rows at 6400,
/// 7100 and 8000 km from the equator, which the bands next to them reach
/// only near the middle or only near the edges of a zone.
pub open spec fn band_reaches(band: int, row: int, column: int) -> bool {
    let edge = edge_column(column);
    if band == 0 {
        10 <= row <= 19 || (row == 20 && edge >= 1)
    } else if band == 1 {
        20 <= row <= 28 || (row == 19 && edge <= 1) || (row == 29 && edge >= 2)
    } else if band == 2 {
        29 <= row <= 37 || (row == 28 && edge <= 2)
    } else if band == 3 {
        37 <= row <= 46
    } else if band == 4 {
        46 <= row <= 55
    } else if band == 5 {
        55 <= row <= 64
    } else if band == 6 {
        64 <= row <= 73
    } else if band == 7 {
        73 <= row <= 82
    } else if band == 8 {
        82 <= row <= 91
    } else if band == 9 {
        91 <= row <= 99
    } else if band == 10 {
        0 <= row <= 8
    } else if band == 11 {
        8 <= row <= 17
    } else if band == 12 {
        17 <= row <= 26
    } else if band == 13 {
        26 <= row <= 35
    } else if band == 14 {
        35 <= row <= 44
    } else if band == 15 {
        44 <= row <= 53
    } else if band == 16 {
        53 <= row <= 62
    } else if band == 17 {
        62 <= row <= 70 || (row == 71 && edge <= 2)
    } else if band == 18 {
        71 <= row <= 79 || (row == 70 && edge >= 2) || (row == 80 && edge <= 1)
    } else {
        80 <= row <= 94 || (row == 79 && edge >= 1)
    }
}

/// The grid zone of a point, by the floors of its latitude and longitude.
pub open spec fn grid_zone_at(latitude_floor: int, longitude_floor: int) -> GridZone {
    let zone = zone_number_at(latitude_floor, longitude_floor);
    GridZone {
        zone_number: zone as u8,
        latitude_band: band_letter_at(latitude_floor, longitude_floor),
        central_meridian: central_meridian_of(zone) as i16,
    }
}

/// Every point has a zone from 0 to 60 and a band. Outside the polar grids
/// the zone is at least 1 and the band one of the twenty; within them the
/// zone is 0 and the band a polar one of the point's hemisphere.
pub proof fn lemma_zone_in_range(latitude_floor: int, longitude_floor: int)
    requires
        -180 <= longitude_floor <= 180,
    ensures
        0 <= band_index_at(latitude_floor) < 20,
        0 <= zone_number_at(latitude_floor, longitude_floor) <= 60,
        -177 <= central_meridian_of(zone_number_at(latitude_floor, longitude_floor)) <= 177,
        !is_polar(latitude_floor) ==> zone_number_at(latitude_floor, longitude_floor) >= 1
            && band_index(band_letter_at(latitude_floor, longitude_floor)) == Some(
            band_index_at(latitude_floor),
        ),
        is_polar(latitude_floor) ==> zone_number_at(latitude_floor, longitude_floor) == 0
            && is_polar_band(band_letter_at(latitude_floor, longitude_floor))
            && polar_band_is_north(band_letter_at(latitude_floor, longitude_floor)) == (
            latitude_floor >= 84),
{
}

/// A band reaches no row below its first one and none twenty or more rows
/// beyond it, and every row it reaches lies below 10,000 km.
pub proof fn lemma_band_rows(band: int, row: int, column: int)
    requires
        0 <= band < 20,
        band_reaches(band, row, column),
    ensures
        0 <= band_first_row(band) <= row < band_first_row(band) + 20,
        row < 100,
{
}

/// Where the zones are regular and where they are not, between 80 degrees
/// south and 84 degrees north: in band V from 3 to 12 degrees east the zone
/// is 32; in band X from 0 to 42 degrees east it is 31, 33, 35 or 37,
/// changing at 9, 21 and 33 degrees; everywhere else the zone is the regular
/// one, whose central meridian lies within three degrees of the point.
pub proof fn law_zone_exceptions(latitude_floor: int, longitude_floor: int)
    requires
        -180 <= longitude_floor <= 180,
        -80 <= latitude_floor < 84,
    ensures
        56 <= latitude_floor < 64 && 3 <= longitude_floor < 12 ==> zone_number_at(
            latitude_floor,
            longitude_floor,
        ) == 32,
        72 <= latitude_floor && 0 <= longitude_floor < 42 ==> zone_number_at(
            latitude_floor,
            longitude_floor,
        ) == (if longitude_floor < 9 {
            31int
        } else if longitude_floor < 21 {
            33int
        } else if longitude_floor < 33 {
            35int
        } else {
            37int
        }),
        !(56 <= latitude_floor < 64 && 3 <= longitude_floor < 12) && !(72 <= latitude_floor && 0
            <= longitude_floor < 42) ==> {
            let zone = zone_number_at(latitude_floor, longitude_floor);
            &&& zone == regular_zone(longitude_floor)
            &&& central_meridian_of(zone) - 3 <= wrapped_longitude(longitude_floor)
                < central_meridian_of(zone) + 3
        },
{
}

/// Finds the zone number, the latitude band and the central meridian of a
/// point.
pub fn resolve_zone(coordinate: &GeographicCoordinate) -> (zone: GridZone)
    ensures
        zone == grid_zone_at(coordinate@.latitude_floor(), coordinate@.longitude_floor()),
        zone.zone_number == zone_number_at(
            coordinate@.latitude_floor(),
            coordinate@.longitude_floor(),
        ),
        zone.latitude_band == band_letter_at(
            coordinate@.latitude_floor(),
            coordinate@.longitude_floor(),
        ),
        zone.central_meridian == central_meridian_of(zone.zone_number as int),
        zone.zone_number <= 60,
{
    let latitude: i16 = coordinate.latitude_floor();
    let floor: i16 = coordinate.longitude_floor();
    proof {
        lemma_zone_in_range(latitude as int, floor as int);
    }
    if latitude < -80 || latitude >= 84 {
        return GridZone {
            zone_number: POLAR_ZONE,
            latitude_band: polar_band(latitude >= 84, floor >= 0),
            central_meridian: 0,
        };
    }
    let longitude: i16 = if floor >= 180 {
        floor - 360
    } else {
        floor
    };
    let band: u8 = band_of_latitude(latitude);
    let zone_number: u8 = if band == 17 && 3 <= longitude && longitude < 12 {
        32
    } else if band == 19 && 0 <= longitude && longitude < 42 {
        if longitude < 9 {
            31
        } else if longitude < 21 {
            33
        } else if longitude < 33 {
            35
        } else {
            37
        }
    } else {
        ((longitude + 180) / 6 + 1) as u8
    };
    GridZone {
        zone_number,
        latitude_band: letter(band + 2),
        central_meridian: (zone_number as i16 - 1) * 6 - 177,
    }
}

/// The number of the band that holds the latitudes with the given floor.
pub fn band_of_latitude(latitude_floor: i16) -> (index: u8)
    ensures
        index == band_index_at(latitude_floor as int),
        index < BAND_COUNT,
{
    if latitude_floor < -80 {
        0
    } else if latitude_floor >= 72 {
        19
    } else {
        ((latitude_floor + 80) / 8) as u8
    }
}

/// The number of the band with the given letter, or `None` for any other
/// character.
pub fn band_of_letter(band: char) -> (r: Option<u8>)
    ensures
        r is Some <==> band_index(band) is Some,
        r is Some ==> r->0 == band_index(band)->0 && r->0 < BAND_COUNT,
{
    match index_of(band) {
        Some(i) => if 2 <= i && i < 22 {
            Some(i - 2)
        } else {
            None
        },
        None => None,
    }
}

/// The letter of the polar band of a hemisphere and a side.
pub fn polar_band(north: bool, east: bool) -> (band: char)
    ensures
        band == polar_band_letter(north, east),
        is_polar_band(band),
{
    if north {
        if east {
            'Z'
        } else {
            'Y'
        }
    } else {
        if east {
            'B'
        } else {
            'A'
        }
    }
}

/// The hemisphere of the band with the given number.
pub fn hemisphere_of_band(index: u8) -> (side: Hemisphere)
    ensures
        side == band_hemisphere(index as int),
{
    if index >= 10 {
        Hemisphere::North
    } else {
        Hemisphere::South
    }
}

/// The hemisphere that a band letter lies in, polar bands included.
pub fn hemisphere_of_letter(band: char) -> (side: Hemisphere)
    ensures
        side == letter_hemisphere(band),
{
    if band >= 'N' {
        Hemisphere::North
    } else {
        Hemisphere::South
    }
}

/// The lowest row of 100 km that the band with the given number reaches.
pub fn first_row_of_band(index: u8) -> (row: u8)
    requires
        index < BAND_COUNT,
    ensures
        row == band_first_row(index as int),
        row <= 91,
{
    if index == 0 {
        10
    } else if index == 1 {
        19
    } else if index == 2 {
        28
    } else if index == 3 {
        37
    } else if index == 4 {
        46
    } else if index == 5 {
        55
    } else if index == 6 {
        64
    } else if index == 7 {
        73
    } else if index == 8 {
        82
    } else if index == 9 {
        91
    } else if index == 10 {
        0
    } else if index == 11 {
        8
    } else if index == 12 {
        17
    } else if index == 13 {
        26
    } else if index == 14 {
        35
    } else if index == 15 {
        44
    } else if index == 16 {
        53
    } else if index == 17 {
        62
    } else if index == 18 {
        70
    } else {
        79
    }
}

/// Whether a band reaches a row of 100 km in a column of a zone.
pub fn band_reaches_row(band: u8, row: u8, column: u8) -> (r: bool)
    ensures
        r == band_reaches(band as int, row as int, column as int),
{
    let edge: i16 = if column < 4 {
        column as i16
    } else {
        7 - column as i16
    };
    if band == 0 {
        10 <= row && row <= 19 || (row == 20 && edge >= 1)
    } else if band == 1 {
        20 <= row && row <= 28 || (row == 19 && edge <= 1) || (row == 29 && edge >= 2)
    } else if band == 2 {
        29 <= row && row <= 37 || (row == 28 && edge <= 2)
    } else if band == 3 {
        37 <= row && row <= 46
    } else if band == 4 {
        46 <= row && row <= 55
    } else if band == 5 {
        55 <= row && row <= 64
    } else if band == 6 {
        64 <= row && row <= 73
    } else if band == 7 {
        73 <= row && row <= 82
    } else if band == 8 {
        82 <= row && row <= 91
    } else if band == 9 {
        91 <= row && row <= 99
    } else if band == 10 {
        0 <= row && row <= 8
    } else if band == 11 {
        8 <= row && row <= 17
    } else if band == 12 {
        17 <= row && row <= 26
    } else if band == 13 {
        26 <= row && row <= 35
    } else if band == 14 {
        35 <= row && row <= 44
    } else if band == 15 {
        44 <= row && row <= 53
    } else if band == 16 {
        53 <= row && row <= 62
    } else if band == 17 {
        62 <= row && row <= 70 || (row == 71 && edge <= 2)
    } else if band == 18 {
        71 <= row && row <= 79 || (row == 70 && edge >= 2) || (row == 80 && edge <= 1)
    } else {
        80 <= row && row <= 94 || (row == 79 && edge >= 1)
    }
}

} // verus!
