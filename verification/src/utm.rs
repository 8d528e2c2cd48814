//! Positions in a UTM zone or in a polar grid, in whole metres.
//!
//! A projection returns eastings and northings as binary64 values. The grid
//! works on whole metres, so a projected value is cut down to the metre below
//! it. One that falls short of a whole metre by less than 2^-20 m (about a
//! micrometre) counts as that metre: projecting a grid corner back and forth
//! returns it only to within some nanometres, and the corner has to stay in
//! its own square.
use crate::binary64::{floor_scaled, is_finite, scaled_floor};
use crate::coordinate::GeographicCoordinate;
use crate::error::ConversionError;
use crate::grid_square::{
    in_envelope, in_polar_envelope, EASTING_LIMIT, MIN_EASTING, NORTHING_LIMIT, POLAR_CENTRE,
    SQUARE_SIDE,
};
use crate::zone::{
    band_index, band_index_at, band_is_north, band_letter, band_of_letter, band_reaches,
    band_reaches_row, hemisphere_of_letter, is_polar, is_polar_band, letter_hemisphere,
    polar_band, polar_band_is_east, polar_band_is_north, polar_band_letter, resolve_zone,
    zone_number_at, Hemisphere,
};
use vstd::arithmetic::div_mod::*;
use vstd::prelude::*;

verus! {

/// The northing given to the equator in the southern hemisphere, in metres.
pub const FALSE_NORTHING: u32 = 10_000_000;

/// What a projection returned for a point: the zone it projected in, the
/// hemisphere whose northing it gives, and the easting and northing in
/// metres as binary64 bit patterns.
#[derive(Clone, Copy, Debug)]
pub struct ProjectedPoint {
    /// The zone number that the projection used.
    pub zone: i32,
    /// Whether the northing is counted from the equator (`true`) or from
    /// 10,000 km south of it (`false`).
    pub north: bool,
    /// The easting in metres, as binary64 bits.
    pub easting_bits: u64,
    /// The northing in metres, as binary64 bits.
    pub northing_bits: u64,
}

/// The whole metres of a projected value: the floor of the value plus
/// 2^-20.
pub open spec fn metres_of(bits: u64) -> int {
    (scaled_floor(bits, 20) + 1) / 0x10_0000
}

/// Reads the whole metres of a projected value.
///
/// The answer is `None` for an infinity or a NaN, for a negative number of
/// metres and for one above `u32::MAX`.
pub fn metres(bits: u64) -> (r: Option<u32>)
    ensures
        r is Some <==> is_finite(bits) && 0 <= metres_of(bits) <= u32::MAX,
        r is Some ==> r->0 == metres_of(bits),
{
    match floor_scaled(bits, 20) {
        Some(cut) => {
            let above: i64 = cut.floor + 1;
            if above < 0 {
                proof {
                    lemma_div_is_ordered(above as int, -1, 0x10_0000);
                }
                None
            } else {
                let whole: i64 = above / 0x10_0000;
                if whole > u32::MAX as i64 {
                    None
                } else {
                    Some(whole as u32)
                }
            }
        },
        None => {
            proof {
                let f = scaled_floor(bits, 20);
                if is_finite(bits) {
                    if f >= 0x4000_0000_0000_0000 {
                        lemma_div_is_ordered(0x4000_0000_0000_0000, f + 1, 0x10_0000);
                    } else {
                        lemma_div_is_ordered(f + 1, -1, 0x10_0000);
                    }
                }
            }
            None
        },
    }
}

/// Whether an easting and a northing lie in the polar grid of a hemisphere.
pub fn in_polar_grid(north: bool, easting: u32, northing: u32) -> (r: bool)
    ensures
        r == in_polar_envelope(north, easting as int, northing as int),
{
    let low: u32 = if north {
        1_300_000
    } else {
        800_000
    };
    let limit: u32 = if north {
        2_700_000
    } else {
        3_200_000
    };
    low <= easting && easting < limit && low <= northing && northing < limit
}

/// A position in a UTM zone or, with zone 0, in a polar grid: the zone
/// number, the latitude band, and the easting and northing in whole metres.
#[derive(Clone, Copy, Debug)]
pub struct UtmCoordinate {
    zone_number: u8,
    latitude_band: char,
    easting: u32,
    northing: u32,
}

/// What a UTM position holds.
pub struct UtmView {
    pub zone_number: int,
    pub latitude_band: char,
    pub easting: int,
    pub northing: int,
}

impl UtmView {
    /// In a UTM zone: the zone is one of the sixty, the band one of the
    /// twenty, the position lies where the zone has grid squares, and the
    /// band reaches the row of the position in its column. In a polar grid,
    /// zone 0: the band is a polar one, the position lies in the grid of the
    /// band's hemisphere, and the band is the eastern one where the easting
    /// is that of the pole or more.
    pub open spec fn wf(self) -> bool {
        if self.zone_number == 0 {
            &&& is_polar_band(self.latitude_band)
            &&& in_polar_envelope(
                polar_band_is_north(self.latitude_band),
                self.easting,
                self.northing,
            )
            &&& polar_band_is_east(self.latitude_band) == (self.easting >= 2_000_000)
        } else {
            &&& 1 <= self.zone_number <= 60
            &&& band_index(self.latitude_band) is Some
            &&& in_envelope(self.easting, self.northing)
            &&& band_reaches(
                band_index(self.latitude_band)->0,
                self.northing / 100_000,
                self.easting / 100_000 - 1,
            )
        }
    }

    /// The hemisphere, which the band gives.
    pub open spec fn hemisphere(self) -> Hemisphere {
        letter_hemisphere(self.latitude_band)
    }
}

impl View for UtmCoordinate {
    type V = UtmView;

    closed spec fn view(&self) -> UtmView {
        UtmView {
            zone_number: self.zone_number as int,
            latitude_band: self.latitude_band,
            easting: self.easting as int,
            northing: self.northing as int,
        }
    }
}

/// The northing of a projected point counted from the equator: negative in
/// the south.
pub open spec fn northing_from_equator(point: ProjectedPoint) -> int {
    if point.north {
        metres_of(point.northing_bits)
    } else {
        metres_of(point.northing_bits) - 10_000_000
    }
}

/// The position of a point whose latitude and longitude have the given
/// floors and whose projection is `point`, or `None` where the projection
/// does not fit the point's zone.
///
/// The projection has to have used the point's zone and to give numbers of
/// metres that are not negative.
///
/// In a polar grid the projection has to count the northing in the point's
/// hemisphere and to give a position within the grid. The band is the
/// eastern one where the easting is that of the pole or more.
///
/// In a UTM zone the band is the point's own. The easting lies from 100 km
/// up to, not including, 900 km. North of the equator the northing is the
/// distance from it, from 0 up to, not including, 10,000 km. South of it the
/// northing is 10,000 km less the distance, and a point less than a metre
/// south of the equator lies in the last metre below 10,000 km. The band has
/// to reach the row of the position.
pub open spec fn projected_utm(latitude_floor: int, longitude_floor: int, point: ProjectedPoint)
    -> Option<UtmView> {
    let zone = zone_number_at(latitude_floor, longitude_floor);
    let band = band_index_at(latitude_floor);
    let easting = metres_of(point.easting_bits);
    let distance = northing_from_equator(point);
    if point.zone != zone || !is_finite(point.easting_bits) || !is_finite(point.northing_bits)
        || easting < 0 || metres_of(point.northing_bits) < 0 {
        None
    } else if is_polar(latitude_floor) {
        let north = latitude_floor >= 84;
        let northing = metres_of(point.northing_bits);
        if point.north == north && in_polar_envelope(north, easting, northing) {
            Some(
                UtmView {
                    zone_number: 0,
                    latitude_band: polar_band_letter(north, easting >= 2_000_000),
                    easting,
                    northing,
                },
            )
        } else {
            None
        }
    } else {
        let northing = if band_is_north(band) {
            distance
        } else if distance == 0 {
            9_999_999
        } else {
            distance + 10_000_000
        };
        if in_envelope(easting, northing) && (band_is_north(band) || distance <= 0)
            && band_reaches(band, northing / 100_000, easting / 100_000 - 1) {
            Some(UtmView { zone_number: zone, latitude_band: band_letter(band), easting, northing })
        } else {
            None
        }
    }
}

impl UtmCoordinate {
    #[verifier::type_invariant]
    closed spec fn inv(self) -> bool {
        self@.wf()
    }

    /// Makes a position of its parts; zone 0 stands for the polar grids.
    ///
    /// Fails with `OutOfProjectionDomain` unless the parts fit together. In
    /// a UTM zone: the zone is in 1..=60, the band is one of C..X without I
    /// and O, the easting is in 100,000..900,000, the northing below
    /// 10,000,000, and the band reaches the row of the northing. In a polar
    /// grid: the band is A, B, Y or Z, the position lies in the grid, and
    /// the band is B or Z where the easting is 2,000,000 or more.
    pub fn new(zone_number: u8, latitude_band: char, easting: u32, northing: u32) -> (r: Result<
        UtmCoordinate,
        ConversionError,
    >)
        ensures
            r is Ok <==> (UtmView {
                zone_number: zone_number as int,
                latitude_band,
                easting: easting as int,
                northing: northing as int,
            }).wf(),
            r is Ok ==> r->Ok_0@ == (UtmView {
                zone_number: zone_number as int,
                latitude_band,
                easting: easting as int,
                northing: northing as int,
            }),
            r is Err ==> r->Err_0 == ConversionError::OutOfProjectionDomain,
    {
        if zone_number == 0 {
            let north: bool = latitude_band == 'Y' || latitude_band == 'Z';
            let east: bool = latitude_band == 'B' || latitude_band == 'Z';
            let polar: bool = north || east || latitude_band == 'A';
            if polar && in_polar_grid(north, easting, northing) && east == (easting
                >= POLAR_CENTRE) {
                return Ok(UtmCoordinate { zone_number, latitude_band, easting, northing });
            }
            return Err(ConversionError::OutOfProjectionDomain);
        }
        let band: u8 = match band_of_letter(latitude_band) {
            Some(b) => b,
            None => { return Err(ConversionError::OutOfProjectionDomain); },
        };
        if zone_number <= 60 && MIN_EASTING <= easting && easting < EASTING_LIMIT && northing
            < NORTHING_LIMIT && band_reaches_row(
            band,
            (northing / SQUARE_SIDE) as u8,
            (easting / SQUARE_SIDE - 1) as u8,
        ) {
            Ok(UtmCoordinate { zone_number, latitude_band, easting, northing })
        } else {
            Err(ConversionError::OutOfProjectionDomain)
        }
    }

    /// Makes the position of a point of what a projection returned for it.
    ///
    /// Fails with `OutOfProjectionDomain` where the projection used another
    /// zone than the point's, or returned a position outside the part of the
    /// zone that grid squares cover or in a row that the point's band does
    /// not reach.
    pub fn from_projection(coordinate: &GeographicCoordinate, point: &ProjectedPoint) -> (r:
        Result<UtmCoordinate, ConversionError>)
        ensures
            r is Ok <==> projected_utm(
                coordinate@.latitude_floor(),
                coordinate@.longitude_floor(),
                *point,
            ) is Some,
            r is Ok ==> r->Ok_0@.wf() && Some(r->Ok_0@) == projected_utm(
                coordinate@.latitude_floor(),
                coordinate@.longitude_floor(),
                *point,
            ),
            r is Err ==> r->Err_0 == ConversionError::OutOfProjectionDomain,
    {
        let zone = resolve_zone(coordinate);
        let latitude: i16 = coordinate.latitude_floor();
        let longitude: i16 = coordinate.longitude_floor();
        proof {
            crate::zone::lemma_zone_in_range(
                latitude as int,
                longitude as int,
            );
        }
        if point.zone != zone.zone_number as i32 {
            return Err(ConversionError::OutOfProjectionDomain);
        }
        let easting: u32 = match metres(point.easting_bits) {
            Some(m) => m,
            None => { return Err(ConversionError::OutOfProjectionDomain); },
        };
        let raw: u32 = match metres(point.northing_bits) {
            Some(m) => m,
            None => { return Err(ConversionError::OutOfProjectionDomain); },
        };
        if zone.zone_number == 0 {
            let north: bool = latitude >= 84;
            if point.north != north || !in_polar_grid(north, easting, raw) {
                return Err(ConversionError::OutOfProjectionDomain);
            }
            return UtmCoordinate::new(0, polar_band(north, easting >= POLAR_CENTRE), easting, raw);
        }
        let band: u8 = match band_of_letter(zone.latitude_band) {
            Some(b) => b,
            None => { return Err(ConversionError::OutOfProjectionDomain); },
        };
        if easting < MIN_EASTING || easting >= EASTING_LIMIT {
            return Err(ConversionError::OutOfProjectionDomain);
        }
        // The distance from the equator, moved up by 10,000 km.
        let raised: u64 = if point.north {
            raw as u64 + FALSE_NORTHING as u64
        } else {
            raw as u64
        };
        let northing: u32 = if band >= 10 {
            if raised < 10_000_000 || raised >= 20_000_000 {
                return Err(ConversionError::OutOfProjectionDomain);
            }
            (raised - 10_000_000) as u32
        } else {
            if raised > 10_000_000 {
                return Err(ConversionError::OutOfProjectionDomain);
            }
            if raised == 10_000_000 {
                9_999_999
            } else {
                raised as u32
            }
        };
        UtmCoordinate::new(zone.zone_number, zone.latitude_band, easting, northing)
    }

    /// The zone number, 1..=60, or 0 in a polar grid.
    pub fn zone_number(&self) -> (zone: u8)
        ensures
            zone == self@.zone_number,
            self@.wf(),
    {
        proof {
            use_type_invariant(self);
        }
        self.zone_number
    }

    /// The latitude band letter.
    pub fn latitude_band(&self) -> (band: char)
        ensures
            band == self@.latitude_band,
            self@.wf(),
    {
        proof {
            use_type_invariant(self);
        }
        self.latitude_band
    }

    /// The hemisphere that the band lies in.
    pub fn hemisphere(&self) -> (side: Hemisphere)
        ensures
            side == self@.hemisphere(),
            self@.wf(),
    {
        proof {
            use_type_invariant(self);
        }
        hemisphere_of_letter(self.latitude_band)
    }

    /// The easting in metres.
    pub fn easting(&self) -> (metres: u32)
        ensures
            metres == self@.easting,
            self@.wf(),
    {
        proof {
            use_type_invariant(self);
        }
        self.easting
    }

    /// The northing in metres.
    pub fn northing(&self) -> (metres: u32)
        ensures
            metres == self@.northing,
            self@.wf(),
    {
        proof {
            use_type_invariant(self);
        }
        self.northing
    }
}

} // verus!
