//! Geographic coordinates, checked when they are made.
use crate::binary64::{
    at_least, exponent, exponent_field, floor, floor_scaled, fraction_field, lemma_floor_decides,
    numerator, within,
};
use crate::error::ConversionError;
use vstd::arithmetic::power2::*;
use vstd::prelude::*;

verus! {

/// The bit pattern of the binary64 value -180.
pub const MINUS_180_BITS: u64 = 0xC066_8000_0000_0000;

/// Whether the bits are a latitude: a number of degrees from -90 to 90.
pub open spec fn valid_latitude(bits: u64) -> bool {
    within(bits, -90, 90)
}

/// Whether the bits are a longitude: a number of degrees from -180 to 180.
pub open spec fn valid_longitude(bits: u64) -> bool {
    within(bits, -180, 180)
}

/// A point on the ellipsoid in degrees, each angle kept as the bit pattern of
/// a binary64 value.
#[derive(Clone, Copy, Debug)]
pub struct GeographicCoordinate {
    latitude_bits: u64,
    longitude_bits: u64,
}

/// What a coordinate holds.
pub struct GeographicView {
    pub latitude_bits: u64,
    pub longitude_bits: u64,
}

impl GeographicView {
    /// Both angles are numbers within their ranges.
    pub open spec fn wf(self) -> bool {
        valid_latitude(self.latitude_bits) && valid_longitude(self.longitude_bits)
    }

    /// The whole degrees of latitude at or below the point.
    pub open spec fn latitude_floor(self) -> int {
        floor(self.latitude_bits)
    }

    /// The whole degrees of longitude at or below the point.
    pub open spec fn longitude_floor(self) -> int {
        floor(self.longitude_bits)
    }

    /// The longitude to project with: the meridian at 180 degrees is the one
    /// at -180, and projections take it under that name.
    pub open spec fn projection_longitude_bits(self) -> u64 {
        if at_least(self.longitude_bits, 180) {
            MINUS_180_BITS
        } else {
            self.longitude_bits
        }
    }
}

impl View for GeographicCoordinate {
    type V = GeographicView;

    closed spec fn view(&self) -> GeographicView {
        GeographicView { latitude_bits: self.latitude_bits, longitude_bits: self.longitude_bits }
    }
}

/// Decides whether the value is a number in the closed range from `low` to
/// `high`.
pub fn in_range(bits: u64, low: i32, high: i32) -> (r: bool)
    ensures
        r == within(bits, low as int, high as int),
{
    proof {
        lemma_floor_decides(bits, low as int);
        lemma_floor_decides(bits, high as int);
    }
    match floor_scaled(bits, 0) {
        Some(cut) => cut.floor >= low as i64 && (cut.floor < high as i64 || (cut.floor
            == high as i64 && cut.whole)),
        None => false,
    }
}

/// A valid angle lies between whole bounds, and so does its floor.
pub proof fn lemma_floor_within(bits: u64, low: int, high: int)
    requires
        within(bits, low, high),
    ensures
        low <= floor(bits) <= high,
{
    lemma_floor_decides(bits, low);
    lemma_floor_decides(bits, high);
}

/// The value -180 is a longitude, the lowest one.
pub proof fn lemma_minus_180()
    ensures
        valid_longitude(MINUS_180_BITS),
        floor(MINUS_180_BITS) == -180,
        !at_least(MINUS_180_BITS, 180),
{
    lemma2_to64_rest();
    assert(exponent_field(MINUS_180_BITS) == 1030);
    assert(fraction_field(MINUS_180_BITS) == 0x6_8000_0000_0000);
    assert(exponent(MINUS_180_BITS) == -45);
    assert(numerator(MINUS_180_BITS) == -0x16_8000_0000_0000);
    assert(pow2(45) == 0x2000_0000_0000);
    lemma_floor_decides(MINUS_180_BITS, -180);
    lemma_floor_decides(MINUS_180_BITS, 180);
}

impl GeographicCoordinate {
    #[verifier::type_invariant]
    closed spec fn inv(self) -> bool {
        valid_latitude(self.latitude_bits) && valid_longitude(self.longitude_bits)
    }

    /// Makes a coordinate of a latitude and a longitude in degrees, given as
    /// binary64 bit patterns.
    ///
    /// Fails with `InvalidCoordinate` unless both are numbers, the latitude
    /// in [-90, 90] and the longitude in [-180, 180].
    pub fn validate(latitude_bits: u64, longitude_bits: u64) -> (r: Result<
        GeographicCoordinate,
        ConversionError,
    >)
        ensures
            r is Ok <==> valid_latitude(latitude_bits) && valid_longitude(longitude_bits),
            r is Ok ==> r->Ok_0@ == (GeographicView { latitude_bits, longitude_bits })
                && r->Ok_0@.wf(),
            r is Err ==> r->Err_0 == ConversionError::InvalidCoordinate,
    {
        if in_range(latitude_bits, -90, 90) && in_range(longitude_bits, -180, 180) {
            Ok(GeographicCoordinate { latitude_bits, longitude_bits })
        } else {
            Err(ConversionError::InvalidCoordinate)
        }
    }

    /// Makes a coordinate of what an inverse projection returned.
    ///
    /// Fails with `OutOfProjectionDomain` unless both angles are numbers
    /// within their ranges: a projection that is asked for a point outside
    /// its domain answers with angles that are none.
    pub fn from_projection(latitude_bits: u64, longitude_bits: u64) -> (r: Result<
        GeographicCoordinate,
        ConversionError,
    >)
        ensures
            r is Ok <==> valid_latitude(latitude_bits) && valid_longitude(longitude_bits),
            r is Ok ==> r->Ok_0@ == (GeographicView { latitude_bits, longitude_bits })
                && r->Ok_0@.wf(),
            r is Err ==> r->Err_0 == ConversionError::OutOfProjectionDomain,
    {
        if in_range(latitude_bits, -90, 90) && in_range(longitude_bits, -180, 180) {
            Ok(GeographicCoordinate { latitude_bits, longitude_bits })
        } else {
            Err(ConversionError::OutOfProjectionDomain)
        }
    }

    /// The latitude in degrees, as binary64 bits.
    pub fn latitude_bits(&self) -> (bits: u64)
        ensures
            bits == self@.latitude_bits,
            valid_latitude(bits),
    {
        proof {
            use_type_invariant(self);
        }
        self.latitude_bits
    }

    /// The longitude in degrees, as binary64 bits.
    pub fn longitude_bits(&self) -> (bits: u64)
        ensures
            bits == self@.longitude_bits,
            valid_longitude(bits),
    {
        proof {
            use_type_invariant(self);
        }
        self.longitude_bits
    }

    /// The whole degrees of latitude at or below the point.
    pub fn latitude_floor(&self) -> (degrees: i16)
        ensures
            degrees == self@.latitude_floor(),
            -90 <= degrees <= 90,
            self@.wf(),
    {
        proof {
            use_type_invariant(self);
            lemma_floor_within(self.latitude_bits, -90, 90);
        }
        match floor_scaled(self.latitude_bits, 0) {
            Some(cut) => cut.floor as i16,
            None => 0,
        }
    }

    /// The whole degrees of longitude at or below the point.
    pub fn longitude_floor(&self) -> (degrees: i16)
        ensures
            degrees == self@.longitude_floor(),
            -180 <= degrees <= 180,
            self@.wf(),
    {
        proof {
            use_type_invariant(self);
            lemma_floor_within(self.longitude_bits, -180, 180);
        }
        match floor_scaled(self.longitude_bits, 0) {
            Some(cut) => cut.floor as i16,
            None => 0,
        }
    }

    /// The longitude to hand to a projection, which takes the meridian at
    /// 180 degrees as -180.
    pub fn projection_longitude_bits(&self) -> (bits: u64)
        ensures
            bits == self@.projection_longitude_bits(),
            valid_longitude(bits),
            !at_least(bits, 180),
    {
        proof {
            use_type_invariant(self);
            lemma_minus_180();
            lemma_floor_decides(self.longitude_bits, 180);
        }
        if self.longitude_floor() == 180 {
            MINUS_180_BITS
        } else {
            self.longitude_bits
        }
    }
}

} // verus!
