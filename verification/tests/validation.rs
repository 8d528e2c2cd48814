use ex_mgrs::binary64::{floor_scaled, Floored};
use ex_mgrs::convert::check_precision;
use ex_mgrs::coordinate::{in_range, GeographicCoordinate, MINUS_180_BITS};
use ex_mgrs::error::{ConversionError, MgrsField};
use ex_mgrs::utm::metres;

fn validate(lat: f64, lon: f64) -> Result<GeographicCoordinate, ConversionError> {
    GeographicCoordinate::validate(lat.to_bits(), lon.to_bits())
}

fn floor_of(x: f64, scale: u8) -> Option<Floored> {
    floor_scaled(x.to_bits(), scale)
}

#[test]
fn validation_boundaries() {
    assert!(validate(90.0, 0.0).is_ok());
    assert!(validate(-90.0, 0.0).is_ok());
    assert_eq!(validate(90.0001, 0.0).err(), Some(ConversionError::InvalidCoordinate));
    assert_eq!(validate(0.0, 180.0001).err(), Some(ConversionError::InvalidCoordinate));
}

#[test]
fn validation_accepts_the_whole_closed_ranges() {
    assert!(validate(0.0, 180.0).is_ok());
    assert!(validate(0.0, -180.0).is_ok());
    assert!(validate(-0.0, -0.0).is_ok());
    assert!(validate(89.99999999999999, 179.99999999999997).is_ok());
    assert!(validate(f64::MIN_POSITIVE, -f64::MIN_POSITIVE).is_ok());
    assert!(validate(5e-324, -5e-324).is_ok());
}

#[test]
fn validation_rejects_values_just_outside() {
    assert!(validate(90.00000000000001, 0.0).is_err());
    assert!(validate(-90.00000000000001, 0.0).is_err());
    assert!(validate(0.0, 180.00000000000003).is_err());
    assert!(validate(0.0, -180.00000000000003).is_err());
    assert!(validate(1e300, 0.0).is_err());
    assert!(validate(0.0, -1e300).is_err());
}

#[test]
fn validation_rejects_what_is_no_number() {
    assert_eq!(validate(f64::NAN, 0.0).err(), Some(ConversionError::InvalidCoordinate));
    assert_eq!(validate(0.0, f64::NAN).err(), Some(ConversionError::InvalidCoordinate));
    assert_eq!(validate(f64::INFINITY, 0.0).err(), Some(ConversionError::InvalidCoordinate));
    assert_eq!(validate(0.0, f64::NEG_INFINITY).err(), Some(ConversionError::InvalidCoordinate));
}

#[test]
fn inverse_projection_results_are_checked_the_same_way() {
    let ok = GeographicCoordinate::from_projection(38.5f64.to_bits(), (-77.25f64).to_bits());
    assert!(ok.is_ok());
    let bad = GeographicCoordinate::from_projection(f64::NAN.to_bits(), 0.0f64.to_bits());
    assert_eq!(bad.err(), Some(ConversionError::OutOfProjectionDomain));
    let far = GeographicCoordinate::from_projection(91.0f64.to_bits(), 0.0f64.to_bits());
    assert_eq!(far.err(), Some(ConversionError::OutOfProjectionDomain));
}

#[test]
fn coordinate_keeps_its_bits() {
    let c = validate(38.8977, -77.0365).unwrap();
    assert_eq!(f64::from_bits(c.latitude_bits()), 38.8977);
    assert_eq!(f64::from_bits(c.longitude_bits()), -77.0365);
    assert_eq!(c.latitude_floor(), 38);
    assert_eq!(c.longitude_floor(), -78);
}

#[test]
fn meridian_180_is_projected_as_minus_180() {
    assert_eq!(f64::from_bits(MINUS_180_BITS), -180.0);
    let c = validate(10.0, 180.0).unwrap();
    assert_eq!(f64::from_bits(c.projection_longitude_bits()), -180.0);
    assert_eq!(f64::from_bits(c.longitude_bits()), 180.0);
    let d = validate(10.0, 179.5).unwrap();
    assert_eq!(f64::from_bits(d.projection_longitude_bits()), 179.5);
    let e = validate(10.0, -180.0).unwrap();
    assert_eq!(f64::from_bits(e.projection_longitude_bits()), -180.0);
}

#[test]
fn in_range_is_exact_at_the_bounds() {
    assert!(in_range(90.0f64.to_bits(), -90, 90));
    assert!(!in_range(90.00000000000001f64.to_bits(), -90, 90));
    assert!(in_range((-90.0f64).to_bits(), -90, 90));
    assert!(!in_range((-90.00000000000001f64).to_bits(), -90, 90));
    assert!(in_range(0.5f64.to_bits(), 0, 1));
    assert!(!in_range((-0.5f64).to_bits(), 0, 1));
    assert!(in_range((-0.0f64).to_bits(), 0, 1));
    assert!(!in_range(f64::NAN.to_bits(), i32::MIN, i32::MAX));
    assert!(!in_range(f64::INFINITY.to_bits(), i32::MIN, i32::MAX));
    assert!(!in_range(1e19f64.to_bits(), i32::MIN, i32::MAX));
    assert!(in_range(2147483647.0f64.to_bits(), i32::MIN, i32::MAX));
    assert!(!in_range(2147483647.5f64.to_bits(), i32::MIN, i32::MAX));
}

#[test]
fn floor_of_whole_and_fractional_values() {
    assert_eq!(floor_of(0.0, 0), Some(Floored { floor: 0, whole: true }));
    assert_eq!(floor_of(-0.0, 0), Some(Floored { floor: 0, whole: true }));
    assert_eq!(floor_of(1.0, 0), Some(Floored { floor: 1, whole: true }));
    assert_eq!(floor_of(1.5, 0), Some(Floored { floor: 1, whole: false }));
    assert_eq!(floor_of(-1.5, 0), Some(Floored { floor: -2, whole: false }));
    assert_eq!(floor_of(-2.0, 0), Some(Floored { floor: -2, whole: true }));
    assert_eq!(floor_of(0.999999, 0), Some(Floored { floor: 0, whole: false }));
    assert_eq!(floor_of(-0.000001, 0), Some(Floored { floor: -1, whole: false }));
    assert_eq!(floor_of(-77.0365, 0), Some(Floored { floor: -78, whole: false }));
    assert_eq!(floor_of(4307395.75, 0), Some(Floored { floor: 4307395, whole: false }));
}

#[test]
fn floor_of_tiny_and_huge_values() {
    assert_eq!(floor_of(5e-324, 0), Some(Floored { floor: 0, whole: false }));
    assert_eq!(floor_of(-5e-324, 0), Some(Floored { floor: -1, whole: false }));
    assert_eq!(floor_of(f64::MIN_POSITIVE, 0), Some(Floored { floor: 0, whole: false }));
    assert_eq!(floor_of(1e-30, 0), Some(Floored { floor: 0, whole: false }));
    assert_eq!(floor_of(-1e-30, 0), Some(Floored { floor: -1, whole: false }));
    assert_eq!(
        floor_of(4611686018427387904.0, 0),
        None,
    );
    assert_eq!(
        floor_of(4611686018427387392.0, 0),
        Some(Floored { floor: 4611686018427387392, whole: true }),
    );
    assert_eq!(
        floor_of(-4611686018427387392.0, 0),
        Some(Floored { floor: -4611686018427387392, whole: true }),
    );
    assert_eq!(floor_of(-4611686018427387904.0, 0), None);
    assert_eq!(floor_of(9007199254740993.0, 0), Some(Floored { floor: 9007199254740992, whole: true }));
    assert_eq!(floor_of(f64::MAX, 0), None);
    assert_eq!(floor_of(f64::NAN, 0), None);
    assert_eq!(floor_of(f64::INFINITY, 0), None);
    assert_eq!(floor_of(f64::NEG_INFINITY, 0), None);
}

#[test]
fn floor_of_scaled_values() {
    assert_eq!(floor_of(0.75, 1), Some(Floored { floor: 1, whole: false }));
    assert_eq!(floor_of(0.75, 2), Some(Floored { floor: 3, whole: true }));
    assert_eq!(floor_of(-0.75, 1), Some(Floored { floor: -2, whole: false }));
    assert_eq!(floor_of(3.0, 20), Some(Floored { floor: 3 << 20, whole: true }));
    assert_eq!(floor_of(1.0, 61), Some(Floored { floor: 1 << 61, whole: true }));
    assert_eq!(floor_of(1.0, 62), None);
    assert_eq!(floor_of(5e-324, 255), Some(Floored { floor: 0, whole: false }));
    assert_eq!(floor_of(f64::MIN_POSITIVE, 255), Some(Floored { floor: 0, whole: false }));
}

#[test]
fn metres_cut_down_not_rounded() {
    assert_eq!(metres(323394.0f64.to_bits()), Some(323394));
    assert_eq!(metres(323394.999f64.to_bits()), Some(323394));
    assert_eq!(metres(323394.5f64.to_bits()), Some(323394));
    assert_eq!(metres(0.0f64.to_bits()), Some(0));
    assert_eq!(metres(0.9f64.to_bits()), Some(0));
    assert_eq!(metres(4294967295.5f64.to_bits()), Some(4294967295));
}

#[test]
fn metres_keep_a_corner_in_its_square() {
    // Less than 2^-20 m below a whole metre counts as that metre.
    assert_eq!(metres(323393.9999999999f64.to_bits()), Some(323394));
    assert_eq!(metres(323393.9999995f64.to_bits()), Some(323394));
    assert_eq!(metres(323393.999999f64.to_bits()), Some(323393));
    assert_eq!(metres((-1e-9f64).to_bits()), Some(0));
    assert_eq!(metres((-0.0f64).to_bits()), Some(0));
}

#[test]
fn metres_of_what_is_no_length() {
    assert_eq!(metres((-1.0f64).to_bits()), None);
    assert_eq!(metres((-0.001f64).to_bits()), None);
    assert_eq!(metres(4294967296.0f64.to_bits()), None);
    assert_eq!(metres(1e300f64.to_bits()), None);
    assert_eq!(metres(f64::NAN.to_bits()), None);
    assert_eq!(metres(f64::INFINITY.to_bits()), None);
}

#[test]
fn precision_is_checked_not_clamped() {
    assert_eq!(check_precision(0), Ok(0));
    assert_eq!(check_precision(3), Ok(3));
    assert_eq!(check_precision(5), Ok(5));
    assert_eq!(check_precision(6), Err(ConversionError::PrecisionOutOfRange));
    assert_eq!(check_precision(-1), Err(ConversionError::PrecisionOutOfRange));
    assert_eq!(check_precision(i32::MAX), Err(ConversionError::PrecisionOutOfRange));
    assert_eq!(check_precision(i32::MIN), Err(ConversionError::PrecisionOutOfRange));
}

#[test]
fn errors_have_messages() {
    assert_eq!(
        ConversionError::InvalidCoordinate.message(),
        "Invalid coordinates: latitude must be in [-90, 90] and longitude in [-180, 180]"
    );
    assert_eq!(
        ConversionError::MalformedMgrs(MgrsField::Band).message(),
        "Malformed MGRS string: invalid latitude band letter"
    );
    assert_eq!(
        ConversionError::MalformedMgrs(MgrsField::Zone).message(),
        "Malformed MGRS string: invalid zone number"
    );
    assert_eq!(
        ConversionError::OutOfProjectionDomain.message(),
        "Position outside the domain of the projection"
    );
    assert_eq!(
        ConversionError::PrecisionOutOfRange.message(),
        "Precision outside the range 0 to 5"
    );
    assert_eq!(MgrsField::Column.describe(), "column letter");
    assert_eq!(MgrsField::Row.describe(), "row letter");
    assert_eq!(MgrsField::Digits.describe(), "easting and northing digits");
    assert_eq!(MgrsField::Length.describe(), "length");
}
