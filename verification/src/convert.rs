//! The two conversions, on either side of the map projection.
//!
//! From coordinates to a grid reference: the coordinate is checked and its
//! zone resolved, the caller projects it, and `coordinates_to_grid` turns the
//! projected position into text. From a grid reference to coordinates:
//! `grid_to_utm` reads the text and finds the south-west corner of the square
//! it names, the caller projects that back, and
//! `GeographicCoordinate::from_projection` checks what came out.
use crate::codec::{
    all_digits, canonical_text, capacity, digits_text, format_text, is_row_letter,
    law_format_inverts_parse, law_parse_inverts_format, lead_len, lemma_capacity_values,
    lemma_digits_text_shape, parse, parse_text, power_of_ten, resolution, zone_text,
    MgrsReference, MgrsView, MAX_PRECISION,
};
use crate::coordinate::GeographicCoordinate;
use crate::error::{ConversionError, MgrsField};
use crate::grid_square::{
    column_letter_at, column_origin, from_grid_square, from_polar_square, in_polar_envelope,
    polar_column_letter_at, polar_first_index, polar_row_letter_at, polar_square_origin,
    row_in_cycle, row_letter_at, row_origin, square_origin, to_grid_square, to_polar_square,
    SQUARE_SIDE,
};
use crate::letters::{
    is_digit, lemma_letters_and_indices, lemma_polar_letters_and_indices, letter_index,
    polar_letter_index,
};
use crate::utm::{projected_utm, ProjectedPoint, UtmCoordinate, UtmView};
use crate::zone::{
    band_first_row, band_index, band_of_letter, band_reaches, band_reaches_row,
    first_row_of_band, is_polar_band, lemma_band_rows, lemma_zone_in_range, polar_band_is_east,
    polar_band_is_north, zone_number_at, Hemisphere,
};
use vstd::arithmetic::div_mod::lemma_div_multiples_vanish;
use vstd::arithmetic::mul::lemma_mul_is_commutative;
use vstd::prelude::*;

verus! {

/// The reference of a position at a precision: the letters of its grid
/// square, and its easting and northing within the square cut down to
/// `precision` digits.
pub open spec fn reference_of(utm: UtmView, precision: int) -> MgrsView {
    MgrsView {
        zone_number: utm.zone_number,
        latitude_band: utm.latitude_band,
        column_letter: if utm.zone_number == 0 {
            polar_column_letter_at(utm.easting)
        } else {
            column_letter_at(utm.easting, utm.zone_number)
        },
        row_letter: if utm.zone_number == 0 {
            polar_row_letter_at(utm.northing, polar_band_is_north(utm.latitude_band))
        } else {
            row_letter_at(utm.northing, utm.zone_number)
        },
        easting_digits: (utm.easting % 100_000) / resolution(precision),
        northing_digits: (utm.northing % 100_000) / resolution(precision),
        precision,
    }
}

/// The south-west corner of the 100 km square that a reference names.
///
/// In a UTM zone, of the rows that carry the row letter the one meant is the
/// first that does not start south of the first row of the latitude band;
/// where the band does not reach that row in the column of the square, the
/// row letter does not go with the band.
pub open spec fn corner_of(r: MgrsView) -> Result<(int, int), ConversionError> {
    if r.zone_number == 0 {
        polar_square_origin(r.latitude_band, r.column_letter, r.row_letter)
    } else {
        let band = band_index(r.latitude_band)->0;
        match square_origin(
            r.column_letter,
            r.row_letter,
            r.zone_number,
            band_first_row(band) * 100_000,
        ) {
            Err(e) => Err(e),
            Ok(origin) => if band_reaches(band, origin.1 / 100_000, origin.0 / 100_000 - 1) {
                Ok(origin)
            } else {
                Err(ConversionError::MalformedMgrs(MgrsField::Row))
            },
        }
    }
}

/// The position that a reference names: the south-west corner of its square
/// of side `resolution(precision)`.
pub open spec fn utm_of(r: MgrsView) -> Result<UtmView, ConversionError> {
    match corner_of(r) {
        Err(e) => Err(e),
        Ok(origin) => Ok(
            UtmView {
                zone_number: r.zone_number,
                latitude_band: r.latitude_band,
                easting: origin.0 + r.easting_digits * resolution(r.precision),
                northing: origin.1 + r.northing_digits * resolution(r.precision),
            },
        ),
    }
}

/// The text of a position at a precision.
pub open spec fn grid_text(utm: UtmView, precision: int) -> Result<Seq<char>, ConversionError> {
    if 0 <= precision <= 5 {
        Ok(format_text(reference_of(utm, precision)))
    } else {
        Err(ConversionError::PrecisionOutOfRange)
    }
}

/// The position that a text names.
pub open spec fn grid_utm(text: Seq<char>) -> Result<UtmView, ConversionError> {
    match parse_text(text) {
        Ok(r) => utm_of(r),
        Err(e) => Err(e),
    }
}

/// The position cut down to the south-west corner of its square of side
/// `resolution(precision)`.
pub open spec fn truncated(utm: UtmView, precision: int) -> UtmView {
    UtmView {
        zone_number: utm.zone_number,
        latitude_band: utm.latitude_band,
        easting: utm.easting - utm.easting % resolution(precision),
        northing: utm.northing - utm.northing % resolution(precision),
    }
}

/// Checks a precision: the number of digits, 0..=5.
pub fn check_precision(precision: i32) -> (r: Result<u8, ConversionError>)
    ensures
        match r {
            Ok(digits) => 0 <= precision <= 5 && digits == precision,
            Err(e) => !(0 <= precision <= 5) && e == ConversionError::PrecisionOutOfRange,
        },
{
    if 0 <= precision && precision <= MAX_PRECISION as i32 {
        Ok(precision as u8)
    } else {
        Err(ConversionError::PrecisionOutOfRange)
    }
}

/// Cutting a length down to the digits of a precision: the digits fit the
/// precision, and stand for the length within its 100 km square less what
/// is below the resolution.
pub proof fn lemma_digits_of_length(length: int, precision: int)
    requires
        0 <= length,
        0 <= precision <= 5,
    ensures
        resolution(precision) * capacity(precision as nat) == 100_000,
        0 <= (length % 100_000) / resolution(precision) < capacity(precision as nat),
        ((length % 100_000) / resolution(precision)) * resolution(precision) == length % 100_000
            - length % resolution(precision),
        0 <= length % resolution(precision) < resolution(precision),
        (length - length % resolution(precision)) / 100_000 == length / 100_000,
{
    lemma_capacity_values();
    if precision == 0 {
    } else if precision == 1 {
    } else if precision == 2 {
    } else if precision == 3 {
    } else if precision == 4 {
    } else {
    }
}

/// The length that the digits of a precision stand for lies within the
/// 100 km square, and cutting it down gives the digits back.
pub proof fn lemma_length_of_digits(digits: int, precision: int)
    requires
        0 <= precision <= 5,
        0 <= digits < capacity(precision as nat),
    ensures
        0 < resolution(precision),
        0 <= digits * resolution(precision),
        digits * resolution(precision) + resolution(precision) <= 100_000,
        (digits * resolution(precision)) / resolution(precision) == digits,
{
    lemma_capacity_values();
    let unit = resolution(precision);
    let count = capacity(precision as nat);
    assert(unit * count == 100_000 && unit > 0);
    assert(0 <= digits * unit && digits * unit + unit <= 100_000) by (nonlinear_arith)
        requires
            unit * count == 100_000,
            unit > 0,
            0 <= digits < count,
    ;
    lemma_div_multiples_vanish(digits, unit);
    lemma_mul_is_commutative(digits, unit);
}

/// The column letter of an easting leads back to the west edge of its
/// square.
pub proof fn lemma_column_of_easting(easting: int, zone_number: int)
    requires
        1 <= zone_number <= 60,
        100_000 <= easting < 900_000,
    ensures
        letter_index(column_letter_at(easting, zone_number)) is Some,
        column_origin(column_letter_at(easting, zone_number), zone_number) == Some(
            (easting / 100_000) * 100_000,
        ),
{
    let column = 8 * ((zone_number - 1) % 3) + easting / 100_000 - 1;
    lemma_letters_and_indices(column, 'A');
}

/// The row letter of a northing tells the place of its row in the cycle of
/// twenty.
pub proof fn lemma_row_of_northing(northing: int, zone_number: int)
    requires
        1 <= zone_number <= 60,
        0 <= northing < 10_000_000,
    ensures
        is_row_letter(row_letter_at(northing, zone_number)),
        row_in_cycle(row_letter_at(northing, zone_number), zone_number) == Some(
            (northing / 100_000) % 20,
        ),
{
    let shift = if zone_number % 2 == 0 {
        5int
    } else {
        0int
    };
    let row = (northing / 100_000 + shift) % 20;
    lemma_letters_and_indices(row, 'A');
}

/// A row that lies in the twenty from `first` on is the one that decoding
/// picks for its letter.
pub proof fn lemma_row_found_again(row_letter: char, zone_number: int, first: int, row: int)
    requires
        0 <= first <= row < first + 20,
        row_in_cycle(row_letter, zone_number) == Some(row % 20),
    ensures
        row_origin(row_letter, zone_number, first * 100_000) == Some(row * 100_000),
{
    assert((first * 100_000) / 100_000 == first);
    let place = row % 20;
    assert(first + (place + 20 - first % 20) % 20 == row);
}

/// Every easting of a square has the column letter of the square.
pub proof fn lemma_column_of_origin(column_letter: char, zone_number: int, within: int)
    requires
        1 <= zone_number <= 60,
        column_origin(column_letter, zone_number) is Some,
        0 <= within < 100_000,
    ensures
        100_000 <= column_origin(column_letter, zone_number)->0 <= 800_000,
        column_origin(column_letter, zone_number)->0 % 100_000 == 0,
        (column_origin(column_letter, zone_number)->0 + within) / 100_000 == column_origin(
            column_letter,
            zone_number,
        )->0 / 100_000,
        column_letter_at(column_origin(column_letter, zone_number)->0 + within, zone_number)
            == column_letter,
{
    let column = letter_index(column_letter)->0;
    lemma_letters_and_indices(column, column_letter);
    let origin = (column % 8 + 1) * 100_000;
    assert((origin + within) / 100_000 == column % 8 + 1);
    assert(8 * ((zone_number - 1) % 3) + (column % 8 + 1) - 1 == column);
}

/// Every northing of a square has the row letter of the square.
pub proof fn lemma_row_of_origin(
    row_letter: char,
    zone_number: int,
    approximate_northing: int,
    within: int,
)
    requires
        1 <= zone_number <= 60,
        0 <= approximate_northing,
        row_origin(row_letter, zone_number, approximate_northing) is Some,
        0 <= within < 100_000,
    ensures
        0 <= row_origin(row_letter, zone_number, approximate_northing)->0,
        row_origin(row_letter, zone_number, approximate_northing)->0 % 100_000 == 0,
        (row_origin(row_letter, zone_number, approximate_northing)->0 + within) / 100_000
            == row_origin(row_letter, zone_number, approximate_northing)->0 / 100_000,
        row_letter_at(
            row_origin(row_letter, zone_number, approximate_northing)->0 + within,
            zone_number,
        ) == row_letter,
{
    let index = letter_index(row_letter)->0;
    lemma_letters_and_indices(index, row_letter);
    let shift = if zone_number % 2 == 0 {
        5int
    } else {
        0int
    };
    let place = (index + 20 - shift) % 20;
    let first = approximate_northing / 100_000;
    let rows = first + (place + 20 - first % 20) % 20;
    assert(rows % 20 == place);
    assert((rows * 100_000 + within) / 100_000 == rows);
    assert((rows + shift) % 20 == index);
}

/// In a polar grid the letters of a position lead back to the south-west
/// corner of its square.
pub proof fn lemma_polar_square_of_position(band: char, easting: int, northing: int)
    requires
        is_polar_band(band),
        in_polar_envelope(polar_band_is_north(band), easting, northing),
        polar_band_is_east(band) == (easting >= 2_000_000),
    ensures
        letter_index(polar_column_letter_at(easting)) is Some,
        letter_index(polar_row_letter_at(northing, polar_band_is_north(band))) is Some,
        polar_square_origin(
            band,
            polar_column_letter_at(easting),
            polar_row_letter_at(northing, polar_band_is_north(band)),
        ) == Ok::<(int, int), ConversionError>(
            ((easting / 100_000) * 100_000, (northing / 100_000) * 100_000),
        ),
{
    let column = easting / 100_000;
    let index = if column >= 20 {
        column - 20
    } else {
        column - 2
    };
    lemma_polar_letters_and_indices(index, polar_column_letter_at(easting));
    let row = northing / 100_000 - polar_first_index(polar_band_is_north(band));
    lemma_letters_and_indices(row, 'A');
}

/// In a polar grid every position of a square has the letters of the
/// square, lies in the grid, and lies on the band's side of the pole.
pub proof fn lemma_polar_position_of_square(
    band: char,
    column_letter: char,
    row_letter: char,
    east: int,
    north: int,
)
    requires
        is_polar_band(band),
        polar_square_origin(band, column_letter, row_letter) is Ok,
        0 <= east < 100_000,
        0 <= north < 100_000,
    ensures
        ({
            let origin = polar_square_origin(band, column_letter, row_letter)->Ok_0;
            &&& origin.0 % 100_000 == 0
            &&& origin.1 % 100_000 == 0
            &&& in_polar_envelope(polar_band_is_north(band), origin.0 + east, origin.1 + north)
            &&& polar_band_is_east(band) == (origin.0 + east >= 2_000_000)
            &&& polar_column_letter_at(origin.0 + east) == column_letter
            &&& polar_row_letter_at(origin.1 + north, polar_band_is_north(band)) == row_letter
        }),
{
    let index = polar_letter_index(column_letter)->0;
    lemma_polar_letters_and_indices(index, column_letter);
    let row = letter_index(row_letter)->0;
    lemma_letters_and_indices(row, row_letter);
    let origin = polar_square_origin(band, column_letter, row_letter)->Ok_0;
    assert((origin.0 + east) / 100_000 == origin.0 / 100_000);
    assert((origin.1 + north) / 100_000 == origin.1 / 100_000);
}

/// The reference of a position is a reference.
pub proof fn lemma_reference_wf(utm: UtmView, precision: int)
    requires
        utm.wf(),
        0 <= precision <= 5,
    ensures
        reference_of(utm, precision).wf(),
{
    lemma_digits_of_length(utm.easting, precision);
    lemma_digits_of_length(utm.northing, precision);
    if utm.zone_number == 0 {
        lemma_polar_square_of_position(utm.latitude_band, utm.easting, utm.northing);
    } else {
        lemma_column_of_easting(utm.easting, utm.zone_number);
        lemma_row_of_northing(utm.northing, utm.zone_number);
    }
}

/// Makes the reference of a position at a precision.
///
/// Fails with `PrecisionOutOfRange` unless the precision is in 0..=5.
pub fn utm_to_reference(utm: &UtmCoordinate, precision: i32) -> (r: Result<
    MgrsReference,
    ConversionError,
>)
    ensures
        match r {
            Ok(reference) => 0 <= precision <= 5 && reference@ == reference_of(
                utm@,
                precision as int,
            ) && reference@.wf(),
            Err(e) => !(0 <= precision <= 5) && e == ConversionError::PrecisionOutOfRange,
        },
{
    let digits: u8 = check_precision(precision)?;
    let zone_number = utm.zone_number();
    let easting = utm.easting();
    let northing = utm.northing();
    let square = if zone_number == 0 {
        to_polar_square(easting, northing, utm.hemisphere() == Hemisphere::North)
    } else {
        to_grid_square(easting, northing, zone_number)
    };
    let unit: u32 = power_of_ten(5 - digits);
    proof {
        lemma_capacity_values();
        lemma_reference_wf(utm@, precision as int);
    }
    MgrsReference::new(
        zone_number,
        utm.latitude_band(),
        square.column_letter,
        square.row_letter,
        (easting % SQUARE_SIDE) / unit,
        (northing % SQUARE_SIDE) / unit,
        digits,
    )
}

/// Finds the position that a reference names: the south-west corner of its
/// square.
///
/// Fails with `MalformedMgrs(Column)` where the column letter names no
/// column of the zone or polar band, with `MalformedMgrs(Row)` where the
/// row letter names no row that the band reaches in that column, and with
/// `OutOfProjectionDomain` where the row would start at or beyond
/// 10,000 km.
pub fn reference_to_utm(reference: &MgrsReference) -> (r: Result<UtmCoordinate, ConversionError>)
    ensures
        match r {
            Ok(utm) => utm_of(reference@) == Ok::<UtmView, ConversionError>(utm@) && utm@.wf(),
            Err(e) => utm_of(reference@) == Err::<UtmView, ConversionError>(e),
        },
{
    let zone_number = reference.zone_number();
    let latitude_band = reference.latitude_band();
    let precision = reference.precision();
    let unit: u32 = power_of_ten(5 - precision);
    let east = reference.easting_digits();
    let north = reference.northing_digits();
    proof {
        lemma_capacity_values();
        lemma_length_of_digits(east as int, precision as int);
        lemma_length_of_digits(north as int, precision as int);
        assert(east * unit == east as int * resolution(precision as int));
        assert(north * unit == north as int * resolution(precision as int));
    }
    if zone_number == 0 {
        let origin = from_polar_square(
            latitude_band,
            reference.column_letter(),
            reference.row_letter(),
        )?;
        proof {
            lemma_polar_position_of_square(
                latitude_band,
                reference@.column_letter,
                reference@.row_letter,
                east * unit,
                north * unit,
            );
        }
        return UtmCoordinate::new(
            zone_number,
            latitude_band,
            origin.easting + east * unit,
            origin.northing + north * unit,
        );
    }
    let band: u8 = match band_of_letter(latitude_band) {
        Some(b) => b,
        None => { return Err(ConversionError::OutOfProjectionDomain); },
    };
    let approximate: u32 = first_row_of_band(band) as u32 * SQUARE_SIDE;
    let origin = from_grid_square(
        reference.column_letter(),
        reference.row_letter(),
        zone_number,
        approximate,
    )?;
    proof {
        lemma_column_of_origin(reference@.column_letter, zone_number as int, east * unit);
        lemma_row_of_origin(
            reference@.row_letter,
            zone_number as int,
            approximate as int,
            north * unit,
        );
    }
    if !band_reaches_row(
        band,
        (origin.northing / SQUARE_SIDE) as u8,
        (origin.easting / SQUARE_SIDE - 1) as u8,
    ) {
        return Err(ConversionError::MalformedMgrs(MgrsField::Row));
    }
    UtmCoordinate::new(
        zone_number,
        latitude_band,
        origin.easting + east * unit,
        origin.northing + north * unit,
    )
}

/// Writes the grid reference of a position at a precision.
///
/// Fails with `PrecisionOutOfRange` unless the precision is in 0..=5.
pub fn utm_to_grid(utm: &UtmCoordinate, precision: i32) -> (r: Result<String, ConversionError>)
    ensures
        match r {
            Ok(text) => grid_text(utm@, precision as int) == Ok::<Seq<char>, ConversionError>(
                text@,
            ) && text@.len() == lead_len(utm@.zone_number) + 3 + 2 * precision,
            Err(e) => grid_text(utm@, precision as int) == Err::<Seq<char>, ConversionError>(e),
        },
{
    let reference = utm_to_reference(utm, precision)?;
    Ok(reference.to_text())
}

/// Reads a grid reference and finds the position it names: the south-west
/// corner of its square.
///
/// Fails with `MalformedMgrs` as `parse` does, with `MalformedMgrs(Column)`
/// where the column letter names no column of the zone or polar band, with
/// `MalformedMgrs(Row)` where the row letter names no row that the band
/// reaches in that column, and with `OutOfProjectionDomain` where the row
/// would start at or beyond 10,000 km.
pub fn grid_to_utm(text: &str) -> (r: Result<UtmCoordinate, ConversionError>)
    ensures
        match r {
            Ok(utm) => grid_utm(text@) == Ok::<UtmView, ConversionError>(utm@) && utm@.wf(),
            Err(e) => grid_utm(text@) == Err::<UtmView, ConversionError>(e),
        },
{
    let reference = parse(text)?;
    reference_to_utm(&reference)
}

/// What `coordinates_to_grid` gives for a point whose latitude and
/// longitude have the given floors.
pub open spec fn coordinates_grid_text(
    latitude_floor: int,
    longitude_floor: int,
    point: ProjectedPoint,
    precision: int,
) -> Result<Seq<char>, ConversionError> {
    if !(0 <= precision <= 5) {
        Err(ConversionError::PrecisionOutOfRange)
    } else {
        match projected_utm(latitude_floor, longitude_floor, point) {
            Some(utm) => Ok(format_text(reference_of(utm, precision))),
            None => Err(ConversionError::OutOfProjectionDomain),
        }
    }
}

/// Writes the grid reference of a point, given what the projection returned
/// for it.
///
/// Fails with `PrecisionOutOfRange` unless the precision is in 0..=5, and
/// with `OutOfProjectionDomain` where the projection does not fit the
/// point's zone.
pub fn coordinates_to_grid(
    coordinate: &GeographicCoordinate,
    point: &ProjectedPoint,
    precision: i32,
) -> (r: Result<String, ConversionError>)
    ensures
        match r {
            Ok(text) => coordinates_grid_text(
                coordinate@.latitude_floor(),
                coordinate@.longitude_floor(),
                *point,
                precision as int,
            ) == Ok::<Seq<char>, ConversionError>(text@) && text@.len() == lead_len(
                zone_number_at(coordinate@.latitude_floor(), coordinate@.longitude_floor()),
            ) + 3 + 2 * precision,
            Err(e) => coordinates_grid_text(
                coordinate@.latitude_floor(),
                coordinate@.longitude_floor(),
                *point,
                precision as int,
            ) == Err::<Seq<char>, ConversionError>(e),
        },
{
    check_precision(precision)?;
    let utm = UtmCoordinate::from_projection(coordinate, point)?;
    utm_to_grid(&utm, precision)
}

/// A reference names the position whose reference it is: for a reference
/// that names a position at all, the reference of that position at the same
/// precision is the reference itself.
pub proof fn law_reference_of_corner(r: MgrsView)
    requires
        r.wf(),
        utm_of(r) is Ok,
    ensures
        utm_of(r)->Ok_0.wf(),
        reference_of(utm_of(r)->Ok_0, r.precision) == r,
{
    let unit = resolution(r.precision);
    let east = r.easting_digits * unit;
    let north = r.northing_digits * unit;
    lemma_length_of_digits(r.easting_digits, r.precision);
    lemma_length_of_digits(r.northing_digits, r.precision);
    if r.zone_number == 0 {
        lemma_polar_position_of_square(
            r.latitude_band,
            r.column_letter,
            r.row_letter,
            east,
            north,
        );
        let origin = polar_square_origin(r.latitude_band, r.column_letter, r.row_letter)->Ok_0;
        assert((origin.0 + east) % 100_000 == east);
        assert((origin.1 + north) % 100_000 == north);
    } else {
        let approximate = band_first_row(band_index(r.latitude_band)->0) * 100_000;
        lemma_column_of_origin(r.column_letter, r.zone_number, east);
        lemma_row_of_origin(r.row_letter, r.zone_number, approximate, north);
        let west_edge = column_origin(r.column_letter, r.zone_number)->0;
        let south_edge = row_origin(r.row_letter, r.zone_number, approximate)->0;
        assert((west_edge + east) % 100_000 == east);
        assert((south_edge + north) % 100_000 == north);
    }
}

/// From text to a position and back: where a text names a position, writing
/// that position at the precision of the text gives the text back, with its
/// zone number in two digits.
pub proof fn law_grid_round_trip(text: Seq<char>)
    requires
        grid_utm(text) is Ok,
    ensures
        grid_utm(text)->Ok_0.wf(),
        grid_text(grid_utm(text)->Ok_0, parse_text(text)->Ok_0.precision) == Ok::<
            Seq<char>,
            ConversionError,
        >(canonical_text(text)),
{
    let r = parse_text(text)->Ok_0;
    law_format_inverts_parse(text);
    law_reference_of_corner(r);
}

/// From a position to text and back: reading what was written for a
/// position gives the south-west corner of its square, which lies west and
/// south of the position by less than the resolution.
pub proof fn law_utm_round_trip(utm: UtmView, precision: int)
    requires
        utm.wf(),
        0 <= precision <= 5,
    ensures
        grid_text(utm, precision) is Ok,
        grid_utm(grid_text(utm, precision)->Ok_0) == Ok::<UtmView, ConversionError>(
            truncated(utm, precision),
        ),
        truncated(utm, precision).wf(),
        0 <= utm.easting - truncated(utm, precision).easting < resolution(precision),
        0 <= utm.northing - truncated(utm, precision).northing < resolution(precision),
        resolution(precision) * capacity(precision as nat) == 100_000,
{
    let r = reference_of(utm, precision);
    lemma_reference_wf(utm, precision);
    law_parse_inverts_format(r);
    lemma_digits_of_length(utm.easting, precision);
    lemma_digits_of_length(utm.northing, precision);
    let west_edge = (utm.easting / 100_000) * 100_000;
    let south_edge = (utm.northing / 100_000) * 100_000;
    assert(west_edge + utm.easting % 100_000 == utm.easting);
    assert(south_edge + utm.northing % 100_000 == utm.northing);
    assert(west_edge / 100_000 == utm.easting / 100_000);
    assert(south_edge / 100_000 == utm.northing / 100_000);
    if utm.zone_number == 0 {
        lemma_polar_square_of_position(utm.latitude_band, utm.easting, utm.northing);
        assert(corner_of(r) == Ok::<(int, int), ConversionError>((west_edge, south_edge)));
    } else {
        let band = band_index(utm.latitude_band)->0;
        lemma_column_of_easting(utm.easting, utm.zone_number);
        lemma_row_of_northing(utm.northing, utm.zone_number);
        lemma_band_rows(band, utm.northing / 100_000, utm.easting / 100_000 - 1);
        lemma_row_found_again(
            r.row_letter,
            utm.zone_number,
            band_first_row(band),
            utm.northing / 100_000,
        );
        assert(corner_of(r) == Ok::<(int, int), ConversionError>((west_edge, south_edge)));
    }
    assert(utm_of(r) == Ok::<UtmView, ConversionError>(truncated(utm, precision)));
}

/// The length of a reference tells its precision: the zone number takes two
/// characters, or none in a polar grid, the letters three, and what follows
/// is `precision` digits of easting and as many of northing.
pub proof fn law_precision_shape(utm: UtmView, precision: int)
    requires
        utm.wf(),
        0 <= precision <= 5,
    ensures
        grid_text(utm, precision) is Ok,
        grid_text(utm, precision)->Ok_0.len() == lead_len(utm.zone_number) + 3 + 2 * precision,
        utm.zone_number != 0 ==> grid_text(utm, precision)->Ok_0.len() == 5 + 2 * precision,
        all_digits(
            grid_text(utm, precision)->Ok_0.subrange(
                lead_len(utm.zone_number) + 3,
                lead_len(utm.zone_number) + 3 + 2 * precision,
            ),
        ),
{
    let r = reference_of(utm, precision);
    let text = format_text(r);
    let lead = lead_len(utm.zone_number);
    lemma_digits_text_shape(r.easting_digits, precision as nat);
    lemma_digits_text_shape(r.northing_digits, precision as nat);
    let east = digits_text(r.easting_digits, precision as nat);
    let north = digits_text(r.northing_digits, precision as nat);
    assert(zone_text(utm.zone_number).len() == lead);
    assert(text.subrange(lead + 3, lead + 3 + 2 * precision) =~= east + north);
    assert forall|i: int| 0 <= i < (east + north).len() implies is_digit(
        #[trigger] (east + north)[i],
    ) by {
        if i < east.len() {
            assert((east + north)[i] == east[i]);
        } else {
            assert((east + north)[i] == north[i - east.len()]);
        }
    }
}

/// From coordinates to text and back: reading the text that was written for
/// a point gives the south-west corner of the square that holds the
/// projected position.
pub proof fn law_coordinates_round_trip(
    latitude_floor: int,
    longitude_floor: int,
    point: ProjectedPoint,
    precision: int,
)
    requires
        -180 <= longitude_floor <= 180,
        coordinates_grid_text(latitude_floor, longitude_floor, point, precision) is Ok,
    ensures
        projected_utm(latitude_floor, longitude_floor, point) is Some,
        projected_utm(latitude_floor, longitude_floor, point)->0.wf(),
        grid_utm(coordinates_grid_text(latitude_floor, longitude_floor, point, precision)->Ok_0)
            == Ok::<UtmView, ConversionError>(
            truncated(projected_utm(latitude_floor, longitude_floor, point)->0, precision),
        ),
{
    let utm = projected_utm(latitude_floor, longitude_floor, point)->0;
    lemma_zone_in_range(latitude_floor, longitude_floor);
    law_utm_round_trip(utm, precision);
}

} // verus!
