//! The failures that a conversion can report.
use vstd::prelude::*;
use vstd::string::*;

verus! {

/// The part of an MGRS string that a parse failure is about.
#[derive(Clone, Copy, Debug, PartialEq, Eq, Structural)]
pub enum MgrsField {
    /// The leading zone number is missing or not in 1..=60.
    Zone,
    /// The latitude band letter is not one of C..X without I and O.
    Band,
    /// The column letter is not in the alphabet, or not in the zone's set.
    Column,
    /// The row letter is not one of A..V without I and O.
    Row,
    /// A character after the three letters is not a digit.
    Digits,
    /// The string is too short, too long, or its digits do not split evenly.
    Length,
}

/// Why a conversion did not produce a result.
#[derive(Clone, Copy, Debug, PartialEq, Eq, Structural)]
pub enum ConversionError {
    /// Latitude or longitude is not finite or lies outside its range.
    InvalidCoordinate,
    /// The text is not an MGRS string; the field says where it went wrong.
    MalformedMgrs(MgrsField),
    /// A projected position lies outside the envelope of a UTM zone.
    OutOfProjectionDomain,
    /// The precision is not in 0..=5.
    PrecisionOutOfRange,
}

impl MgrsField {
    /// The name of the field as it appears in messages.
    pub open spec fn name(self) -> Seq<char> {
        match self {
            MgrsField::Zone => "zone number"@,
            MgrsField::Band => "latitude band letter"@,
            MgrsField::Column => "column letter"@,
            MgrsField::Row => "row letter"@,
            MgrsField::Digits => "easting and northing digits"@,
            MgrsField::Length => "length"@,
        }
    }

    /// The name of the field as it appears in messages.
    pub fn describe(&self) -> (text: &'static str)
        ensures
            text@ == self.name(),
    {
        match self {
            MgrsField::Zone => "zone number",
            MgrsField::Band => "latitude band letter",
            MgrsField::Column => "column letter",
            MgrsField::Row => "row letter",
            MgrsField::Digits => "easting and northing digits",
            MgrsField::Length => "length",
        }
    }
}

impl ConversionError {
    /// The message that goes with the error.
    pub open spec fn message_text(self) -> Seq<char> {
        match self {
            ConversionError::InvalidCoordinate =>
                "Invalid coordinates: latitude must be in [-90, 90] and longitude in [-180, 180]"@,
            ConversionError::MalformedMgrs(field) => "Malformed MGRS string: invalid "@ + field.name(),
            ConversionError::OutOfProjectionDomain =>
                "Position outside the domain of the projection"@,
            ConversionError::PrecisionOutOfRange => "Precision outside the range 0 to 5"@,
        }
    }

    /// The message that goes with the error, for callers that report text.
    pub fn message(&self) -> (text: String)
        ensures
            text@ == self.message_text(),
    {
        match self {
            ConversionError::InvalidCoordinate => String::from_str(
                "Invalid coordinates: latitude must be in [-90, 90] and longitude in [-180, 180]",
            ),
            ConversionError::MalformedMgrs(field) => {
                let head = String::from_str("Malformed MGRS string: invalid ");
                head.concat(field.describe())
            },
            ConversionError::OutOfProjectionDomain => String::from_str(
                "Position outside the domain of the projection",
            ),
            ConversionError::PrecisionOutOfRange => String::from_str(
                "Precision outside the range 0 to 5",
            ),
        }
    }
}

} // verus!
