//! The text of a grid reference: how it is written and how it is read.
//!
//! A reference is written as the zone number in two digits, the latitude
//! band letter, the column letter, the row letter, and then the easting and
//! the northing within the grid square, each in as many digits as the
//! precision says: none for the 100 km square itself, five for a metre. A
//! reference in a polar grid has no zone number and starts with its band
//! letter, A, B, Y or Z. Reading accepts the zone number in one digit or two
//! and nothing else that departs from this shape.
use crate::error::{ConversionError, MgrsField};
use crate::letters::{
    digit, digit_char, digit_value, index_of, is_digit, letter_index, value_of_digit,
};
use crate::zone::{band_index, band_of_letter, is_polar_band};
use vstd::prelude::*;
use vstd::string::*;

verus! {

/// The highest precision: five digits each, a metre.
pub const MAX_PRECISION: u8 = 5;

/// `String::push` of the standard library appends one character to the end
/// of the string and changes nothing else.
pub assume_specification[ String::push ](s: &mut String, c: char)
    ensures
        final(s)@ == old(s)@.push(c),
;

/// Ten to the power of `count`: how many numbers `count` digits can write.
pub open spec fn capacity(count: nat) -> int
    decreases count,
{
    if count == 0 {
        1
    } else {
        10 * capacity((count - 1) as nat)
    }
}

/// The length in metres that one unit of the last digit stands for at a
/// precision: 100 km at precision 0, a metre at precision 5.
pub open spec fn resolution(precision: int) -> int
    recommends
        0 <= precision <= 5,
{
    capacity((5 - precision) as nat)
}

/// The powers of ten up to the ninth.
pub proof fn lemma_capacity_values()
    ensures
        capacity(0) == 1,
        capacity(1) == 10,
        capacity(2) == 100,
        capacity(3) == 1_000,
        capacity(4) == 10_000,
        capacity(5) == 100_000,
        capacity(6) == 1_000_000,
        capacity(7) == 10_000_000,
        capacity(8) == 100_000_000,
        capacity(9) == 1_000_000_000,
{
    reveal_with_fuel(capacity, 10);
}

/// What a grid reference holds.
pub struct MgrsView {
    pub zone_number: int,
    pub latitude_band: char,
    pub column_letter: char,
    pub row_letter: char,
    pub easting_digits: int,
    pub northing_digits: int,
    pub precision: int,
}

impl MgrsView {
    /// The zone is one of the sixty or, for a polar grid, 0; the letters
    /// come from their alphabets, the precision is at most five and both
    /// numbers can be written in as many digits.
    pub open spec fn wf(self) -> bool {
        &&& 0 <= self.zone_number <= 60
        &&& is_band_of(self.zone_number, self.latitude_band)
        &&& letter_index(self.column_letter) is Some
        &&& is_row_of(self.zone_number, self.row_letter)
        &&& 0 <= self.precision <= 5
        &&& 0 <= self.easting_digits < capacity(self.precision as nat)
        &&& 0 <= self.northing_digits < capacity(self.precision as nat)
    }
}

/// Whether the character is one of the twenty row letters, A to V without I
/// and O.
pub open spec fn is_row_letter(c: char) -> bool {
    letter_index(c) is Some && letter_index(c)->0 < 20
}

/// Whether the letter is a band letter of the zone: A, B, Y or Z in a polar
/// grid, one of C to X without I and O elsewhere.
pub open spec fn is_band_of(zone_number: int, band: char) -> bool {
    if zone_number == 0 {
        is_polar_band(band)
    } else {
        band_index(band) is Some
    }
}

/// Whether the letter can name a row of the zone: any letter of the
/// alphabet without I and O in a polar grid, one of the twenty row letters
/// elsewhere.
pub open spec fn is_row_of(zone_number: int, row: char) -> bool {
    if zone_number == 0 {
        letter_index(row) is Some
    } else {
        is_row_letter(row)
    }
}

/// How many characters the zone number takes when written: none in a polar
/// grid.
pub open spec fn lead_len(zone_number: int) -> int {
    if zone_number == 0 {
        0
    } else {
        2
    }
}

/// The zone number as written: in two digits, or not at all in a polar
/// grid.
pub open spec fn zone_text(zone_number: int) -> Seq<char> {
    if zone_number == 0 {
        Seq::empty()
    } else {
        seq![digit_char(zone_number / 10), digit_char(zone_number % 10)]
    }
}

/// Whether every character is a decimal digit.
pub open spec fn all_digits(s: Seq<char>) -> bool {
    forall|i: int| 0 <= i < s.len() ==> is_digit(#[trigger] s[i])
}

/// The last `count` decimal digits of a number, the highest first.
pub open spec fn digits_text(value: int, count: nat) -> Seq<char>
    decreases count,
{
    if count == 0 {
        Seq::empty()
    } else {
        digits_text(value / 10, (count - 1) as nat).push(digit_char(value % 10))
    }
}

/// The number that a run of decimal digits writes.
pub open spec fn digits_value(s: Seq<char>) -> int
    decreases s.len(),
{
    if s.len() == 0 {
        0
    } else {
        digits_value(s.drop_last()) * 10 + digit_value(s.last())
    }
}

/// The text of a grid reference.
pub open spec fn format_text(r: MgrsView) -> Seq<char> {
    zone_text(r.zone_number) + seq![r.latitude_band, r.column_letter, r.row_letter] + digits_text(r.easting_digits, r.precision as nat) + digits_text(
        r.northing_digits,
        r.precision as nat,
    )
}

/// How many digits a text starts with, up to two: the digits of the zone
/// number.
pub open spec fn zone_digit_count(s: Seq<char>) -> int {
    if s.len() >= 2 && is_digit(s[0]) && is_digit(s[1]) {
        2
    } else if s.len() >= 1 && is_digit(s[0]) {
        1
    } else {
        0
    }
}

/// The number that the leading digits of a text write; 0 where there are
/// none.
pub open spec fn zone_value(s: Seq<char>) -> int {
    if zone_digit_count(s) == 2 {
        digit_value(s[0]) * 10 + digit_value(s[1])
    } else if zone_digit_count(s) == 1 {
        digit_value(s[0])
    } else {
        0
    }
}

/// What reading a text gives: the reference, or the field that is wrong.
///
/// The fields are checked from left to right. The zone number is one digit
/// or two and lies in 1..=60; a text without one has to start with a polar
/// band letter. Three letters follow: a band letter of the zone, a letter
/// of the alphabet without I and O, and a row letter of the zone. What
/// follows them has an even length of at most ten, and is all digits: the
/// first half is the easting, the second the northing.
pub open spec fn parse_text(s: Seq<char>) -> Result<MgrsView, ConversionError> {
    let lead = zone_digit_count(s);
    let zone = zone_value(s);
    let tail = s.len() - lead - 3;
    if lead == 0 && !(s.len() >= 1 && is_polar_band(s[0])) {
        Err(ConversionError::MalformedMgrs(MgrsField::Zone))
    } else if lead > 0 && !(1 <= zone <= 60) {
        Err(ConversionError::MalformedMgrs(MgrsField::Zone))
    } else if tail < 0 {
        Err(ConversionError::MalformedMgrs(MgrsField::Length))
    } else if !is_band_of(zone, s[lead]) {
        Err(ConversionError::MalformedMgrs(MgrsField::Band))
    } else if letter_index(s[lead + 1]) is None {
        Err(ConversionError::MalformedMgrs(MgrsField::Column))
    } else if !is_row_of(zone, s[lead + 2]) {
        Err(ConversionError::MalformedMgrs(MgrsField::Row))
    } else if tail > 10 || tail % 2 == 1 {
        Err(ConversionError::MalformedMgrs(MgrsField::Length))
    } else {
        let eastings = s.subrange(lead + 3, lead + 3 + tail / 2);
        let northings = s.subrange(lead + 3 + tail / 2, s.len() as int);
        if !all_digits(eastings) || !all_digits(northings) {
            Err(ConversionError::MalformedMgrs(MgrsField::Digits))
        } else {
            Ok(
                MgrsView {
                    zone_number: zone_value(s),
                    latitude_band: s[lead],
                    column_letter: s[lead + 1],
                    row_letter: s[lead + 2],
                    easting_digits: digits_value(eastings),
                    northing_digits: digits_value(northings),
                    precision: tail / 2,
                },
            )
        }
    }
}

/// The text with its zone number in two digits.
pub open spec fn canonical_text(s: Seq<char>) -> Seq<char> {
    if zone_digit_count(s) == 1 {
        seq!['0'] + s
    } else {
        s
    }
}

/// What making a reference of its parts gives.
pub open spec fn checked_reference(r: MgrsView) -> Result<MgrsView, ConversionError> {
    if !(0 <= r.precision <= 5) {
        Err(ConversionError::PrecisionOutOfRange)
    } else if !(0 <= r.zone_number <= 60) {
        Err(ConversionError::MalformedMgrs(MgrsField::Zone))
    } else if !is_band_of(r.zone_number, r.latitude_band) {
        Err(ConversionError::MalformedMgrs(MgrsField::Band))
    } else if letter_index(r.column_letter) is None {
        Err(ConversionError::MalformedMgrs(MgrsField::Column))
    } else if !is_row_of(r.zone_number, r.row_letter) {
        Err(ConversionError::MalformedMgrs(MgrsField::Row))
    } else if !(0 <= r.easting_digits < capacity(r.precision as nat)) || !(0 <= r.northing_digits
        < capacity(r.precision as nat)) {
        Err(ConversionError::MalformedMgrs(MgrsField::Digits))
    } else {
        Ok(r)
    }
}

/// A number written in `count` digits is `count` characters long, and all
/// of them are digits.
pub proof fn lemma_digits_text_shape(value: int, count: nat)
    ensures
        digits_text(value, count).len() == count,
        all_digits(digits_text(value, count)),
    decreases count,
{
    if count > 0 {
        lemma_digits_text_shape(value / 10, (count - 1) as nat);
        let shorter = digits_text(value / 10, (count - 1) as nat);
        let whole = digits_text(value, count);
        assert(whole == shorter.push(digit_char(value % 10)));
        assert forall|i: int| 0 <= i < whole.len() implies is_digit(#[trigger] whole[i]) by {
            if i < shorter.len() {
                assert(whole[i] == shorter[i]);
            }
        }
    }
}

/// Reading a number that was written in enough digits gives the number
/// back.
pub proof fn lemma_value_of_digits_text(value: int, count: nat)
    requires
        0 <= value < capacity(count),
    ensures
        digits_value(digits_text(value, count)) == value,
    decreases count,
{
    if count > 0 {
        lemma_value_of_digits_text(value / 10, (count - 1) as nat);
        lemma_digits_text_shape(value / 10, (count - 1) as nat);
        let shorter = digits_text(value / 10, (count - 1) as nat);
        let whole = digits_text(value, count);
        assert(whole.drop_last() =~= shorter);
        assert(whole.last() == digit_char(value % 10));
    }
}

/// Writing the number that a run of digits stands for, in as many digits,
/// gives the run back; and the number fits that many digits.
pub proof fn lemma_digits_text_of_value(s: Seq<char>)
    requires
        all_digits(s),
    ensures
        0 <= digits_value(s) < capacity(s.len()),
        digits_text(digits_value(s), s.len()) == s,
    decreases s.len(),
{
    if s.len() > 0 {
        let front = s.drop_last();
        assert forall|i: int| 0 <= i < front.len() implies is_digit(#[trigger] front[i]) by {
            assert(front[i] == s[i]);
        }
        lemma_digits_text_of_value(front);
        let value = digits_value(s);
        assert(is_digit(s[s.len() - 1]));
        assert(value / 10 == digits_value(front));
        assert(value % 10 == digit_value(s.last()));
        assert(digits_text(value, s.len()) =~= s);
    } else {
        assert(digits_text(0, 0) =~= s);
    }
}

/// A grid reference: zone, band, the two letters of the grid square, and
/// the easting and northing within the square in `precision` digits each.
#[derive(Clone, Copy, Debug)]
pub struct MgrsReference {
    zone_number: u8,
    latitude_band: char,
    column_letter: char,
    row_letter: char,
    easting_digits: u32,
    northing_digits: u32,
    precision: u8,
}

impl View for MgrsReference {
    type V = MgrsView;

    closed spec fn view(&self) -> MgrsView {
        MgrsView {
            zone_number: self.zone_number as int,
            latitude_band: self.latitude_band,
            column_letter: self.column_letter,
            row_letter: self.row_letter,
            easting_digits: self.easting_digits as int,
            northing_digits: self.northing_digits as int,
            precision: self.precision as int,
        }
    }
}

/// Ten to the power of `count`.
pub fn power_of_ten(count: u8) -> (r: u32)
    requires
        count <= 9,
    ensures
        r == capacity(count as nat),
{
    proof {
        lemma_capacity_values();
    }
    if count == 0 {
        1
    } else if count == 1 {
        10
    } else if count == 2 {
        100
    } else if count == 3 {
        1_000
    } else if count == 4 {
        10_000
    } else if count == 5 {
        100_000
    } else if count == 6 {
        1_000_000
    } else if count == 7 {
        10_000_000
    } else if count == 8 {
        100_000_000
    } else {
        1_000_000_000
    }
}

/// Appends the last `count` decimal digits of a number to a text.
fn push_digits(text: &mut String, value: u32, count: u8)
    ensures
        final(text)@ == old(text)@ + digits_text(value as int, count as nat),
    decreases count,
{
    if count > 0 {
        push_digits(text, value / 10, count - 1);
        text.push(digit((value % 10) as u8));
        proof {
            assert(text@ =~= old(text)@ + digits_text(value as int, count as nat));
        }
    } else {
        proof {
            assert(text@ =~= old(text)@ + digits_text(value as int, 0));
        }
    }
}

/// Reads the number that the characters from `from` up to `to` write, or
/// `None` where one of them is no digit.
fn read_number(text: &str, from: usize, to: usize) -> (r: Option<u32>)
    requires
        from <= to <= text@.len(),
        to - from <= 9,
    ensures
        r is Some <==> all_digits(text@.subrange(from as int, to as int)),
        r is Some ==> r->0 == digits_value(text@.subrange(from as int, to as int)),
{
    let mut value: u32 = 0;
    let mut at: usize = from;
    proof {
        lemma_capacity_values();
        assert(text@.subrange(from as int, from as int) =~= Seq::<char>::empty());
    }
    while at < to
        invariant
            from <= at <= to <= text@.len(),
            to - from <= 9,
            all_digits(text@.subrange(from as int, at as int)),
            value == digits_value(text@.subrange(from as int, at as int)),
            0 <= value < capacity((at - from) as nat),
            capacity(9) == 1_000_000_000,
        decreases to - at,
    {
        let c = text.get_char(at);
        let ghost seen = text@.subrange(from as int, at as int);
        let ghost longer = text@.subrange(from as int, at as int + 1);
        proof {
            assert(longer.drop_last() =~= seen);
            assert(longer.last() == c);
        }
        match value_of_digit(c) {
            Some(d) => {
                proof {
                    lemma_capacity_grows((at - from) as nat, 8);
                    assert forall|i: int| 0 <= i < longer.len() implies is_digit(
                        #[trigger] longer[i],
                    ) by {
                        if i < seen.len() {
                            assert(longer[i] == seen[i]);
                        }
                    }
                }
                value = value * 10 + d as u32;
            },
            None => {
                proof {
                    let whole = text@.subrange(from as int, to as int);
                    assert(whole[at - from] == c);
                }
                return None;
            },
        }
        at = at + 1;
    }
    Some(value)
}

/// More digits write more numbers.
pub proof fn lemma_capacity_grows(fewer: nat, more: nat)
    requires
        fewer <= more,
    ensures
        0 < capacity(fewer) <= capacity(more),
    decreases more,
{
    if fewer < more {
        lemma_capacity_grows(fewer, (more - 1) as nat);
    } else if more > 0 {
        lemma_capacity_grows((fewer - 1) as nat, (more - 1) as nat);
    }
}

/// Whether the letter is a band letter of the zone.
pub fn band_fits_zone(zone_number: u8, band: char) -> (r: bool)
    ensures
        r == is_band_of(zone_number as int, band),
{
    if zone_number == 0 {
        band == 'A' || band == 'B' || band == 'Y' || band == 'Z'
    } else {
        band_of_letter(band).is_some()
    }
}

/// Whether the letter can name a row of the zone.
pub fn row_fits_zone(zone_number: u8, row: char) -> (r: bool)
    ensures
        r == is_row_of(zone_number as int, row),
{
    match index_of(row) {
        Some(i) => zone_number == 0 || i < 20,
        None => false,
    }
}

/// Appends the zone number to a text: two digits, or nothing for zone 0.
fn push_zone(text: &mut String, zone_number: u8)
    requires
        zone_number <= 60,
    ensures
        final(text)@ == old(text)@ + zone_text(zone_number as int),
{
    if zone_number != 0 {
        text.push(digit(zone_number / 10));
        text.push(digit(zone_number % 10));
    }
    proof {
        assert(text@ =~= old(text)@ + zone_text(zone_number as int));
    }
}

/// Writes a grid reference for a position in a zone; zone 0 stands for the
/// polar grids.
///
/// The zone number takes two digits, and none in a polar grid. The easting
/// and the northing are taken within their 100 km square and cut down, not
/// rounded, to `precision` digits each.
pub fn format(
    zone_number: u8,
    latitude_band: char,
    column_letter: char,
    row_letter: char,
    easting: u32,
    northing: u32,
    precision: u8,
) -> (text: String)
    requires
        zone_number <= 60,
        is_band_of(zone_number as int, latitude_band),
        letter_index(column_letter) is Some,
        is_row_of(zone_number as int, row_letter),
        precision <= MAX_PRECISION,
    ensures
        text@ == format_text(
            MgrsView {
                zone_number: zone_number as int,
                latitude_band,
                column_letter,
                row_letter,
                easting_digits: (easting as int % 100_000) / resolution(precision as int),
                northing_digits: (northing as int % 100_000) / resolution(precision as int),
                precision: precision as int,
            },
        ),
        text@.len() == lead_len(zone_number as int) + 3 + 2 * precision,
{
    let unit: u32 = power_of_ten(5 - precision);
    proof {
        lemma_capacity_grows(0, (5 - precision) as nat);
    }
    let easting_digits: u32 = (easting % 100_000) / unit;
    let northing_digits: u32 = (northing % 100_000) / unit;
    let mut text = String::new();
    push_zone(&mut text, zone_number);
    text.push(latitude_band);
    text.push(column_letter);
    text.push(row_letter);
    proof {
        assert(text@ =~= zone_text(zone_number as int) + seq![
            latitude_band,
            column_letter,
            row_letter,
        ]);
        lemma_digits_text_shape(easting_digits as int, precision as nat);
        lemma_digits_text_shape(northing_digits as int, precision as nat);
    }
    push_digits(&mut text, easting_digits, precision);
    push_digits(&mut text, northing_digits, precision);
    text
}

/// Reads a grid reference.
///
/// Fails with `MalformedMgrs` and the first field, from the left, that is
/// not as it has to be: a zone number that is missing or not in 1..=60, a
/// band letter outside C..X or one of I and O, a column letter outside the
/// alphabet without I and O, a row letter outside A..V or one of I and O,
/// digits that are too many or do not split evenly, or a character among
/// them that is no digit.
pub fn parse(text: &str) -> (r: Result<MgrsReference, ConversionError>)
    ensures
        match r {
            Ok(reference) => parse_text(text@) == Ok::<MgrsView, ConversionError>(reference@)
                && reference@.wf(),
            Err(e) => parse_text(text@) == Err::<MgrsView, ConversionError>(e),
        },
{
    let len: usize = text.unicode_len();
    if len == 0 {
        return Err(ConversionError::MalformedMgrs(MgrsField::Zone));
    }
    let mut lead: usize = 0;
    let mut zone_number: u8 = 0;
    match value_of_digit(text.get_char(0)) {
        Some(tens) => {
            lead = 1;
            zone_number = tens;
            if len >= 2 {
                match value_of_digit(text.get_char(1)) {
                    Some(d) => {
                        lead = 2;
                        zone_number = tens * 10 + d;
                    },
                    None => {},
                }
            }
            if zone_number < 1 || zone_number > 60 {
                return Err(ConversionError::MalformedMgrs(MgrsField::Zone));
            }
        },
        None => {
            if !band_fits_zone(0, text.get_char(0)) {
                return Err(ConversionError::MalformedMgrs(MgrsField::Zone));
            }
        },
    }
    if len < lead + 3 {
        return Err(ConversionError::MalformedMgrs(MgrsField::Length));
    }
    let latitude_band = text.get_char(lead);
    if !band_fits_zone(zone_number, latitude_band) {
        return Err(ConversionError::MalformedMgrs(MgrsField::Band));
    }
    let column_letter = text.get_char(lead + 1);
    if index_of(column_letter).is_none() {
        return Err(ConversionError::MalformedMgrs(MgrsField::Column));
    }
    let row_letter = text.get_char(lead + 2);
    if !row_fits_zone(zone_number, row_letter) {
        return Err(ConversionError::MalformedMgrs(MgrsField::Row));
    }
    let tail: usize = len - lead - 3;
    if tail > 10 || tail % 2 == 1 {
        return Err(ConversionError::MalformedMgrs(MgrsField::Length));
    }
    let precision: usize = tail / 2;
    let easting_digits: u32 = match read_number(text, lead + 3, lead + 3 + precision) {
        Some(v) => v,
        None => { return Err(ConversionError::MalformedMgrs(MgrsField::Digits)); },
    };
    let northing_digits: u32 = match read_number(text, lead + 3 + precision, len) {
        Some(v) => v,
        None => { return Err(ConversionError::MalformedMgrs(MgrsField::Digits)); },
    };
    proof {
        lemma_digits_text_of_value(text@.subrange(lead + 3, lead + 3 + precision));
        lemma_digits_text_of_value(text@.subrange(lead + 3 + precision, len as int));
    }
    Ok(
        MgrsReference {
            zone_number,
            latitude_band,
            column_letter,
            row_letter,
            easting_digits,
            northing_digits,
            precision: precision as u8,
        },
    )
}

impl MgrsReference {
    #[verifier::type_invariant]
    closed spec fn inv(self) -> bool {
        self@.wf()
    }

    /// Makes a reference of its parts; zone 0 stands for the polar grids.
    ///
    /// Fails with `PrecisionOutOfRange` for a precision above five, else with
    /// `MalformedMgrs` and the first part that is not as it has to be; a
    /// number that does not fit `precision` digits counts under `Digits`.
    pub fn new(
        zone_number: u8,
        latitude_band: char,
        column_letter: char,
        row_letter: char,
        easting_digits: u32,
        northing_digits: u32,
        precision: u8,
    ) -> (r: Result<MgrsReference, ConversionError>)
        ensures
            match r {
                Ok(reference) => checked_reference(
                    MgrsView {
                        zone_number: zone_number as int,
                        latitude_band,
                        column_letter,
                        row_letter,
                        easting_digits: easting_digits as int,
                        northing_digits: northing_digits as int,
                        precision: precision as int,
                    },
                ) == Ok::<MgrsView, ConversionError>(reference@) && reference@.wf(),
                Err(e) => checked_reference(
                    MgrsView {
                        zone_number: zone_number as int,
                        latitude_band,
                        column_letter,
                        row_letter,
                        easting_digits: easting_digits as int,
                        northing_digits: northing_digits as int,
                        precision: precision as int,
                    },
                ) == Err::<MgrsView, ConversionError>(e),
            },
    {
        if precision > MAX_PRECISION {
            return Err(ConversionError::PrecisionOutOfRange);
        }
        if zone_number > 60 {
            return Err(ConversionError::MalformedMgrs(MgrsField::Zone));
        }
        if !band_fits_zone(zone_number, latitude_band) {
            return Err(ConversionError::MalformedMgrs(MgrsField::Band));
        }
        if index_of(column_letter).is_none() {
            return Err(ConversionError::MalformedMgrs(MgrsField::Column));
        }
        if !row_fits_zone(zone_number, row_letter) {
            return Err(ConversionError::MalformedMgrs(MgrsField::Row));
        }
        let limit: u32 = power_of_ten(precision);
        if easting_digits >= limit || northing_digits >= limit {
            return Err(ConversionError::MalformedMgrs(MgrsField::Digits));
        }
        Ok(
            MgrsReference {
                zone_number,
                latitude_band,
                column_letter,
                row_letter,
                easting_digits,
                northing_digits,
                precision,
            },
        )
    }

    /// Writes the reference.
    pub fn to_text(&self) -> (text: String)
        ensures
            text@ == format_text(self@),
            text@.len() == lead_len(self@.zone_number) + 3 + 2 * self@.precision,
            self@.wf(),
    {
        proof {
            use_type_invariant(self);
            lemma_digits_text_shape(self.easting_digits as int, self.precision as nat);
            lemma_digits_text_shape(self.northing_digits as int, self.precision as nat);
        }
        let mut text = String::new();
        push_zone(&mut text, self.zone_number);
        text.push(self.latitude_band);
        text.push(self.column_letter);
        text.push(self.row_letter);
        proof {
            assert(text@ =~= zone_text(self.zone_number as int) + seq![
                self.latitude_band,
                self.column_letter,
                self.row_letter,
            ]);
        }
        push_digits(&mut text, self.easting_digits, self.precision);
        push_digits(&mut text, self.northing_digits, self.precision);
        text
    }

    /// The zone number, 1..=60, or 0 in a polar grid.
    pub fn zone_number(&self) -> (zone: u8)
        ensures
            zone == self@.zone_number,
            self@.wf(),
    {
        proof {
            use_type_invariant(self);
        }
        self.zone_number
    }

    /// The latitude band letter.
    pub fn latitude_band(&self) -> (band: char)
        ensures
            band == self@.latitude_band,
            self@.wf(),
    {
        proof {
            use_type_invariant(self);
        }
        self.latitude_band
    }

    /// The column letter of the grid square.
    pub fn column_letter(&self) -> (c: char)
        ensures
            c == self@.column_letter,
            self@.wf(),
    {
        proof {
            use_type_invariant(self);
        }
        self.column_letter
    }

    /// The row letter of the grid square.
    pub fn row_letter(&self) -> (c: char)
        ensures
            c == self@.row_letter,
            self@.wf(),
    {
        proof {
            use_type_invariant(self);
        }
        self.row_letter
    }

    /// The number that the easting digits write.
    pub fn easting_digits(&self) -> (value: u32)
        ensures
            value == self@.easting_digits,
            self@.wf(),
    {
        proof {
            use_type_invariant(self);
        }
        self.easting_digits
    }

    /// The number that the northing digits write.
    pub fn northing_digits(&self) -> (value: u32)
        ensures
            value == self@.northing_digits,
            self@.wf(),
    {
        proof {
            use_type_invariant(self);
        }
        self.northing_digits
    }

    /// The precision: how many digits the easting and the northing take
    /// each.
    pub fn precision(&self) -> (digits: u8)
        ensures
            digits == self@.precision,
            digits <= MAX_PRECISION,
            self@.wf(),
    {
        proof {
            use_type_invariant(self);
        }
        self.precision
    }
}

/// Reading what was written gives the reference back.
pub proof fn law_parse_inverts_format(r: MgrsView)
    requires
        r.wf(),
    ensures
        parse_text(format_text(r)) == Ok::<MgrsView, ConversionError>(r),
        format_text(r).len() == lead_len(r.zone_number) + 3 + 2 * r.precision,
{
    let text = format_text(r);
    let p = r.precision;
    let lead = lead_len(r.zone_number);
    let letters = seq![r.latitude_band, r.column_letter, r.row_letter];
    let east = digits_text(r.easting_digits, p as nat);
    let north = digits_text(r.northing_digits, p as nat);
    lemma_digits_text_shape(r.easting_digits, p as nat);
    lemma_digits_text_shape(r.northing_digits, p as nat);
    lemma_value_of_digits_text(r.easting_digits, p as nat);
    lemma_value_of_digits_text(r.northing_digits, p as nat);
    assert(text.len() == lead + 3 + 2 * p);
    assert(text[lead] == letters[0] && text[lead + 1] == letters[1] && text[lead + 2]
        == letters[2]);
    if r.zone_number == 0 {
        assert(!is_digit(text[0]));
        assert(zone_digit_count(text) == 0);
    } else {
        assert(text[0] == digit_char(r.zone_number / 10));
        assert(text[1] == digit_char(r.zone_number % 10));
        assert(zone_digit_count(text) == 2);
        assert(zone_value(text) == r.zone_number);
    }
    assert(text.subrange(lead + 3, lead + 3 + p) =~= east);
    assert(text.subrange(lead + 3 + p, text.len() as int) =~= north);
    assert((2 * p) / 2 == p);
}

/// Writing what was read gives the text back, with its zone number in two
/// digits.
pub proof fn law_format_inverts_parse(text: Seq<char>)
    requires
        parse_text(text) is Ok,
    ensures
        parse_text(text)->Ok_0.wf(),
        format_text(parse_text(text)->Ok_0) == canonical_text(text),
        text.len() == zone_digit_count(text) + 3 + 2 * parse_text(text)->Ok_0.precision,
{
    let r = parse_text(text)->Ok_0;
    let lead = zone_digit_count(text);
    let p = r.precision;
    let eastings = text.subrange(lead + 3, lead + 3 + p);
    let northings = text.subrange(lead + 3 + p, text.len() as int);
    lemma_digits_text_of_value(eastings);
    lemma_digits_text_of_value(northings);
    lemma_capacity_values();
    assert(format_text(r) =~= canonical_text(text));
}

/// What reading refuses. Every failure is a `MalformedMgrs`. A text is
/// refused whose zone number is outside 1..=60, or is missing before a
/// letter other than A, B, Y and Z; whose band, column or row letter is I or
/// O; whose band letter does not go with its zone; or whose digits do not
/// split into two runs of the same length of at most five. What is read
/// holds no I and no O.
pub proof fn law_malformed_rejected(text: Seq<char>)
    ensures
        parse_text(text) is Err ==> parse_text(text)->Err_0 is MalformedMgrs,
        zone_digit_count(text) > 0 && !(1 <= zone_value(text) <= 60) ==> parse_text(text) == Err::<
            MgrsView,
            ConversionError,
        >(ConversionError::MalformedMgrs(MgrsField::Zone)),
        zone_digit_count(text) == 0 && !(text.len() >= 1 && is_polar_band(text[0])) ==> parse_text(
            text,
        ) == Err::<MgrsView, ConversionError>(ConversionError::MalformedMgrs(MgrsField::Zone)),
        parse_text(text) is Ok ==> {
            let lead = zone_digit_count(text);
            let r = parse_text(text)->Ok_0;
            &&& 0 <= lead <= 2
            &&& text.len() == lead + 3 + 2 * r.precision
            &&& 0 <= r.precision <= 5
            &&& lead > 0 ==> 1 <= r.zone_number <= 60 && 'C' <= text[lead] <= 'X' && 'A'
                <= text[lead + 2] <= 'V'
            &&& lead == 0 ==> r.zone_number == 0 && is_polar_band(text[0])
            &&& forall|i: int| 0 <= i < text.len() ==> text[i] != 'I' && text[i] != 'O'
        },
{
    if parse_text(text) is Ok {
        let lead = zone_digit_count(text);
        let r = parse_text(text)->Ok_0;
        let eastings = text.subrange(lead + 3, lead + 3 + r.precision);
        let northings = text.subrange(lead + 3 + r.precision, text.len() as int);
        assert forall|i: int| 0 <= i < text.len() implies text[i] != 'I' && text[i] != 'O' by {
            if i < lead {
            } else if i < lead + 3 {
            } else if i < lead + 3 + r.precision {
                assert(is_digit(eastings[i - lead - 3]));
            } else {
                assert(is_digit(northings[i - lead - 3 - r.precision]));
            }
        }
    }
}

} // verus!
