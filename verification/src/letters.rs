//! The letters and digits that a grid reference is written with.
//!
//! Grid letters come from the alphabet without I and O, which could be
//! mistaken for the digits 1 and 0. That leaves twenty-four letters, numbered
//! from 0 for A to 23 for Z.
use vstd::prelude::*;

verus! {

/// How many letters the alphabet without I and O holds.
pub const ALPHABET_LEN: u8 = 24;

/// The letter with the given number in the alphabet without I and O.
pub open spec fn letter_at(index: int) -> char
    recommends
        0 <= index < 24,
{
    if index < 8 {
        (65 + index) as u8 as char
    } else if index < 13 {
        (66 + index) as u8 as char
    } else {
        (67 + index) as u8 as char
    }
}

/// The number of a letter in the alphabet without I and O, if it is one.
pub open spec fn letter_index(letter: char) -> Option<int> {
    if 'A' <= letter <= 'H' {
        Some(letter as int - 65)
    } else if 'J' <= letter <= 'N' {
        Some(letter as int - 66)
    } else if 'P' <= letter <= 'Z' {
        Some(letter as int - 67)
    } else {
        None
    }
}

/// Whether the character is a decimal digit.
pub open spec fn is_digit(c: char) -> bool {
    '0' <= c <= '9'
}

/// The character of a decimal digit.
pub open spec fn digit_char(digit: int) -> char
    recommends
        0 <= digit < 10,
{
    (48 + digit) as u8 as char
}

/// The value of a decimal digit.
pub open spec fn digit_value(c: char) -> int
    recommends
        is_digit(c),
{
    c as int - 48
}

/// Numbering the letters and naming the numbers undo each other, and no
/// number names I or O.
pub proof fn lemma_letters_and_indices(index: int, letter: char)
    ensures
        0 <= index < 24 ==> letter_index(letter_at(index)) == Some(index),
        0 <= index < 24 ==> letter_at(index) != 'I' && letter_at(index) != 'O',
        letter_index(letter) is Some ==> 0 <= letter_index(letter)->0 < 24 && letter_at(
            letter_index(letter)->0,
        ) == letter,
        letter_index('I') is None,
        letter_index('O') is None,
{
}

/// The letter with the given number.
pub fn letter(index: u8) -> (c: char)
    requires
        index < ALPHABET_LEN,
    ensures
        c == letter_at(index as int),
        letter_index(c) == Some(index as int),
{
    if index < 8 {
        (65 + index) as char
    } else if index < 13 {
        (66 + index) as char
    } else {
        (67 + index) as char
    }
}

/// The number of a letter, or `None` for any other character.
pub fn index_of(c: char) -> (r: Option<u8>)
    ensures
        r is Some <==> letter_index(c) is Some,
        r is Some ==> r->0 as int == letter_index(c)->0 && r->0 < ALPHABET_LEN && letter_at(
            r->0 as int,
        ) == c,
{
    if 'A' <= c && c <= 'H' {
        Some((c as u32 - 65) as u8)
    } else if 'J' <= c && c <= 'N' {
        Some((c as u32 - 66) as u8)
    } else if 'P' <= c && c <= 'Z' {
        Some((c as u32 - 67) as u8)
    } else {
        None
    }
}

/// The character of a decimal digit.
pub fn digit(value: u8) -> (c: char)
    requires
        value < 10,
    ensures
        c == digit_char(value as int),
        is_digit(c),
        digit_value(c) == value,
{
    (48 + value) as char
}

/// The value of a decimal digit, or `None` for any other character.
pub fn value_of_digit(c: char) -> (r: Option<u8>)
    ensures
        r is Some <==> is_digit(c),
        r is Some ==> r->0 as int == digit_value(c) && r->0 < 10 && digit_char(r->0 as int) == c,
{
    if '0' <= c && c <= '9' {
        Some((c as u32 - 48) as u8)
    } else {
        None
    }
}

/// How many letters name the columns of the polar grids.
pub const POLAR_ALPHABET_LEN: u8 = 18;

/// The letter with the given number among the column letters of the polar
/// grids: the alphabet without D, E, I, M, N, O, V and W.
pub open spec fn polar_letter_at(index: int) -> char
    recommends
        0 <= index < 18,
{
    if index < 3 {
        (65 + index) as u8 as char
    } else if index < 6 {
        (67 + index) as u8 as char
    } else if index < 9 {
        (68 + index) as u8 as char
    } else if index < 15 {
        (71 + index) as u8 as char
    } else {
        (73 + index) as u8 as char
    }
}

/// The number of a letter among the column letters of the polar grids, if
/// it is one.
pub open spec fn polar_letter_index(letter: char) -> Option<int> {
    if 'A' <= letter <= 'C' {
        Some(letter as int - 65)
    } else if 'F' <= letter <= 'H' {
        Some(letter as int - 67)
    } else if 'J' <= letter <= 'L' {
        Some(letter as int - 68)
    } else if 'P' <= letter <= 'U' {
        Some(letter as int - 71)
    } else if 'X' <= letter <= 'Z' {
        Some(letter as int - 73)
    } else {
        None
    }
}

/// Numbering the polar column letters and naming the numbers undo each
/// other, and every polar column letter is a letter of the alphabet without
/// I and O.
pub proof fn lemma_polar_letters_and_indices(index: int, letter: char)
    ensures
        0 <= index < 18 ==> polar_letter_index(polar_letter_at(index)) == Some(index),
        polar_letter_index(letter) is Some ==> 0 <= polar_letter_index(letter)->0 < 18
            && polar_letter_at(polar_letter_index(letter)->0) == letter && letter_index(letter)
            is Some,
{
}

/// The polar column letter with the given number.
pub fn polar_letter(index: u8) -> (c: char)
    requires
        index < POLAR_ALPHABET_LEN,
    ensures
        c == polar_letter_at(index as int),
        polar_letter_index(c) == Some(index as int),
        letter_index(c) is Some,
{
    if index < 3 {
        (65 + index) as char
    } else if index < 6 {
        (67 + index) as char
    } else if index < 9 {
        (68 + index) as char
    } else if index < 15 {
        (71 + index) as char
    } else {
        (73 + index) as char
    }
}

/// The number of a polar column letter, or `None` for any other character.
pub fn polar_index_of(c: char) -> (r: Option<u8>)
    ensures
        r is Some <==> polar_letter_index(c) is Some,
        r is Some ==> r->0 as int == polar_letter_index(c)->0 && r->0 < POLAR_ALPHABET_LEN,
{
    if 'A' <= c && c <= 'C' {
        Some((c as u32 - 65) as u8)
    } else if 'F' <= c && c <= 'H' {
        Some((c as u32 - 67) as u8)
    } else if 'J' <= c && c <= 'L' {
        Some((c as u32 - 68) as u8)
    } else if 'P' <= c && c <= 'U' {
        Some((c as u32 - 71) as u8)
    } else if 'X' <= c && c <= 'Z' {
        Some((c as u32 - 73) as u8)
    } else {
        None
    }
}

} // verus!
