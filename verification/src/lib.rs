//! Conversion between geographic coordinates and Military Grid Reference
//! System strings, with every rule of the grid stated as a contract.
//!
//! Floating-point values never enter the library: a coordinate is handed over
//! as the bit pattern of an IEEE 754 binary64 value and read exactly, and the
//! map projection itself is done by the caller between two calls of the
//! library.
pub mod binary64;
pub mod error;
pub mod coordinate;
pub mod letters;
pub mod zone;
pub mod grid_square;
pub mod utm;
pub mod codec;
pub mod convert;
