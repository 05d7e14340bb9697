//! A Chinese calendar engine: Gregorian dates to lunar dates, the 24 solar
//! terms, sexagenary year names, zodiac animals, and holiday resolution.

pub mod app;
pub mod dates;
pub mod holiday;
pub mod keys;
pub mod lunar;
pub mod solar_term;
mod text;
