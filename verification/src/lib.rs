//! Configuration resolution for a TypeScript formatter, with the scan that
//! tells whether a source file opts out of formatting.

pub mod configuration;
pub mod utils;
