//! Bidirectional conversion between two postal-address representations — the
//! French flat-line convention (NF Z10-011 style) and the structured ISO 20022
//! element set — through a canonical in-memory address model.
//!
//! Every conversion is a pure function with a contract that pins down exactly
//! which inputs succeed, which error comes back otherwise, and what every field
//! of the result holds.

pub mod address;
pub mod address_conversion;
pub mod country;
pub mod french_address;
pub mod iso20022_address;
pub mod laws;
pub mod service;
pub mod text;
