//! Typed decoding of tournament records from loosely typed JSON payloads.
pub mod json;
pub mod kinds;
pub mod time;
pub mod tournament;
