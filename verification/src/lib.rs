//! Reading DSON values into Rust data: the decisions of a serde deserializer
//! over the DSON data model, stated and proved.

pub mod dson;
pub mod error;
pub mod de;
pub mod laws;
pub mod hirgen;
