//! A typed model of the properties of a fontconfig pattern.
//!
//! A property has a kind, such as `family` or `weight`, and a payload. Each
//! kind accepts one type of value, and a property can only be built from a
//! kind and a value of that type: [`PropertyKind::make_property`] pairs the
//! two or hands both back in an error. [`parse_kind`] resolves the name of a
//! kind as a document spells it.
//!
//! Every function of the crate is verified against its contract, and the
//! laws that hold between the functions are stated as proof functions beside
//! them.

pub mod error;
pub mod text;
pub mod types;

pub use error::Error;
pub use types::charset::{CharRange, CharSet};
pub use types::property::{parse_kind, Property, PropertyKind};
pub use types::value::{Bool, Double, Int, Value, ValueType};
