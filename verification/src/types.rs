//! The data model: values, the kinds of property, and properties.

pub mod charset;
pub mod property;
pub mod value;
