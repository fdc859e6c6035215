//! The one error type of the crate, and its human-readable messages.

use crate::types::property::PropertyKind;
use crate::types::value::Value;
use roxmltree::Error as XmlError;
use vstd::prelude::*;
use vstd::string::*;

verus! {

/// `roxmltree::Error`, the error of the XML parser. The library carries such
/// an error and never looks inside it.
#[verifier::external_type_specification]
#[verifier::external_body]
pub struct ExXmlError(XmlError);

/// `std::io::Error`. The library carries such an error and never looks
/// inside it.
#[verifier::external_type_specification]
#[verifier::external_body]
pub struct ExIoError(std::io::Error);

/// `core::num::ParseIntError`. The library carries such an error and never
/// looks inside it.
#[verifier::external_type_specification]
#[verifier::external_body]
pub struct ExParseIntError(core::num::ParseIntError);

/// `core::num::ParseFloatError`. The library carries such an error and never
/// looks inside it.
#[verifier::external_type_specification]
#[verifier::external_body]
pub struct ExParseFloatError(core::num::ParseFloatError);

/// `core::str::ParseBoolError`. The library carries such an error and never
/// looks inside it.
#[verifier::external_type_specification]
#[verifier::external_body]
pub struct ExParseBoolError(core::str::ParseBoolError);

/// Everything that can go wrong while a document is turned into properties.
#[derive(Debug)]
pub enum Error {
    /// The document is not well-formed XML.
    Xml(XmlError),
    /// The document has no `fontconfig` element at its top.
    NoFontconfig,
    /// The content is not valid for this format; the text says why.
    InvalidFormat(String),
    /// The document could not be read.
    IoError(std::io::Error),
    /// A name is not in a closed vocabulary: the vocabulary's label, then the
    /// name that was given.
    ParseEnumError(&'static str, String),
    /// A literal is not an integer.
    ParseIntError(core::num::ParseIntError),
    /// A literal is not a floating-point number.
    ParseFloatError(core::num::ParseFloatError),
    /// A literal is not a boolean.
    ParseBoolError(core::str::ParseBoolError),
    /// A value does not have the type that a property kind accepts: the kind
    /// that was asked for, then the value that was given.
    PropertyConvertError(PropertyKind, Value),
}

/// The message for a failure to read the document, given the text of the
/// underlying I/O error.
pub fn io_error_message(detail: &str) -> (text: String)
    ensures
        text@ == "IO error: "@ + detail@,
{
    String::from_str("IO error: ").concat(detail)
}

impl Error {
    /// Whether `text` is the human-readable message of the error.
    ///
    /// An error that wraps one of another library reads as that error does;
    /// what that text is, is left to the other library.
    pub open spec fn has_message(&self, text: String) -> bool {
        match self {
            Error::Xml(e) => to_string_from_display_ensures::<XmlError>(e, text),
            Error::NoFontconfig => text@ == "Can't find fontconfig element"@,
            Error::InvalidFormat(reason) => text@ == "Config format is invalid: "@ + reason@,
            Error::IoError(e) => exists|detail: String|
                to_string_from_display_ensures::<std::io::Error>(e, detail) && text@
                    == "IO error: "@ + detail@,
            Error::ParseEnumError(label, name) => text@ == "Unknown variant for "@ + label@ + ": "@
                + name@,
            Error::ParseIntError(e) => to_string_from_display_ensures::<core::num::ParseIntError>(
                e,
                text,
            ),
            Error::ParseFloatError(e) => to_string_from_display_ensures::<
                core::num::ParseFloatError,
            >(e, text),
            Error::ParseBoolError(e) => to_string_from_display_ensures::<core::str::ParseBoolError>(
                e,
                text,
            ),
            Error::PropertyConvertError(kind, value) => text@ == "Property "@ + kind.spec_name()
                + " expects "@ + kind.spec_value_type().spec_name() + ", not "@
                + value.spec_value_type().spec_name(),
        }
    }

    /// The human-readable message of the error.
    pub fn message(&self) -> (text: String)
        ensures
            self.has_message(text),
    {
        match self {
            Error::Xml(e) => e.to_string(),
            Error::NoFontconfig => String::from_str("Can't find fontconfig element"),
            Error::InvalidFormat(reason) => String::from_str("Config format is invalid: ").concat(
                reason.as_str(),
            ),
            Error::IoError(e) => {
                let detail = e.to_string();
                io_error_message(detail.as_str())
            },
            Error::ParseEnumError(label, name) => String::from_str("Unknown variant for ").concat(
                label,
            ).concat(": ").concat(name.as_str()),
            Error::ParseIntError(e) => e.to_string(),
            Error::ParseFloatError(e) => e.to_string(),
            Error::ParseBoolError(e) => e.to_string(),
            Error::PropertyConvertError(kind, value) => String::from_str("Property ").concat(
                kind.name(),
            ).concat(" expects ").concat(kind.value_type().name()).concat(", not ").concat(
                value.value_type().name(),
            ),
        }
    }
}

impl From<XmlError> for Error {
    /// An error of the XML parser is kept whole, in the variant of its own.
    fn from(e: XmlError) -> (error: Error) {
        Error::Xml(e)
    }
}

impl vstd::std_specs::convert::FromSpecImpl<XmlError> for Error {
    open spec fn obeys_from_spec() -> bool {
        true
    }

    open spec fn from_spec(e: XmlError) -> Error {
        Error::Xml(e)
    }
}

impl From<std::io::Error> for Error {
    /// An I/O error is kept whole, in the variant of its own.
    fn from(e: std::io::Error) -> (error: Error) {
        Error::IoError(e)
    }
}

impl vstd::std_specs::convert::FromSpecImpl<std::io::Error> for Error {
    open spec fn obeys_from_spec() -> bool {
        true
    }

    open spec fn from_spec(e: std::io::Error) -> Error {
        Error::IoError(e)
    }
}

impl From<core::num::ParseIntError> for Error {
    /// A failure to parse an integer is kept whole, in the variant of its own.
    fn from(e: core::num::ParseIntError) -> (error: Error) {
        Error::ParseIntError(e)
    }
}

impl vstd::std_specs::convert::FromSpecImpl<core::num::ParseIntError> for Error {
    open spec fn obeys_from_spec() -> bool {
        true
    }

    open spec fn from_spec(e: core::num::ParseIntError) -> Error {
        Error::ParseIntError(e)
    }
}

impl From<core::num::ParseFloatError> for Error {
    /// A failure to parse a floating-point number is kept whole, in the variant of its own.
    fn from(e: core::num::ParseFloatError) -> (error: Error) {
        Error::ParseFloatError(e)
    }
}

impl vstd::std_specs::convert::FromSpecImpl<core::num::ParseFloatError> for Error {
    open spec fn obeys_from_spec() -> bool {
        true
    }

    open spec fn from_spec(e: core::num::ParseFloatError) -> Error {
        Error::ParseFloatError(e)
    }
}

impl From<core::str::ParseBoolError> for Error {
    /// A failure to parse a boolean is kept whole, in the variant of its own.
    fn from(e: core::str::ParseBoolError) -> (error: Error) {
        Error::ParseBoolError(e)
    }
}

impl vstd::std_specs::convert::FromSpecImpl<core::str::ParseBoolError> for Error {
    open spec fn obeys_from_spec() -> bool {
        true
    }

    open spec fn from_spec(e: core::str::ParseBoolError) -> Error {
        Error::ParseBoolError(e)
    }
}

} // verus!
