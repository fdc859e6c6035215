//! The kinds of property, properties, and the two ways into them: resolving
//! the name of a kind, and pairing a kind with a value.

use crate::error::Error;
use crate::text::str_eq;
use crate::types::charset::CharSet;
use crate::types::value::{Bool, Double, Int, Value, ValueType};
use vstd::prelude::*;

verus! {

/// The names of the properties that a font pattern can carry. The set is
/// closed: each kind has one canonical name and accepts one type of value.
#[derive(Clone, Copy, Debug, PartialEq, Eq, Hash, Structural)]
pub enum PropertyKind {
    /// Font family names.
    Family,
    /// Languages of the family names, one for each.
    FamilyLang,
    /// Font style; overrides weight and slant.
    Style,
    /// Languages of the style names, one for each.
    StyleLang,
    /// Full font names, which often include the style.
    FullName,
    /// Languages of the full names, one for each.
    FullNameLang,
    /// Italic, oblique or roman.
    Slant,
    /// Light, medium, demibold, bold or black.
    Weight,
    /// Point size.
    Size,
    /// Condensed, normal or expanded.
    Width,
    /// Horizontal stretch applied to glyphs before hinting.
    Aspect,
    /// Pixel size.
    PixelSize,
    /// Proportional, dual-width, monospace or charcell.
    Spacing,
    /// Font foundry name.
    Foundry,
    /// Whether glyphs can be antialiased.
    Antialias,
    /// Whether the rasterizer should use hinting.
    Hinting,
    /// Automatic hinting style.
    HintStyle,
    /// Whether to use the vertical layout.
    VerticalLayout,
    /// Whether to use the autohinter instead of the normal hinter.
    AutoHint,
    /// Whether to use the font's global advance data (deprecated).
    GlobalAdvance,
    /// Name of the file that holds the font.
    File,
    /// Index of the font within its file.
    Index,
    /// Which rasterizer is in use (deprecated).
    Rasterizer,
    /// Whether the glyphs are outlines.
    Outline,
    /// Whether glyphs can be scaled.
    Scalable,
    /// Whether any glyphs have color.
    Color,
    /// Scale factor for point to pixel conversions (deprecated).
    Scale,
    /// Target dots per inch.
    Dpi,
    /// Subpixel geometry: unknown, rgb, bgr, vrgb, vbgr or none.
    Rgba,
    /// Type of LCD filter.
    Lcdfilter,
    /// Whether to eliminate leading from line spacing.
    Minspace,
    /// Unicode characters that the font encodes.
    Charset,
    /// RFC 3066 style languages that the font supports.
    Lang,
    /// Version number of the font.
    Fontversion,
    /// Layout capabilities in the font.
    Capability,
    /// Name of the font format.
    Fontformat,
    /// Whether the rasterizer should synthetically embolden the font.
    Embolden,
    /// Whether to use the embedded bitmap instead of the outline.
    Embeddedbitmap,
    /// Whether the style is a decorative variant.
    Decorative,
    /// OpenType feature tags to enable.
    Fontfeatures,
    /// Language for the default value of familylang, stylelang and fullnamelang.
    Namelang,
    /// Name of the running program.
    Prgname,
    /// Font family name in PostScript.
    Postscriptname,
    /// Whether the font has hinting.
    Fonthashint,
    /// Order number of the font.
    Order,
}

/// A property of a font pattern: a kind together with a value of the type
/// that the kind accepts. Each variant holds its payload in that type, so a
/// property whose value has the wrong type cannot be built.
#[derive(Clone, Debug, PartialEq, Eq)]
pub enum Property {
    /// Font family names.
    Family(String),
    /// Languages of the family names, one for each.
    FamilyLang(String),
    /// Font style; overrides weight and slant.
    Style(String),
    /// Languages of the style names, one for each.
    StyleLang(String),
    /// Full font names, which often include the style.
    FullName(String),
    /// Languages of the full names, one for each.
    FullNameLang(String),
    /// Italic, oblique or roman.
    Slant(Int),
    /// Light, medium, demibold, bold or black.
    Weight(Int),
    /// Point size.
    Size(Double),
    /// Condensed, normal or expanded.
    Width(Int),
    /// Horizontal stretch applied to glyphs before hinting.
    Aspect(Double),
    /// Pixel size.
    PixelSize(Double),
    /// Proportional, dual-width, monospace or charcell.
    Spacing(Int),
    /// Font foundry name.
    Foundry(String),
    /// Whether glyphs can be antialiased.
    Antialias(Bool),
    /// Whether the rasterizer should use hinting.
    Hinting(Bool),
    /// Automatic hinting style.
    HintStyle(Int),
    /// Whether to use the vertical layout.
    VerticalLayout(Bool),
    /// Whether to use the autohinter instead of the normal hinter.
    AutoHint(Bool),
    /// Whether to use the font's global advance data (deprecated).
    GlobalAdvance(Bool),
    /// Name of the file that holds the font.
    File(String),
    /// Index of the font within its file.
    Index(Int),
    /// Which rasterizer is in use (deprecated).
    Rasterizer(String),
    /// Whether the glyphs are outlines.
    Outline(Bool),
    /// Whether glyphs can be scaled.
    Scalable(Bool),
    /// Whether any glyphs have color.
    Color(Bool),
    /// Scale factor for point to pixel conversions (deprecated).
    Scale(Double),
    /// Target dots per inch.
    Dpi(Double),
    /// Subpixel geometry: unknown, rgb, bgr, vrgb, vbgr or none.
    Rgba(Int),
    /// Type of LCD filter.
    Lcdfilter(Int),
    /// Whether to eliminate leading from line spacing.
    Minspace(Bool),
    /// Unicode characters that the font encodes.
    Charset(CharSet),
    /// RFC 3066 style languages that the font supports.
    Lang(String),
    /// Version number of the font.
    Fontversion(Int),
    /// Layout capabilities in the font.
    Capability(String),
    /// Name of the font format.
    Fontformat(String),
    /// Whether the rasterizer should synthetically embolden the font.
    Embolden(Bool),
    /// Whether to use the embedded bitmap instead of the outline.
    Embeddedbitmap(Bool),
    /// Whether the style is a decorative variant.
    Decorative(Bool),
    /// OpenType feature tags to enable.
    Fontfeatures(String),
    /// Language for the default value of familylang, stylelang and fullnamelang.
    Namelang(String),
    /// Name of the running program.
    Prgname(String),
    /// Font family name in PostScript.
    Postscriptname(String),
    /// Whether the font has hinting.
    Fonthashint(Bool),
    /// Order number of the font.
    Order(Int),
}

impl PropertyKind {
    /// The canonical name of the kind: the variant's name in lower case.
    pub open spec fn spec_name(self) -> Seq<char> {
        match self {
            PropertyKind::Family => "family"@,
            PropertyKind::FamilyLang => "familylang"@,
            PropertyKind::Style => "style"@,
            PropertyKind::StyleLang => "stylelang"@,
            PropertyKind::FullName => "fullname"@,
            PropertyKind::FullNameLang => "fullnamelang"@,
            PropertyKind::Slant => "slant"@,
            PropertyKind::Weight => "weight"@,
            PropertyKind::Size => "size"@,
            PropertyKind::Width => "width"@,
            PropertyKind::Aspect => "aspect"@,
            PropertyKind::PixelSize => "pixelsize"@,
            PropertyKind::Spacing => "spacing"@,
            PropertyKind::Foundry => "foundry"@,
            PropertyKind::Antialias => "antialias"@,
            PropertyKind::Hinting => "hinting"@,
            PropertyKind::HintStyle => "hintstyle"@,
            PropertyKind::VerticalLayout => "verticallayout"@,
            PropertyKind::AutoHint => "autohint"@,
            PropertyKind::GlobalAdvance => "globaladvance"@,
            PropertyKind::File => "file"@,
            PropertyKind::Index => "index"@,
            PropertyKind::Rasterizer => "rasterizer"@,
            PropertyKind::Outline => "outline"@,
            PropertyKind::Scalable => "scalable"@,
            PropertyKind::Color => "color"@,
            PropertyKind::Scale => "scale"@,
            PropertyKind::Dpi => "dpi"@,
            PropertyKind::Rgba => "rgba"@,
            PropertyKind::Lcdfilter => "lcdfilter"@,
            PropertyKind::Minspace => "minspace"@,
            PropertyKind::Charset => "charset"@,
            PropertyKind::Lang => "lang"@,
            PropertyKind::Fontversion => "fontversion"@,
            PropertyKind::Capability => "capability"@,
            PropertyKind::Fontformat => "fontformat"@,
            PropertyKind::Embolden => "embolden"@,
            PropertyKind::Embeddedbitmap => "embeddedbitmap"@,
            PropertyKind::Decorative => "decorative"@,
            PropertyKind::Fontfeatures => "fontfeatures"@,
            PropertyKind::Namelang => "namelang"@,
            PropertyKind::Prgname => "prgname"@,
            PropertyKind::Postscriptname => "postscriptname"@,
            PropertyKind::Fonthashint => "fonthashint"@,
            PropertyKind::Order => "order"@,
        }
    }

    /// The canonical name of the kind.
    pub fn name(self) -> (name: &'static str)
        ensures
            name@ == self.spec_name(),
    {
        match self {
            PropertyKind::Family => "family",
            PropertyKind::FamilyLang => "familylang",
            PropertyKind::Style => "style",
            PropertyKind::StyleLang => "stylelang",
            PropertyKind::FullName => "fullname",
            PropertyKind::FullNameLang => "fullnamelang",
            PropertyKind::Slant => "slant",
            PropertyKind::Weight => "weight",
            PropertyKind::Size => "size",
            PropertyKind::Width => "width",
            PropertyKind::Aspect => "aspect",
            PropertyKind::PixelSize => "pixelsize",
            PropertyKind::Spacing => "spacing",
            PropertyKind::Foundry => "foundry",
            PropertyKind::Antialias => "antialias",
            PropertyKind::Hinting => "hinting",
            PropertyKind::HintStyle => "hintstyle",
            PropertyKind::VerticalLayout => "verticallayout",
            PropertyKind::AutoHint => "autohint",
            PropertyKind::GlobalAdvance => "globaladvance",
            PropertyKind::File => "file",
            PropertyKind::Index => "index",
            PropertyKind::Rasterizer => "rasterizer",
            PropertyKind::Outline => "outline",
            PropertyKind::Scalable => "scalable",
            PropertyKind::Color => "color",
            PropertyKind::Scale => "scale",
            PropertyKind::Dpi => "dpi",
            PropertyKind::Rgba => "rgba",
            PropertyKind::Lcdfilter => "lcdfilter",
            PropertyKind::Minspace => "minspace",
            PropertyKind::Charset => "charset",
            PropertyKind::Lang => "lang",
            PropertyKind::Fontversion => "fontversion",
            PropertyKind::Capability => "capability",
            PropertyKind::Fontformat => "fontformat",
            PropertyKind::Embolden => "embolden",
            PropertyKind::Embeddedbitmap => "embeddedbitmap",
            PropertyKind::Decorative => "decorative",
            PropertyKind::Fontfeatures => "fontfeatures",
            PropertyKind::Namelang => "namelang",
            PropertyKind::Prgname => "prgname",
            PropertyKind::Postscriptname => "postscriptname",
            PropertyKind::Fonthashint => "fonthashint",
            PropertyKind::Order => "order",
        }
    }

    /// The one type of value that a property of this kind holds.
    pub open spec fn spec_value_type(self) -> ValueType {
        match self {
            PropertyKind::Family => ValueType::Str,
            PropertyKind::FamilyLang => ValueType::Str,
            PropertyKind::Style => ValueType::Str,
            PropertyKind::StyleLang => ValueType::Str,
            PropertyKind::FullName => ValueType::Str,
            PropertyKind::FullNameLang => ValueType::Str,
            PropertyKind::Slant => ValueType::Int,
            PropertyKind::Weight => ValueType::Int,
            PropertyKind::Size => ValueType::Double,
            PropertyKind::Width => ValueType::Int,
            PropertyKind::Aspect => ValueType::Double,
            PropertyKind::PixelSize => ValueType::Double,
            PropertyKind::Spacing => ValueType::Int,
            PropertyKind::Foundry => ValueType::Str,
            PropertyKind::Antialias => ValueType::Bool,
            PropertyKind::Hinting => ValueType::Bool,
            PropertyKind::HintStyle => ValueType::Int,
            PropertyKind::VerticalLayout => ValueType::Bool,
            PropertyKind::AutoHint => ValueType::Bool,
            PropertyKind::GlobalAdvance => ValueType::Bool,
            PropertyKind::File => ValueType::Str,
            PropertyKind::Index => ValueType::Int,
            PropertyKind::Rasterizer => ValueType::Str,
            PropertyKind::Outline => ValueType::Bool,
            PropertyKind::Scalable => ValueType::Bool,
            PropertyKind::Color => ValueType::Bool,
            PropertyKind::Scale => ValueType::Double,
            PropertyKind::Dpi => ValueType::Double,
            PropertyKind::Rgba => ValueType::Int,
            PropertyKind::Lcdfilter => ValueType::Int,
            PropertyKind::Minspace => ValueType::Bool,
            PropertyKind::Charset => ValueType::CharSet,
            PropertyKind::Lang => ValueType::Str,
            PropertyKind::Fontversion => ValueType::Int,
            PropertyKind::Capability => ValueType::Str,
            PropertyKind::Fontformat => ValueType::Str,
            PropertyKind::Embolden => ValueType::Bool,
            PropertyKind::Embeddedbitmap => ValueType::Bool,
            PropertyKind::Decorative => ValueType::Bool,
            PropertyKind::Fontfeatures => ValueType::Str,
            PropertyKind::Namelang => ValueType::Str,
            PropertyKind::Prgname => ValueType::Str,
            PropertyKind::Postscriptname => ValueType::Str,
            PropertyKind::Fonthashint => ValueType::Bool,
            PropertyKind::Order => ValueType::Int,
        }
    }

    /// The one type of value that a property of this kind holds.
    #[verifier::when_used_as_spec(spec_value_type)]
    pub fn value_type(self) -> (t: ValueType)
        ensures
            t == self.spec_value_type(),
    {
        match self {
            PropertyKind::Family => ValueType::Str,
            PropertyKind::FamilyLang => ValueType::Str,
            PropertyKind::Style => ValueType::Str,
            PropertyKind::StyleLang => ValueType::Str,
            PropertyKind::FullName => ValueType::Str,
            PropertyKind::FullNameLang => ValueType::Str,
            PropertyKind::Slant => ValueType::Int,
            PropertyKind::Weight => ValueType::Int,
            PropertyKind::Size => ValueType::Double,
            PropertyKind::Width => ValueType::Int,
            PropertyKind::Aspect => ValueType::Double,
            PropertyKind::PixelSize => ValueType::Double,
            PropertyKind::Spacing => ValueType::Int,
            PropertyKind::Foundry => ValueType::Str,
            PropertyKind::Antialias => ValueType::Bool,
            PropertyKind::Hinting => ValueType::Bool,
            PropertyKind::HintStyle => ValueType::Int,
            PropertyKind::VerticalLayout => ValueType::Bool,
            PropertyKind::AutoHint => ValueType::Bool,
            PropertyKind::GlobalAdvance => ValueType::Bool,
            PropertyKind::File => ValueType::Str,
            PropertyKind::Index => ValueType::Int,
            PropertyKind::Rasterizer => ValueType::Str,
            PropertyKind::Outline => ValueType::Bool,
            PropertyKind::Scalable => ValueType::Bool,
            PropertyKind::Color => ValueType::Bool,
            PropertyKind::Scale => ValueType::Double,
            PropertyKind::Dpi => ValueType::Double,
            PropertyKind::Rgba => ValueType::Int,
            PropertyKind::Lcdfilter => ValueType::Int,
            PropertyKind::Minspace => ValueType::Bool,
            PropertyKind::Charset => ValueType::CharSet,
            PropertyKind::Lang => ValueType::Str,
            PropertyKind::Fontversion => ValueType::Int,
            PropertyKind::Capability => ValueType::Str,
            PropertyKind::Fontformat => ValueType::Str,
            PropertyKind::Embolden => ValueType::Bool,
            PropertyKind::Embeddedbitmap => ValueType::Bool,
            PropertyKind::Decorative => ValueType::Bool,
            PropertyKind::Fontfeatures => ValueType::Str,
            PropertyKind::Namelang => ValueType::Str,
            PropertyKind::Prgname => ValueType::Str,
            PropertyKind::Postscriptname => ValueType::Str,
            PropertyKind::Fonthashint => ValueType::Bool,
            PropertyKind::Order => ValueType::Int,
        }
    }

    /// What pairing the kind with `value` gives: the property of this kind
    /// that carries `value` if the value has the type the kind accepts, and
    /// otherwise the error that holds the kind and the value as they came.
    pub open spec fn spec_make_property(self, value: Value) -> Result<Property, Error> {
        if value.value_type() == self.value_type() {
            Ok(Property::from_parts(self, value))
        } else {
            Err(Error::PropertyConvertError(self, value))
        }
    }

    /// Pairs the kind with a value. No value is converted: one of another
    /// type than the kind accepts is handed back in the error.
    pub fn make_property(self, value: Value) -> (made: Result<Property, Error>)
        ensures
            made == self.spec_make_property(value),
            is_pairing_of(self, value, made),
    {
        let made = match (self, value) {
            (PropertyKind::Family, Value::Str(payload)) => Ok(Property::Family(payload)),
            (PropertyKind::FamilyLang, Value::Str(payload)) => Ok(Property::FamilyLang(payload)),
            (PropertyKind::Style, Value::Str(payload)) => Ok(Property::Style(payload)),
            (PropertyKind::StyleLang, Value::Str(payload)) => Ok(Property::StyleLang(payload)),
            (PropertyKind::FullName, Value::Str(payload)) => Ok(Property::FullName(payload)),
            (PropertyKind::FullNameLang, Value::Str(payload)) => Ok(Property::FullNameLang(payload)),
            (PropertyKind::Slant, Value::Int(payload)) => Ok(Property::Slant(payload)),
            (PropertyKind::Weight, Value::Int(payload)) => Ok(Property::Weight(payload)),
            (PropertyKind::Size, Value::Double(payload)) => Ok(Property::Size(payload)),
            (PropertyKind::Width, Value::Int(payload)) => Ok(Property::Width(payload)),
            (PropertyKind::Aspect, Value::Double(payload)) => Ok(Property::Aspect(payload)),
            (PropertyKind::PixelSize, Value::Double(payload)) => Ok(Property::PixelSize(payload)),
            (PropertyKind::Spacing, Value::Int(payload)) => Ok(Property::Spacing(payload)),
            (PropertyKind::Foundry, Value::Str(payload)) => Ok(Property::Foundry(payload)),
            (PropertyKind::Antialias, Value::Bool(payload)) => Ok(Property::Antialias(payload)),
            (PropertyKind::Hinting, Value::Bool(payload)) => Ok(Property::Hinting(payload)),
            (PropertyKind::HintStyle, Value::Int(payload)) => Ok(Property::HintStyle(payload)),
            (PropertyKind::VerticalLayout, Value::Bool(payload)) => Ok(Property::VerticalLayout(payload)),
            (PropertyKind::AutoHint, Value::Bool(payload)) => Ok(Property::AutoHint(payload)),
            (PropertyKind::GlobalAdvance, Value::Bool(payload)) => Ok(Property::GlobalAdvance(payload)),
            (PropertyKind::File, Value::Str(payload)) => Ok(Property::File(payload)),
            (PropertyKind::Index, Value::Int(payload)) => Ok(Property::Index(payload)),
            (PropertyKind::Rasterizer, Value::Str(payload)) => Ok(Property::Rasterizer(payload)),
            (PropertyKind::Outline, Value::Bool(payload)) => Ok(Property::Outline(payload)),
            (PropertyKind::Scalable, Value::Bool(payload)) => Ok(Property::Scalable(payload)),
            (PropertyKind::Color, Value::Bool(payload)) => Ok(Property::Color(payload)),
            (PropertyKind::Scale, Value::Double(payload)) => Ok(Property::Scale(payload)),
            (PropertyKind::Dpi, Value::Double(payload)) => Ok(Property::Dpi(payload)),
            (PropertyKind::Rgba, Value::Int(payload)) => Ok(Property::Rgba(payload)),
            (PropertyKind::Lcdfilter, Value::Int(payload)) => Ok(Property::Lcdfilter(payload)),
            (PropertyKind::Minspace, Value::Bool(payload)) => Ok(Property::Minspace(payload)),
            (PropertyKind::Charset, Value::CharSet(payload)) => Ok(Property::Charset(payload)),
            (PropertyKind::Lang, Value::Str(payload)) => Ok(Property::Lang(payload)),
            (PropertyKind::Fontversion, Value::Int(payload)) => Ok(Property::Fontversion(payload)),
            (PropertyKind::Capability, Value::Str(payload)) => Ok(Property::Capability(payload)),
            (PropertyKind::Fontformat, Value::Str(payload)) => Ok(Property::Fontformat(payload)),
            (PropertyKind::Embolden, Value::Bool(payload)) => Ok(Property::Embolden(payload)),
            (PropertyKind::Embeddedbitmap, Value::Bool(payload)) => Ok(Property::Embeddedbitmap(payload)),
            (PropertyKind::Decorative, Value::Bool(payload)) => Ok(Property::Decorative(payload)),
            (PropertyKind::Fontfeatures, Value::Str(payload)) => Ok(Property::Fontfeatures(payload)),
            (PropertyKind::Namelang, Value::Str(payload)) => Ok(Property::Namelang(payload)),
            (PropertyKind::Prgname, Value::Str(payload)) => Ok(Property::Prgname(payload)),
            (PropertyKind::Postscriptname, Value::Str(payload)) => Ok(Property::Postscriptname(payload)),
            (PropertyKind::Fonthashint, Value::Bool(payload)) => Ok(Property::Fonthashint(payload)),
            (PropertyKind::Order, Value::Int(payload)) => Ok(Property::Order(payload)),
            (kind, value) => Err(Error::PropertyConvertError(kind, value)),
        };
        proof {
            lemma_make_property_has_one_outcome(self, value, made, made);
        }
        made
    }

    /// The kind with the canonical name `name`, if there is one. Names are
    /// compared as they are: no letter is folded and no space is trimmed.
    pub fn from_name(name: &str) -> (found: Option<PropertyKind>)
        ensures
            found == kind_named(name@),
            forall|kind: PropertyKind| found == Some(kind) <==> #[trigger] kind.spec_name() == name@,
    {
        let found = if str_eq(name, "family") {
            Some(PropertyKind::Family)
        } else if str_eq(name, "familylang") {
            Some(PropertyKind::FamilyLang)
        } else if str_eq(name, "style") {
            Some(PropertyKind::Style)
        } else if str_eq(name, "stylelang") {
            Some(PropertyKind::StyleLang)
        } else if str_eq(name, "fullname") {
            Some(PropertyKind::FullName)
        } else if str_eq(name, "fullnamelang") {
            Some(PropertyKind::FullNameLang)
        } else if str_eq(name, "slant") {
            Some(PropertyKind::Slant)
        } else if str_eq(name, "weight") {
            Some(PropertyKind::Weight)
        } else if str_eq(name, "size") {
            Some(PropertyKind::Size)
        } else if str_eq(name, "width") {
            Some(PropertyKind::Width)
        } else if str_eq(name, "aspect") {
            Some(PropertyKind::Aspect)
        } else if str_eq(name, "pixelsize") {
            Some(PropertyKind::PixelSize)
        } else if str_eq(name, "spacing") {
            Some(PropertyKind::Spacing)
        } else if str_eq(name, "foundry") {
            Some(PropertyKind::Foundry)
        } else if str_eq(name, "antialias") {
            Some(PropertyKind::Antialias)
        } else if str_eq(name, "hinting") {
            Some(PropertyKind::Hinting)
        } else if str_eq(name, "hintstyle") {
            Some(PropertyKind::HintStyle)
        } else if str_eq(name, "verticallayout") {
            Some(PropertyKind::VerticalLayout)
        } else if str_eq(name, "autohint") {
            Some(PropertyKind::AutoHint)
        } else if str_eq(name, "globaladvance") {
            Some(PropertyKind::GlobalAdvance)
        } else if str_eq(name, "file") {
            Some(PropertyKind::File)
        } else if str_eq(name, "index") {
            Some(PropertyKind::Index)
        } else if str_eq(name, "rasterizer") {
            Some(PropertyKind::Rasterizer)
        } else if str_eq(name, "outline") {
            Some(PropertyKind::Outline)
        } else if str_eq(name, "scalable") {
            Some(PropertyKind::Scalable)
        } else if str_eq(name, "color") {
            Some(PropertyKind::Color)
        } else if str_eq(name, "scale") {
            Some(PropertyKind::Scale)
        } else if str_eq(name, "dpi") {
            Some(PropertyKind::Dpi)
        } else if str_eq(name, "rgba") {
            Some(PropertyKind::Rgba)
        } else if str_eq(name, "lcdfilter") {
            Some(PropertyKind::Lcdfilter)
        } else if str_eq(name, "minspace") {
            Some(PropertyKind::Minspace)
        } else if str_eq(name, "charset") {
            Some(PropertyKind::Charset)
        } else if str_eq(name, "lang") {
            Some(PropertyKind::Lang)
        } else if str_eq(name, "fontversion") {
            Some(PropertyKind::Fontversion)
        } else if str_eq(name, "capability") {
            Some(PropertyKind::Capability)
        } else if str_eq(name, "fontformat") {
            Some(PropertyKind::Fontformat)
        } else if str_eq(name, "embolden") {
            Some(PropertyKind::Embolden)
        } else if str_eq(name, "embeddedbitmap") {
            Some(PropertyKind::Embeddedbitmap)
        } else if str_eq(name, "decorative") {
            Some(PropertyKind::Decorative)
        } else if str_eq(name, "fontfeatures") {
            Some(PropertyKind::Fontfeatures)
        } else if str_eq(name, "namelang") {
            Some(PropertyKind::Namelang)
        } else if str_eq(name, "prgname") {
            Some(PropertyKind::Prgname)
        } else if str_eq(name, "postscriptname") {
            Some(PropertyKind::Postscriptname)
        } else if str_eq(name, "fonthashint") {
            Some(PropertyKind::Fonthashint)
        } else if str_eq(name, "order") {
            Some(PropertyKind::Order)
        } else {
            None
        };
        proof {
            assert forall|kind: PropertyKind| found == Some(kind) <==> #[trigger] kind.spec_name()
                == name@ by {
                if found is Some && kind.spec_name() == name@ {
                    lemma_names_are_distinct(found->Some_0, kind);
                }
            }
            if found is Some {
                lemma_kind_named_is_exact(name@, found->Some_0);
            }
        }
        found
    }
}

impl Property {
    /// The kind of the property: the name of its variant.
    pub open spec fn spec_kind(&self) -> PropertyKind {
        match self {
            Property::Family(_) => PropertyKind::Family,
            Property::FamilyLang(_) => PropertyKind::FamilyLang,
            Property::Style(_) => PropertyKind::Style,
            Property::StyleLang(_) => PropertyKind::StyleLang,
            Property::FullName(_) => PropertyKind::FullName,
            Property::FullNameLang(_) => PropertyKind::FullNameLang,
            Property::Slant(_) => PropertyKind::Slant,
            Property::Weight(_) => PropertyKind::Weight,
            Property::Size(_) => PropertyKind::Size,
            Property::Width(_) => PropertyKind::Width,
            Property::Aspect(_) => PropertyKind::Aspect,
            Property::PixelSize(_) => PropertyKind::PixelSize,
            Property::Spacing(_) => PropertyKind::Spacing,
            Property::Foundry(_) => PropertyKind::Foundry,
            Property::Antialias(_) => PropertyKind::Antialias,
            Property::Hinting(_) => PropertyKind::Hinting,
            Property::HintStyle(_) => PropertyKind::HintStyle,
            Property::VerticalLayout(_) => PropertyKind::VerticalLayout,
            Property::AutoHint(_) => PropertyKind::AutoHint,
            Property::GlobalAdvance(_) => PropertyKind::GlobalAdvance,
            Property::File(_) => PropertyKind::File,
            Property::Index(_) => PropertyKind::Index,
            Property::Rasterizer(_) => PropertyKind::Rasterizer,
            Property::Outline(_) => PropertyKind::Outline,
            Property::Scalable(_) => PropertyKind::Scalable,
            Property::Color(_) => PropertyKind::Color,
            Property::Scale(_) => PropertyKind::Scale,
            Property::Dpi(_) => PropertyKind::Dpi,
            Property::Rgba(_) => PropertyKind::Rgba,
            Property::Lcdfilter(_) => PropertyKind::Lcdfilter,
            Property::Minspace(_) => PropertyKind::Minspace,
            Property::Charset(_) => PropertyKind::Charset,
            Property::Lang(_) => PropertyKind::Lang,
            Property::Fontversion(_) => PropertyKind::Fontversion,
            Property::Capability(_) => PropertyKind::Capability,
            Property::Fontformat(_) => PropertyKind::Fontformat,
            Property::Embolden(_) => PropertyKind::Embolden,
            Property::Embeddedbitmap(_) => PropertyKind::Embeddedbitmap,
            Property::Decorative(_) => PropertyKind::Decorative,
            Property::Fontfeatures(_) => PropertyKind::Fontfeatures,
            Property::Namelang(_) => PropertyKind::Namelang,
            Property::Prgname(_) => PropertyKind::Prgname,
            Property::Postscriptname(_) => PropertyKind::Postscriptname,
            Property::Fonthashint(_) => PropertyKind::Fonthashint,
            Property::Order(_) => PropertyKind::Order,
        }
    }

    /// The kind of the property.
    #[verifier::when_used_as_spec(spec_kind)]
    pub fn kind(&self) -> (kind: PropertyKind)
        ensures
            kind == self.spec_kind(),
    {
        match self {
            Property::Family(_) => PropertyKind::Family,
            Property::FamilyLang(_) => PropertyKind::FamilyLang,
            Property::Style(_) => PropertyKind::Style,
            Property::StyleLang(_) => PropertyKind::StyleLang,
            Property::FullName(_) => PropertyKind::FullName,
            Property::FullNameLang(_) => PropertyKind::FullNameLang,
            Property::Slant(_) => PropertyKind::Slant,
            Property::Weight(_) => PropertyKind::Weight,
            Property::Size(_) => PropertyKind::Size,
            Property::Width(_) => PropertyKind::Width,
            Property::Aspect(_) => PropertyKind::Aspect,
            Property::PixelSize(_) => PropertyKind::PixelSize,
            Property::Spacing(_) => PropertyKind::Spacing,
            Property::Foundry(_) => PropertyKind::Foundry,
            Property::Antialias(_) => PropertyKind::Antialias,
            Property::Hinting(_) => PropertyKind::Hinting,
            Property::HintStyle(_) => PropertyKind::HintStyle,
            Property::VerticalLayout(_) => PropertyKind::VerticalLayout,
            Property::AutoHint(_) => PropertyKind::AutoHint,
            Property::GlobalAdvance(_) => PropertyKind::GlobalAdvance,
            Property::File(_) => PropertyKind::File,
            Property::Index(_) => PropertyKind::Index,
            Property::Rasterizer(_) => PropertyKind::Rasterizer,
            Property::Outline(_) => PropertyKind::Outline,
            Property::Scalable(_) => PropertyKind::Scalable,
            Property::Color(_) => PropertyKind::Color,
            Property::Scale(_) => PropertyKind::Scale,
            Property::Dpi(_) => PropertyKind::Dpi,
            Property::Rgba(_) => PropertyKind::Rgba,
            Property::Lcdfilter(_) => PropertyKind::Lcdfilter,
            Property::Minspace(_) => PropertyKind::Minspace,
            Property::Charset(_) => PropertyKind::Charset,
            Property::Lang(_) => PropertyKind::Lang,
            Property::Fontversion(_) => PropertyKind::Fontversion,
            Property::Capability(_) => PropertyKind::Capability,
            Property::Fontformat(_) => PropertyKind::Fontformat,
            Property::Embolden(_) => PropertyKind::Embolden,
            Property::Embeddedbitmap(_) => PropertyKind::Embeddedbitmap,
            Property::Decorative(_) => PropertyKind::Decorative,
            Property::Fontfeatures(_) => PropertyKind::Fontfeatures,
            Property::Namelang(_) => PropertyKind::Namelang,
            Property::Prgname(_) => PropertyKind::Prgname,
            Property::Postscriptname(_) => PropertyKind::Postscriptname,
            Property::Fonthashint(_) => PropertyKind::Fonthashint,
            Property::Order(_) => PropertyKind::Order,
        }
    }

    /// The payload of the property, as an untyped value.
    pub open spec fn payload(self) -> Value {
        match self {
            Property::Family(payload) => Value::Str(payload),
            Property::FamilyLang(payload) => Value::Str(payload),
            Property::Style(payload) => Value::Str(payload),
            Property::StyleLang(payload) => Value::Str(payload),
            Property::FullName(payload) => Value::Str(payload),
            Property::FullNameLang(payload) => Value::Str(payload),
            Property::Slant(payload) => Value::Int(payload),
            Property::Weight(payload) => Value::Int(payload),
            Property::Size(payload) => Value::Double(payload),
            Property::Width(payload) => Value::Int(payload),
            Property::Aspect(payload) => Value::Double(payload),
            Property::PixelSize(payload) => Value::Double(payload),
            Property::Spacing(payload) => Value::Int(payload),
            Property::Foundry(payload) => Value::Str(payload),
            Property::Antialias(payload) => Value::Bool(payload),
            Property::Hinting(payload) => Value::Bool(payload),
            Property::HintStyle(payload) => Value::Int(payload),
            Property::VerticalLayout(payload) => Value::Bool(payload),
            Property::AutoHint(payload) => Value::Bool(payload),
            Property::GlobalAdvance(payload) => Value::Bool(payload),
            Property::File(payload) => Value::Str(payload),
            Property::Index(payload) => Value::Int(payload),
            Property::Rasterizer(payload) => Value::Str(payload),
            Property::Outline(payload) => Value::Bool(payload),
            Property::Scalable(payload) => Value::Bool(payload),
            Property::Color(payload) => Value::Bool(payload),
            Property::Scale(payload) => Value::Double(payload),
            Property::Dpi(payload) => Value::Double(payload),
            Property::Rgba(payload) => Value::Int(payload),
            Property::Lcdfilter(payload) => Value::Int(payload),
            Property::Minspace(payload) => Value::Bool(payload),
            Property::Charset(payload) => Value::CharSet(payload),
            Property::Lang(payload) => Value::Str(payload),
            Property::Fontversion(payload) => Value::Int(payload),
            Property::Capability(payload) => Value::Str(payload),
            Property::Fontformat(payload) => Value::Str(payload),
            Property::Embolden(payload) => Value::Bool(payload),
            Property::Embeddedbitmap(payload) => Value::Bool(payload),
            Property::Decorative(payload) => Value::Bool(payload),
            Property::Fontfeatures(payload) => Value::Str(payload),
            Property::Namelang(payload) => Value::Str(payload),
            Property::Prgname(payload) => Value::Str(payload),
            Property::Postscriptname(payload) => Value::Str(payload),
            Property::Fonthashint(payload) => Value::Bool(payload),
            Property::Order(payload) => Value::Int(payload),
        }
    }

    /// The property of kind `kind` whose payload is `value`. There is one
    /// when `value` has the type that `kind` accepts, and never more than one.
    pub open spec fn from_parts(kind: PropertyKind, value: Value) -> Property {
        choose|property: Property| property.kind() == kind && property.payload() == value
    }
}

impl Default for PropertyKind {
    /// The kind of the default property.
    fn default() -> (kind: PropertyKind)
        ensures
            kind == PropertyKind::Family,
    {
        PropertyKind::Family
    }
}

impl Default for Property {
    /// The default property: the family `DejavuSans`.
    fn default() -> (property: Property)
        ensures
            property matches Property::Family(family) && family@ == "DejavuSans"@,
    {
        Property::Family("DejavuSans".to_owned())
    }
}

/// The kind whose canonical name is `name`, if there is one.
pub open spec fn kind_named(name: Seq<char>) -> Option<PropertyKind> {
    if exists|kind: PropertyKind| kind.spec_name() == name {
        Some(choose|kind: PropertyKind| kind.spec_name() == name)
    } else {
        None
    }
}

/// Whether `parsed` is what resolving `name` gives: the kind of that name,
/// or else the error that holds the label of the vocabulary and the name as
/// it was given.
pub open spec fn is_parse_of(name: Seq<char>, parsed: Result<PropertyKind, Error>) -> bool {
    match parsed {
        Ok(kind) => kind_named(name) == Some(kind),
        Err(e) => {
            &&& kind_named(name) is None
            &&& e matches Error::ParseEnumError(label, given)
            &&& label@ == "PropertyKind"@
            &&& given@ == name
        },
    }
}

/// Resolves the name of a property to its kind. The name has to be the
/// canonical name of a kind, letter for letter.
pub fn parse_kind(name: &str) -> (parsed: Result<PropertyKind, Error>)
    ensures
        is_parse_of(name@, parsed),
        parsed is Ok <==> exists|kind: PropertyKind| kind.spec_name() == name@,
        forall|kind: PropertyKind|
            parsed == Ok::<PropertyKind, Error>(kind) <==> #[trigger] kind.spec_name() == name@,
{
    match PropertyKind::from_name(name) {
        Some(kind) => Ok(kind),
        None => Err(Error::ParseEnumError("PropertyKind", name.to_owned())),
    }
}

/// Whether `made` is what pairing `kind` with `value` gives: a property of
/// that kind which carries that value, if the value has the type the kind
/// accepts; otherwise the error that holds both as they came.
pub open spec fn is_pairing_of(
    kind: PropertyKind,
    value: Value,
    made: Result<Property, Error>,
) -> bool {
    match made {
        Ok(property) => {
            &&& value.value_type() == kind.value_type()
            &&& property.kind() == kind
            &&& property.payload() == value
        },
        Err(e) => {
            &&& value.value_type() != kind.value_type()
            &&& e == Error::PropertyConvertError(kind, value)
        },
    }
}

/// Whether `kind` accepts the values of type `t` and no others.
pub open spec fn accepts_only(kind: PropertyKind, t: ValueType) -> bool {
    forall|value: Value| #[trigger] kind.spec_make_property(value) is Ok <==> value.value_type() == t
}

// The names of the kinds.

/// What the spelling of the names shows: no two kinds share a name, and the
/// names are written in the letters `a` to `z` alone.
proof fn lemma_spelling(a: PropertyKind, b: PropertyKind, i: int)
    ensures
        a.spec_name() == b.spec_name() ==> a == b,
        0 <= i < a.spec_name().len() ==> 'a' <= a.spec_name()[i] <= 'z',
{
    reveal_strlit("family");
    reveal_strlit("familylang");
    reveal_strlit("style");
    reveal_strlit("stylelang");
    reveal_strlit("fullname");
    reveal_strlit("fullnamelang");
    reveal_strlit("slant");
    reveal_strlit("weight");
    reveal_strlit("size");
    reveal_strlit("width");
    reveal_strlit("aspect");
    reveal_strlit("pixelsize");
    reveal_strlit("spacing");
    reveal_strlit("foundry");
    reveal_strlit("antialias");
    reveal_strlit("hinting");
    reveal_strlit("hintstyle");
    reveal_strlit("verticallayout");
    reveal_strlit("autohint");
    reveal_strlit("globaladvance");
    reveal_strlit("file");
    reveal_strlit("index");
    reveal_strlit("rasterizer");
    reveal_strlit("outline");
    reveal_strlit("scalable");
    reveal_strlit("color");
    reveal_strlit("scale");
    reveal_strlit("dpi");
    reveal_strlit("rgba");
    reveal_strlit("lcdfilter");
    reveal_strlit("minspace");
    reveal_strlit("charset");
    reveal_strlit("lang");
    reveal_strlit("fontversion");
    reveal_strlit("capability");
    reveal_strlit("fontformat");
    reveal_strlit("embolden");
    reveal_strlit("embeddedbitmap");
    reveal_strlit("decorative");
    reveal_strlit("fontfeatures");
    reveal_strlit("namelang");
    reveal_strlit("prgname");
    reveal_strlit("postscriptname");
    reveal_strlit("fonthashint");
    reveal_strlit("order");
    // Names of different kinds differ in length, or in their third or fifth
    // letter.
    let (s, t) = (a.spec_name(), b.spec_name());
    if s == t {
        assert(s.len() == t.len() && s[2] == t[2] && s[4] == t[4]);
    }
}

/// No two kinds share a name.
pub proof fn lemma_names_are_distinct(a: PropertyKind, b: PropertyKind)
    requires
        a.spec_name() == b.spec_name(),
    ensures
        a == b,
{
    lemma_spelling(a, b, 0);
}

/// A name resolves to a kind exactly when it is the canonical name of that
/// kind.
pub proof fn lemma_kind_named_is_exact(name: Seq<char>, kind: PropertyKind)
    ensures
        kind_named(name) == Some(kind) <==> kind.spec_name() == name,
{
    if kind.spec_name() == name {
        lemma_names_are_distinct(kind, kind_named(name)->Some_0);
    }
}

/// Canonical names are written in the letters `a` to `z` alone.
pub proof fn lemma_names_are_lower_case(kind: PropertyKind, i: int)
    requires
        0 <= i < kind.spec_name().len(),
    ensures
        'a' <= kind.spec_name()[i] <= 'z',
{
    lemma_spelling(kind, kind, i);
}

/// A name that holds anything but the letters `a` to `z`, such as a capital
/// letter or a space, is the name of no kind.
pub proof fn lemma_other_characters_are_rejected(name: Seq<char>, i: int)
    requires
        0 <= i < name.len(),
        !('a' <= name[i] <= 'z'),
    ensures
        kind_named(name) is None,
{
    assert forall|kind: PropertyKind| kind.spec_name() != name by {
        if kind.spec_name() == name {
            lemma_names_are_lower_case(kind, i);
        }
    }
}

/// Resolving a name has one outcome: two results for the same name are both
/// the same kind, or both the error with the same label and the same name.
pub proof fn lemma_parse_kind_has_one_outcome(
    name: Seq<char>,
    first: Result<PropertyKind, Error>,
    second: Result<PropertyKind, Error>,
)
    requires
        is_parse_of(name, first),
        is_parse_of(name, second),
    ensures
        first is Ok <==> second is Ok,
        first is Ok ==> first == second,
        first is Err ==> {
            &&& first matches Err(Error::ParseEnumError(label, given))
            &&& second matches Err(Error::ParseEnumError(other_label, other_given))
            &&& label@ == other_label@
            &&& given@ == other_given@
        },
{
}

// Kinds, values and the properties made of them.

/// A property is known by its kind and its payload: two properties that
/// agree on both are the same property.
pub proof fn lemma_parts_determine_property(a: Property, b: Property)
    requires
        a.kind() == b.kind(),
        a.payload() == b.payload(),
    ensures
        a == b,
{
}

/// What a property carries has the type that its kind accepts.
pub proof fn lemma_payload_has_the_type_of_the_kind(property: Property)
    ensures
        property.payload().value_type() == property.kind().value_type(),
{
}

/// For a value of the type that a kind accepts, there is a property of that
/// kind whose payload is the value.
pub proof fn lemma_from_parts(kind: PropertyKind, value: Value)
    requires
        value.value_type() == kind.value_type(),
    ensures
        Property::from_parts(kind, value).kind() == kind,
        Property::from_parts(kind, value).payload() == value,
{
    let property = match kind {
        PropertyKind::Family => Property::Family(value->Str_0),
        PropertyKind::FamilyLang => Property::FamilyLang(value->Str_0),
        PropertyKind::Style => Property::Style(value->Str_0),
        PropertyKind::StyleLang => Property::StyleLang(value->Str_0),
        PropertyKind::FullName => Property::FullName(value->Str_0),
        PropertyKind::FullNameLang => Property::FullNameLang(value->Str_0),
        PropertyKind::Slant => Property::Slant(value->Int_0),
        PropertyKind::Weight => Property::Weight(value->Int_0),
        PropertyKind::Size => Property::Size(value->Double_0),
        PropertyKind::Width => Property::Width(value->Int_0),
        PropertyKind::Aspect => Property::Aspect(value->Double_0),
        PropertyKind::PixelSize => Property::PixelSize(value->Double_0),
        PropertyKind::Spacing => Property::Spacing(value->Int_0),
        PropertyKind::Foundry => Property::Foundry(value->Str_0),
        PropertyKind::Antialias => Property::Antialias(value->Bool_0),
        PropertyKind::Hinting => Property::Hinting(value->Bool_0),
        PropertyKind::HintStyle => Property::HintStyle(value->Int_0),
        PropertyKind::VerticalLayout => Property::VerticalLayout(value->Bool_0),
        PropertyKind::AutoHint => Property::AutoHint(value->Bool_0),
        PropertyKind::GlobalAdvance => Property::GlobalAdvance(value->Bool_0),
        PropertyKind::File => Property::File(value->Str_0),
        PropertyKind::Index => Property::Index(value->Int_0),
        PropertyKind::Rasterizer => Property::Rasterizer(value->Str_0),
        PropertyKind::Outline => Property::Outline(value->Bool_0),
        PropertyKind::Scalable => Property::Scalable(value->Bool_0),
        PropertyKind::Color => Property::Color(value->Bool_0),
        PropertyKind::Scale => Property::Scale(value->Double_0),
        PropertyKind::Dpi => Property::Dpi(value->Double_0),
        PropertyKind::Rgba => Property::Rgba(value->Int_0),
        PropertyKind::Lcdfilter => Property::Lcdfilter(value->Int_0),
        PropertyKind::Minspace => Property::Minspace(value->Bool_0),
        PropertyKind::Charset => Property::Charset(value->CharSet_0),
        PropertyKind::Lang => Property::Lang(value->Str_0),
        PropertyKind::Fontversion => Property::Fontversion(value->Int_0),
        PropertyKind::Capability => Property::Capability(value->Str_0),
        PropertyKind::Fontformat => Property::Fontformat(value->Str_0),
        PropertyKind::Embolden => Property::Embolden(value->Bool_0),
        PropertyKind::Embeddedbitmap => Property::Embeddedbitmap(value->Bool_0),
        PropertyKind::Decorative => Property::Decorative(value->Bool_0),
        PropertyKind::Fontfeatures => Property::Fontfeatures(value->Str_0),
        PropertyKind::Namelang => Property::Namelang(value->Str_0),
        PropertyKind::Prgname => Property::Prgname(value->Str_0),
        PropertyKind::Postscriptname => Property::Postscriptname(value->Str_0),
        PropertyKind::Fonthashint => Property::Fonthashint(value->Bool_0),
        PropertyKind::Order => Property::Order(value->Int_0),
    };
    assert(property.kind() == kind && property.payload() == value);
}

/// A value of the given type.
spec fn some_value(t: ValueType) -> Value {
    match t {
        ValueType::Str => Value::Str(arbitrary()),
        ValueType::Int => Value::Int(0),
        ValueType::Double => Value::Double(Double { bits: 0 }),
        ValueType::Bool => Value::Bool(false),
        ValueType::CharSet => Value::CharSet(arbitrary()),
    }
}

/// Every kind accepts the values of exactly one type. Pairing it with a
/// value of any other type fails, with the error that holds the kind and the
/// value.
pub proof fn lemma_kind_accepts_one_type(kind: PropertyKind)
    ensures
        accepts_only(kind, kind.value_type()),
        forall|t: ValueType| accepts_only(kind, t) ==> t == kind.value_type(),
        forall|value: Value|
            value.value_type() != kind.value_type() ==> #[trigger] kind.spec_make_property(value)
                == Err::<Property, Error>(Error::PropertyConvertError(kind, value)),
{
    assert forall|t: ValueType| accepts_only(kind, t) implies t == kind.value_type() by {
        let value = some_value(kind.value_type());
        assert(kind.spec_make_property(value) is Ok);
    }
}

/// Pairing a kind with a value of the type it accepts gives a property of
/// that kind, which carries that value.
pub proof fn lemma_make_property_round_trip(kind: PropertyKind, value: Value)
    requires
        value.value_type() == kind.value_type(),
    ensures
        kind.spec_make_property(value) matches Ok(property) && property.kind() == kind
            && property.payload() == value,
{
    lemma_from_parts(kind, value);
}

/// Pairing has one outcome, which the kind and the value fix between them:
/// it is the one that `spec_make_property` names, so two results for the
/// same kind and value are the same.
pub proof fn lemma_make_property_has_one_outcome(
    kind: PropertyKind,
    value: Value,
    first: Result<Property, Error>,
    second: Result<Property, Error>,
)
    requires
        is_pairing_of(kind, value, first),
        is_pairing_of(kind, value, second),
    ensures
        first == kind.spec_make_property(value),
        first == second,
{
    if value.value_type() == kind.value_type() {
        lemma_from_parts(kind, value);
        lemma_parts_determine_property(first->Ok_0, Property::from_parts(kind, value));
        lemma_parts_determine_property(second->Ok_0, Property::from_parts(kind, value));
    }
}

/// Taking a property apart and pairing the parts again gives the property
/// back.
pub proof fn lemma_property_from_its_parts(property: Property)
    ensures
        property.kind().spec_make_property(property.payload()) == Ok::<Property, Error>(property),
{
    lemma_payload_has_the_type_of_the_kind(property);
    lemma_from_parts(property.kind(), property.payload());
    lemma_parts_determine_property(
        property,
        Property::from_parts(property.kind(), property.payload()),
    );
}

} // verus!
