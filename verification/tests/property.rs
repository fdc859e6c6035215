use fontconfig_property::{
    parse_kind, CharRange, CharSet, Double, Error, Property, PropertyKind, Value, ValueType,
};

const ALL_KINDS: [PropertyKind; 45] = [
    PropertyKind::Family,
    PropertyKind::FamilyLang,
    PropertyKind::Style,
    PropertyKind::StyleLang,
    PropertyKind::FullName,
    PropertyKind::FullNameLang,
    PropertyKind::Slant,
    PropertyKind::Weight,
    PropertyKind::Size,
    PropertyKind::Width,
    PropertyKind::Aspect,
    PropertyKind::PixelSize,
    PropertyKind::Spacing,
    PropertyKind::Foundry,
    PropertyKind::Antialias,
    PropertyKind::Hinting,
    PropertyKind::HintStyle,
    PropertyKind::VerticalLayout,
    PropertyKind::AutoHint,
    PropertyKind::GlobalAdvance,
    PropertyKind::File,
    PropertyKind::Index,
    PropertyKind::Rasterizer,
    PropertyKind::Outline,
    PropertyKind::Scalable,
    PropertyKind::Color,
    PropertyKind::Scale,
    PropertyKind::Dpi,
    PropertyKind::Rgba,
    PropertyKind::Lcdfilter,
    PropertyKind::Minspace,
    PropertyKind::Charset,
    PropertyKind::Lang,
    PropertyKind::Fontversion,
    PropertyKind::Capability,
    PropertyKind::Fontformat,
    PropertyKind::Embolden,
    PropertyKind::Embeddedbitmap,
    PropertyKind::Decorative,
    PropertyKind::Fontfeatures,
    PropertyKind::Namelang,
    PropertyKind::Prgname,
    PropertyKind::Postscriptname,
    PropertyKind::Fonthashint,
    PropertyKind::Order,
];

const ALL_TYPES: [ValueType; 5] = [
    ValueType::Str,
    ValueType::Int,
    ValueType::Double,
    ValueType::Bool,
    ValueType::CharSet,
];

fn double(x: f64) -> Double {
    Double::from_bits(x.to_bits())
}

fn number(d: Double) -> f64 {
    f64::from_bits(d.to_bits())
}

fn letters() -> CharSet {
    let runs = vec![
        CharRange { first: 0x41, last: 0x5a },
        CharRange { first: 0x61, last: 0x7a },
    ];
    CharSet::from_ranges(runs).expect("the runs are compact")
}

fn sample(t: ValueType) -> Value {
    match t {
        ValueType::Str => Value::Str("Noto Sans".to_string()),
        ValueType::Int => Value::Int(-7),
        ValueType::Double => Value::Double(double(9.5)),
        ValueType::Bool => Value::Bool(true),
        ValueType::CharSet => Value::CharSet(letters()),
    }
}

/// The payload of a property, taken out as an untyped value.
fn payload(property: &Property) -> Value {
    match property.clone() {
        Property::Family(s)
        | Property::FamilyLang(s)
        | Property::Style(s)
        | Property::StyleLang(s)
        | Property::FullName(s)
        | Property::FullNameLang(s)
        | Property::Foundry(s)
        | Property::File(s)
        | Property::Rasterizer(s)
        | Property::Lang(s)
        | Property::Capability(s)
        | Property::Fontformat(s)
        | Property::Fontfeatures(s)
        | Property::Namelang(s)
        | Property::Prgname(s)
        | Property::Postscriptname(s) => Value::Str(s),
        Property::Slant(n)
        | Property::Weight(n)
        | Property::Width(n)
        | Property::Spacing(n)
        | Property::HintStyle(n)
        | Property::Index(n)
        | Property::Rgba(n)
        | Property::Lcdfilter(n)
        | Property::Fontversion(n)
        | Property::Order(n) => Value::Int(n),
        Property::Size(d)
        | Property::Aspect(d)
        | Property::PixelSize(d)
        | Property::Scale(d)
        | Property::Dpi(d) => Value::Double(d),
        Property::Antialias(b)
        | Property::Hinting(b)
        | Property::VerticalLayout(b)
        | Property::AutoHint(b)
        | Property::GlobalAdvance(b)
        | Property::Outline(b)
        | Property::Scalable(b)
        | Property::Color(b)
        | Property::Minspace(b)
        | Property::Embolden(b)
        | Property::Embeddedbitmap(b)
        | Property::Decorative(b)
        | Property::Fonthashint(b) => Value::Bool(b),
        Property::Charset(c) => Value::CharSet(c),
    }
}

#[test]
fn there_are_forty_five_kinds_with_distinct_names() {
    for (i, a) in ALL_KINDS.iter().enumerate() {
        for (j, b) in ALL_KINDS.iter().enumerate() {
            assert_eq!(i == j, a == b);
            assert_eq!(i == j, a.name() == b.name());
        }
    }
}

#[test]
fn each_kind_accepts_exactly_one_type_of_value() {
    for kind in ALL_KINDS {
        let mut accepted = 0;
        for t in ALL_TYPES {
            let value = sample(t);
            assert_eq!(value.value_type(), t);
            match kind.make_property(value.clone()) {
                Ok(property) => {
                    assert_eq!(t, kind.value_type());
                    assert_eq!(property.kind(), kind);
                    assert_eq!(payload(&property), value);
                    accepted += 1;
                }
                Err(Error::PropertyConvertError(k, v)) => {
                    assert_ne!(t, kind.value_type());
                    assert_eq!(k, kind);
                    assert_eq!(v, value);
                }
                Err(other) => panic!("unexpected error: {:?}", other),
            }
        }
        assert_eq!(accepted, 1);
    }
}

#[test]
fn the_kind_of_a_made_property_is_the_kind_that_made_it() {
    for kind in ALL_KINDS {
        let property = kind.make_property(sample(kind.value_type())).unwrap();
        assert_eq!(property.kind(), kind);
    }
}

#[test]
fn the_types_of_some_kinds() {
    assert_eq!(PropertyKind::Family.value_type(), ValueType::Str);
    assert_eq!(PropertyKind::Weight.value_type(), ValueType::Int);
    assert_eq!(PropertyKind::Size.value_type(), ValueType::Double);
    assert_eq!(PropertyKind::Antialias.value_type(), ValueType::Bool);
    assert_eq!(PropertyKind::Charset.value_type(), ValueType::CharSet);
    assert_eq!(PropertyKind::VerticalLayout.value_type(), ValueType::Bool);
    assert_eq!(PropertyKind::Lcdfilter.value_type(), ValueType::Int);
    assert_eq!(PropertyKind::Dpi.value_type(), ValueType::Double);
    assert_eq!(PropertyKind::Postscriptname.value_type(), ValueType::Str);
}

#[test]
fn a_made_property_holds_the_value_it_was_given() {
    assert_eq!(
        PropertyKind::Family.make_property(Value::Str("Noto Serif".to_string())).unwrap(),
        Property::Family("Noto Serif".to_string())
    );
    assert_eq!(
        PropertyKind::Weight.make_property(Value::Int(200)).unwrap(),
        Property::Weight(200)
    );
    assert_eq!(
        PropertyKind::Hinting.make_property(Value::Bool(false)).unwrap(),
        Property::Hinting(false)
    );
    assert_eq!(
        PropertyKind::Dpi.make_property(Value::Double(double(96.0))).unwrap(),
        Property::Dpi(double(96.0))
    );
    assert_eq!(
        PropertyKind::Charset.make_property(Value::CharSet(letters())).unwrap(),
        Property::Charset(letters())
    );
    match PropertyKind::Dpi.make_property(Value::Double(double(96.0))) {
        Ok(Property::Dpi(dpi)) => assert_eq!(number(dpi), 96.0),
        other => panic!("unexpected result: {:?}", other),
    }
    match PropertyKind::Charset.make_property(Value::CharSet(letters())) {
        Ok(Property::Charset(set)) => {
            assert!(set.contains(0x41));
            assert!(!set.contains(0x40));
        }
        other => panic!("unexpected result: {:?}", other),
    }
    // Properties of different kinds differ, whatever they hold.
    assert_ne!(
        PropertyKind::Size.make_property(Value::Double(double(96.0))).unwrap(),
        Property::Dpi(double(96.0))
    );
}

#[test]
fn every_canonical_name_resolves_to_its_kind() {
    for kind in ALL_KINDS {
        match parse_kind(kind.name()) {
            Ok(found) => assert_eq!(found, kind),
            Err(e) => panic!("{} did not resolve: {:?}", kind.name(), e),
        }
        assert_eq!(PropertyKind::from_name(kind.name()), Some(kind));
    }
}

#[test]
fn a_canonical_name_is_the_name_of_the_variant_in_lower_case() {
    for kind in ALL_KINDS {
        assert_eq!(kind.name(), format!("{:?}", kind).to_lowercase());
    }
    assert_eq!(PropertyKind::Family.name(), "family");
    assert_eq!(PropertyKind::FamilyLang.name(), "familylang");
    assert_eq!(PropertyKind::FullNameLang.name(), "fullnamelang");
    assert_eq!(PropertyKind::PixelSize.name(), "pixelsize");
    assert_eq!(PropertyKind::VerticalLayout.name(), "verticallayout");
    assert_eq!(PropertyKind::Embeddedbitmap.name(), "embeddedbitmap");
}

#[test]
fn parse_kind_takes_the_canonical_name() {
    assert!(matches!(parse_kind("family"), Ok(PropertyKind::Family)));
    assert!(matches!(parse_kind("size"), Ok(PropertyKind::Size)));
    assert!(matches!(parse_kind("order"), Ok(PropertyKind::Order)));
}

#[test]
fn parse_kind_is_case_sensitive() {
    assert!(matches!(parse_kind("Family"), Err(Error::ParseEnumError(_, _))));
    assert!(matches!(parse_kind("FAMILY"), Err(Error::ParseEnumError(_, _))));
    assert!(matches!(parse_kind("familyLang"), Err(Error::ParseEnumError(_, _))));
    for kind in ALL_KINDS {
        assert!(parse_kind(&format!("{:?}", kind)).is_err());
        assert!(parse_kind(&kind.name().to_uppercase()).is_err());
    }
}

#[test]
fn parse_kind_reports_the_vocabulary_and_the_name() {
    match parse_kind("bogus") {
        Err(Error::ParseEnumError(label, given)) => {
            assert_eq!(label, "PropertyKind");
            assert_eq!(given, "bogus");
        }
        other => panic!("unexpected result: {:?}", other),
    }
}

#[test]
fn parse_kind_neither_trims_nor_guesses() {
    for name in ["", " ", " family", "family ", "famil", "familyx", "fam", "family\n", "f\u{e4}mily"] {
        match parse_kind(name) {
            Err(Error::ParseEnumError(label, given)) => {
                assert_eq!(label, "PropertyKind");
                assert_eq!(given, name);
            }
            other => panic!("unexpected result for {:?}: {:?}", name, other),
        }
        assert_eq!(PropertyKind::from_name(name), None);
    }
}

#[test]
fn the_default_property_is_the_family_dejavusans() {
    let property = Property::default();
    assert_eq!(property.kind(), PropertyKind::Family);
    match property {
        Property::Family(name) => assert_eq!(name, "DejavuSans"),
        other => panic!("unexpected default: {:?}", other),
    }
    assert_eq!(PropertyKind::default(), PropertyKind::Family);
}

#[test]
fn a_mismatch_keeps_the_kind_and_the_value() {
    match PropertyKind::Weight.make_property(Value::Str("bold".to_string())) {
        Err(Error::PropertyConvertError(kind, value)) => {
            assert_eq!(kind, PropertyKind::Weight);
            assert_eq!(value, Value::Str("bold".to_string()));
        }
        other => panic!("unexpected result: {:?}", other),
    }
}

#[test]
fn size_antialias_and_a_charset_that_is_an_integer() {
    let pairs = vec![
        ("size", Value::Double(double(12.0))),
        ("antialias", Value::Bool(true)),
        ("charset", Value::Int(5)),
    ];
    let mut results = Vec::new();
    for (name, value) in pairs {
        let kind = parse_kind(name).expect("the name is canonical");
        results.push(kind.make_property(value));
    }
    assert_eq!(results.len(), 3);
    let mut results = results.into_iter();
    match results.next() {
        Some(Ok(property)) => {
            assert_eq!(property, Property::Size(double(12.0)));
            assert_eq!(property.kind(), PropertyKind::Size);
        }
        other => panic!("unexpected result: {:?}", other),
    }
    match results.next() {
        Some(Ok(property)) => assert_eq!(property, Property::Antialias(true)),
        other => panic!("unexpected result: {:?}", other),
    }
    match results.next() {
        Some(Err(Error::PropertyConvertError(kind, value))) => {
            assert_eq!(kind, PropertyKind::Charset);
            assert_eq!(value, Value::Int(5));
        }
        other => panic!("unexpected result: {:?}", other),
    }
    assert!(results.next().is_none());
}

#[test]
fn the_same_call_gives_the_same_result() {
    for kind in ALL_KINDS {
        for t in ALL_TYPES {
            let first = kind.make_property(sample(t));
            let second = kind.make_property(sample(t));
            match (first, second) {
                (Ok(a), Ok(b)) => assert_eq!(a, b),
                (Err(Error::PropertyConvertError(k1, v1)), Err(Error::PropertyConvertError(k2, v2))) => {
                    assert_eq!(k1, k2);
                    assert_eq!(v1, v2);
                }
                (a, b) => panic!("results differ: {:?} and {:?}", a, b),
            }
        }
    }
    for name in ["family", "Family", "bogus", "dpi", ""] {
        match (parse_kind(name), parse_kind(name)) {
            (Ok(a), Ok(b)) => assert_eq!(a, b),
            (Err(Error::ParseEnumError(l1, g1)), Err(Error::ParseEnumError(l2, g2))) => {
                assert_eq!(l1, l2);
                assert_eq!(g1, g2);
            }
            (a, b) => panic!("results differ: {:?} and {:?}", a, b),
        }
    }
}

#[test]
fn the_names_of_the_value_types() {
    assert_eq!(ValueType::Str.name(), "string");
    assert_eq!(ValueType::Int.name(), "int");
    assert_eq!(ValueType::Double.name(), "double");
    assert_eq!(ValueType::Bool.name(), "bool");
    assert_eq!(ValueType::CharSet.name(), "charset");
}

#[test]
fn a_double_keeps_its_bits() {
    for x in [0.0f64, -0.0, 1.0, 12.0, -3.25, f64::MAX, f64::MIN_POSITIVE, f64::INFINITY] {
        assert_eq!(double(x).to_bits(), x.to_bits());
        assert_eq!(number(double(x)), x);
    }
    assert!(number(double(f64::NAN)).is_nan());
    assert_eq!(Double::from_bits(0x4028_0000_0000_0000).to_bits(), 12.0f64.to_bits());
}

fn shared_between_threads<T: Send + Sync>() {}

#[test]
fn values_of_every_type_can_be_shared_between_threads() {
    shared_between_threads::<PropertyKind>();
    shared_between_threads::<Property>();
    shared_between_threads::<Value>();
    shared_between_threads::<ValueType>();
    shared_between_threads::<CharSet>();
    shared_between_threads::<Error>();
}

#[test]
fn properties_can_be_grouped_by_kind() {
    let mut index: std::collections::HashMap<PropertyKind, Vec<Property>> =
        std::collections::HashMap::new();
    let given = vec![
        ("family", Value::Str("Noto Sans".to_string())),
        ("weight", Value::Int(80)),
        ("family", Value::Str("DejaVu Sans".to_string())),
        ("hinting", Value::Bool(true)),
    ];
    for (name, value) in given {
        let property = parse_kind(name).unwrap().make_property(value).unwrap();
        index.entry(property.kind()).or_default().push(property);
    }
    assert_eq!(index.len(), 3);
    assert_eq!(
        index[&PropertyKind::Family],
        vec![
            Property::Family("Noto Sans".to_string()),
            Property::Family("DejaVu Sans".to_string())
        ]
    );
    assert_eq!(index[&PropertyKind::Weight], vec![Property::Weight(80)]);
    assert_eq!(index[&PropertyKind::Hinting], vec![Property::Hinting(true)]);
}
