use fontconfig_property::error::io_error_message;
use fontconfig_property::text::str_eq;
use fontconfig_property::{CharSet, Double, Error, PropertyKind, Value};

#[test]
fn the_messages_of_the_library_s_own_errors() {
    assert_eq!(Error::NoFontconfig.message(), "Can't find fontconfig element");
    assert_eq!(
        Error::InvalidFormat("no such element".to_string()).message(),
        "Config format is invalid: no such element"
    );
    assert_eq!(Error::InvalidFormat(String::new()).message(), "Config format is invalid: ");
    assert_eq!(
        Error::ParseEnumError("PropertyKind", "bogus".to_string()).message(),
        "Unknown variant for PropertyKind: bogus"
    );
}

#[test]
fn the_message_of_a_mismatch_names_the_kind_and_both_types() {
    let cases = vec![
        (PropertyKind::Weight, Value::Str("bold".to_string()), "Property weight expects int, not string"),
        (PropertyKind::Charset, Value::Int(5), "Property charset expects charset, not int"),
        (PropertyKind::Family, Value::Bool(true), "Property family expects string, not bool"),
        (
            PropertyKind::Antialias,
            Value::Double(Double::from_bits(1.5f64.to_bits())),
            "Property antialias expects bool, not double",
        ),
        (PropertyKind::Size, Value::CharSet(CharSet::new()), "Property size expects double, not charset"),
    ];
    for (kind, value, text) in cases {
        let error = kind.make_property(value).unwrap_err();
        assert_eq!(error.message(), text);
    }
}

#[test]
fn a_wrapped_error_reads_as_the_error_it_wraps() {
    let e = "12x".parse::<i32>().unwrap_err();
    assert_eq!(Error::from(e.clone()).message(), e.to_string());
    assert_eq!(Error::from(e).message(), "invalid digit found in string");

    let e = "".parse::<i32>().unwrap_err();
    assert_eq!(Error::from(e).message(), "cannot parse integer from empty string");

    let e = "one".parse::<f64>().unwrap_err();
    assert_eq!(Error::from(e.clone()).message(), e.to_string());
    assert_eq!(Error::from(e).message(), "invalid float literal");

    let e = "yes".parse::<bool>().unwrap_err();
    assert_eq!(Error::from(e.clone()).message(), e.to_string());
    assert_eq!(Error::from(e).message(), "provided string was not `true` or `false`");

    let e = roxmltree::Document::parse("").unwrap_err();
    assert_eq!(Error::from(e.clone()).message(), e.to_string());

    let e = roxmltree::Document::parse("<fontconfig>").unwrap_err();
    assert_eq!(Error::from(e.clone()).message(), e.to_string());
}

#[test]
fn the_message_of_an_io_error_has_its_prefix() {
    let e = std::io::Error::new(std::io::ErrorKind::NotFound, "fonts.conf is missing");
    assert_eq!(Error::from(e).message(), "IO error: fonts.conf is missing");
    assert_eq!(io_error_message("disk on fire"), "IO error: disk on fire");
    assert_eq!(io_error_message(""), "IO error: ");
}

#[test]
fn each_outside_error_goes_into_its_own_variant() {
    assert!(matches!(
        Error::from("x".parse::<i32>().unwrap_err()),
        Error::ParseIntError(_)
    ));
    assert!(matches!(
        Error::from("x".parse::<f64>().unwrap_err()),
        Error::ParseFloatError(_)
    ));
    assert!(matches!(
        Error::from("x".parse::<bool>().unwrap_err()),
        Error::ParseBoolError(_)
    ));
    assert!(matches!(
        Error::from(std::io::Error::new(std::io::ErrorKind::Other, "x")),
        Error::IoError(_)
    ));
    let xml = roxmltree::Document::parse("<a></b>").unwrap_err();
    match Error::from(xml.clone()) {
        Error::Xml(kept) => assert_eq!(kept, xml),
        other => panic!("unexpected variant: {:?}", other),
    }
    let int = "99999999999".parse::<i32>().unwrap_err();
    match Error::from(int.clone()) {
        Error::ParseIntError(kept) => assert_eq!(kept, int),
        other => panic!("unexpected variant: {:?}", other),
    }
}

#[test]
fn strings_are_equal_when_their_characters_are() {
    assert!(str_eq("", ""));
    assert!(str_eq("family", "family"));
    assert!(str_eq("gr\u{fc}n", "gr\u{fc}n"));
    assert!(!str_eq("family", "Family"));
    assert!(!str_eq("family", "familylang"));
    assert!(!str_eq("familylang", "family"));
    assert!(!str_eq("", "a"));
    assert!(!str_eq("a", ""));
    assert!(!str_eq("abc", "abd"));
    assert!(!str_eq("gr\u{fc}n", "grun"));
    assert!(!str_eq("\u{e9}", "e\u{301}"));
}
