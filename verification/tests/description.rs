use row_mapping::Error;

#[test]
fn unknown_field_has_its_fixed_text() {
    assert_eq!(Error::UnknownField.description(), "Unknown field");
}

#[test]
fn invalid_type_has_its_fixed_text() {
    assert_eq!(Error::InvalidType.description(), "Invalid type");
}

#[test]
fn unsupported_type_has_its_fixed_text() {
    assert_eq!(Error::UnsupportedType.description(), "Type unsupported");
}

#[test]
fn message_describes_itself() {
    let e = Error::Message(String::from("column 3 is null"));
    assert_eq!(e.description(), "column 3 is null");
}

#[test]
fn fixed_texts_differ_from_each_other() {
    let a = Error::UnknownField.to_string();
    let b = Error::InvalidType.to_string();
    let c = Error::UnsupportedType.to_string();
    assert_ne!(a, b);
    assert_ne!(a, c);
    assert_ne!(b, c);
}

#[test]
fn shown_text_is_the_description_for_every_variant() {
    let all = vec![
        Error::Message(String::from("boom")),
        Error::Message(String::new()),
        Error::UnknownField,
        Error::InvalidType,
        Error::UnsupportedType,
    ];
    for e in all.iter() {
        assert_eq!(e.to_string(), e.description());
    }
}

#[test]
fn shown_text_of_each_variant_is_exact() {
    assert_eq!(Error::Message(String::from("boom")).to_string(), "boom");
    assert_eq!(Error::UnknownField.to_string(), "Unknown field");
    assert_eq!(Error::InvalidType.to_string(), "Invalid type");
    assert_eq!(Error::UnsupportedType.to_string(), "Type unsupported");
}

#[test]
fn shown_text_is_owned_and_outlives_the_error() {
    let shown = {
        let e = Error::custom("short lived");
        e.to_string()
    };
    assert_eq!(shown, "short lived");
}

#[test]
fn description_is_stable_across_calls() {
    let e = Error::custom("again");
    assert_eq!(e.description(), e.description());
    assert_eq!(Error::InvalidType.description(), Error::InvalidType.description());
}

#[test]
fn message_with_the_text_of_a_fixed_phrase_is_still_a_message() {
    let e = Error::custom("Unknown field");
    assert_eq!(e.description(), Error::UnknownField.description());
    assert_ne!(e, Error::UnknownField);
    assert!(matches!(e, Error::Message(_)));
}
