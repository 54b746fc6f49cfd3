use magnus::binding::Binding;
use magnus::error::Error;
use magnus::r_file::RFile;
use magnus::r_rational::RRational;
use magnus::r_string::RString;
use magnus::value::{Encoding, Symbol, Value, ValueKind, CLASS_RATIONAL, CLASS_STRING};

#[test]
fn string_round_trips_through_untyped_value() {
    let s = RString::new(b"hello".to_vec());
    let value = s.into_value();
    let back = RString::from_value(value).expect("a string value");
    assert_eq!(back.bytes, b"hello");
    assert_eq!(back.encoding, Encoding::Utf8);
}

#[test]
fn string_from_slice_carries_no_text_claim() {
    let s = RString::from_slice(vec![0xff, 0xfe]);
    assert_eq!(s.encoding, Encoding::Binary);
    assert!(!s.is_utf8_compatible_encoding());
    assert_eq!(
        s.to_string(),
        Err(Error::EncodingError { encoding: Encoding::Binary })
    );
}

#[test]
fn string_decodes_multibyte_utf8() {
    let s = RString::new("h\u{e9}llo".as_bytes().to_vec());
    assert!(s.is_utf8_compatible_encoding());
    assert_eq!(s.len(), 6);
    assert_eq!(s.to_string().expect("valid utf-8"), "h\u{e9}llo");
    assert_eq!(s.as_slice(), "h\u{e9}llo".as_bytes());
}

#[test]
fn utf8_labelled_garbage_is_an_invalid_utf8_error() {
    // The label is only a claim; these bytes do not decode.
    let s = RString::new(vec![0xc3, 0x28]);
    assert!(s.is_utf8_compatible_encoding());
    assert_eq!(s.to_string(), Err(Error::InvalidUtf8));
}

#[test]
fn string_conversion_rejects_other_classes() {
    let not_a_string = Value { kind: ValueKind::Integer { value: 5 } };
    assert!(RString::from_value(not_a_string.clone()).is_none());
    match RString::try_convert(not_a_string) {
        Err(Error::TypeError { expected_class, actual_class }) => {
            assert_eq!(expected_class, CLASS_STRING);
            assert_eq!(actual_class, magnus::value::CLASS_INTEGER);
        }
        other => panic!("expected a type error, got {:?}", other),
    }
}

#[test]
fn file_round_trips_and_rejects_other_classes() {
    let f = RFile { descriptor: 7 };
    let value = f.into_value();
    assert_eq!(value.class_of(), magnus::value::CLASS_FILE);
    assert_eq!(RFile::from_value(value.clone()), Some(RFile { descriptor: 7 }));
    assert_eq!(RFile::try_convert(value), Ok(RFile { descriptor: 7 }));
    let rational = RRational { numerator: 1, denominator: 2 }.into_value();
    assert_eq!(RFile::from_value(rational.clone()), None);
    match RFile::try_convert(rational) {
        Err(Error::TypeError { actual_class, .. }) => assert_eq!(actual_class, CLASS_RATIONAL),
        other => panic!("expected a type error, got {:?}", other),
    }
}

#[test]
fn rational_round_trips_and_rejects_other_classes() {
    let r = RRational { numerator: 22, denominator: 7 };
    let value = r.into_value();
    assert_eq!(RRational::from_value(value.clone()), Some(r));
    assert_eq!(RRational::try_convert(value), Ok(r));
    let file = RFile { descriptor: 0 }.into_value();
    assert!(RRational::from_value(file.clone()).is_none());
    assert!(RRational::try_convert(file).is_err());
}

#[test]
fn binding_local_variables_get_and_set() {
    let mut binding = Binding::new();
    let a = Symbol { id: 1 };
    let b = Symbol { id: 2 };
    binding.local_variable_set(a, Value { kind: ValueKind::Integer { value: 1 } });
    assert_eq!(
        binding.local_variable_get(a),
        Ok(&Value { kind: ValueKind::Integer { value: 1 } })
    );
    assert_eq!(
        binding.local_variable_get(b),
        Err(Error::NameError { name: b })
    );
}

#[test]
fn binding_later_assignment_shadows_earlier() {
    let mut binding = Binding::new();
    let name = Symbol { id: 9 };
    binding.local_variable_set(name, Value { kind: ValueKind::Integer { value: 1 } });
    binding.local_variable_set(name, Value { kind: ValueKind::Integer { value: 2 } });
    assert_eq!(
        binding.local_variable_get(name),
        Ok(&Value { kind: ValueKind::Integer { value: 2 } })
    );
}

#[test]
fn class_of_reports_the_builtin_classes() {
    let cases = [
        (ValueKind::Str { bytes: Vec::new(), encoding: Encoding::Utf8 }, CLASS_STRING),
        (ValueKind::File { descriptor: 0 }, magnus::value::CLASS_FILE),
        (ValueKind::Rational { numerator: 0, denominator: 1 }, CLASS_RATIONAL),
        (ValueKind::Context { binding_id: 0 }, magnus::value::CLASS_BINDING),
        (ValueKind::Integer { value: 0 }, magnus::value::CLASS_INTEGER),
        (ValueKind::Other { class: 77 }, 77),
    ];
    for (kind, expected) in cases {
        assert_eq!(Value { kind }.class_of(), expected);
    }
}

#[test]
fn lossy_decoding_keeps_valid_text_and_replaces_the_rest() {
    let valid = RString::new("caf\u{e9}".as_bytes().to_vec());
    assert_eq!(valid.to_string_lossy(), "caf\u{e9}");
    assert_eq!(valid.to_string_lossy(), valid.to_string().expect("valid utf-8"));
    let invalid = RString::from_slice(vec![b'a', 0xc3, 0x28, b'b']);
    assert_eq!(invalid.to_string_lossy(), "a\u{fffd}(b");
}

#[test]
fn cat_appends_bytes_and_keeps_the_label() {
    let mut s = RString::new(b"foo".to_vec());
    s.cat(b"bar");
    assert_eq!(s.bytes, b"foobar");
    assert_eq!(s.encoding, Encoding::Utf8);
    assert_eq!(s.to_string().expect("valid utf-8"), "foobar");
}
