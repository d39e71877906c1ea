use strata_node::codec::{
    base64_encode, decode, encode, is_finite, validate_vector, versioned_to_host, MAX_DEPTH,
};
use strata_node::error::{BindingError, Category, InputError};
use strata_node::value::{HostValue, Value, VersionedValue};

fn same(a: &HostValue, b: &HostValue) -> bool {
    match (a, b) {
        (HostValue::Null, HostValue::Null) => true,
        (HostValue::Bool(x), HostValue::Bool(y)) => x == y,
        (HostValue::Int(x), HostValue::Int(y)) => x == y,
        (HostValue::UInt(x), HostValue::UInt(y)) => x == y,
        (HostValue::Float(x), HostValue::Float(y)) => x == y,
        (HostValue::Str(x), HostValue::Str(y)) => x == y,
        (HostValue::Array(x), HostValue::Array(y)) => {
            x.len() == y.len() && x.iter().zip(y.iter()).all(|(p, q)| same(p, q))
        }
        (HostValue::Object(x), HostValue::Object(y)) => {
            x.len() == y.len()
                && x.iter().zip(y.iter()).all(|(p, q)| p.0 == q.0 && same(&p.1, &q.1))
        }
        _ => false,
    }
}

fn nested(levels: usize) -> HostValue {
    let mut v = HostValue::Null;
    for _ in 0..levels {
        v = HostValue::Array(vec![v]);
    }
    v
}

fn sample() -> HostValue {
    HostValue::Object(vec![
        ("name".to_string(), HostValue::Str("strata".to_string())),
        ("count".to_string(), HostValue::Int(-42)),
        ("ratio".to_string(), HostValue::Float(0.25f64.to_bits())),
        ("ok".to_string(), HostValue::Bool(true)),
        ("none".to_string(), HostValue::Null),
        (
            "list".to_string(),
            HostValue::Array(vec![HostValue::Int(1), HostValue::Str("aGVsbG8=".to_string())]),
        ),
    ])
}

#[test]
fn round_trip_keeps_host_values() {
    let h = sample();
    let v = encode(&h, 0).unwrap();
    let back = decode(&v);
    assert!(same(&h, &back));
}

#[test]
fn base64_looking_text_stays_text() {
    let h = HostValue::Str("aGVsbG8=".to_string());
    match encode(&h, 0).unwrap() {
        Value::Str(s) => assert_eq!(s, "aGVsbG8="),
        other => panic!("unexpected {:?}", other),
    }
}

#[test]
fn depth_sixty_four_is_accepted() {
    assert_eq!(MAX_DEPTH, 64);
    let h = nested(64);
    let v = encode(&h, 0).unwrap();
    assert!(same(&decode(&v), &h));
}

#[test]
fn depth_sixty_five_is_rejected() {
    let h = nested(65);
    let e = encode(&h, 0).unwrap_err();
    assert!(matches!(e, BindingError::Invalid(InputError::DepthExceeded)));
    assert_eq!(e.category(), Some(Category::Validation));
    assert_eq!(e.message(), "[VALIDATION] JSON nesting depth exceeds maximum of 64");
}

#[test]
fn depth_counts_from_the_given_level() {
    assert!(encode(&HostValue::Null, 64).is_ok());
    assert!(encode(&HostValue::Null, 65).is_err());
    assert!(encode(&nested(1), 64).is_err());
}

#[test]
fn unsigned_within_signed_range_becomes_int() {
    match encode(&HostValue::UInt(5), 0).unwrap() {
        Value::Int(i) => assert_eq!(i, 5),
        other => panic!("unexpected {:?}", other),
    }
}

#[test]
fn wide_unsigned_becomes_nearest_float() {
    let cases: [u64; 6] = [
        u64::MAX,
        1u64 << 63,
        (1u64 << 63) + 1024,
        (1u64 << 63) + 1025,
        (1u64 << 63) + 3072,
        0xFFFF_FFFF_FFFF_F800,
    ];
    for u in cases {
        match encode(&HostValue::UInt(u), 0).unwrap() {
            Value::Float(bits) => assert_eq!(bits, (u as f64).to_bits(), "u = {}", u),
            other => panic!("unexpected {:?}", other),
        }
    }
}

#[test]
fn non_finite_host_float_becomes_null() {
    assert!(matches!(encode(&HostValue::Float(f64::NAN.to_bits()), 0).unwrap(), Value::Null));
    assert!(matches!(
        encode(&HostValue::Float(f64::INFINITY.to_bits()), 0).unwrap(),
        Value::Null
    ));
}

#[test]
fn non_finite_engine_float_decodes_to_null() {
    assert!(matches!(decode(&Value::Float(f64::NEG_INFINITY.to_bits())), HostValue::Null));
    assert!(matches!(decode(&Value::Float(f64::NAN.to_bits())), HostValue::Null));
    match decode(&Value::Float(1.5f64.to_bits())) {
        HostValue::Float(b) => assert_eq!(f64::from_bits(b), 1.5),
        other => panic!("unexpected {:?}", other),
    }
}

#[test]
fn finiteness_of_bit_patterns() {
    assert!(is_finite(1.0f64.to_bits()));
    assert!(is_finite(f64::MAX.to_bits()));
    assert!(is_finite((-0.0f64).to_bits()));
    assert!(!is_finite(f64::NAN.to_bits()));
    assert!(!is_finite(f64::INFINITY.to_bits()));
    assert!(!is_finite(f64::NEG_INFINITY.to_bits()));
}

#[test]
fn base64_known_vectors() {
    assert_eq!(base64_encode(b""), "");
    assert_eq!(base64_encode(b"f"), "Zg==");
    assert_eq!(base64_encode(b"fo"), "Zm8=");
    assert_eq!(base64_encode(b"foo"), "Zm9v");
    assert_eq!(base64_encode(b"foob"), "Zm9vYg==");
    assert_eq!(base64_encode(b"fooba"), "Zm9vYmE=");
    assert_eq!(base64_encode(b"foobar"), "Zm9vYmFy");
    assert_eq!(base64_encode(&[0xff, 0xfe, 0x00]), "//4A");
}

#[test]
fn bytes_decode_to_base64_text() {
    match decode(&Value::Bytes(b"hello".to_vec())) {
        HostValue::Str(s) => assert_eq!(s, "aGVsbG8="),
        other => panic!("unexpected {:?}", other),
    }
}

#[test]
fn engine_object_and_array_decode() {
    let v = Value::Object(vec![
        ("a".to_string(), Value::Array(vec![Value::Int(1), Value::Bool(false)])),
        ("b".to_string(), Value::Str("x".to_string())),
    ]);
    let expected = HostValue::Object(vec![
        ("a".to_string(), HostValue::Array(vec![HostValue::Int(1), HostValue::Bool(false)])),
        ("b".to_string(), HostValue::Str("x".to_string())),
    ]);
    assert!(same(&decode(&v), &expected));
}

#[test]
fn versioned_value_shows_value_version_timestamp() {
    let vv = VersionedValue { value: Value::Int(3), version: 7, timestamp: 1_700_000_000_000_000 };
    let expected = HostValue::Object(vec![
        ("value".to_string(), HostValue::Int(3)),
        ("version".to_string(), HostValue::UInt(7)),
        ("timestamp".to_string(), HostValue::UInt(1_700_000_000_000_000)),
    ]);
    assert!(same(&versioned_to_host(&vv), &expected));
}

#[test]
fn vector_with_nan_names_its_index() {
    let v = [1.0f64.to_bits(), f64::NAN.to_bits(), 3.0f64.to_bits()];
    let e = validate_vector(&v).unwrap_err();
    assert!(matches!(e, BindingError::Invalid(InputError::NonFiniteElement(1))));
    assert_eq!(e.category(), Some(Category::Validation));
    assert_eq!(e.message(), "[VALIDATION] Vector element at index 1 is not a finite number");
}

#[test]
fn finite_vector_passes_and_downcasts() {
    let input = [1.0f64, 2.0f64];
    let bits: Vec<u64> = input.iter().map(|f| f.to_bits()).collect();
    assert!(validate_vector(&bits).is_ok());
    let down: Vec<f32> = bits.iter().map(|b| f64::from_bits(*b) as f32).collect();
    assert_eq!(down, vec![1.0f32, 2.0f32]);
}

#[test]
fn first_of_several_bad_elements_is_named() {
    let v = [
        f64::INFINITY.to_bits(),
        f64::NAN.to_bits(),
    ];
    assert!(matches!(
        validate_vector(&v).unwrap_err(),
        BindingError::Invalid(InputError::NonFiniteElement(0))
    ));
    assert!(validate_vector(&[]).is_ok());
}
