use std::borrow::Cow;

use lnx_document::{
    Bytes, DateTime, DynamicDocument, Facet, FieldType, Float64, Ipv4Address, Ipv6Address,
    KeyValues, Text, UserDisplayType, Value,
};

fn one_of_each() -> Vec<(Value<'static>, FieldType, &'static str)> {
    vec![
        (Value::Null, FieldType::Null, "null"),
        (Value::from("text"), FieldType::String, "string"),
        (Value::from(1u64), FieldType::U64, "u64"),
        (Value::from(1i64), FieldType::I64, "i64"),
        (Value::from(Float64::from_bits(1.5f64.to_bits())), FieldType::F64, "f64"),
        (Value::from(true), FieldType::Bool, "bool"),
        (Value::from(Facet::from("/a")), FieldType::Facet, "facet"),
        (Value::from(DateTime::from_secs(1).unwrap()), FieldType::DateTime, "datetime"),
        (Value::from(Ipv4Address::new(127, 0, 0, 1)), FieldType::IpAddr, "ip"),
        (Value::from(Bytes(vec![1, 2, 3])), FieldType::Bytes, "bytes"),
        (Value::from(vec![1u64, 2]), FieldType::Array, "array"),
        (Value::from(DynamicDocument::default()), FieldType::Object, "object"),
    ]
}

#[test]
fn every_variant_has_its_field_type() {
    for (value, field_type, _) in one_of_each() {
        assert_eq!(value.as_field_type(), field_type);
    }
}

#[test]
fn every_variant_has_its_name() {
    for (value, field_type, name) in one_of_each() {
        assert_eq!(value.display_type_name(), name);
        assert_eq!((&value).display_type_name(), name);
        assert_eq!(field_type.name(), name);
    }
}

#[test]
fn no_two_variants_share_a_field_type_or_a_name() {
    let all = one_of_each();
    assert_eq!(all.len(), 12);
    for (i, a) in all.iter().enumerate() {
        for (j, b) in all.iter().enumerate() {
            assert_eq!(a.1 == b.1, i == j);
            assert_eq!(a.2 == b.2, i == j);
        }
    }
}

#[test]
fn the_field_type_does_not_depend_on_what_is_held() {
    assert_eq!(Value::from(0u64).as_field_type(), Value::from(u64::MAX).as_field_type());
    assert_eq!(Value::from("").as_field_type(), Value::from("long text".to_string()).as_field_type());
    assert_eq!(
        Value::from(Vec::<u64>::new()).as_field_type(),
        Value::from(vec!["a", "b"]).as_field_type()
    );
    assert_eq!(Value::from(true).as_field_type(), Value::from(false).as_field_type());
}

#[test]
fn unsigned_and_signed_integers_stay_apart() {
    assert_eq!(Value::from(1u64).as_field_type(), FieldType::U64);
    assert_eq!(Value::from(1i64).as_field_type(), FieldType::I64);
    assert_ne!(Value::from(1u64).as_field_type(), Value::from(1i64).as_field_type());
    assert_ne!(Value::from(1u64), Value::from(1i64));
}

#[test]
fn text_becomes_a_string_value() {
    assert_eq!(Value::from("a"), Value::Str(Cow::Borrowed("a")));
    assert_eq!(Value::from("a".to_string()), Value::Str(Cow::Borrowed("a")));
    assert_eq!(Value::from(Cow::Borrowed("a")), Value::Str(Cow::Borrowed("a")));
    assert_eq!(Value::from(Text(Cow::Borrowed("a"))), Value::Str(Cow::Borrowed("a")));
    assert!(matches!(Value::from("a"), Value::Str(Cow::Borrowed("a"))));
    assert!(matches!(Value::from("a".to_string()), Value::Str(Cow::Owned(_))));
}

#[test]
fn scalars_become_their_values() {
    assert_eq!(Value::from(7u64), Value::U64(7));
    assert_eq!(Value::from(-7i64), Value::I64(-7));
    assert_eq!(Value::from(false), Value::Bool(false));
    assert_eq!(Value::from(Bytes(vec![0, 255])), Value::Bytes(vec![0, 255]));
    let datetime = DateTime::from_millis(5).unwrap();
    assert_eq!(Value::from(datetime), Value::DateTime(datetime));
    assert_eq!(Value::from(Facet::from("x")), Value::Facet(Facet::from("x")));
}

#[test]
fn a_double_is_held_by_its_bits() {
    let value = Value::from(Float64::from_bits(2.5f64.to_bits()));
    match value {
        Value::F64(number) => assert_eq!(f64::from_bits(number.to_bits()), 2.5),
        _ => panic!("a double became another variant"),
    }
}

#[test]
fn an_ipv4_address_equals_its_mapped_form() {
    let v4 = Value::from(Ipv4Address::new(192, 168, 0, 1));
    let v6 = Value::from(Ipv6Address::from_bits(0x0000_0000_0000_0000_0000_ffff_c0a8_0001));
    assert_eq!(v4, v6);
    assert_eq!(v4.display_type_name(), "ip");
    assert_eq!(v6.display_type_name(), "ip");
    assert_eq!(v4.as_field_type(), v6.as_field_type());
}

#[test]
fn an_ipv6_address_is_stored_unchanged() {
    let addr = Ipv6Address::from_bits(0x2001_0db8_0000_0000_0000_0000_0000_0001);
    assert_eq!(Value::from(addr), Value::IpAddr(addr));
    assert_ne!(
        Value::from(Ipv4Address::new(0, 0, 0, 1)),
        Value::from(Ipv6Address::from_bits(1))
    );
}

#[test]
fn a_sequence_becomes_an_array_in_its_order() {
    assert_eq!(
        Value::from(vec![3u64, 1, 2]),
        Value::Array(vec![Value::U64(3), Value::U64(1), Value::U64(2)])
    );
    assert_eq!(Value::from(Vec::<i64>::new()), Value::Array(vec![]));
    assert_eq!(
        Value::from(vec![vec!["a"], vec![]]),
        Value::Array(vec![Value::Array(vec![Value::from("a")]), Value::Array(vec![])])
    );
}

#[test]
fn pairs_become_an_object_in_their_order() {
    let pairs = vec![(Cow::Borrowed("b"), 1u64), (Cow::Borrowed("a"), 2), (Cow::Borrowed("b"), 3)];
    assert_eq!(
        Value::from(pairs),
        Value::Object(vec![
            (Cow::Borrowed("b"), Value::U64(1)),
            (Cow::Borrowed("a"), Value::U64(2)),
            (Cow::Borrowed("b"), Value::U64(3)),
        ])
    );
}

#[test]
fn a_facet_of_the_index_becomes_a_facet_value() {
    let native = tantivy::schema::Facet::from_text("/a/b").unwrap();
    assert_eq!(Value::from(native), Value::Facet(Facet::from("/a/b")));
}

#[test]
fn pairs_of_any_value_type_become_an_object_of_the_same_length() {
    let nested = vec![
        (Cow::Borrowed("k"), vec![1u64, 2]),
        (Cow::Owned("k".to_string()), vec![]),
        (Cow::Borrowed("j"), vec![3]),
    ];
    match Value::from(nested) {
        Value::Object(fields) => {
            assert_eq!(fields.len(), 3);
            assert_eq!(fields[0].0, "k");
            assert_eq!(fields[1].0, "k");
            assert_eq!(fields[2].0, "j");
            assert_eq!(fields[0].1, Value::from(vec![1u64, 2]));
            assert_eq!(fields[1].1, Value::Array(vec![]));
            assert!(matches!(fields[0].0, Cow::Borrowed(_)));
            assert!(matches!(fields[1].0, Cow::Owned(_)));
        }
        _ => panic!("pairs became another variant"),
    }
    let own: KeyValues = vec![(Cow::Borrowed("a"), Value::Null), (Cow::Borrowed("a"), Value::Null)];
    assert_eq!(Value::from(own.clone()), Value::Object(own));
    assert_eq!(Value::from(Vec::<(Cow<str>, u64)>::new()), Value::Object(vec![]));
}

#[test]
fn a_sequence_of_values_becomes_an_array_of_them() {
    let values = vec![Value::Null, Value::from(1u64), Value::from(vec!["a"])];
    assert_eq!(Value::from(values.clone()), Value::Array(values));
}

#[test]
fn a_document_keeps_duplicate_keys_in_order() {
    let pairs: KeyValues = vec![
        (Cow::Borrowed("tag"), Value::from("a")),
        (Cow::Borrowed("tag"), Value::from("b")),
    ];
    let document = DynamicDocument::from(pairs);
    assert_eq!(document.len(), 2);
    assert_eq!(document[0], (Cow::Borrowed("tag"), Value::from("a")));
    assert_eq!(document[1], (Cow::Borrowed("tag"), Value::from("b")));
    let keys: Vec<&str> = document.iter().map(|(key, _)| key.as_ref()).collect();
    assert_eq!(keys, vec!["tag", "tag"]);
}

#[test]
fn a_document_grows_at_its_end() {
    let mut document = DynamicDocument::default();
    assert!(document.is_empty());
    document.push((Cow::Borrowed("b"), Value::from(1u64)));
    document.push((Cow::Borrowed("a"), Value::Null));
    document.push((Cow::Borrowed("b"), Value::from(2u64)));
    assert_eq!(document.len(), 3);
    assert_eq!(document[2].1, Value::U64(2));
    document[0].1 = Value::Null;
    assert_eq!(document.0[0], (Cow::Borrowed("b"), Value::Null));
}

#[test]
fn a_document_becomes_an_object_with_its_fields() {
    let pairs: KeyValues = vec![
        (Cow::Borrowed("tag"), Value::from("a")),
        (Cow::Borrowed("tag"), Value::from("b")),
    ];
    let value = Value::from(DynamicDocument::from(pairs.clone()));
    assert_eq!(value, Value::Object(pairs));
    assert_eq!(value.as_field_type(), FieldType::Object);
}

#[test]
fn the_fields_of_a_document_are_shown_as_an_object() {
    let pairs: KeyValues = vec![(Cow::Borrowed("a"), Value::Null)];
    assert_eq!(pairs.display_type_name(), "object");
    assert_eq!(DynamicDocument::default().0.display_type_name(), "object");
    assert_eq!(DynamicDocument::from(pairs).display_type_name(), "object");
}

#[test]
fn the_fields_of_a_document_are_handed_out_in_order() {
    let document = DynamicDocument::from(vec![
        (Cow::Borrowed("b"), Value::from(1u64)),
        (Cow::Borrowed("a"), Value::from(2u64)),
    ]);
    let mut fields: lnx_document::KeyValuesIter = document.0.into_iter();
    assert_eq!(fields.next(), Some((Cow::Borrowed("b"), Value::U64(1))));
    assert_eq!(fields.next(), Some((Cow::Borrowed("a"), Value::U64(2))));
    assert_eq!(fields.next(), None);
}

#[test]
fn a_cloned_value_equals_the_value() {
    for (value, _, _) in one_of_each() {
        assert_eq!(value.clone(), value);
    }
    let nested = Value::Object(vec![
        (Cow::Borrowed("list"), Value::from(vec![1u64, 2, 3])),
        (Cow::Owned("inner".to_string()), Value::Object(vec![(Cow::Borrowed("x"), Value::Null)])),
    ]);
    assert_eq!(nested.clone(), nested);
}

#[test]
fn a_cloned_document_has_the_same_fields() {
    let document = DynamicDocument::from(vec![
        (Cow::Borrowed("tag"), Value::from("a")),
        (Cow::Owned("tag".to_string()), Value::from(vec![true, false])),
    ]);
    let copy = document.clone();
    assert_eq!(copy.0, document.0);
}
