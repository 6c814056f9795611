use schema_derive::capability::{CapabilitySet, TypeTag};
use schema_derive::dispatch::{FieldSpec, ValueRecipe};
use schema_derive::document::{derive_encoder, encode, FieldValue, TaggedValue};
use schema_derive::error::DeriveError;
use schema_derive::schema::derive_schema;

fn field(name: &str, tag: Option<TypeTag>, flags: CapabilitySet) -> FieldSpec {
    FieldSpec {
        identifier_name: name.to_string(),
        declared_type: tag,
        override_name: None,
        flags,
    }
}

fn three_fields() -> Vec<FieldSpec> {
    vec![
        field(
            "text",
            Some(TypeTag::Text),
            CapabilitySet { stored: true, tokenized: true, ..CapabilitySet::none() },
        ),
        field("id", Some(TypeTag::Text), CapabilitySet { fast: true, ..CapabilitySet::none() }),
        field(
            "num",
            Some(TypeTag::U64),
            CapabilitySet { fast: true, norm: true, coerce: true, ..CapabilitySet::none() },
        ),
    ]
}

fn one_of_each() -> (Vec<FieldSpec>, Vec<FieldValue>, Vec<TaggedValue>) {
    let specs = vec![
        field("a", Some(TypeTag::Text), CapabilitySet::none()),
        field("b", Some(TypeTag::Json), CapabilitySet::none()),
        field("c", Some(TypeTag::U64), CapabilitySet::none()),
        field("d", Some(TypeTag::I64), CapabilitySet::none()),
        field("e", Some(TypeTag::F64), CapabilitySet::none()),
        field("f", Some(TypeTag::Bool), CapabilitySet::none()),
        field("g", Some(TypeTag::Bytes), CapabilitySet::none()),
        field("h", Some(TypeTag::Facet), CapabilitySet::none()),
        field("i", Some(TypeTag::Date), CapabilitySet::none()),
        field("j", Some(TypeTag::IpAddr), CapabilitySet::none()),
    ];
    let record = vec![
        FieldValue::Text("hello".to_string()),
        FieldValue::Json("{\"k\":1}".to_string()),
        FieldValue::U64(42),
        FieldValue::I64(-7),
        FieldValue::F64(1.5f64.to_bits()),
        FieldValue::Bool(true),
        FieldValue::Bytes(vec![1, 2, 3]),
        FieldValue::Facet("/a/b".to_string()),
        FieldValue::Date(1_700_000_000),
        FieldValue::IpAddr(1),
    ];
    let tagged = vec![
        TaggedValue::Str("hello".to_string()),
        TaggedValue::JsonObject("{\"k\":1}".to_string()),
        TaggedValue::U64(42),
        TaggedValue::I64(-7),
        TaggedValue::F64(1.5f64.to_bits()),
        TaggedValue::Bool(true),
        TaggedValue::Bytes(vec![1, 2, 3]),
        TaggedValue::Facet("/a/b".to_string()),
        TaggedValue::Date(1_700_000_000),
        TaggedValue::IpAddr(1),
    ];
    (specs, record, tagged)
}

#[test]
fn example_record_encodes_to_three_entries() {
    let specs = three_fields();
    let schema = derive_schema(&specs).unwrap();
    let identifiers: Vec<u32> = schema.fields().iter().map(|d| d.field_id).collect();
    assert_eq!(identifiers, vec![0, 1, 2]);
    let record = vec![
        FieldValue::Text("hello".to_string()),
        FieldValue::Text("k1".to_string()),
        FieldValue::U64(42),
    ];
    let document = encode(&specs, record).unwrap();
    assert_eq!(
        document.into_entries(),
        vec![
            (0, TaggedValue::Str("hello".to_string())),
            (1, TaggedValue::Str("k1".to_string())),
            (2, TaggedValue::U64(42)),
        ]
    );
}

#[test]
fn document_identifiers_are_those_of_the_schema() {
    let (specs, record, _) = one_of_each();
    let schema = derive_schema(&specs).unwrap();
    let document = encode(&specs, record).unwrap();
    assert_eq!(document.len(), schema.len());
    for position in 0..schema.len() {
        let descriptor = schema.field(position).unwrap();
        let entry = document.entry(position).unwrap();
        assert_eq!(entry.0, descriptor.field_id);
        assert_eq!(entry.1.tag(), descriptor.type_tag);
    }
    assert!(document.entry(schema.len()).is_none());
}

#[test]
fn every_type_keeps_its_value_under_its_tag() {
    let (specs, record, tagged) = one_of_each();
    let entries = encode(&specs, record).unwrap().into_entries();
    assert_eq!(entries.len(), 10);
    for (position, (entry, expected)) in entries.iter().zip(tagged.iter()).enumerate() {
        assert_eq!(entry.0 as usize, position);
        assert_eq!(&entry.1, expected);
    }
}

#[test]
fn kinds_and_tags_name_the_field_type() {
    let (specs, record, tagged) = one_of_each();
    for ((spec, value), tagged) in specs.iter().zip(record.iter()).zip(tagged.iter()) {
        assert_eq!(Some(value.kind()), spec.declared_type);
        assert_eq!(Some(tagged.tag()), spec.declared_type);
        assert_eq!(&value.clone().into_tagged(), tagged);
    }
}

#[test]
fn float_keeps_its_bits() {
    let specs = vec![field("x", Some(TypeTag::F64), CapabilitySet::none())];
    let entries = encode(&specs, vec![FieldValue::F64((-0.25f64).to_bits())]).unwrap().into_entries();
    match entries[0].1 {
        TaggedValue::F64(bits) => assert_eq!(f64::from_bits(bits), -0.25),
        _ => panic!("a float field is tagged as a float"),
    }
}

#[test]
fn recipe_pairs_identifier_and_tagged_value() {
    let recipe = ValueRecipe { field_id: 9, tag: TypeTag::Facet };
    assert_eq!(
        recipe.apply(FieldValue::Facet("/x".to_string())),
        (9, TaggedValue::Facet("/x".to_string()))
    );
}

#[test]
fn encoder_has_one_recipe_per_field() {
    let (specs, _, _) = one_of_each();
    let encoder = derive_encoder(&specs).unwrap();
    assert_eq!(encoder.len(), 10);
    for (position, spec) in specs.iter().enumerate() {
        assert_eq!(
            encoder.recipe(position),
            Some(ValueRecipe { field_id: position as u32, tag: spec.declared_type.unwrap() })
        );
    }
    assert_eq!(encoder.recipe(10), None);
}

#[test]
fn encoder_accepts_instances_of_the_record_type_only() {
    let encoder = derive_encoder(&three_fields()).unwrap();
    let fitting = vec![
        FieldValue::Text("a".to_string()),
        FieldValue::Text("b".to_string()),
        FieldValue::U64(1),
    ];
    assert!(encoder.accepts(&fitting));
    let too_short = vec![FieldValue::Text("a".to_string()), FieldValue::Text("b".to_string())];
    assert!(!encoder.accepts(&too_short));
    let too_long = vec![
        FieldValue::Text("a".to_string()),
        FieldValue::Text("b".to_string()),
        FieldValue::U64(1),
        FieldValue::U64(2),
    ];
    assert!(!encoder.accepts(&too_long));
    let wrong_type = vec![
        FieldValue::Text("a".to_string()),
        FieldValue::Facet("b".to_string()),
        FieldValue::U64(1),
    ];
    assert!(!encoder.accepts(&wrong_type));
    let wrong_last = vec![
        FieldValue::Text("a".to_string()),
        FieldValue::Text("b".to_string()),
        FieldValue::I64(1),
    ];
    assert!(!encoder.accepts(&wrong_last));
}

#[test]
fn one_encoder_serves_every_instance() {
    let encoder = derive_encoder(&three_fields()).unwrap();
    for n in 0..5u64 {
        let record = vec![
            FieldValue::Text(format!("t{}", n)),
            FieldValue::Text(format!("k{}", n)),
            FieldValue::U64(n),
        ];
        assert!(encoder.accepts(&record));
        assert_eq!(
            encoder.encode(record).into_entries(),
            vec![
                (0, TaggedValue::Str(format!("t{}", n))),
                (1, TaggedValue::Str(format!("k{}", n))),
                (2, TaggedValue::U64(n)),
            ]
        );
    }
}

#[test]
fn empty_record_encodes_to_empty_document() {
    let document = encode(&Vec::new(), Vec::new()).unwrap();
    assert_eq!(document.len(), 0);
    assert!(document.into_entries().is_empty());
}

#[test]
fn unsupported_type_leaves_no_document() {
    let specs = vec![
        field("a", Some(TypeTag::Bool), CapabilitySet::none()),
        field("b", None, CapabilitySet::none()),
    ];
    assert_eq!(
        derive_encoder(&specs).unwrap_err(),
        DeriveError::UnsupportedType { field_id: 1 }
    );
    let record = vec![FieldValue::Bool(true), FieldValue::Bool(false)];
    assert_eq!(encode(&specs, record).unwrap_err(), DeriveError::UnsupportedType { field_id: 1 });
    assert_eq!(derive_schema(&specs).unwrap_err(), derive_encoder(&specs).unwrap_err());
}

#[test]
fn try_encode_hands_back_what_does_not_fit() {
    let encoder = derive_encoder(&three_fields()).unwrap();
    let wrong = vec![FieldValue::U64(1), FieldValue::Text("b".to_string()), FieldValue::U64(1)];
    assert_eq!(encoder.try_encode(wrong.clone()).unwrap_err(), wrong);
    let short = vec![FieldValue::Text("a".to_string())];
    assert_eq!(encoder.try_encode(short.clone()).unwrap_err(), short);
    let fitting = vec![
        FieldValue::Text("a".to_string()),
        FieldValue::Text("b".to_string()),
        FieldValue::U64(1),
    ];
    assert_eq!(
        encoder.try_encode(fitting).unwrap().into_entries(),
        vec![
            (0, TaggedValue::Str("a".to_string())),
            (1, TaggedValue::Str("b".to_string())),
            (2, TaggedValue::U64(1)),
        ]
    );
}
