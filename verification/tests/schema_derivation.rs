use schema_derive::capability::{CapabilitySet, TypeTag};
use schema_derive::dispatch::{dispatch, FieldDescriptor, FieldSpec, ValueRecipe};
use schema_derive::error::DeriveError;
use schema_derive::options::{
    FieldOptions, IndexRecordOption, TextFast, TextIndexing, Tokenizer,
};
use schema_derive::schema::derive_schema;

fn field(name: &str, tag: Option<TypeTag>, flags: CapabilitySet) -> FieldSpec {
    FieldSpec {
        identifier_name: name.to_string(),
        declared_type: tag,
        override_name: None,
        flags,
    }
}

fn renamed(name: &str, shown: &str, tag: TypeTag) -> FieldSpec {
    FieldSpec {
        identifier_name: name.to_string(),
        declared_type: Some(tag),
        override_name: Some(shown.to_string()),
        flags: CapabilitySet::none(),
    }
}

fn example_specs() -> Vec<FieldSpec> {
    vec![
        field(
            "text",
            Some(TypeTag::Text),
            CapabilitySet { stored: true, tokenized: true, ..CapabilitySet::none() },
        ),
        field("id", Some(TypeTag::Text), CapabilitySet { fast: true, ..CapabilitySet::none() }),
        field(
            "num",
            Some(TypeTag::U64),
            CapabilitySet { fast: true, norm: true, coerce: true, ..CapabilitySet::none() },
        ),
    ]
}

#[test]
fn example_record_derives_three_descriptors() {
    let schema = derive_schema(&example_specs()).unwrap();
    assert_eq!(schema.len(), 3);
    let expected = vec![
        FieldDescriptor {
            field_id: 0,
            name: "text".to_string(),
            type_tag: TypeTag::Text,
            options: FieldOptions::Text {
                indexing: TextIndexing {
                    fieldnorms: false,
                    tokenizer: Tokenizer::Default,
                    record: IndexRecordOption::WithFreqsAndPositions,
                },
                stored: true,
                fast: TextFast::Off,
                coerce: false,
            },
        },
        FieldDescriptor {
            field_id: 1,
            name: "id".to_string(),
            type_tag: TypeTag::Text,
            options: FieldOptions::Text {
                indexing: TextIndexing {
                    fieldnorms: false,
                    tokenizer: Tokenizer::Raw,
                    record: IndexRecordOption::Basic,
                },
                stored: false,
                fast: TextFast::On { ordering_key: None },
                coerce: false,
            },
        },
        FieldDescriptor {
            field_id: 2,
            name: "num".to_string(),
            type_tag: TypeTag::U64,
            options: FieldOptions::Numeric {
                stored: false,
                fast: true,
                coerce: true,
                indexed: false,
                fieldnorms: true,
            },
        },
    ];
    assert_eq!(schema.fields(), &expected);
}

#[test]
fn identifiers_count_up_from_zero() {
    let tags = [
        TypeTag::Text,
        TypeTag::Json,
        TypeTag::U64,
        TypeTag::I64,
        TypeTag::F64,
        TypeTag::Bool,
        TypeTag::Bytes,
        TypeTag::Facet,
        TypeTag::Date,
        TypeTag::IpAddr,
    ];
    let specs: Vec<FieldSpec> = (0..25usize)
        .map(|i| field(&format!("f{}", i), Some(tags[i % tags.len()]), CapabilitySet::none()))
        .collect();
    let schema = derive_schema(&specs).unwrap();
    assert_eq!(schema.len(), 25);
    for (position, descriptor) in schema.fields().iter().enumerate() {
        assert_eq!(descriptor.field_id as usize, position);
        assert_eq!(descriptor.name, format!("f{}", position));
        assert_eq!(descriptor.type_tag, tags[position % tags.len()]);
        assert_eq!(schema.field(position), Some(descriptor));
    }
    assert_eq!(schema.field(25), None);
}

#[test]
fn empty_record_has_empty_schema() {
    let schema = derive_schema(&Vec::new()).unwrap();
    assert_eq!(schema.len(), 0);
    assert!(schema.fields().is_empty());
    assert_eq!(schema.field(0), None);
}

#[test]
fn deriving_twice_gives_the_same_schema() {
    let first = derive_schema(&example_specs()).unwrap();
    let second = derive_schema(&example_specs()).unwrap();
    assert_eq!(first.fields(), second.fields());
    let failing = vec![field("a", None, CapabilitySet::none())];
    assert_eq!(derive_schema(&failing).unwrap_err(), derive_schema(&failing).unwrap_err());
}

#[test]
fn override_names_the_descriptor() {
    let specs = vec![renamed("text", "x", TypeTag::Text), renamed("other", "x", TypeTag::U64)];
    let schema = derive_schema(&specs).unwrap();
    assert_eq!(schema.field(0).unwrap().name, "x");
    assert_eq!(schema.field(1).unwrap().name, "x");
    assert_eq!(renamed("text", "x", TypeTag::Text).resolved_name(), "x");
}

#[test]
fn identifier_names_the_descriptor_without_override() {
    let specs = vec![field("title", Some(TypeTag::Text), CapabilitySet::none())];
    let schema = derive_schema(&specs).unwrap();
    assert_eq!(schema.field(0).unwrap().name, "title");
    assert_eq!(specs[0].resolved_name(), "title");
}

#[test]
fn name_does_not_change_identifier() {
    let plain = dispatch(&field("a", Some(TypeTag::Bool), CapabilitySet::none()), 7).unwrap();
    let named = dispatch(&renamed("a", "zzz", TypeTag::Bool), 7).unwrap();
    assert_eq!(plain.0.field_id, 7);
    assert_eq!(named.0.field_id, 7);
    assert_eq!(plain.1, named.1);
    assert_eq!(plain.0.options, named.0.options);
}

#[test]
fn dispatch_gives_descriptor_and_recipe() {
    let spec = FieldSpec {
        identifier_name: "when".to_string(),
        declared_type: Some(TypeTag::Date),
        override_name: Some("timestamp".to_string()),
        flags: CapabilitySet { stored: true, fast: true, ..CapabilitySet::none() },
    };
    let (descriptor, recipe) = dispatch(&spec, 3).unwrap();
    assert_eq!(
        descriptor,
        FieldDescriptor {
            field_id: 3,
            name: "timestamp".to_string(),
            type_tag: TypeTag::Date,
            options: FieldOptions::Date {
                stored: true,
                fast: true,
                indexed: false,
                fieldnorms: false
            },
        }
    );
    assert_eq!(recipe, ValueRecipe { field_id: 3, tag: TypeTag::Date });
}

#[test]
fn dispatch_rejects_unsupported_type() {
    let spec = field("blob", None, CapabilitySet::none());
    assert_eq!(dispatch(&spec, 4).unwrap_err(), DeriveError::UnsupportedType { field_id: 4 });
    assert_eq!(
        dispatch(&spec, u32::MAX).unwrap_err(),
        DeriveError::UnsupportedType { field_id: u32::MAX }
    );
}

#[test]
fn unsupported_type_leaves_no_schema() {
    let mut specs = example_specs();
    specs.push(field("blob", None, CapabilitySet::none()));
    specs.push(field("tail", Some(TypeTag::Bool), CapabilitySet::none()));
    assert_eq!(derive_schema(&specs).unwrap_err(), DeriveError::UnsupportedType { field_id: 3 });
}

#[test]
fn first_unsupported_type_is_reported() {
    let specs = vec![
        field("a", Some(TypeTag::Bool), CapabilitySet::none()),
        field("b", None, CapabilitySet::none()),
        field("c", None, CapabilitySet::none()),
    ];
    assert_eq!(derive_schema(&specs).unwrap_err(), DeriveError::UnsupportedType { field_id: 1 });
    let specs = vec![field("a", None, CapabilitySet::none())];
    assert_eq!(derive_schema(&specs).unwrap_err(), DeriveError::UnsupportedType { field_id: 0 });
}

#[test]
fn every_flag_combination_derives() {
    let tags = [
        TypeTag::Text,
        TypeTag::Json,
        TypeTag::U64,
        TypeTag::I64,
        TypeTag::F64,
        TypeTag::Bool,
        TypeTag::Bytes,
        TypeTag::Facet,
        TypeTag::Date,
        TypeTag::IpAddr,
    ];
    for tag in tags {
        for bits in 0u8..64 {
            let flags = CapabilitySet {
                fast: bits & 1 != 0,
                stored: bits & 2 != 0,
                indexed: bits & 4 != 0,
                coerce: bits & 8 != 0,
                norm: bits & 16 != 0,
                tokenized: bits & 32 != 0,
            };
            let (descriptor, recipe) = dispatch(&field("f", Some(tag), flags), 0).unwrap();
            assert_eq!(descriptor.type_tag, tag);
            assert_eq!(descriptor.options, FieldOptions::build(tag, flags));
            assert_eq!(recipe.tag, tag);
        }
    }
}

#[test]
fn facet_descriptor_differs_only_in_stored() {
    let all = CapabilitySet {
        fast: true,
        stored: true,
        indexed: true,
        coerce: true,
        norm: true,
        tokenized: true,
    };
    let stored = CapabilitySet { stored: true, ..CapabilitySet::none() };
    let with = dispatch(&field("tags", Some(TypeTag::Facet), all), 2).unwrap();
    let without = dispatch(&field("tags", Some(TypeTag::Facet), stored), 2).unwrap();
    assert_eq!(with, without);
    let unstored = CapabilitySet { stored: false, ..all };
    let bare = dispatch(&field("tags", Some(TypeTag::Facet), CapabilitySet::none()), 2).unwrap();
    assert_eq!(dispatch(&field("tags", Some(TypeTag::Facet), unstored), 2).unwrap(), bare);
    assert_ne!(with, bare);
}

#[test]
fn error_messages() {
    assert_eq!(DeriveError::UnsupportedType { field_id: 0 }.message(), "unsupported field type");
    assert_eq!(DeriveError::MalformedRecordShape.message(), "only supported named struct");
}
