//! The schema assembler: one descriptor per field, in the order of the
//! fields, each under its position as identifier.

use crate::dispatch::{descriptor_of, dispatch, FieldDescriptor, FieldDescriptorView, FieldSpec,
    FieldSpecView};
use crate::error::DeriveError;
use vstd::prelude::*;

verus! {

/// The schema of a record type: its field descriptors in the order of the
/// fields. It is built once and never changed.
#[derive(Debug)]
pub struct Schema {
    fields: Vec<FieldDescriptor>,
}

/// Every declared type is one of the closed set.
pub open spec fn all_supported(specs: Seq<FieldSpecView>) -> bool {
    forall|i: int| 0 <= i < specs.len() ==> (#[trigger] specs[i]).declared_type is Some
}

/// `position` is that of the first field whose declared type is outside the
/// closed set.
pub open spec fn is_first_unsupported(specs: Seq<FieldSpecView>, position: int) -> bool {
    &&& 0 <= position < specs.len()
    &&& specs[position].declared_type is None
    &&& forall|i: int| 0 <= i < position ==> (#[trigger] specs[i]).declared_type is Some
}

/// The position of the first field whose declared type is outside the closed
/// set, where there is one.
pub open spec fn first_unsupported(specs: Seq<FieldSpecView>) -> int {
    choose|position: int| is_first_unsupported(specs, position)
}

/// The descriptors of the fields, each at its position.
pub open spec fn schema_of(specs: Seq<FieldSpecView>) -> Seq<FieldDescriptorView> {
    Seq::new(
        specs.len(),
        |i: int| descriptor_of(specs[i], specs[i].declared_type->0, i as u32),
    )
}

/// What the derivation of a schema gives: the descriptors of all fields, or
/// the failure of the first field with an unsupported type.
pub open spec fn derived_schema(specs: Seq<FieldSpecView>) -> Result<
    Seq<FieldDescriptorView>,
    DeriveError,
> {
    if all_supported(specs) {
        Ok(schema_of(specs))
    } else {
        Err(DeriveError::UnsupportedType { field_id: first_unsupported(specs) as u32 })
    }
}

/// The view of what [`derive_schema`] returns.
pub open spec fn schema_outcome(outcome: Result<Schema, DeriveError>) -> Result<
    Seq<FieldDescriptorView>,
    DeriveError,
> {
    match outcome {
        Ok(schema) => Ok(schema@),
        Err(error) => Err(error),
    }
}

/// There is at most one first unsupported field, so [`first_unsupported`]
/// names it.
pub proof fn lemma_first_unsupported_is(specs: Seq<FieldSpecView>, position: int)
    requires
        is_first_unsupported(specs, position),
    ensures
        !all_supported(specs),
        first_unsupported(specs) == position,
{
}

/// A list of fields with an unsupported type has a first such field.
pub proof fn lemma_first_unsupported_exists(specs: Seq<FieldSpecView>)
    requires
        !all_supported(specs),
    ensures
        is_first_unsupported(specs, first_unsupported(specs)),
{
    let witness = choose|i: int| 0 <= i < specs.len() && !((#[trigger] specs[i]).declared_type is Some);
    lemma_unsupported_before(specs, witness);
}

/// A field with an unsupported type has a first such field at or before it.
proof fn lemma_unsupported_before(specs: Seq<FieldSpecView>, position: int)
    requires
        0 <= position < specs.len(),
        specs[position].declared_type is None,
    ensures
        exists|first: int| is_first_unsupported(specs, first),
    decreases position,
{
    if forall|i: int| 0 <= i < position ==> (#[trigger] specs[i]).declared_type is Some {
        assert(is_first_unsupported(specs, position));
    } else {
        let earlier = choose|i: int|
            0 <= i < position && !((#[trigger] specs[i]).declared_type is Some);
        lemma_unsupported_before(specs, earlier);
    }
}

impl View for Schema {
    type V = Seq<FieldDescriptorView>;

    closed spec fn view(&self) -> Seq<FieldDescriptorView> {
        self.fields.deep_view()
    }
}

impl Schema {
    #[verifier::type_invariant]
    spec fn identifiers_are_positions(&self) -> bool {
        &&& self.fields@.len() <= u32::MAX + 1
        &&& forall|i: int| 0 <= i < self.fields@.len() ==> (#[trigger] self.fields@[i]).field_id == i
    }

    /// The number of fields.
    pub fn len(&self) -> (count: usize)
        ensures
            count == self@.len(),
    {
        self.fields.len()
    }

    /// The descriptor at `position`, whose identifier is `position`.
    pub fn field(&self, position: usize) -> (descriptor: Option<&FieldDescriptor>)
        ensures
            match descriptor {
                Some(found) => position < self@.len() && found@ == self@[position as int]
                    && found.field_id == position,
                None => position >= self@.len(),
            },
    {
        proof {
            use_type_invariant(self);
        }
        if position < self.fields.len() {
            Some(&self.fields[position])
        } else {
            None
        }
    }

    /// All descriptors, in the order of the fields.
    pub fn fields(&self) -> (fields: &Vec<FieldDescriptor>)
        ensures
            fields.deep_view() == self@,
            forall|i: int| 0 <= i < fields@.len() ==> (#[trigger] fields@[i]).field_id == i,
    {
        proof {
            use_type_invariant(self);
        }
        &self.fields
    }
}

/// Derives the schema of a record type from the specifications of its fields.
///
/// The schema has one descriptor per field, in the order of the fields, and
/// the identifier of each is its position. If any declared type is outside the
/// closed set there is no schema at all: the failure names the first such
/// field. Identifiers are 32 bits wide, which bounds the number of fields.
pub fn derive_schema(specs: &Vec<FieldSpec>) -> (outcome: Result<Schema, DeriveError>)
    requires
        specs@.len() <= u32::MAX + 1,
    ensures
        schema_outcome(outcome) == derived_schema(specs.deep_view()),
{
    let mut fields: Vec<FieldDescriptor> = Vec::new();
    let mut i: usize = 0;
    while i < specs.len()
        invariant
            i <= specs@.len() <= u32::MAX + 1,
            fields@.len() == i,
            forall|j: int| 0 <= j < i ==> (#[trigger] specs.deep_view()[j]).declared_type is Some,
            forall|j: int|
                0 <= j < i ==> (#[trigger] fields@[j])@ == schema_of(specs.deep_view())[j],
        decreases specs@.len() - i,
    {
        match dispatch(&specs[i], i as u32) {
            Ok((descriptor, _)) => {
                fields.push(descriptor);
            },
            Err(error) => {
                proof {
                    lemma_first_unsupported_is(specs.deep_view(), i as int);
                }
                return Err(error);
            },
        }
        i += 1;
    }
    let schema = Schema { fields };
    assert(schema@ =~= schema_of(specs.deep_view()));
    Ok(schema)
}

} // verus!
