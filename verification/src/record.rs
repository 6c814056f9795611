//! The description of a record type as its author wrote it, and the way from
//! there to the specifications of its fields.

use crate::capability::CapabilitySet;
use crate::dispatch::{FieldDescriptorView, FieldSpec, FieldSpecView, ValueRecipe};
use crate::document::{derive_encoder, encoder_of, Encoder};
use crate::error::DeriveError;
use crate::recognize::{recognize, recognized};
use crate::schema::{derive_schema, derived_schema, Schema};
use vstd::prelude::*;

verus! {

/// What kind of type a description is of.
#[derive(Clone, Copy, Debug, PartialEq, Eq, Structural)]
pub enum RecordKind {
    Struct,
    Enum,
}

/// One field as it is written in the record: its identifier, if it has one,
/// the text of its type, and what its annotation asks for.
#[derive(Clone, Debug, PartialEq, Eq)]
pub struct FieldDescription {
    pub ident: Option<String>,
    pub type_text: String,
    pub name: Option<String>,
    pub flags: CapabilitySet,
}

/// The mathematical content of a [`FieldDescription`].
pub struct FieldDescriptionView {
    pub ident: Option<Seq<char>>,
    pub type_text: Seq<char>,
    pub name: Option<Seq<char>>,
    pub flags: CapabilitySet,
}

/// A record type as it is written: its kind and its fields in order.
#[derive(Clone, Debug, PartialEq, Eq)]
pub struct RecordDescription {
    pub kind: RecordKind,
    pub fields: Vec<FieldDescription>,
}

/// The mathematical content of a [`RecordDescription`].
pub struct RecordDescriptionView {
    pub kind: RecordKind,
    pub fields: Seq<FieldDescriptionView>,
}

/// Everything that is derived for one record type.
#[derive(Debug)]
pub struct Derivation {
    pub schema: Schema,
    pub encoder: Encoder,
}

impl View for FieldDescription {
    type V = FieldDescriptionView;

    open spec fn view(&self) -> FieldDescriptionView {
        FieldDescriptionView {
            ident: match self.ident {
                Some(ident) => Some(ident@),
                None => None,
            },
            type_text: self.type_text@,
            name: match self.name {
                Some(name) => Some(name@),
                None => None,
            },
            flags: self.flags,
        }
    }
}

impl DeepView for FieldDescription {
    type V = FieldDescriptionView;

    open spec fn deep_view(&self) -> FieldDescriptionView {
        self@
    }
}

impl View for RecordDescription {
    type V = RecordDescriptionView;

    open spec fn view(&self) -> RecordDescriptionView {
        RecordDescriptionView { kind: self.kind, fields: self.fields.deep_view() }
    }
}

impl View for Derivation {
    type V = (Seq<FieldDescriptorView>, Seq<ValueRecipe>);

    open spec fn view(&self) -> (Seq<FieldDescriptorView>, Seq<ValueRecipe>) {
        (self.schema@, self.encoder@)
    }
}

impl RecordDescriptionView {
    /// The field at `position` has the identifier of a field before it.
    pub open spec fn repeats_identifier(self, position: int) -> bool {
        exists|earlier: int|
            0 <= earlier < position && (#[trigger] self.fields[earlier]).ident
                == self.fields[position].ident
    }

    /// The description is that of one record with named fields: a struct each
    /// of whose fields has an identifier, and no two of them the same.
    pub open spec fn is_named_record(self) -> bool {
        &&& self.kind == RecordKind::Struct
        &&& forall|i: int| 0 <= i < self.fields.len() ==> (#[trigger] self.fields[i]).ident is Some
        &&& forall|i: int| 0 <= i < self.fields.len() ==> !#[trigger] self.repeats_identifier(i)
    }

    /// The specifications of the fields, in order.
    pub open spec fn specs(self) -> Seq<FieldSpecView> {
        Seq::new(self.fields.len(), |i: int| self.fields[i].spec())
    }
}

impl FieldDescriptionView {
    /// The specification of a named field: its identifier, the tag that its
    /// type text is recognized as, the name and the flags of its annotation.
    pub open spec fn spec(self) -> FieldSpecView {
        FieldSpecView {
            identifier_name: self.ident->0,
            declared_type: recognized(self.type_text),
            override_name: self.name,
            flags: self.flags,
        }
    }
}

/// No two fields have the same identifier.
pub open spec fn unique_identifiers(specs: Seq<FieldSpecView>) -> bool {
    forall|i: int, j: int|
        0 <= i < j < specs.len() ==> (#[trigger] specs[i]).identifier_name
            != (#[trigger] specs[j]).identifier_name
}

/// What [`field_specs`] gives for a description.
pub open spec fn specified(record: RecordDescriptionView) -> Result<
    Seq<FieldSpecView>,
    DeriveError,
> {
    if record.is_named_record() {
        Ok(record.specs())
    } else {
        Err(DeriveError::MalformedRecordShape)
    }
}

/// What [`derive_tantivy_schema`] gives for a description: schema and encoder
/// of a record with named fields whose types are all recognized. A shape that
/// is no such record is the first thing to fail, an unsupported type the
/// second.
pub open spec fn derived(record: RecordDescriptionView) -> Result<
    (Seq<FieldDescriptorView>, Seq<ValueRecipe>),
    DeriveError,
> {
    match specified(record) {
        Ok(specs) => match derived_schema(specs) {
            Ok(schema) => Ok((schema, encoder_of(specs))),
            Err(error) => Err(error),
        },
        Err(error) => Err(error),
    }
}

/// The view of what [`field_specs`] returns.
pub open spec fn specs_outcome(outcome: Result<Vec<FieldSpec>, DeriveError>) -> Result<
    Seq<FieldSpecView>,
    DeriveError,
> {
    match outcome {
        Ok(specs) => Ok(specs.deep_view()),
        Err(error) => Err(error),
    }
}

/// The view of what [`derive_tantivy_schema`] returns.
pub open spec fn derivation_outcome(outcome: Result<Derivation, DeriveError>) -> Result<
    (Seq<FieldDescriptorView>, Seq<ValueRecipe>),
    DeriveError,
> {
    match outcome {
        Ok(derivation) => Ok(derivation@),
        Err(error) => Err(error),
    }
}

impl FieldDescription {
    /// The specification of the field, or `None` if the field has no
    /// identifier.
    pub fn to_spec(&self) -> (spec: Option<FieldSpec>)
        ensures
            match spec {
                Some(spec) => self@.ident is Some && spec@ == self@.spec(),
                None => self@.ident is None,
            },
    {
        match &self.ident {
            Some(ident) => Some(
                FieldSpec {
                    identifier_name: ident.clone(),
                    declared_type: recognize(self.type_text.as_str()),
                    override_name: self.name.clone(),
                    flags: self.flags,
                },
            ),
            None => None,
        }
    }
}

impl RecordDescription {
    /// Whether the field at `position` has the identifier of a field before
    /// it.
    pub fn repeats_identifier(&self, position: usize) -> (repeated: bool)
        requires
            position < self.fields@.len(),
        ensures
            repeated == self@.repeats_identifier(position as int),
    {
        let mut earlier: usize = 0;
        while earlier < position
            invariant
                earlier <= position < self.fields@.len(),
                forall|j: int|
                    0 <= j < earlier ==> (#[trigger] self@.fields[j]).ident
                        != self@.fields[position as int].ident,
            decreases position - earlier,
        {
            let same = match (&self.fields[earlier].ident, &self.fields[position].ident) {
                (Some(first), Some(second)) => *first == *second,
                (None, None) => true,
                _ => false,
            };
            assert(same == (self@.fields[earlier as int].ident
                == self@.fields[position as int].ident));
            if same {
                return true;
            }
            earlier += 1;
        }
        false
    }
}

/// Turns the description of a record type into the specifications of its
/// fields, in order.
///
/// Fails, with [`DeriveError::MalformedRecordShape`], exactly when the
/// description is not that of a struct with named fields, no two of them
/// named alike. A type that is not recognized is no failure here: the
/// field's specification says so.
pub fn field_specs(record: &RecordDescription) -> (outcome: Result<Vec<FieldSpec>, DeriveError>)
    ensures
        specs_outcome(outcome) == specified(record@),
        outcome is Ok ==> unique_identifiers(outcome->Ok_0.deep_view()),
{
    if record.kind != RecordKind::Struct {
        return Err(DeriveError::MalformedRecordShape);
    }
    let mut specs: Vec<FieldSpec> = Vec::new();
    let mut i: usize = 0;
    while i < record.fields.len()
        invariant
            i <= record.fields@.len(),
            record.kind == RecordKind::Struct,
            specs@.len() == i,
            forall|j: int| 0 <= j < i ==> (#[trigger] record@.fields[j]).ident is Some,
            forall|j: int| 0 <= j < i ==> !#[trigger] record@.repeats_identifier(j),
            forall|j: int| 0 <= j < i ==> (#[trigger] specs@[j])@ == record@.specs()[j],
        decreases record.fields@.len() - i,
    {
        if record.repeats_identifier(i) {
            return Err(DeriveError::MalformedRecordShape);
        }
        match record.fields[i].to_spec() {
            Some(spec) => {
                specs.push(spec);
            },
            None => {
                return Err(DeriveError::MalformedRecordShape);
            },
        }
        i += 1;
    }
    assert(specs.deep_view() =~= record@.specs());
    proof {
        lemma_named_record_has_unique_identifiers(record@);
    }
    Ok(specs)
}

/// The fields of a record with named fields keep their identifiers apart in
/// their specifications.
pub proof fn lemma_named_record_has_unique_identifiers(record: RecordDescriptionView)
    requires
        record.is_named_record(),
    ensures
        unique_identifiers(record.specs()),
{
    assert forall|i: int, j: int| 0 <= i < j < record.specs().len() implies (
    #[trigger] record.specs()[i]).identifier_name != (#[trigger] record.specs()[j]).identifier_name by {
        assert(!record.repeats_identifier(j));
    }
}

/// Derives schema and encoder of a record type from its description.
///
/// The two are made from the same specifications, field by field, so entry
/// `i` of every document that the encoder makes carries the identifier of
/// descriptor `i` of the schema. Nothing is derived for a description that
/// is no record with named fields, nor for one with a field whose type is
/// not recognized.
pub fn derive_tantivy_schema(record: &RecordDescription) -> (outcome: Result<
    Derivation,
    DeriveError,
>)
    requires
        record.fields@.len() <= u32::MAX + 1,
    ensures
        derivation_outcome(outcome) == derived(record@),
{
    let specs = match field_specs(record) {
        Ok(specs) => specs,
        Err(error) => {
            return Err(error);
        },
    };
    let schema = match derive_schema(&specs) {
        Ok(schema) => schema,
        Err(error) => {
            return Err(error);
        },
    };
    match derive_encoder(&specs) {
        Ok(encoder) => Ok(Derivation { schema, encoder }),
        Err(error) => Err(error),
    }
}

} // verus!
