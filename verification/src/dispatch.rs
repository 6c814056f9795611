//! The type dispatch table: from one field specification and its position to
//! the field's descriptor and to the recipe that tags the field's values.
//!
//! Schema and documents are both made from what this table gives, which is
//! what keeps their field identifiers in step.

use crate::capability::{CapabilitySet, TypeTag};
use crate::error::DeriveError;
use crate::options::{options_for, FieldOptions};
use vstd::prelude::*;

verus! {

/// One field of a record type, as its description gives it.
#[derive(Clone, Debug, PartialEq, Eq)]
pub struct FieldSpec {
    /// The field's name in the record.
    pub identifier_name: String,
    /// The declared type, or `None` if it is outside the closed set.
    pub declared_type: Option<TypeTag>,
    /// The name to use in the schema in place of the identifier.
    pub override_name: Option<String>,
    pub flags: CapabilitySet,
}

/// The mathematical content of a [`FieldSpec`].
pub struct FieldSpecView {
    pub identifier_name: Seq<char>,
    pub declared_type: Option<TypeTag>,
    pub override_name: Option<Seq<char>>,
    pub flags: CapabilitySet,
}

/// One entry of a schema.
#[derive(Clone, Debug, PartialEq, Eq)]
pub struct FieldDescriptor {
    /// The position of the field in the record: the only link between the
    /// descriptor and the values of the field in a document.
    pub field_id: u32,
    pub name: String,
    pub type_tag: TypeTag,
    pub options: FieldOptions,
}

/// The mathematical content of a [`FieldDescriptor`].
pub struct FieldDescriptorView {
    pub field_id: u32,
    pub name: Seq<char>,
    pub type_tag: TypeTag,
    pub options: FieldOptions,
}

/// How the value of one field enters a document: under which identifier and
/// with which tag.
#[derive(Clone, Copy, Debug, PartialEq, Eq, Structural)]
pub struct ValueRecipe {
    pub field_id: u32,
    pub tag: TypeTag,
}

impl View for FieldSpec {
    type V = FieldSpecView;

    open spec fn view(&self) -> FieldSpecView {
        FieldSpecView {
            identifier_name: self.identifier_name@,
            declared_type: self.declared_type,
            override_name: match self.override_name {
                Some(name) => Some(name@),
                None => None,
            },
            flags: self.flags,
        }
    }
}

impl DeepView for FieldSpec {
    type V = FieldSpecView;

    open spec fn deep_view(&self) -> FieldSpecView {
        self@
    }
}

impl View for FieldDescriptor {
    type V = FieldDescriptorView;

    open spec fn view(&self) -> FieldDescriptorView {
        FieldDescriptorView {
            field_id: self.field_id,
            name: self.name@,
            type_tag: self.type_tag,
            options: self.options,
        }
    }
}

impl DeepView for FieldDescriptor {
    type V = FieldDescriptorView;

    open spec fn deep_view(&self) -> FieldDescriptorView {
        self@
    }
}

/// The name of the field in the schema: the override if there is one, else the
/// identifier as it stands.
pub open spec fn effective_name(spec: FieldSpecView) -> Seq<char> {
    match spec.override_name {
        Some(name) => name,
        None => spec.identifier_name,
    }
}

/// The descriptor of a field of type `tag` at position `field_id`.
pub open spec fn descriptor_of(spec: FieldSpecView, tag: TypeTag, field_id: u32)
    -> FieldDescriptorView {
    FieldDescriptorView {
        field_id,
        name: effective_name(spec),
        type_tag: tag,
        options: options_for(tag, spec.flags),
    }
}

/// What the table gives for `spec` at position `field_id`: descriptor and value
/// recipe for a declared type of the closed set, a failure for any other.
pub open spec fn dispatched(spec: FieldSpecView, field_id: u32) -> Result<
    (FieldDescriptorView, ValueRecipe),
    DeriveError,
> {
    match spec.declared_type {
        Some(tag) => Ok((descriptor_of(spec, tag, field_id), ValueRecipe { field_id, tag })),
        None => Err(DeriveError::UnsupportedType { field_id }),
    }
}

/// The views of a pair that [`dispatch`] returns.
pub open spec fn dispatch_view(
    outcome: Result<(FieldDescriptor, ValueRecipe), DeriveError>,
) -> Result<(FieldDescriptorView, ValueRecipe), DeriveError> {
    match outcome {
        Ok((descriptor, recipe)) => Ok((descriptor@, recipe)),
        Err(error) => Err(error),
    }
}

impl FieldSpec {
    /// The name of the field in the schema.
    pub fn resolved_name(&self) -> (name: String)
        ensures
            name@ == effective_name(self@),
    {
        match &self.override_name {
            Some(name) => name.clone(),
            None => self.identifier_name.clone(),
        }
    }
}

/// Looks one field up in the table.
///
/// Fails exactly when the declared type is outside the closed set. Every
/// combination of flags succeeds: a flag that means nothing for the type is
/// ignored.
pub fn dispatch(spec: &FieldSpec, field_id: u32) -> (outcome: Result<
    (FieldDescriptor, ValueRecipe),
    DeriveError,
>)
    ensures
        dispatch_view(outcome) == dispatched(spec@, field_id),
{
    match spec.declared_type {
        Some(tag) => {
            let descriptor = FieldDescriptor {
                field_id,
                name: spec.resolved_name(),
                type_tag: tag,
                options: FieldOptions::build(tag, spec.flags),
            };
            Ok((descriptor, ValueRecipe { field_id, tag }))
        },
        None => Err(DeriveError::UnsupportedType { field_id }),
    }
}

} // verus!
