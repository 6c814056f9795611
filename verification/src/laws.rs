//! What holds of every derivation, stated over the functions that the
//! contracts of this crate speak of, and proved.

use crate::capability::{applies, Capability, CapabilitySet, TypeTag};
use crate::dispatch::{dispatched, effective_name, FieldDescriptorView, FieldSpecView, ValueRecipe};
use crate::document::{conforms, derived_encoder, encoded, encoder_of, FieldValueView,
    TaggedValueView};
use crate::error::DeriveError;
use crate::options::{options_for, text_indexing, FieldOptions, IndexRecordOption, Tokenizer};
use crate::record::{derived, RecordDescriptionView};
use crate::schema::{all_supported, derived_schema, is_first_unsupported,
    lemma_first_unsupported_exists, schema_of, schema_outcome, Schema};
use vstd::prelude::*;

verus! {

/// The identifiers of a schema, in the order of its descriptors.
pub open spec fn schema_identifiers(schema: Seq<FieldDescriptorView>) -> Seq<u32> {
    Seq::new(schema.len(), |i: int| schema[i].field_id)
}

/// The identifiers of a document, in the order of its entries.
pub open spec fn document_identifiers(document: Seq<(u32, TaggedValueView)>) -> Seq<u32> {
    Seq::new(document.len(), |i: int| document[i].0)
}

/// A schema has exactly one descriptor for each field, in the order of the
/// fields: descriptor `i` has the identifier `i` and describes field `i`, with
/// its resolved name, its declared type and the options of its flags.
pub proof fn schema_describes_fields_in_order(specs: Seq<FieldSpecView>)
    requires
        all_supported(specs),
        specs.len() <= u32::MAX + 1,
    ensures
        derived_schema(specs) is Ok,
        derived_schema(specs)->Ok_0.len() == specs.len(),
        forall|i: int|
            #![trigger derived_schema(specs)->Ok_0[i]]
            0 <= i < specs.len() ==> {
                let descriptor = derived_schema(specs)->Ok_0[i];
                &&& descriptor.field_id == i
                &&& descriptor.name == effective_name(specs[i])
                &&& Some(descriptor.type_tag) == specs[i].declared_type
                &&& descriptor.options == options_for(descriptor.type_tag, specs[i].flags)
            },
{
}

/// The identifiers of a schema are its positions, strictly increasing from
/// zero without a gap.
pub proof fn schema_identifiers_are_positions(specs: Seq<FieldSpecView>)
    requires
        all_supported(specs),
        specs.len() <= u32::MAX + 1,
    ensures
        schema_identifiers(schema_of(specs)) == Seq::new(specs.len(), |i: int| i as u32),
        forall|i: int, j: int|
            0 <= i < j < specs.len() ==> schema_identifiers(schema_of(specs))[i]
                < schema_identifiers(schema_of(specs))[j],
{
}

/// The document of every instance of a record type carries the identifiers of
/// the type's schema, position by position.
pub proof fn document_identifiers_match_schema(
    specs: Seq<FieldSpecView>,
    record: Seq<FieldValueView>,
)
    requires
        all_supported(specs),
        conforms(encoder_of(specs), record),
    ensures
        derived_schema(specs) is Ok,
        encoded(specs, record) is Ok,
        document_identifiers(encoded(specs, record)->Ok_0) == schema_identifiers(
            derived_schema(specs)->Ok_0,
        ),
        forall|i: int|
            0 <= i < specs.len() ==> (#[trigger] encoded(specs, record)->Ok_0[i]).1.tag()
                == derived_schema(specs)->Ok_0[i].type_tag,
{
}

/// Deriving twice from the same specifications gives the same outcome: two
/// schemas of the same structure, or twice the same failure.
pub proof fn derivation_is_idempotent(
    specs: Seq<FieldSpecView>,
    first: Result<Schema, DeriveError>,
    second: Result<Schema, DeriveError>,
)
    requires
        schema_outcome(first) == derived_schema(specs),
        schema_outcome(second) == derived_schema(specs),
    ensures
        schema_outcome(first) == schema_outcome(second),
        first is Ok ==> second is Ok && first->Ok_0@ == second->Ok_0@,
        first is Err ==> first == second,
{
}

/// A field with an override is named by the override whatever its identifier
/// is, and a field without one by its identifier.
pub proof fn name_is_override_or_identifier(spec: FieldSpecView, field_id: u32)
    requires
        spec.declared_type is Some,
    ensures
        dispatched(spec, field_id) is Ok,
        spec.override_name is Some ==> dispatched(spec, field_id)->Ok_0.0.name
            == spec.override_name->0,
        spec.override_name is None ==> dispatched(spec, field_id)->Ok_0.0.name
            == spec.identifier_name,
        dispatched(spec, field_id)->Ok_0.0.field_id == field_id,
{
}

/// The name of a field has no part in its identifier, its type or its
/// options.
pub proof fn name_changes_nothing_else(first: FieldSpecView, second: FieldSpecView, field_id: u32)
    requires
        first.declared_type is Some,
        first.declared_type == second.declared_type,
        first.flags == second.flags,
    ensures
        dispatched(first, field_id)->Ok_0.0.field_id == dispatched(second, field_id)->Ok_0.0.field_id,
        dispatched(first, field_id)->Ok_0.0.type_tag == dispatched(second, field_id)->Ok_0.0.type_tag,
        dispatched(first, field_id)->Ok_0.0.options == dispatched(second, field_id)->Ok_0.0.options,
        dispatched(first, field_id)->Ok_0.1 == dispatched(second, field_id)->Ok_0.1,
{
}

/// The tokenizer policy of `Text` and `Json`, which is the same for both: a
/// field that is not tokenized gets the tokenizer "raw" with the basic
/// record, a tokenized one the tokenizer "default" with frequencies and
/// positions.
pub proof fn tokenizer_follows_tokenized(tag: TypeTag, flags: CapabilitySet)
    requires
        tag == TypeTag::Text || tag == TypeTag::Json,
    ensures
        options_for(tag, flags).spec_indexing() == Some(text_indexing(flags)),
        options_for(TypeTag::Text, flags).spec_indexing() == options_for(
            TypeTag::Json,
            flags,
        ).spec_indexing(),
        !flags.tokenized ==> {
            let indexing = options_for(tag, flags).spec_indexing()->0;
            &&& indexing.tokenizer == Tokenizer::Raw
            &&& indexing.tokenizer.spec_name() == "raw"@
            &&& indexing.record == IndexRecordOption::Basic
        },
        flags.tokenized ==> {
            let indexing = options_for(tag, flags).spec_indexing()->0;
            &&& indexing.tokenizer == Tokenizer::Default
            &&& indexing.tokenizer.spec_name() == "default"@
            &&& indexing.record == IndexRecordOption::WithFreqsAndPositions
        },
        options_for(tag, flags).spec_indexing()->0.fieldnorms == flags.norm,
{
}

/// A facet descriptor depends on `stored` alone: whatever else is set, the
/// descriptor is the one that the same field has with everything else unset.
pub proof fn facet_ignores_all_but_stored(spec: FieldSpecView, other: FieldSpecView, field_id: u32)
    requires
        spec.declared_type == Some(TypeTag::Facet),
        other.declared_type == Some(TypeTag::Facet),
        spec.identifier_name == other.identifier_name,
        spec.override_name == other.override_name,
        spec.flags.stored == other.flags.stored,
    ensures
        dispatched(spec, field_id) == dispatched(other, field_id),
        dispatched(spec, field_id)->Ok_0.0.options == (FieldOptions::Facet {
            stored: spec.flags.stored,
        }),
{
}

/// A flag that means nothing for a type is ignored: the options are those of
/// the flags that apply.
pub proof fn inapplicable_flags_are_ignored(tag: TypeTag, flags: CapabilitySet)
    ensures
        options_for(tag, flags) == options_for(tag, flags.restricted_to(tag)),
{
}

/// The flags that apply to a type are applied each on its own: two sets of
/// flags give the same options exactly when they agree on every flag that
/// applies.
pub proof fn options_tell_applicable_flags_apart(
    tag: TypeTag,
    first: CapabilitySet,
    second: CapabilitySet,
)
    ensures
        options_for(tag, first) == options_for(tag, second) <==> first.restricted_to(tag)
            == second.restricted_to(tag),
        first.restricted_to(tag) == second.restricted_to(tag) <==> (forall|capability: Capability|
            applies(tag, capability) ==> first.has(capability) == second.has(capability)),
{
}

/// With a declared type outside the closed set nothing is derived at all:
/// no schema, no encoder, and so no document of any instance. The failure
/// names the first field whose type is unsupported.
pub proof fn unsupported_type_fails_everything(specs: Seq<FieldSpecView>)
    requires
        !all_supported(specs),
    ensures
        derived_schema(specs) is Err,
        derived_encoder(specs) == Err::<Seq<ValueRecipe>, DeriveError>(derived_schema(specs)->Err_0),
        forall|record: Seq<FieldValueView>| #[trigger] encoded(specs, record) is Err,
        derived_schema(specs)->Err_0 is UnsupportedType,
        specs.len() <= u32::MAX + 1 ==> is_first_unsupported(
            specs,
            derived_schema(specs)->Err_0->field_id as int,
        ),
{
    lemma_first_unsupported_exists(specs);
}

/// A derivation fails only for an unsupported type: every combination of
/// flags on fields of supported types succeeds.
pub proof fn supported_types_always_derive(specs: Seq<FieldSpecView>)
    requires
        all_supported(specs),
    ensures
        derived_schema(specs) is Ok,
        derived_encoder(specs) is Ok,
{
}

/// Schema and encoder of one record type are in step: they have one entry per
/// field, and at every position the same identifier, which is the position,
/// and the same type.
pub proof fn schema_and_encoder_in_step(record: RecordDescriptionView)
    requires
        derived(record) is Ok,
    ensures
        derived(record)->Ok_0.0.len() == record.fields.len(),
        derived(record)->Ok_0.1.len() == record.fields.len(),
        forall|i: int|
            #![trigger derived(record)->Ok_0.0[i]]
            #![trigger derived(record)->Ok_0.1[i]]
            0 <= i < record.fields.len() ==> {
                let descriptor = derived(record)->Ok_0.0[i];
                let recipe = derived(record)->Ok_0.1[i];
                &&& recipe.field_id == descriptor.field_id
                &&& recipe.tag == descriptor.type_tag
                &&& record.fields.len() <= u32::MAX + 1 ==> descriptor.field_id == i
            },
{
}

} // verus!
