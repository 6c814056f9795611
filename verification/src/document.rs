//! The document encoder: from the values of one record instance to the
//! engine's tagged values, each under the identifier of its field.

use crate::capability::TypeTag;
use crate::dispatch::{dispatch, FieldSpec, FieldSpecView, ValueRecipe};
use crate::error::DeriveError;
use crate::schema::{all_supported, first_unsupported, lemma_first_unsupported_is};
use vstd::prelude::*;

verus! {

/// The value of one field of a record instance, before it is tagged. Each
/// variant holds what a field of the type of that name holds: a JSON object
/// as its text, a facet as its path, a date as a timestamp, a float as its
/// bits, an address as a 128-bit number.
#[derive(Clone, Debug, PartialEq, Eq)]
pub enum FieldValue {
    Text(String),
    Json(String),
    U64(u64),
    I64(i64),
    F64(u64),
    Bool(bool),
    Bytes(Vec<u8>),
    Facet(String),
    Date(i64),
    IpAddr(u128),
}

/// The mathematical content of a [`FieldValue`].
pub enum FieldValueView {
    Text(Seq<char>),
    Json(Seq<char>),
    U64(u64),
    I64(i64),
    F64(u64),
    Bool(bool),
    Bytes(Seq<u8>),
    Facet(Seq<char>),
    Date(i64),
    IpAddr(u128),
}

/// A value as the engine takes it: one variant for each field type.
#[derive(Clone, Debug, PartialEq, Eq)]
pub enum TaggedValue {
    Str(String),
    JsonObject(String),
    U64(u64),
    I64(i64),
    F64(u64),
    Bool(bool),
    Bytes(Vec<u8>),
    Facet(String),
    Date(i64),
    IpAddr(u128),
}

/// The mathematical content of a [`TaggedValue`].
pub enum TaggedValueView {
    Str(Seq<char>),
    JsonObject(Seq<char>),
    U64(u64),
    I64(i64),
    F64(u64),
    Bool(bool),
    Bytes(Seq<u8>),
    Facet(Seq<char>),
    Date(i64),
    IpAddr(u128),
}

impl View for FieldValue {
    type V = FieldValueView;

    open spec fn view(&self) -> FieldValueView {
        match self {
            FieldValue::Text(text) => FieldValueView::Text(text@),
            FieldValue::Json(text) => FieldValueView::Json(text@),
            FieldValue::U64(number) => FieldValueView::U64(*number),
            FieldValue::I64(number) => FieldValueView::I64(*number),
            FieldValue::F64(bits) => FieldValueView::F64(*bits),
            FieldValue::Bool(truth) => FieldValueView::Bool(*truth),
            FieldValue::Bytes(bytes) => FieldValueView::Bytes(bytes@),
            FieldValue::Facet(path) => FieldValueView::Facet(path@),
            FieldValue::Date(timestamp) => FieldValueView::Date(*timestamp),
            FieldValue::IpAddr(address) => FieldValueView::IpAddr(*address),
        }
    }
}

impl DeepView for FieldValue {
    type V = FieldValueView;

    open spec fn deep_view(&self) -> FieldValueView {
        self@
    }
}

impl View for TaggedValue {
    type V = TaggedValueView;

    open spec fn view(&self) -> TaggedValueView {
        match self {
            TaggedValue::Str(text) => TaggedValueView::Str(text@),
            TaggedValue::JsonObject(text) => TaggedValueView::JsonObject(text@),
            TaggedValue::U64(number) => TaggedValueView::U64(*number),
            TaggedValue::I64(number) => TaggedValueView::I64(*number),
            TaggedValue::F64(bits) => TaggedValueView::F64(*bits),
            TaggedValue::Bool(truth) => TaggedValueView::Bool(*truth),
            TaggedValue::Bytes(bytes) => TaggedValueView::Bytes(bytes@),
            TaggedValue::Facet(path) => TaggedValueView::Facet(path@),
            TaggedValue::Date(timestamp) => TaggedValueView::Date(*timestamp),
            TaggedValue::IpAddr(address) => TaggedValueView::IpAddr(*address),
        }
    }
}

impl DeepView for TaggedValue {
    type V = TaggedValueView;

    open spec fn deep_view(&self) -> TaggedValueView {
        self@
    }
}

impl FieldValueView {
    /// The field type whose values look like this one.
    pub open spec fn kind(self) -> TypeTag {
        match self {
            FieldValueView::Text(_) => TypeTag::Text,
            FieldValueView::Json(_) => TypeTag::Json,
            FieldValueView::U64(_) => TypeTag::U64,
            FieldValueView::I64(_) => TypeTag::I64,
            FieldValueView::F64(_) => TypeTag::F64,
            FieldValueView::Bool(_) => TypeTag::Bool,
            FieldValueView::Bytes(_) => TypeTag::Bytes,
            FieldValueView::Facet(_) => TypeTag::Facet,
            FieldValueView::Date(_) => TypeTag::Date,
            FieldValueView::IpAddr(_) => TypeTag::IpAddr,
        }
    }

    /// The same value under the tag of its kind.
    pub open spec fn tagged(self) -> TaggedValueView {
        match self {
            FieldValueView::Text(text) => TaggedValueView::Str(text),
            FieldValueView::Json(text) => TaggedValueView::JsonObject(text),
            FieldValueView::U64(number) => TaggedValueView::U64(number),
            FieldValueView::I64(number) => TaggedValueView::I64(number),
            FieldValueView::F64(bits) => TaggedValueView::F64(bits),
            FieldValueView::Bool(truth) => TaggedValueView::Bool(truth),
            FieldValueView::Bytes(bytes) => TaggedValueView::Bytes(bytes),
            FieldValueView::Facet(path) => TaggedValueView::Facet(path),
            FieldValueView::Date(timestamp) => TaggedValueView::Date(timestamp),
            FieldValueView::IpAddr(address) => TaggedValueView::IpAddr(address),
        }
    }
}

impl TaggedValueView {
    /// The field type that the tag stands for.
    pub open spec fn tag(self) -> TypeTag {
        match self {
            TaggedValueView::Str(_) => TypeTag::Text,
            TaggedValueView::JsonObject(_) => TypeTag::Json,
            TaggedValueView::U64(_) => TypeTag::U64,
            TaggedValueView::I64(_) => TypeTag::I64,
            TaggedValueView::F64(_) => TypeTag::F64,
            TaggedValueView::Bool(_) => TypeTag::Bool,
            TaggedValueView::Bytes(_) => TypeTag::Bytes,
            TaggedValueView::Facet(_) => TypeTag::Facet,
            TaggedValueView::Date(_) => TypeTag::Date,
            TaggedValueView::IpAddr(_) => TypeTag::IpAddr,
        }
    }
}

impl ValueRecipe {
    /// Whether a value is of the recipe's field type.
    pub open spec fn fits(self, value: FieldValueView) -> bool {
        value.kind() == self.tag
    }

    /// What the recipe makes of a value of its field type: the value under
    /// the recipe's tag, paired with the field's identifier.
    pub open spec fn entry_for(self, value: FieldValueView) -> (u32, TaggedValueView) {
        (self.field_id, value.tagged())
    }
}

impl FieldValue {
    /// The field type whose values look like this one.
    pub fn kind(&self) -> (tag: TypeTag)
        ensures
            tag == self@.kind(),
    {
        match self {
            FieldValue::Text(_) => TypeTag::Text,
            FieldValue::Json(_) => TypeTag::Json,
            FieldValue::U64(_) => TypeTag::U64,
            FieldValue::I64(_) => TypeTag::I64,
            FieldValue::F64(_) => TypeTag::F64,
            FieldValue::Bool(_) => TypeTag::Bool,
            FieldValue::Bytes(_) => TypeTag::Bytes,
            FieldValue::Facet(_) => TypeTag::Facet,
            FieldValue::Date(_) => TypeTag::Date,
            FieldValue::IpAddr(_) => TypeTag::IpAddr,
        }
    }
}

impl TaggedValue {
    /// The field type that the tag stands for.
    pub fn tag(&self) -> (tag: TypeTag)
        ensures
            tag == self@.tag(),
    {
        match self {
            TaggedValue::Str(_) => TypeTag::Text,
            TaggedValue::JsonObject(_) => TypeTag::Json,
            TaggedValue::U64(_) => TypeTag::U64,
            TaggedValue::I64(_) => TypeTag::I64,
            TaggedValue::F64(_) => TypeTag::F64,
            TaggedValue::Bool(_) => TypeTag::Bool,
            TaggedValue::Bytes(_) => TypeTag::Bytes,
            TaggedValue::Facet(_) => TypeTag::Facet,
            TaggedValue::Date(_) => TypeTag::Date,
            TaggedValue::IpAddr(_) => TypeTag::IpAddr,
        }
    }
}

/// The record is an instance of the record type: it has one value for each
/// field, in the order of the fields, each of the field's type.
pub open spec fn conforms(recipes: Seq<ValueRecipe>, record: Seq<FieldValueView>) -> bool {
    &&& record.len() == recipes.len()
    &&& forall|i: int| 0 <= i < record.len() ==> recipes[i].fits(#[trigger] record[i])
}

/// The document of a record instance: the value of each field under the tag
/// of its kind, paired with the identifier of the field's recipe.
pub open spec fn document_of(recipes: Seq<ValueRecipe>, record: Seq<FieldValueView>) -> Seq<
    (u32, TaggedValueView),
> {
    Seq::new(record.len(), |i: int| recipes[i].entry_for(record[i]))
}

/// The value recipes of the fields, each at its position.
pub open spec fn encoder_of(specs: Seq<FieldSpecView>) -> Seq<ValueRecipe> {
    Seq::new(
        specs.len(),
        |i: int| ValueRecipe { field_id: i as u32, tag: specs[i].declared_type->0 },
    )
}

/// What the derivation of an encoder gives: the value recipes of all fields,
/// or the failure of the first field with an unsupported type.
pub open spec fn derived_encoder(specs: Seq<FieldSpecView>) -> Result<
    Seq<ValueRecipe>,
    DeriveError,
> {
    if all_supported(specs) {
        Ok(encoder_of(specs))
    } else {
        Err(DeriveError::UnsupportedType { field_id: first_unsupported(specs) as u32 })
    }
}

/// What encoding a record instance under `specs` gives: its document, or the
/// failure of the derivation.
pub open spec fn encoded(specs: Seq<FieldSpecView>, record: Seq<FieldValueView>) -> Result<
    Seq<(u32, TaggedValueView)>,
    DeriveError,
> {
    match derived_encoder(specs) {
        Ok(recipes) => Ok(document_of(recipes, record)),
        Err(error) => Err(error),
    }
}

/// The view of what [`derive_encoder`] returns.
pub open spec fn encoder_outcome(outcome: Result<Encoder, DeriveError>) -> Result<
    Seq<ValueRecipe>,
    DeriveError,
> {
    match outcome {
        Ok(encoder) => Ok(encoder@),
        Err(error) => Err(error),
    }
}

/// The view of what [`encode`] returns.
pub open spec fn document_outcome(outcome: Result<Document, DeriveError>) -> Result<
    Seq<(u32, TaggedValueView)>,
    DeriveError,
> {
    match outcome {
        Ok(document) => Ok(document@),
        Err(error) => Err(error),
    }
}

/// The encoder of a record type: the value recipes of its fields, in the
/// order of the fields. It is derived once and used for every instance.
#[derive(Debug)]
pub struct Encoder {
    recipes: Vec<ValueRecipe>,
}

/// The encoded form of one record instance: for each field, in order, the
/// field's identifier and its tagged value.
#[derive(Debug)]
pub struct Document {
    entries: Vec<(u32, TaggedValue)>,
}

impl View for Encoder {
    type V = Seq<ValueRecipe>;

    closed spec fn view(&self) -> Seq<ValueRecipe> {
        self.recipes@
    }
}

impl View for Document {
    type V = Seq<(u32, TaggedValueView)>;

    closed spec fn view(&self) -> Seq<(u32, TaggedValueView)> {
        self.entries.deep_view()
    }
}

impl FieldValue {
    /// Moves the value under the tag of its kind.
    pub fn into_tagged(self) -> (tagged: TaggedValue)
        ensures
            tagged@ == self@.tagged(),
    {
        match self {
            FieldValue::Text(text) => TaggedValue::Str(text),
            FieldValue::Json(text) => TaggedValue::JsonObject(text),
            FieldValue::U64(number) => TaggedValue::U64(number),
            FieldValue::I64(number) => TaggedValue::I64(number),
            FieldValue::F64(bits) => TaggedValue::F64(bits),
            FieldValue::Bool(truth) => TaggedValue::Bool(truth),
            FieldValue::Bytes(bytes) => TaggedValue::Bytes(bytes),
            FieldValue::Facet(path) => TaggedValue::Facet(path),
            FieldValue::Date(timestamp) => TaggedValue::Date(timestamp),
            FieldValue::IpAddr(address) => TaggedValue::IpAddr(address),
        }
    }
}

impl ValueRecipe {
    /// Tags a value of the recipe's field type and pairs it with the field's
    /// identifier.
    pub fn apply(&self, value: FieldValue) -> (entry: (u32, TaggedValue))
        requires
            self.fits(value@),
        ensures
            entry.deep_view() == self.entry_for(value@),
            entry.1@.tag() == self.tag,
    {
        (self.field_id, value.into_tagged())
    }
}

impl Encoder {
    #[verifier::type_invariant]
    spec fn identifiers_are_positions(&self) -> bool {
        &&& self.recipes@.len() <= u32::MAX + 1
        &&& forall|i: int|
            0 <= i < self.recipes@.len() ==> (#[trigger] self.recipes@[i]).field_id == i
    }

    /// The number of fields.
    pub fn len(&self) -> (count: usize)
        ensures
            count == self@.len(),
    {
        self.recipes.len()
    }

    /// The recipe of the field at `position`, whose identifier is `position`.
    pub fn recipe(&self, position: usize) -> (recipe: Option<ValueRecipe>)
        ensures
            match recipe {
                Some(found) => position < self@.len() && found == self@[position as int]
                    && found.field_id == position,
                None => position >= self@.len(),
            },
    {
        proof {
            use_type_invariant(self);
        }
        if position < self.recipes.len() {
            Some(self.recipes[position])
        } else {
            None
        }
    }

    /// Whether `record` has one value for each field, each of the field's
    /// type.
    pub fn accepts(&self, record: &Vec<FieldValue>) -> (accepted: bool)
        ensures
            accepted == conforms(self@, record.deep_view()),
    {
        if record.len() != self.recipes.len() {
            return false;
        }
        let mut i: usize = 0;
        while i < record.len()
            invariant
                i <= record@.len() == self.recipes@.len(),
                forall|j: int|
                    0 <= j < i ==> (#[trigger] record.deep_view()[j]).kind()
                        == self.recipes@[j].tag,
            decreases record@.len() - i,
        {
            if record[i].kind() != self.recipes[i].tag {
                assert(record.deep_view()[i as int].kind() != self.recipes@[i as int].tag);
                return false;
            }
            i += 1;
        }
        true
    }

    /// Encodes one record instance. The values are moved into the document.
    ///
    /// The instance has to be one of the record type: one value per field,
    /// each of the field's type. For such an instance encoding cannot fail,
    /// and the identifier of each entry is the position of its field.
    pub fn encode(&self, record: Vec<FieldValue>) -> (document: Document)
        requires
            conforms(self@, record.deep_view()),
        ensures
            document@ == document_of(self@, record.deep_view()),
            document@.len() == self@.len(),
            forall|i: int|
                0 <= i < document@.len() ==> (#[trigger] document@[i]).0 == i && document@[i].1.tag()
                    == self@[i].tag,
    {
        proof {
            use_type_invariant(self);
        }
        let ghost values = record.deep_view();
        let mut entries: Vec<(u32, TaggedValue)> = Vec::new();
        for value in remaining: record
            invariant
                remaining.seq() == record@,
                values == record.deep_view(),
                conforms(self.recipes@, values),
                forall|j: int|
                    0 <= j < self.recipes@.len() ==> (#[trigger] self.recipes@[j]).field_id == j,
                entries@.len() == remaining.index(),
                forall|j: int|
                    0 <= j < entries@.len() ==> (#[trigger] entries@[j]).deep_view()
                        == document_of(self.recipes@, values)[j] && entries@[j].0 == j,
        {
            let position = entries.len();
            assert(values[position as int] == value@);
            entries.push(self.recipes[position].apply(value));
        }
        let document = Document { entries };
        document
    }
}

impl Encoder {
    /// Encodes `record` if it is an instance of the record type, and hands it
    /// back untouched if it is not.
    pub fn try_encode(&self, record: Vec<FieldValue>) -> (outcome: Result<
        Document,
        Vec<FieldValue>,
    >)
        ensures
            match outcome {
                Ok(document) => conforms(self@, record.deep_view()) && document@ == document_of(
                    self@,
                    record.deep_view(),
                ),
                Err(rejected) => !conforms(self@, record.deep_view()) && rejected == record,
            },
    {
        if self.accepts(&record) {
            Ok(self.encode(record))
        } else {
            Err(record)
        }
    }
}

impl Document {
    #[verifier::type_invariant]
    spec fn identifiers_are_positions(&self) -> bool {
        forall|i: int| 0 <= i < self.entries@.len() ==> (#[trigger] self.entries@[i]).0 == i
    }

    /// The number of entries.
    pub fn len(&self) -> (count: usize)
        ensures
            count == self@.len(),
    {
        self.entries.len()
    }

    /// The entry at `position`, whose identifier is `position`.
    pub fn entry(&self, position: usize) -> (entry: Option<&(u32, TaggedValue)>)
        ensures
            match entry {
                Some(pair) => position < self@.len() && pair.deep_view() == self@[position as int]
                    && pair.0 == position,
                None => position >= self@.len(),
            },
    {
        proof {
            use_type_invariant(self);
        }
        if position < self.entries.len() {
            Some(&self.entries[position])
        } else {
            None
        }
    }

    /// The entries, in the order of the fields, to hand to the engine.
    pub fn into_entries(self) -> (entries: Vec<(u32, TaggedValue)>)
        ensures
            entries.deep_view() == self@,
            forall|i: int| 0 <= i < entries@.len() ==> (#[trigger] entries@[i]).0 == i,
    {
        proof {
            use_type_invariant(&self);
        }
        self.entries
    }
}

/// Derives the encoder of a record type from the specifications of its
/// fields: one value recipe per field, under the field's position.
///
/// Fails exactly when the derivation of the schema fails, and with the same
/// failure.
pub fn derive_encoder(specs: &Vec<FieldSpec>) -> (outcome: Result<Encoder, DeriveError>)
    requires
        specs@.len() <= u32::MAX + 1,
    ensures
        encoder_outcome(outcome) == derived_encoder(specs.deep_view()),
{
    let mut recipes: Vec<ValueRecipe> = Vec::new();
    let mut i: usize = 0;
    while i < specs.len()
        invariant
            i <= specs@.len() <= u32::MAX + 1,
            recipes@.len() == i,
            forall|j: int| 0 <= j < i ==> (#[trigger] specs.deep_view()[j]).declared_type is Some,
            forall|j: int|
                0 <= j < i ==> (#[trigger] recipes@[j]) == encoder_of(specs.deep_view())[j],
        decreases specs@.len() - i,
    {
        match dispatch(&specs[i], i as u32) {
            Ok((_, recipe)) => {
                recipes.push(recipe);
            },
            Err(error) => {
                proof {
                    lemma_first_unsupported_is(specs.deep_view(), i as int);
                }
                return Err(error);
            },
        }
        i += 1;
    }
    let encoder = Encoder { recipes };
    assert(encoder@ =~= encoder_of(specs.deep_view()));
    Ok(encoder)
}

/// Encodes one instance of the record type that `specs` describes.
///
/// No document is produced for a record type with an unsupported field type.
/// Otherwise the instance has to be one of the record type, and its document
/// has the identifiers of the schema, in the same order.
pub fn encode(specs: &Vec<FieldSpec>, record: Vec<FieldValue>) -> (outcome: Result<
    Document,
    DeriveError,
>)
    requires
        specs@.len() <= u32::MAX + 1,
        all_supported(specs.deep_view()) ==> conforms(
            encoder_of(specs.deep_view()),
            record.deep_view(),
        ),
    ensures
        document_outcome(outcome) == encoded(specs.deep_view(), record.deep_view()),
{
    match derive_encoder(specs) {
        Ok(encoder) => Ok(encoder.encode(record)),
        Err(error) => Err(error),
    }
}

} // verus!
