//! The field capability model: the closed set of field types, the six
//! capability flags, and the table that says which flag means something for
//! which type.
//!
//! A flag that does not apply to a type is never an error. It is ignored.

use vstd::prelude::*;

verus! {

/// The closed set of field types that a schema can describe.
#[derive(Clone, Copy, Debug, PartialEq, Eq, Structural)]
pub enum TypeTag {
    Text,
    Json,
    U64,
    I64,
    F64,
    Bool,
    Bytes,
    Facet,
    Date,
    IpAddr,
}

/// One of the six capability flags.
#[derive(Clone, Copy, Debug, PartialEq, Eq, Structural)]
pub enum Capability {
    Fast,
    Stored,
    Indexed,
    Coerce,
    Norm,
    Tokenized,
}

/// The capability flags requested for one field.
#[derive(Clone, Copy, Debug, PartialEq, Eq, Structural)]
pub struct CapabilitySet {
    pub fast: bool,
    pub stored: bool,
    pub indexed: bool,
    pub coerce: bool,
    pub norm: bool,
    pub tokenized: bool,
}

/// The table of the model: whether `capability` has any effect on a field of
/// type `tag`.
///
/// | type                       | flags with an effect                   |
/// |----------------------------|----------------------------------------|
/// | `Text`                     | norm, tokenized, stored, fast, coerce  |
/// | `Json`                     | norm, tokenized, stored, fast          |
/// | `U64`, `I64`, `F64`, `Bool`| stored, fast, coerce, indexed, norm    |
/// | `Bytes`, `Date`, `IpAddr`  | stored, fast, indexed, norm            |
/// | `Facet`                    | stored                                 |
pub open spec fn applies(tag: TypeTag, capability: Capability) -> bool {
    match tag {
        TypeTag::Text => capability != Capability::Indexed,
        TypeTag::Json => capability != Capability::Indexed && capability != Capability::Coerce,
        TypeTag::U64 | TypeTag::I64 | TypeTag::F64 | TypeTag::Bool => capability
            != Capability::Tokenized,
        TypeTag::Bytes | TypeTag::Date | TypeTag::IpAddr => capability != Capability::Tokenized
            && capability != Capability::Coerce,
        TypeTag::Facet => capability == Capability::Stored,
    }
}

impl CapabilitySet {
    /// Whether the set holds `capability`.
    pub open spec fn has(self, capability: Capability) -> bool {
        match capability {
            Capability::Fast => self.fast,
            Capability::Stored => self.stored,
            Capability::Indexed => self.indexed,
            Capability::Coerce => self.coerce,
            Capability::Norm => self.norm,
            Capability::Tokenized => self.tokenized,
        }
    }

    /// The set that holds no flag.
    pub open spec fn nothing() -> CapabilitySet {
        CapabilitySet {
            fast: false,
            stored: false,
            indexed: false,
            coerce: false,
            norm: false,
            tokenized: false,
        }
    }

    /// The flags that mean something for `tag`, all of them set.
    pub open spec fn applicable_to(tag: TypeTag) -> CapabilitySet {
        CapabilitySet {
            fast: applies(tag, Capability::Fast),
            stored: applies(tag, Capability::Stored),
            indexed: applies(tag, Capability::Indexed),
            coerce: applies(tag, Capability::Coerce),
            norm: applies(tag, Capability::Norm),
            tokenized: applies(tag, Capability::Tokenized),
        }
    }

    /// The flags that are in both sets.
    pub open spec fn meet(self, other: CapabilitySet) -> CapabilitySet {
        CapabilitySet {
            fast: self.fast && other.fast,
            stored: self.stored && other.stored,
            indexed: self.indexed && other.indexed,
            coerce: self.coerce && other.coerce,
            norm: self.norm && other.norm,
            tokenized: self.tokenized && other.tokenized,
        }
    }

    /// The requested flags that mean something for `tag`; the others are
    /// dropped.
    pub open spec fn restricted_to(self, tag: TypeTag) -> CapabilitySet {
        self.meet(Self::applicable_to(tag))
    }

    /// The set that holds no flag.
    pub fn none() -> (set: CapabilitySet)
        ensures
            set == Self::nothing(),
    {
        CapabilitySet {
            fast: false,
            stored: false,
            indexed: false,
            coerce: false,
            norm: false,
            tokenized: false,
        }
    }

    /// The flags that mean something for `tag`, all of them set.
    pub fn applicable(tag: TypeTag) -> (set: CapabilitySet)
        ensures
            set == Self::applicable_to(tag),
            forall|capability: Capability| set.has(capability) == applies(tag, capability),
    {
        CapabilitySet {
            fast: is_applicable(tag, Capability::Fast),
            stored: is_applicable(tag, Capability::Stored),
            indexed: is_applicable(tag, Capability::Indexed),
            coerce: is_applicable(tag, Capability::Coerce),
            norm: is_applicable(tag, Capability::Norm),
            tokenized: is_applicable(tag, Capability::Tokenized),
        }
    }

    /// Whether the set holds `capability`.
    pub fn contains(&self, capability: Capability) -> (held: bool)
        ensures
            held == self.has(capability),
    {
        match capability {
            Capability::Fast => self.fast,
            Capability::Stored => self.stored,
            Capability::Indexed => self.indexed,
            Capability::Coerce => self.coerce,
            Capability::Norm => self.norm,
            Capability::Tokenized => self.tokenized,
        }
    }

    /// Drops the flags that mean nothing for `tag`.
    pub fn effective(&self, tag: TypeTag) -> (set: CapabilitySet)
        ensures
            set == self.restricted_to(tag),
            forall|capability: Capability|
                set.has(capability) == (self.has(capability) && applies(tag, capability)),
    {
        CapabilitySet {
            fast: self.fast && is_applicable(tag, Capability::Fast),
            stored: self.stored && is_applicable(tag, Capability::Stored),
            indexed: self.indexed && is_applicable(tag, Capability::Indexed),
            coerce: self.coerce && is_applicable(tag, Capability::Coerce),
            norm: self.norm && is_applicable(tag, Capability::Norm),
            tokenized: self.tokenized && is_applicable(tag, Capability::Tokenized),
        }
    }
}

impl Default for CapabilitySet {
    fn default() -> (set: CapabilitySet)
        ensures
            set == CapabilitySet::nothing(),
    {
        CapabilitySet::none()
    }
}

/// Looks `capability` up in the table for `tag`.
pub fn is_applicable(tag: TypeTag, capability: Capability) -> (applicable: bool)
    ensures
        applicable == applies(tag, capability),
{
    match capability {
        Capability::Stored => true,
        Capability::Fast | Capability::Norm => !matches!(tag, TypeTag::Facet),
        Capability::Tokenized => matches!(tag, TypeTag::Text | TypeTag::Json),
        Capability::Indexed => !matches!(tag, TypeTag::Text | TypeTag::Json | TypeTag::Facet),
        Capability::Coerce => matches!(
            tag,
            TypeTag::Text | TypeTag::U64 | TypeTag::I64 | TypeTag::F64 | TypeTag::Bool
        ),
    }
}

} // verus!
