//! The engine's names for what a schema holds: its field types and value
//! variants, its option types, its setters. Whoever writes a schema out for
//! the engine, as calls or as code, takes the names from here.

use crate::capability::TypeTag;
use crate::options::{FieldOptions, IndexRecordOption, OptionStep};
use vstd::prelude::*;

verus! {

impl TypeTag {
    /// The name of the engine's field type, and of its value variant, for
    /// this tag.
    pub open spec fn spec_engine_name(self) -> Seq<char> {
        match self {
            TypeTag::Text => "Str"@,
            TypeTag::Json => "JsonObject"@,
            TypeTag::U64 => "U64"@,
            TypeTag::I64 => "I64"@,
            TypeTag::F64 => "F64"@,
            TypeTag::Bool => "Bool"@,
            TypeTag::Bytes => "Bytes"@,
            TypeTag::Facet => "Facet"@,
            TypeTag::Date => "Date"@,
            TypeTag::IpAddr => "IpAddr"@,
        }
    }

    /// The name of the engine's field type, and of its value variant, for
    /// this tag.
    pub fn engine_name(&self) -> (name: &'static str)
        ensures
            name@ == self.spec_engine_name(),
    {
        match self {
            TypeTag::Text => "Str",
            TypeTag::Json => "JsonObject",
            TypeTag::U64 => "U64",
            TypeTag::I64 => "I64",
            TypeTag::F64 => "F64",
            TypeTag::Bool => "Bool",
            TypeTag::Bytes => "Bytes",
            TypeTag::Facet => "Facet",
            TypeTag::Date => "Date",
            TypeTag::IpAddr => "IpAddr",
        }
    }
}

impl FieldOptions {
    /// The name of the engine's type for options of this family.
    pub open spec fn spec_engine_name(self) -> Seq<char> {
        match self {
            FieldOptions::Text { .. } => "TextOptions"@,
            FieldOptions::Json { .. } => "JsonObjectOptions"@,
            FieldOptions::Numeric { .. } => "NumericOptions"@,
            FieldOptions::Bytes { .. } => "BytesOptions"@,
            FieldOptions::Facet { .. } => "FacetOptions"@,
            FieldOptions::Date { .. } => "DateOptions"@,
            FieldOptions::IpAddr { .. } => "IpAddrOptions"@,
        }
    }

    /// The name of the engine's type for options of this family.
    pub fn engine_name(&self) -> (name: &'static str)
        ensures
            name@ == self.spec_engine_name(),
    {
        match self {
            FieldOptions::Text { .. } => "TextOptions",
            FieldOptions::Json { .. } => "JsonObjectOptions",
            FieldOptions::Numeric { .. } => "NumericOptions",
            FieldOptions::Bytes { .. } => "BytesOptions",
            FieldOptions::Facet { .. } => "FacetOptions",
            FieldOptions::Date { .. } => "DateOptions",
            FieldOptions::IpAddr { .. } => "IpAddrOptions",
        }
    }
}

impl IndexRecordOption {
    /// The engine's name for the record option.
    pub open spec fn spec_engine_name(self) -> Seq<char> {
        match self {
            IndexRecordOption::Basic => "Basic"@,
            IndexRecordOption::WithFreqsAndPositions => "WithFreqsAndPositions"@,
        }
    }

    /// The engine's name for the record option.
    pub fn engine_name(&self) -> (name: &'static str)
        ensures
            name@ == self.spec_engine_name(),
    {
        match self {
            IndexRecordOption::Basic => "Basic",
            IndexRecordOption::WithFreqsAndPositions => "WithFreqsAndPositions",
        }
    }
}

impl OptionStep {
    /// The name of the engine's setter for this step. The two fast steps
    /// share theirs: the keyed one passes its key, the other passes nothing.
    pub open spec fn spec_setter(self) -> Seq<char> {
        match self {
            OptionStep::Stored => "set_stored"@,
            OptionStep::Fast | OptionStep::FastKeyed { .. } => "set_fast"@,
            OptionStep::Coerce => "set_coerce"@,
            OptionStep::Indexed => "set_indexed"@,
            OptionStep::Fieldnorm => "set_fieldnorm"@,
        }
    }

    /// The name of the engine's setter for this step.
    pub fn setter(&self) -> (name: &'static str)
        ensures
            name@ == self.spec_setter(),
    {
        match self {
            OptionStep::Stored => "set_stored",
            OptionStep::Fast | OptionStep::FastKeyed { .. } => "set_fast",
            OptionStep::Coerce => "set_coerce",
            OptionStep::Indexed => "set_indexed",
            OptionStep::Fieldnorm => "set_fieldnorm",
        }
    }
}

} // verus!
