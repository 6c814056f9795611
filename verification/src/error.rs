//! The two ways in which a derivation can fail. Both are fatal for the whole
//! record type: there is no partial schema.

use vstd::prelude::*;

verus! {

/// Why nothing could be derived for a record type.
#[derive(Clone, Copy, Debug, PartialEq, Eq, Structural)]
pub enum DeriveError {
    /// The field at this position declares a type outside the closed set.
    UnsupportedType { field_id: u32 },
    /// The description is not that of one record with named fields.
    MalformedRecordShape,
}

impl DeriveError {
    /// What [`DeriveError::message`] says.
    pub open spec fn spec_message(self) -> Seq<char> {
        match self {
            DeriveError::UnsupportedType { .. } => "unsupported field type"@,
            DeriveError::MalformedRecordShape => "only supported named struct"@,
        }
    }

    /// A short description of the failure.
    pub fn message(&self) -> (text: &'static str)
        ensures
            text@ == self.spec_message(),
    {
        match self {
            DeriveError::UnsupportedType { .. } => "unsupported field type",
            DeriveError::MalformedRecordShape => "only supported named struct",
        }
    }
}

} // verus!
