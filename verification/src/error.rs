//! Errors raised while reading the serialized format.
use vstd::prelude::*;

verus! {

/// Errors of the serialized format.
#[derive(Clone, Debug, PartialEq, Eq)]
pub enum Format {
    /// The data could not be turned into a token value; the text says why.
    DeserializationError(String),
    /// The block was written with a schema version that this library does not read.
    Version { maximum: u32, actual: u32 },
}

/// Model of a [`Format`] error.
pub enum FormatModel {
    DeserializationError(Seq<char>),
    Version { maximum: u32, actual: u32 },
}

impl View for Format {
    type V = FormatModel;

    open spec fn view(&self) -> FormatModel {
        match self {
            Format::DeserializationError(s) => FormatModel::DeserializationError(s@),
            Format::Version { maximum, actual } => FormatModel::Version {
                maximum: *maximum,
                actual: *actual,
            },
        }
    }
}

/// The model of a conversion's outcome.
pub open spec fn result_view<T: View>(r: Result<T, Format>) -> Result<T::V, FormatModel> {
    match r {
        Ok(t) => Ok(t@),
        Err(e) => Err(e@),
    }
}

/// A deserialization error with the given text.
pub open spec fn deserialization(text: Seq<char>) -> FormatModel {
    FormatModel::DeserializationError(text)
}

/// The model of an error is the error of the same name, with the same text
/// or versions.
pub proof fn law_format_view(e: Format)
    ensures
        e matches Format::DeserializationError(t) ==> e@ == FormatModel::DeserializationError(t@),
        e matches Format::Version { maximum, actual } ==> e@ == (FormatModel::Version {
            maximum,
            actual,
        }),
{
}

} // verus!
