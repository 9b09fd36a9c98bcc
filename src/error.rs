use vstd::prelude::*;

verus! {

/// All errors in this library.
#[derive(Clone, Debug)]
pub enum NokhwaError {
    /// A value could not be mapped between the library's model and a backend's representation.
    ConversionError(String),
    /// Reading a control or a format failed.
    GetPropertyError { property: String, error: String },
    /// Writing a control or a format failed.
    SetPropertyError { property: String, value: String, error: String },
    /// A device could not be opened.
    OpenDeviceError(String, String),
    /// A stream could not be set up.
    OpenStreamError(String),
    /// A frame could not be read from a stream.
    ReadFrameError(String),
    /// An invariant of a compound value did not hold while it was put together.
    StructureError { structure: String, error: String },
}

/// The result type of this library.
pub type NokhwaResult<T> = Result<T, NokhwaError>;

/// Relies on std's `format!` with `{:?}`: a readable text for a value, used only in
/// error messages.
#[verifier::external_body]
pub(crate) fn debug_text<T: std::fmt::Debug>(value: &T) -> (r: String) {
    format!("{value:?}")
}

} // verus!
