use vstd::prelude::*;

verus! {

/// The I/O error type of std, carried through unchanged.
#[verifier::external_type_specification]
#[verifier::external_body]
pub struct ExIoError(std::io::Error);

/// The error type of serde_json, carried through unchanged.
#[verifier::external_type_specification]
#[verifier::external_body]
pub struct ExJsonError(serde_json::Error);

/// Errors of the forgemagie assistant.
#[derive(Debug)]
pub enum AppError {
    /// Text recognition failed.
    Ocr(String),
    /// The DofusDB API answered with an error.
    DofusDbApi { code: u32, message: String },
    /// A calculation could not be carried out.
    Calculation(String),
    /// An item description could not be parsed.
    Parsing(String),
    /// A screen region could not be captured.
    ScreenCapture(String),
    /// An I/O operation failed.
    Io(std::io::Error),
    /// A JSON value could not be (de)serialized.
    Serialization(serde_json::Error),
}

} // verus!
