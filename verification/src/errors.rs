//! The error taxonomy of the engine. The variants that the verified
//! core itself produces are `Validation` (an unsupported image type)
//! and `NotFound`; the callers that perform file I/O around the core
//! report their failures through the remaining variants.

use vstd::prelude::*;

verus! {

/// A service-level error, with a human-readable message where one
/// adds information.
#[derive(Debug, Clone)]
pub enum ServiceError {
    Io(String),
    Configuration(String),
    Auth(String),
    Validation(String),
    FileProcessing(String),
    Image(String),
    Content(String),
    ExpiredContent,
    NotFound(String),
    Server(String),
}

} // verus!
