//! Error types used by the crate.

use vstd::prelude::*;

verus! {

/// Result alias used throughout the crate.
pub type GalileoResult<T> = Result<T, GalileoError>;

/// Error type of the render pipeline.
///
/// Failures that originate outside the verified core (network, windowing,
/// image decoding) are carried as plain messages; the shell that talks to
/// those systems converts their error values into these variants.
#[derive(Clone, Debug, PartialEq, Eq)]
pub enum GalileoError {
    /// I/O error (network or file).
    IO,
    /// Error decoding data, including geometry a tessellator cannot accept.
    Decoding(String),
    /// Error interacting with a WASM runtime.
    Wasm(Option<String>),
    /// Item not found.
    NotFound,
    /// Image decoding error.
    ImageDecode,
    /// Generic error - details are inside.
    Generic(String),
    /// Error reading or writing data to the file system.
    FsIo(String),
    /// Error reported by the windowing event loop.
    WinitEventLoop(String),
    /// Error reported by the windowing system.
    WinitOs(String),
}

impl GalileoError {
    /// A short, fixed description of the error kind, one per variant.
    pub fn kind_message(&self) -> (m: &'static str)
        ensures
            m@ == self.kind_message_spec(),
    {
        match self {
            GalileoError::IO => "failed to load data",
            GalileoError::Decoding(_) => "failed to decode data",
            GalileoError::Wasm(_) => "wasm error",
            GalileoError::NotFound => "item not found",
            GalileoError::ImageDecode => "image decode error",
            GalileoError::Generic(_) => "error",
            GalileoError::FsIo(_) => "failed to read file",
            GalileoError::WinitEventLoop(_) => "event loop error",
            GalileoError::WinitOs(_) => "os error",
        }
    }

    /// What `kind_message` returns for each variant.
    pub open spec fn kind_message_spec(&self) -> Seq<char> {
        match self {
            GalileoError::IO => "failed to load data"@,
            GalileoError::Decoding(_) => "failed to decode data"@,
            GalileoError::Wasm(_) => "wasm error"@,
            GalileoError::NotFound => "item not found"@,
            GalileoError::ImageDecode => "image decode error"@,
            GalileoError::Generic(_) => "error"@,
            GalileoError::FsIo(_) => "failed to read file"@,
            GalileoError::WinitEventLoop(_) => "event loop error"@,
            GalileoError::WinitOs(_) => "os error"@,
        }
    }
}

} // verus!
