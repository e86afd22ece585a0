use vstd::prelude::*;

verus! {

/// Why a submission's response was rejected.
#[derive(Clone, Copy, Debug, PartialEq, Eq, Structural)]
pub enum ResponseFailure {
    /// The endpoint answered with a non-success HTTP status.
    Status(u16),
    /// The endpoint answered with a success status, but the body was not
    /// well-formed JSON.
    InvalidJson,
    /// The body was well-formed JSON, but held no string `id` field.
    MissingId,
}

/// The error taxonomy of the library.
#[derive(Clone, Copy, Debug, PartialEq, Eq, Structural)]
pub enum BundlrError {
    /// The signer capability failed to produce a signature.
    SigningError,
    /// The remote endpoint rejected the request or returned an unusable body.
    ResponseError(ResponseFailure),
    /// An undifferentiated transport failure: the request never produced a
    /// response at all.
    Unknown,
}

} // verus!
