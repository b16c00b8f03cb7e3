//! Errors of other libraries that are carried through as they came.
use vstd::prelude::*;

verus! {

/// An error of the operating system.
#[verifier::external_type_specification]
#[verifier::external_body]
pub struct ExIoError(std::io::Error);

/// An error of the HTTP/2 implementation.
#[verifier::external_type_specification]
#[verifier::external_body]
pub struct ExHttp2Error(h2::Error);

} // verus!
