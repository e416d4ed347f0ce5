//! The lower-layer failure types that the library's errors carry or absorb.
//!
//! Each of them is opaque here: a value is carried through unchanged and never
//! looked into. The only operation assumed of any of them is the equality test
//! of the two parse failures.
use vstd::prelude::*;

verus! {

/// `core::str::Utf8Error`: why bytes were not valid UTF-8.
#[verifier::external_type_specification]
#[verifier::external_body]
pub struct ExUtf8Error(core::str::Utf8Error);

/// `core::num::ParseIntError`: why text was not an integer.
#[verifier::external_type_specification]
#[verifier::external_body]
pub struct ExParseIntError(core::num::ParseIntError);

/// `std::io::Error`: a failed I/O operation.
#[verifier::external_type_specification]
#[verifier::external_body]
pub struct ExIoError(std::io::Error);

/// `std::sync::mpsc::RecvTimeoutError`: a blocking receive that gave up.
#[verifier::external_type_specification]
#[verifier::external_body]
pub struct ExRecvTimeoutError(std::sync::mpsc::RecvTimeoutError);

/// `native_tls::HandshakeError`: a TLS handshake that failed or was interrupted.
#[verifier::external_type_specification]
#[verifier::external_body]
#[verifier::reject_recursive_types(S)]
pub struct ExNativeTlsHandshakeError<S>(native_tls::HandshakeError<S>);

/// `<Utf8Error as PartialEq>::eq`. The type is `Eq` and compares its fields, so
/// the test answers whether the two failures are the same value.
#[verifier::external_body]
pub(crate) fn utf8_error_eq(a: &core::str::Utf8Error, b: &core::str::Utf8Error) -> (same: bool)
    ensures
        same == (*a == *b),
{
    a == b
}

/// `<ParseIntError as PartialEq>::eq`. The type is `Eq` and compares its kind,
/// so the test answers whether the two failures are the same value.
#[verifier::external_body]
pub(crate) fn parse_int_error_eq(a: &core::num::ParseIntError, b: &core::num::ParseIntError) -> (same: bool)
    ensures
        same == (*a == *b),
{
    a == b
}

} // verus!
