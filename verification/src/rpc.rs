//! Errors of the gRPC layer, as `tonic` reports them.
//!
//! The values are opaque to the verifier. What the library reads of them is
//! the status code of a remote error and the text each error is displayed as;
//! the functions below name both.

use vstd::prelude::*;

verus! {

#[verifier::external_type_specification]
#[verifier::external_body]
pub struct ExStatus(tonic::Status);

/// `tonic::Code` is a plain enumeration of the gRPC status codes.
#[verifier::external_type_specification]
pub struct ExCode(tonic::Code);

#[verifier::external_type_specification]
#[verifier::external_body]
pub struct ExTransportError(tonic::transport::Error);

#[verifier::external_type_specification]
#[verifier::external_body]
pub struct ExInvalidMetadataValue(tonic::metadata::errors::InvalidMetadataValue);

/// The status code that a remote error carries.
pub uninterp spec fn status_code(status: tonic::Status) -> tonic::Code;

/// The text that a remote error is displayed as.
pub uninterp spec fn status_text(status: tonic::Status) -> Seq<char>;

/// The text that a transport error is displayed as.
pub uninterp spec fn transport_error_text(error: tonic::transport::Error) -> Seq<char>;

/// `tonic::Status::code`, which reads the code stored in the status.
#[verifier::external_body]
pub(crate) fn code_of(status: &tonic::Status) -> (code: tonic::Code)
    ensures
        code == status_code(*status),
{
    status.code()
}

/// `Display` for `tonic::Status`: the code, then the message and the source
/// where there are any.
#[verifier::external_body]
pub(crate) fn display_status(status: &tonic::Status) -> (text: String)
    ensures
        text@ == status_text(*status),
{
    status.to_string()
}

/// `Display` for `tonic::transport::Error`: a fixed description of the kind
/// of failure.
#[verifier::external_body]
pub(crate) fn display_transport_error(error: &tonic::transport::Error) -> (text: String)
    ensures
        text@ == transport_error_text(*error),
{
    error.to_string()
}

/// `Display` for `tonic::metadata::errors::InvalidMetadataValue`, which
/// writes the same fixed sentence for every value.
#[verifier::external_body]
pub(crate) fn display_metadata_error(error: &tonic::metadata::errors::InvalidMetadataValue) -> (text:
    String)
    ensures
        text@ == "failed to parse metadata value"@,
{
    error.to_string()
}

} // verus!
