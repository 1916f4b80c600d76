//! The well-known timestamp message, as `prost_types` defines it.

use vstd::prelude::*;

verus! {

/// `prost_types::Timestamp` is a plain pair of public integers, `seconds` since
/// the Unix epoch and `nanos` within the second; the verifier reads both.
#[verifier::external_type_specification]
pub struct ExTimestamp(prost_types::Timestamp);

} // verus!
