//! The types of std that the `Debug` and `Display` impls of the vectors hand through.

use vstd::prelude::*;

verus! {

/// `core::fmt::Formatter` of std: where formatted text goes. Nothing is known of what it
/// holds.
#[verifier::external_type_specification]
#[verifier::external_body]
pub struct ExFormatter<'a>(core::fmt::Formatter<'a>);

/// `core::fmt::Error` of std: the error that writing to a formatter returns.
#[verifier::external_type_specification]
#[verifier::external_body]
pub struct ExFmtError(core::fmt::Error);

} // verus!
