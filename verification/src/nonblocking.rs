//! Declarations that let verified code use the nb crate's types.

use vstd::prelude::*;

verus! {

/// Declares nb's error enum to the verifier.
///
/// Relies on nb's `Error<E>`: the enum and both of its variants (`Other(E)`
/// and `WouldBlock`) are public in nb's source, so the declaration is
/// transparent and verified code constructs and matches `nb::Error` directly.
#[verifier::external_type_specification]
#[verifier::reject_recursive_types(E)]
pub struct ExNbError<E>(nb::Error<E>);

} // verus!
