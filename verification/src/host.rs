//! The two types of the host environment that values of this crate hold.
//! The verifier sees nothing inside them.

use vstd::prelude::*;

verus! {

/// The host vector of `soroban_sdk`.
#[verifier::external_type_specification]
#[verifier::external_body]
#[verifier::reject_recursive_types(T)]
pub struct ExHostVec<T>(soroban_sdk::Vec<T>);

/// An account or contract address of `soroban_sdk`.
#[verifier::external_type_specification]
#[verifier::external_body]
pub struct ExAddress(soroban_sdk::Address);

} // verus!
