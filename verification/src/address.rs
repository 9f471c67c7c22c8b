//! Trusted declarations for the addresses of `soroban_sdk`.

use soroban_sdk::Address;
use vstd::prelude::*;

verus! {

/// `soroban_sdk::Address`: an account or contract identifier. The library
/// carries addresses through unchanged and never looks inside one.
#[verifier::external_type_specification]
#[verifier::external_body]
pub struct ExAddress(Address);

/// Whether two addresses are equal by `soroban_sdk::Address`'s `PartialEq`.
/// The host orders address objects by the addresses they denote, so the
/// answer depends on the two address values alone.
pub uninterp spec fn address_eq(a: Address, b: Address) -> bool;

/// Compares two addresses with `soroban_sdk::Address`'s `PartialEq`, which
/// asks the host environment to order the two address objects.
///
/// Claimed: the answer is `address_eq` of the two values, and an address
/// value compares equal to itself (`Address` is `Eq`). What `address_eq` is
/// on two distinct values is left to the host.
#[verifier::external_body]
pub(crate) fn same_address(a: &Address, b: &Address) -> (r: bool)
    ensures
        r == address_eq(*a, *b),
        *a == *b ==> r,
{
    a == b
}

/// `Clone` for `soroban_sdk::Address` (derived): the copy holds the same
/// environment handle and the same address object, so it is the same value.
pub assume_specification[ <Address as Clone>::clone ](a: &Address) -> (r: Address)
    ensures
        r == *a,
;

} // verus!
