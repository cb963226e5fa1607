//! A single-operation Soroban contract: check that the caller authorized the
//! invocation, then add two signed 128-bit integers and return the sum.
//!
//! The host runtime owns the authorization check and aborts the invocation
//! when it fails; the arithmetic itself is verified here to be exact and free
//! of overflow on every input the entry point admits.

use vstd::prelude::*;

use soroban_sdk::Address;

verus! {

/// `soroban_sdk::Address` is an opaque identity token: only the host's
/// authorization subsystem can interpret it. Declared so that signatures may
/// carry it; nothing inside it is visible here.
#[verifier::external_type_specification]
#[verifier::external_body]
pub struct ExAddress(Address);

/// Relies on `soroban_sdk::Address::require_auth`: it returns only when the
/// host has verified that the address authorized the current invocation, and
/// aborts the call otherwise, so no code after it runs for an unauthorized
/// caller. Nothing about the returned unit value is worth stating.
pub assume_specification[ Address::require_auth ](source: &Address);

/// The contract: one exported operation, no state, no storage.
pub struct Contract;

impl Contract {
    /// The arithmetic rule of the contract on its own, apart from any host:
    /// exact addition of two signed 128-bit integers whose sum is in range.
    pub fn sum(a: i128, b: i128) -> (r: i128)
        requires
            i128::MIN <= a + b <= i128::MAX,
        ensures
            r == a + b,
    {
        a + b
    }

    /// Require the host to confirm that `source` authorized this invocation,
    /// then return the exact sum of `a` and `b`. When the caller is not
    /// authorized the host aborts inside `require_auth` and no result is
    /// produced. The host's arithmetic traps on overflow, so a sum out of
    /// range is left out here rather than wrapped.
    pub fn do_math(source: Address, a: i128, b: i128) -> (r: i128)
        requires
            i128::MIN <= a + b <= i128::MAX,
        ensures
            r == a + b,
    {
        source.require_auth();
        Self::sum(a, b)
    }
}

} // verus!
