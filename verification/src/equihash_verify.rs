//! The Equihash verifier of the `equihash` crate, as this library calls it.

use vstd::prelude::*;

verus! {

/// The error that `equihash::is_valid_solution` reports, carried through opaque.
#[verifier::external_type_specification]
#[verifier::external_body]
pub struct ExEquihashVerifyError(::equihash::Error);

/// Whether `soln` is a valid Equihash solution with parameters `(n, k)` for
/// `input` followed by `nonce`, as `equihash::is_valid_solution` decides it.
pub uninterp spec fn equihash_solution_is_valid(
    n: u32,
    k: u32,
    input: Seq<u8>,
    nonce: Seq<u8>,
    soln: Seq<u8>,
) -> bool;

/// Checks an Equihash solution with `equihash::is_valid_solution`.
///
/// Only the Zcash parameters `(200, 9)` are admitted: for parameters whose
/// collision length reaches 32 bits the outside function panics. With them, the
/// call is a function of its arguments: it succeeds exactly when the named
/// predicate holds, and its source refuses every solution whose length is not
/// 1344 bytes (the minimal encoding of 512 indices of 21 bits). Which kind of
/// failure it reports is not stated.
#[verifier::external_body]
pub(crate) fn is_valid_solution(n: u32, k: u32, input: &[u8], nonce: &[u8], soln: &[u8]) -> (res: Result<
    (),
    ::equihash::Error,
>)
    requires
        n == 200,
        k == 9,
    ensures
        res is Ok <==> equihash_solution_is_valid(n, k, input@, nonce@, soln@),
        soln@.len() != 1344 ==> res is Err,
{
    ::equihash::is_valid_solution(n, k, input, nonce, soln)
}

} // verus!
