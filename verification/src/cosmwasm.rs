//! The arithmetic that the library takes from `cosmwasm_std`, on plain
//! integers. The contracts in this file are believed, not proved.

use vstd::prelude::*;

verus! {

/// `cosmwasm_std::Uint128::checked_add`: the sum of the two numbers where it
/// fits in 128 bits, and nothing where it does not.
#[verifier::external_body]
pub(crate) fn uint128_checked_add(a: u128, b: u128) -> (r: Option<u128>)
    ensures
        r == (if a + b <= u128::MAX {
            Some((a + b) as u128)
        } else {
            None
        }),
{
    match cosmwasm_std::Uint128::new(a).checked_add(cosmwasm_std::Uint128::new(b)) {
        Ok(sum) => Some(sum.u128()),
        Err(_) => None,
    }
}

/// `cosmwasm_std::Timestamp::plus_seconds`, on a time given in nanoseconds
/// since the epoch: the time `seconds` later, in nanoseconds. The call
/// panics where the result exceeds 64 bits, so such arguments are left out.
#[verifier::external_body]
pub(crate) fn timestamp_plus_seconds(nanos: u64, seconds: u64) -> (r: u64)
    requires
        nanos + seconds * 1_000_000_000 <= u64::MAX,
    ensures
        r == nanos + seconds * 1_000_000_000,
{
    cosmwasm_std::Timestamp::from_nanos(nanos).plus_seconds(seconds).nanos()
}

} // verus!
