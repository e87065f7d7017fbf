//! The stand-in vesting contract that answers the vault's queries in the vault's tests:
//! it reports an unclaimed amount of 10000 at any height, for any address and in total.
use crate::text::decimal_digits;
use cosmwasm_std::StdError;
use vstd::prelude::*;

verus! {

/// The queries of the vesting contract's historical extension that the stand-in answers;
/// the vesting contract's other queries are not answered.
#[derive(Debug, Clone, PartialEq)]
pub enum VestingQuery {
    UnclaimedAmountAtHeight { address: String, height: Option<u64> },
    UnclaimedTotalAmountAtHeight { height: Option<u64> },
}

/// The amount that the stand-in reports for every query.
pub open spec fn reported_amount() -> nat {
    10000
}

/// The JSON text of a `Uint128` as bytes: a double quote, the ASCII decimal digits of
/// the value, a double quote.
pub open spec fn uint128_json(v: nat) -> Seq<u8> {
    seq![34u8] + decimal_digits(v).map_values(|c: char| c as u8) + seq![34u8]
}

/// Serializes a `Uint128` through `cosmwasm_std::to_binary`. `Uint128` serializes as a
/// string of its decimal digits, and the JSON serializer writes that string between
/// double quotes with nothing to escape; it never fails on a string. The contract claims
/// exactly that: the result is `Ok` with the bytes of `uint128_json`.
#[verifier::external_body]
#[allow(deprecated)]
fn uint128_to_json(v: u128) -> (r: Result<Vec<u8>, StdError>)
    ensures
        r is Ok,
        r->Ok_0@ == uint128_json(v as nat),
{
    cosmwasm_std::to_binary(&cosmwasm_std::Uint128::new(v)).map(|b| b.0)
}

/// The stand-in's answer to a query: the JSON of the amount 10000, whatever the
/// address and the height.
pub fn vesting_query(q: &VestingQuery) -> (r: Result<Vec<u8>, StdError>)
    ensures
        r is Ok,
        r->Ok_0@ == uint128_json(reported_amount()),
{
    match q {
        VestingQuery::UnclaimedAmountAtHeight { address: _, height: _ } => uint128_to_json(10000),
        VestingQuery::UnclaimedTotalAmountAtHeight { height: _ } => uint128_to_json(10000),
    }
}

} // verus!
