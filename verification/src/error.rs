//! The errors of the reserve contract and the text that each renders to.
use crate::text::{
    all_digits, decimal_digits, decimal_fractional, decimal_text, decimal_to_string, digits_value,
    lemma_decimal_digits_value, lemma_decimal_text_value, reads_as_fraction, u128_to_decimal,
};
use cosmwasm_std::{OverflowError, StdError};
use vstd::prelude::*;

verus! {

#[verifier::external_type_specification]
#[verifier::external_body]
pub struct ExStdError(StdError);

#[verifier::external_type_specification]
#[verifier::external_body]
pub struct ExOverflowError(OverflowError);

/// A fixed-point decimal with eighteen fractional places, held by its atomics
/// (the value times ten to the eighteenth), as `cosmwasm_std::Decimal` holds it.
#[derive(Clone, Copy, Debug, PartialEq, Eq, Structural)]
pub struct Decimal {
    pub atomics: u128,
}

/// Everything the reserve contract can fail with.
#[derive(Debug, PartialEq)]
pub enum ContractError {
    Std(StdError),
    /// A failure of the pause control, held by the text that its transparent
    /// `Display` writes.
    PauseError(String),
    Unauthorized {},
    NoFundsToDistribute {},
    InvalidDistributionRate {},
    InvalidVestingDenominator {},
    InvalidMinPeriod {},
    TooSoonToDistribute {},
    NoBurnedCoins {},
    UnkownReplyID { reply_id: u64 },
    MigrationBalancesMismatch { denom: String, initial_balance: u128, final_balance: u128 },
    MigrationAmountUnavailable { amount: u128, max_amount: u128 },
    MigrationSlippageToBig { slippage_tolerance: Decimal, max_slippage_tolerance: Decimal },
    MigrationComplete {},
    OverflowError(OverflowError),
}

/// The text that `Display` of `cosmwasm_std::StdError` writes for an error. It depends
/// on the error alone; what it is on given errors is not stated here.
pub uninterp spec fn std_error_display(e: StdError) -> Seq<char>;

/// Renders a `StdError` through its `Display` (derived by thiserror in cosmwasm-std).
/// The contract claims only that the text is `std_error_display` of the error.
#[verifier::external_body]
fn std_error_text(e: &StdError) -> (s: String)
    ensures
        s@ == std_error_display(*e),
{
    e.to_string()
}

impl ContractError {
    /// The text of every error; that of `Std` is the text of the `StdError` it holds.
    pub open spec fn rendered(&self) -> Seq<char> {
        match self {
            ContractError::Std(e) => std_error_display(*e),
            ContractError::PauseError(text) => text@,
            ContractError::Unauthorized {} => "Unauthorized"@,
            ContractError::NoFundsToDistribute {} => "No funds to distribute"@,
            ContractError::InvalidDistributionRate {} => "distribution_rate must be between 0 and 1"@,
            ContractError::InvalidVestingDenominator {} => "vesting_denominator must be greater than zero"@,
            ContractError::InvalidMinPeriod {} => "min_period must be greater than zero"@,
            ContractError::TooSoonToDistribute {} => "Too soon to distribute"@,
            ContractError::NoBurnedCoins {} => "no coins were burned, nothing to distribute"@,
            ContractError::UnkownReplyID { reply_id } => "Unknown reply ID "@ + decimal_digits(
                *reply_id as nat,
            ),
            ContractError::MigrationBalancesMismatch { denom, initial_balance, final_balance } =>
                denom@ + " balance "@ + decimal_digits(*final_balance as nat)
                + " after liquidity withdrawal and providing doesn't match the initial one "@
                + decimal_digits(*initial_balance as nat),
            ContractError::MigrationAmountUnavailable { amount, max_amount } =>
                "Amount to be migrated is greater that the max available amount: "@
                + decimal_digits(*amount as nat) + " > "@ + decimal_digits(*max_amount as nat),
            ContractError::MigrationSlippageToBig { slippage_tolerance, max_slippage_tolerance } =>
                "Provided slippage tolerance "@ + decimal_text(slippage_tolerance.atomics as nat)
                + " is more than the max allowed "@ + decimal_text(
                max_slippage_tolerance.atomics as nat,
            ),
            ContractError::MigrationComplete {} =>
                "Migration from xyk pairs to CL ones is complete: nothing to migrate"@,
            ContractError::OverflowError(_) => "Overflow"@,
        }
    }

    /// The text the error renders to, as its `Display` writes it.
    pub fn message(&self) -> (s: String)
        ensures
            s@ == self.rendered(),
            self matches ContractError::UnkownReplyID { reply_id } ==> s@ == "Unknown reply ID "@
                + decimal_digits(reply_id as nat),
            self matches ContractError::MigrationBalancesMismatch {
                denom,
                initial_balance,
                final_balance,
            } ==> s@ == denom@ + " balance "@ + decimal_digits(final_balance as nat)
                + " after liquidity withdrawal and providing doesn't match the initial one "@
                + decimal_digits(initial_balance as nat),
            self matches ContractError::MigrationAmountUnavailable { amount, max_amount } ==> s@
                == "Amount to be migrated is greater that the max available amount: "@
                + decimal_digits(amount as nat) + " > "@ + decimal_digits(max_amount as nat),
            self matches ContractError::MigrationSlippageToBig {
                slippage_tolerance,
                max_slippage_tolerance,
            } ==> s@ == "Provided slippage tolerance "@ + decimal_text(
                slippage_tolerance.atomics as nat,
            ) + " is more than the max allowed "@ + decimal_text(
                max_slippage_tolerance.atomics as nat,
            ),
            self matches ContractError::Std(e) ==> s@ == std_error_display(*e),
    {
        match self {
            ContractError::Std(e) => std_error_text(e),
            ContractError::PauseError(text) => text.clone(),
            ContractError::Unauthorized {} => String::from_str("Unauthorized"),
            ContractError::NoFundsToDistribute {} => String::from_str("No funds to distribute"),
            ContractError::InvalidDistributionRate {} => String::from_str(
                "distribution_rate must be between 0 and 1",
            ),
            ContractError::InvalidVestingDenominator {} => String::from_str(
                "vesting_denominator must be greater than zero",
            ),
            ContractError::InvalidMinPeriod {} => String::from_str(
                "min_period must be greater than zero",
            ),
            ContractError::TooSoonToDistribute {} => String::from_str("Too soon to distribute"),
            ContractError::NoBurnedCoins {} => String::from_str(
                "no coins were burned, nothing to distribute",
            ),
            ContractError::UnkownReplyID { reply_id } => {
                let mut s = String::from_str("Unknown reply ID ");
                let id = u128_to_decimal(*reply_id as u128);
                s.append(id.as_str());
                s
            },
            ContractError::MigrationBalancesMismatch { denom, initial_balance, final_balance } => {
                let mut s = String::from_str(denom.as_str());
                s.append(" balance ");
                let f = u128_to_decimal(*final_balance);
                s.append(f.as_str());
                s.append(" after liquidity withdrawal and providing doesn't match the initial one ");
                let i = u128_to_decimal(*initial_balance);
                s.append(i.as_str());
                s
            },
            ContractError::MigrationAmountUnavailable { amount, max_amount } => {
                let mut s = String::from_str(
                    "Amount to be migrated is greater that the max available amount: ",
                );
                let a = u128_to_decimal(*amount);
                s.append(a.as_str());
                s.append(" > ");
                let m = u128_to_decimal(*max_amount);
                s.append(m.as_str());
                s
            },
            ContractError::MigrationSlippageToBig { slippage_tolerance, max_slippage_tolerance } => {
                let mut s = String::from_str("Provided slippage tolerance ");
                let t = decimal_to_string(slippage_tolerance.atomics);
                s.append(t.as_str());
                s.append(" is more than the max allowed ");
                let m = decimal_to_string(max_slippage_tolerance.atomics);
                s.append(m.as_str());
                s
            },
            ContractError::MigrationComplete {} => String::from_str(
                "Migration from xyk pairs to CL ones is complete: nothing to migrate",
            ),
            ContractError::OverflowError(_) => String::from_str("Overflow"),
        }
    }
}

/// The errors that carry no values, and an overflow, render to their fixed texts; a pause-control
/// error renders to the text it holds.
pub proof fn lemma_fixed_texts(pause_text: String, overflow: OverflowError)
    ensures
        (ContractError::OverflowError(overflow)).rendered() == "Overflow"@,
        (ContractError::PauseError(pause_text)).rendered() == pause_text@,
        (ContractError::Unauthorized {}).rendered() == "Unauthorized"@,
        (ContractError::NoFundsToDistribute {}).rendered() == "No funds to distribute"@,
        (ContractError::InvalidDistributionRate {}).rendered()
            == "distribution_rate must be between 0 and 1"@,
        (ContractError::InvalidVestingDenominator {}).rendered()
            == "vesting_denominator must be greater than zero"@,
        (ContractError::InvalidMinPeriod {}).rendered() == "min_period must be greater than zero"@,
        (ContractError::TooSoonToDistribute {}).rendered() == "Too soon to distribute"@,
        (ContractError::NoBurnedCoins {}).rendered()
            == "no coins were burned, nothing to distribute"@,
        (ContractError::MigrationComplete {}).rendered()
            == "Migration from xyk pairs to CL ones is complete: nothing to migrate"@,
{
}

/// The text of an unknown-reply error is "Unknown reply ID " followed by the reply id
/// in decimal: what follows the prefix is digits only and reads back as the reply id.
pub proof fn lemma_reply_id_text(reply_id: u64)
    ensures
        ({
            let t = (ContractError::UnkownReplyID { reply_id }).rendered();
            let p = "Unknown reply ID "@;
            &&& t.subrange(0, p.len() as int) == p
            &&& all_digits(t.subrange(p.len() as int, t.len() as int))
            &&& digits_value(t.subrange(p.len() as int, t.len() as int)) == reply_id
        }),
{
    let t = (ContractError::UnkownReplyID { reply_id }).rendered();
    let p = "Unknown reply ID "@;
    let d = decimal_digits(reply_id as nat);
    lemma_decimal_digits_value(reply_id as nat);
    assert(t == p + d);
    assert(t.subrange(0, p.len() as int) =~= p);
    assert(t.subrange(p.len() as int, t.len() as int) =~= d);
}

/// The text of a balances mismatch names the denom, then the final balance, then the
/// initial balance, each in decimal: the final balance stands first, right after
/// " balance ", and each written balance reads back as its value.
pub proof fn lemma_balances_mismatch_text(denom: String, initial_balance: u128, final_balance: u128)
    ensures
        (ContractError::MigrationBalancesMismatch { denom, initial_balance, final_balance })
            .rendered() == denom@ + " balance "@ + decimal_digits(final_balance as nat)
            + " after liquidity withdrawal and providing doesn't match the initial one "@
            + decimal_digits(initial_balance as nat),
        digits_value(decimal_digits(final_balance as nat)) == final_balance,
        digits_value(decimal_digits(initial_balance as nat)) == initial_balance,
        all_digits(decimal_digits(final_balance as nat)),
        all_digits(decimal_digits(initial_balance as nat)),
{
    lemma_decimal_digits_value(final_balance as nat);
    lemma_decimal_digits_value(initial_balance as nat);
}

/// The text of an unavailable amount names the amount asked for, then " > ", then the
/// largest amount available, each in decimal, each reading back as its value.
pub proof fn lemma_amount_unavailable_text(amount: u128, max_amount: u128)
    ensures
        (ContractError::MigrationAmountUnavailable { amount, max_amount }).rendered()
            == "Amount to be migrated is greater that the max available amount: "@
            + decimal_digits(amount as nat) + " > "@ + decimal_digits(max_amount as nat),
        digits_value(decimal_digits(amount as nat)) == amount,
        digits_value(decimal_digits(max_amount as nat)) == max_amount,
        all_digits(decimal_digits(amount as nat)),
        all_digits(decimal_digits(max_amount as nat)),
{
    lemma_decimal_digits_value(amount as nat);
    lemma_decimal_digits_value(max_amount as nat);
}

/// The text of a slippage error names the tolerance asked for, then the largest allowed,
/// each as its decimal reads: the whole part in decimal and, where there is a fractional
/// part, a point and the digits of that part.
pub proof fn lemma_slippage_text(slippage_tolerance: Decimal, max_slippage_tolerance: Decimal)
    ensures
        (ContractError::MigrationSlippageToBig { slippage_tolerance, max_slippage_tolerance })
            .rendered() == "Provided slippage tolerance "@ + decimal_text(
            slippage_tolerance.atomics as nat,
        ) + " is more than the max allowed "@ + decimal_text(max_slippage_tolerance.atomics as nat),
        (slippage_tolerance.atomics as nat) % decimal_fractional() == 0 ==> decimal_text(
            slippage_tolerance.atomics as nat,
        ) == decimal_digits(((slippage_tolerance.atomics as nat) / decimal_fractional()) as nat),
        (max_slippage_tolerance.atomics as nat) % decimal_fractional() == 0 ==> decimal_text(
            max_slippage_tolerance.atomics as nat,
        ) == decimal_digits(((max_slippage_tolerance.atomics as nat) / decimal_fractional()) as nat),
        (slippage_tolerance.atomics as nat) % decimal_fractional() != 0 ==> reads_as_fraction(
            decimal_text(slippage_tolerance.atomics as nat).subrange(
                decimal_digits(((slippage_tolerance.atomics as nat) / decimal_fractional()) as nat).len() as int
                    + 1,
                decimal_text(slippage_tolerance.atomics as nat).len() as int,
            ),
            ((slippage_tolerance.atomics as nat) % decimal_fractional()) as nat,
        ),
        (max_slippage_tolerance.atomics as nat) % decimal_fractional() != 0 ==> reads_as_fraction(
            decimal_text(max_slippage_tolerance.atomics as nat).subrange(
                decimal_digits(((max_slippage_tolerance.atomics as nat) / decimal_fractional()) as nat).len() as int
                    + 1,
                decimal_text(max_slippage_tolerance.atomics as nat).len() as int,
            ),
            ((max_slippage_tolerance.atomics as nat) % decimal_fractional()) as nat,
        ),
{
    lemma_decimal_text_value(slippage_tolerance.atomics as nat);
    lemma_decimal_text_value(max_slippage_tolerance.atomics as nat);
}

impl From<StdError> for ContractError {
    fn from(e: StdError) -> (r: ContractError) {
        ContractError::Std(e)
    }
}

impl vstd::std_specs::convert::FromSpecImpl<StdError> for ContractError {
    open spec fn obeys_from_spec() -> bool {
        true
    }

    open spec fn from_spec(e: StdError) -> ContractError {
        ContractError::Std(e)
    }
}

impl From<OverflowError> for ContractError {
    fn from(e: OverflowError) -> (r: ContractError) {
        ContractError::OverflowError(e)
    }
}

impl vstd::std_specs::convert::FromSpecImpl<OverflowError> for ContractError {
    open spec fn obeys_from_spec() -> bool {
        true
    }

    open spec fn from_spec(e: OverflowError) -> ContractError {
        ContractError::OverflowError(e)
    }
}

} // verus!
