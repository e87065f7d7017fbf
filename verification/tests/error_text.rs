use cosmwasm_std::{OverflowError, OverflowOperation, StdError};
use neutron_lockdrop_vault::error::{ContractError, Decimal};
use neutron_lockdrop_vault::text::u128_to_decimal;

#[test]
fn renders_zero_and_small_numbers() {
    assert_eq!(u128_to_decimal(0), "0");
    assert_eq!(u128_to_decimal(7), "7");
    assert_eq!(u128_to_decimal(10), "10");
    assert_eq!(u128_to_decimal(10000), "10000");
}

#[test]
fn renders_the_largest_number() {
    assert_eq!(u128_to_decimal(u128::MAX), u128::MAX.to_string());
    assert_eq!(u128_to_decimal(u128::MAX), "340282366920938463463374607431768211455");
}

#[test]
fn distinct_numbers_render_distinctly() {
    assert_ne!(u128_to_decimal(1), u128_to_decimal(10));
    assert_ne!(u128_to_decimal(100), u128_to_decimal(10));
}

#[test]
fn unit_errors_render_their_fixed_text() {
    assert_eq!(ContractError::Unauthorized {}.message(), "Unauthorized");
    assert_eq!(ContractError::NoFundsToDistribute {}.message(), "No funds to distribute");
    assert_eq!(
        ContractError::InvalidDistributionRate {}.message(),
        "distribution_rate must be between 0 and 1"
    );
    assert_eq!(
        ContractError::InvalidVestingDenominator {}.message(),
        "vesting_denominator must be greater than zero"
    );
    assert_eq!(ContractError::InvalidMinPeriod {}.message(), "min_period must be greater than zero");
    assert_eq!(ContractError::TooSoonToDistribute {}.message(), "Too soon to distribute");
    assert_eq!(
        ContractError::NoBurnedCoins {}.message(),
        "no coins were burned, nothing to distribute"
    );
    assert_eq!(
        ContractError::MigrationComplete {}.message(),
        "Migration from xyk pairs to CL ones is complete: nothing to migrate"
    );
}

#[test]
fn unknown_reply_id_names_the_id() {
    assert_eq!(ContractError::UnkownReplyID { reply_id: 42 }.message(), "Unknown reply ID 42");
    assert_eq!(ContractError::UnkownReplyID { reply_id: 0 }.message(), "Unknown reply ID 0");
    assert_eq!(
        ContractError::UnkownReplyID { reply_id: u64::MAX }.message(),
        "Unknown reply ID 18446744073709551615"
    );
}

#[test]
fn balances_mismatch_names_denom_and_balances() {
    let e = ContractError::MigrationBalancesMismatch {
        denom: "untrn".to_string(),
        initial_balance: 1000,
        final_balance: 999,
    };
    assert_eq!(
        e.message(),
        "untrn balance 999 after liquidity withdrawal and providing doesn't match the initial one 1000"
    );
}

#[test]
fn amount_unavailable_names_both_amounts() {
    let e = ContractError::MigrationAmountUnavailable { amount: 500, max_amount: 120 };
    assert_eq!(
        e.message(),
        "Amount to be migrated is greater that the max available amount: 500 > 120"
    );
}

#[test]
fn slippage_renders_decimals() {
    // 0.05 and 0.1
    let e = ContractError::MigrationSlippageToBig {
        slippage_tolerance: Decimal { atomics: 50_000_000_000_000_000 },
        max_slippage_tolerance: Decimal { atomics: 100_000_000_000_000_000 },
    };
    assert_eq!(
        e.message(),
        "Provided slippage tolerance 0.05 is more than the max allowed 0.1"
    );
}

#[test]
fn slippage_renders_whole_and_tiny_decimals() {
    // 2 and 0.000000000000000001
    let e = ContractError::MigrationSlippageToBig {
        slippage_tolerance: Decimal { atomics: 2_000_000_000_000_000_000 },
        max_slippage_tolerance: Decimal { atomics: 1 },
    };
    assert_eq!(
        e.message(),
        "Provided slippage tolerance 2 is more than the max allowed 0.000000000000000001"
    );
    // 123.45 and 0
    let e = ContractError::MigrationSlippageToBig {
        slippage_tolerance: Decimal { atomics: 123_450_000_000_000_000_000 },
        max_slippage_tolerance: Decimal { atomics: 0 },
    };
    assert_eq!(e.message(), "Provided slippage tolerance 123.45 is more than the max allowed 0");
}

#[test]
fn pause_error_renders_its_own_text() {
    let e = ContractError::PauseError("Contract execution is paused".to_string());
    assert_eq!(e.message(), "Contract execution is paused");
}

#[test]
fn std_error_is_transparent() {
    let e: ContractError = StdError::generic_err("boom").into();
    assert_eq!(e, ContractError::Std(StdError::generic_err("boom")));
    assert_eq!(e.message(), "Generic error: boom");
}

#[test]
fn overflow_error_renders_overflow() {
    let e: ContractError = OverflowError::new(OverflowOperation::Add, 1u8, 2u8).into();
    assert_eq!(e, ContractError::OverflowError(OverflowError::new(OverflowOperation::Add, 1u8, 2u8)));
    assert_eq!(e.message(), "Overflow");
}
