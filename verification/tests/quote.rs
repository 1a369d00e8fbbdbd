use interchain_gas_paymaster::error::IgpError;
use interchain_gas_paymaster::igp::Igp;
use interchain_gas_paymaster::instruction::{GasOracleConfig, GasOverheadConfig, InitIgp};
use interchain_gas_paymaster::oracle::{compute_quote, GasOracle, TOKEN_EXCHANGE_RATE_SCALE};
use interchain_gas_paymaster::primitives::{Pubkey, H256};

fn owner() -> Pubkey {
    Pubkey::new([1u8; 32])
}

fn engine() -> Igp {
    Igp::init(InitIgp {
        salt: H256::new([9u8; 32]),
        owner: Some(owner()),
        beneficiary: Pubkey::new([2u8; 32]),
    })
}

fn unit_oracle() -> GasOracle {
    GasOracle { token_exchange_rate: 10_000_000_000_000_000_000, gas_price: 1 }
}

fn configured() -> Igp {
    let mut igp = engine();
    let oracles = vec![GasOracleConfig { domain: 42, gas_oracle: Some(unit_oracle()) }];
    assert_eq!(igp.set_oracles(&owner(), &oracles), Ok(()));
    let overheads = vec![GasOverheadConfig { destination_domain: 42, gas_overhead: Some(10_000) }];
    assert_eq!(igp.set_overheads(&owner(), &overheads), Ok(()));
    igp
}

#[test]
fn scale_is_ten_to_the_nineteenth() {
    assert_eq!(TOKEN_EXCHANGE_RATE_SCALE, 10u64.pow(19));
}

#[test]
fn quote_adds_overhead_before_pricing() {
    let igp = configured();
    assert_eq!(igp.quote(42, 90_000), Ok(100_000));
    assert_eq!(igp.quote(42, 5_000), Ok(15_000));
    assert_eq!(igp.quote(42, 0), Ok(10_000));
}

#[test]
fn quote_without_overhead_entry_uses_zero() {
    let mut igp = engine();
    let oracles = vec![GasOracleConfig { domain: 7, gas_oracle: Some(unit_oracle()) }];
    assert_eq!(igp.set_oracles(&owner(), &oracles), Ok(()));
    assert_eq!(igp.gas_overhead(7), 0);
    assert_eq!(igp.gas_overhead_entry(7), None);
    assert_eq!(igp.quote(7, 1234), Ok(1234));
}

#[test]
fn overhead_configured_as_none_is_zero_and_keeps_an_entry() {
    let mut igp = configured();
    let overheads = vec![GasOverheadConfig { destination_domain: 42, gas_overhead: None }];
    assert_eq!(igp.set_overheads(&owner(), &overheads), Ok(()));
    assert_eq!(igp.gas_overhead_entry(42), Some(None));
    assert_eq!(igp.gas_overhead(42), 0);
    assert_eq!(igp.quote(42, 90_000), Ok(90_000));
}

#[test]
fn quote_for_unconfigured_domain_is_unsupported() {
    let igp = configured();
    assert_eq!(igp.quote(43, 1), Err(IgpError::UnsupportedDomain));
    assert_eq!(engine().quote(42, 1), Err(IgpError::UnsupportedDomain));
}

#[test]
fn removing_the_oracle_makes_the_domain_unsupported() {
    let mut igp = configured();
    assert_eq!(igp.quote(42, 1), Ok(10_001));
    let removal = vec![GasOracleConfig { domain: 42, gas_oracle: None }];
    assert_eq!(igp.set_oracles(&owner(), &removal), Ok(()));
    assert_eq!(igp.gas_oracle(42), None);
    assert_eq!(igp.quote(42, 1), Err(IgpError::UnsupportedDomain));
}

#[test]
fn quote_is_repeatable_and_changes_nothing() {
    let igp = configured();
    let first = igp.quote(42, 77_777);
    let second = igp.quote(42, 77_777);
    assert_eq!(first, second);
    assert_eq!(first, Ok(87_777));
    assert_eq!(igp.balance(), 0);
}

#[test]
fn quote_is_monotonic_in_gas_amount() {
    let oracle = GasOracle { token_exchange_rate: 3_333_333_333_333_333_333, gas_price: 7 };
    let mut previous = 0u64;
    for gas in [0u64, 1, 2, 3, 10, 99, 100, 101, 5_000, 1_000_000] {
        let quote = compute_quote(&oracle, 13, gas).unwrap();
        assert!(quote >= previous);
        previous = quote;
    }
}

#[test]
fn quote_rounds_down() {
    // (10 + 0) * 1 * 0.3333333333333333333 = 3.33...
    let third = GasOracle { token_exchange_rate: 3_333_333_333_333_333_333, gas_price: 1 };
    assert_eq!(compute_quote(&third, 0, 10), Ok(3));
    // (2 + 1) * 1 * 0.5 = 1.5
    let half = GasOracle { token_exchange_rate: 5_000_000_000_000_000_000, gas_price: 1 };
    assert_eq!(compute_quote(&half, 1, 2), Ok(1));
    // just below one unit
    let almost = GasOracle { token_exchange_rate: 9_999_999_999_999_999_999, gas_price: 1 };
    assert_eq!(compute_quote(&almost, 0, 1), Ok(0));
    assert_eq!(compute_quote(&unit_oracle(), 0, 1), Ok(1));
}

#[test]
fn quote_multiplies_price_and_rate() {
    // (1_000 + 500) * 20 * 2.5 = 75_000
    let oracle = GasOracle { token_exchange_rate: 25_000_000_000_000_000_000, gas_price: 20 };
    assert_eq!(compute_quote(&oracle, 500, 1_000), Ok(75_000));
}

#[test]
fn quote_with_zero_price_or_rate_is_zero() {
    let free = GasOracle { token_exchange_rate: 10_000_000_000_000_000_000, gas_price: 0 };
    assert_eq!(compute_quote(&free, 10, u64::MAX - 10), Ok(0));
    let worthless = GasOracle { token_exchange_rate: 0, gas_price: u128::MAX };
    assert_eq!(compute_quote(&worthless, 0, 1), Ok(0));
}

#[test]
fn quote_overflows_when_gas_plus_overhead_exceeds_u64() {
    assert_eq!(compute_quote(&unit_oracle(), 1, u64::MAX), Err(IgpError::Overflow));
    assert_eq!(compute_quote(&unit_oracle(), 0, u64::MAX), Ok(u64::MAX));
}

#[test]
fn quote_overflows_when_destination_cost_exceeds_u128() {
    let oracle = GasOracle { token_exchange_rate: 0, gas_price: u128::MAX };
    assert_eq!(compute_quote(&oracle, 0, 2), Err(IgpError::Overflow));
    assert_eq!(compute_quote(&oracle, 0, 1), Ok(0));
}

#[test]
fn quote_overflows_when_payment_exceeds_u64() {
    let double = GasOracle { token_exchange_rate: 20_000_000_000_000_000_000, gas_price: 1 };
    assert_eq!(compute_quote(&double, 0, u64::MAX), Err(IgpError::Overflow));
    assert_eq!(compute_quote(&double, 0, u64::MAX / 2), Ok(u64::MAX - 1));
}

#[test]
fn quote_uses_a_wide_product() {
    // The product cost * rate needs more than 128 bits; the quotient fits.
    let oracle = GasOracle {
        token_exchange_rate: 10_000_000_000_000_000_000,
        gas_price: u128::MAX / (u64::MAX as u128),
    };
    let gas = 1_000u64;
    let cost = (gas as u128) * oracle.gas_price;
    assert!(cost.checked_mul(oracle.token_exchange_rate).is_none());
    assert_eq!(compute_quote(&oracle, 0, gas), Err(IgpError::Overflow));
    let modest = GasOracle { token_exchange_rate: u128::MAX, gas_price: 1 };
    // 3 * (2^128 - 1) / 10^19 = 102084710076281539039 > u64::MAX
    assert_eq!(compute_quote(&modest, 0, 3), Err(IgpError::Overflow));
    let rate = 1u128 << 100;
    let price = 1u128 << 40;
    let wide = GasOracle { token_exchange_rate: rate, gas_price: price };
    // 2^140 / 10^19 exceeds 64 bits
    assert_eq!(compute_quote(&wide, 0, 1), Err(IgpError::Overflow));
    let fitting = GasOracle { token_exchange_rate: 1u128 << 100, gas_price: 1u128 << 20 };
    // 2^120 / 10^19 = 132922799578491587
    assert_eq!(compute_quote(&fitting, 0, 1), Ok(132_922_799_578_491_587));
}
