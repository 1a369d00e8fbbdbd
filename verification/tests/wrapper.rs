use interchain_gas_paymaster::error::IgpError;
use interchain_gas_paymaster::igp::Igp;
use interchain_gas_paymaster::instruction::{
    GasOracleConfig, GasOverheadConfig, InitIgp, InitOverheadIgp,
};
use interchain_gas_paymaster::oracle::GasOracle;
use interchain_gas_paymaster::overhead_igp::OverheadIgp;
use interchain_gas_paymaster::primitives::{Pubkey, H256};

fn owner() -> Pubkey {
    Pubkey::new([1u8; 32])
}

fn wrapper_owner() -> Pubkey {
    Pubkey::new([4u8; 32])
}

fn engine_address() -> Pubkey {
    Pubkey::new([5u8; 32])
}

fn inner() -> Igp {
    let mut igp = Igp::init(InitIgp {
        salt: H256::new([9u8; 32]),
        owner: Some(owner()),
        beneficiary: Pubkey::new([2u8; 32]),
    });
    let oracles = vec![GasOracleConfig {
        domain: 42,
        gas_oracle: Some(GasOracle { token_exchange_rate: 10_000_000_000_000_000_000, gas_price: 1 }),
    }];
    assert_eq!(igp.set_oracles(&owner(), &oracles), Ok(()));
    let overheads = vec![GasOverheadConfig { destination_domain: 42, gas_overhead: Some(10_000) }];
    assert_eq!(igp.set_overheads(&owner(), &overheads), Ok(()));
    igp
}

fn wrapper() -> OverheadIgp {
    let mut wrapper = OverheadIgp::init(InitOverheadIgp {
        salt: H256::new([8u8; 32]),
        owner: Some(wrapper_owner()),
        inner: engine_address(),
    });
    let overheads = vec![GasOverheadConfig { destination_domain: 42, gas_overhead: Some(20_000) }];
    assert_eq!(wrapper.set_overheads(&wrapper_owner(), &overheads), Ok(()));
    wrapper
}

#[test]
fn fresh_wrapper_adds_nothing() {
    let wrapper = OverheadIgp::init(InitOverheadIgp {
        salt: H256::new([8u8; 32]),
        owner: None,
        inner: engine_address(),
    });
    assert_eq!(wrapper.salt(), H256::new([8u8; 32]));
    assert_eq!(wrapper.owner(), None);
    assert_eq!(wrapper.inner(), engine_address());
    assert_eq!(wrapper.gas_overhead(42), 0);
    assert_eq!(wrapper.quote(&inner(), 42, 90_000), Ok(100_000));
}

#[test]
fn wrapped_quote_adds_both_overheads() {
    let igp = inner();
    let wrapper = wrapper();
    assert_eq!(wrapper.gas_overhead(42), 20_000);
    assert_eq!(wrapper.quote(&igp, 42, 90_000), Ok(120_000));
    assert_eq!(igp.quote(42, 90_000), Ok(100_000));
    assert_eq!(wrapper.quote(&igp, 42, 90_000), igp.quote(42, 110_000));
}

#[test]
fn wrapped_pay_records_the_adjusted_gas_in_the_engine() {
    let mut igp = inner();
    let wrapper = wrapper();
    let m1 = H256::new([1u8; 32]);
    assert_eq!(wrapper.pay(&mut igp, &m1, 42, 90_000, 119_999), Err(IgpError::InsufficientPayment));
    assert_eq!(igp.balance(), 0);
    assert_eq!(igp.payment(&m1, 42), None);
    assert_eq!(wrapper.pay(&mut igp, &m1, 42, 90_000, 120_000), Ok(()));
    assert_eq!(igp.balance(), 120_000);
    assert_eq!(igp.payment(&m1, 42), Some(110_000));
    assert_eq!(igp.pay(&m1, 42, 1_000, 11_000), Ok(()));
    assert_eq!(igp.payment(&m1, 42), Some(111_000));
    assert_eq!(igp.balance(), 131_000);
}

#[test]
fn wrapped_operations_on_unsupported_domain_are_refused() {
    let mut igp = inner();
    let wrapper = wrapper();
    assert_eq!(wrapper.quote(&igp, 43, 1), Err(IgpError::UnsupportedDomain));
    assert_eq!(wrapper.quote(&igp, 43, u64::MAX), Err(IgpError::UnsupportedDomain));
    assert_eq!(
        wrapper.pay(&mut igp, &H256::new([1u8; 32]), 43, 1, u64::MAX),
        Err(IgpError::UnsupportedDomain)
    );
    assert_eq!(igp.balance(), 0);
}

#[test]
fn wrapped_quote_overflows_when_adjusted_gas_exceeds_u64() {
    let mut igp = inner();
    let wrapper = wrapper();
    assert_eq!(wrapper.quote(&igp, 42, u64::MAX - 19_999), Err(IgpError::Overflow));
    assert_eq!(wrapper.quote(&igp, 42, u64::MAX - 20_000), Err(IgpError::Overflow));
    assert_eq!(wrapper.quote(&igp, 42, u64::MAX - 30_000), Ok(u64::MAX));
    assert_eq!(
        wrapper.pay(&mut igp, &H256::new([1u8; 32]), 42, u64::MAX, u64::MAX),
        Err(IgpError::Overflow)
    );
    assert_eq!(igp.balance(), 0);
}

#[test]
fn wrapper_and_engine_have_separate_owners() {
    let mut igp = inner();
    let mut wrapper = wrapper();
    let batch = vec![GasOverheadConfig { destination_domain: 42, gas_overhead: Some(1) }];
    assert_eq!(wrapper.set_overheads(&owner(), &batch), Err(IgpError::Unauthorized));
    assert_eq!(igp.set_overheads(&wrapper_owner(), &batch), Err(IgpError::Unauthorized));
    assert_eq!(wrapper.gas_overhead(42), 20_000);
    assert_eq!(igp.gas_overhead(42), 10_000);
    assert_eq!(wrapper.transfer_ownership(&owner(), None), Err(IgpError::Unauthorized));
    assert_eq!(wrapper.transfer_ownership(&wrapper_owner(), Some(owner())), Ok(()));
    assert!(wrapper.is_owner(&owner()));
    assert_eq!(igp.owner(), Some(owner()));
    assert_eq!(igp.transfer_ownership(&owner(), None), Ok(()));
    assert_eq!(wrapper.owner(), Some(owner()));
    assert_eq!(wrapper.set_overheads(&owner(), &batch), Ok(()));
    assert_eq!(wrapper.quote(&igp, 42, 90_000), Ok(100_001));
}

#[test]
fn wrapper_without_owner_is_frozen() {
    let mut wrapper = wrapper();
    assert_eq!(wrapper.transfer_ownership(&wrapper_owner(), None), Ok(()));
    let batch = vec![GasOverheadConfig { destination_domain: 42, gas_overhead: None }];
    assert_eq!(wrapper.set_overheads(&wrapper_owner(), &batch), Err(IgpError::Unauthorized));
    assert_eq!(
        wrapper.transfer_ownership(&wrapper_owner(), Some(wrapper_owner())),
        Err(IgpError::Unauthorized)
    );
    assert_eq!(wrapper.gas_overhead(42), 20_000);
}

#[test]
fn wrapper_batch_with_repeated_domain_is_refused() {
    let mut wrapper = wrapper();
    let batch = vec![
        GasOverheadConfig { destination_domain: 1, gas_overhead: Some(1) },
        GasOverheadConfig { destination_domain: 42, gas_overhead: Some(2) },
        GasOverheadConfig { destination_domain: 1, gas_overhead: Some(3) },
    ];
    assert_eq!(wrapper.set_overheads(&wrapper_owner(), &batch), Err(IgpError::InvalidConfiguration));
    assert_eq!(wrapper.gas_overhead(42), 20_000);
    assert_eq!(wrapper.gas_overhead(1), 0);
}
