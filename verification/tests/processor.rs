use interchain_gas_paymaster::error::IgpError;
use interchain_gas_paymaster::igp::Igp;
use interchain_gas_paymaster::instruction::{
    GasOracleConfig, GasOverheadConfig, InitIgp, InitOverheadIgp, Instruction, PayForGas,
    QuoteGasPayment,
};
use interchain_gas_paymaster::oracle::GasOracle;
use interchain_gas_paymaster::overhead_igp::OverheadIgp;
use interchain_gas_paymaster::primitives::{Pubkey, H256};
use interchain_gas_paymaster::processor::Outcome;

fn owner() -> Pubkey {
    Pubkey::new([1u8; 32])
}

fn stranger() -> Pubkey {
    Pubkey::new([3u8; 32])
}

fn init_args() -> InitIgp {
    InitIgp { salt: H256::new([9u8; 32]), owner: Some(owner()), beneficiary: Pubkey::new([2u8; 32]) }
}

fn oracle_batch() -> Instruction {
    Instruction::SetGasOracleConfigs(vec![GasOracleConfig {
        domain: 42,
        gas_oracle: Some(GasOracle { token_exchange_rate: 10_000_000_000_000_000_000, gas_price: 1 }),
    }])
}

fn overhead_batch(overhead: u64) -> Instruction {
    Instruction::SetDestinationGasOverheads(vec![GasOverheadConfig {
        destination_domain: 42,
        gas_overhead: Some(overhead),
    }])
}

#[test]
fn instructions_drive_an_engine() {
    let mut igp = Igp::init(init_args());
    assert_eq!(igp.process(&owner(), &oracle_batch(), 0), Some(Ok(Outcome::Done)));
    assert_eq!(igp.process(&owner(), &overhead_batch(10_000), 0), Some(Ok(Outcome::Done)));
    let quote = Instruction::QuoteGasPayment(QuoteGasPayment {
        destination_domain: 42,
        gas_amount: 90_000,
    });
    assert_eq!(igp.process(&stranger(), &quote, 0), Some(Ok(Outcome::Quote(100_000))));
    let pay = Instruction::PayForGas(PayForGas {
        message_id: H256::new([1u8; 32]),
        destination_domain: 42,
        gas_amount: 90_000,
    });
    assert_eq!(igp.process(&stranger(), &pay, 99_999), Some(Err(IgpError::InsufficientPayment)));
    assert_eq!(igp.process(&stranger(), &pay, 100_000), Some(Ok(Outcome::Done)));
    assert_eq!(igp.balance(), 100_000);
    assert_eq!(igp.payment(&H256::new([1u8; 32]), 42), Some(90_000));
    assert_eq!(igp.process(&stranger(), &Instruction::Claim, 0), Some(Ok(Outcome::Claimed(100_000))));
    assert_eq!(igp.process(&stranger(), &Instruction::Claim, 0), Some(Ok(Outcome::Claimed(0))));
    assert_eq!(
        igp.process(&stranger(), &Instruction::SetIgpBeneficiary(stranger()), 0),
        Some(Err(IgpError::Unauthorized))
    );
    assert_eq!(
        igp.process(&owner(), &Instruction::SetIgpBeneficiary(stranger()), 0),
        Some(Ok(Outcome::Done))
    );
    assert_eq!(igp.beneficiary(), stranger());
    assert_eq!(
        igp.process(&owner(), &Instruction::TransferIgpOwnership(None), 0),
        Some(Ok(Outcome::Done))
    );
    assert_eq!(igp.process(&owner(), &oracle_batch(), 0), Some(Err(IgpError::Unauthorized)));
    assert_eq!(
        igp.process(&owner(), &Instruction::TransferIgpOwnership(Some(owner())), 0),
        Some(Err(IgpError::Unauthorized))
    );
}

#[test]
fn engine_ignores_instructions_for_others() {
    let mut igp = Igp::init(init_args());
    assert_eq!(igp.process(&owner(), &Instruction::Init, 0), None);
    assert_eq!(igp.process(&owner(), &Instruction::InitIgp(init_args()), 0), None);
    let wrapper_args = InitOverheadIgp {
        salt: H256::new([8u8; 32]),
        owner: None,
        inner: Pubkey::new([5u8; 32]),
    };
    assert_eq!(igp.process(&owner(), &Instruction::InitOverheadIgp(wrapper_args), 0), None);
    assert_eq!(igp.process(&owner(), &Instruction::TransferOverheadIgpOwnership(None), 0), None);
    assert_eq!(igp.owner(), Some(owner()));
    assert_eq!(igp.balance(), 0);
}

#[test]
fn instructions_drive_a_wrapper() {
    let mut igp = Igp::init(init_args());
    assert_eq!(igp.process(&owner(), &oracle_batch(), 0), Some(Ok(Outcome::Done)));
    assert_eq!(igp.process(&owner(), &overhead_batch(10_000), 0), Some(Ok(Outcome::Done)));
    let wrapper_owner = Pubkey::new([4u8; 32]);
    let mut wrapper = OverheadIgp::init(InitOverheadIgp {
        salt: H256::new([8u8; 32]),
        owner: Some(wrapper_owner),
        inner: Pubkey::new([5u8; 32]),
    });
    assert_eq!(
        wrapper.process(&mut igp, &owner(), &overhead_batch(20_000), 0),
        Some(Err(IgpError::Unauthorized))
    );
    assert_eq!(
        wrapper.process(&mut igp, &wrapper_owner, &overhead_batch(20_000), 0),
        Some(Ok(Outcome::Done))
    );
    assert_eq!(igp.gas_overhead(42), 10_000);
    let quote = Instruction::QuoteGasPayment(QuoteGasPayment {
        destination_domain: 42,
        gas_amount: 90_000,
    });
    assert_eq!(wrapper.process(&mut igp, &stranger(), &quote, 0), Some(Ok(Outcome::Quote(120_000))));
    let pay = Instruction::PayForGas(PayForGas {
        message_id: H256::new([1u8; 32]),
        destination_domain: 42,
        gas_amount: 90_000,
    });
    assert_eq!(wrapper.process(&mut igp, &stranger(), &pay, 120_000), Some(Ok(Outcome::Done)));
    assert_eq!(igp.balance(), 120_000);
    assert_eq!(igp.payment(&H256::new([1u8; 32]), 42), Some(110_000));
    assert_eq!(wrapper.process(&mut igp, &wrapper_owner, &Instruction::Claim, 0), None);
    assert_eq!(wrapper.process(&mut igp, &owner(), &oracle_batch(), 0), None);
    assert_eq!(
        wrapper.process(&mut igp, &owner(), &Instruction::TransferIgpOwnership(None), 0),
        None
    );
    assert_eq!(
        wrapper.process(&mut igp, &owner(), &Instruction::SetIgpBeneficiary(owner()), 0),
        None
    );
    assert_eq!(igp.owner(), Some(owner()));
    assert_eq!(igp.balance(), 120_000);
    assert_eq!(
        wrapper.process(&mut igp, &wrapper_owner, &Instruction::TransferOverheadIgpOwnership(None), 0),
        Some(Ok(Outcome::Done))
    );
    assert_eq!(wrapper.owner(), None);
    assert_eq!(igp.owner(), Some(owner()));
}
