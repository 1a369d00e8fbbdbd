use interchain_gas_paymaster::batch::{all_distinct, oracle_batch_valid, overhead_batch_valid};
use interchain_gas_paymaster::error::IgpError;
use interchain_gas_paymaster::igp::{ClaimPolicy, Igp};
use interchain_gas_paymaster::instruction::{GasOracleConfig, GasOverheadConfig, InitIgp};
use interchain_gas_paymaster::oracle::GasOracle;
use interchain_gas_paymaster::primitives::{bytes32_eq, Pubkey, H256};
use interchain_gas_paymaster::registry::DomainMap;

fn owner() -> Pubkey {
    Pubkey::new([1u8; 32])
}

fn beneficiary() -> Pubkey {
    Pubkey::new([2u8; 32])
}

fn stranger() -> Pubkey {
    Pubkey::new([3u8; 32])
}

fn oracle(price: u128) -> GasOracle {
    GasOracle { token_exchange_rate: 10_000_000_000_000_000_000, gas_price: price }
}

fn engine() -> Igp {
    Igp::init(InitIgp {
        salt: H256::new([9u8; 32]),
        owner: Some(owner()),
        beneficiary: beneficiary(),
    })
}

#[test]
fn only_the_owner_configures_oracles() {
    let mut igp = engine();
    let batch = vec![GasOracleConfig { domain: 42, gas_oracle: Some(oracle(1)) }];
    assert_eq!(igp.set_oracles(&stranger(), &batch), Err(IgpError::Unauthorized));
    assert_eq!(igp.set_oracles(&beneficiary(), &batch), Err(IgpError::Unauthorized));
    assert_eq!(igp.gas_oracle(42), None);
    assert_eq!(igp.set_oracles(&owner(), &batch), Ok(()));
    assert_eq!(igp.gas_oracle(42), Some(oracle(1)));
}

#[test]
fn only_the_owner_configures_overheads() {
    let mut igp = engine();
    let batch = vec![GasOverheadConfig { destination_domain: 42, gas_overhead: Some(5) }];
    assert_eq!(igp.set_overheads(&stranger(), &batch), Err(IgpError::Unauthorized));
    assert_eq!(igp.gas_overhead_entry(42), None);
    assert_eq!(igp.set_overheads(&owner(), &batch), Ok(()));
    assert_eq!(igp.gas_overhead_entry(42), Some(Some(5)));
    assert_eq!(igp.gas_overhead(42), 5);
}

#[test]
fn oracle_batch_inserts_replaces_and_removes() {
    let mut igp = engine();
    let first = vec![
        GasOracleConfig { domain: 1, gas_oracle: Some(oracle(1)) },
        GasOracleConfig { domain: 2, gas_oracle: Some(oracle(2)) },
        GasOracleConfig { domain: 3, gas_oracle: Some(oracle(3)) },
    ];
    assert_eq!(igp.set_oracles(&owner(), &first), Ok(()));
    let second = vec![
        GasOracleConfig { domain: 2, gas_oracle: None },
        GasOracleConfig { domain: 3, gas_oracle: Some(oracle(30)) },
        GasOracleConfig { domain: 4, gas_oracle: Some(oracle(4)) },
        GasOracleConfig { domain: 5, gas_oracle: None },
    ];
    assert_eq!(igp.set_oracles(&owner(), &second), Ok(()));
    assert_eq!(igp.gas_oracle(1), Some(oracle(1)));
    assert_eq!(igp.gas_oracle(2), None);
    assert_eq!(igp.gas_oracle(3), Some(oracle(30)));
    assert_eq!(igp.gas_oracle(4), Some(oracle(4)));
    assert_eq!(igp.gas_oracle(5), None);
}

#[test]
fn batch_with_a_repeated_domain_is_refused_whole() {
    let mut igp = engine();
    let oracles = vec![
        GasOracleConfig { domain: 1, gas_oracle: Some(oracle(1)) },
        GasOracleConfig { domain: 2, gas_oracle: Some(oracle(2)) },
        GasOracleConfig { domain: 1, gas_oracle: None },
    ];
    assert_eq!(igp.set_oracles(&owner(), &oracles), Err(IgpError::InvalidConfiguration));
    assert_eq!(igp.gas_oracle(1), None);
    assert_eq!(igp.gas_oracle(2), None);
    let overheads = vec![
        GasOverheadConfig { destination_domain: 7, gas_overhead: Some(1) },
        GasOverheadConfig { destination_domain: 7, gas_overhead: Some(1) },
    ];
    assert_eq!(igp.set_overheads(&owner(), &overheads), Err(IgpError::InvalidConfiguration));
    assert_eq!(igp.gas_overhead_entry(7), None);
}

#[test]
fn authorization_is_checked_before_the_batch() {
    let mut igp = engine();
    let oracles = vec![
        GasOracleConfig { domain: 1, gas_oracle: None },
        GasOracleConfig { domain: 1, gas_oracle: None },
    ];
    assert_eq!(igp.set_oracles(&stranger(), &oracles), Err(IgpError::Unauthorized));
}

#[test]
fn empty_batch_changes_nothing() {
    let mut igp = engine();
    assert_eq!(igp.set_oracles(&owner(), &Vec::new()), Ok(()));
    assert_eq!(igp.set_overheads(&owner(), &Vec::new()), Ok(()));
    assert_eq!(igp.gas_oracle(0), None);
}

#[test]
fn batch_validity_is_distinctness_of_domains() {
    assert!(all_distinct(&vec![]));
    assert!(all_distinct(&vec![5]));
    assert!(all_distinct(&vec![1, 2, 3, 4]));
    assert!(!all_distinct(&vec![1, 2, 3, 1]));
    assert!(!all_distinct(&vec![9, 9]));
    assert!(!all_distinct(&vec![1, 2, 2, 3]));
    assert!(oracle_batch_valid(&vec![
        GasOracleConfig { domain: 1, gas_oracle: None },
        GasOracleConfig { domain: 2, gas_oracle: None },
    ]));
    assert!(!oracle_batch_valid(&vec![
        GasOracleConfig { domain: 2, gas_oracle: Some(oracle(1)) },
        GasOracleConfig { domain: 2, gas_oracle: None },
    ]));
    assert!(overhead_batch_valid(&vec![GasOverheadConfig {
        destination_domain: 1,
        gas_overhead: None
    }]));
    assert!(!overhead_batch_valid(&vec![
        GasOverheadConfig { destination_domain: 1, gas_overhead: None },
        GasOverheadConfig { destination_domain: 3, gas_overhead: None },
        GasOverheadConfig { destination_domain: 3, gas_overhead: Some(2) },
    ]));
}

#[test]
fn set_beneficiary_is_owner_only() {
    let mut igp = engine();
    assert_eq!(igp.set_beneficiary(&stranger(), stranger()), Err(IgpError::Unauthorized));
    assert_eq!(igp.set_beneficiary(&beneficiary(), stranger()), Err(IgpError::Unauthorized));
    assert_eq!(igp.beneficiary(), beneficiary());
    assert_eq!(igp.set_beneficiary(&owner(), stranger()), Ok(()));
    assert_eq!(igp.beneficiary(), stranger());
    assert_eq!(igp.owner(), Some(owner()));
}

#[test]
fn ownership_moves_to_the_new_owner() {
    let mut igp = engine();
    assert_eq!(igp.transfer_ownership(&stranger(), Some(stranger())), Err(IgpError::Unauthorized));
    assert_eq!(igp.owner(), Some(owner()));
    assert_eq!(igp.transfer_ownership(&owner(), Some(stranger())), Ok(()));
    assert_eq!(igp.owner(), Some(stranger()));
    assert!(igp.is_owner(&stranger()));
    assert!(!igp.is_owner(&owner()));
    assert_eq!(igp.set_beneficiary(&owner(), owner()), Err(IgpError::Unauthorized));
    assert_eq!(igp.set_beneficiary(&stranger(), owner()), Ok(()));
}

#[test]
fn renounced_ownership_cannot_be_regained() {
    let mut igp = Igp::init_with_policy(
        InitIgp { salt: H256::new([9u8; 32]), owner: Some(owner()), beneficiary: beneficiary() },
        ClaimPolicy::OwnerOnly,
    );
    assert_eq!(igp.transfer_ownership(&owner(), None), Ok(()));
    assert_eq!(igp.owner(), None);
    let oracles = vec![GasOracleConfig { domain: 42, gas_oracle: Some(oracle(1)) }];
    let overheads = vec![GasOverheadConfig { destination_domain: 42, gas_overhead: Some(1) }];
    for caller in [owner(), beneficiary(), stranger(), Pubkey::new([0u8; 32])] {
        assert!(!igp.is_owner(&caller));
        assert_eq!(igp.transfer_ownership(&caller, Some(caller)), Err(IgpError::Unauthorized));
        assert_eq!(igp.transfer_ownership(&caller, None), Err(IgpError::Unauthorized));
        assert_eq!(igp.set_beneficiary(&caller, caller), Err(IgpError::Unauthorized));
        assert_eq!(igp.set_oracles(&caller, &oracles), Err(IgpError::Unauthorized));
        assert_eq!(igp.set_overheads(&caller, &overheads), Err(IgpError::Unauthorized));
        assert_eq!(igp.claim(&caller), Err(IgpError::Unauthorized));
    }
    assert_eq!(igp.owner(), None);
    assert_eq!(igp.beneficiary(), beneficiary());
}

#[test]
fn instance_created_without_owner_has_no_administration() {
    let mut igp = Igp::init(InitIgp {
        salt: H256::new([9u8; 32]),
        owner: None,
        beneficiary: beneficiary(),
    });
    assert_eq!(igp.set_beneficiary(&beneficiary(), owner()), Err(IgpError::Unauthorized));
    assert_eq!(igp.claim(&stranger()), Ok(0));
}

#[test]
fn identities_compare_by_bytes() {
    let mut bytes = [7u8; 32];
    let a = Pubkey::new(bytes);
    bytes[0] = 8;
    let b = Pubkey::new(bytes);
    assert!(a.same_as(&a));
    assert!(!a.same_as(&b));
    assert_eq!(b.to_bytes()[0], 8);
    assert!(bytes32_eq(&[1u8; 32], &[1u8; 32]));
    assert!(!bytes32_eq(&[1u8; 32], &[2u8; 32]));
    let mut late = [1u8; 32];
    late[31] = 0;
    assert!(!bytes32_eq(&[1u8; 32], &late));
}

#[test]
fn domain_map_behaves_as_a_map() {
    let mut map: DomainMap<u64> = DomainMap::new();
    assert_eq!(map.get(1), None);
    assert!(!map.contains(1));
    map.insert(1, 10);
    map.insert(2, 20);
    map.insert(3, 30);
    map.insert(2, 21);
    assert_eq!(map.get(1), Some(&10));
    assert_eq!(map.get(2), Some(&21));
    assert_eq!(map.get(3), Some(&30));
    map.remove(1);
    assert_eq!(map.get(1), None);
    assert_eq!(map.get(2), Some(&21));
    assert_eq!(map.get(3), Some(&30));
    map.remove(1);
    map.remove(99);
    assert!(map.contains(2));
    map.insert(1, 11);
    assert_eq!(map.get(1), Some(&11));
    map.remove(3);
    map.remove(2);
    map.remove(1);
    assert!(!map.contains(1) && !map.contains(2) && !map.contains(3));
}
