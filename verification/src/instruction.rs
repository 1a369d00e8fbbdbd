//! The operations that a caller can issue, with their arguments.

use vstd::prelude::*;
use crate::oracle::GasOracle;
use crate::primitives::{H256, Pubkey};

verus! {

/// One operation of the engine or of an overhead wrapper.
#[derive(Debug, PartialEq)]
pub enum Instruction {
    /// Sets up the hosting program.
    Init,
    /// Creates an engine instance.
    InitIgp(InitIgp),
    /// Creates an overhead wrapper.
    InitOverheadIgp(InitOverheadIgp),
    /// Pays for gas.
    PayForGas(PayForGas),
    /// Asks for the payment that a gas amount requires.
    QuoteGasPayment(QuoteGasPayment),
    /// Hands an engine instance to a new owner, or to none.
    TransferIgpOwnership(Option<Pubkey>),
    /// Hands an overhead wrapper to a new owner, or to none.
    TransferOverheadIgpOwnership(Option<Pubkey>),
    /// Names the account that receives claimed funds.
    SetIgpBeneficiary(Pubkey),
    /// Configures gas overheads, domain by domain.
    SetDestinationGasOverheads(Vec<GasOverheadConfig>),
    /// Configures gas oracles, domain by domain.
    SetGasOracleConfigs(Vec<GasOracleConfig>),
    /// Moves the accumulated balance to the beneficiary.
    Claim,
}

/// What creating an engine instance takes.
#[derive(Clone, Copy, Debug, PartialEq)]
pub struct InitIgp {
    pub salt: H256,
    pub owner: Option<Pubkey>,
    pub beneficiary: Pubkey,
}

/// What creating an overhead wrapper takes.
#[derive(Clone, Copy, Debug, PartialEq)]
pub struct InitOverheadIgp {
    pub salt: H256,
    pub owner: Option<Pubkey>,
    pub inner: Pubkey,
}

/// A payment for the delivery of one message.
#[derive(Clone, Copy, Debug, PartialEq)]
pub struct PayForGas {
    pub message_id: H256,
    pub destination_domain: u32,
    pub gas_amount: u64,
}

/// A request for a quote.
#[derive(Clone, Copy, Debug, PartialEq)]
pub struct QuoteGasPayment {
    pub destination_domain: u32,
    pub gas_amount: u64,
}

/// The gas overhead to configure for one domain. `None` configures the
/// domain as having no overhead.
#[derive(Clone, Copy, Debug, PartialEq)]
pub struct GasOverheadConfig {
    pub destination_domain: u32,
    pub gas_overhead: Option<u64>,
}

/// The gas oracle to configure for one domain. `None` removes the domain's
/// oracle, after which the domain is unsupported.
#[derive(Clone, Copy, Debug, PartialEq)]
pub struct GasOracleConfig {
    pub domain: u32,
    pub gas_oracle: Option<GasOracle>,
}

} // verus!
