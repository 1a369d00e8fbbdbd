//! The engine instance: registries, payment ledger, balance and roles.

use vstd::prelude::*;
use crate::batch::{
    apply_oracle_configs, apply_overhead_configs, lookup_overhead, oracle_batch_valid,
    oracle_domains, overhead_batch_valid, overhead_domains, overhead_of, with_oracle_configs,
    with_overhead_configs,
};
use crate::error::IgpError;
use crate::instruction::{GasOracleConfig, GasOverheadConfig, InitIgp};
use crate::ledger::{credited, paid_gas, PaymentLedger};
use crate::oracle::{compute_quote, quote_amount, GasOracle};
use crate::primitives::{opt_view, H256, Pubkey};
use crate::registry::DomainMap;

verus! {

/// Who may trigger a claim. Funds go to the beneficiary either way.
#[derive(Clone, Copy, Debug, PartialEq, Eq, Structural)]
pub enum ClaimPolicy {
    /// Any caller may trigger a claim.
    Anyone,
    /// Only the owner may trigger a claim.
    OwnerOnly,
}

/// The mathematical state of an engine instance.
pub struct IgpState {
    /// The tag the instance was created with. It never changes.
    pub salt: Seq<u8>,
    /// The owner, if the instance has one.
    pub owner: Option<Seq<u8>>,
    /// The account that receives claimed funds.
    pub beneficiary: Seq<u8>,
    /// The accumulated, unclaimed payments.
    pub balance: u64,
    /// Who may trigger a claim. It never changes.
    pub claim_policy: ClaimPolicy,
    /// The gas oracle of each supported domain.
    pub gas_oracles: Map<u32, GasOracle>,
    /// The configured overhead of each domain that has an entry.
    pub gas_overheads: Map<u32, Option<u64>>,
    /// The cumulative gas paid for, by message and domain.
    pub payments: Map<(Seq<u8>, u32), u64>,
}

impl IgpState {
    /// The state of a fresh instance: nothing configured, nothing paid.
    pub open spec fn initial(
        salt: Seq<u8>,
        owner: Option<Seq<u8>>,
        beneficiary: Seq<u8>,
        claim_policy: ClaimPolicy,
    ) -> IgpState {
        IgpState {
            salt,
            owner,
            beneficiary,
            balance: 0,
            claim_policy,
            gas_oracles: Map::empty(),
            gas_overheads: Map::empty(),
            payments: Map::empty(),
        }
    }

    /// Whether `caller` is the owner. Without an owner, nobody is.
    pub open spec fn is_owner(self, caller: Seq<u8>) -> bool {
        self.owner == Some(caller)
    }

    /// The gas recorded for a message and a domain.
    pub open spec fn paid(self, message_id: Seq<u8>, domain: u32) -> nat {
        paid_gas(self.payments, message_id, domain)
    }

    /// The payment required for `gas_amount` units of gas on `domain`.
    pub open spec fn quote(self, domain: u32, gas_amount: u64) -> Result<u64, IgpError> {
        if !self.gas_oracles.contains_key(domain) {
            Err(IgpError::UnsupportedDomain)
        } else {
            quote_amount(
                self.gas_oracles[domain],
                overhead_of(self.gas_overheads, domain),
                gas_amount,
            )
        }
    }

    /// The state after a payment, or why the payment is refused.
    pub open spec fn pay(
        self,
        message_id: Seq<u8>,
        domain: u32,
        gas_amount: u64,
        attached_amount: u64,
    ) -> Result<IgpState, IgpError> {
        match self.quote(domain, gas_amount) {
            Err(e) => Err(e),
            Ok(required) => if attached_amount < required {
                Err(IgpError::InsufficientPayment)
            } else if self.balance + attached_amount > u64::MAX {
                Err(IgpError::Overflow)
            } else if self.paid(message_id, domain) + gas_amount > u64::MAX {
                Err(IgpError::Overflow)
            } else {
                Ok(
                    IgpState {
                        balance: (self.balance + attached_amount) as u64,
                        payments: credited(self.payments, message_id, domain, gas_amount),
                        ..self
                    },
                )
            },
        }
    }

    /// Whether `caller` may trigger a claim.
    pub open spec fn may_claim(self, caller: Seq<u8>) -> bool {
        self.claim_policy == ClaimPolicy::Anyone || self.is_owner(caller)
    }

    /// The state after a claim and the amount that goes to the beneficiary,
    /// or why the claim is refused.
    pub open spec fn claim(self, caller: Seq<u8>) -> Result<(IgpState, u64), IgpError> {
        if !self.may_claim(caller) {
            Err(IgpError::Unauthorized)
        } else {
            Ok((IgpState { balance: 0, ..self }, self.balance))
        }
    }

    /// The state after the owner hands the instance on, or why not.
    pub open spec fn transfer_ownership(
        self,
        caller: Seq<u8>,
        new_owner: Option<Seq<u8>>,
    ) -> Result<IgpState, IgpError> {
        if !self.is_owner(caller) {
            Err(IgpError::Unauthorized)
        } else {
            Ok(IgpState { owner: new_owner, ..self })
        }
    }

    /// The state after the owner names a beneficiary, or why not.
    pub open spec fn set_beneficiary(self, caller: Seq<u8>, beneficiary: Seq<u8>) -> Result<
        IgpState,
        IgpError,
    > {
        if !self.is_owner(caller) {
            Err(IgpError::Unauthorized)
        } else {
            Ok(IgpState { beneficiary, ..self })
        }
    }

    /// The state after the owner applies a batch of oracle settings, or why
    /// the batch is refused.
    pub open spec fn set_oracles(self, caller: Seq<u8>, configs: Seq<GasOracleConfig>) -> Result<
        IgpState,
        IgpError,
    > {
        if !self.is_owner(caller) {
            Err(IgpError::Unauthorized)
        } else if !oracle_domains(configs).no_duplicates() {
            Err(IgpError::InvalidConfiguration)
        } else {
            Ok(IgpState { gas_oracles: with_oracle_configs(self.gas_oracles, configs), ..self })
        }
    }

    /// The state after the owner applies a batch of overhead settings, or
    /// why the batch is refused.
    pub open spec fn set_overheads(
        self,
        caller: Seq<u8>,
        configs: Seq<GasOverheadConfig>,
    ) -> Result<IgpState, IgpError> {
        if !self.is_owner(caller) {
            Err(IgpError::Unauthorized)
        } else if !overhead_domains(configs).no_duplicates() {
            Err(IgpError::InvalidConfiguration)
        } else {
            Ok(
                IgpState {
                    gas_overheads: with_overhead_configs(self.gas_overheads, configs),
                    ..self
                },
            )
        }
    }
}

/// An engine instance.
pub struct Igp {
    salt: H256,
    owner: Option<Pubkey>,
    beneficiary: Pubkey,
    balance: u64,
    claim_policy: ClaimPolicy,
    gas_oracles: DomainMap<GasOracle>,
    gas_overheads: DomainMap<Option<u64>>,
    payments: PaymentLedger,
}

impl View for Igp {
    type V = IgpState;

    closed spec fn view(&self) -> IgpState {
        IgpState {
            salt: self.salt@,
            owner: opt_view(self.owner),
            beneficiary: self.beneficiary@,
            balance: self.balance,
            claim_policy: self.claim_policy,
            gas_oracles: self.gas_oracles@,
            gas_overheads: self.gas_overheads@,
            payments: self.payments@,
        }
    }
}

impl Igp {
    /// The registries and the ledger hold no key twice.
    pub closed spec fn wf(self) -> bool {
        self.gas_oracles.wf() && self.gas_overheads.wf() && self.payments.wf()
    }

    /// Creates an instance that any caller may claim from.
    pub fn init(args: InitIgp) -> (igp: Igp)
        ensures
            igp.wf(),
            igp@ == IgpState::initial(
                args.salt@,
                opt_view(args.owner),
                args.beneficiary@,
                ClaimPolicy::Anyone,
            ),
    {
        Igp::init_with_policy(args, ClaimPolicy::Anyone)
    }

    /// Creates an instance with the given claim policy.
    pub fn init_with_policy(args: InitIgp, claim_policy: ClaimPolicy) -> (igp: Igp)
        ensures
            igp.wf(),
            igp@ == IgpState::initial(
                args.salt@,
                opt_view(args.owner),
                args.beneficiary@,
                claim_policy,
            ),
    {
        Igp {
            salt: args.salt,
            owner: args.owner,
            beneficiary: args.beneficiary,
            balance: 0,
            claim_policy,
            gas_oracles: DomainMap::new(),
            gas_overheads: DomainMap::new(),
            payments: PaymentLedger::new(),
        }
    }

    /// The tag the instance was created with.
    pub fn salt(&self) -> (salt: H256)
        ensures
            salt@ == self@.salt,
    {
        self.salt
    }

    /// The owner, if there is one.
    pub fn owner(&self) -> (owner: Option<Pubkey>)
        ensures
            opt_view(owner) == self@.owner,
    {
        self.owner
    }

    /// The account that receives claimed funds.
    pub fn beneficiary(&self) -> (beneficiary: Pubkey)
        ensures
            beneficiary@ == self@.beneficiary,
    {
        self.beneficiary
    }

    /// The accumulated, unclaimed payments.
    pub fn balance(&self) -> (balance: u64)
        ensures
            balance == self@.balance,
    {
        self.balance
    }

    /// Who may trigger a claim.
    pub fn claim_policy(&self) -> (policy: ClaimPolicy)
        ensures
            policy == self@.claim_policy,
    {
        self.claim_policy
    }

    /// The gas oracle configured for `domain`, if the domain is supported.
    pub fn gas_oracle(&self, domain: u32) -> (oracle: Option<GasOracle>)
        requires
            self.wf(),
        ensures
            match oracle {
                Some(o) => self@.gas_oracles.contains_key(domain) && self@.gas_oracles[domain]
                    == o,
                None => !self@.gas_oracles.contains_key(domain),
            },
    {
        match self.gas_oracles.get(domain) {
            Some(oracle) => Some(*oracle),
            None => None,
        }
    }

    /// The overhead that is added to gas amounts for `domain`.
    pub fn gas_overhead(&self, domain: u32) -> (overhead: u64)
        requires
            self.wf(),
        ensures
            overhead == overhead_of(self@.gas_overheads, domain),
    {
        lookup_overhead(&self.gas_overheads, domain)
    }

    /// The overhead entry of `domain`: `None` where the domain has no entry,
    /// `Some(None)` where it is configured as having no overhead.
    pub fn gas_overhead_entry(&self, domain: u32) -> (entry: Option<Option<u64>>)
        requires
            self.wf(),
        ensures
            match entry {
                Some(e) => self@.gas_overheads.contains_key(domain) && self@.gas_overheads[domain]
                    == e,
                None => !self@.gas_overheads.contains_key(domain),
            },
    {
        match self.gas_overheads.get(domain) {
            Some(entry) => Some(*entry),
            None => None,
        }
    }

    /// The cumulative gas paid for a message to a domain, if any was paid.
    pub fn payment(&self, message_id: &H256, domain: u32) -> (paid: Option<u64>)
        requires
            self.wf(),
        ensures
            match paid {
                Some(gas) => self@.payments.contains_key((message_id@, domain))
                    && self@.payments[(message_id@, domain)] == gas,
                None => !self@.payments.contains_key((message_id@, domain)),
            },
    {
        self.payments.gas_paid(message_id, domain)
    }

    /// Whether `caller` is the owner.
    pub fn is_owner(&self, caller: &Pubkey) -> (yes: bool)
        ensures
            yes == self@.is_owner(caller@),
    {
        match &self.owner {
            Some(owner) => owner.same_as(caller),
            None => false,
        }
    }

    /// The payment required for `gas_amount` units of gas on `domain`.
    /// Changes nothing; anyone may ask.
    pub fn quote(&self, domain: u32, gas_amount: u64) -> (quote: Result<u64, IgpError>)
        requires
            self.wf(),
        ensures
            quote == self@.quote(domain, gas_amount),
    {
        match self.gas_oracles.get(domain) {
            None => Err(IgpError::UnsupportedDomain),
            Some(oracle) => {
                let overhead = lookup_overhead(&self.gas_overheads, domain);
                compute_quote(oracle, overhead, gas_amount)
            },
        }
    }

    /// Accepts a payment of `attached_amount` for `gas_amount` units of gas
    /// for a message to `domain`. Anyone may pay. The whole attached amount
    /// is kept, also where it exceeds the quote.
    pub fn pay(
        &mut self,
        message_id: &H256,
        domain: u32,
        gas_amount: u64,
        attached_amount: u64,
    ) -> (done: Result<(), IgpError>)
        requires
            old(self).wf(),
        ensures
            final(self).wf(),
            match old(self)@.pay(message_id@, domain, gas_amount, attached_amount) {
                Ok(next) => done is Ok && final(self)@ == next,
                Err(e) => done == Err::<(), IgpError>(e) && final(self)@ == old(self)@,
            },
    {
        let required: u64 = match self.quote(domain, gas_amount) {
            Ok(required) => required,
            Err(e) => {
                return Err(e);
            },
        };
        if attached_amount < required {
            return Err(IgpError::InsufficientPayment);
        }
        let balance: u64 = match self.balance.checked_add(attached_amount) {
            Some(balance) => balance,
            None => {
                return Err(IgpError::Overflow);
            },
        };
        match self.payments.credit(*message_id, domain, gas_amount) {
            Ok(()) => {},
            Err(e) => {
                return Err(e);
            },
        }
        self.balance = balance;
        Ok(())
    }

    /// Takes the whole balance out for the beneficiary and returns it. With
    /// a zero balance this changes nothing and returns zero.
    pub fn claim(&mut self, caller: &Pubkey) -> (claimed: Result<u64, IgpError>)
        ensures
            final(self).wf() == old(self).wf(),
            match old(self)@.claim(caller@) {
                Ok((next, amount)) => claimed == Ok::<u64, IgpError>(amount) && final(self)@
                    == next,
                Err(e) => claimed == Err::<u64, IgpError>(e) && final(self)@ == old(self)@,
            },
    {
        let allowed = match self.claim_policy {
            ClaimPolicy::Anyone => true,
            ClaimPolicy::OwnerOnly => self.is_owner(caller),
        };
        if !allowed {
            return Err(IgpError::Unauthorized);
        }
        let amount = self.balance;
        self.balance = 0;
        Ok(amount)
    }

    /// Hands the instance to `new_owner`. Handing it to `None` cannot be
    /// undone: no owner-only operation succeeds on the instance ever after.
    pub fn transfer_ownership(&mut self, caller: &Pubkey, new_owner: Option<Pubkey>) -> (done:
        Result<(), IgpError>)
        ensures
            final(self).wf() == old(self).wf(),
            match old(self)@.transfer_ownership(caller@, opt_view(new_owner)) {
                Ok(next) => done is Ok && final(self)@ == next,
                Err(e) => done == Err::<(), IgpError>(e) && final(self)@ == old(self)@,
            },
    {
        if !self.is_owner(caller) {
            return Err(IgpError::Unauthorized);
        }
        self.owner = new_owner;
        Ok(())
    }

    /// Names the account that receives claimed funds. Owner only.
    pub fn set_beneficiary(&mut self, caller: &Pubkey, beneficiary: Pubkey) -> (done: Result<
        (),
        IgpError,
    >)
        ensures
            final(self).wf() == old(self).wf(),
            match old(self)@.set_beneficiary(caller@, beneficiary@) {
                Ok(next) => done is Ok && final(self)@ == next,
                Err(e) => done == Err::<(), IgpError>(e) && final(self)@ == old(self)@,
            },
    {
        if !self.is_owner(caller) {
            return Err(IgpError::Unauthorized);
        }
        self.beneficiary = beneficiary;
        Ok(())
    }

    /// Applies a batch of gas oracle settings, all or none. Owner only; a
    /// batch that names a domain twice is refused.
    pub fn set_oracles(&mut self, caller: &Pubkey, configs: &Vec<GasOracleConfig>) -> (done:
        Result<(), IgpError>)
        requires
            old(self).wf(),
        ensures
            final(self).wf(),
            match old(self)@.set_oracles(caller@, configs@) {
                Ok(next) => done is Ok && final(self)@ == next,
                Err(e) => done == Err::<(), IgpError>(e) && final(self)@ == old(self)@,
            },
    {
        if !self.is_owner(caller) {
            return Err(IgpError::Unauthorized);
        }
        if !oracle_batch_valid(configs) {
            return Err(IgpError::InvalidConfiguration);
        }
        apply_oracle_configs(&mut self.gas_oracles, configs);
        Ok(())
    }

    /// Applies a batch of gas overhead settings, all or none. Owner only; a
    /// batch that names a domain twice is refused.
    pub fn set_overheads(&mut self, caller: &Pubkey, configs: &Vec<GasOverheadConfig>) -> (done:
        Result<(), IgpError>)
        requires
            old(self).wf(),
        ensures
            final(self).wf(),
            match old(self)@.set_overheads(caller@, configs@) {
                Ok(next) => done is Ok && final(self)@ == next,
                Err(e) => done == Err::<(), IgpError>(e) && final(self)@ == old(self)@,
            },
    {
        if !self.is_owner(caller) {
            return Err(IgpError::Unauthorized);
        }
        if !overhead_batch_valid(configs) {
            return Err(IgpError::InvalidConfiguration);
        }
        apply_overhead_configs(&mut self.gas_overheads, configs);
        Ok(())
    }
}

} // verus!
