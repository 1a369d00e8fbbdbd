//! The overhead wrapper: an instance with an overhead registry of its own
//! that adds its overhead to a gas amount and hands the rest to an engine.

use vstd::prelude::*;
use crate::batch::{
    apply_overhead_configs, lookup_overhead, overhead_batch_valid, overhead_domains, overhead_of,
    with_overhead_configs,
};
use crate::error::IgpError;
use crate::igp::{Igp, IgpState};
use crate::instruction::{GasOverheadConfig, InitOverheadIgp};
use crate::primitives::{opt_view, H256, Pubkey};
use crate::registry::DomainMap;

verus! {

/// The mathematical state of an overhead wrapper.
pub struct OverheadIgpState {
    /// The tag the wrapper was created with. It never changes.
    pub salt: Seq<u8>,
    /// The wrapper's own owner, if it has one.
    pub owner: Option<Seq<u8>>,
    /// The engine instance that the wrapper refers to. It never changes.
    pub inner: Seq<u8>,
    /// The wrapper's own overhead of each domain that has an entry.
    pub gas_overheads: Map<u32, Option<u64>>,
}

impl OverheadIgpState {
    /// The state of a fresh wrapper: no overhead configured.
    pub open spec fn initial(salt: Seq<u8>, owner: Option<Seq<u8>>, inner: Seq<u8>) -> OverheadIgpState {
        OverheadIgpState { salt, owner, inner, gas_overheads: Map::empty() }
    }

    /// Whether `caller` is the wrapper's owner.
    pub open spec fn is_owner(self, caller: Seq<u8>) -> bool {
        self.owner == Some(caller)
    }

    /// The gas amount that is handed to the engine: the declared amount plus
    /// the wrapper's overhead for the domain.
    pub open spec fn adjusted_gas(self, domain: u32, gas_amount: u64) -> int {
        gas_amount + overhead_of(self.gas_overheads, domain)
    }

    /// The quote of `inner` for the adjusted gas amount. A domain that
    /// `inner` does not support is unsupported here too.
    pub open spec fn quote(self, inner: IgpState, domain: u32, gas_amount: u64) -> Result<
        u64,
        IgpError,
    > {
        if !inner.gas_oracles.contains_key(domain) {
            Err(IgpError::UnsupportedDomain)
        } else if self.adjusted_gas(domain, gas_amount) > u64::MAX {
            Err(IgpError::Overflow)
        } else {
            inner.quote(domain, self.adjusted_gas(domain, gas_amount) as u64)
        }
    }

    /// The state of `inner` after a payment through the wrapper: a payment
    /// to `inner` for the adjusted gas amount, with the attached amount as
    /// it is.
    pub open spec fn pay(
        self,
        inner: IgpState,
        message_id: Seq<u8>,
        domain: u32,
        gas_amount: u64,
        attached_amount: u64,
    ) -> Result<IgpState, IgpError> {
        if !inner.gas_oracles.contains_key(domain) {
            Err(IgpError::UnsupportedDomain)
        } else if self.adjusted_gas(domain, gas_amount) > u64::MAX {
            Err(IgpError::Overflow)
        } else {
            inner.pay(
                message_id,
                domain,
                self.adjusted_gas(domain, gas_amount) as u64,
                attached_amount,
            )
        }
    }

    /// The state after the wrapper's owner hands the wrapper on, or why not.
    pub open spec fn transfer_ownership(
        self,
        caller: Seq<u8>,
        new_owner: Option<Seq<u8>>,
    ) -> Result<OverheadIgpState, IgpError> {
        if !self.is_owner(caller) {
            Err(IgpError::Unauthorized)
        } else {
            Ok(OverheadIgpState { owner: new_owner, ..self })
        }
    }

    /// The state after the wrapper's owner applies a batch of overhead
    /// settings, or why the batch is refused.
    pub open spec fn set_overheads(
        self,
        caller: Seq<u8>,
        configs: Seq<GasOverheadConfig>,
    ) -> Result<OverheadIgpState, IgpError> {
        if !self.is_owner(caller) {
            Err(IgpError::Unauthorized)
        } else if !overhead_domains(configs).no_duplicates() {
            Err(IgpError::InvalidConfiguration)
        } else {
            Ok(
                OverheadIgpState {
                    gas_overheads: with_overhead_configs(self.gas_overheads, configs),
                    ..self
                },
            )
        }
    }
}

/// An overhead wrapper. It holds no balance and no payment records: both
/// stay with the engine instance it is used with.
pub struct OverheadIgp {
    salt: H256,
    owner: Option<Pubkey>,
    inner: Pubkey,
    gas_overheads: DomainMap<Option<u64>>,
}

impl View for OverheadIgp {
    type V = OverheadIgpState;

    closed spec fn view(&self) -> OverheadIgpState {
        OverheadIgpState {
            salt: self.salt@,
            owner: opt_view(self.owner),
            inner: self.inner@,
            gas_overheads: self.gas_overheads@,
        }
    }
}

impl OverheadIgp {
    /// The overhead registry holds no domain twice.
    pub closed spec fn wf(self) -> bool {
        self.gas_overheads.wf()
    }

    /// Creates a wrapper.
    pub fn init(args: InitOverheadIgp) -> (wrapper: OverheadIgp)
        ensures
            wrapper.wf(),
            wrapper@ == OverheadIgpState::initial(args.salt@, opt_view(args.owner), args.inner@),
    {
        OverheadIgp {
            salt: args.salt,
            owner: args.owner,
            inner: args.inner,
            gas_overheads: DomainMap::new(),
        }
    }

    /// The tag the wrapper was created with.
    pub fn salt(&self) -> (salt: H256)
        ensures
            salt@ == self@.salt,
    {
        self.salt
    }

    /// The wrapper's owner, if there is one.
    pub fn owner(&self) -> (owner: Option<Pubkey>)
        ensures
            opt_view(owner) == self@.owner,
    {
        self.owner
    }

    /// The engine instance that the wrapper refers to.
    pub fn inner(&self) -> (inner: Pubkey)
        ensures
            inner@ == self@.inner,
    {
        self.inner
    }

    /// The overhead that the wrapper adds for `domain`.
    pub fn gas_overhead(&self, domain: u32) -> (overhead: u64)
        requires
            self.wf(),
        ensures
            overhead == overhead_of(self@.gas_overheads, domain),
    {
        lookup_overhead(&self.gas_overheads, domain)
    }

    /// Whether `caller` is the wrapper's owner.
    pub fn is_owner(&self, caller: &Pubkey) -> (yes: bool)
        ensures
            yes == self@.is_owner(caller@),
    {
        match &self.owner {
            Some(owner) => owner.same_as(caller),
            None => false,
        }
    }

    /// The gas amount to hand to `inner`, or why none can be handed on.
    fn adjust(&self, inner: &Igp, domain: u32, gas_amount: u64) -> (adjusted: Result<
        u64,
        IgpError,
    >)
        requires
            self.wf(),
            inner.wf(),
        ensures
            match adjusted {
                Ok(gas) => inner@.gas_oracles.contains_key(domain) && gas == self@.adjusted_gas(
                    domain,
                    gas_amount,
                ),
                Err(e) => if inner@.gas_oracles.contains_key(domain) {
                    e == IgpError::Overflow && self@.adjusted_gas(domain, gas_amount) > u64::MAX
                } else {
                    e == IgpError::UnsupportedDomain
                },
            },
    {
        if inner.gas_oracle(domain).is_none() {
            return Err(IgpError::UnsupportedDomain);
        }
        let overhead = lookup_overhead(&self.gas_overheads, domain);
        match gas_amount.checked_add(overhead) {
            Some(gas) => Ok(gas),
            None => Err(IgpError::Overflow),
        }
    }

    /// The payment that `inner` requires for `gas_amount` units of gas plus
    /// the wrapper's overhead. Changes nothing; anyone may ask.
    pub fn quote(&self, inner: &Igp, domain: u32, gas_amount: u64) -> (quote: Result<
        u64,
        IgpError,
    >)
        requires
            self.wf(),
            inner.wf(),
        ensures
            quote == self@.quote(inner@, domain, gas_amount),
    {
        match self.adjust(inner, domain, gas_amount) {
            Ok(gas) => inner.quote(domain, gas),
            Err(e) => Err(e),
        }
    }

    /// Pays `inner` for `gas_amount` units of gas plus the wrapper's
    /// overhead, with the attached amount as it is. Anyone may pay.
    pub fn pay(
        &self,
        inner: &mut Igp,
        message_id: &H256,
        domain: u32,
        gas_amount: u64,
        attached_amount: u64,
    ) -> (done: Result<(), IgpError>)
        requires
            self.wf(),
            old(inner).wf(),
        ensures
            final(inner).wf(),
            match self@.pay(old(inner)@, message_id@, domain, gas_amount, attached_amount) {
                Ok(next) => done is Ok && final(inner)@ == next,
                Err(e) => done == Err::<(), IgpError>(e) && final(inner)@ == old(inner)@,
            },
    {
        match self.adjust(inner, domain, gas_amount) {
            Ok(gas) => inner.pay(message_id, domain, gas, attached_amount),
            Err(e) => Err(e),
        }
    }

    /// Hands the wrapper to `new_owner`. Handing it to `None` cannot be
    /// undone. The engine's owner is not touched.
    pub fn transfer_ownership(&mut self, caller: &Pubkey, new_owner: Option<Pubkey>) -> (done:
        Result<(), IgpError>)
        ensures
            final(self).wf() == old(self).wf(),
            match old(self)@.transfer_ownership(caller@, opt_view(new_owner)) {
                Ok(next) => done is Ok && final(self)@ == next,
                Err(e) => done == Err::<(), IgpError>(e) && final(self)@ == old(self)@,
            },
    {
        if !self.is_owner(caller) {
            return Err(IgpError::Unauthorized);
        }
        self.owner = new_owner;
        Ok(())
    }

    /// Applies a batch of overhead settings to the wrapper's own registry,
    /// all or none. Only the wrapper's owner may; a batch that names a domain
    /// twice is refused.
    pub fn set_overheads(&mut self, caller: &Pubkey, configs: &Vec<GasOverheadConfig>) -> (done:
        Result<(), IgpError>)
        requires
            old(self).wf(),
        ensures
            final(self).wf(),
            match old(self)@.set_overheads(caller@, configs@) {
                Ok(next) => done is Ok && final(self)@ == next,
                Err(e) => done == Err::<(), IgpError>(e) && final(self)@ == old(self)@,
            },
    {
        if !self.is_owner(caller) {
            return Err(IgpError::Unauthorized);
        }
        if !overhead_batch_valid(configs) {
            return Err(IgpError::InvalidConfiguration);
        }
        apply_overhead_configs(&mut self.gas_overheads, configs);
        Ok(())
    }
}

} // verus!
