//! Processing of instructions, one at a time, against an instance.

use vstd::prelude::*;
use crate::error::IgpError;
use crate::igp::{Igp, IgpState};
use crate::instruction::Instruction;
use crate::overhead_igp::{OverheadIgp, OverheadIgpState};
use crate::primitives::{opt_view, Pubkey};

verus! {

/// What a successful operation hands back.
#[derive(Clone, Copy, Debug, PartialEq, Eq, Structural)]
pub enum Outcome {
    /// The operation was applied; there is nothing to hand back.
    Done,
    /// The payment that the quoted gas amount requires.
    Quote(u64),
    /// The amount that was taken out of the balance for the beneficiary.
    Claimed(u64),
}

/// One call in a history of calls against an instance.
pub struct Call {
    pub caller: Seq<u8>,
    pub instruction: Instruction,
    pub attached_amount: u64,
}

impl IgpState {
    /// What an instruction does to an engine instance: the next state with
    /// what is handed back, or the refusal. `None` where the instruction is
    /// not one for an engine instance.
    pub open spec fn step(
        self,
        caller: Seq<u8>,
        instruction: Instruction,
        attached_amount: u64,
    ) -> Option<Result<(IgpState, Outcome), IgpError>> {
        match instruction {
            Instruction::PayForGas(payment) => Some(
                match self.pay(
                    payment.message_id@,
                    payment.destination_domain,
                    payment.gas_amount,
                    attached_amount,
                ) {
                    Ok(next) => Ok((next, Outcome::Done)),
                    Err(e) => Err(e),
                },
            ),
            Instruction::QuoteGasPayment(query) => Some(
                match self.quote(query.destination_domain, query.gas_amount) {
                    Ok(amount) => Ok((self, Outcome::Quote(amount))),
                    Err(e) => Err(e),
                },
            ),
            Instruction::TransferIgpOwnership(new_owner) => Some(
                match self.transfer_ownership(caller, opt_view(new_owner)) {
                    Ok(next) => Ok((next, Outcome::Done)),
                    Err(e) => Err(e),
                },
            ),
            Instruction::SetIgpBeneficiary(beneficiary) => Some(
                match self.set_beneficiary(caller, beneficiary@) {
                    Ok(next) => Ok((next, Outcome::Done)),
                    Err(e) => Err(e),
                },
            ),
            Instruction::SetDestinationGasOverheads(configs) => Some(
                match self.set_overheads(caller, configs@) {
                    Ok(next) => Ok((next, Outcome::Done)),
                    Err(e) => Err(e),
                },
            ),
            Instruction::SetGasOracleConfigs(configs) => Some(
                match self.set_oracles(caller, configs@) {
                    Ok(next) => Ok((next, Outcome::Done)),
                    Err(e) => Err(e),
                },
            ),
            Instruction::Claim => Some(
                match self.claim(caller) {
                    Ok((next, amount)) => Ok((next, Outcome::Claimed(amount))),
                    Err(e) => Err(e),
                },
            ),
            Instruction::Init => None,
            Instruction::InitIgp(_) => None,
            Instruction::InitOverheadIgp(_) => None,
            Instruction::TransferOverheadIgpOwnership(_) => None,
        }
    }

    /// The state that a call leaves behind: the next state where the call
    /// succeeds, the same state where it is refused or not for an engine.
    pub open spec fn after(self, call: Call) -> IgpState {
        match self.step(call.caller, call.instruction, call.attached_amount) {
            Some(Ok((next, _))) => next,
            _ => self,
        }
    }

    /// The state that a history of calls leaves behind.
    pub open spec fn after_all(self, calls: Seq<Call>) -> IgpState
        decreases calls.len(),
    {
        if calls.len() == 0 {
            self
        } else {
            self.after_all(calls.drop_last()).after(calls.last())
        }
    }
}

impl OverheadIgpState {
    /// What an instruction does to a wrapper and the engine it is used
    /// with: the next states of both with what is handed back, or the
    /// refusal. `None` where the instruction is not one for a wrapper.
    pub open spec fn step(
        self,
        inner: IgpState,
        caller: Seq<u8>,
        instruction: Instruction,
        attached_amount: u64,
    ) -> Option<Result<(OverheadIgpState, IgpState, Outcome), IgpError>> {
        match instruction {
            Instruction::PayForGas(payment) => Some(
                match self.pay(
                    inner,
                    payment.message_id@,
                    payment.destination_domain,
                    payment.gas_amount,
                    attached_amount,
                ) {
                    Ok(next) => Ok((self, next, Outcome::Done)),
                    Err(e) => Err(e),
                },
            ),
            Instruction::QuoteGasPayment(query) => Some(
                match self.quote(inner, query.destination_domain, query.gas_amount) {
                    Ok(amount) => Ok((self, inner, Outcome::Quote(amount))),
                    Err(e) => Err(e),
                },
            ),
            Instruction::TransferOverheadIgpOwnership(new_owner) => Some(
                match self.transfer_ownership(caller, opt_view(new_owner)) {
                    Ok(next) => Ok((next, inner, Outcome::Done)),
                    Err(e) => Err(e),
                },
            ),
            Instruction::SetDestinationGasOverheads(configs) => Some(
                match self.set_overheads(caller, configs@) {
                    Ok(next) => Ok((next, inner, Outcome::Done)),
                    Err(e) => Err(e),
                },
            ),
            Instruction::Init => None,
            Instruction::InitIgp(_) => None,
            Instruction::InitOverheadIgp(_) => None,
            Instruction::TransferIgpOwnership(_) => None,
            Instruction::SetIgpBeneficiary(_) => None,
            Instruction::SetGasOracleConfigs(_) => None,
            Instruction::Claim => None,
        }
    }
}

/// `Done` for a finished operation, the refusal otherwise.
fn done_or(result: Result<(), IgpError>) -> (outcome: Result<Outcome, IgpError>)
    ensures
        outcome == match result {
            Ok(_) => Ok::<Outcome, IgpError>(Outcome::Done),
            Err(e) => Err::<Outcome, IgpError>(e),
        },
{
    match result {
        Ok(()) => Ok(Outcome::Done),
        Err(e) => Err(e),
    }
}

/// `Quote` with the quoted amount, the refusal otherwise.
fn quote_or(result: Result<u64, IgpError>) -> (outcome: Result<Outcome, IgpError>)
    ensures
        outcome == match result {
            Ok(amount) => Ok::<Outcome, IgpError>(Outcome::Quote(amount)),
            Err(e) => Err::<Outcome, IgpError>(e),
        },
{
    match result {
        Ok(amount) => Ok(Outcome::Quote(amount)),
        Err(e) => Err(e),
    }
}

impl Igp {
    /// Processes one instruction against this instance. Returns `None`,
    /// changing nothing, where the instruction is not one for an engine
    /// instance; a refused instruction changes nothing either.
    pub fn process(
        &mut self,
        caller: &Pubkey,
        instruction: &Instruction,
        attached_amount: u64,
    ) -> (outcome: Option<Result<Outcome, IgpError>>)
        requires
            old(self).wf(),
        ensures
            final(self).wf(),
            match old(self)@.step(caller@, *instruction, attached_amount) {
                None => outcome is None && final(self)@ == old(self)@,
                Some(Err(e)) => outcome == Some(Err::<Outcome, IgpError>(e)) && final(self)@
                    == old(self)@,
                Some(Ok((next, handed))) => outcome == Some(Ok::<Outcome, IgpError>(handed))
                    && final(self)@ == next,
            },
    {
        match instruction {
            Instruction::PayForGas(payment) => Some(
                done_or(
                    self.pay(
                        &payment.message_id,
                        payment.destination_domain,
                        payment.gas_amount,
                        attached_amount,
                    ),
                ),
            ),
            Instruction::QuoteGasPayment(query) => Some(
                quote_or(self.quote(query.destination_domain, query.gas_amount)),
            ),
            Instruction::TransferIgpOwnership(new_owner) => Some(
                done_or(self.transfer_ownership(caller, *new_owner)),
            ),
            Instruction::SetIgpBeneficiary(beneficiary) => Some(
                done_or(self.set_beneficiary(caller, *beneficiary)),
            ),
            Instruction::SetDestinationGasOverheads(configs) => Some(
                done_or(self.set_overheads(caller, configs)),
            ),
            Instruction::SetGasOracleConfigs(configs) => Some(
                done_or(self.set_oracles(caller, configs)),
            ),
            Instruction::Claim => Some(
                match self.claim(caller) {
                    Ok(amount) => Ok(Outcome::Claimed(amount)),
                    Err(e) => Err(e),
                },
            ),
            Instruction::Init => None,
            Instruction::InitIgp(_) => None,
            Instruction::InitOverheadIgp(_) => None,
            Instruction::TransferOverheadIgpOwnership(_) => None,
        }
    }
}

impl OverheadIgp {
    /// Processes one instruction against this wrapper and the engine it is
    /// used with. Returns `None`, changing nothing, where the instruction is
    /// not one for a wrapper; a refused instruction changes nothing either.
    pub fn process(
        &mut self,
        inner: &mut Igp,
        caller: &Pubkey,
        instruction: &Instruction,
        attached_amount: u64,
    ) -> (outcome: Option<Result<Outcome, IgpError>>)
        requires
            old(self).wf(),
            old(inner).wf(),
        ensures
            final(self).wf(),
            final(inner).wf(),
            match old(self)@.step(old(inner)@, caller@, *instruction, attached_amount) {
                None => outcome is None && final(self)@ == old(self)@ && final(inner)@ == old(
                    inner,
                )@,
                Some(Err(e)) => outcome == Some(Err::<Outcome, IgpError>(e)) && final(self)@
                    == old(self)@ && final(inner)@ == old(inner)@,
                Some(Ok((next, next_inner, handed))) => outcome == Some(
                    Ok::<Outcome, IgpError>(handed),
                ) && final(self)@ == next && final(inner)@ == next_inner,
            },
    {
        match instruction {
            Instruction::PayForGas(payment) => Some(
                done_or(
                    self.pay(
                        inner,
                        &payment.message_id,
                        payment.destination_domain,
                        payment.gas_amount,
                        attached_amount,
                    ),
                ),
            ),
            Instruction::QuoteGasPayment(query) => Some(
                quote_or(self.quote(inner, query.destination_domain, query.gas_amount)),
            ),
            Instruction::TransferOverheadIgpOwnership(new_owner) => Some(
                done_or(self.transfer_ownership(caller, *new_owner)),
            ),
            Instruction::SetDestinationGasOverheads(configs) => Some(
                done_or(self.set_overheads(caller, configs)),
            ),
            Instruction::Init => None,
            Instruction::InitIgp(_) => None,
            Instruction::InitOverheadIgp(_) => None,
            Instruction::TransferIgpOwnership(_) => None,
            Instruction::SetIgpBeneficiary(_) => None,
            Instruction::SetGasOracleConfigs(_) => None,
            Instruction::Claim => None,
        }
    }
}

} // verus!
