//! What holds of the engine whatever it is asked to do.

use vstd::prelude::*;
use crate::batch::overhead_of;
use crate::error::IgpError;
use crate::igp::{ClaimPolicy, IgpState};
use crate::instruction::{GasOracleConfig, GasOverheadConfig, Instruction};
use crate::oracle::lemma_quote_monotonic;
use crate::overhead_igp::OverheadIgpState;
use crate::processor::Call;

verus! {

/// A quote is a function of the domain's oracle, the domain's overhead and
/// the gas amount alone: two states that agree on these give the same quote.
pub proof fn law_quote_deterministic(a: IgpState, b: IgpState, domain: u32, gas_amount: u64)
    requires
        a.gas_oracles.contains_key(domain) == b.gas_oracles.contains_key(domain),
        a.gas_oracles.contains_key(domain) ==> a.gas_oracles[domain] == b.gas_oracles[domain],
        overhead_of(a.gas_overheads, domain) == overhead_of(b.gas_overheads, domain),
    ensures
        a.quote(domain, gas_amount) == b.quote(domain, gas_amount),
{
}

/// A quote never decreases when the gas amount grows: where the larger
/// amount can be quoted, so can the smaller, and for no more.
pub proof fn law_quote_monotonic(state: IgpState, domain: u32, g1: u64, g2: u64)
    requires
        g1 <= g2,
        state.quote(domain, g2) is Ok,
    ensures
        state.quote(domain, g1) is Ok,
        state.quote(domain, g1)->Ok_0 <= state.quote(domain, g2)->Ok_0,
{
    lemma_quote_monotonic(
        state.gas_oracles[domain],
        overhead_of(state.gas_overheads, domain),
        g1,
        g2,
    );
}

/// For a domain without a gas oracle, quoting and paying fail with
/// `UnsupportedDomain`, directly and through any wrapper.
pub proof fn law_unsupported_domain(
    state: IgpState,
    wrapper: OverheadIgpState,
    message_id: Seq<u8>,
    domain: u32,
    gas_amount: u64,
    attached_amount: u64,
)
    requires
        !state.gas_oracles.contains_key(domain),
    ensures
        state.quote(domain, gas_amount) == Err::<u64, IgpError>(IgpError::UnsupportedDomain),
        state.pay(message_id, domain, gas_amount, attached_amount) == Err::<IgpState, IgpError>(
            IgpError::UnsupportedDomain,
        ),
        wrapper.quote(state, domain, gas_amount) == Err::<u64, IgpError>(
            IgpError::UnsupportedDomain,
        ),
        wrapper.pay(state, message_id, domain, gas_amount, attached_amount) == Err::<
            IgpState,
            IgpError,
        >(IgpError::UnsupportedDomain),
{
}

/// A payment below the quote fails with `InsufficientPayment` and leaves
/// the state, balance and records included, as it was.
pub proof fn law_insufficient_payment(
    state: IgpState,
    caller: Seq<u8>,
    payment: crate::instruction::PayForGas,
    attached_amount: u64,
)
    requires
        state.quote(payment.destination_domain, payment.gas_amount) is Ok,
        attached_amount < state.quote(payment.destination_domain, payment.gas_amount)->Ok_0,
    ensures
        state.pay(
            payment.message_id@,
            payment.destination_domain,
            payment.gas_amount,
            attached_amount,
        ) == Err::<IgpState, IgpError>(IgpError::InsufficientPayment),
        state.after(
            Call { caller, instruction: Instruction::PayForGas(payment), attached_amount },
        ) == state,
{
}

/// A successful payment raises the balance by the attached amount and the
/// record of its message and domain by the gas amount, and touches no other
/// record.
pub proof fn law_payment_effect(
    state: IgpState,
    message_id: Seq<u8>,
    domain: u32,
    gas_amount: u64,
    attached_amount: u64,
    other_id: Seq<u8>,
    other_domain: u32,
)
    requires
        state.pay(message_id, domain, gas_amount, attached_amount) is Ok,
    ensures
        ({
            let next = state.pay(message_id, domain, gas_amount, attached_amount)->Ok_0;
            &&& next.balance == state.balance + attached_amount
            &&& next.paid(message_id, domain) == state.paid(message_id, domain) + gas_amount
            &&& (other_id, other_domain) != (message_id, domain) ==> next.paid(
                other_id,
                other_domain,
            ) == state.paid(other_id, other_domain)
            &&& attached_amount >= state.quote(domain, gas_amount)->Ok_0
        }),
{
}

/// Two payments for the same message and domain add up in its record.
pub proof fn law_payments_accumulate(
    state: IgpState,
    message_id: Seq<u8>,
    domain: u32,
    g1: u64,
    a1: u64,
    g2: u64,
    a2: u64,
)
    requires
        state.pay(message_id, domain, g1, a1) is Ok,
        state.pay(message_id, domain, g1, a1)->Ok_0.pay(message_id, domain, g2, a2) is Ok,
    ensures
        state.pay(message_id, domain, g1, a1)->Ok_0.pay(message_id, domain, g2, a2)->Ok_0.paid(
            message_id,
            domain,
        ) == state.paid(message_id, domain) + g1 + g2,
{
}

/// No call lowers or removes a payment record.
pub proof fn law_records_never_decrease(
    state: IgpState,
    call: Call,
    message_id: Seq<u8>,
    domain: u32,
)
    ensures
        state.after(call).paid(message_id, domain) >= state.paid(message_id, domain),
        state.payments.contains_key((message_id, domain)) ==> state.after(
            call,
        ).payments.contains_key((message_id, domain)),
{
}

/// No history of calls lowers or removes a payment record.
pub proof fn law_records_never_decrease_over_history(
    state: IgpState,
    calls: Seq<Call>,
    message_id: Seq<u8>,
    domain: u32,
)
    ensures
        state.after_all(calls).paid(message_id, domain) >= state.paid(message_id, domain),
        state.payments.contains_key((message_id, domain)) ==> state.after_all(
            calls,
        ).payments.contains_key((message_id, domain)),
    decreases calls.len(),
{
    if calls.len() > 0 {
        law_records_never_decrease_over_history(state, calls.drop_last(), message_id, domain);
        law_records_never_decrease(
            state.after_all(calls.drop_last()),
            calls.last(),
            message_id,
            domain,
        );
    }
}

/// The balance goes up only by a successful payment, by what was attached,
/// and down only by a claim, to exactly zero. Every other call keeps it.
pub proof fn law_balance_changes(state: IgpState, call: Call)
    ensures
        ({
            let next = state.after(call);
            match call.instruction {
                Instruction::PayForGas(_) => next.balance == state.balance || next.balance
                    == state.balance + call.attached_amount,
                Instruction::Claim => next.balance == state.balance || next.balance == 0,
                _ => next.balance == state.balance,
            }
        }),
{
}

/// A claim on an empty balance hands out zero and changes nothing.
pub proof fn law_claim_of_nothing(state: IgpState, caller: Seq<u8>)
    requires
        state.balance == 0,
        state.may_claim(caller),
    ensures
        state.claim(caller) == Ok::<(IgpState, u64), IgpError>((state, 0)),
{
}

/// A claim right after a claim hands out zero and changes nothing.
pub proof fn law_claim_idempotent(state: IgpState, first: Seq<u8>, second: Seq<u8>)
    requires
        state.claim(first) is Ok,
        state.may_claim(second),
    ensures
        ({
            let (emptied, _) = state.claim(first)->Ok_0;
            emptied.claim(second) == Ok::<(IgpState, u64), IgpError>((emptied, 0))
        }),
{
}

/// A claim hands out the whole balance and touches nothing else.
pub proof fn law_claim_takes_all(state: IgpState, caller: Seq<u8>)
    requires
        state.may_claim(caller),
    ensures
        state.claim(caller) is Ok,
        state.claim(caller)->Ok_0.1 == state.balance,
        state.claim(caller)->Ok_0.0 == (IgpState { balance: 0, ..state }),
{
}

/// Without an owner, every owner-only operation fails with `Unauthorized`,
/// whoever calls.
pub proof fn law_no_owner_no_administration(
    state: IgpState,
    caller: Seq<u8>,
    new_owner: Option<Seq<u8>>,
    beneficiary: Seq<u8>,
    oracles: Seq<GasOracleConfig>,
    overheads: Seq<GasOverheadConfig>,
)
    requires
        state.owner is None,
    ensures
        state.transfer_ownership(caller, new_owner) == Err::<IgpState, IgpError>(
            IgpError::Unauthorized,
        ),
        state.set_beneficiary(caller, beneficiary) == Err::<IgpState, IgpError>(
            IgpError::Unauthorized,
        ),
        state.set_oracles(caller, oracles) == Err::<IgpState, IgpError>(IgpError::Unauthorized),
        state.set_overheads(caller, overheads) == Err::<IgpState, IgpError>(
            IgpError::Unauthorized,
        ),
        state.claim_policy == ClaimPolicy::OwnerOnly ==> state.claim(caller) == Err::<
            (IgpState, u64),
            IgpError,
        >(IgpError::Unauthorized),
{
}

/// An instance without an owner never gets one: no history of calls brings
/// an owner back.
pub proof fn law_no_owner_is_final(state: IgpState, calls: Seq<Call>)
    requires
        state.owner is None,
    ensures
        state.after_all(calls).owner is None,
    decreases calls.len(),
{
    if calls.len() > 0 {
        law_no_owner_is_final(state, calls.drop_last());
    }
}

/// Handing ownership to nobody cannot be undone: after it, whatever calls
/// follow, every owner-only operation fails with `Unauthorized`.
pub proof fn law_renounced_ownership_is_irreversible(
    state: IgpState,
    owner: Seq<u8>,
    calls: Seq<Call>,
    caller: Seq<u8>,
    new_owner: Option<Seq<u8>>,
    beneficiary: Seq<u8>,
    oracles: Seq<GasOracleConfig>,
    overheads: Seq<GasOverheadConfig>,
)
    requires
        state.transfer_ownership(owner, None) is Ok,
    ensures
        ({
            let later = state.transfer_ownership(owner, None)->Ok_0.after_all(calls);
            &&& later.owner is None
            &&& later.transfer_ownership(caller, new_owner) == Err::<IgpState, IgpError>(
                IgpError::Unauthorized,
            )
            &&& later.set_beneficiary(caller, beneficiary) == Err::<IgpState, IgpError>(
                IgpError::Unauthorized,
            )
            &&& later.set_oracles(caller, oracles) == Err::<IgpState, IgpError>(
                IgpError::Unauthorized,
            )
            &&& later.set_overheads(caller, overheads) == Err::<IgpState, IgpError>(
                IgpError::Unauthorized,
            )
            &&& later.claim_policy == ClaimPolicy::OwnerOnly ==> later.claim(caller) == Err::<
                (IgpState, u64),
                IgpError,
            >(IgpError::Unauthorized)
        }),
{
    let renounced = state.transfer_ownership(owner, None)->Ok_0;
    law_no_owner_is_final(renounced, calls);
    law_no_owner_no_administration(
        renounced.after_all(calls),
        caller,
        new_owner,
        beneficiary,
        oracles,
        overheads,
    );
}

/// The salt and the claim policy of an instance never change.
pub proof fn law_salt_and_policy_are_fixed(state: IgpState, calls: Seq<Call>)
    ensures
        state.after_all(calls).salt == state.salt,
        state.after_all(calls).claim_policy == state.claim_policy,
    decreases calls.len(),
{
    if calls.len() > 0 {
        law_salt_and_policy_are_fixed(state, calls.drop_last());
    }
}

/// Only the owner changes the configuration: a call by anyone else leaves
/// owner, beneficiary and both registries as they were.
pub proof fn law_only_owner_administers(state: IgpState, call: Call)
    requires
        !state.is_owner(call.caller),
    ensures
        state.after(call).owner == state.owner,
        state.after(call).beneficiary == state.beneficiary,
        state.after(call).gas_oracles == state.gas_oracles,
        state.after(call).gas_overheads == state.gas_overheads,
{
}

/// A wrapper quotes what its engine quotes for the gas amount plus the
/// wrapper's overhead.
pub proof fn law_wrapped_quote(
    wrapper: OverheadIgpState,
    inner: IgpState,
    domain: u32,
    gas_amount: u64,
)
    requires
        inner.gas_oracles.contains_key(domain),
        gas_amount + overhead_of(wrapper.gas_overheads, domain) <= u64::MAX,
    ensures
        wrapper.quote(inner, domain, gas_amount) == inner.quote(
            domain,
            (gas_amount + overhead_of(wrapper.gas_overheads, domain)) as u64,
        ),
        wrapper.quote(inner, domain, gas_amount) is Ok ==> inner.quote(domain, gas_amount) is Ok
            && inner.quote(domain, gas_amount)->Ok_0 <= wrapper.quote(
            inner,
            domain,
            gas_amount,
        )->Ok_0,
{
    if wrapper.quote(inner, domain, gas_amount) is Ok {
        law_quote_monotonic(
            inner,
            domain,
            gas_amount,
            (gas_amount + overhead_of(wrapper.gas_overheads, domain)) as u64,
        );
    }
}

/// Administration of a wrapper leaves the engine untouched, and a wrapper
/// changes its own state by administration only.
pub proof fn law_wrapper_and_engine_are_independent(
    wrapper: OverheadIgpState,
    inner: IgpState,
    caller: Seq<u8>,
    instruction: Instruction,
    attached_amount: u64,
)
    requires
        wrapper.step(inner, caller, instruction, attached_amount) is Some,
        wrapper.step(inner, caller, instruction, attached_amount)->Some_0 is Ok,
    ensures
        ({
            let (next, next_inner, _) = wrapper.step(
                inner,
                caller,
                instruction,
                attached_amount,
            )->Some_0->Ok_0;
            &&& next.salt == wrapper.salt
            &&& next.inner == wrapper.inner
            &&& (instruction is TransferOverheadIgpOwnership || instruction
                is SetDestinationGasOverheads) ==> next_inner == inner && wrapper.is_owner(caller)
            &&& (instruction is PayForGas || instruction is QuoteGasPayment) ==> next == wrapper
            &&& next_inner.owner == inner.owner
            &&& next_inner.beneficiary == inner.beneficiary
            &&& next_inner.gas_oracles == inner.gas_oracles
            &&& next_inner.gas_overheads == inner.gas_overheads
        }),
{
}

} // verus!
