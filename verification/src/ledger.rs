//! The payment records of one engine instance.

use vstd::prelude::*;
use crate::assoc::{as_map, lemma_empty, lemma_entry, lemma_push, lemma_update, well_keyed};
use crate::error::IgpError;
use crate::primitives::H256;

verus! {

/// The gas paid for so far for one message to one destination domain.
#[derive(Clone, Copy, Debug, PartialEq)]
pub struct PaymentRecord {
    pub message_id: H256,
    pub destination_domain: u32,
    pub gas_amount: u64,
}

/// The gas recorded in `payments` for a message and a domain: zero where
/// there is no record.
pub open spec fn paid_gas(payments: Map<(Seq<u8>, u32), u64>, message_id: Seq<u8>, domain: u32) -> nat {
    if payments.contains_key((message_id, domain)) {
        payments[(message_id, domain)] as nat
    } else {
        0
    }
}

/// `payments` with `gas_amount` more units recorded for a message and a
/// domain.
pub open spec fn credited(
    payments: Map<(Seq<u8>, u32), u64>,
    message_id: Seq<u8>,
    domain: u32,
    gas_amount: u64,
) -> Map<(Seq<u8>, u32), u64> {
    payments.insert(
        (message_id, domain),
        (paid_gas(payments, message_id, domain) + gas_amount) as u64,
    )
}

/// All payment records of an instance. It stands for a map from message
/// identifier and destination domain to the cumulative gas amount; records
/// are added and raised, never removed or lowered.
pub struct PaymentLedger {
    records: Vec<PaymentRecord>,
}

impl View for PaymentLedger {
    type V = Map<(Seq<u8>, u32), u64>;

    closed spec fn view(&self) -> Map<(Seq<u8>, u32), u64> {
        as_map(self.keys(), self.vals())
    }
}

impl PaymentLedger {
    /// The keys of the records, in storage order.
    pub closed spec fn keys(self) -> Seq<(Seq<u8>, u32)> {
        Seq::new(
            self.records@.len(),
            |i: int| (self.records@[i].message_id@, self.records@[i].destination_domain),
        )
    }

    /// The gas amounts of the records, in storage order.
    pub closed spec fn vals(self) -> Seq<u64> {
        Seq::new(self.records@.len(), |i: int| self.records@[i].gas_amount)
    }

    /// No message and domain have two records.
    pub closed spec fn wf(self) -> bool {
        well_keyed(self.keys(), self.vals())
    }

    /// The ledger without records.
    pub fn new() -> (ledger: PaymentLedger)
        ensures
            ledger.wf(),
            ledger@ == Map::<(Seq<u8>, u32), u64>::empty(),
    {
        let ledger = PaymentLedger { records: Vec::new() };
        proof {
            lemma_empty::<(Seq<u8>, u32), u64>();
            assert(ledger.keys() =~= Seq::<(Seq<u8>, u32)>::empty());
            assert(ledger.vals() =~= Seq::<u64>::empty());
        }
        ledger
    }

    /// The position of the record for a message and a domain, if there is one.
    fn position(&self, message_id: &H256, domain: u32) -> (found: Option<usize>)
        ensures
            match found {
                Some(i) => i < self.keys().len() && self.keys()[i as int] == (message_id@, domain),
                None => !self.keys().contains((message_id@, domain)),
            },
    {
        let mut i: usize = 0;
        while i < self.records.len()
            invariant
                0 <= i <= self.records@.len(),
                forall|j: int| 0 <= j < i ==> self.keys()[j] != (message_id@, domain),
            decreases self.records@.len() - i,
        {
            if self.records[i].destination_domain == domain && self.records[i].message_id.same_as(
                message_id,
            ) {
                return Some(i);
            }
            i += 1;
        }
        None
    }

    /// The cumulative gas paid for a message to a domain, if any was paid.
    pub fn gas_paid(&self, message_id: &H256, domain: u32) -> (paid: Option<u64>)
        requires
            self.wf(),
        ensures
            match paid {
                Some(gas) => self@.contains_key((message_id@, domain)) && self@[(
                    message_id@,
                    domain,
                )] == gas,
                None => !self@.contains_key((message_id@, domain)),
            },
    {
        match self.position(message_id, domain) {
            Some(i) => {
                proof {
                    lemma_entry(self.keys(), self.vals(), i as int);
                }
                Some(self.records[i].gas_amount)
            },
            None => None,
        }
    }

    /// Records `gas_amount` more units for a message to a domain. Fails with
    /// `Overflow`, changing nothing, where the cumulative amount would exceed
    /// 64 bits.
    pub fn credit(&mut self, message_id: H256, domain: u32, gas_amount: u64) -> (done: Result<
        (),
        IgpError,
    >)
        requires
            old(self).wf(),
        ensures
            final(self).wf(),
            paid_gas(old(self)@, message_id@, domain) + gas_amount <= u64::MAX ==> done is Ok
                && final(self)@ == credited(old(self)@, message_id@, domain, gas_amount),
            paid_gas(old(self)@, message_id@, domain) + gas_amount > u64::MAX ==> done == Err::<
                (),
                IgpError,
            >(IgpError::Overflow) && final(self)@ == old(self)@,
    {
        let ghost keys = self.keys();
        let ghost vals = self.vals();
        match self.position(&message_id, domain) {
            Some(i) => {
                proof {
                    lemma_entry(keys, vals, i as int);
                }
                let total: u64 = match self.records[i].gas_amount.checked_add(gas_amount) {
                    Some(t) => t,
                    None => {
                        return Err(IgpError::Overflow);
                    },
                };
                self.records.set(
                    i,
                    PaymentRecord { message_id, destination_domain: domain, gas_amount: total },
                );
                proof {
                    lemma_update(keys, vals, i as int, total);
                    assert(self.keys() =~= keys);
                    assert(self.vals() =~= vals.update(i as int, total));
                }
                Ok(())
            },
            None => {
                self.records.push(
                    PaymentRecord { message_id, destination_domain: domain, gas_amount },
                );
                proof {
                    lemma_push(keys, vals, (message_id@, domain), gas_amount);
                    assert(self.keys() =~= keys.push((message_id@, domain)));
                    assert(self.vals() =~= vals.push(gas_amount));
                }
                Ok(())
            },
        }
    }
}

} // verus!
