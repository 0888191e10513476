use vstd::prelude::*;
use crate::errors::BridgeError;

verus! {

/// The bridge's own accounting: cumulative amounts minted and burned.
/// Both counters only ever grow; an addition that would overflow 64 bits
/// is rejected and changes nothing.
pub struct AccountingLedger {
    pub total_minted: u64,
    pub total_burned: u64,
}

impl AccountingLedger {
    /// A ledger with both accumulators at zero.
    pub fn new() -> (r: AccountingLedger)
        ensures
            r.total_minted == 0,
            r.total_burned == 0,
    {
        AccountingLedger { total_minted: 0, total_burned: 0 }
    }

    /// Checked addition to the minted accumulator. Succeeds exactly when
    /// the sum fits in 64 bits; on overflow nothing changes.
    pub fn add_minted(&mut self, amount: u64) -> (r: Result<(), BridgeError>)
        ensures
            final(self).total_burned == old(self).total_burned,
            match r {
                Ok(()) => {
                    &&& old(self).total_minted + amount <= u64::MAX
                    &&& final(self).total_minted == old(self).total_minted + amount
                },
                Err(e) => {
                    &&& e == BridgeError::Overflow
                    &&& old(self).total_minted + amount > u64::MAX
                    &&& final(self).total_minted == old(self).total_minted
                },
            },
    {
        match self.total_minted.checked_add(amount) {
            Some(sum) => {
                self.total_minted = sum;
                Ok(())
            },
            None => Err(BridgeError::Overflow),
        }
    }

    /// Checked addition to the burned accumulator. Succeeds exactly when
    /// the sum fits in 64 bits; on overflow nothing changes.
    pub fn add_burned(&mut self, amount: u64) -> (r: Result<(), BridgeError>)
        ensures
            final(self).total_minted == old(self).total_minted,
            match r {
                Ok(()) => {
                    &&& old(self).total_burned + amount <= u64::MAX
                    &&& final(self).total_burned == old(self).total_burned + amount
                },
                Err(e) => {
                    &&& e == BridgeError::Overflow
                    &&& old(self).total_burned + amount > u64::MAX
                    &&& final(self).total_burned == old(self).total_burned
                },
            },
    {
        match self.total_burned.checked_add(amount) {
            Some(sum) => {
                self.total_burned = sum;
                Ok(())
            },
            None => Err(BridgeError::Overflow),
        }
    }
}

} // verus!
