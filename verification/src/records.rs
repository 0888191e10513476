use vstd::prelude::*;
use vstd::string::StringExecFns;
use crate::text::dec_chars;

verus! {

/// Auditable record of one credited deposit, for off-chain observers.
pub struct DepositReceipt {
    /// Amount of the wrapped asset minted.
    pub amount: u64,
    /// The destination account the amount was minted into.
    pub destination: String,
    /// The source-chain transaction identifier that was credited.
    pub source_tx_id: String,
}

/// The stable, machine-parseable shape of a withdrawal-request record:
/// `WITHDRAW:<caller>:<destination>:<amount>`, the amount in decimal.
/// The relayer consumes records of exactly this shape; it must not change.
pub open spec fn withdrawal_record(caller: Seq<char>, destination: Seq<char>, amount: u64) -> Seq<
    char,
> {
    "WITHDRAW:"@ + caller + ":"@ + destination + ":"@ + dec_chars(amount as nat)
}

/// Auditable record of one accepted withdrawal request, to be emitted for
/// the relayer to consume exactly once.
pub struct WithdrawalRequest {
    /// Identity of the caller whose funds were burned.
    pub caller: String,
    /// The source-chain address the unlocked funds should go to.
    pub destination: String,
    /// Amount of the wrapped asset burned.
    pub amount: u64,
}

impl WithdrawalRequest {
    /// Renders the record in the relayer's wire format.
    pub fn render(&self) -> (r: String)
        ensures
            r@ == withdrawal_record(self.caller@, self.destination@, self.amount),
    {
        let mut s: String = "WITHDRAW:".to_owned();
        s.append(self.caller.as_str());
        s.append(":");
        s.append(self.destination.as_str());
        s.append(":");
        let amount_text = crate::text::u64_to_dec(self.amount);
        s.append(amount_text.as_str());
        proof {
            assert(s@ =~= withdrawal_record(self.caller@, self.destination@, self.amount));
        }
        s
    }
}

} // verus!
