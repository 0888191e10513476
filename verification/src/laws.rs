use vstd::prelude::*;
use crate::errors::BridgeError;
use crate::state::{spec_credit_deposit, spec_request_withdrawal, view_wf, BridgeView};

verus! {

/// One bridge operation, as the state machine sees it.
pub enum BridgeOp {
    CreditDeposit { amount: u64, source_tx_id: Seq<char> },
    RequestWithdrawal { amount: u64, destination: Seq<char> },
}

/// The state after one operation: the transition's result, or the same
/// state when the operation fails (a failed call changes nothing).
pub open spec fn apply_op(v: BridgeView, op: BridgeOp) -> BridgeView {
    let step = match op {
        BridgeOp::CreditDeposit { amount, source_tx_id } => spec_credit_deposit(
            v,
            amount,
            source_tx_id,
        ),
        BridgeOp::RequestWithdrawal { amount, destination } => spec_request_withdrawal(
            v,
            amount,
            destination,
        ),
    };
    match step {
        Ok(w) => w,
        Err(_) => v,
    }
}

/// The state after a whole sequence of operations, applied in order.
pub open spec fn run_ops(v: BridgeView, ops: Seq<BridgeOp>) -> BridgeView
    decreases ops.len(),
{
    if ops.len() == 0 {
        v
    } else {
        run_ops(apply_op(v, ops[0]), ops.drop_first())
    }
}

/// Law: the authority set at initialization is immutable. No sequence of
/// deposits and withdrawal requests — successful or failed — changes it,
/// nor the registry's capacity bound.
pub proof fn lemma_authority_immutable(v: BridgeView, ops: Seq<BridgeOp>)
    ensures
        run_ops(v, ops).authority == v.authority,
        run_ops(v, ops).capacity == v.capacity,
    decreases ops.len(),
{
    if ops.len() > 0 {
        lemma_authority_immutable(apply_op(v, ops[0]), ops.drop_first());
    }
}

proof fn lemma_step_wf(v: BridgeView, op: BridgeOp)
    requires
        view_wf(v),
    ensures
        view_wf(apply_op(v, op)),
{
    let w = apply_op(v, op);
    if let BridgeOp::CreditDeposit { amount, source_tx_id } = op {
        if spec_credit_deposit(v, amount, source_tx_id) is Ok {
            let p2 = v.processed.push(source_tx_id);
            assert forall|i: int, j: int| 0 <= i < j < p2.len() implies p2[i] != p2[j] by {
                if j == v.processed.len() && p2[i] == source_tx_id {
                    assert(v.processed[i] == source_tx_id);
                    assert(v.processed.contains(source_tx_id));
                }
            }
        }
    }
}

/// Law: the state invariant is preserved by every sequence of operations —
/// the registry never comes to hold a duplicate identifier and never
/// exceeds its capacity bound.
pub proof fn lemma_wf_preserved(v: BridgeView, ops: Seq<BridgeOp>)
    requires
        view_wf(v),
    ensures
        view_wf(run_ops(v, ops)),
    decreases ops.len(),
{
    if ops.len() > 0 {
        lemma_step_wf(v, ops[0]);
        lemma_wf_preserved(apply_op(v, ops[0]), ops.drop_first());
    }
}

/// Law: the accumulators never decrease, and the registry is append-only —
/// whatever operations run, every identifier already credited stays, in
/// its place.
pub proof fn lemma_monotone(v: BridgeView, ops: Seq<BridgeOp>)
    ensures
        run_ops(v, ops).total_minted >= v.total_minted,
        run_ops(v, ops).total_burned >= v.total_burned,
        run_ops(v, ops).processed.len() >= v.processed.len(),
        forall|i: int|
            0 <= i < v.processed.len() ==> run_ops(v, ops).processed[i] == v.processed[i],
    decreases ops.len(),
{
    if ops.len() > 0 {
        let w = apply_op(v, ops[0]);
        lemma_monotone(w, ops.drop_first());
        assert(run_ops(v, ops) == run_ops(w, ops.drop_first()));
        assert forall|i: int|
            0 <= i < v.processed.len() implies run_ops(v, ops).processed[i] == v.processed[i] by {
            assert(w.processed[i] == v.processed[i]);
        }
    }
}

/// One requested deposit: its amount and its source transaction id.
pub struct DepositCall {
    pub amount: u64,
    pub source_tx_id: Seq<char>,
}

/// The state after a sequence of deposit calls, applied in order; a failed
/// call changes nothing.
pub open spec fn run_deposits(v: BridgeView, calls: Seq<DepositCall>) -> BridgeView
    decreases calls.len(),
{
    if calls.len() == 0 {
        v
    } else {
        let w = match spec_credit_deposit(v, calls[0].amount, calls[0].source_tx_id) {
            Ok(w) => w,
            Err(_) => v,
        };
        run_deposits(w, calls.drop_first())
    }
}

/// Every call in the sequence succeeds, each from the state the previous
/// ones produced.
pub open spec fn deposits_all_succeed(v: BridgeView, calls: Seq<DepositCall>) -> bool
    decreases calls.len(),
{
    calls.len() == 0 || {
        &&& spec_credit_deposit(v, calls[0].amount, calls[0].source_tx_id) is Ok
        &&& deposits_all_succeed(
            spec_credit_deposit(v, calls[0].amount, calls[0].source_tx_id)->Ok_0,
            calls.drop_first(),
        )
    }
}

/// The sum of the amounts of a sequence of deposit calls.
pub open spec fn sum_of_deposit_amounts(calls: Seq<DepositCall>) -> int
    decreases calls.len(),
{
    if calls.len() == 0 {
        0
    } else {
        calls[0].amount + sum_of_deposit_amounts(calls.drop_first())
    }
}

/// Law (conservation, minting): after any sequence of successful
/// `credit_deposit` calls, `total_minted` has grown by exactly the sum of
/// their amounts — and `total_burned` has not moved.
pub proof fn lemma_minted_conservation(v: BridgeView, calls: Seq<DepositCall>)
    requires
        deposits_all_succeed(v, calls),
    ensures
        run_deposits(v, calls).total_minted == v.total_minted + sum_of_deposit_amounts(calls),
        run_deposits(v, calls).total_burned == v.total_burned,
    decreases calls.len(),
{
    if calls.len() > 0 {
        let w = spec_credit_deposit(v, calls[0].amount, calls[0].source_tx_id)->Ok_0;
        lemma_minted_conservation(w, calls.drop_first());
    }
}

/// One requested withdrawal: its amount and its destination address.
pub struct WithdrawalCall {
    pub amount: u64,
    pub destination: Seq<char>,
}

/// The state after a sequence of withdrawal requests, applied in order; a
/// failed call changes nothing.
pub open spec fn run_withdrawals(v: BridgeView, calls: Seq<WithdrawalCall>) -> BridgeView
    decreases calls.len(),
{
    if calls.len() == 0 {
        v
    } else {
        let w = match spec_request_withdrawal(v, calls[0].amount, calls[0].destination) {
            Ok(w) => w,
            Err(_) => v,
        };
        run_withdrawals(w, calls.drop_first())
    }
}

/// Every withdrawal in the sequence succeeds, each from the state the
/// previous ones produced.
pub open spec fn withdrawals_all_succeed(v: BridgeView, calls: Seq<WithdrawalCall>) -> bool
    decreases calls.len(),
{
    calls.len() == 0 || {
        &&& spec_request_withdrawal(v, calls[0].amount, calls[0].destination) is Ok
        &&& withdrawals_all_succeed(
            spec_request_withdrawal(v, calls[0].amount, calls[0].destination)->Ok_0,
            calls.drop_first(),
        )
    }
}

/// The sum of the amounts of a sequence of withdrawal requests.
pub open spec fn sum_of_withdrawal_amounts(calls: Seq<WithdrawalCall>) -> int
    decreases calls.len(),
{
    if calls.len() == 0 {
        0
    } else {
        calls[0].amount + sum_of_withdrawal_amounts(calls.drop_first())
    }
}

/// Law (conservation, burning): after any sequence of successful
/// `request_withdrawal` calls, `total_burned` has grown by exactly the sum
/// of their amounts — and `total_minted` has not moved.
pub proof fn lemma_burned_conservation(v: BridgeView, calls: Seq<WithdrawalCall>)
    requires
        withdrawals_all_succeed(v, calls),
    ensures
        run_withdrawals(v, calls).total_burned == v.total_burned + sum_of_withdrawal_amounts(calls),
        run_withdrawals(v, calls).total_minted == v.total_minted,
    decreases calls.len(),
{
    if calls.len() > 0 {
        let w = spec_request_withdrawal(v, calls[0].amount, calls[0].destination)->Ok_0;
        lemma_burned_conservation(w, calls.drop_first());
    }
}

/// Law (replay protection): once a deposit with a given id has succeeded,
/// a second deposit with the same id always fails — with `AlreadyProcessed`
/// whenever the second amount is itself valid (a zero second amount is
/// refused as `InvalidAmount` before the registry is even consulted) — and
/// the minted total reflects the first call's amount alone.
pub proof fn lemma_deposit_idempotent(
    v: BridgeView,
    first_amount: u64,
    second_amount: u64,
    source_tx_id: Seq<char>,
)
    requires
        spec_credit_deposit(v, first_amount, source_tx_id) is Ok,
    ensures
        ({
            let w = spec_credit_deposit(v, first_amount, source_tx_id)->Ok_0;
            &&& spec_credit_deposit(w, second_amount, source_tx_id) is Err
            &&& second_amount != 0 ==> spec_credit_deposit(w, second_amount, source_tx_id)
                == Err::<BridgeView, BridgeError>(BridgeError::AlreadyProcessed)
            &&& w.total_minted == v.total_minted + first_amount
        }),
{
    let w = spec_credit_deposit(v, first_amount, source_tx_id)->Ok_0;
    assert(w.processed == v.processed.push(source_tx_id));
    assert(w.processed[v.processed.len() as int] == source_tx_id);
    assert(w.processed.contains(source_tx_id));
}

} // verus!
