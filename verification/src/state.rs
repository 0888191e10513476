use vstd::prelude::*;
use crate::errors::BridgeError;
use crate::ledger::AccountingLedger;
use crate::records::{DepositReceipt, WithdrawalRequest};
use crate::registry::{no_duplicates, ReplayRegistry};
use crate::text::{is_valid_withdrawal_address, valid_withdrawal_address};

verus! {

/// The mathematical content of a [`BridgeState`]: who administers the
/// bridge, the opaque sequence number, the identifiers credited so far,
/// the registry's capacity bound, and the two accumulators.
pub struct BridgeView {
    pub authority: Seq<char>,
    pub nonce: u64,
    pub processed: Seq<Seq<char>>,
    pub capacity: nat,
    pub total_minted: u64,
    pub total_burned: u64,
}

/// The invariant every reachable bridge state satisfies: the registry
/// holds no duplicate identifier and respects its capacity bound.
pub open spec fn view_wf(v: BridgeView) -> bool {
    &&& no_duplicates(v.processed)
    &&& v.processed.len() <= v.capacity
}

/// The nonce after one successful transition: one more, held at the top of
/// the 64-bit range rather than wrapping. It is an opaque sequence number,
/// reserved for future use; nothing reads it.
pub open spec fn bumped_nonce(n: u64) -> u64 {
    if n < u64::MAX {
        (n + 1) as u64
    } else {
        n
    }
}

/// What `credit_deposit` does, as a single atomic transition: either the
/// next state, or the error that aborts the call with no state change.
/// The checks run in a fixed order, so the first failing one names the
/// error: amount, then identifier shape, then replay, then capacity, then
/// accounting overflow.
pub open spec fn spec_credit_deposit(v: BridgeView, amount: u64, source_tx_id: Seq<char>) -> Result<
    BridgeView,
    BridgeError,
> {
    if amount == 0 {
        Err(BridgeError::InvalidAmount)
    } else if source_tx_id.len() == 0 {
        Err(BridgeError::InvalidTxHash)
    } else if v.processed.contains(source_tx_id) {
        Err(BridgeError::AlreadyProcessed)
    } else if v.processed.len() >= v.capacity {
        Err(BridgeError::RegistryFull)
    } else if v.total_minted + amount > u64::MAX {
        Err(BridgeError::Overflow)
    } else {
        Ok(
            BridgeView {
                nonce: bumped_nonce(v.nonce),
                processed: v.processed.push(source_tx_id),
                total_minted: (v.total_minted + amount) as u64,
                ..v
            },
        )
    }
}

/// What `request_withdrawal` does, as a single atomic transition: checks
/// run in order — amount, then address format, then accounting overflow —
/// and the first failing one aborts the call with no state change.
pub open spec fn spec_request_withdrawal(v: BridgeView, amount: u64, destination: Seq<char>) -> Result<
    BridgeView,
    BridgeError,
> {
    if amount == 0 {
        Err(BridgeError::InvalidAmount)
    } else if !valid_withdrawal_address(destination) {
        Err(BridgeError::InvalidAddress)
    } else if v.total_burned + amount > u64::MAX {
        Err(BridgeError::Overflow)
    } else {
        Ok(
            BridgeView {
                nonce: bumped_nonce(v.nonce),
                total_burned: (v.total_burned + amount) as u64,
                ..v
            },
        )
    }
}

/// The state the bridge carries for the lifetime of a deployment.
pub struct BridgeState {
    authority: String,
    nonce: u64,
    registry: ReplayRegistry,
    ledger: AccountingLedger,
}

impl View for BridgeState {
    type V = BridgeView;

    closed spec fn view(&self) -> BridgeView {
        BridgeView {
            authority: self.authority@,
            nonce: self.nonce,
            processed: self.registry@.entries,
            capacity: self.registry@.capacity,
            total_minted: self.ledger.total_minted,
            total_burned: self.ledger.total_burned,
        }
    }
}

impl BridgeState {
    /// The state invariant: the registry holds no duplicate identifier and
    /// respects its capacity bound.
    pub open spec fn wf(&self) -> bool {
        view_wf(self@)
    }

    /// Creates the deployment's state: the caller becomes the immutable
    /// authority, both accumulators start at zero, the registry starts
    /// empty with the given capacity bound.
    pub fn initialize(authority: String, registry_capacity: usize) -> (r: BridgeState)
        ensures
            r.wf(),
            r@ == (BridgeView {
                authority: authority@,
                nonce: 0,
                processed: Seq::<Seq<char>>::empty(),
                capacity: registry_capacity as nat,
                total_minted: 0,
                total_burned: 0,
            }),
    {
        BridgeState {
            authority,
            nonce: 0,
            registry: ReplayRegistry::new(registry_capacity),
            ledger: AccountingLedger::new(),
        }
    }

    /// Rebuilds the state from its persisted parts, validating the
    /// invariant: returns `None` exactly when the recorded identifiers
    /// hold a duplicate or exceed the capacity bound.
    pub fn from_parts(
        authority: String,
        nonce: u64,
        processed: Vec<String>,
        registry_capacity: usize,
        total_minted: u64,
        total_burned: u64,
    ) -> (r: Option<BridgeState>)
        ensures
            match r {
                Some(s) => {
                    &&& s.wf()
                    &&& s@ == (BridgeView {
                        authority: authority@,
                        nonce,
                        processed: processed.deep_view(),
                        capacity: registry_capacity as nat,
                        total_minted,
                        total_burned,
                    })
                },
                None => !(no_duplicates(processed.deep_view()) && processed.deep_view().len()
                    <= registry_capacity as nat),
            },
    {
        match ReplayRegistry::from_entries(processed, registry_capacity) {
            Some(registry) => Some(
                BridgeState {
                    authority,
                    nonce,
                    registry,
                    ledger: AccountingLedger { total_minted, total_burned },
                },
            ),
            None => None,
        }
    }

    /// Identity of the administrator who initialized the bridge. No
    /// operation ever changes it.
    pub fn authority(&self) -> (r: &String)
        ensures
            r@ == self@.authority,
    {
        &self.authority
    }

    /// The opaque sequence number.
    pub fn nonce(&self) -> (r: u64)
        ensures
            r == self@.nonce,
    {
        self.nonce
    }

    /// Cumulative amount minted by successful deposits.
    pub fn total_minted(&self) -> (r: u64)
        ensures
            r == self@.total_minted,
    {
        self.ledger.total_minted
    }

    /// Cumulative amount burned by successful withdrawal requests.
    pub fn total_burned(&self) -> (r: u64)
        ensures
            r == self@.total_burned,
    {
        self.ledger.total_burned
    }

    /// The credited deposit identifiers, oldest first.
    pub fn processed_ids(&self) -> (r: &Vec<String>)
        ensures
            r.deep_view() == self@.processed,
    {
        self.registry.entries()
    }

    /// How many deposit identifiers have been credited.
    pub fn processed_count(&self) -> (r: usize)
        ensures
            r == self@.processed.len(),
    {
        self.registry.len()
    }

    /// The registry's capacity bound.
    pub fn registry_capacity(&self) -> (r: usize)
        ensures
            r == self@.capacity,
    {
        self.registry.capacity()
    }

    /// Replay query: has this source-chain transaction been credited?
    pub fn is_processed(&self, tx_hash: &str) -> (r: bool)
        ensures
            r == self@.processed.contains(tx_hash@),
    {
        self.registry.is_processed(tx_hash)
    }

    /// Credits one source-chain deposit: validates the amount and the
    /// identifier, refuses replays and a full registry, then records the
    /// identifier and adds the amount to `total_minted`, all or nothing,
    /// exactly as [`spec_credit_deposit`] says. On success the returned
    /// receipt carries the amount, the destination account and the
    /// identifier, for off-chain observers.
    pub fn credit_deposit(&mut self, amount: u64, destination: String, source_tx_id: String) -> (r:
        Result<DepositReceipt, BridgeError>)
        requires
            old(self).wf(),
        ensures
            final(self).wf(),
            match spec_credit_deposit(old(self)@, amount, source_tx_id@) {
                Ok(v) => {
                    &&& final(self)@ == v
                    &&& r matches Ok(receipt) && receipt.amount == amount
                        && receipt.destination@ == destination@ && receipt.source_tx_id@
                        == source_tx_id@
                },
                Err(e) => {
                    &&& final(self)@ == old(self)@
                    &&& r matches Err(actual) && actual == e
                },
            },
    {
        if amount == 0 {
            return Err(BridgeError::InvalidAmount);
        }
        if source_tx_id.as_str().is_empty() {
            return Err(BridgeError::InvalidTxHash);
        }
        if self.registry.is_processed(source_tx_id.as_str()) {
            return Err(BridgeError::AlreadyProcessed);
        }
        if self.registry.len() >= self.registry.capacity() {
            return Err(BridgeError::RegistryFull);
        }
        if amount > u64::MAX - self.ledger.total_minted {
            return Err(BridgeError::Overflow);
        }
        // Every check has passed; from here the transition commits fully.
        let receipt_tx_id = source_tx_id.clone();
        match self.registry.record(source_tx_id) {
            Ok(()) => {},
            Err(e) => {
                proof {
                    assert(false);
                }
                return Err(e);
            },
        }
        match self.ledger.add_minted(amount) {
            Ok(()) => {},
            Err(e) => {
                proof {
                    assert(false);
                }
                return Err(e);
            },
        }
        if self.nonce < u64::MAX {
            self.nonce = self.nonce + 1;
        }
        Ok(DepositReceipt { amount, destination, source_tx_id: receipt_tx_id })
    }

    /// Accepts one withdrawal request: validates the amount and the
    /// destination address, then adds the amount to `total_burned`, all or
    /// nothing, exactly as [`spec_request_withdrawal`] says. On success the
    /// returned request carries the caller identity, the destination and
    /// the amount; its `render` method gives the relayer's wire format.
    pub fn request_withdrawal(&mut self, amount: u64, caller: String, destination: String) -> (r:
        Result<WithdrawalRequest, BridgeError>)
        requires
            old(self).wf(),
        ensures
            final(self).wf(),
            match spec_request_withdrawal(old(self)@, amount, destination@) {
                Ok(v) => {
                    &&& final(self)@ == v
                    &&& r matches Ok(request) && request.amount == amount && request.caller@
                        == caller@ && request.destination@ == destination@
                },
                Err(e) => {
                    &&& final(self)@ == old(self)@
                    &&& r matches Err(actual) && actual == e
                },
            },
    {
        if amount == 0 {
            return Err(BridgeError::InvalidAmount);
        }
        if !is_valid_withdrawal_address(destination.as_str()) {
            return Err(BridgeError::InvalidAddress);
        }
        match self.ledger.add_burned(amount) {
            Ok(()) => {},
            Err(e) => {
                return Err(e);
            },
        }
        if self.nonce < u64::MAX {
            self.nonce = self.nonce + 1;
        }
        Ok(WithdrawalRequest { caller, destination, amount })
    }
}

/// One deployment slot: empty until `initialize`, then holding the bridge
/// state for the lifetime of the deployment. A second `initialize` fails
/// rather than silently succeeding, and every other operation fails until
/// the first one has run.
pub struct Bridge {
    state: Option<BridgeState>,
}

impl View for Bridge {
    type V = Option<BridgeView>;

    closed spec fn view(&self) -> Option<BridgeView> {
        match self.state {
            Some(s) => Some(s@),
            None => None,
        }
    }
}

impl Bridge {
    /// The deployment invariant: whatever state exists is well formed.
    pub open spec fn wf(&self) -> bool {
        self@ matches Some(v) ==> view_wf(v)
    }

    /// An uninitialized deployment slot.
    pub fn new() -> (r: Bridge)
        ensures
            r.wf(),
            r@ is None,
    {
        Bridge { state: None }
    }

    /// Creates the deployment's state; fails with `AlreadyInitialized`, and
    /// changes nothing, if state already exists.
    pub fn initialize(&mut self, authority: String, registry_capacity: usize) -> (r: Result<
        (),
        BridgeError,
    >)
        requires
            old(self).wf(),
        ensures
            final(self).wf(),
            match old(self)@ {
                None => {
                    &&& r matches Ok(())
                    &&& final(self)@ == Some(
                        BridgeView {
                            authority: authority@,
                            nonce: 0,
                            processed: Seq::<Seq<char>>::empty(),
                            capacity: registry_capacity as nat,
                            total_minted: 0,
                            total_burned: 0,
                        },
                    )
                },
                Some(v) => {
                    &&& r matches Err(e) && e == BridgeError::AlreadyInitialized
                    &&& final(self)@ == old(self)@
                },
            },
    {
        match self.state {
            Some(_) => Err(BridgeError::AlreadyInitialized),
            None => {
                self.state = Some(BridgeState::initialize(authority, registry_capacity));
                Ok(())
            },
        }
    }

    /// Read access to the deployment's state, once initialized.
    pub fn state(&self) -> (r: Option<&BridgeState>)
        ensures
            match r {
                Some(s) => self@ == Some(s@),
                None => self@ is None,
            },
    {
        match &self.state {
            Some(s) => Some(s),
            None => None,
        }
    }

    /// [`BridgeState::credit_deposit`] on an initialized deployment;
    /// `NotInitialized`, and no change, before `initialize`.
    pub fn credit_deposit(&mut self, amount: u64, destination: String, source_tx_id: String) -> (r:
        Result<DepositReceipt, BridgeError>)
        requires
            old(self).wf(),
        ensures
            final(self).wf(),
            match old(self)@ {
                None => {
                    &&& r matches Err(e) && e == BridgeError::NotInitialized
                    &&& final(self)@ == old(self)@
                },
                Some(v) => match spec_credit_deposit(v, amount, source_tx_id@) {
                    Ok(w) => {
                        &&& final(self)@ == Some(w)
                        &&& r matches Ok(receipt) && receipt.amount == amount
                            && receipt.destination@ == destination@ && receipt.source_tx_id@
                            == source_tx_id@
                    },
                    Err(e) => {
                        &&& final(self)@ == old(self)@
                        &&& r matches Err(actual) && actual == e
                    },
                },
            },
    {
        match &mut self.state {
            Some(s) => s.credit_deposit(amount, destination, source_tx_id),
            None => Err(BridgeError::NotInitialized),
        }
    }

    /// [`BridgeState::request_withdrawal`] on an initialized deployment;
    /// `NotInitialized`, and no change, before `initialize`.
    pub fn request_withdrawal(&mut self, amount: u64, caller: String, destination: String) -> (r:
        Result<WithdrawalRequest, BridgeError>)
        requires
            old(self).wf(),
        ensures
            final(self).wf(),
            match old(self)@ {
                None => {
                    &&& r matches Err(e) && e == BridgeError::NotInitialized
                    &&& final(self)@ == old(self)@
                },
                Some(v) => match spec_request_withdrawal(v, amount, destination@) {
                    Ok(w) => {
                        &&& final(self)@ == Some(w)
                        &&& r matches Ok(request) && request.amount == amount && request.caller@
                            == caller@ && request.destination@ == destination@
                    },
                    Err(e) => {
                        &&& final(self)@ == old(self)@
                        &&& r matches Err(actual) && actual == e
                    },
                },
            },
    {
        match &mut self.state {
            Some(s) => s.request_withdrawal(amount, caller, destination),
            None => Err(BridgeError::NotInitialized),
        }
    }
}

} // verus!
