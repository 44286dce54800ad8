//! The custody vault: a funded reward is paid out at most once per claim.
//!
//! The value transfers themselves belong to the surrounding environment;
//! here a deposit arrives as its amount, and a payout is first authorized —
//! which durably marks the claim — and then settled with the transfer's
//! confirmed outcome. The claim flag is set before any transfer is
//! attempted, so a failed or replayed transfer can never reopen a claim:
//! the design accepts a frozen payout over a double one.

use vstd::prelude::*;

use crate::store::AssocMap;
use crate::{AccountId, Balance};

verus! {

/// Notification that the vault took a deposit.
#[derive(Clone, Copy, PartialEq, Eq, Structural, Debug)]
pub struct Funded {
    pub from: AccountId,
    pub amount: Balance,
}

/// Notification that a bounty left the vault.
#[derive(Clone, Copy, PartialEq, Eq, Structural, Debug)]
pub struct Withdrawn {
    pub to: AccountId,
    pub proof_id: u64,
    pub amount: Balance,
}

#[derive(Clone, Copy, PartialEq, Eq, Structural, Debug)]
pub enum VaultError {
    /// A deposit must carry value.
    ZeroDeposit,
    /// The held balance cannot grow past the unsigned range.
    Overflow,
    /// Only the authorized registry may initiate a withdrawal.
    NotAuthorized,
    /// The bounty for this claim was already paid.
    AlreadyClaimed,
    /// The vault does not hold enough to pay the bounty.
    InsufficientFunds,
}

/// A payout that [`BountyVault::withdraw`] has authorized: the claim is
/// marked, and the environment owes `to` a transfer of `amount`.
#[derive(Clone, Copy, PartialEq, Eq, Structural, Debug)]
pub struct Payout {
    pub to: AccountId,
    pub proof_id: u64,
    pub amount: Balance,
}

/// The vault state, as the contracts speak of it.
pub struct VaultView {
    pub registry: AccountId,
    pub bounty_amount: Balance,
    pub owner: AccountId,
    pub balance: Balance,
    pub claimed: Map<u64, bool>,
}

impl VaultView {
    /// Whether the bounty for `proof_id` was claimed.
    pub open spec fn is_claimed(self, proof_id: u64) -> bool {
        self.claimed.contains_key(proof_id) && self.claimed[proof_id]
    }

    /// Which error `fund` returns, `None` meaning success.
    pub open spec fn fund_err(self, amount: Balance) -> Option<VaultError> {
        if amount == 0 {
            Some(VaultError::ZeroDeposit)
        } else if self.balance + amount > u128::MAX {
            Some(VaultError::Overflow)
        } else {
            None
        }
    }

    /// Which error `withdraw` returns, `None` meaning the payout is
    /// authorized.
    pub open spec fn withdraw_err(self, caller: AccountId, proof_id: u64) -> Option<VaultError> {
        if caller != self.registry {
            Some(VaultError::NotAuthorized)
        } else if self.is_claimed(proof_id) {
            Some(VaultError::AlreadyClaimed)
        } else if self.bounty_amount > 0 && self.balance < self.bounty_amount {
            Some(VaultError::InsufficientFunds)
        } else if self.bounty_amount == 0 && self.balance == 0 {
            Some(VaultError::InsufficientFunds)
        } else {
            None
        }
    }

    /// What a payout authorized now would move: the fixed bounty when one
    /// is configured, the whole held balance otherwise.
    pub open spec fn payout_amount(self) -> Balance {
        if self.bounty_amount > 0 {
            self.bounty_amount
        } else {
            self.balance
        }
    }
}

/// The custody vault.
pub struct BountyVault {
    /// The one account authorized to initiate withdrawals.
    registry: AccountId,
    /// Which bounties were claimed.
    claimed: AssocMap<u64, bool>,
    /// Fixed bounty per claim; zero means the whole balance is the bounty.
    bounty_amount: Balance,
    /// The instantiating account.
    owner: AccountId,
    /// The value the vault holds.
    balance: Balance,
}

impl View for BountyVault {
    type V = VaultView;

    closed spec fn view(&self) -> VaultView {
        VaultView {
            registry: self.registry,
            bounty_amount: self.bounty_amount,
            owner: self.owner,
            balance: self.balance,
            claimed: self.claimed@,
        }
    }
}

impl BountyVault {
    /// Instantiate the vault with `registry` as the authorized withdrawer;
    /// `caller` is the instantiating account.
    pub fn new(caller: AccountId, registry: AccountId, bounty_amount: Balance) -> (r: Self)
        ensures
            r@.registry == registry,
            r@.bounty_amount == bounty_amount,
            r@.owner == caller,
            r@.balance == 0,
            r@.claimed == Map::<u64, bool>::empty(),
    {
        BountyVault { registry, claimed: AssocMap::new(), bounty_amount, owner: caller, balance: 0 }
    }

    /// Take a deposit of `amount` into the held balance.
    pub fn fund(&mut self, amount: Balance) -> (r: Result<(), VaultError>)
        ensures
            old(self)@.fund_err(amount) is Some ==> {
                &&& r == Err::<(), VaultError>(old(self)@.fund_err(amount)->0)
                &&& final(self)@ == old(self)@
            },
            old(self)@.fund_err(amount) is None ==> {
                &&& r == Ok::<(), VaultError>(())
                &&& final(self)@ == (VaultView {
                    balance: (old(self)@.balance + amount) as Balance,
                    ..old(self)@
                })
            },
    {
        if amount == 0 {
            return Err(VaultError::ZeroDeposit);
        }
        if self.balance > u128::MAX - amount {
            return Err(VaultError::Overflow);
        }
        self.balance = self.balance + amount;
        Ok(())
    }

    /// Authorize the payout for `proof_id` to `to`. On success the claim is
    /// marked — before any transfer is attempted — and the returned
    /// [`Payout`] names the transfer the environment owes; its confirmed
    /// outcome is then handed to [`Self::settle_payout`]. The held balance
    /// does not move until the transfer is confirmed.
    pub fn withdraw(&mut self, caller: AccountId, proof_id: u64, to: AccountId) -> (r: Result<
        Payout,
        VaultError,
    >)
        ensures
            old(self)@.withdraw_err(caller, proof_id) is Some ==> {
                &&& r == Err::<Payout, VaultError>(old(self)@.withdraw_err(caller, proof_id)->0)
                &&& final(self)@ == old(self)@
            },
            old(self)@.withdraw_err(caller, proof_id) is None ==> {
                &&& r == Ok::<Payout, VaultError>(
                    (Payout { to, proof_id, amount: old(self)@.payout_amount() }),
                )
                &&& final(self)@ == (VaultView {
                    claimed: old(self)@.claimed.insert(proof_id, true),
                    ..old(self)@
                })
            },
            // a claim once marked is never unmarked
            forall|q: u64|
                old(self)@.is_claimed(q) ==> #[trigger] final(self)@.is_claimed(q),
    {
        if caller != self.registry {
            return Err(VaultError::NotAuthorized);
        }
        let already = match self.claimed.get(&proof_id) {
            Some(b) => b,
            None => false,
        };
        if already {
            return Err(VaultError::AlreadyClaimed);
        }
        let amount = if self.bounty_amount > 0 {
            if self.balance < self.bounty_amount {
                return Err(VaultError::InsufficientFunds);
            }
            self.bounty_amount
        } else {
            if self.balance == 0 {
                return Err(VaultError::InsufficientFunds);
            }
            self.balance
        };
        self.claimed.insert(proof_id, true);
        Ok(Payout { to, proof_id, amount })
    }

    /// Settle an authorized payout with the transfer's outcome. A confirmed
    /// transfer moves the amount out of the held balance and yields the
    /// notification to publish; a failed one changes nothing — in
    /// particular the claim stays marked, frozen rather than claimable
    /// twice.
    pub fn settle_payout(&mut self, payout: Payout, transferred: bool) -> (r: Option<Withdrawn>)
        requires
            transferred ==> payout.amount <= old(self)@.balance,
        ensures
            transferred ==> {
                &&& r == Some(
                    (Withdrawn {
                        to: payout.to,
                        proof_id: payout.proof_id,
                        amount: payout.amount,
                    }),
                )
                &&& final(self)@ == (VaultView {
                    balance: (old(self)@.balance - payout.amount) as Balance,
                    ..old(self)@
                })
            },
            !transferred ==> r is None && final(self)@ == old(self)@,
    {
        if !transferred {
            return None;
        }
        self.balance = self.balance - payout.amount;
        Some(Withdrawn { to: payout.to, proof_id: payout.proof_id, amount: payout.amount })
    }

    /// Whether the bounty for `proof_id` was claimed.
    pub fn is_claimed(&self, proof_id: u64) -> (r: bool)
        ensures
            r == self@.is_claimed(proof_id),
    {
        match self.claimed.get(&proof_id) {
            Some(b) => b,
            None => false,
        }
    }

    /// Get the authorized registry account.
    pub fn get_registry(&self) -> (r: AccountId)
        ensures
            r == self@.registry,
    {
        self.registry
    }

    /// Get the held balance.
    pub fn get_balance(&self) -> (r: Balance)
        ensures
            r == self@.balance,
    {
        self.balance
    }

    /// Get the configured bounty amount.
    pub fn get_bounty_amount(&self) -> (r: Balance)
        ensures
            r == self@.bounty_amount,
    {
        self.bounty_amount
    }
}

impl Default for BountyVault {
    fn default() -> (r: Self)
        ensures
            r@.registry == 0,
            r@.bounty_amount == 0,
            r@.owner == 0,
            r@.balance == 0,
            r@.claimed == Map::<u64, bool>::empty(),
    {
        BountyVault::new(0, 0, 0)
    }
}

/// No double claim: once the claim for a key is marked — as it is the
/// moment a `withdraw` succeeds — every further `withdraw` by the
/// authorized registry with the same key is refused with `AlreadyClaimed`,
/// and by `withdraw`'s contract the refused call leaves the state, the
/// held balance included, exactly as it was.
pub proof fn lemma_no_double_claim(v: VaultView, caller: AccountId, proof_id: u64)
    requires
        v.is_claimed(proof_id),
        caller == v.registry,
    ensures
        v.withdraw_err(caller, proof_id) == Some(VaultError::AlreadyClaimed),
{
}

} // verus!
