//! The governance engine: weighted proposals, votes, and execution.
//!
//! Voting weight is a ledger balance that only the surrounding environment
//! can read, and execution finalizes through a call into an external
//! registry; both enter here as arguments (the balance as the outcome of the
//! lookup, the registry call as its confirmed outcome), so every decision
//! the engine takes is verified for every possible answer.

use vstd::prelude::*;

use crate::store::{AssocMap, KeyPair};
use crate::{AccountId, Balance};

verus! {

#[derive(Clone, Copy, PartialEq, Eq, Structural, Debug)]
pub enum ProposalStatus {
    Pending,
    Approved,
    Rejected,
    Executed,
}

#[derive(Clone, Copy, PartialEq, Eq, Structural, Debug)]
pub struct Proposal {
    pub proposer: AccountId,
    pub registry: AccountId,
    pub proof_id: u64,
    pub votes_for: Balance,
    pub votes_against: Balance,
    pub status: ProposalStatus,
    pub created_at: u64,
}

/// Notification that a proposal was stored.
#[derive(Clone, Copy, PartialEq, Eq, Structural, Debug)]
pub struct ProposalCreated {
    pub id: u64,
    pub proposer: AccountId,
    pub proof_id: u64,
    pub registry: AccountId,
}

/// Notification that a vote was recorded.
#[derive(Clone, Copy, PartialEq, Eq, Structural, Debug)]
pub struct Voted {
    pub proposal_id: u64,
    pub voter: AccountId,
    pub support: bool,
    pub weight: Balance,
}

/// Notification that a proposal reached its terminal state.
#[derive(Clone, Copy, PartialEq, Eq, Structural, Debug)]
pub struct ProposalExecuted {
    pub id: u64,
    pub registry: AccountId,
    pub proof_id: u64,
}

#[derive(Clone, Copy, PartialEq, Eq, Structural, Debug)]
pub enum Error {
    /// Insufficient token balance.
    InsufficientTokens,
    /// Proposal not found.
    ProposalNotFound,
    /// Proposal is not in pending status.
    InvalidProposalStatus,
    /// Threshold not met for execution.
    ThresholdNotMet,
    /// User has already voted.
    AlreadyVoted,
    /// Cross-contract call failed.
    CallFailed,
    /// Only owner can perform this action.
    OnlyOwner,
    /// Arithmetic overflow.
    Overflow,
}

/// The key under which a vote record is stored.
pub open spec fn vote_key(proposal_id: u64, voter: AccountId) -> KeyPair<u64, AccountId> {
    KeyPair { fst: proposal_id, snd: voter }
}

/// The governance state, as the contracts speak of it.
pub struct DaoView {
    pub token: AccountId,
    pub min_tokens: Balance,
    pub threshold: Balance,
    pub owner: AccountId,
    pub next_id: u64,
    pub proposals: Map<u64, Proposal>,
    pub votes: Map<KeyPair<u64, AccountId>, Balance>,
}

impl DaoView {
    /// Well-formedness: every stored proposal carries an id that was
    /// allocated before the counter moved past it, so the next id is always
    /// fresh and ids are never reused.
    pub open spec fn wf(self) -> bool {
        forall|q: u64| #[trigger] self.proposals.contains_key(q) ==> q < self.next_id
    }

    /// The configuration and identity fields agree with `other`'s.
    pub open spec fn same_config(self, other: DaoView) -> bool {
        &&& self.token == other.token
        &&& self.min_tokens == other.min_tokens
        &&& self.threshold == other.threshold
        &&& self.owner == other.owner
    }

    /// Which error `create_proposal` returns, `None` meaning success.
    /// `balance` is the answer of the ledger lookup for the caller, `None`
    /// when that call did not confirm success.
    pub open spec fn create_err(self, balance: Option<Balance>) -> Option<Error> {
        if balance is None {
            Some(Error::CallFailed)
        } else if balance->0 < self.min_tokens {
            Some(Error::InsufficientTokens)
        } else if self.next_id == u64::MAX {
            Some(Error::Overflow)
        } else {
            None
        }
    }

    /// Which error `vote` returns, `None` meaning success.
    pub open spec fn vote_err(
        self,
        caller: AccountId,
        balance: Option<Balance>,
        proposal_id: u64,
        support: bool,
    ) -> Option<Error> {
        if self.votes.contains_key(vote_key(proposal_id, caller)) {
            Some(Error::AlreadyVoted)
        } else if balance is None {
            Some(Error::CallFailed)
        } else if balance->0 < self.min_tokens {
            Some(Error::InsufficientTokens)
        } else if !self.proposals.contains_key(proposal_id) {
            Some(Error::ProposalNotFound)
        } else if self.proposals[proposal_id].status != ProposalStatus::Pending {
            Some(Error::InvalidProposalStatus)
        } else if support && self.proposals[proposal_id].votes_for + balance->0 > u128::MAX {
            Some(Error::Overflow)
        } else if !support && self.proposals[proposal_id].votes_against + balance->0 > u128::MAX {
            Some(Error::Overflow)
        } else {
            None
        }
    }

    /// Which error `execute` returns before the registry is consulted,
    /// `None` meaning the registry call is due.
    pub open spec fn execute_err(self, balance: Option<Balance>, proposal_id: u64) -> Option<
        Error,
    > {
        if balance is None {
            Some(Error::CallFailed)
        } else if balance->0 < self.min_tokens {
            Some(Error::InsufficientTokens)
        } else if !self.proposals.contains_key(proposal_id) {
            Some(Error::ProposalNotFound)
        } else if self.proposals[proposal_id].status != ProposalStatus::Pending {
            Some(Error::InvalidProposalStatus)
        } else if self.proposals[proposal_id].votes_for < self.threshold {
            Some(Error::ThresholdNotMet)
        } else {
            None
        }
    }
}

/// A pending proposal with `weight` added to the chosen tally.
pub open spec fn with_vote(p: Proposal, weight: Balance, support: bool) -> Proposal {
    if support {
        (Proposal { votes_for: (p.votes_for + weight) as Balance, ..p })
    } else {
        (Proposal { votes_against: (p.votes_against + weight) as Balance, ..p })
    }
}

/// The governance engine.
pub struct BountyDAO {
    /// Account of the governance token ledger whose balances are weight.
    token: AccountId,
    /// Minimum token balance required to participate.
    min_tokens: Balance,
    /// Storage for all proposals.
    proposals: AssocMap<u64, Proposal>,
    /// Next proposal id.
    next_id: u64,
    /// Minimum `votes_for` required to execute a proposal.
    threshold: Balance,
    /// Who has voted on which proposal, with the weight recorded then.
    votes: AssocMap<KeyPair<u64, AccountId>, Balance>,
    /// The administrator.
    owner: AccountId,
}

impl View for BountyDAO {
    type V = DaoView;

    closed spec fn view(&self) -> DaoView {
        DaoView {
            token: self.token,
            min_tokens: self.min_tokens,
            threshold: self.threshold,
            owner: self.owner,
            next_id: self.next_id,
            proposals: self.proposals@,
            votes: self.votes@,
        }
    }
}

impl BountyDAO {
    /// `caller` is the instantiating account and becomes the administrator.
    pub fn new(caller: AccountId, token: AccountId, min_tokens: Balance, threshold: Balance) -> (r:
        Self)
        ensures
            r@.token == token,
            r@.min_tokens == min_tokens,
            r@.threshold == threshold,
            r@.owner == caller,
            r@.next_id == 1,
            r@.proposals == Map::<u64, Proposal>::empty(),
            r@.votes == Map::<KeyPair<u64, AccountId>, Balance>::empty(),
            r@.wf(),
    {
        BountyDAO {
            token,
            min_tokens,
            proposals: AssocMap::new(),
            next_id: 1,
            threshold,
            votes: AssocMap::new(),
            owner: caller,
        }
    }

    /// Store a new pending proposal to approve `proof_id` at `registry`.
    ///
    /// `caller_balance` is what the ledger answered for the caller, `None`
    /// when the lookup did not confirm success; `now` is the block time.
    pub fn create_proposal(
        &mut self,
        caller: AccountId,
        caller_balance: Option<Balance>,
        registry: AccountId,
        proof_id: u64,
        now: u64,
    ) -> (r: Result<u64, Error>)
        ensures
            old(self)@.create_err(caller_balance) is Some ==> {
                &&& r == Err::<u64, Error>(old(self)@.create_err(caller_balance)->0)
                &&& final(self)@ == old(self)@
            },
            old(self)@.create_err(caller_balance) is None ==> {
                &&& r == Ok::<u64, Error>(old(self)@.next_id)
                &&& final(self)@.next_id == old(self)@.next_id + 1
                &&& final(self)@.proposals == old(self)@.proposals.insert(
                    old(self)@.next_id,
                    (Proposal {
                        proposer: caller,
                        registry,
                        proof_id,
                        votes_for: 0,
                        votes_against: 0,
                        status: ProposalStatus::Pending,
                        created_at: now,
                    }),
                )
                &&& final(self)@.votes == old(self)@.votes
                &&& final(self)@.same_config(old(self)@)
            },
            old(self)@.wf() ==> final(self)@.wf(),
            // ids are never reused: allocating never touches a stored record
            old(self)@.wf() ==> forall|q: u64|
                #[trigger] old(self)@.proposals.contains_key(q)
                    ==> final(self)@.proposals.contains_key(q) && final(self)@.proposals[q]
                    == old(self)@.proposals[q],
    {
        let balance = match caller_balance {
            Some(b) => b,
            None => {
                return Err(Error::CallFailed);
            },
        };
        if balance < self.min_tokens {
            return Err(Error::InsufficientTokens);
        }
        if self.next_id == u64::MAX {
            return Err(Error::Overflow);
        }
        let id = self.next_id;
        self.next_id = id + 1;
        let proposal = Proposal {
            proposer: caller,
            registry,
            proof_id,
            votes_for: 0,
            votes_against: 0,
            status: ProposalStatus::Pending,
            created_at: now,
        };
        self.proposals.insert(id, proposal);
        Ok(id)
    }

    /// Record the caller's vote on `proposal_id`, weighted by the balance
    /// the ledger answered at this very moment.
    pub fn vote(
        &mut self,
        caller: AccountId,
        caller_balance: Option<Balance>,
        proposal_id: u64,
        support: bool,
    ) -> (r: Result<(), Error>)
        ensures
            old(self)@.vote_err(caller, caller_balance, proposal_id, support) is Some ==> {
                &&& r == Err::<(), Error>(
                    old(self)@.vote_err(caller, caller_balance, proposal_id, support)->0,
                )
                &&& final(self)@ == old(self)@
            },
            old(self)@.vote_err(caller, caller_balance, proposal_id, support) is None ==> {
                &&& r == Ok::<(), Error>(())
                &&& final(self)@.proposals == old(self)@.proposals.insert(
                    proposal_id,
                    with_vote(old(self)@.proposals[proposal_id], caller_balance->0, support),
                )
                &&& final(self)@.votes == old(self)@.votes.insert(
                    vote_key(proposal_id, caller),
                    caller_balance->0,
                )
                &&& final(self)@.next_id == old(self)@.next_id
                &&& final(self)@.same_config(old(self)@)
            },
            // a vote never moves any proposal out of its status
            forall|q: u64|
                old(self)@.proposals.contains_key(q) ==> final(self)@.proposals.contains_key(q)
                    && (#[trigger] final(self)@.proposals[q]).status
                    == old(self)@.proposals[q].status,
            // an executed record is immutable
            forall|q: u64|
                old(self)@.proposals.contains_key(q) && old(self)@.proposals[q].status
                    == ProposalStatus::Executed ==> (#[trigger] final(self)@.proposals[q])
                    == old(self)@.proposals[q],
            old(self)@.wf() ==> final(self)@.wf(),
    {
        if self.votes.contains_key(&(KeyPair { fst: proposal_id, snd: caller })) {
            return Err(Error::AlreadyVoted);
        }
        let weight = match caller_balance {
            Some(b) => b,
            None => {
                return Err(Error::CallFailed);
            },
        };
        if weight < self.min_tokens {
            return Err(Error::InsufficientTokens);
        }
        let mut proposal = match self.proposals.get(&proposal_id) {
            Some(p) => p,
            None => {
                return Err(Error::ProposalNotFound);
            },
        };
        if proposal.status != ProposalStatus::Pending {
            return Err(Error::InvalidProposalStatus);
        }
        if support {
            if proposal.votes_for > u128::MAX - weight {
                return Err(Error::Overflow);
            }
            proposal.votes_for = proposal.votes_for + weight;
        } else {
            if proposal.votes_against > u128::MAX - weight {
                return Err(Error::Overflow);
            }
            proposal.votes_against = proposal.votes_against + weight;
        }
        self.proposals.insert(proposal_id, proposal);
        self.votes.insert(KeyPair { fst: proposal_id, snd: caller }, weight);
        Ok(())
    }

    /// Run the checks that gate execution and name the registry call that is
    /// due: `Ok((registry, proof_id))` asks the environment to have the
    /// registry approve that proof, after which the outcome is handed to
    /// [`Self::execute`].
    pub fn prepare_execute(
        &self,
        caller_balance: Option<Balance>,
        proposal_id: u64,
    ) -> (r: Result<(AccountId, u64), Error>)
        ensures
            self@.execute_err(caller_balance, proposal_id) is Some ==> r == Err::<
                (AccountId, u64),
                Error,
            >(self@.execute_err(caller_balance, proposal_id)->0),
            self@.execute_err(caller_balance, proposal_id) is None ==> r == Ok::<
                (AccountId, u64),
                Error,
            >(
                (self@.proposals[proposal_id].registry, self@.proposals[proposal_id].proof_id),
            ),
    {
        let balance = match caller_balance {
            Some(b) => b,
            None => {
                return Err(Error::CallFailed);
            },
        };
        if balance < self.min_tokens {
            return Err(Error::InsufficientTokens);
        }
        let proposal = match self.proposals.get(&proposal_id) {
            Some(p) => p,
            None => {
                return Err(Error::ProposalNotFound);
            },
        };
        if proposal.status != ProposalStatus::Pending {
            return Err(Error::InvalidProposalStatus);
        }
        if proposal.votes_for < self.threshold {
            return Err(Error::ThresholdNotMet);
        }
        Ok((proposal.registry, proposal.proof_id))
    }

    /// Settle an execution attempt. `approved` is whether the registry call
    /// named by [`Self::prepare_execute`] confirmed success; every guard is
    /// checked again here, so the proposal turns `Executed` only from
    /// `Pending`, with the threshold met, on a confirmed call — and on any
    /// failure the state is exactly as before.
    pub fn execute(
        &mut self,
        caller_balance: Option<Balance>,
        proposal_id: u64,
        approved: bool,
    ) -> (r: Result<(), Error>)
        ensures
            old(self)@.execute_err(caller_balance, proposal_id) is Some ==> {
                &&& r == Err::<(), Error>(old(self)@.execute_err(caller_balance, proposal_id)->0)
                &&& final(self)@ == old(self)@
            },
            old(self)@.execute_err(caller_balance, proposal_id) is None && !approved ==> {
                &&& r == Err::<(), Error>(Error::CallFailed)
                &&& final(self)@ == old(self)@
            },
            old(self)@.execute_err(caller_balance, proposal_id) is None && approved ==> {
                &&& r == Ok::<(), Error>(())
                &&& final(self)@.proposals == old(self)@.proposals.insert(
                    proposal_id,
                    (Proposal {
                        status: ProposalStatus::Executed,
                        ..old(self)@.proposals[proposal_id]
                    }),
                )
                &&& final(self)@.votes == old(self)@.votes
                &&& final(self)@.next_id == old(self)@.next_id
                &&& final(self)@.same_config(old(self)@)
            },
            // the only status transition this call can make is Pending to
            // Executed, on `proposal_id` itself
            forall|q: u64|
                old(self)@.proposals.contains_key(q) ==> final(self)@.proposals.contains_key(q)
                    && ((#[trigger] final(self)@.proposals[q]).status
                    == old(self)@.proposals[q].status || (q == proposal_id
                    && old(self)@.proposals[q].status == ProposalStatus::Pending
                    && final(self)@.proposals[q].status == ProposalStatus::Executed)),
            // an executed record is immutable
            forall|q: u64|
                old(self)@.proposals.contains_key(q) && old(self)@.proposals[q].status
                    == ProposalStatus::Executed ==> (#[trigger] final(self)@.proposals[q])
                    == old(self)@.proposals[q],
            old(self)@.wf() ==> final(self)@.wf(),
    {
        let balance = match caller_balance {
            Some(b) => b,
            None => {
                return Err(Error::CallFailed);
            },
        };
        if balance < self.min_tokens {
            return Err(Error::InsufficientTokens);
        }
        let mut proposal = match self.proposals.get(&proposal_id) {
            Some(p) => p,
            None => {
                return Err(Error::ProposalNotFound);
            },
        };
        if proposal.status != ProposalStatus::Pending {
            return Err(Error::InvalidProposalStatus);
        }
        if proposal.votes_for < self.threshold {
            return Err(Error::ThresholdNotMet);
        }
        if !approved {
            return Err(Error::CallFailed);
        }
        proposal.status = ProposalStatus::Executed;
        self.proposals.insert(proposal_id, proposal);
        Ok(())
    }

    /// Get proposal details.
    pub fn get_proposal(&self, proposal_id: u64) -> (r: Option<Proposal>)
        ensures
            r == if self@.proposals.contains_key(proposal_id) {
                Some(self@.proposals[proposal_id])
            } else {
                None::<Proposal>
            },
    {
        self.proposals.get(&proposal_id)
    }

    /// Get the next proposal id.
    pub fn get_next_id(&self) -> (r: u64)
        ensures
            r == self@.next_id,
    {
        self.next_id
    }

    /// Get the voting threshold.
    pub fn get_threshold(&self) -> (r: Balance)
        ensures
            r == self@.threshold,
    {
        self.threshold
    }

    /// Get the minimum balance required to participate.
    pub fn get_min_tokens(&self) -> (r: Balance)
        ensures
            r == self@.min_tokens,
    {
        self.min_tokens
    }

    /// Get the account of the token ledger.
    pub fn get_token(&self) -> (r: AccountId)
        ensures
            r == self@.token,
    {
        self.token
    }

    /// Whether `voter` has voted on `proposal_id`.
    pub fn has_voted(&self, proposal_id: u64, voter: AccountId) -> (r: bool)
        ensures
            r == self@.votes.contains_key(vote_key(proposal_id, voter)),
    {
        self.votes.contains_key(&(KeyPair { fst: proposal_id, snd: voter }))
    }

    /// The weight recorded for `voter` on `proposal_id`, if any.
    pub fn get_vote_weight(&self, proposal_id: u64, voter: AccountId) -> (r: Option<Balance>)
        ensures
            r == if self@.votes.contains_key(vote_key(proposal_id, voter)) {
                Some(self@.votes[vote_key(proposal_id, voter)])
            } else {
                None::<Balance>
            },
    {
        self.votes.get(&(KeyPair { fst: proposal_id, snd: voter }))
    }

    /// Overwrite the threshold; the administrator alone may.
    pub fn set_threshold(&mut self, caller: AccountId, new_threshold: Balance) -> (r: Result<
        (),
        Error,
    >)
        ensures
            caller != old(self)@.owner ==> r == Err::<(), Error>(Error::OnlyOwner) && final(self)@
                == old(self)@,
            caller == old(self)@.owner ==> {
                &&& r == Ok::<(), Error>(())
                &&& final(self)@ == (DaoView { threshold: new_threshold, ..old(self)@ })
            },
    {
        if caller != self.owner {
            return Err(Error::OnlyOwner);
        }
        self.threshold = new_threshold;
        Ok(())
    }

    /// Overwrite the participation minimum; the administrator alone may.
    pub fn set_min_tokens(&mut self, caller: AccountId, new_min_tokens: Balance) -> (r: Result<
        (),
        Error,
    >)
        ensures
            caller != old(self)@.owner ==> r == Err::<(), Error>(Error::OnlyOwner) && final(self)@
                == old(self)@,
            caller == old(self)@.owner ==> {
                &&& r == Ok::<(), Error>(())
                &&& final(self)@ == (DaoView { min_tokens: new_min_tokens, ..old(self)@ })
            },
    {
        if caller != self.owner {
            return Err(Error::OnlyOwner);
        }
        self.min_tokens = new_min_tokens;
        Ok(())
    }

    /// Get the administrator.
    pub fn get_owner(&self) -> (r: AccountId)
        ensures
            r == self@.owner,
    {
        self.owner
    }

    /// Authorize wiring a registry to this engine: the administrator alone
    /// may ask the registry at `registry` to hand its ownership to
    /// `self_account`, this engine's own account. `Ok` names the call the
    /// environment must make; a call that does not confirm success is
    /// reported by the environment as [`Error::CallFailed`].
    pub fn setup_registry_integration(
        &self,
        caller: AccountId,
        self_account: AccountId,
        registry: AccountId,
    ) -> (r: Result<(AccountId, AccountId), Error>)
        ensures
            caller != self@.owner ==> r == Err::<(AccountId, AccountId), Error>(Error::OnlyOwner),
            caller == self@.owner ==> r == Ok::<(AccountId, AccountId), Error>(
                (registry, self_account),
            ),
    {
        if caller != self.owner {
            return Err(Error::OnlyOwner);
        }
        Ok((registry, self_account))
    }

    /// Authorize wiring a vault to a registry: the administrator alone may
    /// ask the registry at `registry` to pay bounties from `vault`. `Ok`
    /// names the call the environment must make, as with
    /// [`Self::setup_registry_integration`].
    pub fn setup_vault_integration(
        &self,
        caller: AccountId,
        registry: AccountId,
        vault: AccountId,
    ) -> (r: Result<(AccountId, AccountId), Error>)
        ensures
            caller != self@.owner ==> r == Err::<(AccountId, AccountId), Error>(Error::OnlyOwner),
            caller == self@.owner ==> r == Ok::<(AccountId, AccountId), Error>((registry, vault)),
    {
        if caller != self.owner {
            return Err(Error::OnlyOwner);
        }
        Ok((registry, vault))
    }
}

impl Default for BountyDAO {
    fn default() -> (r: Self)
        ensures
            r@.token == 0,
            r@.min_tokens == 0,
            r@.threshold == 0,
            r@.owner == 0,
            r@.next_id == 1,
            r@.proposals == Map::<u64, Proposal>::empty(),
            r@.votes == Map::<KeyPair<u64, AccountId>, Balance>::empty(),
            r@.wf(),
    {
        BountyDAO::new(0, 0, 0, 0)
    }
}

/// Ids are never reused: in a well-formed engine — as built by `new` and
/// kept by every operation — the id about to be allocated names no stored
/// proposal, so a creation always adds a fresh record and never overwrites
/// one.
pub proof fn lemma_next_id_is_fresh(v: DaoView)
    requires
        v.wf(),
    ensures
        !v.proposals.contains_key(v.next_id),
{
}

/// No double voting: a voter with a recorded vote on a proposal — as there
/// is after any successful `vote` — is refused with `AlreadyVoted`,
/// whatever the ledger answers and whichever side the second vote takes;
/// by `vote`'s contract the refused call leaves the state, tallies
/// included, exactly as it was.
pub proof fn lemma_no_double_vote(
    v: DaoView,
    proposal_id: u64,
    voter: AccountId,
    balance: Option<Balance>,
    support: bool,
)
    requires
        v.votes.contains_key(vote_key(proposal_id, voter)),
    ensures
        v.vote_err(voter, balance, proposal_id, support) == Some(Error::AlreadyVoted),
{
}

/// The threshold gate is evaluated fresh at every execution attempt: a
/// pending proposal whose tally is below the threshold is refused with
/// `ThresholdNotMet`, however often execution was attempted before and
/// however the tally got where it is.
pub proof fn lemma_threshold_gate(v: DaoView, balance: Option<Balance>, proposal_id: u64)
    requires
        balance is Some,
        balance->0 >= v.min_tokens,
        v.proposals.contains_key(proposal_id),
        v.proposals[proposal_id].status == ProposalStatus::Pending,
        v.proposals[proposal_id].votes_for < v.threshold,
    ensures
        v.execute_err(balance, proposal_id) == Some(Error::ThresholdNotMet),
{
}

/// Execution is terminal: against an `Executed` proposal both `vote` and
/// `execute` fail with `InvalidProposalStatus` once the guards ahead of the
/// status check pass, and by their contracts the failed calls change
/// nothing — while the status-preservation clauses of `vote` and `execute`
/// say no call ever moves a proposal out of `Executed`.
pub proof fn lemma_execution_terminal(
    v: DaoView,
    proposal_id: u64,
    voter: AccountId,
    balance: Option<Balance>,
    support: bool,
)
    requires
        v.proposals.contains_key(proposal_id),
        v.proposals[proposal_id].status == ProposalStatus::Executed,
        !v.votes.contains_key(vote_key(proposal_id, voter)),
        balance is Some,
        balance->0 >= v.min_tokens,
    ensures
        v.vote_err(voter, balance, proposal_id, support) == Some(Error::InvalidProposalStatus),
        v.execute_err(balance, proposal_id) == Some(Error::InvalidProposalStatus),
{
}

/// Id allocation never wraps: with a funded caller, `create_proposal`
/// succeeds exactly as long as the id counter has room, and returns
/// `Overflow` — changing nothing, by its contract — the moment the next id
/// would wrap.
pub proof fn lemma_id_allocation_guard(v: DaoView, balance: Option<Balance>)
    requires
        balance is Some,
        balance->0 >= v.min_tokens,
    ensures
        v.create_err(balance) == if v.next_id == u64::MAX {
            Some(Error::Overflow)
        } else {
            None::<Error>
        },
{
}

/// Tally accumulation never wraps: when every guard ahead of the sum
/// passes, `vote` succeeds exactly when the chosen tally has room for the
/// weight, and returns `Overflow` — changing nothing, by its contract —
/// when the sum would leave the unsigned range.
pub proof fn lemma_tally_overflow_guard(
    v: DaoView,
    proposal_id: u64,
    voter: AccountId,
    balance: Option<Balance>,
    support: bool,
)
    requires
        !v.votes.contains_key(vote_key(proposal_id, voter)),
        balance is Some,
        balance->0 >= v.min_tokens,
        v.proposals.contains_key(proposal_id),
        v.proposals[proposal_id].status == ProposalStatus::Pending,
    ensures
        v.vote_err(voter, balance, proposal_id, support) == if (if support {
            v.proposals[proposal_id].votes_for
        } else {
            v.proposals[proposal_id].votes_against
        }) + balance->0 > u128::MAX {
            Some(Error::Overflow)
        } else {
            None::<Error>
        },
{
}

} // verus!
