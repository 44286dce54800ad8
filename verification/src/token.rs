//! The fungible-token ledger that supplies voting weight.
//!
//! A standard balances-and-allowances ledger. The environment resolves who
//! is calling; every entry point takes that identity as an argument, and
//! each operation either performs its whole effect or returns a typed error
//! and changes nothing.

use vstd::prelude::*;
use vstd::set::fold::{
    is_fun_commutative, lemma_finite_set_induct, lemma_fold_empty, lemma_fold_insert,
};

use crate::store::{AssocMap, KeyPair};
use crate::{AccountId, Balance};

verus! {

#[derive(Clone, Copy, PartialEq, Eq, Structural, Debug)]
pub enum PSP22Error {
    /// Returned if not enough balance to fulfill a request is available.
    InsufficientBalance,
    /// Returned if not enough allowance to fulfill a request is available.
    InsufficientAllowance,
    /// Returned if recipient's address is zero.
    ZeroRecipientAddress,
    /// Returned if sender's address is zero.
    ZeroSenderAddress,
    /// An addition would leave the unsigned range.
    Overflow,
    /// A subtraction would leave the unsigned range.
    Underflow,
    /// Only owner can perform this action.
    OnlyOwner,
}

/// Notification that tokens moved; `None` stands for minting and burning.
#[derive(Clone, Copy, PartialEq, Eq, Structural, Debug)]
pub struct Transfer {
    pub from: Option<AccountId>,
    pub to: Option<AccountId>,
    pub value: Balance,
}

/// Notification that `spender` may withdraw up to `value` from `owner`.
#[derive(Clone, Copy, PartialEq, Eq, Structural, Debug)]
pub struct Approval {
    pub owner: AccountId,
    pub spender: AccountId,
    pub value: Balance,
}

/// The key under which an allowance is stored.
pub open spec fn allowance_key(owner: AccountId, spender: AccountId) -> KeyPair<
    AccountId,
    AccountId,
> {
    KeyPair { fst: owner, snd: spender }
}

/// The ledger state, as the contracts speak of it.
pub struct TokenView {
    pub total_supply: Balance,
    pub balances: Map<AccountId, Balance>,
    pub allowances: Map<KeyPair<AccountId, AccountId>, Balance>,
    pub name: Option<Seq<char>>,
    pub symbol: Option<Seq<char>>,
    pub decimals: u8,
    pub owner: AccountId,
}

impl TokenView {
    /// The balance of `account`, zero for an account never seen.
    pub open spec fn balance_of(self, account: AccountId) -> Balance {
        if self.balances.contains_key(account) {
            self.balances[account]
        } else {
            0
        }
    }

    /// What `spender` may still withdraw from `owner`, zero by default.
    pub open spec fn allowance_of(self, owner: AccountId, spender: AccountId) -> Balance {
        if self.allowances.contains_key(allowance_key(owner, spender)) {
            self.allowances[allowance_key(owner, spender)]
        } else {
            0
        }
    }

    /// Which error a transfer of `value` from `from` to `to` returns,
    /// `None` meaning success.
    pub open spec fn transfer_err(self, from: AccountId, to: AccountId, value: Balance) -> Option<
        PSP22Error,
    > {
        if self.balance_of(from) < value {
            Some(PSP22Error::InsufficientBalance)
        } else if to != from && self.balance_of(to) + value > u128::MAX {
            Some(PSP22Error::Overflow)
        } else {
            None
        }
    }

    /// The balances after a successful transfer of `value` from `from` to
    /// `to`: the sender's entry is written first, then the recipient's, so
    /// a self-transfer writes the sender's balance back unchanged.
    pub open spec fn after_transfer(self, from: AccountId, to: AccountId, value: Balance) -> Map<
        AccountId,
        Balance,
    > {
        if to == from {
            self.balances.insert(from, self.balance_of(from))
        } else {
            self.balances.insert(from, (self.balance_of(from) - value) as Balance).insert(
                to,
                (self.balance_of(to) + value) as Balance,
            )
        }
    }

    /// Which error `transfer_from` returns, `None` meaning success.
    pub open spec fn transfer_from_err(
        self,
        caller: AccountId,
        from: AccountId,
        to: AccountId,
        value: Balance,
    ) -> Option<PSP22Error> {
        if self.allowance_of(from, caller) < value {
            Some(PSP22Error::InsufficientAllowance)
        } else {
            self.transfer_err(from, to, value)
        }
    }

    /// Which error `mint` returns, `None` meaning success.
    pub open spec fn mint_err(self, caller: AccountId, to: AccountId, value: Balance) -> Option<
        PSP22Error,
    > {
        if caller != self.owner {
            Some(PSP22Error::OnlyOwner)
        } else if self.balance_of(to) + value > u128::MAX {
            Some(PSP22Error::Overflow)
        } else if self.total_supply + value > u128::MAX {
            Some(PSP22Error::Overflow)
        } else {
            None
        }
    }

    /// Which error `burn` returns, `None` meaning success.
    pub open spec fn burn_err(self, caller: AccountId, value: Balance) -> Option<PSP22Error> {
        if self.balance_of(caller) < value {
            Some(PSP22Error::InsufficientBalance)
        } else if self.total_supply < value {
            Some(PSP22Error::Underflow)
        } else {
            None
        }
    }

    /// Conservation: finitely many accounts hold tokens, and what they hold
    /// sums to the total supply. The constructor establishes this and every
    /// operation keeps it.
    pub open spec fn conserves_supply(self) -> bool {
        self.balances.dom().finite() && ledger_sum(self.balances) == self.total_supply
    }
}

/// One step of summing a ledger: add what `k` holds in `m`.
pub open spec fn add_holding(m: Map<AccountId, Balance>) -> spec_fn(int, AccountId) -> int {
    |acc: int, k: AccountId| acc + m[k]
}

/// The total held across the accounts in `s`, read from `m`.
pub open spec fn holdings_sum(s: Set<AccountId>, m: Map<AccountId, Balance>) -> int {
    s.fold(0, add_holding(m))
}

/// The total held across the whole ledger.
pub open spec fn ledger_sum(m: Map<AccountId, Balance>) -> int {
    holdings_sum(m.dom(), m)
}

proof fn lemma_add_holding_commutative(m: Map<AccountId, Balance>)
    ensures
        is_fun_commutative(add_holding(m)),
{
    assert forall|a1: AccountId, a2: AccountId, b: int| #[trigger] add_holding(m)(
        add_holding(m)(b, a2),
        a1,
    ) == add_holding(m)(add_holding(m)(b, a1), a2) by {}
}

/// Two ledgers that agree on every account of `s` sum alike over `s`.
proof fn lemma_holdings_congruence(
    s: Set<AccountId>,
    m1: Map<AccountId, Balance>,
    m2: Map<AccountId, Balance>,
)
    requires
        s.finite(),
        forall|k: AccountId| s.contains(k) ==> m1[k] == m2[k],
    ensures
        holdings_sum(s, m1) == holdings_sum(s, m2),
{
    lemma_add_holding_commutative(m1);
    lemma_add_holding_commutative(m2);
    let pred = |s2: Set<AccountId>|
        s2.subset_of(s) ==> holdings_sum(s2, m1) == holdings_sum(s2, m2);
    assert(pred(Set::<AccountId>::empty())) by {
        lemma_fold_empty(0int, add_holding(m1));
        lemma_fold_empty(0int, add_holding(m2));
    }
    assert forall|s2: Set<AccountId>, a: AccountId|
        pred(s2) && s2.finite() && !s2.contains(a) implies #[trigger] pred(s2.insert(a)) by {
        if s2.insert(a).subset_of(s) {
            assert(s2.subset_of(s));
            assert(s.contains(a));
            lemma_fold_insert(s2, 0int, add_holding(m1), a);
            lemma_fold_insert(s2, 0int, add_holding(m2), a);
        }
    }
    lemma_finite_set_induct(s, pred);
}

/// Summing `s` is summing `s` without `k`, plus what `k` holds.
proof fn lemma_holdings_peel(s: Set<AccountId>, m: Map<AccountId, Balance>, k: AccountId)
    requires
        s.finite(),
        s.contains(k),
    ensures
        holdings_sum(s, m) == holdings_sum(s.remove(k), m) + m[k],
{
    lemma_add_holding_commutative(m);
    lemma_fold_insert(s.remove(k), 0int, add_holding(m), k);
    assert(s.remove(k).insert(k) =~= s);
}

/// Holdings are unsigned, so any partial sum is nonnegative.
proof fn lemma_holdings_nonneg(s: Set<AccountId>, m: Map<AccountId, Balance>)
    requires
        s.finite(),
    ensures
        holdings_sum(s, m) >= 0,
{
    lemma_add_holding_commutative(m);
    let pred = |s2: Set<AccountId>| holdings_sum(s2, m) >= 0;
    assert(pred(Set::<AccountId>::empty())) by {
        lemma_fold_empty(0int, add_holding(m));
    }
    assert forall|s2: Set<AccountId>, a: AccountId|
        pred(s2) && s2.finite() && !s2.contains(a) implies #[trigger] pred(s2.insert(a)) by {
        lemma_fold_insert(s2, 0int, add_holding(m), a);
    }
    lemma_finite_set_induct(s, pred);
}

/// Writing one entry moves the ledger's sum by the new holding less the
/// displaced one.
proof fn lemma_ledger_write(m: Map<AccountId, Balance>, k: AccountId, v: Balance)
    requires
        m.dom().finite(),
    ensures
        m.insert(k, v).dom().finite(),
        ledger_sum(m.insert(k, v)) == ledger_sum(m) - (if m.dom().contains(k) {
            m[k]
        } else {
            0
        }) + v,
{
    let m2 = m.insert(k, v);
    assert(m2.dom() =~= m.dom().insert(k));
    if m.dom().contains(k) {
        assert(m2.dom() =~= m.dom());
        lemma_holdings_peel(m2.dom(), m2, k);
        lemma_holdings_peel(m.dom(), m, k);
        lemma_holdings_congruence(m.dom().remove(k), m2, m);
        assert(m2.dom().remove(k) =~= m.dom().remove(k));
    } else {
        lemma_add_holding_commutative(m2);
        lemma_fold_insert(m.dom(), 0int, add_holding(m2), k);
        lemma_holdings_congruence(m.dom(), m2, m);
    }
}

/// The token ledger.
pub struct PolkaGuardToken {
    /// Total token supply.
    total_supply: Balance,
    /// Owned tokens per account.
    balances: AssocMap<AccountId, Balance>,
    /// What an account may withdraw from another.
    allowances: AssocMap<KeyPair<AccountId, AccountId>, Balance>,
    /// Token name.
    name: Option<String>,
    /// Token symbol.
    symbol: Option<String>,
    /// Token decimals.
    decimals: u8,
    /// The account that may mint.
    owner: AccountId,
}

impl View for PolkaGuardToken {
    type V = TokenView;

    closed spec fn view(&self) -> TokenView {
        TokenView {
            total_supply: self.total_supply,
            balances: self.balances@,
            allowances: self.allowances@,
            name: match self.name {
                Some(s) => Some(s@),
                None => None,
            },
            symbol: match self.symbol {
                Some(s) => Some(s@),
                None => None,
            },
            decimals: self.decimals,
            owner: self.owner,
        }
    }
}

impl PolkaGuardToken {
    /// Create the ledger with `initial_supply` credited to `caller`, the
    /// instantiating account, which also becomes the owner.
    pub fn new(
        caller: AccountId,
        initial_supply: Balance,
        name: Option<String>,
        symbol: Option<String>,
        decimals: u8,
    ) -> (r: Self)
        ensures
            r@.total_supply == initial_supply,
            r@.balances == Map::<AccountId, Balance>::empty().insert(caller, initial_supply),
            r@.allowances == Map::<KeyPair<AccountId, AccountId>, Balance>::empty(),
            r@.name == (match name {
                Some(s) => Some(s@),
                None => None::<Seq<char>>,
            }),
            r@.symbol == (match symbol {
                Some(s) => Some(s@),
                None => None::<Seq<char>>,
            }),
            r@.decimals == decimals,
            r@.owner == caller,
            r@.conserves_supply(),
    {
        let mut balances = AssocMap::new();
        balances.insert(caller, initial_supply);
        proof {
            let m0 = Map::<AccountId, Balance>::empty();
            assert(m0.dom() =~= Set::<AccountId>::empty());
            lemma_fold_empty(0int, add_holding(m0));
            lemma_ledger_write(m0, caller, initial_supply);
        }
        PolkaGuardToken {
            total_supply: initial_supply,
            balances,
            allowances: AssocMap::new(),
            name,
            symbol,
            decimals,
            owner: caller,
        }
    }

    /// Returns the token name.
    pub fn token_name(&self) -> (r: Option<String>)
        ensures
            r is Some <==> self@.name is Some,
            r is Some ==> r->0@ == self@.name->0,
    {
        match &self.name {
            Some(s) => Some(s.clone()),
            None => None,
        }
    }

    /// Returns the token symbol.
    pub fn token_symbol(&self) -> (r: Option<String>)
        ensures
            r is Some <==> self@.symbol is Some,
            r is Some ==> r->0@ == self@.symbol->0,
    {
        match &self.symbol {
            Some(s) => Some(s.clone()),
            None => None,
        }
    }

    /// Returns the token decimals.
    pub fn token_decimals(&self) -> (r: u8)
        ensures
            r == self@.decimals,
    {
        self.decimals
    }

    /// Returns the total token supply.
    pub fn total_supply(&self) -> (r: Balance)
        ensures
            r == self@.total_supply,
    {
        self.total_supply
    }

    /// Returns the account balance for the specified `owner`.
    pub fn balance_of(&self, owner: AccountId) -> (r: Balance)
        ensures
            r == self@.balance_of(owner),
    {
        match self.balances.get(&owner) {
            Some(b) => b,
            None => 0,
        }
    }

    /// Returns what `spender` may still withdraw from `owner`.
    pub fn allowance(&self, owner: AccountId, spender: AccountId) -> (r: Balance)
        ensures
            r == self@.allowance_of(owner, spender),
    {
        match self.allowances.get(&(KeyPair { fst: owner, snd: spender })) {
            Some(a) => a,
            None => 0,
        }
    }

    /// Transfer `value` from the caller's account to `to`.
    pub fn transfer(&mut self, caller: AccountId, to: AccountId, value: Balance) -> (r: Result<
        (),
        PSP22Error,
    >)
        ensures
            old(self)@.transfer_err(caller, to, value) is Some ==> {
                &&& r == Err::<(), PSP22Error>(old(self)@.transfer_err(caller, to, value)->0)
                &&& final(self)@ == old(self)@
            },
            old(self)@.transfer_err(caller, to, value) is None ==> {
                &&& r == Ok::<(), PSP22Error>(())
                &&& final(self)@ == (TokenView {
                    balances: old(self)@.after_transfer(caller, to, value),
                    ..old(self)@
                })
            },
            old(self)@.conserves_supply() ==> final(self)@.conserves_supply(),
    {
        self.transfer_from_to(caller, to, value)
    }

    /// Transfer `value` from `from` to `to` on the caller's allowance.
    pub fn transfer_from(
        &mut self,
        caller: AccountId,
        from: AccountId,
        to: AccountId,
        value: Balance,
    ) -> (r: Result<(), PSP22Error>)
        ensures
            old(self)@.transfer_from_err(caller, from, to, value) is Some ==> {
                &&& r == Err::<(), PSP22Error>(
                    old(self)@.transfer_from_err(caller, from, to, value)->0,
                )
                &&& final(self)@ == old(self)@
            },
            old(self)@.transfer_from_err(caller, from, to, value) is None ==> {
                &&& r == Ok::<(), PSP22Error>(())
                &&& final(self)@ == (TokenView {
                    balances: old(self)@.after_transfer(from, to, value),
                    allowances: old(self)@.allowances.insert(
                        allowance_key(from, caller),
                        (old(self)@.allowance_of(from, caller) - value) as Balance,
                    ),
                    ..old(self)@
                })
            },
            old(self)@.conserves_supply() ==> final(self)@.conserves_supply(),
    {
        let allowance = self.allowance(from, caller);
        if allowance < value {
            return Err(PSP22Error::InsufficientAllowance);
        }
        match self.transfer_from_to(from, to, value) {
            Ok(()) => {},
            Err(e) => {
                return Err(e);
            },
        }
        self.allowances.insert(KeyPair { fst: from, snd: caller }, allowance - value);
        Ok(())
    }

    /// Allow `spender` to withdraw up to `value` from the caller's account.
    pub fn approve(&mut self, caller: AccountId, spender: AccountId, value: Balance) -> (r: Result<
        (),
        PSP22Error,
    >)
        ensures
            r == Ok::<(), PSP22Error>(()),
            final(self)@ == (TokenView {
                allowances: old(self)@.allowances.insert(allowance_key(caller, spender), value),
                ..old(self)@
            }),
    {
        self.allowances.insert(KeyPair { fst: caller, snd: spender }, value);
        Ok(())
    }

    /// Raise the allowance granted to `spender` by the caller.
    pub fn increase_allowance(
        &mut self,
        caller: AccountId,
        spender: AccountId,
        delta_value: Balance,
    ) -> (r: Result<(), PSP22Error>)
        ensures
            old(self)@.allowance_of(caller, spender) + delta_value > u128::MAX ==> {
                &&& r == Err::<(), PSP22Error>(PSP22Error::Overflow)
                &&& final(self)@ == old(self)@
            },
            old(self)@.allowance_of(caller, spender) + delta_value <= u128::MAX ==> {
                &&& r == Ok::<(), PSP22Error>(())
                &&& final(self)@ == (TokenView {
                    allowances: old(self)@.allowances.insert(
                        allowance_key(caller, spender),
                        (old(self)@.allowance_of(caller, spender) + delta_value) as Balance,
                    ),
                    ..old(self)@
                })
            },
    {
        let allowance = self.allowance(caller, spender);
        if allowance > u128::MAX - delta_value {
            return Err(PSP22Error::Overflow);
        }
        self.allowances.insert(KeyPair { fst: caller, snd: spender }, allowance + delta_value);
        Ok(())
    }

    /// Lower the allowance granted to `spender` by the caller.
    pub fn decrease_allowance(
        &mut self,
        caller: AccountId,
        spender: AccountId,
        delta_value: Balance,
    ) -> (r: Result<(), PSP22Error>)
        ensures
            old(self)@.allowance_of(caller, spender) < delta_value ==> {
                &&& r == Err::<(), PSP22Error>(PSP22Error::InsufficientAllowance)
                &&& final(self)@ == old(self)@
            },
            old(self)@.allowance_of(caller, spender) >= delta_value ==> {
                &&& r == Ok::<(), PSP22Error>(())
                &&& final(self)@ == (TokenView {
                    allowances: old(self)@.allowances.insert(
                        allowance_key(caller, spender),
                        (old(self)@.allowance_of(caller, spender) - delta_value) as Balance,
                    ),
                    ..old(self)@
                })
            },
    {
        let allowance = self.allowance(caller, spender);
        if allowance < delta_value {
            return Err(PSP22Error::InsufficientAllowance);
        }
        self.allowances.insert(KeyPair { fst: caller, snd: spender }, allowance - delta_value);
        Ok(())
    }

    /// Mint `value` tokens to `to`; the owner alone may.
    pub fn mint(&mut self, caller: AccountId, to: AccountId, value: Balance) -> (r: Result<
        (),
        PSP22Error,
    >)
        ensures
            old(self)@.mint_err(caller, to, value) is Some ==> {
                &&& r == Err::<(), PSP22Error>(old(self)@.mint_err(caller, to, value)->0)
                &&& final(self)@ == old(self)@
            },
            old(self)@.mint_err(caller, to, value) is None ==> {
                &&& r == Ok::<(), PSP22Error>(())
                &&& final(self)@ == (TokenView {
                    total_supply: (old(self)@.total_supply + value) as Balance,
                    balances: old(self)@.balances.insert(
                        to,
                        (old(self)@.balance_of(to) + value) as Balance,
                    ),
                    ..old(self)@
                })
            },
            old(self)@.conserves_supply() ==> final(self)@.conserves_supply(),
    {
        if caller != self.owner {
            return Err(PSP22Error::OnlyOwner);
        }
        let to_balance = self.balance_of(to);
        if to_balance > u128::MAX - value {
            return Err(PSP22Error::Overflow);
        }
        if self.total_supply > u128::MAX - value {
            return Err(PSP22Error::Overflow);
        }
        self.balances.insert(to, to_balance + value);
        self.total_supply = self.total_supply + value;
        proof {
            if old(self)@.conserves_supply() {
                lemma_ledger_write(old(self)@.balances, to, (to_balance + value) as Balance);
            }
        }
        Ok(())
    }

    /// Burn `value` tokens from the caller's account.
    pub fn burn(&mut self, caller: AccountId, value: Balance) -> (r: Result<(), PSP22Error>)
        ensures
            old(self)@.burn_err(caller, value) is Some ==> {
                &&& r == Err::<(), PSP22Error>(old(self)@.burn_err(caller, value)->0)
                &&& final(self)@ == old(self)@
            },
            old(self)@.burn_err(caller, value) is None ==> {
                &&& r == Ok::<(), PSP22Error>(())
                &&& final(self)@ == (TokenView {
                    total_supply: (old(self)@.total_supply - value) as Balance,
                    balances: old(self)@.balances.insert(
                        caller,
                        (old(self)@.balance_of(caller) - value) as Balance,
                    ),
                    ..old(self)@
                })
            },
            old(self)@.conserves_supply() ==> final(self)@.conserves_supply(),
    {
        let balance = self.balance_of(caller);
        if balance < value {
            return Err(PSP22Error::InsufficientBalance);
        }
        if self.total_supply < value {
            return Err(PSP22Error::Underflow);
        }
        self.balances.insert(caller, balance - value);
        self.total_supply = self.total_supply - value;
        proof {
            if old(self)@.conserves_supply() {
                lemma_ledger_write(old(self)@.balances, caller, (balance - value) as Balance);
            }
        }
        Ok(())
    }

    /// Returns the account that may mint.
    pub fn owner(&self) -> (r: AccountId)
        ensures
            r == self@.owner,
    {
        self.owner
    }

    /// The shared movement of a transfer: debit `from`, credit `to`, both
    /// entries written or neither.
    fn transfer_from_to(&mut self, from: AccountId, to: AccountId, value: Balance) -> (r: Result<
        (),
        PSP22Error,
    >)
        ensures
            old(self)@.transfer_err(from, to, value) is Some ==> {
                &&& r == Err::<(), PSP22Error>(old(self)@.transfer_err(from, to, value)->0)
                &&& final(self)@ == old(self)@
            },
            old(self)@.transfer_err(from, to, value) is None ==> {
                &&& r == Ok::<(), PSP22Error>(())
                &&& final(self)@ == (TokenView {
                    balances: old(self)@.after_transfer(from, to, value),
                    ..old(self)@
                })
            },
            old(self)@.conserves_supply() ==> final(self)@.conserves_supply(),
    {
        let from_balance = self.balance_of(from);
        if from_balance < value {
            return Err(PSP22Error::InsufficientBalance);
        }
        if to != from {
            let to_balance = self.balance_of(to);
            if to_balance > u128::MAX - value {
                return Err(PSP22Error::Overflow);
            }
            self.balances.insert(from, from_balance - value);
            self.balances.insert(to, to_balance + value);
            proof {
                if old(self)@.conserves_supply() {
                    let m0 = old(self)@.balances;
                    let m1 = m0.insert(from, (from_balance - value) as Balance);
                    lemma_ledger_write(m0, from, (from_balance - value) as Balance);
                    lemma_ledger_write(m1, to, (to_balance + value) as Balance);
                }
            }
        } else {
            self.balances.insert(from, from_balance);
            proof {
                if old(self)@.conserves_supply() {
                    lemma_ledger_write(old(self)@.balances, from, from_balance);
                }
            }
        }
        Ok(())
    }
}

impl Default for PolkaGuardToken {
    fn default() -> (r: Self)
        ensures
            r@.total_supply == 0,
            r@.balances == Map::<AccountId, Balance>::empty().insert(0, 0),
            r@.allowances == Map::<KeyPair<AccountId, AccountId>, Balance>::empty(),
            r@.name is None,
            r@.symbol is None,
            r@.decimals == 18,
            r@.owner == 0,
            r@.conserves_supply(),
    {
        PolkaGuardToken::new(0, 0, None, None, 18)
    }
}

/// In a conserving ledger no account holds more than the total supply.
pub proof fn lemma_balance_bounded_by_supply(t: TokenView, account: AccountId)
    requires
        t.conserves_supply(),
    ensures
        t.balance_of(account) <= t.total_supply,
{
    if t.balances.dom().contains(account) {
        lemma_holdings_peel(t.balances.dom(), t.balances, account);
        lemma_holdings_nonneg(t.balances.dom().remove(account), t.balances);
    }
}

/// In a conserving ledger two accounts together hold no more than the
/// total supply, so crediting a covered debit stays in range.
pub proof fn lemma_transfer_stays_in_range(
    t: TokenView,
    from: AccountId,
    to: AccountId,
    value: Balance,
)
    requires
        t.conserves_supply(),
        from != to,
        value <= t.balance_of(from),
    ensures
        t.balance_of(to) + value <= t.total_supply,
{
    let dom = t.balances.dom();
    if dom.contains(from) && dom.contains(to) {
        lemma_holdings_peel(dom, t.balances, from);
        lemma_holdings_peel(dom.remove(from), t.balances, to);
        lemma_holdings_nonneg(dom.remove(from).remove(to), t.balances);
    } else if dom.contains(to) {
        lemma_balance_bounded_by_supply(t, to);
    } else {
        lemma_balance_bounded_by_supply(t, from);
    }
}

/// A transfer whose funds cover it cannot overflow the recipient: in a
/// conserving ledger the `Overflow` arm of `transfer_err` is dead code.
pub proof fn lemma_transfer_never_overflows(
    t: TokenView,
    from: AccountId,
    to: AccountId,
    value: Balance,
)
    requires
        t.conserves_supply(),
    ensures
        t.transfer_err(from, to, value) != Some(PSP22Error::Overflow),
{
    if from != to && t.balance_of(from) >= value {
        lemma_transfer_stays_in_range(t, from, to, value);
    }
}

/// A covered burn cannot underflow the supply: in a conserving ledger the
/// `Underflow` arm of `burn_err` is dead code.
pub proof fn lemma_burn_never_underflows(t: TokenView, caller: AccountId, value: Balance)
    requires
        t.conserves_supply(),
    ensures
        t.burn_err(caller, value) != Some(PSP22Error::Underflow),
{
    lemma_balance_bounded_by_supply(t, caller);
}

} // verus!
