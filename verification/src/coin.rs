use vstd::prelude::*;

use crate::balances::BalanceTable;
use crate::error::CoinError;

verus! {

/// What a ledger holds, as mathematical values.
pub struct CoinState {
    /// The issuer, once the ledger has been initialised.
    pub admin: Option<Seq<char>>,
    /// The total supply minted so far.
    pub total_supply: int,
    /// The stored balance of each account that has one.
    pub balances: Map<Seq<char>, int>,
    /// The sum of all stored balances.
    pub circulating: int,
}

impl CoinState {
    /// A ledger with no admin, no supply and no balances.
    pub open spec fn empty() -> CoinState {
        CoinState {
            admin: None,
            total_supply: 0,
            balances: Map::empty(),
            circulating: 0,
        }
    }

    /// The balance of `account`: its stored balance, or 0 where it has none.
    pub open spec fn balance(self, account: Seq<char>) -> int {
        if self.balances.contains_key(account) {
            self.balances[account]
        } else {
            0
        }
    }

    /// The state in which `account` has the stored balance `amount`.
    pub open spec fn with_balance(self, account: Seq<char>, amount: int) -> CoinState {
        CoinState {
            admin: self.admin,
            total_supply: self.total_supply,
            balances: self.balances.insert(account, amount),
            circulating: self.circulating - self.balance(account) + amount,
        }
    }

    /// Setting the admin, once: a second call is refused.
    pub open spec fn after_init(self, admin: Seq<char>) -> Result<CoinState, CoinError> {
        if self.admin is Some {
            Err(CoinError::AlreadyInitialized)
        } else {
            Ok(
                CoinState {
                    admin: Some(admin),
                    total_supply: 0,
                    balances: self.balances,
                    circulating: self.circulating,
                },
            )
        }
    }

    /// Crediting `amount` new coins to `to`, which adds them to the supply.
    pub open spec fn after_mint(self, to: Seq<char>, amount: int) -> Result<
        CoinState,
        CoinError,
    > {
        if self.admin is None {
            Err(CoinError::NotInitialized)
        } else if amount <= 0 {
            Err(CoinError::NonPositiveAmount)
        } else if self.balance(to) + amount > i128::MAX || self.total_supply + amount
            > i128::MAX {
            Err(CoinError::Overflow)
        } else {
            let credited = self.with_balance(to, self.balance(to) + amount);
            Ok(
                CoinState {
                    admin: credited.admin,
                    total_supply: self.total_supply + amount,
                    balances: credited.balances,
                    circulating: credited.circulating,
                },
            )
        }
    }

    /// Debiting `amount` from `from`, then crediting it to `to`.
    pub open spec fn after_transfer(self, from: Seq<char>, to: Seq<char>, amount: int) -> Result<
        CoinState,
        CoinError,
    > {
        if amount <= 0 {
            Err(CoinError::NonPositiveAmount)
        } else if self.balance(from) < amount {
            Err(CoinError::InsufficientBalance)
        } else {
            let debited = self.with_balance(from, self.balance(from) - amount);
            if debited.balance(to) + amount > i128::MAX {
                Err(CoinError::Overflow)
            } else {
                Ok(debited.with_balance(to, debited.balance(to) + amount))
            }
        }
    }
}

/// `post` and the returned `r` are what `outcome` says of an operation on
/// `pre`: on success the new state, on refusal the error and `pre` unchanged.
pub open spec fn applied(
    pre: CoinState,
    outcome: Result<CoinState, CoinError>,
    r: Result<(), CoinError>,
    post: CoinState,
) -> bool {
    match outcome {
        Ok(s) => r is Ok && post == s,
        Err(e) => r == Err::<(), CoinError>(e) && post == pre,
    }
}

/// A token ledger: its admin, its total supply and its balances.
pub struct Coin {
    admin: Option<String>,
    total_supply: i128,
    balances: BalanceTable,
}

impl View for Coin {
    type V = CoinState;

    closed spec fn view(&self) -> CoinState {
        CoinState {
            admin: match self.admin {
                Some(a) => Some(a@),
                None => None,
            },
            total_supply: self.total_supply as int,
            balances: self.balances.view(),
            circulating: self.balances.total(),
        }
    }
}

impl Coin {
    /// The balance table is well formed.
    pub closed spec fn wf(&self) -> bool {
        self.balances.wf()
    }

    /// Every balance and the supply lie in the range of `i128`.
    pub proof fn lemma_in_range(&self, account: Seq<char>)
        requires
            self.wf(),
        ensures
            i128::MIN <= self@.balance(account) <= i128::MAX,
            i128::MIN <= self@.total_supply <= i128::MAX,
    {
        if self.balances.view().contains_key(account) {
            self.balances.lemma_in_range(account);
        }
    }

    /// Where no stored balance is negative, the balances of any two accounts
    /// together are at most the sum of all balances.
    pub proof fn lemma_balances_within_circulating(&self, a: Seq<char>, b: Seq<char>)
        requires
            self.wf(),
            forall|k: Seq<char>| #[trigger] self@.balances.contains_key(k) ==> self@.balances[k]
                >= 0,
        ensures
            self@.balance(a) <= self@.circulating,
            a != b ==> self@.balance(a) + self@.balance(b) <= self@.circulating,
    {
        assert(self@.balances == self.balances.view());
        self.balances.lemma_total_bounds(a, b);
        self.balances.lemma_total_bounds(b, a);
    }

    /// A ledger before initialisation: no admin, no supply, no balances.
    pub fn new() -> (c: Coin)
        ensures
            c.wf(),
            c@ == CoinState::empty(),
    {
        Coin { admin: None, total_supply: 0, balances: BalanceTable::new() }
    }

    /// A ledger with the given admin and total supply and no stored balances;
    /// with `restore_balance`, it rebuilds the part of a stored ledger that an
    /// operation reads.
    pub fn restore(admin: Option<String>, total_supply: i128) -> (c: Coin)
        ensures
            c.wf(),
            c@.admin == (match admin {
                Some(a) => Some(a@),
                None => None::<Seq<char>>,
            }),
            c@.total_supply == total_supply as int,
            c@.balances == Map::<Seq<char>, int>::empty(),
            c@.circulating == 0,
    {
        Coin { admin, total_supply, balances: BalanceTable::new() }
    }

    /// Stores `amount` as the balance of `account`, as read back from storage.
    pub fn restore_balance(&mut self, account: &String, amount: i128)
        requires
            old(self).wf(),
        ensures
            final(self).wf(),
            final(self)@ == old(self)@.with_balance(account@, amount as int),
    {
        self.balances.set(account, amount);
    }

    /// The stored balance of `account`, if it has one.
    pub fn stored_balance(&self, account: &String) -> (r: Option<i128>)
        requires
            self.wf(),
        ensures
            match r {
                Some(v) => self@.balances.contains_key(account@) && self@.balances[account@]
                    == v as int,
                None => !self@.balances.contains_key(account@),
            },
    {
        self.balances.get(account)
    }

    /// The admin, if the ledger has been initialised.
    pub fn admin(&self) -> (r: Option<String>)
        ensures
            match r {
                Some(a) => self@.admin == Some(a@),
                None => self@.admin is None,
            },
    {
        match &self.admin {
            Some(a) => Some(a.clone()),
            None => None,
        }
    }

    /// Sets the admin (the issuer) and a total supply of 0. Refused once an
    /// admin is set.
    pub fn init(&mut self, admin: String) -> (r: Result<(), CoinError>)
        requires
            old(self).wf(),
        ensures
            final(self).wf(),
            applied(old(self)@, old(self)@.after_init(admin@), r, final(self)@),
    {
        if self.admin.is_some() {
            return Err(CoinError::AlreadyInitialized);
        }
        self.admin = Some(admin);
        self.total_supply = 0;
        Ok(())
    }

    /// Credits `amount` new coins to `to` and adds them to the total supply.
    /// Refused before initialisation, for an amount that is not positive, and
    /// where the balance or the supply would overflow.
    pub fn mint(&mut self, to: &String, amount: i128) -> (r: Result<(), CoinError>)
        requires
            old(self).wf(),
        ensures
            final(self).wf(),
            applied(old(self)@, old(self)@.after_mint(to@, amount as int), r, final(self)@),
    {
        if self.admin.is_none() {
            return Err(CoinError::NotInitialized);
        }
        if amount <= 0 {
            return Err(CoinError::NonPositiveAmount);
        }
        let current = self.balance(to);
        let credited = match current.checked_add(amount) {
            Some(v) => v,
            None => return Err(CoinError::Overflow),
        };
        let supply = match self.total_supply.checked_add(amount) {
            Some(v) => v,
            None => return Err(CoinError::Overflow),
        };
        self.balances.set(to, credited);
        self.total_supply = supply;
        Ok(())
    }

    /// Moves `amount` coins from `from` to `to`. Refused for an amount that is
    /// not positive, where `from` holds less than `amount`, and where the
    /// balance of `to` would overflow.
    pub fn transfer(&mut self, from: &String, to: &String, amount: i128) -> (r: Result<
        (),
        CoinError,
    >)
        requires
            old(self).wf(),
        ensures
            final(self).wf(),
            applied(
                old(self)@,
                old(self)@.after_transfer(from@, to@, amount as int),
                r,
                final(self)@,
            ),
    {
        if amount <= 0 {
            return Err(CoinError::NonPositiveAmount);
        }
        let from_balance = self.balance(from);
        if from_balance < amount {
            return Err(CoinError::InsufficientBalance);
        }
        let to_balance = if *from == *to {
            from_balance - amount
        } else {
            self.balance(to)
        };
        let credited = match to_balance.checked_add(amount) {
            Some(v) => v,
            None => return Err(CoinError::Overflow),
        };
        self.balances.set(from, from_balance - amount);
        self.balances.set(to, credited);
        Ok(())
    }

    /// The balance of `account`: its stored balance, or 0 where it has none.
    pub fn balance(&self, account: &String) -> (r: i128)
        requires
            self.wf(),
        ensures
            r == self@.balance(account@),
    {
        match self.balances.get(account) {
            Some(v) => v,
            None => 0,
        }
    }

    /// The total supply minted so far.
    pub fn total_supply(&self) -> (r: i128)
        ensures
            r == self@.total_supply,
    {
        self.total_supply
    }
}

} // verus!
