use vstd::prelude::*;

verus! {

/// The sum of a sequence of amounts.
pub open spec fn sum_of(amounts: Seq<i128>) -> int
    decreases amounts.len(),
{
    if amounts.len() == 0 {
        0
    } else {
        sum_of(amounts.drop_last()) + amounts.last()
    }
}

/// Replacing one amount changes the sum by the difference.
pub proof fn lemma_sum_of_update(amounts: Seq<i128>, i: int, v: i128)
    requires
        0 <= i < amounts.len(),
    ensures
        sum_of(amounts.update(i, v)) == sum_of(amounts) - amounts[i] + v,
    decreases amounts.len(),
{
    let updated = amounts.update(i, v);
    if i == amounts.len() - 1 {
        assert(updated.drop_last() =~= amounts.drop_last());
    } else {
        lemma_sum_of_update(amounts.drop_last(), i, v);
        assert(updated.drop_last() =~= amounts.drop_last().update(i, v));
    }
}

/// Appending an amount adds it to the sum.
pub proof fn lemma_sum_of_push(amounts: Seq<i128>, v: i128)
    ensures
        sum_of(amounts.push(v)) == sum_of(amounts) + v,
{
    assert(amounts.push(v).drop_last() =~= amounts);
}

/// A sum of amounts none of which is negative is at least any one of them,
/// and at least any two of them at different positions together.
pub proof fn lemma_sum_of_nonneg_bounds(amounts: Seq<i128>, i: int, j: int)
    requires
        forall|k: int| 0 <= k < amounts.len() ==> amounts[k] >= 0,
        0 <= i < amounts.len(),
        0 <= j < amounts.len(),
    ensures
        sum_of(amounts) >= amounts[i],
        i != j ==> sum_of(amounts) >= amounts[i] + amounts[j],
    decreases amounts.len(),
{
    let n = amounts.len() - 1;
    let rest = amounts.drop_last();
    assert(sum_of(amounts) == sum_of(rest) + amounts[n]);
    assert(forall|k: int| 0 <= k < rest.len() ==> rest[k] == amounts[k]);
    if n == 0 {
        assert(sum_of(rest) == 0);
    } else {
        if i < n && j < n {
            lemma_sum_of_nonneg_bounds(rest, i, j);
        } else if i < n {
            lemma_sum_of_nonneg_bounds(rest, i, i);
        } else if j < n {
            lemma_sum_of_nonneg_bounds(rest, j, j);
        } else {
            lemma_sum_of_nonneg_bounds(rest, 0, 0);
        }
    }
}

/// The stored balances of a ledger: each account that has one appears once,
/// beside its amount.
pub struct BalanceTable {
    accounts: Vec<String>,
    amounts: Vec<i128>,
}

impl BalanceTable {
    /// The account names, as character sequences.
    pub closed spec fn keys(&self) -> Seq<Seq<char>> {
        self.accounts@.map_values(|s: String| s@)
    }

    /// The amounts, in the order of `keys`.
    pub closed spec fn amounts(&self) -> Seq<i128> {
        self.amounts@
    }

    /// Both columns have the same length and no account appears twice.
    pub closed spec fn wf(&self) -> bool {
        &&& self.accounts@.len() == self.amounts@.len()
        &&& self.keys().no_duplicates()
    }

    /// The stored balance of each account that has one.
    pub closed spec fn view(&self) -> Map<Seq<char>, int> {
        Map::new(
            |k: Seq<char>| self.keys().contains(k),
            |k: Seq<char>| self.amounts@[self.keys().index_of(k)] as int,
        )
    }

    /// The sum of all stored balances.
    pub closed spec fn total(&self) -> int {
        sum_of(self.amounts@)
    }

    /// Every stored balance lies in the range of `i128`.
    pub proof fn lemma_in_range(&self, k: Seq<char>)
        requires
            self.wf(),
            self.view().contains_key(k),
        ensures
            i128::MIN <= self.view()[k] <= i128::MAX,
    {
    }

    /// Where no stored balance is negative, the total is not negative either,
    /// and it is at least any one stored balance, and at least the balances
    /// of two accounts together.
    pub proof fn lemma_total_bounds(&self, a: Seq<char>, b: Seq<char>)
        requires
            self.wf(),
            forall|k: Seq<char>| #[trigger] self.view().contains_key(k) ==> self.view()[k] >= 0,
        ensures
            self.total() >= 0,
            self.view().contains_key(a) ==> self.view()[a] <= self.total(),
            self.view().contains_key(a) && self.view().contains_key(b) && a != b ==> self.view()[a]
                + self.view()[b] <= self.total(),
    {
        let keys = self.keys();
        let amounts = self.amounts@;
        if amounts.len() > 0 {
            assert forall|k: int| 0 <= k < amounts.len() implies amounts[k] >= 0 by {
                let key = keys[k];
                assert(keys.contains(key));
                assert(self.view().contains_key(key));
                let idx = keys.index_of(key);
                assert(keys[idx] == key);
                assert(idx == k);
            }
            let i = if self.view().contains_key(a) {
                keys.index_of(a)
            } else {
                0
            };
            let j = if self.view().contains_key(b) {
                keys.index_of(b)
            } else {
                i
            };
            lemma_sum_of_nonneg_bounds(amounts, i, j);
        }
    }

    /// A table with no stored balances.
    pub fn new() -> (t: Self)
        ensures
            t.wf(),
            t.view() == Map::<Seq<char>, int>::empty(),
            t.total() == 0,
    {
        let t = BalanceTable { accounts: Vec::new(), amounts: Vec::new() };
        assert(t.view() =~= Map::<Seq<char>, int>::empty());
        t
    }

    /// The position of `account` in the table.
    fn find(&self, account: &String) -> (r: Option<usize>)
        requires
            self.wf(),
        ensures
            match r {
                Some(i) => i < self.accounts@.len() && self.keys()[i as int] == account@,
                None => !self.keys().contains(account@),
            },
    {
        let n = self.accounts.len();
        let mut i: usize = 0;
        while i < n
            invariant
                n == self.accounts@.len(),
                i <= n,
                forall|j: int| 0 <= j < i ==> self.keys()[j] != account@,
            decreases n - i,
        {
            if self.accounts[i] == *account {
                return Some(i);
            }
            i = i + 1;
        }
        None
    }

    /// The stored balance of `account`, if it has one.
    pub fn get(&self, account: &String) -> (r: Option<i128>)
        requires
            self.wf(),
        ensures
            match r {
                Some(v) => self.view().contains_key(account@) && self.view()[account@] == v as int,
                None => !self.view().contains_key(account@),
            },
    {
        match self.find(account) {
            Some(i) => {
                proof {
                    let keys = self.keys();
                    assert(keys.index_of(account@) == i as int);
                }
                Some(self.amounts[i])
            },
            None => None,
        }
    }

    /// Stores `amount` as the balance of `account`.
    pub fn set(&mut self, account: &String, amount: i128)
        requires
            old(self).wf(),
        ensures
            final(self).wf(),
            final(self).view() == old(self).view().insert(account@, amount as int),
            final(self).total() == old(self).total() - (if old(self).view().contains_key(account@) {
                old(self).view()[account@]
            } else {
                0
            }) + amount,
    {
        let ghost old_keys = self.keys();
        let ghost old_amounts = self.amounts@;
        let ghost old_view = self.view();
        match self.find(account) {
            Some(i) => {
                proof {
                    assert(old_keys.index_of(account@) == i as int);
                    lemma_sum_of_update(old_amounts, i as int, amount);
                }
                self.amounts.set(i, amount);
                proof {
                    assert(self.keys() =~= old_keys);
                    assert forall|k: Seq<char>| #[trigger] self.view().contains_key(k) implies
                        self.view()[k] == old_view.insert(account@, amount as int)[k] by {
                        if k != account@ {
                            let j = old_keys.index_of(k);
                            assert(old_keys[j] == k);
                            assert(j != i as int);
                        }
                    }
                    assert(self.view() =~= old_view.insert(account@, amount as int));
                }
            },
            None => {
                let name = account.clone();
                self.accounts.push(name);
                self.amounts.push(amount);
                proof {
                    lemma_sum_of_push(old_amounts, amount);
                    let keys = self.keys();
                    assert(keys =~= old_keys.push(account@));
                    assert forall|k: Seq<char>| #[trigger] self.view().contains_key(k) implies
                        self.view()[k] == old_view.insert(account@, amount as int)[k] by {
                        let j = keys.index_of(k);
                        if k == account@ {
                            assert(keys[old_keys.len() as int] == k);
                            assert(j == old_keys.len());
                        } else {
                            assert(j < old_keys.len());
                            assert(old_keys[j] == k);
                            assert(old_keys.index_of(k) == j);
                        }
                    }
                    assert forall|k: Seq<char>|
                        keys.contains(k) <==> (old_keys.contains(k) || k == account@) by {
                        if old_keys.contains(k) {
                            assert(keys[old_keys.index_of(k)] == k);
                        }
                        if k == account@ {
                            assert(keys[old_keys.len() as int] == k);
                        }
                        if keys.contains(k) && k != account@ {
                            assert(old_keys[keys.index_of(k)] == k);
                        }
                    }
                    assert(self.view().dom() =~= old_view.insert(account@, amount as int).dom());
                    assert(self.view() =~= old_view.insert(account@, amount as int));
                }
            },
        }
    }
}

} // verus!
