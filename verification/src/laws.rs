use vstd::prelude::*;

use crate::coin::{Coin, CoinState};
use crate::error::CoinError;

verus! {

/// The supply equals the sum of all balances, no balance is negative, and an
/// uninitialised ledger has no supply.
pub open spec fn consistent(s: CoinState) -> bool {
    &&& s.total_supply == s.circulating
    &&& forall|k: Seq<char>| #[trigger] s.balances.contains_key(k) ==> s.balances[k] >= 0
    &&& s.admin is None ==> s.total_supply == 0
}

/// Every stored balance and the supply lie in the range of `i128`.
pub open spec fn in_range(s: CoinState) -> bool {
    &&& forall|k: Seq<char>| #[trigger]
        s.balances.contains_key(k) ==> i128::MIN <= s.balances[k] <= i128::MAX
    &&& i128::MIN <= s.total_supply <= i128::MAX
}

/// A fresh ledger is consistent.
pub proof fn law_empty_is_consistent()
    ensures
        consistent(CoinState::empty()),
{
}

/// The admin can be set once: after a successful `init`, every further
/// `init` is refused with `AlreadyInitialized`.
pub proof fn law_init_only_once(s: CoinState, first: Seq<char>, second: Seq<char>)
    requires
        s.after_init(first) is Ok,
    ensures
        s.after_init(first)->Ok_0.after_init(second) == Err::<CoinState, CoinError>(
            CoinError::AlreadyInitialized,
        ),
        s.after_init(first)->Ok_0.admin == Some(first),
        s.after_init(first)->Ok_0.total_supply == 0,
{
}

/// `init`, `mint` and `transfer` keep a consistent ledger consistent.
pub proof fn law_operations_keep_consistency(
    s: CoinState,
    admin: Seq<char>,
    from: Seq<char>,
    to: Seq<char>,
    amount: int,
)
    requires
        consistent(s),
    ensures
        s.after_init(admin) matches Ok(t) ==> consistent(t),
        s.after_mint(to, amount) matches Ok(t) ==> consistent(t),
        s.after_transfer(from, to, amount) matches Ok(t) ==> consistent(t),
{
}

/// A mint adds `amount` to the supply and to the balance of `to`, and to no
/// other balance.
pub proof fn law_mint_credits_recipient(s: CoinState, to: Seq<char>, amount: int, other: Seq<char>)
    requires
        s.after_mint(to, amount) is Ok,
        other != to,
    ensures
        ({
            let t = s.after_mint(to, amount)->Ok_0;
            &&& t.total_supply == s.total_supply + amount
            &&& t.circulating == s.circulating + amount
            &&& t.balance(to) == s.balance(to) + amount
            &&& t.balance(other) == s.balance(other)
            &&& t.admin == s.admin
        }),
{
}

/// A transfer leaves the supply, the sum of the balances and the admin as
/// they were; between two accounts it debits the sender and credits the
/// recipient by `amount`, and it touches no other balance.
pub proof fn law_transfer_conserves(
    s: CoinState,
    from: Seq<char>,
    to: Seq<char>,
    amount: int,
    other: Seq<char>,
)
    requires
        s.after_transfer(from, to, amount) is Ok,
    ensures
        ({
            let t = s.after_transfer(from, to, amount)->Ok_0;
            &&& t.total_supply == s.total_supply
            &&& t.circulating == s.circulating
            &&& t.admin == s.admin
            &&& from != to ==> t.balance(from) == s.balance(from) - amount
            &&& from != to ==> t.balance(to) == s.balance(to) + amount
            &&& from == to ==> t.balance(from) == s.balance(from)
            &&& (other != from && other != to) ==> t.balance(other) == s.balance(other)
        }),
{
}

/// A transfer is refused exactly when the amount is not positive, the sender
/// holds less than the amount, or the recipient's balance would overflow.
pub proof fn law_transfer_refusals(s: CoinState, from: Seq<char>, to: Seq<char>, amount: int)
    ensures
        amount <= 0 ==> s.after_transfer(from, to, amount) == Err::<CoinState, CoinError>(
            CoinError::NonPositiveAmount,
        ),
        0 < amount && s.balance(from) < amount ==> s.after_transfer(from, to, amount) == Err::<
            CoinState,
            CoinError,
        >(CoinError::InsufficientBalance),
{
}

/// Sending an amount back undoes a transfer: every balance, the supply and
/// the sum of the balances are as before.
pub proof fn law_transfer_round_trip(s: CoinState, a: Seq<char>, b: Seq<char>, amount: int)
    requires
        consistent(s),
        in_range(s),
        s.after_transfer(a, b, amount) is Ok,
    ensures
        s.after_transfer(a, b, amount)->Ok_0.after_transfer(b, a, amount) is Ok,
        ({
            let u = s.after_transfer(a, b, amount)->Ok_0.after_transfer(b, a, amount)->Ok_0;
            &&& u.total_supply == s.total_supply
            &&& u.circulating == s.circulating
            &&& u.admin == s.admin
            &&& forall|k: Seq<char>| #[trigger] u.balance(k) == s.balance(k)
        }),
{
    let t = s.after_transfer(a, b, amount)->Ok_0;
    if s.balances.contains_key(a) {
        assert(s.balances[a] <= i128::MAX);
    }
    if s.balances.contains_key(b) {
        assert(s.balances[b] >= 0);
    }
    assert(t.balance(b) >= amount);
    let u = t.after_transfer(b, a, amount)->Ok_0;
    assert forall|k: Seq<char>| #[trigger] u.balance(k) == s.balance(k) by {
    }
}

/// In a consistent ledger a transfer of a positive amount that the sender
/// covers always goes through: the recipient's balance cannot overflow.
pub proof fn law_covered_transfer_succeeds(c: &Coin, from: Seq<char>, to: Seq<char>, amount: int)
    requires
        c.wf(),
        consistent(c@),
        0 < amount <= c@.balance(from),
    ensures
        c@.after_transfer(from, to, amount) is Ok,
{
    c.lemma_balances_within_circulating(from, to);
    c.lemma_in_range(from);
}

/// In a consistent, initialised ledger a mint of a positive amount is refused
/// exactly when the supply would overflow: no balance exceeds the supply.
pub proof fn law_mint_overflows_only_with_supply(c: &Coin, to: Seq<char>, amount: int)
    requires
        c.wf(),
        consistent(c@),
        c@.admin is Some,
        0 < amount,
    ensures
        c@.after_mint(to, amount) is Err <==> c@.total_supply + amount > i128::MAX,
{
    c.lemma_balances_within_circulating(to, to);
}

/// Every balance a ledger stores, and its supply, lie in the range of
/// `i128`, so the laws stated under `in_range` apply to every ledger.
pub proof fn law_ledger_in_range(c: &Coin)
    requires
        c.wf(),
    ensures
        in_range(c@),
{
    assert forall|k: Seq<char>| #[trigger] c@.balances.contains_key(k) implies i128::MIN
        <= c@.balances[k] <= i128::MAX by {
        c.lemma_in_range(k);
    }
    c.lemma_in_range(Seq::empty());
}

/// Once a ledger has an admin, every `init` is refused with
/// `AlreadyInitialized`, whatever the supply and the balances; before that,
/// `init` always succeeds, sets the admin and a supply of 0, and keeps every
/// balance.
pub proof fn law_init_refused_once_admin_set(s: CoinState, admin: Seq<char>, account: Seq<char>)
    ensures
        s.admin is Some ==> s.after_init(admin) == Err::<CoinState, CoinError>(
            CoinError::AlreadyInitialized,
        ),
        s.admin is None ==> s.after_init(admin) is Ok,
        s.admin is None ==> s.after_init(admin)->Ok_0.admin == Some(admin),
        s.admin is None ==> s.after_init(admin)->Ok_0.total_supply == 0,
        s.admin is None ==> s.after_init(admin)->Ok_0.balance(account) == s.balance(account),
        s.admin is None ==> s.after_init(admin)->Ok_0.circulating == s.circulating,
{
}

/// A mint of an amount that is not positive never succeeds: with an admin it
/// is refused with `NonPositiveAmount`, without one with `NotInitialized`.
pub proof fn law_mint_refuses_non_positive(s: CoinState, to: Seq<char>, amount: int)
    requires
        amount <= 0,
    ensures
        s.admin is Some ==> s.after_mint(to, amount) == Err::<CoinState, CoinError>(
            CoinError::NonPositiveAmount,
        ),
        s.admin is None ==> s.after_mint(to, amount) == Err::<CoinState, CoinError>(
            CoinError::NotInitialized,
        ),
{
}

/// In every initialised ledger a mint of a positive amount for which neither
/// the recipient's balance nor the supply leaves `i128` succeeds, adds the
/// amount to both, and touches no other balance and not the admin.
pub proof fn law_mint_in_range_succeeds(s: CoinState, to: Seq<char>, amount: int, other: Seq<char>)
    requires
        s.admin is Some,
        0 < amount,
        s.balance(to) + amount <= i128::MAX,
        s.total_supply + amount <= i128::MAX,
    ensures
        s.after_mint(to, amount) is Ok,
        s.after_mint(to, amount)->Ok_0.balance(to) == s.balance(to) + amount,
        s.after_mint(to, amount)->Ok_0.total_supply == s.total_supply + amount,
        other != to ==> s.after_mint(to, amount)->Ok_0.balance(other) == s.balance(other),
        s.after_mint(to, amount)->Ok_0.admin == s.admin,
{
}

/// In every ledger, initialised or not and whatever its supply, a transfer of
/// a positive amount that the sender covers, and after which the recipient's
/// balance stays within `i128`, succeeds: it debits the sender and credits
/// the recipient by the amount (between two accounts), touches no other
/// balance, and leaves the admin and the supply as they were.
pub proof fn law_covered_transfer_succeeds_anywhere(
    s: CoinState,
    from: Seq<char>,
    to: Seq<char>,
    amount: int,
    other: Seq<char>,
)
    requires
        0 < amount <= s.balance(from),
        (if from == to {
            s.balance(from)
        } else {
            s.balance(to) + amount
        }) <= i128::MAX,
    ensures
        s.after_transfer(from, to, amount) is Ok,
        from != to ==> s.after_transfer(from, to, amount)->Ok_0.balance(from) == s.balance(from)
            - amount,
        from != to ==> s.after_transfer(from, to, amount)->Ok_0.balance(to) == s.balance(to)
            + amount,
        from == to ==> s.after_transfer(from, to, amount)->Ok_0.balance(from) == s.balance(from),
        other != from && other != to ==> s.after_transfer(from, to, amount)->Ok_0.balance(other)
            == s.balance(other),
        s.after_transfer(from, to, amount)->Ok_0.admin == s.admin,
        s.after_transfer(from, to, amount)->Ok_0.total_supply == s.total_supply,
{
}

} // verus!
