# coin

A campus currency token ledger: an admin (the issuer) is set once, mints coins
to accounts, and account holders transfer coins to one another.

- `src/coin.rs`: the ledger (`Coin`) and its mathematical state (`CoinState`);
  each operation is specified as a transition of `CoinState`.
- `src/balances.rs`: the table of stored balances and the facts about its sum.
- `src/laws.rs`: what holds across operations (the supply equals the sum of the
  balances, transfers conserve coins, a transfer sent back is undone, ...).
- `src/error.rs`: why an operation is refused.
- `app/lib.rs`: the Soroban contract, which loads the touched storage entries
  into a `Coin`, runs the operation, checks signatures and writes back.
