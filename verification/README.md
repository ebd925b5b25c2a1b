# stablecoin_amm

The verified core of two Solana programs: a permissioned Token-2022 stablecoin issuer
(allowlists, freezes, a global pause, minter allowances, supply caps, two-step admin
rotation) and a constant-product pool that trades the issued stablecoins against each other.

## Layout

- `src/` is the library, verified with Verus.
  - `math.rs` holds the pool arithmetic (floor square root, rounding division and the four
    quotes), each with a contract that pins its result; `quote_laws.rs` proves what the
    quotes promise together: `k` never decreases, rounding always favours the pool,
    deposits and withdrawals never lower the value of an LP token, and no quote overflows.
  - `stablecoin/` and `amm/` hold each instruction's decisions as functions from the
    accounts it reads to the state it writes and the event it reports, and `laws.rs` in
    each proves the invariants that span instructions (the issuance invariant, the
    pause mirror, policy and freeze agreement, solvency of the vaults, the locked minimum).
  - `token2022.rs` reads Token-2022 account data and sizes accounts through
    `spl-token-2022`; only the calls into it are trusted.
- `tests/` runs the library on concrete values.
- `app/` is the Solana side: account loading, Token-2022 and system-program calls, account
  storage and events, around the library's decisions.
