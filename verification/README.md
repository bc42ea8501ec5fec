# defi_suite

Verified decision logic of four small Solana programs, written in Verus:

- `amm`: a constant-product pool (deposit, withdraw, swap) with slippage
  limits, a lock, and a swap fee in basis points;
- `escrow`: a maker offers tokens of one mint for a number of tokens of
  another; the taker pays and takes the vault, or the maker is refunded;
- `staking`: Metaplex Core assets are frozen while staked and earn points per
  whole day, which are claimed as reward tokens;
- `vault`: the error of a SOL vault.

Each instruction is a function from the values of the accounts it reads to the
new values of the accounts it owns and the list of cross-program invocations
(`cpi::Cpi`) it asks for. `src/` is the verified library; `app/` performs the
invocations on Solana with Anchor, Anchor SPL and mpl-core, and takes the
constant-product curve's quotes that the library's AMM functions receive as
arguments.
