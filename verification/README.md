# sorosusu

The rules of a savings circle (susu / ROSCA) and of the contracts around it,
as a library verified with Verus.

- `src/` — the verified library. Each contract operation is a function from
  the records it reads to the records it writes and the token movements it
  orders (`Payout`, `Collection`), or a `Rejection`:
  - `circle.rs`: creating circles (plain and basket), joining with the
    collateral rule, contributions, pot claim, round bookkeeping, the
    address-recovery vote;
  - `payout.rs`: the rotating pot (70% at once, two deferred tranches),
    tranche claims and clawbacks, with the laws of the rotation;
  - `governance.rs`: duration proposals, leniency votes, quadratic votes and
    voting power;
  - `collateral.rs`, `grants.rs`, `liquidity.rs`: collateral vaults, liens,
    grant settlement, certificates, the liquidity buffer;
  - `susu_lending.rs`: reserve lending between groups with simple interest;
  - `fx_oracle.rs`: fiat equivalents of scaled FX rates;
  - `epoch.rs`: overflow-free arithmetic on ledger timestamps.
- `app/` — the Soroban contracts: authorisation, contract storage, token
  transfers and events, calling the library for every decision.
- `tests/` — tests of the library on concrete values.
