# stellar_shield

The logic of three Soroban contracts that protect a Stellar wallet, with the
contract of each function proved:

- **guard** — a per-user daily spending cap. The limit lives in persistent
  storage; the day's running total and the day it belongs to live in temporary
  storage, so the budget refills when the ledger enters a new day.
- **registry** — destinations exempt from the cap, changed only on behalf of
  an admin recorded once at deployment.
- **auth** — passkey (P-256) registration, multi-sig thresholds, and the
  preparation of signature checks.

Layout:

- `src/host.rs` — every call into `soroban_sdk`, each behind a trusted item
  whose contract is stated over a model of the contract's storage: one map of
  values per storage family, the TTL of each kept-alive entry and of the
  instance, and the network's maximum TTL.
- `src/guard.rs`, `src/registry.rs`, `src/auth.rs` — the contracts' logic,
  with contracts over that model; `src/lib.rs` — the contract types.
- `src/history.rs` — runs of calls: each entrypoint's effect as one step,
  and the passing of time between invocations.
- `src/laws.rs` — what holds across calls: the cap on the running total,
  refused spends changing nothing, the daily refill, exemptions read back and
  withdrawn, the admin recorded once; and, over any run, what storage never
  holds (limits, totals or thresholds out of range), limits and passkeys read
  back until replaced, the admin never replaced, and spends on one day adding
  up under the limit.
- `app/` — the `#[contract]` entrypoints: authorisation, the host's
  signature check, and aborting the invocation when the library refuses.

The storage model reads an `Env` value as the state of the running contract
during one invocation. It holds while an invocation works through one `Env`
handle: the SDK writes through any clone of a handle. The library never clones
an `Env` and no function of it takes two; the entrypoints in `app/` each hand
it one handle, from inside the invocation, as the functions that reach
storage require.
