# credence_bond

A verified bond contract for the Soroban ledger. An identity puts tokens up as a bond, registered
attesters vouch for identities, and an admin slashes, pauses and collects fees.

The contract's rules live in `src/` and are proved with Verus. They work on a `Ledger`, a plain
value that holds what the contract sees of the chain during a call: the clock, the authorizations
and the contract's storage. An accepted call leaves a list of effects for the chain to carry out in
order: notices, token transfers and callbacks.

| Part | Content |
| --- | --- |
| `src/contract/` | the entry points, each with the reasons for a refusal and the ledger it leaves |
| `src/early_exit_penalty.rs`, `nonce.rs`, `rolling_bond.rs`, `tiered_bond.rs`, `weighted_attestation.rs` | the rules that the entry points share |
| `src/ledger.rs`, `keyed_map.rs`, `subject_index.rs` | the ledger, its storage, and the host vector that lists a subject's attestations |
| `src/laws/` | what holds of all calls and of every storage that calls can lead to |
| `app/` | the deployed contract: storage in and out, tokens, events and callbacks |
| `tests/` | scenarios with concrete values |

## Two-step calls

- A call that needs tokens from an owner leaves the effect `PullTokens`. The chain asks the token
  for the owner's allowance and hands it to `CredenceBond::pull_tokens`. If that is refused, the
  whole call is undone.
- A guarded call that needs external calls, a payment or a registered callback, keeps the
  reentrancy lock. Its last effect is `ReleaseLock`: once the others have been carried out,
  `CredenceBond::release_lock` ends the call.

## What is trusted

`src/subject_index.rs` declares `soroban_sdk::Env` and `soroban_sdk::Vec` and states what six
functions of the host vector do. Everything else in `src/` is proved.
