# faucet_contracts

The state and rules of five Soroban ledger contracts, written in Verus and
proved against their contracts:

- `faucet`: a token faucet with a per-claim limit and a per-user cooldown;
- `wrapped_token`: a 1:1 mint/burn wrapper around an existing token;
- `oracle`: a price oracle with admin-managed signers and a freshness window;
- `moderation`: flagging, moderator review, appeal and an audit log;
- `storage`, `types`, `errors`: the storage of a token vault.

Each contract is a plain value whose fields are its stored entries. Its methods
decide and update those entries, and return what the host has to carry out
(`transfer::TokenTransfer`) or publish (the event logs). Addresses are held by
their strkey text (`address::Address`); keyed entries live in
`keyed_map::KeyedMap`, a list of entries whose view is a `Map`.

Layout:

- `src/`: the verified library;
- `tests/`: tests of the library;
- `app/`: the Soroban contracts themselves, built on `soroban-sdk`: they read
  the entries a call needs from contract storage, check the caller's
  authorization, call the library, then write back, move tokens and publish
  events.
