# stream_fund

Continuous token streams escrowed by a Soroban contract: a sender locks
tokens that are released linearly to a receiver between a start and a stop
time; the receiver withdraws what has accrued, the sender may cancel early
and get the unstreamed part back.

- `src/` is the verified library (Verus):
  - `schedule.rs`: the release formula (saturating product, division rounding
    toward zero, the whole total from the stop time on) and its bounds;
  - `stream.rs`: the decisions on one stream record (open, withdrawable
    balance, withdraw, cancel); each contract gives the exact result, the
    comparison of the two parties' addresses by the name `address_eq`;
  - `contract.rs`: a table of streams by id with the four operations of the
    contract, each taking a ledger time no earlier than the last one, and
    keeping every stream valid at that time and the escrow owed per token
    in step with the transfers;
  - `storage.rs`: the time-to-live given to stored records;
  - `laws.rs`: what holds across operations (bounded and monotone release,
    conservation of escrowed tokens, validity as time moves forward);
  - `address.rs`: the trusted declarations for `soroban_sdk::Address`.
- `app/` is the on-chain contract: Soroban entry points, persistent storage,
  authorisation, token transfers and events, around the library. It cannot
  keep the table of `contract.rs`: stream records live in the ledger's
  persistent storage, so each entry point loads one record, runs the verified
  decisions of `stream.rs` on it (after the overflow guards `can_*`) and
  writes it back.
- `tests/` exercises the library on concrete values.
