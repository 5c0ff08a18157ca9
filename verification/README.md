# fluxora_stream

Payment streams on a ledger: a sender funds a deposit, a recipient earns it
second by second between a start and an end, after a cliff, and draws what has
been earned. Every rule of the contract is executable Rust whose behaviour is
stated in `requires` and `ensures` and proved by Verus.

- `src/` is the verified library. `state.rs` holds the contract's state and its
  mathematical view; each family of entry points has a module of its own
  (`creation`, `withdrawal`, `batch`, `delegated`, `lifecycle`, `bulk`, `rates`,
  `renewal`, `templates`, `recipients`, `autoclaim`, `offers`, `reservations`,
  `admin`, `views`). `operations.rs` gathers them into one step function, and
  `laws/` states what holds of the contract as a whole.
- `index.rs` keeps sorted identifier lists in host vectors of `soroban_sdk`;
  the few host calls stand there, each behind a small contract.
- `tests/` runs the library.
- `app/` is the contract on the ledger: authorisation, storage, tokens, events
  and signatures.

A refused call changes nothing: an error is returned, and the state is the one
before the call. Where time, a token's answer, a balance or the outcome of a
signature check matters, it comes in as an argument, so that each rule is proved
for every value of it.
