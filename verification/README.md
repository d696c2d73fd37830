# soroban-test-kit

Testing infrastructure for Soroban smart contracts — stand-in ("mock")
contracts and assertion helpers — written in Verus, with every contract
method and assertion proved against its specification.

## Layout

- `src/` — the verified library.
  - `address` — addresses (by strkey), topic symbols, and `Auth`, the set of
    addresses that authorized a call.
  - `events` — the event history of a test environment.
  - `asserts` — approximate equality (`i128`, `i64`, `u128`), basis-point
    tolerance, zero checks, address membership, sortedness, order-insensitive
    equality, balance deltas and event emission.
  - `mocks` — each mock contract as a state machine: its stored state, and
    each method as a transition that either succeeds with a new state or
    fails with the error the contract call fails with (leaving the state
    unchanged). The tokens share `ledger` (admin and balances) and
    `allowance` (allowances); `book` is their keyed storage.
- `tests/` — scenario tests of the library.
- `app/` — the Soroban-facing layer: registerable contracts that load their
  stored entries into the models and write the results back, the panicking
  assertion macros, and `assert_panics` / `assert_auth_required`.

## Host values

A `soroban_sdk::Vec` or `soroban_sdk::Map` is a handle: the environment it
lives in and an object number in that environment's object table. What it
holds is not a function of the handle alone but of the host it points into,
and every read of it is a call into that host. The library therefore does
not hold host collections. Its checks take their elements as plain values —
a `Vec` of elements, or a `Vec` of key/value entries for a map, in the
host's order — and `app/` reads them out of the host before calling the
library (`elements` and `map_entries` in `app/asserts.rs`).

Verus accepts `soroban_sdk::Vec<T>` as a declared outside type. What it
cannot be given is a name for its contents: such a name would have to be
generic over the element type (the order-insensitive and sortedness checks
take any element type), and it would claim that equal handles hold equal
contents in every environment, which a handle does not promise.

Event values are held the same way: `events::Val` covers every value an
event can carry (scalars, 256-bit integers, bytes, strings, symbols,
addresses, host errors, lists and maps, nested to any depth), and
`app/convert.rs` turns the host's recorded events into an `EventLog`.
Ledger-key and contract-instance values are not modelled; an event that
carries one is left out of the log.
