# cw_admins

A CosmWasm contract that keeps a group of admins and shares donations out
among them, written as a Verus library with proved contracts.

- `src/` — the verified logic. `contract` holds instantiation, the executed
  messages (`add_members`, `leave`, `donate`, dispatched by `execute`) and the
  queries (`greet`, `admins_list`, dispatched by `query`), each a function of
  the stored `State` and the message; `laws` proves properties that span
  several calls; `types` and `msg` hold the plain values that go in and out;
  `payment` takes a payment through `cw_utils::must_pay`; `decimal` renders
  amounts.
- `app/` — the entry points: they load and save the state through
  `cw-storage-plus`, validate addresses through the host's API, call the
  library, and turn its responses into `cosmwasm_std` values.
- `tests/` — tests of the library on concrete values.
