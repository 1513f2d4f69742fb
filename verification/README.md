# erc20

An ERC-20 style token ledger, verified with Verus.

- `src/token.rs`: the ledger (`Erc20`), its mathematical model
  (`Erc20Model`), its errors and the `Transfer` / `Approval` events it records.
  Every operation's contract states its outcome exactly, over the model.
  `Erc20Parts` spells a ledger out as plain values and back.
- `src/table.rs`: the key-to-amount table that holds balances and
  allowances, with the sum of its amounts in view.
- `src/laws.rs`: properties that span operations (conservation of supply,
  what a refused request changes, round trips, approvals, and what one
  approval allows over any sequence of requests).
- `app/lib.rs`: the ink! contract: it reads the caller, keeps the ledger
  in contract storage as plain values (`Erc20Parts`), and emits the events
  that the ledger records.
