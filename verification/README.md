# trusttrove

Two trade-finance contracts whose rules and accounts are verified with Verus.

- **The pool** takes USDC deposits of liquidity providers, issues shares for
  them, buys listed invoices at a discount, and books repayments and defaults.
- **The registry** knows the issuers and buyers, and who of them is verified.
  The pool asks it before it commits money to an invoice.

Both are state machines. A call takes the addresses that authorised it and the
answers of other contracts, and either changes the state and lists what is to be
done on the ledger, in order, or names the one reason for which the whole call
is undone.

## Layout

- `src/` is the verified library.
  - `pool/model.rs`, `registry/model.rs`: state, reports, actions.
  - `pool/meaning.rs`, `registry/meaning.rs`: what each call means: when it is
    undone and why, the state it leaves, the actions it asks for.
  - `pool/contract.rs`, `pool/funding.rs`, `registry/contract.rs`: the calls
    themselves, proved to agree with their meaning.
  - `pool/books.rs`: the books balance after any sequence of calls.
  - `pool/laws.rs`, `registry/laws.rs`: what the contracts promise.
  - `pool/effects.rs`, `registry/effects.rs`: what reaches the ledger.
  - `metadata.rs`: profile metadata, which lives in host maps of `soroban-sdk`.
- `app/` runs the contracts on the Soroban host: storage, signatures, tokens,
  events and calls to other contracts.
- `tests/` runs the library against a simulated ledger.
