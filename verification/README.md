# credence

Verified core of the Credence protocol contracts, written in Verus.

Each contract is a plain state value; its entry points are verified
transitions from (state, caller, ledger time, arguments) to a new state and a
result, with contracts stated over a mathematical view of the state.  A refused
call returns an error and leaves the state as it was.

The contract state is held in plain values: `Vec`, `HashMap` keyed by
integer account ids, and `Option`.  On the ledger the same state lives in
host storage and host collections reached through the contract environment;
loading and storing it, events and signature checks belong to the host, so
the library takes the caller and the ledger time as arguments and keeps the
rules.  A vote tally is a list of (outcome, total) pairs, one per outcome; the
winner is proved to be the outcome whose total is strictly greater than
every other's, whatever the order of the pairs.

Layout of `src/`:

* `errors` – the shared error codes, their categories and descriptions.
* `bond`, `bond_types`, `bond_contract` – bond validation, slashing
  arithmetic, early-exit penalties, tiers, and the bond contract (bonds,
  attestations, withdrawals, slashing, liquidation, the reentrancy lock).
* `bond_laws`, `bond_invariants` – the bond invariants I1–I7 (I7: each
  subject's stored attestation count equals the length of its attestation
  list; revoking an attestation takes its id off that list), their
  executable checks, and the proofs that every entry point keeps them.
* `parameters` – governance-controlled protocol parameters with bounds.
* `pausable` – the multi-signer emergency pause.
* `arbitration`, `arbitration_laws` – weighted dispute arbitration.
* `timelock`, `templates`, `delegation` – the timelocked operation queue,
  the record template contract and delegated-action payload checks.
* `admin` – decisions of the admin command-line tool.

## Callbacks and the reentrancy lock

`withdraw_bond`, `slash_bond` and `collect_fees` take the reentrancy lock,
store their new state, and hand back the callback to make (to the contract
registered by the admin with `set_callback`), if one is registered.  With no
callback registered they release the lock themselves.  Otherwise the host:

1. makes the returned callback; any guarded call that it makes back into the
   contract meanwhile is refused with `ReentrancyDetected`;
2. then calls `release_lock`, after which the lock is free again;
3. if the callback fails, discards the whole call, state and lock included,
   as the ledger does with a failed transaction.

`app/` holds the `credence-admin` command-line tool; `tests/` the tests.
