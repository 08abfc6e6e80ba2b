# carbon_escrow

Escrow contract for carbon credit trades on Stellar / Soroban, verified with
Verus.

A buyer locks USDC; the funds go to the seller once both parties have confirmed,
and back to the buyer once the timeout is past or the admin cancels.

- `src/contract.rs`: the calls of the contract. A call works on an `Env` of plain
  values (`src/host.rs`) and appends to it, in order, what the host has to do.
- `src/rules.rs`: for each call, what it answers and what it leaves behind. The
  contracts of the calls are stated over these rules.
- `src/requests.rs`, `src/laws.rs`: calls as values, runs of calls, and what is
  proved of them: the lifecycle, who may do what, what a refused call leaves alone.
- `src/custody.rs`: what is proved of the money, above all that the contract holds
  what its open escrows hold. This counts only the transfers that the contract
  itself asks for. It holds at least as much if the contract itself creates no
  escrow, and exactly as much if it confirms none either.
- `app/`: the contract on its Soroban host. It reads the entries that a call is
  about, lets the library decide, and does what the library asks for.
- `tests/trades.rs` runs whole trades against the asset contract of the SDK's test
  host, with mocked authorizations; `tests/rules.rs` runs the rules on plain values.
