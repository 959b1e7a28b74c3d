# rentguard

Rental agreements with an escrowed security deposit, as a verified library.

- `src/` holds the rules, each with a machine-checked contract: creating an agreement, paying the
  deposit and the rent, withdrawing rent, ending the lease, approving the return of
  the deposit, filing and resolving a dispute, and rating users. Each instruction
  takes the state it reads (the accounts' contents, the signer, the clock) and
  returns the new state, the lamport transfers to make and the event to emit, or the
  error that refuses it; a refused instruction changes nothing. `src/laws.rs` states
  the properties that span instructions.
- `app/` is the Solana program built with Anchor: account validation (seeds, bumps,
  signers), the clock and rent sysvars, the lamport transfers and the events. Every
  decision is made by the library.
- `tests/` exercises the library on concrete scenarios.
