# root_market_maker

The verified core of a vault-based market maker for an on-chain order book.

- `src/utils.rs`: Euclid's gcd and the matching of a deposit to the vault's token ratio.
- `src/state.rs`: the vault, deposit receipt and clock as plain values.
- `src/instructions/`: each instruction as a function from the accounts it reads to the
  accounts it writes and the transfers or order book steps it asks for, with a function
  that tests its precondition.
- `src/laws.rs`: properties relating the instructions.
- `app/`: the on-chain program that reads accounts, calls the library and performs the
  token transfers and order book calls.
