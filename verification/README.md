# vault_escrow

Two small Solana programs, written as verified decision functions:

- **Vault** (`src/vault/`): a user's lamports held by a PDA. `Withdraw::withdraw`
  refuses a zero amount and any amount that would take the vault below the
  rent-exempt reserve it is given; `Close::close` sends back everything the
  vault holds.
- **Escrow** (`src/escrow/`): a maker deposits token A and asks for an amount of
  token B. `Take::take` refuses the maker as taker, an empty vault and a taker
  without enough token B; otherwise it plans the payment, the release of the
  whole deposit and the closing of the vault. `Update::update` changes the
  asked amount.

Each instruction reads plain values (addresses, balances, bumps) and returns
either an error code or the exact transfers to make, with the PDA seeds that
sign them. The contracts state the result for every input they take, and the `laws`
modules prove properties across instructions (the vault keeps its reserve,
a withdrawal followed by closing returns all lamports, a take empties the
vault, an update changes only the asked amount, distinct escrow seeds give
distinct PDA seeds).

`app/` holds the Anchor side: the account structs with their constraints, and
the handlers that build a request from the accounts, call the library and
perform the CPIs it planned. The rent-exempt reserve is read there, from the
rent sysvar (a runtime read, computed in floating point), and handed to the
library as a plain number.
