# solana_common

Helpers for building and reading Solana / Anchor instructions and accounts,
verified with Verus.

- `src/` is the verified library: instruction and account types, the
  `Discriminator`, `Space`, `InstructionData` and `ToAccountMetas` traits, the
  instruction builder, discriminator generation
  (`Sha256("<namespace>:<name>")[..8]`), the reading of the `account(..)` and
  `instruction(..)` attribute arguments, the plans from which the
  `ToAccountMetas` and `Instructions` derives write their code (and
  `DerivedAccounts`, which the generated `to_account_metas` calls to turn
  field values into accounts), the Anchor discriminator check on account
  data, and the chunking and decoding of account fetches.
- `app/` holds what talks to the outside: the derives and the
  `discriminator` attribute as functions from tokens to tokens (parsing with
  `syn` into the library's description of the input, and writing the code
  with `quote` from the library's plans), the asynchronous RPC fetch functions, the
  error types with their messages, and conversions to the Solana crates'
  types.
- `tests/` runs the library on concrete values.
