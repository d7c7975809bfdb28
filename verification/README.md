# owo

The backend of a personal-finance service, with its rules verified by
Verus.

- `src/` is the verified library: month and date arithmetic (`months`,
  `calendar`), money amounts and their decimal text (`money`), the ledger
  rules for transactions and their legs (`ledger`, `transactions`), paging
  and cursors (`paging`), reports (`reports`), bills, cards, accounts and
  the catalog of categories, budgets and the like, passwords and session
  tokens (`security`, `users`), photo uploads (`photo`) and what a new user
  is given (`provisioning`). Calls into outside crates (chrono, rust_decimal,
  base64, sha2, hex, argon2, rand) go through small trusted wrappers whose
  contracts are stated in `codecs`, `calendar`, `money` and `security`.
- `app/` is the HTTP server (axum, sqlx over SQLite): routes, SQL, JSON forms
  of the library's types, time and randomness. It calls the library for
  every check and computation.
- `tests/` runs the library on concrete values.
