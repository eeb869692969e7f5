# zwallet

The logic of a Zcash light wallet with C bindings, verified with Verus.

- `src/` is the verified library: account identifiers and their text,
  account listings, default addresses, balance reports, the decisions of
  wallet creation and of sending a transfer (each as a machine that names the
  next piece of outside work and takes back what came of it), and the values
  that cross the C boundary. Calls into `uuid`, `zcash_protocol`,
  `zcash_address`, `zip321`, `zcash_keys`, `zcash_client_backend`, `age`,
  `bip0039` and `chrono` stand behind small trusted wrappers whose contracts
  say what the library relies on.
- `app/` holds the C entry points and the outside work: the lightwalletd
  server, the identity and configuration files, and the wallet database. It
  relies on the wallet's I/O modules `config`, `data`, `error`, `remote`,
  `sync` and `txn`.
- `tests/` runs the library against the real outside crates.
