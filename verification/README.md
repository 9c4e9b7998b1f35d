# pay_dcp

The account-creation and DCP-signer logic of Pay.sh, verified with Verus.

DCP Desktop keeps the wallet keys and signs payment messages on request, asking its user for
consent when its budget policy says so. Pay.sh never sees the private key of a DCP account.

Layout:

- `src/` — the verified library.
  - `accounts.rs`: account records, networks, the DCP URL, registration of DCP accounts.
  - `backend.rs`: keystore backends per platform, the backend picker, 1Password accounts.
  - `account_flow.rs`: `pay account new` as a state machine (picker, keystore checks and setup,
    stored or imported key, DCP registration, saving).
  - `dcp_signer.rs`: the signer state, signing requests, replies and consent polling.
  - `signing_flow.rs`: the whole signing exchange as a state machine (at most one retry).
  - `clock.rs`: time left until an RFC 3339 consent deadline.
  - `codec.rs`, `keys.rs`: base58/base64 text, Solana keys and signatures, ed25519 keypairs.
  - `messages.rs`: top-up hints and the summary shown after setup.
  - `text.rs`: string helpers.
- `tests/` — tests of the library.
- `app/` — HTTP, prompts, environment and terminal output around the library.
