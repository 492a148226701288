# wecom_cli

Verified core of a command-line tool for WeCom (企业微信) bots, written in
Verus. The library under `src/` states its behaviour in `requires` / `ensures`
contracts that Verus proves; `app/` is the thin program around it (argument
parsing, terminal prompts, files, keyring, HTTP).

## Layout

- `transport.rs`, `wecom_error.rs`, `auth_error.rs`, `cli_error.rs` — the
  three-layer error model with its codes (893000–893999), display texts and
  the conversions between layers.
- `credentials.rs`, `file_store.rs`, `crypto.rs` — the credential ledger, the
  in-memory store, the AES-256-GCM sealed file store and its key handling.
- `gateway.rs`, `provider.rs`, `backend.rs`, `runtime.rs` — the gateway's flat
  envelopes, the token provider, the authenticated backend's decisions
  (injection, gate, silent refresh and one replay) and the client builder.
- `polling.rs`, `qrcode.rs` — the long-task polling and QR-code binding state
  machines; the caller performs each request and hands the answer back.
- `cli_auth.rs`, `init_cmd.rs`, `media.rs`, `paths.rs`, `text.rs` — command
  routing, output-path checks, media types and the text helpers they rest on.

Public proof functions named `law_*` state the properties that span several
functions (read after write, decrypt after encrypt, the authorization rules,
the network-error budget of polling, error conversions across layers).
