# codex_switcher

A library for keeping several accounts of the Codex CLI: reading their rate limits, warming them up,
signing in, and switching between them by writing the CLI's `auth.json`. It is written in Verus; what
each function does is stated in its contract and proved.

- `src/` is the library. `usage`, `metadata`, `warmup`, `requests`, `headers` and `exchange` are the
  conversation with the backend; `message`, `json` and `text` read and shorten its answers;
  `switcher` decides what is taken over from and written to `auth.json`; `oauth` holds the pending
  login and the steps that complete one, and `renewal` states what they leave behind; `desktop` is
  what the program does with its windows.
- `tests/` runs the library.
- `app/` sends the requests, reads and writes the files, and carries out the actions that the
  library's state machines ask for. It reaches the stored accounts and the windows through two
  traits, `Host` and `Shell`.

Calls into `reqwest`, `serde_json`, `dirs` and `chrono` stand behind small functions marked
`external_body`; their contracts are taken on trust, and the comment above each says what they claim.
Everything else in `src/` is proved.
