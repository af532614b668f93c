# firre

A thin Firebase HTTP client: Identity Toolkit / Secure Token calls for
authentication and the Firestore REST API for documents and collections,
with Python bindings and a command-line program.

The library in `src/` is verified with Verus. It builds every request
(method, URL, headers, JSON or form body), reads every reply (status, body,
Firebase errors, counts, list pages), and drives the paged operations as
state machines; it never touches the network. `app/` holds the `reqwest`
transport that sends the library's requests, the `pyo3` classes, and the
`clap` command line.

- `src/text.rs` — trimming, splitting, decimal integer text and parsing.
- `src/json.rs` — the `serde_json` calls, named by uninterpreted functions.
- `src/http.rs` — requests, replies, and how a reply becomes a result.
- `src/firestore.rs` — single Firestore calls, patch values, counts.
- `src/paging.rs` — listings, the batched purge, the concurrent purge.
- `src/auth.rs` — token refresh, email/password calls, their responses.
- `src/client.rs` — client, collection, document and field references.
- `src/cli.rs` — the command line's arguments and the call of each command.
- `src/laws.rs` — properties of the library proved from the contracts.
