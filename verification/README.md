# quinn_hyphae

Runtime options, results and errors of the Hyphae QUIC handshake, with the
decisions of its entry points verified by Verus.

- `src/api.rs`: `HandshakeStage`, `HandshakeOptions`, `HandshakeResult`,
  `HandshakeError` and their abstract views.
- `src/extract.rs`: validation of a connection's peer identity into a
  handshake result (`extract_result`) and the downgrade verdict.
- `src/flow.rs`: the decisions of a `client_connect` / `server_accept` run as
  a state machine (`HandshakeFlow::step`).
- `src/laws.rs`: proved properties across these functions.
- `src/text.rs`: decimal rendering used in error descriptions.
- `app/`: the async entry points over `quinn` and `tokio`, the options with
  their user hooks,
  and the RNG plumbing over `rand_core`.
