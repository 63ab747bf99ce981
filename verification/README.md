# deribit_mcp

A Model Context Protocol (MCP) adapter for the Deribit derivatives exchange,
with its decision logic verified in Verus.

- `src/` is the verified library: configuration resolution (CLI flags over
  environment over defaults), the adapter context and upstream settings,
  effect-class gating of the `Account` and `Trading` tool families, order
  validation and request building, instrument classification, the three
  prompts, the `deribit://` URI grammar, the bearer-token check, and the
  bookkeeping of live subscriptions (refcounts, teardown, throttle, history).
- `app/` is the binary around it: command line and environment, the upstream
  HTTP / WebSocket clients, the `rmcp` server, the Streamable HTTP transport,
  and the asynchronous runtime of live subscriptions.
- `tests/` exercises the library on concrete values.
