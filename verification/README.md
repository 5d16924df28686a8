# mcp_web_porter

A Model Context Protocol server that reads web pages as text and drives
their forms in a headless Chrome, with its core proved correct in Verus.

## Layout

- `src/` — the verified library.
  - `text`, `parse`, `images`, `page`: text helpers, readable-text
    extraction from HTML, image handling, host and cookie targets.
  - `resource_uri`, `validate`, `act`: checks on addresses, form inputs and
    action batches, with the exact error each bad request draws.
  - `flow`, `fill_flow`, `tools`, `button`, `action_run`, `session`: the
    browser protocols of the tools as state machines. A protocol hands out
    one browser operation at a time and is told its outcome; each step's
    contract states the next operation, or the result, for that outcome.
  - `handlers`: the tools' entry points, which check each request before any
    browser is started.
  - `cookies`: Chrome's cookie store location, cookie decryption, and the
    domain match that keeps only the page's own cookies.
- `app/` — the executable: the MCP server, Chrome through the DevTools
  protocol, the shared browser session and the SQLite cookie store. It
  performs the operations the library's protocols ask for.
- `tests/` — tests of the library, including scripted runs of each
  protocol.
