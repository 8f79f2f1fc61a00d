# linux-coworker-ui

The logic of a Linux desktop front end for a coding-agent CLI, and of the
MCP server that gives the agent control of the X11 desktop, written in Verus
with its behaviour stated in contracts and proved.

## Layout

- `src/` — the verified library.
  - `storage.rs`: the workspace registry (create, rename, delete, the
    active workspace) as a model over values, and the store's file layout.
  - `conversation.rs`: a workspace's conversation index: titles derived
    from the first user text, events that bump and annotate entries,
    pinned titles, and the index rebuilt from the log files.
  - `agent.rs`: one user turn of the agent CLI: the stream-json message,
    the command line, and what each line of output means.
  - `mcp.rs`, `mcp_calls.rs`, `mcp_tools.rs`: the MCP server: requests and
    responses, the tool definitions, reading a call's arguments, the
    commands a call runs and the reply it gives.
  - `mcp_config.rs`: the MCP configuration document and where the server
    program is looked for.
  - `json.rs`, `text.rs`, `paths.rs`: JSON documents, text and path helpers.
  - `platform.rs`: the clock and the random workspace id.
  - `storage_laws.rs`, `conversation_laws.rs`, `mcp_laws.rs`: the
    properties that span operations, as proof functions.
- `tests/` — tests of the library on concrete values.
- `app/` — the programs around it: the MCP server's stdio loop and the
  commands it runs, the store on disk, and the agent process driver.
  `app/main.rs` is the MCP server. The desktop window itself is not part of
  this crate: `app/desktop.rs` holds the commands the window invokes
  (sending a message, ending or cancelling a turn, the workspace
  operations, reading a file) as plain async functions, and
  `app/agent_session.rs` hands the agent's events to an `EventSink` trait.
  The window toolkit that shows the interface registers these commands and
  implements the sink.
