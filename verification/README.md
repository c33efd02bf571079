# cilux

The Cilux broker stack: a daemon that gives constrained access to a kernel
tracing module (its debugfs files and its Generic Netlink family), a
command-line client for it, and an MCP server that exposes the same
operations as tools and resources.

## Layout

- `src/` — the verified library, written in Verus.
  - `protocol.rs`: the broker's requests, answers and results; trace
    categories and their mask bits; system-read selectors and their names.
  - `kernel.rs`: the broker's decisions: trace masks for enable, disable and
    reset, events tails, snapshots, health and system reads.
  - `netlink.rs`: the Generic Netlink codec: attributes, message framing,
    reply checks and the readings of each command's reply.
  - `json.rs`: parsing the kernel module's JSON documents.
  - `catalog.rs`, `mcp.rs`: the MCP catalog (trimmed to the guest's
    capabilities), the tools' argument schemas, and the routing of tool
    calls and resource reads to broker requests.
  - `steps.rs`: how the broker carries out a request, one kernel action at
    a time (file reads, `dmesg`, Netlink commands, the health probe).
  - `cli.rs`, `broker.rs`: the client's commands and the broker's answers.
  - `text.rs`, `error.rs`: string helpers and the library's error type.
- `tests/` — tests of the library.
- `app/` — the three programs around the library (`cilux brokerd`,
  `cilux ctl`, `cilux mcp`): sockets, files, `dmesg`, argument parsing and
  the JSON encoding of the protocol.
