//! Verified core of the Cilux broker: the wire protocol shared by the broker,
//! the command-line client and the MCP server, the trace-mask rules, the
//! Generic Netlink message codec and the MCP catalog and routing decisions.

pub mod error;
pub mod protocol;
pub mod text;
pub mod netlink;
pub mod json;
pub mod kernel;
pub mod catalog;
pub mod mcp;
pub mod cli;
pub mod broker;
pub mod steps;
