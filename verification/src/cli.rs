//! The command-line client's commands and the broker requests they send.

use vstd::prelude::*;
use crate::protocol::{
    BrokerRequest, BufferClearRequest, HealthRequest, KernelEventsTailRequest, KernelSnapshotRequest,
    SystemReadRequest, SystemReadSelector, TraceCategoriesRequest, TraceCategory, TraceConfigureRequest,
    TraceResetDefaultRequest, TraceStatusRequest,
};

verus! {

/// The default number of events the `events` command asks for.
pub const DEFAULT_EVENTS_COMMAND_LIMIT: usize = 32;

/// A subcommand of the command-line client.
#[derive(Debug, Clone, PartialEq, Eq)]
pub enum Command {
    Health,
    Snapshot,
    Events { limit: usize },
    TraceConfigure { trace_mask: u32 },
    TraceStatus,
    TraceEnable { categories: Vec<TraceCategory> },
    TraceDisable { categories: Vec<TraceCategory> },
    TraceResetDefault,
    BufferClear,
    SystemRead { selector: SystemReadSelector },
}

/// The request a command sends to the broker.
pub open spec fn command_request(command: Command) -> BrokerRequest {
    match command {
        Command::Health => BrokerRequest::Health(HealthRequest {}),
        Command::Snapshot => BrokerRequest::KernelSnapshot(KernelSnapshotRequest {}),
        Command::Events { limit } => BrokerRequest::KernelEventsTail(KernelEventsTailRequest { limit }),
        Command::TraceConfigure { trace_mask } => BrokerRequest::TraceConfigure(TraceConfigureRequest { trace_mask }),
        Command::TraceStatus => BrokerRequest::TraceStatus(TraceStatusRequest {}),
        Command::TraceEnable { categories } => BrokerRequest::TraceEnable(TraceCategoriesRequest { categories }),
        Command::TraceDisable { categories } => BrokerRequest::TraceDisable(TraceCategoriesRequest { categories }),
        Command::TraceResetDefault => BrokerRequest::TraceResetDefault(TraceResetDefaultRequest {}),
        Command::BufferClear => BrokerRequest::BufferClear(BufferClearRequest {}),
        Command::SystemRead { selector } => BrokerRequest::SystemRead(SystemReadRequest { selector }),
    }
}

/// The request a command sends to the broker.
pub fn broker_request(command: Command) -> (r: BrokerRequest)
    ensures
        r == command_request(command),
{
    match command {
        Command::Health => BrokerRequest::Health(HealthRequest {}),
        Command::Snapshot => BrokerRequest::KernelSnapshot(KernelSnapshotRequest {}),
        Command::Events { limit } => BrokerRequest::KernelEventsTail(KernelEventsTailRequest { limit }),
        Command::TraceConfigure { trace_mask } => BrokerRequest::TraceConfigure(TraceConfigureRequest { trace_mask }),
        Command::TraceStatus => BrokerRequest::TraceStatus(TraceStatusRequest {}),
        Command::TraceEnable { categories } => BrokerRequest::TraceEnable(TraceCategoriesRequest { categories }),
        Command::TraceDisable { categories } => BrokerRequest::TraceDisable(TraceCategoriesRequest { categories }),
        Command::TraceResetDefault => BrokerRequest::TraceResetDefault(TraceResetDefaultRequest {}),
        Command::BufferClear => BrokerRequest::BufferClear(BufferClearRequest {}),
        Command::SystemRead { selector } => BrokerRequest::SystemRead(SystemReadRequest { selector }),
    }
}

impl Command {
    /// The subcommand's name on the client's command line.
    pub open spec fn cli_name(self) -> Seq<char> {
        match self {
            Command::Health => "health"@,
            Command::Snapshot => "snapshot"@,
            Command::Events { .. } => "events"@,
            Command::TraceConfigure { .. } => "trace-configure"@,
            Command::TraceStatus => "trace-status"@,
            Command::TraceEnable { .. } => "trace-enable"@,
            Command::TraceDisable { .. } => "trace-disable"@,
            Command::TraceResetDefault => "trace-reset-default"@,
            Command::BufferClear => "buffer-clear"@,
            Command::SystemRead { .. } => "system-read"@,
        }
    }
}

/// `name` with each `-` written as `_`.
pub open spec fn underscored(name: Seq<char>) -> Seq<char> {
    name.map_values(|c: char| if c == '-' { '_' } else { c })
}

/// A command asks the broker for the method spelled like its subcommand,
/// with `_` for `-`, except that `snapshot` and `events` ask for
/// `kernel_snapshot` and `kernel_events_tail`; and the command's argument
/// is carried over unchanged.
pub proof fn lemma_command_request_method(c: Command)
    ensures
        crate::broker::method_name(command_request(c)) == if c.cli_name() == "snapshot"@ {
            "kernel_snapshot"@
        } else if c.cli_name() == "events"@ {
            "kernel_events_tail"@
        } else {
            underscored(c.cli_name())
        },
        c matches Command::Events { limit } ==> command_request(c) matches BrokerRequest::KernelEventsTail(p) && p.limit == limit,
        c matches Command::TraceConfigure { trace_mask } ==> command_request(c) matches BrokerRequest::TraceConfigure(p)
            && p.trace_mask == trace_mask,
        c matches Command::TraceEnable { categories } ==> command_request(c) matches BrokerRequest::TraceEnable(p)
            && p.categories == categories,
        c matches Command::TraceDisable { categories } ==> command_request(c) matches BrokerRequest::TraceDisable(p)
            && p.categories == categories,
        c matches Command::SystemRead { selector } ==> command_request(c) matches BrokerRequest::SystemRead(p)
            && p.selector == selector,
{
    reveal_strlit("health");
    reveal_strlit("snapshot");
    reveal_strlit("events");
    reveal_strlit("trace-configure");
    reveal_strlit("trace-status");
    reveal_strlit("trace-enable");
    reveal_strlit("trace-disable");
    reveal_strlit("trace-reset-default");
    reveal_strlit("buffer-clear");
    reveal_strlit("system-read");
    reveal_strlit("kernel_snapshot");
    reveal_strlit("kernel_events_tail");
    reveal_strlit("trace_configure");
    reveal_strlit("trace_status");
    reveal_strlit("trace_enable");
    reveal_strlit("trace_disable");
    reveal_strlit("trace_reset_default");
    reveal_strlit("buffer_clear");
    reveal_strlit("system_read");
    let n = c.cli_name();
    assert(c !is Snapshot ==> n != "snapshot"@) by {
        assert("snapshot"@.len() == 8);
        if c !is Snapshot {
            assert(n.len() != 8);
        }
    }
    assert(c !is Events ==> n != "events"@) by {
        assert("events"@.len() == 6 && "events"@[0] == 'e');
        if c !is Events && n.len() == 6 {
            assert(n[0] != 'e');
        }
    }
    match c {
        Command::Health => assert(underscored(n) =~= "health"@),
        Command::Snapshot => {},
        Command::Events { .. } => {},
        Command::TraceConfigure { .. } => assert(underscored(n) =~= "trace_configure"@),
        Command::TraceStatus => assert(underscored(n) =~= "trace_status"@),
        Command::TraceEnable { .. } => assert(underscored(n) =~= "trace_enable"@),
        Command::TraceDisable { .. } => assert(underscored(n) =~= "trace_disable"@),
        Command::TraceResetDefault => assert(underscored(n) =~= "trace_reset_default"@),
        Command::BufferClear => assert(underscored(n) =~= "buffer_clear"@),
        Command::SystemRead { .. } => assert(underscored(n) =~= "system_read"@),
    }
}

} // verus!
