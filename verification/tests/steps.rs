use cilux::kernel::KernelFacade;
use cilux::netlink::{encode_u32_attr, ByteOrder, KernelCommand};
use cilux::protocol::{
    BrokerRequest, BrokerResult, BufferClearRequest, GuestMode, HealthRequest,
    KernelSnapshotRequest, SystemReadRequest, SystemReadSelector, TraceCategoriesRequest,
    TraceCategory, TraceConfigureRequest, TRACE_DEFAULT_MASK, TRACE_EXEC, TRACE_MODULE,
};
use cilux::steps::{broker_step, KernelAction, KernelEvent, Phase};

const ORDER: ByteOrder = ByteOrder::Little;

fn reply(attrs: &[(u16, u32)]) -> Vec<u8> {
    let mut body = Vec::new();
    for &(t, v) in attrs {
        body.extend(encode_u32_attr(t, v, ORDER));
    }
    let mut wire = Vec::new();
    wire.extend(((16 + 4 + body.len()) as u32).to_le_bytes());
    wire.extend(0x20u16.to_le_bytes());
    wire.extend(0u16.to_le_bytes());
    wire.extend(1u32.to_le_bytes());
    wire.extend(0u32.to_le_bytes());
    wire.extend([3u8, 1, 0, 0]);
    wire.extend(body);
    wire
}

fn state_reply(trace_mask: u32, supported_mask: u32) -> Vec<u8> {
    reply(&[(1, trace_mask), (2, supported_mask), (3, 0), (4, 7), (5, 16)])
}

fn facade() -> KernelFacade {
    KernelFacade::new("/dbg", "/log")
}

#[test]
fn an_accepted_enable_writes_the_decided_mask_once_then_reads_the_state() {
    let f = facade();
    let request = BrokerRequest::TraceEnable(TraceCategoriesRequest {
        categories: vec![TraceCategory::Module],
    });
    let (phase, action) = broker_step(&f, &request, Phase::Start, KernelEvent::Begin, ORDER);
    assert!(matches!(action, KernelAction::Netlink(KernelCommand::GetState)));
    let (phase, action) = broker_step(
        &f,
        &request,
        phase,
        KernelEvent::Reply(state_reply(TRACE_EXEC, TRACE_DEFAULT_MASK)),
        ORDER,
    );
    assert!(matches!(
        action,
        KernelAction::Netlink(KernelCommand::SetTraceMask(m)) if m == TRACE_EXEC | TRACE_MODULE
    ));
    let (phase, action) = broker_step(&f, &request, phase, KernelEvent::Reply(reply(&[(1, 5)])), ORDER);
    assert!(matches!(action, KernelAction::Netlink(KernelCommand::GetState)));
    let (phase, action) = broker_step(
        &f,
        &request,
        phase,
        KernelEvent::Reply(state_reply(TRACE_EXEC | TRACE_MODULE, TRACE_DEFAULT_MASK)),
        ORDER,
    );
    assert!(matches!(phase, Phase::Finished));
    match action {
        KernelAction::Done(BrokerResult::TraceEnable(status)) => {
            assert_eq!(
                status.enabled_categories,
                vec![TraceCategory::SchedProcessExec, TraceCategory::Module]
            );
            assert_eq!(status.event_count, 7);
        }
        other => panic!("unexpected {other:?}"),
    }
}

#[test]
fn a_refused_enable_fails_without_writing() {
    let f = facade();
    let request = BrokerRequest::TraceEnable(TraceCategoriesRequest {
        categories: vec![TraceCategory::Module],
    });
    let (phase, _) = broker_step(&f, &request, Phase::Start, KernelEvent::Begin, ORDER);
    let (phase, action) = broker_step(
        &f,
        &request,
        phase,
        KernelEvent::Reply(state_reply(TRACE_EXEC, TRACE_EXEC)),
        ORDER,
    );
    assert!(matches!(phase, Phase::Finished));
    match action {
        KernelAction::Fail(e) => {
            assert_eq!(e.message(), "unsupported trace categories requested: module")
        }
        other => panic!("unexpected {other:?}"),
    }
}

#[test]
fn configure_writes_first_then_reads_the_state_file() {
    let f = facade();
    let request = BrokerRequest::TraceConfigure(TraceConfigureRequest { trace_mask: 9 });
    let (phase, action) = broker_step(&f, &request, Phase::Start, KernelEvent::Begin, ORDER);
    assert!(matches!(action, KernelAction::Netlink(KernelCommand::SetTraceMask(9))));
    let (phase, action) = broker_step(&f, &request, phase, KernelEvent::Reply(reply(&[(1, 9)])), ORDER);
    match &action {
        KernelAction::ReadFile { path, context } => {
            assert_eq!(path, "/dbg/state.json");
            assert_eq!(context, "read /dbg/state.json");
        }
        other => panic!("unexpected {other:?}"),
    }
    let (_, action) = broker_step(&f, &request, phase, KernelEvent::Text("{\"x\":1}".to_string()), ORDER);
    match action {
        KernelAction::Done(BrokerResult::TraceConfigure(c)) => {
            assert_eq!(c.trace_mask, 9);
            assert_eq!(c.state["x"], 1);
        }
        other => panic!("unexpected {other:?}"),
    }
}

#[test]
fn snapshot_reads_caps_then_state() {
    let f = facade();
    let request = BrokerRequest::KernelSnapshot(KernelSnapshotRequest {});
    let (phase, action) = broker_step(&f, &request, Phase::Start, KernelEvent::Begin, ORDER);
    assert!(matches!(&action, KernelAction::ReadFile { path, .. } if path == "/dbg/caps.json"));
    let (phase, action) = broker_step(&f, &request, phase, KernelEvent::Text("{\"c\":2}".to_string()), ORDER);
    assert!(matches!(&action, KernelAction::ReadFile { path, .. } if path == "/dbg/state.json"));
    let (_, action) = broker_step(&f, &request, phase, KernelEvent::Text("oops".to_string()), ORDER);
    match action {
        KernelAction::Fail(e) => assert_eq!(e.message(), "parse /dbg/state.json"),
        other => panic!("unexpected {other:?}"),
    }
}

#[test]
fn buffer_clear_is_the_only_clear_and_reports_an_empty_ring() {
    let f = facade();
    let request = BrokerRequest::BufferClear(BufferClearRequest {});
    let (phase, action) = broker_step(&f, &request, Phase::Start, KernelEvent::Begin, ORDER);
    assert!(matches!(action, KernelAction::Netlink(KernelCommand::ClearEvents)));
    let (_, action) = broker_step(&f, &request, phase, KernelEvent::Reply(reply(&[(4, 0)])), ORDER);
    assert!(matches!(action, KernelAction::Done(BrokerResult::BufferClear(s)) if s.ok));
}

#[test]
fn health_probes_and_never_fails() {
    let f = facade();
    let request = BrokerRequest::Health(HealthRequest {});
    let (phase, action) = broker_step(&f, &request, Phase::Start, KernelEvent::Begin, ORDER);
    assert!(matches!(action, KernelAction::ProbeHealth));
    let probe = KernelEvent::Probe {
        broker_pid: 5,
        socket_path: "/run/s".to_string(),
        caps_exists: false,
        state_exists: false,
        events_exists: false,
        netlink_ready: false,
    };
    let (_, action) = broker_step(&f, &request, phase, probe, ORDER);
    match action {
        KernelAction::Done(BrokerResult::Health(h)) => {
            assert_eq!(h.guest_mode, GuestMode::DesktopStockKernel);
            assert_eq!(h.broker_pid, 5);
            assert_eq!(h.audit_log_path, "/log");
        }
        other => panic!("unexpected {other:?}"),
    }
}

#[test]
fn dmesg_is_run_and_proc_files_are_read() {
    let f = facade();
    let dmesg = BrokerRequest::SystemRead(SystemReadRequest { selector: SystemReadSelector::Dmesg });
    let (_, action) = broker_step(&f, &dmesg, Phase::Start, KernelEvent::Begin, ORDER);
    assert!(matches!(action, KernelAction::RunDmesg));
    let vmstat = BrokerRequest::SystemRead(SystemReadRequest { selector: SystemReadSelector::ProcVmstat });
    let (phase, action) = broker_step(&f, &vmstat, Phase::Start, KernelEvent::Begin, ORDER);
    assert!(matches!(&action, KernelAction::ReadFile { path, .. } if path == "/proc/vmstat"));
    let (_, action) = broker_step(&f, &vmstat, phase, KernelEvent::Text("nr 1".to_string()), ORDER);
    assert!(matches!(action, KernelAction::Done(BrokerResult::SystemRead(r)) if r.text == "nr 1"));
}

#[test]
fn an_outcome_out_of_order_fails() {
    let f = facade();
    let request = BrokerRequest::Health(HealthRequest {});
    let (_, action) = broker_step(&f, &request, Phase::Start, KernelEvent::Text(String::new()), ORDER);
    match action {
        KernelAction::Fail(e) => assert_eq!(e.message(), "unexpected kernel event"),
        other => panic!("unexpected {other:?}"),
    }
}
