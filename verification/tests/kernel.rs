use cilux::kernel::{
    system_read_path, trace_categories_mask, trace_disable_mask, trace_enable_mask,
    trace_reset_default_mask, KernelFacade,
};
use cilux::netlink::KernelState;
use cilux::protocol::{
    BrokerCapabilities, GuestMode,
    SystemReadSelector, TraceCategory, DEFAULT_APP_SERVER_PORT, TRACE_DEFAULT_MASK, TRACE_EXEC,
    TRACE_EXIT, TRACE_MODULE, TRACE_OOM,
};

#[test]
fn trace_enable_disable_and_reset_default_mask_math() {
    assert_eq!(
        trace_enable_mask(
            TRACE_EXEC,
            TRACE_DEFAULT_MASK,
            &[TraceCategory::Module, TraceCategory::SchedProcessExec],
        )
        .expect("enable should succeed"),
        TRACE_EXEC | TRACE_MODULE
    );
    assert_eq!(
        trace_disable_mask(
            TRACE_DEFAULT_MASK,
            TRACE_DEFAULT_MASK,
            &[TraceCategory::SchedProcessExit, TraceCategory::MarkVictim],
        )
        .expect("disable should succeed"),
        TRACE_EXEC | TRACE_MODULE
    );
    assert_eq!(
        trace_reset_default_mask(TRACE_EXEC | TRACE_OOM),
        TRACE_EXEC | TRACE_OOM
    );
}

#[test]
fn trace_categories_must_not_be_empty() {
    let error = trace_categories_mask(&[]).expect_err("empty categories should fail");
    assert_eq!(error.message(), "trace categories must not be empty");
}

#[test]
fn unsupported_trace_categories_fail() {
    let error = trace_enable_mask(
        TRACE_EXEC,
        TRACE_EXEC | TRACE_EXIT,
        &[TraceCategory::Module],
    )
    .expect_err("unsupported categories should fail");
    assert_eq!(
        error.message(),
        "unsupported trace categories requested: module"
    );
}

#[test]
fn system_read_paths_cover_new_selectors() {
    let paths = [
        (
            SystemReadSelector::ProcCmdline,
            system_read_path(SystemReadSelector::ProcCmdline),
        ),
        (
            SystemReadSelector::ProcVersion,
            system_read_path(SystemReadSelector::ProcVersion),
        ),
        (
            SystemReadSelector::ProcSoftirqs,
            system_read_path(SystemReadSelector::ProcSoftirqs),
        ),
        (
            SystemReadSelector::ProcIomem,
            system_read_path(SystemReadSelector::ProcIomem),
        ),
        (
            SystemReadSelector::ProcIoports,
            system_read_path(SystemReadSelector::ProcIoports),
        ),
        (
            SystemReadSelector::ProcSlabinfo,
            system_read_path(SystemReadSelector::ProcSlabinfo),
        ),
    ];

    assert_eq!(
        paths,
        [
            (SystemReadSelector::ProcCmdline, Some("/proc/cmdline")),
            (SystemReadSelector::ProcVersion, Some("/proc/version")),
            (SystemReadSelector::ProcSoftirqs, Some("/proc/softirqs")),
            (SystemReadSelector::ProcIomem, Some("/proc/iomem")),
            (SystemReadSelector::ProcIoports, Some("/proc/ioports")),
            (SystemReadSelector::ProcSlabinfo, Some("/proc/slabinfo")),
        ]
    );
}

#[test]
fn dmesg_is_not_read_from_a_file() {
    assert_eq!(system_read_path(SystemReadSelector::Dmesg), None);
}

#[test]
fn unsupported_categories_are_listed_in_catalog_order() {
    let error = trace_disable_mask(
        TRACE_DEFAULT_MASK,
        TRACE_EXEC,
        &[TraceCategory::MarkVictim, TraceCategory::SchedProcessExit, TraceCategory::SchedProcessExec],
    )
    .unwrap_err();
    assert_eq!(
        error.message(),
        "unsupported trace categories requested: sched_process_exit, mark_victim"
    );
}

#[test]
fn enable_keeps_other_bits_and_disable_undoes_it() {
    let current = 0x100 | TRACE_OOM;
    let enabled = trace_enable_mask(current, TRACE_DEFAULT_MASK, &[TraceCategory::Module]).unwrap();
    assert_eq!(enabled, 0x100 | TRACE_OOM | TRACE_MODULE);
    let again = trace_enable_mask(enabled, TRACE_DEFAULT_MASK, &[TraceCategory::Module]).unwrap();
    assert_eq!(again, enabled);
    let disabled = trace_disable_mask(enabled, TRACE_DEFAULT_MASK, &[TraceCategory::Module]).unwrap();
    assert_eq!(disabled, current);
    assert_eq!(trace_reset_default_mask(0xffff_ffff), TRACE_DEFAULT_MASK);
}

#[test]
fn facade_paths_join_like_paths() {
    let facade = KernelFacade::new("/sys/kernel/debug/cilux", "/var/log/cilux-broker.log");
    assert_eq!(facade.caps_path(), "/sys/kernel/debug/cilux/caps.json");
    assert_eq!(facade.state_path(), "/sys/kernel/debug/cilux/state.json");
    assert_eq!(facade.events_path(), "/sys/kernel/debug/cilux/events.ndjson");
    let trailing = KernelFacade::new("/tmp/dbg/", "log");
    assert_eq!(trailing.caps_path(), "/tmp/dbg/caps.json");
    let empty = KernelFacade::new("", "log");
    assert_eq!(empty.events_path(), "events.ndjson");
    let default = KernelFacade::default();
    assert_eq!(default.state_path(), "/sys/kernel/debug/cilux/state.json");
}

#[test]
fn facade_decisions() {
    let facade = KernelFacade::new("/d", "/var/log/audit.log");
    let state = KernelState {
        trace_mask: TRACE_EXEC,
        supported_mask: TRACE_EXEC | TRACE_EXIT,
        drop_count: 1,
        event_count: 2,
        ring_capacity: 64,
    };
    let status = facade.trace_status(state);
    assert_eq!(status.enabled_categories, vec![TraceCategory::SchedProcessExec]);
    assert_eq!(
        status.supported_categories,
        vec![TraceCategory::SchedProcessExec, TraceCategory::SchedProcessExit]
    );
    assert_eq!(status.ring_capacity, 64);
    assert_eq!(
        facade.trace_enable(state, &[TraceCategory::SchedProcessExit]),
        Ok(TRACE_EXEC | TRACE_EXIT)
    );
    assert_eq!(facade.trace_disable(state, &[TraceCategory::SchedProcessExec]), Ok(0));
    assert!(facade.trace_enable(state, &[TraceCategory::Module]).is_err());
    assert_eq!(facade.trace_reset_default(state), TRACE_EXEC | TRACE_EXIT);
    assert!(facade.buffer_clear(0).ok);
    assert!(!facade.buffer_clear(3).ok);

    let health = facade.health(42, "/run/cilux-broker.sock", true, true, false, true);
    assert_eq!(health.broker_pid, 42);
    assert_eq!(health.socket_path, "/run/cilux-broker.sock");
    assert_eq!(health.audit_log_path, "/var/log/audit.log");
    assert!(!health.debugfs_ready);
    assert!(health.netlink_ready);
    assert_eq!(health.app_server_port, DEFAULT_APP_SERVER_PORT);
    assert!(facade.health(1, "s", true, true, true, false).debugfs_ready);
    assert_eq!(health.guest_mode, GuestMode::ResearchKernel);
    assert!(health.capabilities.kernel_snapshot);
    assert!(!health.capabilities.events_tail);
    assert!(health.capabilities.trace_control);
    let desktop = facade.health(2, "s", false, false, false, false);
    assert_eq!(desktop.guest_mode, GuestMode::DesktopStockKernel);
    assert_eq!(desktop.capabilities, BrokerCapabilities::desktop_stock_kernel());

    let read = facade.system_read(SystemReadSelector::ProcUptime, "12.0 3.0\n".to_string());
    assert_eq!(read.selector, SystemReadSelector::ProcUptime);
    assert_eq!(read.text, "12.0 3.0\n");
}

#[test]
fn events_tail_takes_the_newest_lines_in_order() {
    let facade = KernelFacade::default();
    let data = "{\"seq\":1}\n{\"seq\":2}\r\n{\"seq\":3}\n";
    let tail = facade.kernel_events_tail(data, 2).unwrap();
    assert_eq!(tail.events.len(), 2);
    assert_eq!(tail.events[0]["seq"], 2);
    assert_eq!(tail.events[1]["seq"], 3);
    let all = facade.kernel_events_tail(data, 10).unwrap();
    assert_eq!(all.events.len(), 3);
    assert_eq!(facade.kernel_events_tail(data, 0).unwrap().events.len(), 0);
    assert_eq!(facade.kernel_events_tail("", 5).unwrap().events.len(), 0);
}

#[test]
fn events_tail_reports_the_first_bad_line() {
    let facade = KernelFacade::default();
    let data = "not json\n{\"seq\":2}\nalso bad\n";
    let error = facade.kernel_events_tail(data, 10).unwrap_err();
    assert_eq!(error.message(), "parse event line `not json`");
    assert!(error.message_with_causes().starts_with("parse event line `not json`: "));
    // The bad first line is outside a tail of two.
    let error = facade.kernel_events_tail(data, 2).unwrap_err();
    assert_eq!(error.message(), "parse event line `also bad`");
    assert!(facade.kernel_events_tail(data, 1).is_err());
}

#[test]
fn snapshot_parses_both_debugfs_documents() {
    let facade = KernelFacade::new("/sys/kernel/debug/cilux", "/var/log/cilux-broker.log");
    let snapshot = facade
        .kernel_snapshot("{\"ring_capacity\":16}", "{\"trace_mask\":5}")
        .unwrap();
    assert_eq!(snapshot.caps["ring_capacity"], 16);
    assert_eq!(snapshot.state["trace_mask"], 5);

    let error = facade.kernel_snapshot("{", "{}").unwrap_err();
    assert_eq!(error.message(), "parse /sys/kernel/debug/cilux/caps.json");
    assert!(error
        .message_with_causes()
        .starts_with("parse /sys/kernel/debug/cilux/caps.json: "));
    let error = facade.kernel_snapshot("{}", "[1,").unwrap_err();
    assert_eq!(error.message(), "parse /sys/kernel/debug/cilux/state.json");
}

#[test]
fn trace_configure_reports_the_applied_mask_and_state() {
    let facade = KernelFacade::new("/dbg/", "/log");
    let result = facade
        .trace_configure(TRACE_EXEC | TRACE_OOM, "{\"trace_mask\":9}")
        .unwrap();
    assert_eq!(result.trace_mask, 9);
    assert_eq!(result.state["trace_mask"], 9);
    let error = facade.trace_configure(1, "nope").unwrap_err();
    assert_eq!(error.message(), "parse /dbg/state.json");
}

#[test]
fn status_after_enable_and_disable_lists_the_changed_categories() {
    let facade = KernelFacade::default();
    let before = KernelState {
        trace_mask: TRACE_EXIT,
        supported_mask: TRACE_DEFAULT_MASK,
        drop_count: 0,
        event_count: 0,
        ring_capacity: 8,
    };
    let enabled = facade
        .trace_enable(before, &[TraceCategory::MarkVictim, TraceCategory::SchedProcessExec])
        .unwrap();
    let status = facade.trace_status(KernelState { trace_mask: enabled, ..before });
    assert_eq!(
        status.enabled_categories,
        vec![
            TraceCategory::SchedProcessExec,
            TraceCategory::SchedProcessExit,
            TraceCategory::MarkVictim,
        ]
    );
    let disabled = facade
        .trace_disable(KernelState { trace_mask: enabled, ..before }, &[TraceCategory::SchedProcessExit])
        .unwrap();
    let status = facade.trace_status(KernelState { trace_mask: disabled, ..before });
    assert_eq!(
        status.enabled_categories,
        vec![TraceCategory::SchedProcessExec, TraceCategory::MarkVictim]
    );
    assert_eq!(status.supported_categories.len(), 4);
}

#[test]
fn parse_failures_carry_the_parsers_report() {
    let facade = KernelFacade::new("/dbg", "/log");
    let report = serde_json::from_str::<serde_json::Value>("{")
        .unwrap_err()
        .to_string();
    let error = facade.kernel_snapshot("{", "{}").unwrap_err();
    assert_eq!(error.message_with_causes(), format!("parse /dbg/caps.json: {report}"));
    let error = facade.kernel_events_tail("{\n", 5).unwrap_err();
    assert_eq!(error.message_with_causes(), format!("parse event line `{{`: {report}"));
}

#[test]
fn a_cleared_events_file_gives_an_empty_tail() {
    let facade = KernelFacade::default();
    for limit in [0, 1, 32, 256] {
        assert!(facade.kernel_events_tail("", limit).unwrap().events.is_empty());
    }
}

#[test]
fn events_are_shown_one_compact_document_per_line() {
    let events = vec![
        serde_json::from_str::<serde_json::Value>("{ \"seq\" : 1 }").unwrap(),
        serde_json::from_str::<serde_json::Value>("[1, 2]").unwrap(),
    ];
    assert_eq!(cilux::json::events_ndjson(&events), "{\"seq\":1}\n[1,2]");
    assert_eq!(cilux::json::events_ndjson(&Vec::new()), "");
}
