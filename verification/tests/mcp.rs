use cilux::error::{CiluxError, IntErrorKind};
use cilux::mcp::{
    available_tool_request, decode_rpc_line, probe_capabilities, rpc_error_reply, RpcLine, resolve_resource, resolve_system_resource,
    resource_body, tool_request, ResourceBody, ResourceRequest, RpcMethod, ToolArguments,
};
use cilux::protocol::{
    BrokerCapabilities, BrokerError, BrokerResponse, GuestMode, TraceStatusRequest,
    TraceStatusResult, TRACE_EXEC, TRACE_MODULE,
    BrokerRequest, BrokerResult, HealthReport, KernelEventsTail, KernelEventsTailRequest,
    KernelSnapshot, SystemReadRequest, SystemReadResult, SystemReadSelector, TraceCategoriesRequest,
    TraceCategory, TraceConfigureRequest,
};

fn no_args() -> ToolArguments {
    ToolArguments { limit: None, trace_mask: None, categories: None, selector: None }
}

#[test]
fn resource_uri_resolution_handles_new_explicit_and_template_uris() {
    assert_eq!(
        resolve_resource("cilux://system/proc_softirqs"),
        Ok(ResourceRequest::System(SystemReadSelector::ProcSoftirqs))
    );
    assert_eq!(
        resolve_resource("cilux://system/proc_iomem"),
        Ok(ResourceRequest::System(SystemReadSelector::ProcIomem))
    );
    assert_eq!(
        resolve_resource("cilux://system/cilux://system/proc_iomem"),
        Ok(ResourceRequest::System(SystemReadSelector::ProcIomem))
    );
    assert_eq!(
        ResourceRequest::System(SystemReadSelector::ProcIomem).mime_type(),
        "text/plain"
    );
    for selector in SystemReadSelector::ALL {
        assert_eq!(resolve_system_resource(selector.resource_uri()), Ok(selector));
    }
}

#[test]
fn fixed_and_events_resources_resolve() {
    assert_eq!(resolve_resource("cilux://caps"), Ok(ResourceRequest::Caps));
    assert_eq!(resolve_resource("cilux://state"), Ok(ResourceRequest::State));
    assert_eq!(resolve_resource("cilux://health"), Ok(ResourceRequest::Health));
    assert_eq!(resolve_resource("cilux://events"), Ok(ResourceRequest::Events { limit: 256 }));
    assert_eq!(resolve_resource("cilux://events/12"), Ok(ResourceRequest::Events { limit: 12 }));
    assert_eq!(resolve_resource("cilux://events/+7"), Ok(ResourceRequest::Events { limit: 7 }));
    assert_eq!(ResourceRequest::Events { limit: 3 }.mime_type(), "application/x-ndjson");
    assert_eq!(ResourceRequest::Caps.mime_type(), "application/json");
    assert_eq!(
        ResourceRequest::Events { limit: 3 }.broker_request(),
        BrokerRequest::KernelEventsTail(KernelEventsTailRequest { limit: 3 })
    );
}

#[test]
fn bad_resource_uris_are_refused() {
    let error = resolve_resource("cilux://events/abc").unwrap_err();
    assert_eq!(error, CiluxError::InvalidEventLimit { reason: IntErrorKind::InvalidDigit });
    assert_eq!(error.message(), "parse event limit from resource URI");
    assert_eq!(
        error.message_with_causes(),
        "parse event limit from resource URI: invalid digit found in string"
    );
    assert_eq!(
        resolve_resource("cilux://events/").unwrap_err(),
        CiluxError::InvalidEventLimit { reason: IntErrorKind::Empty }
    );
    assert_eq!(
        resolve_resource("cilux://events/99999999999999999999999").unwrap_err(),
        CiluxError::InvalidEventLimit { reason: IntErrorKind::PosOverflow }
    );
    assert_eq!(
        resolve_resource("cilux://system/proc_nothing").unwrap_err().message(),
        "unknown system selector `proc_nothing`"
    );
    assert_eq!(
        resolve_resource("cilux://other").unwrap_err().message(),
        "unknown resource `cilux://other`"
    );
}

#[test]
fn tool_calls_become_broker_requests() {
    assert_eq!(tool_request("", &no_args()).unwrap_err().message(), "missing tool name");
    assert_eq!(
        tool_request("cilux_nothing", &no_args()).unwrap_err().message(),
        "unknown tool `cilux_nothing`"
    );
    assert_eq!(
        tool_request("cilux_events_tail", &no_args()),
        Ok(BrokerRequest::KernelEventsTail(KernelEventsTailRequest { limit: 32 }))
    );
    let args = ToolArguments { trace_mask: Some(0x1_0000_0005), ..no_args() };
    assert_eq!(
        tool_request("cilux_trace_configure", &args),
        Ok(BrokerRequest::TraceConfigure(TraceConfigureRequest { trace_mask: 5 }))
    );
    let args = ToolArguments {
        categories: Some(vec![Some("module".to_string()), Some("mark_victim".to_string())]),
        ..no_args()
    };
    assert_eq!(
        tool_request("cilux_trace_enable", &args),
        Ok(BrokerRequest::TraceEnable(TraceCategoriesRequest {
            categories: vec![TraceCategory::Module, TraceCategory::MarkVictim],
        }))
    );
    assert_eq!(
        tool_request("cilux_trace_disable", &no_args()).unwrap_err().message(),
        "missing categories"
    );
    let args = ToolArguments { categories: Some(vec![]), ..no_args() };
    assert_eq!(
        tool_request("cilux_trace_enable", &args).unwrap_err().message(),
        "categories must not be empty"
    );
    let args = ToolArguments { categories: Some(vec![Some("module".to_string()), None]), ..no_args() };
    assert_eq!(
        tool_request("cilux_trace_enable", &args).unwrap_err().message(),
        "categories must be strings"
    );
    let args = ToolArguments { categories: Some(vec![Some("modules".to_string()), None]), ..no_args() };
    assert_eq!(
        tool_request("cilux_trace_enable", &args).unwrap_err().message(),
        "unknown trace category `modules`"
    );
    assert_eq!(
        tool_request("cilux_system_read", &no_args()).unwrap_err().message(),
        "missing selector"
    );
    let args = ToolArguments { selector: Some("dmesg".to_string()), ..no_args() };
    assert_eq!(
        tool_request("cilux_system_read", &args),
        Ok(BrokerRequest::SystemRead(SystemReadRequest { selector: SystemReadSelector::Dmesg }))
    );
}

#[test]
fn rpc_methods_are_routed_by_name() {
    assert_eq!(RpcMethod::from_name("tools/call"), Some(RpcMethod::ToolsCall));
    assert_eq!(
        RpcMethod::from_name("resources/templates/list"),
        Some(RpcMethod::ResourceTemplatesList)
    );
    assert_eq!(RpcMethod::from_name("tools/nothing"), None);
}

#[test]
fn resource_bodies_pick_the_asked_kind() {
    let snapshot = BrokerResult::KernelSnapshot(KernelSnapshot {
        caps: serde_json::Value::Bool(true),
        state: serde_json::Value::Null,
    });
    match resource_body(ResourceRequest::Caps, snapshot) {
        Ok(ResourceBody::Document(v)) => assert_eq!(v, serde_json::Value::Bool(true)),
        other => panic!("unexpected {other:?}"),
    }
    let tail = BrokerResult::KernelEventsTail(KernelEventsTail { events: vec![serde_json::Value::Null] });
    match resource_body(ResourceRequest::Events { limit: 1 }, tail) {
        Ok(ResourceBody::Events(events)) => assert_eq!(events.len(), 1),
        other => panic!("unexpected {other:?}"),
    }
    let read = BrokerResult::SystemRead(SystemReadResult {
        selector: SystemReadSelector::ProcSoftirqs,
        text: "softirq snapshot".to_string(),
    });
    match resource_body(ResourceRequest::System(SystemReadSelector::ProcSoftirqs), read) {
        Ok(ResourceBody::Text(text)) => assert_eq!(text, "softirq snapshot"),
        other => panic!("unexpected {other:?}"),
    }
    let health = BrokerResult::Health(HealthReport {
        broker_pid: 7,
        socket_path: "/run/cilux-broker.sock".to_string(),
        audit_log_path: "/var/log/cilux-broker.log".to_string(),
        guest_mode: GuestMode::ResearchKernel,
        debugfs_ready: true,
        netlink_ready: true,
        app_server_port: 8765,
        capabilities: BrokerCapabilities::full(),
    });
    let error = resource_body(ResourceRequest::State, health).unwrap_err();
    assert_eq!(error.message(), "unexpected broker result kind");
}

fn health_report(guest_mode: GuestMode, capabilities: BrokerCapabilities, ready: bool) -> BrokerResult {
    BrokerResult::Health(HealthReport {
        broker_pid: 11,
        socket_path: "/run/cilux-broker.sock".to_string(),
        audit_log_path: "/var/log/cilux-broker.log".to_string(),
        guest_mode,
        debugfs_ready: ready,
        netlink_ready: ready,
        app_server_port: 8765,
        capabilities,
    })
}

#[test]
fn desktop_mode_rejects_unavailable_trace_tools() {
    let caps = probe_capabilities(Some(health_report(
        GuestMode::DesktopStockKernel,
        BrokerCapabilities::desktop_stock_kernel(),
        false,
    )));
    let error = available_tool_request("cilux_trace_status", &no_args(), &caps).unwrap_err();
    assert_eq!(
        error.message(),
        "tool `cilux_trace_status` is unavailable in the current guest mode"
    );
    // Tools that need no kernel module stay available.
    assert!(matches!(
        available_tool_request("cilux_health", &no_args(), &caps),
        Ok(BrokerRequest::Health(_))
    ));
    // Unknown names are still reported as unknown.
    assert_eq!(
        available_tool_request("nope", &no_args(), &caps).unwrap_err().message(),
        "unknown tool `nope`"
    );
}

#[test]
fn tool_handlers_wrap_broker_success_and_error() {
    let caps = probe_capabilities(Some(health_report(
        GuestMode::ResearchKernel,
        BrokerCapabilities::full(),
        true,
    )));
    assert_eq!(
        available_tool_request("cilux_trace_status", &no_args(), &caps),
        Ok(BrokerRequest::TraceStatus(TraceStatusRequest {}))
    );
    let enable = ToolArguments {
        categories: Some(vec![Some("module".to_string())]),
        ..no_args()
    };
    assert_eq!(
        available_tool_request("cilux_trace_enable", &enable, &caps),
        Ok(BrokerRequest::TraceEnable(TraceCategoriesRequest {
            categories: vec![TraceCategory::Module],
        }))
    );
    let status = TraceStatusResult::new(TRACE_EXEC | TRACE_MODULE, TRACE_EXEC | TRACE_MODULE, 1, 2, 16);
    let answered = BrokerResponse::Success { result: BrokerResult::TraceStatus(status) }
        .into_result()
        .unwrap();
    assert!(matches!(answered, BrokerResult::TraceStatus(_)));
    let refused = BrokerResponse::Error {
        error: BrokerError {
            code: "request_failed".to_string(),
            message: "unsupported trace categories requested: module".to_string(),
        },
    }
    .into_result()
    .unwrap_err();
    assert_eq!(
        refused.message(),
        "request_failed: unsupported trace categories requested: module"
    );
}

#[test]
fn a_failed_probe_leaves_every_tool_available() {
    let caps = probe_capabilities(None);
    assert!(caps.kernel_snapshot && caps.events_tail && caps.trace_control);
}

#[test]
fn rpc_lines_are_decoded() {
    assert!(matches!(decode_rpc_line(" \t\r\n"), Ok(RpcLine::Skip)));
    assert!(matches!(
        decode_rpc_line("{\"jsonrpc\":\"2.0\",\"method\":\"notifications/initialized\"}\n"),
        Ok(RpcLine::Skip)
    ));
    match decode_rpc_line("{\"id\":7,\"method\":\"tools/list\"}\n") {
        Ok(RpcLine::Call { id, method, method_name, params }) => {
            assert_eq!(id, 7);
            assert_eq!(method, Some(RpcMethod::ToolsList));
            assert_eq!(method_name, "tools/list");
            assert_eq!(params, serde_json::Value::Object(serde_json::Map::new()));
        }
        other => panic!("unexpected {other:?}"),
    }
    match decode_rpc_line("{\"id\":\"a\",\"method\":3,\"params\":{\"uri\":\"cilux://caps\"}}") {
        Ok(RpcLine::Call { id, method, method_name, params }) => {
            assert_eq!(id, "a");
            assert_eq!(method, None);
            assert_eq!(method_name, "");
            assert_eq!(params["uri"], "cilux://caps");
        }
        other => panic!("unexpected {other:?}"),
    }
    let error = decode_rpc_line("{oops").unwrap_err();
    assert_eq!(error.message(), "parse JSON-RPC request");
    let report = serde_json::from_str::<serde_json::Value>("{oops").unwrap_err().to_string();
    assert_eq!(error.message_with_causes(), format!("parse JSON-RPC request: {report}"));
}

#[test]
fn unknown_methods_are_answered_method_not_found() {
    let reply = rpc_error_reply("bogus/method");
    assert_eq!(reply.code, -32601);
    assert_eq!(reply.message, "method not found: bogus/method");
}
