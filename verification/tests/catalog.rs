use cilux::catalog::{
    available_resource_templates, available_resources, available_tool_specs, input_schema,
    list_resource_templates, list_resources, tool_specs, SchemaSpec, ToolInput, MAX_EVENTS_LIMIT,
};
use cilux::protocol::BrokerCapabilities;
use cilux::protocol::SystemReadSelector;

#[test]
fn tool_catalog_includes_trace_tools_and_new_system_selectors() {
    let tools = tool_specs();
    let names = tools.iter().map(|tool| tool.name).collect::<Vec<_>>();

    assert_eq!(
        names,
        vec![
            "cilux_kernel_snapshot",
            "cilux_events_tail",
            "cilux_trace_configure",
            "cilux_trace_status",
            "cilux_trace_enable",
            "cilux_trace_disable",
            "cilux_trace_reset_default",
            "cilux_health",
            "cilux_buffer_clear",
            "cilux_system_read",
        ]
    );

    let system_read = tools
        .iter()
        .find(|tool| tool.name == "cilux_system_read")
        .expect("the system read tool should be listed");
    assert_eq!(system_read.input, ToolInput::Selector);
    let selectors = match input_schema(system_read.input) {
        SchemaSpec::Selector { values } => values,
        other => panic!("unexpected schema {other:?}"),
    };
    assert_eq!(
        selectors,
        SystemReadSelector::ALL
            .into_iter()
            .map(SystemReadSelector::as_str)
            .collect::<Vec<_>>()
    );
}

#[test]
fn resource_catalog_includes_new_system_resources() {
    let uris = list_resources()
        .into_iter()
        .map(|resource| resource.uri)
        .collect::<Vec<_>>();

    assert_eq!(
        uris,
        vec![
            "cilux://caps",
            "cilux://state",
            "cilux://events",
            "cilux://health",
            "cilux://system/dmesg",
            "cilux://system/proc_cmdline",
            "cilux://system/proc_modules",
            "cilux://system/proc_version",
            "cilux://system/proc_meminfo",
            "cilux://system/proc_loadavg",
            "cilux://system/proc_uptime",
            "cilux://system/proc_cpuinfo",
            "cilux://system/proc_interrupts",
            "cilux://system/proc_softirqs",
            "cilux://system/proc_vmstat",
            "cilux://system/proc_buddyinfo",
            "cilux://system/proc_zoneinfo",
            "cilux://system/proc_iomem",
            "cilux://system/proc_ioports",
            "cilux://system/proc_slabinfo",
        ]
    );
}

#[test]
fn catalog_entries_carry_names_and_mime_types() {
    let resources = list_resources();
    assert_eq!(resources[2].mime_type, "application/x-ndjson");
    assert_eq!(resources[4].name, "Guest Dmesg");
    assert_eq!(resources[19].mime_type, "text/plain");
    let tools = tool_specs();
    assert_eq!(tools[1].input, ToolInput::EventsLimit);
    assert_eq!(tools[2].input, ToolInput::TraceMask);
    assert_eq!(tools[4].input, ToolInput::Categories);
    assert_eq!(tools[0].input, ToolInput::NoArguments);
    let templates = list_resource_templates();
    assert_eq!(templates.len(), 2);
    assert_eq!(templates[0].uri_template, "cilux://events/{limit}");
    assert_eq!(templates[1].uri_template, "cilux://system/{selector}");
}

#[test]
fn input_schemas_fix_names_and_bounds() {
    assert_eq!(
        input_schema(ToolInput::EventsLimit),
        SchemaSpec::Limit { min_limit: 1, max_limit: MAX_EVENTS_LIMIT }
    );
    assert_eq!(MAX_EVENTS_LIMIT, 256);
    assert_eq!(input_schema(ToolInput::TraceMask), SchemaSpec::TraceMask { min_mask: 0 });
    assert_eq!(input_schema(ToolInput::NoArguments), SchemaSpec::NoArguments);
    assert_eq!(
        input_schema(ToolInput::Categories),
        SchemaSpec::Categories {
            values: vec!["sched_process_exec", "sched_process_exit", "module", "mark_victim"],
            min_items: 1,
            unique_items: true,
        }
    );
}

#[test]
fn desktop_catalog_hides_kernel_backed_surfaces() {
    let caps = BrokerCapabilities::desktop_stock_kernel();
    let names = available_tool_specs(&caps)
        .into_iter()
        .map(|tool| tool.name)
        .collect::<Vec<_>>();
    assert_eq!(names, vec!["cilux_health", "cilux_system_read"]);
    let uris = available_resources(&caps)
        .into_iter()
        .map(|resource| resource.uri)
        .collect::<Vec<_>>();
    assert_eq!(uris.len(), 17);
    assert_eq!(uris[0], "cilux://health");
    assert_eq!(uris[1], "cilux://system/dmesg");
    let templates = available_resource_templates(&caps);
    assert_eq!(templates.len(), 1);
    assert_eq!(templates[0].uri_template, "cilux://system/{selector}");

    let full = BrokerCapabilities::full();
    assert_eq!(available_tool_specs(&full).len(), 10);
    assert_eq!(available_resources(&full).len(), 20);
    assert_eq!(available_resource_templates(&full).len(), 2);

    let snapshot_only = BrokerCapabilities { kernel_snapshot: true, events_tail: false, trace_control: false };
    let names = available_tool_specs(&snapshot_only)
        .into_iter()
        .map(|tool| tool.name)
        .collect::<Vec<_>>();
    assert_eq!(names, vec!["cilux_kernel_snapshot", "cilux_health", "cilux_system_read"]);
}
