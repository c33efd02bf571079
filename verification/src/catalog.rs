//! The MCP server's catalog: its tools, the resources it publishes and
//! the resource templates it accepts.

use vstd::prelude::*;
use crate::protocol::{BrokerCapabilities, SystemReadSelector, TraceCategory};

verus! {

pub const DEFAULT_EVENTS_LIMIT: usize = 32;
pub const MAX_EVENTS_LIMIT: usize = 256;
pub const DEFAULT_EVENT_RESOURCE_LIMIT: usize = 256;

/// The tools of the MCP server.
#[derive(Debug, Clone, Copy, PartialEq, Eq)]
pub enum Tool {
    KernelSnapshot,
    EventsTail,
    TraceConfigure,
    TraceStatus,
    TraceEnable,
    TraceDisable,
    TraceResetDefault,
    Health,
    BufferClear,
    SystemRead,
}

/// The arguments a tool's input schema describes.
#[derive(Debug, Clone, Copy, PartialEq, Eq)]
pub enum ToolInput {
    /// An object with no properties.
    NoArguments,
    /// An optional integer `limit` from 1 to `MAX_EVENTS_LIMIT`.
    EventsLimit,
    /// A required integer `trace_mask` of at least 0.
    TraceMask,
    /// A required non-empty array `categories` of distinct trace category names.
    Categories,
    /// A required string `selector`, one of the system-read selector names.
    Selector,
}

/// A tool as the catalog lists it.
#[derive(Debug, Clone, Copy, PartialEq, Eq)]
pub struct ToolSpec {
    pub name: &'static str,
    pub description: &'static str,
    pub input: ToolInput,
}

/// A resource as the catalog lists it.
#[derive(Debug, Clone, Copy, PartialEq, Eq)]
pub struct ResourceSpec {
    pub uri: &'static str,
    pub name: &'static str,
    pub description: &'static str,
    pub mime_type: &'static str,
}

/// A resource template as the catalog lists it.
#[derive(Debug, Clone, Copy, PartialEq, Eq)]
pub struct ResourceTemplateSpec {
    pub uri_template: &'static str,
    pub name: &'static str,
    pub description: &'static str,
    pub mime_type: &'static str,
}

impl Tool {
    /// Every tool, in catalog order.
    pub open spec fn all_spec() -> Seq<Tool> {
        seq![Tool::KernelSnapshot, Tool::EventsTail, Tool::TraceConfigure, Tool::TraceStatus, Tool::TraceEnable, Tool::TraceDisable, Tool::TraceResetDefault, Tool::Health, Tool::BufferClear, Tool::SystemRead]
    }

    /// The tool's name.
    pub open spec fn name(self) -> Seq<char> {
        match self {
            Tool::KernelSnapshot => "cilux_kernel_snapshot"@,
            Tool::EventsTail => "cilux_events_tail"@,
            Tool::TraceConfigure => "cilux_trace_configure"@,
            Tool::TraceStatus => "cilux_trace_status"@,
            Tool::TraceEnable => "cilux_trace_enable"@,
            Tool::TraceDisable => "cilux_trace_disable"@,
            Tool::TraceResetDefault => "cilux_trace_reset_default"@,
            Tool::Health => "cilux_health"@,
            Tool::BufferClear => "cilux_buffer_clear"@,
            Tool::SystemRead => "cilux_system_read"@,
        }
    }

    /// The tool's description.
    pub open spec fn description(self) -> Seq<char> {
        match self {
            Tool::KernelSnapshot => "Read the latest kernel capability and state snapshot from the Cilux broker."@,
            Tool::EventsTail => "Read the most recent kernel event records from the Cilux ring buffer."@,
            Tool::TraceConfigure => "Set the active Cilux kernel trace mask using the broker's constrained control path."@,
            Tool::TraceStatus => "Read the current Cilux kernel trace mask, supported categories, and event counters."@,
            Tool::TraceEnable => "Enable one or more named Cilux trace categories through the constrained broker path."@,
            Tool::TraceDisable => "Disable one or more named Cilux trace categories through the constrained broker path."@,
            Tool::TraceResetDefault => "Reset the active Cilux trace mask to the broker's default supported categories."@,
            Tool::Health => "Read broker health, debugfs readiness, and Generic Netlink reachability."@,
            Tool::BufferClear => "Clear the Cilux kernel event ring buffer through the constrained broker path."@,
            Tool::SystemRead => "Read curated kernel-adjacent guest state such as dmesg and selected /proc snapshots."@,
        }
    }

    /// The tool's arguments.
    pub open spec fn input(self) -> ToolInput {
        match self {
            Tool::KernelSnapshot => ToolInput::NoArguments,
            Tool::EventsTail => ToolInput::EventsLimit,
            Tool::TraceConfigure => ToolInput::TraceMask,
            Tool::TraceStatus => ToolInput::NoArguments,
            Tool::TraceEnable => ToolInput::Categories,
            Tool::TraceDisable => ToolInput::Categories,
            Tool::TraceResetDefault => ToolInput::NoArguments,
            Tool::Health => ToolInput::NoArguments,
            Tool::BufferClear => ToolInput::NoArguments,
            Tool::SystemRead => ToolInput::Selector,
        }
    }

    /// The catalog entry of the tool.
    pub fn spec_entry(self) -> (s: ToolSpec)
        ensures
            s.name@ == self.name(),
            s.description@ == self.description(),
            s.input == self.input(),
    {
        match self {
            Tool::KernelSnapshot => ToolSpec { name: "cilux_kernel_snapshot", description: "Read the latest kernel capability and state snapshot from the Cilux broker.", input: ToolInput::NoArguments },
            Tool::EventsTail => ToolSpec { name: "cilux_events_tail", description: "Read the most recent kernel event records from the Cilux ring buffer.", input: ToolInput::EventsLimit },
            Tool::TraceConfigure => ToolSpec { name: "cilux_trace_configure", description: "Set the active Cilux kernel trace mask using the broker's constrained control path.", input: ToolInput::TraceMask },
            Tool::TraceStatus => ToolSpec { name: "cilux_trace_status", description: "Read the current Cilux kernel trace mask, supported categories, and event counters.", input: ToolInput::NoArguments },
            Tool::TraceEnable => ToolSpec { name: "cilux_trace_enable", description: "Enable one or more named Cilux trace categories through the constrained broker path.", input: ToolInput::Categories },
            Tool::TraceDisable => ToolSpec { name: "cilux_trace_disable", description: "Disable one or more named Cilux trace categories through the constrained broker path.", input: ToolInput::Categories },
            Tool::TraceResetDefault => ToolSpec { name: "cilux_trace_reset_default", description: "Reset the active Cilux trace mask to the broker's default supported categories.", input: ToolInput::NoArguments },
            Tool::Health => ToolSpec { name: "cilux_health", description: "Read broker health, debugfs readiness, and Generic Netlink reachability.", input: ToolInput::NoArguments },
            Tool::BufferClear => ToolSpec { name: "cilux_buffer_clear", description: "Clear the Cilux kernel event ring buffer through the constrained broker path.", input: ToolInput::NoArguments },
            Tool::SystemRead => ToolSpec { name: "cilux_system_read", description: "Read curated kernel-adjacent guest state such as dmesg and selected /proc snapshots.", input: ToolInput::Selector },
        }
    }

    /// The tool with the given name.
    pub fn from_name(name: &str) -> (r: Option<Tool>)
        ensures
            match r {
                Some(t) => t.name() == name@,
                None => forall|t: Tool| #[trigger] t.name() != name@,
            },
    {
        if crate::text::str_eq(name, "cilux_kernel_snapshot") {
            return Some(Tool::KernelSnapshot);
        }
        if crate::text::str_eq(name, "cilux_events_tail") {
            return Some(Tool::EventsTail);
        }
        if crate::text::str_eq(name, "cilux_trace_configure") {
            return Some(Tool::TraceConfigure);
        }
        if crate::text::str_eq(name, "cilux_trace_status") {
            return Some(Tool::TraceStatus);
        }
        if crate::text::str_eq(name, "cilux_trace_enable") {
            return Some(Tool::TraceEnable);
        }
        if crate::text::str_eq(name, "cilux_trace_disable") {
            return Some(Tool::TraceDisable);
        }
        if crate::text::str_eq(name, "cilux_trace_reset_default") {
            return Some(Tool::TraceResetDefault);
        }
        if crate::text::str_eq(name, "cilux_health") {
            return Some(Tool::Health);
        }
        if crate::text::str_eq(name, "cilux_buffer_clear") {
            return Some(Tool::BufferClear);
        }
        if crate::text::str_eq(name, "cilux_system_read") {
            return Some(Tool::SystemRead);
        }
        proof {
            assert forall|t: Tool| #[trigger] t.name() != name@ by {
                match t {
                    Tool::KernelSnapshot => {},
                    Tool::EventsTail => {},
                    Tool::TraceConfigure => {},
                    Tool::TraceStatus => {},
                    Tool::TraceEnable => {},
                    Tool::TraceDisable => {},
                    Tool::TraceResetDefault => {},
                    Tool::Health => {},
                    Tool::BufferClear => {},
                    Tool::SystemRead => {},
                }
            }
        }
        None
    }
}

/// Distinct tools have distinct names.
pub proof fn lemma_tool_names_distinct(x: Tool, y: Tool)
    ensures
        x.name() == y.name() ==> x == y,
{
    reveal_strlit("cilux_kernel_snapshot");
    reveal_strlit("cilux_events_tail");
    reveal_strlit("cilux_trace_configure");
    reveal_strlit("cilux_trace_status");
    reveal_strlit("cilux_trace_enable");
    reveal_strlit("cilux_trace_disable");
    reveal_strlit("cilux_trace_reset_default");
    reveal_strlit("cilux_health");
    reveal_strlit("cilux_buffer_clear");
    reveal_strlit("cilux_system_read");
    if x.name() == y.name() {
        assert(x.name().len() == y.name().len());
        assert(x.name()[6] == y.name()[6]);
        assert(x.name()[12] == y.name()[12]);
        match x {
            Tool::KernelSnapshot => {},
            Tool::EventsTail => {},
            Tool::TraceConfigure => {},
            Tool::TraceStatus => {},
            Tool::TraceEnable => {},
            Tool::TraceDisable => {},
            Tool::TraceResetDefault => {},
            Tool::Health => {},
            Tool::BufferClear => {},
            Tool::SystemRead => {},
        }
    }
}

/// Whether the tool can be served with the given capabilities: the
/// snapshot tool needs the debugfs documents, the events tool the event
/// log, the trace tools and the buffer clear the Netlink family; health and
/// system reads are always served.
pub open spec fn tool_available_spec(tool: Tool, caps: BrokerCapabilities) -> bool {
    match tool {
        Tool::KernelSnapshot => caps.kernel_snapshot,
        Tool::EventsTail => caps.events_tail,
        Tool::TraceConfigure => caps.trace_control,
        Tool::TraceStatus => caps.trace_control,
        Tool::TraceEnable => caps.trace_control,
        Tool::TraceDisable => caps.trace_control,
        Tool::TraceResetDefault => caps.trace_control,
        Tool::BufferClear => caps.trace_control,
        Tool::Health => true,
        Tool::SystemRead => true,
    }
}

/// Whether the tool can be served with the given capabilities.
pub fn tool_available(tool: Tool, caps: &BrokerCapabilities) -> (r: bool)
    ensures
        r == tool_available_spec(tool, *caps),
{
    match tool {
        Tool::KernelSnapshot => caps.kernel_snapshot,
        Tool::EventsTail => caps.events_tail,
        Tool::TraceConfigure => caps.trace_control,
        Tool::TraceStatus => caps.trace_control,
        Tool::TraceEnable => caps.trace_control,
        Tool::TraceDisable => caps.trace_control,
        Tool::TraceResetDefault => caps.trace_control,
        Tool::BufferClear => caps.trace_control,
        Tool::Health => true,
        Tool::SystemRead => true,
    }
}

/// The tools of `tools` that are available, in their order.
pub open spec fn available_among(tools: Seq<Tool>, caps: BrokerCapabilities) -> Seq<Tool>
    decreases tools.len(),
{
    if tools.len() == 0 {
        Seq::empty()
    } else if tool_available_spec(tools.last(), caps) {
        available_among(tools.drop_last(), caps).push(tools.last())
    } else {
        available_among(tools.drop_last(), caps)
    }
}

/// `e` is the catalog entry of `t`.
pub open spec fn is_entry_of(e: ToolSpec, t: Tool) -> bool {
    &&& e.name@ == t.name()
    &&& e.description@ == t.description()
    &&& e.input == t.input()
}

/// The tools the catalog lists on a guest with the given capabilities: the
/// available tools, in catalog order.
pub fn available_tool_specs(caps: &BrokerCapabilities) -> (r: Vec<ToolSpec>)
    ensures
        r@.len() == available_among(Tool::all_spec(), *caps).len(),
        forall|i: int| 0 <= i < r@.len() ==> is_entry_of(#[trigger] r@[i], available_among(Tool::all_spec(), *caps)[i]),
{
    let all: [Tool; 10] = [Tool::KernelSnapshot, Tool::EventsTail, Tool::TraceConfigure, Tool::TraceStatus, Tool::TraceEnable, Tool::TraceDisable, Tool::TraceResetDefault, Tool::Health, Tool::BufferClear, Tool::SystemRead];
    let mut r: Vec<ToolSpec> = Vec::new();
    let mut i: usize = 0;
    assert(Tool::all_spec().take(0) =~= Seq::<Tool>::empty());
    while i < 10
        invariant
            i <= 10,
            all@ == Tool::all_spec(),
            r@.len() == available_among(Tool::all_spec().take(i as int), *caps).len(),
            forall|k: int| 0 <= k < r@.len() ==> is_entry_of(#[trigger] r@[k], available_among(Tool::all_spec().take(i as int), *caps)[k]),
        decreases 10 - i,
    {
        let t = all[i];
        assert(t == Tool::all_spec()[i as int]);
        let ghost before = Tool::all_spec().take(i as int);
        let ghost after = Tool::all_spec().take(i + 1);
        assert(after.drop_last() =~= before);
        assert(after.last() == t);
        let ghost prev = r@;
        if tool_available(t, caps) {
            r.push(t.spec_entry());
            assert(available_among(after, *caps) == available_among(before, *caps).push(t));
            assert forall|k: int| 0 <= k < r@.len() implies is_entry_of(#[trigger] r@[k], available_among(after, *caps)[k]) by {
                if k < prev.len() {
                    assert(r@[k] == prev[k]);
                    assert(is_entry_of(prev[k], available_among(before, *caps)[k]));
                }
            }
        } else {
            assert(available_among(after, *caps) == available_among(before, *caps));
        }
        i = i + 1;
    }
    assert(Tool::all_spec().take(10) =~= Tool::all_spec());
    r
}

/// The JSON schema of a tool's arguments, as plain data.
#[derive(Debug, Clone, PartialEq, Eq)]
pub enum SchemaSpec {
    /// An object with no properties.
    NoArguments,
    /// An object with an optional integer `limit` from `min_limit` to `max_limit`.
    Limit { min_limit: usize, max_limit: usize },
    /// An object with a required integer `trace_mask` of at least `min_mask`.
    TraceMask { min_mask: u32 },
    /// An object with a required array `categories` of strings, each one of
    /// `values`, with at least `min_items` items, distinct when `unique_items`.
    Categories { values: Vec<&'static str>, min_items: usize, unique_items: bool },
    /// An object with a required string `selector`, one of `values`.
    Selector { values: Vec<&'static str> },
}

/// The texts of a list of static strings.
pub open spec fn texts(values: Seq<&'static str>) -> Seq<Seq<char>> {
    values.map_values(|v: &'static str| v@)
}

/// The names of the trace categories, in the order of `TraceCategory::ALL`.
pub open spec fn category_names_spec() -> Seq<Seq<char>> {
    TraceCategory::all_spec().map_values(|c: TraceCategory| c.name())
}

/// The names of the system-read selectors, in the order of `SystemReadSelector::ALL`.
pub open spec fn selector_names_spec() -> Seq<Seq<char>> {
    SystemReadSelector::all_spec().map_values(|x: SystemReadSelector| x.name())
}

fn category_names() -> (r: Vec<&'static str>)
    ensures
        texts(r@) == category_names_spec(),
{
    let mut r: Vec<&'static str> = Vec::new();
    let mut i: usize = 0;
    while i < 4
        invariant
            i <= 4,
            texts(r@) == category_names_spec().take(i as int),
        decreases 4 - i,
    {
        let c = TraceCategory::ALL[i];
        assert(c == TraceCategory::all_spec()[i as int]);
        let ghost prev = r@;
        assert(texts(prev).len() == prev.len());
        r.push(c.as_str());
        assert forall|k: int| 0 <= k <= i implies #[trigger] texts(r@)[k] == category_names_spec()[k] by {
            if k < i {
                assert(r@[k] == prev[k]);
                assert(texts(prev)[k] == category_names_spec().take(i as int)[k]);
            }
        }
        assert(texts(r@) =~= category_names_spec().take(i + 1));
        i = i + 1;
    }
    assert(category_names_spec().take(4) =~= category_names_spec());
    r
}

fn selector_names() -> (r: Vec<&'static str>)
    ensures
        texts(r@) == selector_names_spec(),
{
    let mut r: Vec<&'static str> = Vec::new();
    let mut i: usize = 0;
    while i < 16
        invariant
            i <= 16,
            texts(r@) == selector_names_spec().take(i as int),
        decreases 16 - i,
    {
        let x = SystemReadSelector::ALL[i];
        assert(x == SystemReadSelector::all_spec()[i as int]);
        let ghost prev = r@;
        assert(texts(prev).len() == prev.len());
        r.push(x.as_str());
        assert forall|k: int| 0 <= k <= i implies #[trigger] texts(r@)[k] == selector_names_spec()[k] by {
            if k < i {
                assert(r@[k] == prev[k]);
                assert(texts(prev)[k] == selector_names_spec().take(i as int)[k]);
            }
        }
        assert(texts(r@) =~= selector_names_spec().take(i + 1));
        i = i + 1;
    }
    assert(selector_names_spec().take(16) =~= selector_names_spec());
    r
}

/// The schema of a tool's arguments: the events limit runs from 1 to
/// `MAX_EVENTS_LIMIT`, the trace mask is at least 0, the categories are a
/// non-empty array of distinct category names, the selector is a selector
/// name; the names are listed in the order of `ALL`.
pub fn input_schema(input: ToolInput) -> (s: SchemaSpec)
    ensures
        match input {
            ToolInput::NoArguments => s == SchemaSpec::NoArguments,
            ToolInput::EventsLimit => s == (SchemaSpec::Limit { min_limit: 1, max_limit: MAX_EVENTS_LIMIT }),
            ToolInput::TraceMask => s == (SchemaSpec::TraceMask { min_mask: 0 }),
            ToolInput::Categories => s matches SchemaSpec::Categories { values, min_items, unique_items }
                && texts(values@) == category_names_spec() && min_items == 1 && unique_items,
            ToolInput::Selector => s matches SchemaSpec::Selector { values }
                && texts(values@) == selector_names_spec(),
        },
{
    match input {
        ToolInput::NoArguments => SchemaSpec::NoArguments,
        ToolInput::EventsLimit => SchemaSpec::Limit { min_limit: 1, max_limit: MAX_EVENTS_LIMIT },
        ToolInput::TraceMask => SchemaSpec::TraceMask { min_mask: 0 },
        ToolInput::Categories => SchemaSpec::Categories { values: category_names(), min_items: 1, unique_items: true },
        ToolInput::Selector => SchemaSpec::Selector { values: selector_names() },
    }
}

/// Only `cilux_events_tail` has a name of 17 characters whose seventh is `e`,
/// and no tool name has 24 characters with `k` as its seventh.
pub proof fn lemma_tool_name_lengths(t: Tool)
    ensures
        !(t.name().len() == 24 && t.name()[6] == 'k'),
{
    reveal_strlit("cilux_kernel_snapshot");
    reveal_strlit("cilux_events_tail");
    reveal_strlit("cilux_trace_configure");
    reveal_strlit("cilux_trace_status");
    reveal_strlit("cilux_trace_enable");
    reveal_strlit("cilux_trace_disable");
    reveal_strlit("cilux_trace_reset_default");
    reveal_strlit("cilux_health");
    reveal_strlit("cilux_buffer_clear");
    reveal_strlit("cilux_system_read");
}

/// The tools, in catalog order.
pub fn tool_specs() -> (r: Vec<ToolSpec>)
    ensures
        r@.len() == Tool::all_spec().len(),
        forall|i: int| 0 <= i < r@.len() ==> is_entry_of(#[trigger] r@[i], Tool::all_spec()[i]),
{
    let all: [Tool; 10] = [Tool::KernelSnapshot, Tool::EventsTail, Tool::TraceConfigure, Tool::TraceStatus, Tool::TraceEnable, Tool::TraceDisable, Tool::TraceResetDefault, Tool::Health, Tool::BufferClear, Tool::SystemRead];
    let mut r: Vec<ToolSpec> = Vec::new();
    let mut i: usize = 0;
    while i < 10
        invariant
            i <= 10,
            all@ == Tool::all_spec(),
            r@.len() == i,
            forall|k: int| 0 <= k < i ==> is_entry_of(#[trigger] r@[k], Tool::all_spec()[k]),
        decreases 10 - i,
    {
        let t = all[i];
        assert(t == Tool::all_spec()[i as int]);
        r.push(t.spec_entry());
        i = i + 1;
    }
    r
}

/// The fixed resources: uri, name, description and MIME type.
pub open spec fn base_resources_spec() -> Seq<(Seq<char>, Seq<char>, Seq<char>, Seq<char>)> {
    seq![
        ("cilux://caps"@, "Cilux Capabilities"@, "Current kernel-side capability map for the Cilux harness."@, "application/json"@),
        ("cilux://state"@, "Cilux State"@, "Current Cilux trace mask, counters, and ring-buffer state."@, "application/json"@),
        ("cilux://events"@, "Cilux Events"@, "Recent Cilux kernel events as newline-delimited JSON."@, "application/x-ndjson"@),
        ("cilux://health"@, "Cilux Health"@, "Broker health and guest kernel integration readiness."@, "application/json"@),
    ]
}

/// The resource a system-read selector is published as.
pub open spec fn selector_resource(s: SystemReadSelector) -> (Seq<char>, Seq<char>, Seq<char>, Seq<char>) {
    (s.uri(), s.display_name(), s.description(), "text/plain"@)
}

/// Every resource: the fixed ones, then one per selector in the order of `ALL`.
pub open spec fn resources_spec() -> Seq<(Seq<char>, Seq<char>, Seq<char>, Seq<char>)> {
    base_resources_spec() + SystemReadSelector::all_spec().map_values(|s: SystemReadSelector| selector_resource(s))
}

/// The view of a catalog entry.
pub open spec fn resource_view(r: ResourceSpec) -> (Seq<char>, Seq<char>, Seq<char>, Seq<char>) {
    (r.uri@, r.name@, r.description@, r.mime_type@)
}

/// The fixed resources.
pub fn base_resources() -> (r: Vec<ResourceSpec>)
    ensures
        r@.map_values(|e: ResourceSpec| resource_view(e)) == base_resources_spec(),
{
    let r = vec![
        ResourceSpec { uri: "cilux://caps", name: "Cilux Capabilities", description: "Current kernel-side capability map for the Cilux harness.", mime_type: "application/json" },
        ResourceSpec { uri: "cilux://state", name: "Cilux State", description: "Current Cilux trace mask, counters, and ring-buffer state.", mime_type: "application/json" },
        ResourceSpec { uri: "cilux://events", name: "Cilux Events", description: "Recent Cilux kernel events as newline-delimited JSON.", mime_type: "application/x-ndjson" },
        ResourceSpec { uri: "cilux://health", name: "Cilux Health", description: "Broker health and guest kernel integration readiness.", mime_type: "application/json" },
    ];
    assert(r@.map_values(|e: ResourceSpec| resource_view(e)) =~= base_resources_spec());
    r
}

/// Every resource the server publishes.
pub fn list_resources() -> (r: Vec<ResourceSpec>)
    ensures
        r@.map_values(|e: ResourceSpec| resource_view(e)) == resources_spec(),
{
    let mut r = base_resources();
    let ghost base = r@;
    let mut i: usize = 0;
    while i < 16
        invariant
            i <= 16,
            base.map_values(|e: ResourceSpec| resource_view(e)) == base_resources_spec(),
            r@.len() == base.len() + i,
            forall|k: int| 0 <= k < base.len() ==> r@[k] == base[k],
            forall|k: int| 0 <= k < i ==> resource_view(#[trigger] r@[base.len() + k]) == selector_resource(SystemReadSelector::all_spec()[k]),
        decreases 16 - i,
    {
        let selector = SystemReadSelector::ALL[i];
        assert(selector == SystemReadSelector::all_spec()[i as int]);
        r.push(ResourceSpec {
            uri: selector.resource_uri(),
            name: selector.resource_name(),
            description: selector.resource_description(),
            mime_type: "text/plain",
        });
        i = i + 1;
    }
    proof {
        let v = r@.map_values(|e: ResourceSpec| resource_view(e));
        let w = resources_spec();
        assert(v.len() == w.len());
        assert forall|k: int| 0 <= k < v.len() implies v[k] == w[k] by {
            if k < base.len() {
                assert(r@[k] == base[k]);
                assert(base.map_values(|e: ResourceSpec| resource_view(e))[k] == base_resources_spec()[k]);
            } else {
                assert(resource_view(r@[base.len() + (k - base.len())]) == selector_resource(SystemReadSelector::all_spec()[k - base.len()]));
            }
        }
        assert(v =~= w);
    }
    r
}

/// The resource templates: uri template, name, description and MIME type.
pub open spec fn templates_spec() -> Seq<(Seq<char>, Seq<char>, Seq<char>, Seq<char>)> {
    seq![
        ("cilux://events/{limit}"@, "Cilux Events Tail"@, "Recent Cilux kernel events with a caller-selected limit."@, "application/x-ndjson"@),
        ("cilux://system/{selector}"@, "Cilux System Snapshot"@, "Curated kernel-adjacent guest state selected by name."@, "text/plain"@),
    ]
}

/// The view of a template entry.
pub open spec fn template_view(r: ResourceTemplateSpec) -> (Seq<char>, Seq<char>, Seq<char>, Seq<char>) {
    (r.uri_template@, r.name@, r.description@, r.mime_type@)
}

/// The resource templates the server accepts.
pub fn list_resource_templates() -> (r: Vec<ResourceTemplateSpec>)
    ensures
        r@.map_values(|e: ResourceTemplateSpec| template_view(e)) == templates_spec(),
{
    let r = vec![
        ResourceTemplateSpec { uri_template: "cilux://events/{limit}", name: "Cilux Events Tail", description: "Recent Cilux kernel events with a caller-selected limit.", mime_type: "application/x-ndjson" },
        ResourceTemplateSpec { uri_template: "cilux://system/{selector}", name: "Cilux System Snapshot", description: "Curated kernel-adjacent guest state selected by name.", mime_type: "text/plain" },
    ];
    assert(r@.map_values(|e: ResourceTemplateSpec| template_view(e)) =~= templates_spec());
    r
}


/// The fixed resources published on a guest with these capabilities: caps
/// and state with the snapshot feature, events with the event log, health
/// always.
pub open spec fn available_base_resources_spec(caps: BrokerCapabilities) -> Seq<(Seq<char>, Seq<char>, Seq<char>, Seq<char>)> {
    let b = base_resources_spec();
    (if caps.kernel_snapshot { seq![b[0], b[1]] } else { Seq::empty() })
        + (if caps.events_tail { seq![b[2]] } else { Seq::empty() })
        + seq![b[3]]
}

/// The resources published on a guest with these capabilities: the
/// available fixed ones, then one per selector in the order of `ALL`.
pub open spec fn available_resources_spec(caps: BrokerCapabilities) -> Seq<(Seq<char>, Seq<char>, Seq<char>, Seq<char>)> {
    available_base_resources_spec(caps) + SystemReadSelector::all_spec().map_values(|s: SystemReadSelector| selector_resource(s))
}

fn push_selector_resources(r: &mut Vec<ResourceSpec>)
    ensures
        final(r)@.map_values(|e: ResourceSpec| resource_view(e)) == old(r)@.map_values(|e: ResourceSpec| resource_view(e))
            + SystemReadSelector::all_spec().map_values(|s: SystemReadSelector| selector_resource(s)),
{
    let ghost base = r@;
    let mut i: usize = 0;
    while i < 16
        invariant
            i <= 16,
            r@.len() == base.len() + i,
            forall|k: int| 0 <= k < base.len() ==> r@[k] == base[k],
            forall|k: int| 0 <= k < i ==> resource_view(#[trigger] r@[base.len() + k]) == selector_resource(SystemReadSelector::all_spec()[k]),
        decreases 16 - i,
    {
        let selector = SystemReadSelector::ALL[i];
        assert(selector == SystemReadSelector::all_spec()[i as int]);
        r.push(ResourceSpec {
            uri: selector.resource_uri(),
            name: selector.resource_name(),
            description: selector.resource_description(),
            mime_type: "text/plain",
        });
        i = i + 1;
    }
    proof {
        let v = r@.map_values(|e: ResourceSpec| resource_view(e));
        let w = base.map_values(|e: ResourceSpec| resource_view(e))
            + SystemReadSelector::all_spec().map_values(|s: SystemReadSelector| selector_resource(s));
        assert(v.len() == w.len());
        assert forall|k: int| 0 <= k < v.len() implies v[k] == w[k] by {
            if k < base.len() {
                assert(r@[k] == base[k]);
            } else {
                assert(resource_view(r@[base.len() + (k - base.len())]) == selector_resource(SystemReadSelector::all_spec()[k - base.len()]));
            }
        }
        assert(v =~= w);
    }
}

/// The resources the server publishes on a guest with these capabilities.
pub fn available_resources(caps: &BrokerCapabilities) -> (r: Vec<ResourceSpec>)
    ensures
        r@.map_values(|e: ResourceSpec| resource_view(e)) == available_resources_spec(*caps),
{
    let b = base_resources();
    assert(b@.map_values(|e: ResourceSpec| resource_view(e)).len() == b@.len());
    assert(base_resources_spec().len() == 4);
    let mut r: Vec<ResourceSpec> = Vec::new();
    if caps.kernel_snapshot {
        r.push(b[0]);
        r.push(b[1]);
    }
    if caps.events_tail {
        r.push(b[2]);
    }
    r.push(b[3]);
    proof {
        let bv = b@.map_values(|e: ResourceSpec| resource_view(e));
        assert(bv[0] == resource_view(b@[0]) && bv[1] == resource_view(b@[1]));
        assert(bv[2] == resource_view(b@[2]) && bv[3] == resource_view(b@[3]));
        assert(r@.map_values(|e: ResourceSpec| resource_view(e)) =~= available_base_resources_spec(*caps));
    }
    push_selector_resources(&mut r);
    r
}

/// The resource templates accepted on a guest with these capabilities: the
/// events template with the event log, the system template always.
pub open spec fn available_templates_spec(caps: BrokerCapabilities) -> Seq<(Seq<char>, Seq<char>, Seq<char>, Seq<char>)> {
    (if caps.events_tail { seq![templates_spec()[0]] } else { Seq::empty() }) + seq![templates_spec()[1]]
}

/// The resource templates the server accepts on a guest with these capabilities.
pub fn available_resource_templates(caps: &BrokerCapabilities) -> (r: Vec<ResourceTemplateSpec>)
    ensures
        r@.map_values(|e: ResourceTemplateSpec| template_view(e)) == available_templates_spec(*caps),
{
    let t = list_resource_templates();
    assert(t@.map_values(|e: ResourceTemplateSpec| template_view(e)).len() == t@.len());
    assert(templates_spec().len() == 2);
    let mut r: Vec<ResourceTemplateSpec> = Vec::new();
    if caps.events_tail {
        r.push(t[0]);
    }
    r.push(t[1]);
    proof {
        let tv = t@.map_values(|e: ResourceTemplateSpec| template_view(e));
        assert(tv[0] == template_view(t@[0]) && tv[1] == template_view(t@[1]));
        assert(r@.map_values(|e: ResourceTemplateSpec| template_view(e)) =~= available_templates_spec(*caps));
    }
    r
}

} // verus!
