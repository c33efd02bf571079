//! The MCP server's decisions: which JSON-RPC method a request names,
//! which broker request a tool call or a resource read becomes, and what
//! part of the broker's answer a resource shows.

use vstd::prelude::*;
use crate::catalog::{tool_available, tool_available_spec, Tool, DEFAULT_EVENTS_LIMIT, DEFAULT_EVENT_RESOURCE_LIMIT};
use crate::error::CiluxError;
use crate::protocol::{
    BrokerCapabilities, BrokerRequest, BrokerResult, BufferClearRequest, HealthRequest, KernelEventsTailRequest,
    KernelSnapshotRequest, SystemReadRequest, SystemReadSelector, TraceCategoriesRequest,
    TraceCategory, TraceConfigureRequest, TraceResetDefaultRequest, TraceStatusRequest,
};
use crate::json::{
    empty_object, empty_object_text, json_document, json_member, json_parse, json_string, member, parse_value,
    string_of,
};
use crate::text::{blank, is_blank, chars_of, has_prefix, parse_usize, parse_usize_spec, str_eq, string_from_chars, trim_leading};

verus! {

/// The JSON-RPC methods the server answers.
#[derive(Debug, Clone, Copy, PartialEq, Eq)]
pub enum RpcMethod {
    Initialize,
    Ping,
    ToolsList,
    ToolsCall,
    ResourcesList,
    ResourcesRead,
    ResourceTemplatesList,
}

impl RpcMethod {
    /// The method's name.
    pub open spec fn name(self) -> Seq<char> {
        match self {
            RpcMethod::Initialize => "initialize"@,
            RpcMethod::Ping => "ping"@,
            RpcMethod::ToolsList => "tools/list"@,
            RpcMethod::ToolsCall => "tools/call"@,
            RpcMethod::ResourcesList => "resources/list"@,
            RpcMethod::ResourcesRead => "resources/read"@,
            RpcMethod::ResourceTemplatesList => "resources/templates/list"@,
        }
    }

    /// The method with the given name; `None` is answered "method not found".
    pub fn from_name(method: &str) -> (r: Option<RpcMethod>)
        ensures
            match r {
                Some(m) => m.name() == method@,
                None => forall|m: RpcMethod| #[trigger] m.name() != method@,
            },
    {
        if str_eq(method, "initialize") {
            return Some(RpcMethod::Initialize);
        }
        if str_eq(method, "ping") {
            return Some(RpcMethod::Ping);
        }
        if str_eq(method, "tools/list") {
            return Some(RpcMethod::ToolsList);
        }
        if str_eq(method, "tools/call") {
            return Some(RpcMethod::ToolsCall);
        }
        if str_eq(method, "resources/list") {
            return Some(RpcMethod::ResourcesList);
        }
        if str_eq(method, "resources/read") {
            return Some(RpcMethod::ResourcesRead);
        }
        if str_eq(method, "resources/templates/list") {
            return Some(RpcMethod::ResourceTemplatesList);
        }
        proof {
            assert forall|m: RpcMethod| #[trigger] m.name() != method@ by {
                match m {
                    RpcMethod::Initialize => {},
                    RpcMethod::Ping => {},
                    RpcMethod::ToolsList => {},
                    RpcMethod::ToolsCall => {},
                    RpcMethod::ResourcesList => {},
                    RpcMethod::ResourcesRead => {},
                    RpcMethod::ResourceTemplatesList => {},
                }
            }
        }
        None
    }
}

/// The arguments of a tool call, as far as the tools read them: `limit`
/// and `trace_mask` when they are unsigned integers, `categories` when it
/// is an array (each item when it is a string), `selector` when it is a
/// string.
#[derive(Debug, Clone, PartialEq, Eq)]
pub struct ToolArguments {
    pub limit: Option<u64>,
    pub trace_mask: Option<u64>,
    pub categories: Option<Vec<Option<String>>>,
    pub selector: Option<String>,
}

/// The events limit of a tool call: the argument, or 32 without one.
pub open spec fn events_limit(limit: Option<u64>) -> usize {
    match limit {
        Some(n) => n as usize,
        None => DEFAULT_EVENTS_LIMIT,
    }
}

/// The trace mask of a tool call: the argument cut to its low 32 bits, or
/// 0 without one.
pub open spec fn trace_mask_arg(mask: Option<u64>) -> u32 {
    match mask {
        Some(n) => n as u32,
        None => 0,
    }
}

/// The item is a string that is the name of `c`.
pub open spec fn item_is(item: Option<String>, c: TraceCategory) -> bool {
    item matches Some(s) && c.name() == s@
}

/// The item names a category.
pub open spec fn item_names_category(item: Option<String>) -> bool {
    item matches Some(s) && exists|c: TraceCategory| #[trigger] c.name() == s@
}

/// `e` is how the item fails: it is not a string, or it names no category.
pub open spec fn item_failure(item: Option<String>, e: CiluxError) -> bool {
    match item {
        None => e == CiluxError::CategoriesNotStrings,
        Some(s) => (forall|c: TraceCategory| #[trigger] c.name() != s@) && e.unknown_trace_category_named(s@),
    }
}

/// `r` is what the categories argument gives: without it
/// `MissingCategories`; empty `EmptyCategories`; otherwise the category of
/// each item in order, or the failure of the first item that names none.
pub open spec fn categories_outcome(arg: Option<Vec<Option<String>>>, r: Result<Vec<TraceCategory>, CiluxError>) -> bool {
    match arg {
        None => r == Err::<Vec<TraceCategory>, CiluxError>(CiluxError::MissingCategories),
        Some(items) => if items@.len() == 0 {
            r == Err::<Vec<TraceCategory>, CiluxError>(CiluxError::EmptyCategories)
        } else {
            match r {
                Ok(cs) => cs@.len() == items@.len() && forall|i: int| 0 <= i < items@.len()
                    ==> item_is(#[trigger] items@[i], cs@[i]),
                Err(e) => exists|k: int| {
                    &&& 0 <= k < items@.len()
                    &&& forall|j: int| 0 <= j < k ==> item_names_category(#[trigger] items@[j])
                    &&& item_failure(#[trigger] items@[k], e)
                },
            }
        },
    }
}

/// Reads the categories argument of a trace tool call.
pub fn parse_trace_categories(arg: &Option<Vec<Option<String>>>) -> (r: Result<Vec<TraceCategory>, CiluxError>)
    ensures
        categories_outcome(*arg, r),
{
    let items = match arg {
        Some(items) => items,
        None => return Err(CiluxError::MissingCategories),
    };
    if items.len() == 0 {
        return Err(CiluxError::EmptyCategories);
    }
    let mut out: Vec<TraceCategory> = Vec::new();
    let mut i: usize = 0;
    while i < items.len()
        invariant
            *arg == Some(*items),
            items@.len() > 0,
            i <= items@.len(),
            out@.len() == i,
            forall|k: int| 0 <= k < i ==> item_is(#[trigger] items@[k], out@[k]),
        decreases items@.len() - i,
    {
        match &items[i] {
            None => {
                proof {
                    assert forall|j: int| 0 <= j < i implies item_names_category(#[trigger] items@[j]) by {
                        let c = out@[j];
                        assert(item_is(items@[j], c));
                    }
                    assert(item_failure(items@[i as int], CiluxError::CategoriesNotStrings));
                    assert(*arg == Some(*items));
                    assert(categories_outcome(*arg, Err(CiluxError::CategoriesNotStrings)));
                }
                return Err(CiluxError::CategoriesNotStrings);
            },
            Some(name) => match TraceCategory::parse(name.as_str()) {
                Ok(c) => out.push(c),
                Err(e) => {
                    proof {
                        assert forall|j: int| 0 <= j < i implies item_names_category(#[trigger] items@[j]) by {
                            let c = out@[j];
                            assert(item_is(items@[j], c));
                        }
                        assert(item_failure(items@[i as int], e));
                        assert(*arg == Some(*items));
                        assert(categories_outcome(*arg, Err(e)));
                    }
                    return Err(e);
                },
            },
        }
        i = i + 1;
    }
    Ok(out)
}

/// `r` is what the selector argument gives: without it `MissingSelector`;
/// otherwise the selector it names, or the unknown-selector error.
pub open spec fn selector_outcome(arg: Option<String>, r: Result<SystemReadSelector, CiluxError>) -> bool {
    match arg {
        None => r == Err::<SystemReadSelector, CiluxError>(CiluxError::MissingSelector),
        Some(s) => match r {
            Ok(x) => x.name() == s@,
            Err(e) => (forall|x: SystemReadSelector| #[trigger] x.name() != s@) && e.unknown_system_selector_named(s@),
        },
    }
}

/// Reads the selector argument of a system-read tool call.
pub fn parse_system_selector(arg: &Option<String>) -> (r: Result<SystemReadSelector, CiluxError>)
    ensures
        selector_outcome(*arg, r),
{
    match arg {
        None => Err(CiluxError::MissingSelector),
        Some(s) => SystemReadSelector::parse(s.as_str()),
    }
}

/// `r` is the broker request that a call of `tool` with `args` becomes, or
/// the error with which the call is refused.
pub open spec fn tool_outcome(tool: Tool, args: ToolArguments, r: Result<BrokerRequest, CiluxError>) -> bool {
    match tool {
        Tool::KernelSnapshot => r == Ok::<BrokerRequest, CiluxError>(
            BrokerRequest::KernelSnapshot(KernelSnapshotRequest {}),
        ),
        Tool::EventsTail => r == Ok::<BrokerRequest, CiluxError>(
            BrokerRequest::KernelEventsTail(KernelEventsTailRequest { limit: events_limit(args.limit) }),
        ),
        Tool::TraceConfigure => r == Ok::<BrokerRequest, CiluxError>(
            BrokerRequest::TraceConfigure(TraceConfigureRequest { trace_mask: trace_mask_arg(args.trace_mask) }),
        ),
        Tool::TraceStatus => r == Ok::<BrokerRequest, CiluxError>(BrokerRequest::TraceStatus(TraceStatusRequest {})),
        Tool::TraceEnable => match r {
            Ok(BrokerRequest::TraceEnable(req)) => categories_outcome(args.categories, Ok(req.categories)),
            Err(e) => categories_outcome(args.categories, Err(e)),
            _ => false,
        },
        Tool::TraceDisable => match r {
            Ok(BrokerRequest::TraceDisable(req)) => categories_outcome(args.categories, Ok(req.categories)),
            Err(e) => categories_outcome(args.categories, Err(e)),
            _ => false,
        },
        Tool::TraceResetDefault => r == Ok::<BrokerRequest, CiluxError>(
            BrokerRequest::TraceResetDefault(TraceResetDefaultRequest {}),
        ),
        Tool::Health => r == Ok::<BrokerRequest, CiluxError>(BrokerRequest::Health(HealthRequest {})),
        Tool::BufferClear => r == Ok::<BrokerRequest, CiluxError>(BrokerRequest::BufferClear(BufferClearRequest {})),
        Tool::SystemRead => match r {
            Ok(BrokerRequest::SystemRead(req)) => selector_outcome(args.selector, Ok(req.selector)),
            Err(e) => selector_outcome(args.selector, Err(e)),
            _ => false,
        },
    }
}

/// The broker request for a call of the tool `name`: a call without a
/// name or with an unknown name is refused; otherwise the tool's
/// arguments are read.
pub fn tool_request(name: &str, args: &ToolArguments) -> (r: Result<BrokerRequest, CiluxError>)
    ensures
        name@.len() == 0 ==> r == Err::<BrokerRequest, CiluxError>(CiluxError::MissingToolName),
        name@.len() > 0 && (forall|t: Tool| #[trigger] t.name() != name@) ==> (r matches Err(
            CiluxError::UnknownTool { name: n },
        ) && n@ == name@),
        name@.len() > 0 ==> forall|t: Tool| #[trigger] t.name() == name@ ==> tool_outcome(t, *args, r),
{
    if name.is_empty() {
        return Err(CiluxError::MissingToolName);
    }
    let tool = match Tool::from_name(name) {
        Some(t) => t,
        None => return Err(CiluxError::UnknownTool { name: name.to_owned() }),
    };
    proof {
        assert forall|t: Tool| #[trigger] t.name() == name@ implies t == tool by {
            crate::catalog::lemma_tool_names_distinct(t, tool);
        }
    }
    match tool {
        Tool::KernelSnapshot => Ok(BrokerRequest::KernelSnapshot(KernelSnapshotRequest {})),
        Tool::EventsTail => {
            let limit = match args.limit {
                Some(n) => {
                    #[verifier::truncate]
                    let l = n as usize;
                    l
                },
                None => DEFAULT_EVENTS_LIMIT,
            };
            Ok(BrokerRequest::KernelEventsTail(KernelEventsTailRequest { limit }))
        },
        Tool::TraceConfigure => {
            let trace_mask = match args.trace_mask {
                Some(n) => {
                    #[verifier::truncate]
                    let m = n as u32;
                    m
                },
                None => 0,
            };
            Ok(BrokerRequest::TraceConfigure(TraceConfigureRequest { trace_mask }))
        },
        Tool::TraceStatus => Ok(BrokerRequest::TraceStatus(TraceStatusRequest {})),
        Tool::TraceEnable => {
            let categories = parse_trace_categories(&args.categories)?;
            Ok(BrokerRequest::TraceEnable(TraceCategoriesRequest { categories }))
        },
        Tool::TraceDisable => {
            let categories = parse_trace_categories(&args.categories)?;
            Ok(BrokerRequest::TraceDisable(TraceCategoriesRequest { categories }))
        },
        Tool::TraceResetDefault => Ok(BrokerRequest::TraceResetDefault(TraceResetDefaultRequest {})),
        Tool::Health => Ok(BrokerRequest::Health(HealthRequest {})),
        Tool::BufferClear => Ok(BrokerRequest::BufferClear(BufferClearRequest {})),
        Tool::SystemRead => {
            let selector = parse_system_selector(&args.selector)?;
            Ok(BrokerRequest::SystemRead(SystemReadRequest { selector }))
        },
    }
}

/// What one line of the server's input asks for.
#[derive(Debug)]
pub enum RpcLine {
    /// Nothing to answer: a blank line, or a message without an `id` (a
    /// notification).
    Skip,
    /// A request: its `id`, the method it names (`None` when the server
    /// has no such method), the method's text, and its `params`.
    Call {
        id: serde_json::Value,
        method: Option<RpcMethod>,
        method_name: String,
        params: serde_json::Value,
    },
}

/// The method text of a message: its `method` member when that is a
/// string, else empty.
pub open spec fn rpc_method_text(message: serde_json::Value) -> Seq<char> {
    match json_member(message, "method"@) {
        Some(m) => match json_string(m) {
            Some(text) => text,
            None => Seq::empty(),
        },
        None => Seq::empty(),
    }
}

/// `r` is what the input line `line` asks for: a blank line is skipped; a
/// line that is not JSON is refused with the parser's report; a message
/// without an `id` is skipped; otherwise the call carries the `id`, the
/// method named by the method text, and the `params` member or, without
/// one, an empty object.
pub open spec fn rpc_line_outcome(line: Seq<char>, r: Result<RpcLine, CiluxError>) -> bool {
    if is_blank(line) {
        r == Ok::<RpcLine, CiluxError>(RpcLine::Skip)
    } else {
        match json_parse(line) {
            Err(report) => r matches Err(CiluxError::InvalidRpcRequest { cause }) && cause@ == report,
            Ok(message) => match json_member(message, "id"@) {
                None => r == Ok::<RpcLine, CiluxError>(RpcLine::Skip),
                Some(id) => r matches Ok(RpcLine::Call { id: i, method, method_name, params }) && {
                    &&& i == id
                    &&& method_name@ == rpc_method_text(message)
                    &&& match method {
                        Some(m) => m.name() == method_name@,
                        None => forall|m: RpcMethod| #[trigger] m.name() != method_name@,
                    }
                    &&& match json_member(message, "params"@) {
                        Some(p) => params == p,
                        None => json_document(empty_object_text()) == Some(params),
                    }
                },
            },
        }
    }
}

/// Reads one line of the server's input.
pub fn decode_rpc_line(line: &str) -> (r: Result<RpcLine, CiluxError>)
    ensures
        rpc_line_outcome(line@, r),
{
    if blank(line) {
        return Ok(RpcLine::Skip);
    }
    let message = match parse_value(line) {
        Ok(message) => message,
        Err(cause) => return Err(CiluxError::InvalidRpcRequest { cause }),
    };
    let id = match member(&message, "id") {
        Some(id) => id,
        None => return Ok(RpcLine::Skip),
    };
    let method_name = match member(&message, "method") {
        Some(m) => match string_of(&m) {
            Some(text) => text,
            None => String::new(),
        },
        None => String::new(),
    };
    let params = match member(&message, "params") {
        Some(p) => p,
        None => empty_object(),
    };
    let method = RpcMethod::from_name(method_name.as_str());
    Ok(RpcLine::Call { id, method, method_name, params })
}

/// A JSON-RPC error: its code and message.
#[derive(Debug, Clone, PartialEq, Eq)]
pub struct RpcError {
    pub code: i32,
    pub message: String,
}

/// The JSON-RPC error code for a method the server does not have.
pub const METHOD_NOT_FOUND: i32 = -32601;

/// The answer to a call of a method the server does not have: code
/// -32601 and `method not found: ` with the method's text.
pub fn rpc_error_reply(method_name: &str) -> (r: RpcError)
    ensures
        r.code == -32601,
        r.message@ == "method not found: "@ + method_name@,
{
    let mut message = "method not found: ".to_owned();
    message.append(method_name);
    RpcError { code: METHOD_NOT_FOUND, message }
}

/// The capabilities the catalog is trimmed to, from the broker's answer to
/// a health probe: the capabilities the health report gives, or every
/// capability when the probe brought no health report (the calls then go to
/// the broker and fail there as they would have).
pub fn probe_capabilities(probe: Option<BrokerResult>) -> (r: BrokerCapabilities)
    ensures
        match probe {
            Some(BrokerResult::Health(report)) => r == report.capabilities,
            _ => r.kernel_snapshot && r.events_tail && r.trace_control,
        },
{
    match probe {
        Some(BrokerResult::Health(report)) => report.capabilities,
        _ => BrokerCapabilities::full(),
    }
}

/// The broker request for a call of the tool `name` on a guest with the
/// given capabilities: as `tool_request`, except that a known tool the
/// guest cannot serve is refused as unavailable before its arguments are read.
pub fn available_tool_request(name: &str, args: &ToolArguments, caps: &BrokerCapabilities) -> (r: Result<BrokerRequest, CiluxError>)
    ensures
        name@.len() == 0 ==> r == Err::<BrokerRequest, CiluxError>(CiluxError::MissingToolName),
        name@.len() > 0 && (forall|t: Tool| #[trigger] t.name() != name@) ==> (r matches Err(
            CiluxError::UnknownTool { name: n },
        ) && n@ == name@),
        name@.len() > 0 ==> forall|t: Tool| #[trigger] t.name() == name@ ==> {
            &&& !tool_available_spec(t, *caps) ==> (r matches Err(CiluxError::ToolUnavailable { name: n }) && n@ == name@)
            &&& tool_available_spec(t, *caps) ==> tool_outcome(t, *args, r)
        },
{
    if name.is_empty() {
        return Err(CiluxError::MissingToolName);
    }
    let tool = match Tool::from_name(name) {
        Some(t) => t,
        None => return Err(CiluxError::UnknownTool { name: name.to_owned() }),
    };
    proof {
        assert forall|t: Tool| #[trigger] t.name() == name@ implies t == tool by {
            crate::catalog::lemma_tool_names_distinct(t, tool);
        }
    }
    if !tool_available(tool, caps) {
        return Err(CiluxError::ToolUnavailable { name: name.to_owned() });
    }
    tool_request(name, args)
}

/// What a resource read asks the broker for.
#[derive(Debug, Clone, Copy, PartialEq, Eq)]
pub enum ResourceRequest {
    Caps,
    State,
    Events { limit: usize },
    Health,
    System(SystemReadSelector),
}

pub const EVENTS_RESOURCE_PREFIX: &'static str = "cilux://events/";
pub const SYSTEM_RESOURCE_PREFIX: &'static str = "cilux://system/";

/// `r` is what a system resource URI names: the selector published under
/// exactly that URI, or else the selector named by what is left after the
/// leading copies of `cilux://system/`, or the unknown-selector error.
pub open spec fn system_resource_outcome(uri: Seq<char>, r: Result<SystemReadSelector, CiluxError>) -> bool {
    let rest = trim_leading(uri, SYSTEM_RESOURCE_PREFIX@);
    match r {
        Ok(s) => s.uri() == uri || ((forall|x: SystemReadSelector| #[trigger] x.uri() != uri) && s.name() == rest),
        Err(e) => (forall|x: SystemReadSelector| #[trigger] x.uri() != uri)
            && (forall|x: SystemReadSelector| #[trigger] x.name() != rest)
            && e.unknown_system_selector_named(rest),
    }
}

/// The selector a system resource URI names.
pub fn resolve_system_resource(uri: &str) -> (r: Result<SystemReadSelector, CiluxError>)
    ensures
        system_resource_outcome(uri@, r),
{
    let mut i: usize = 0;
    while i < 16
        invariant
            i <= 16,
            forall|k: int| 0 <= k < i ==> #[trigger] SystemReadSelector::all_spec()[k].uri() != uri@,
        decreases 16 - i,
    {
        let selector = SystemReadSelector::ALL[i];
        assert(selector == SystemReadSelector::all_spec()[i as int]);
        if str_eq(selector.resource_uri(), uri) {
            return Ok(selector);
        }
        i = i + 1;
    }
    proof {
        assert forall|x: SystemReadSelector| #[trigger] x.uri() != uri@ by {
            let k = match x {
                SystemReadSelector::Dmesg => 0int,
                SystemReadSelector::ProcCmdline => 1,
                SystemReadSelector::ProcModules => 2,
                SystemReadSelector::ProcVersion => 3,
                SystemReadSelector::ProcMeminfo => 4,
                SystemReadSelector::ProcLoadavg => 5,
                SystemReadSelector::ProcUptime => 6,
                SystemReadSelector::ProcCpuinfo => 7,
                SystemReadSelector::ProcInterrupts => 8,
                SystemReadSelector::ProcSoftirqs => 9,
                SystemReadSelector::ProcVmstat => 10,
                SystemReadSelector::ProcBuddyinfo => 11,
                SystemReadSelector::ProcZoneinfo => 12,
                SystemReadSelector::ProcIomem => 13,
                SystemReadSelector::ProcIoports => 14,
                SystemReadSelector::ProcSlabinfo => 15,
            };
            assert(SystemReadSelector::all_spec()[k] == x);
        }
    }
    let chars = chars_of(uri);
    let prefix = chars_of(SYSTEM_RESOURCE_PREFIX);
    let rest = string_from_chars(crate::text::trim_leading_copies(chars.as_slice(), prefix.as_slice()).as_slice());
    SystemReadSelector::parse(rest.as_str())
}

/// `r` is what a resource URI names: the four fixed resources by their
/// URIs; `cilux://events/` followed by a limit; `cilux://system/` followed
/// by a selector; anything else is unknown.
pub open spec fn resource_outcome(uri: Seq<char>, r: Result<ResourceRequest, CiluxError>) -> bool {
    if uri == "cilux://caps"@ {
        r == Ok::<ResourceRequest, CiluxError>(ResourceRequest::Caps)
    } else if uri == "cilux://state"@ {
        r == Ok::<ResourceRequest, CiluxError>(ResourceRequest::State)
    } else if uri == "cilux://events"@ {
        r == Ok::<ResourceRequest, CiluxError>(ResourceRequest::Events { limit: DEFAULT_EVENT_RESOURCE_LIMIT })
    } else if uri == "cilux://health"@ {
        r == Ok::<ResourceRequest, CiluxError>(ResourceRequest::Health)
    } else if EVENTS_RESOURCE_PREFIX@.is_prefix_of(uri) {
        match parse_usize_spec(trim_leading(uri, EVENTS_RESOURCE_PREFIX@)) {
            Ok(limit) => r == Ok::<ResourceRequest, CiluxError>(ResourceRequest::Events { limit }),
            Err(reason) => r == Err::<ResourceRequest, CiluxError>(CiluxError::InvalidEventLimit { reason }),
        }
    } else if SYSTEM_RESOURCE_PREFIX@.is_prefix_of(uri) {
        match r {
            Ok(ResourceRequest::System(s)) => system_resource_outcome(uri, Ok(s)),
            Err(e) => system_resource_outcome(uri, Err(e)),
            _ => false,
        }
    } else {
        r matches Err(CiluxError::UnknownResource { uri: u }) && u@ == uri
    }
}

/// What a resource URI names.
pub fn resolve_resource(uri: &str) -> (r: Result<ResourceRequest, CiluxError>)
    ensures
        resource_outcome(uri@, r),
{
    if str_eq(uri, "cilux://caps") {
        return Ok(ResourceRequest::Caps);
    }
    if str_eq(uri, "cilux://state") {
        return Ok(ResourceRequest::State);
    }
    if str_eq(uri, "cilux://events") {
        return Ok(ResourceRequest::Events { limit: DEFAULT_EVENT_RESOURCE_LIMIT });
    }
    if str_eq(uri, "cilux://health") {
        return Ok(ResourceRequest::Health);
    }
    let chars = chars_of(uri);
    let events_prefix = chars_of(EVENTS_RESOURCE_PREFIX);
    if has_prefix(chars.as_slice(), events_prefix.as_slice()) {
        let rest = crate::text::trim_leading_copies(chars.as_slice(), events_prefix.as_slice());
        return match parse_usize(rest.as_slice()) {
            Ok(limit) => Ok(ResourceRequest::Events { limit }),
            Err(reason) => Err(CiluxError::InvalidEventLimit { reason }),
        };
    }
    let system_prefix = chars_of(SYSTEM_RESOURCE_PREFIX);
    if has_prefix(chars.as_slice(), system_prefix.as_slice()) {
        let selector = resolve_system_resource(uri)?;
        return Ok(ResourceRequest::System(selector));
    }
    Err(CiluxError::UnknownResource { uri: uri.to_owned() })
}

impl ResourceRequest {
    /// The MIME type the resource is served with.
    pub open spec fn mime(self) -> Seq<char> {
        match self {
            ResourceRequest::Caps => "application/json"@,
            ResourceRequest::State => "application/json"@,
            ResourceRequest::Events { .. } => "application/x-ndjson"@,
            ResourceRequest::Health => "application/json"@,
            ResourceRequest::System(_) => "text/plain"@,
        }
    }

    pub fn mime_type(&self) -> (s: &'static str)
        ensures
            s@ == self.mime(),
    {
        match self {
            ResourceRequest::Caps => "application/json",
            ResourceRequest::State => "application/json",
            ResourceRequest::Events { .. } => "application/x-ndjson",
            ResourceRequest::Health => "application/json",
            ResourceRequest::System(_) => "text/plain",
        }
    }

    /// The broker request that serves the resource: the kernel snapshot
    /// for caps and state, an events tail, health, or a system read.
    pub fn broker_request(&self) -> (r: BrokerRequest)
        ensures
            r == match *self {
                ResourceRequest::Caps => BrokerRequest::KernelSnapshot(KernelSnapshotRequest {}),
                ResourceRequest::State => BrokerRequest::KernelSnapshot(KernelSnapshotRequest {}),
                ResourceRequest::Events { limit } => BrokerRequest::KernelEventsTail(KernelEventsTailRequest { limit }),
                ResourceRequest::Health => BrokerRequest::Health(HealthRequest {}),
                ResourceRequest::System(selector) => BrokerRequest::SystemRead(SystemReadRequest { selector }),
            },
    {
        match self {
            ResourceRequest::Caps => BrokerRequest::KernelSnapshot(KernelSnapshotRequest {}),
            ResourceRequest::State => BrokerRequest::KernelSnapshot(KernelSnapshotRequest {}),
            ResourceRequest::Events { limit } => BrokerRequest::KernelEventsTail(KernelEventsTailRequest { limit: *limit }),
            ResourceRequest::Health => BrokerRequest::Health(HealthRequest {}),
            ResourceRequest::System(selector) => BrokerRequest::SystemRead(SystemReadRequest { selector: *selector }),
        }
    }
}

/// The part of the broker's answer that a resource shows.
#[derive(Debug)]
pub enum ResourceBody {
    /// One JSON document, shown pretty-printed.
    Document(serde_json::Value),
    /// The whole broker result, shown pretty-printed.
    Result(BrokerResult),
    /// Events, shown one compact JSON document per line.
    Events(Vec<serde_json::Value>),
    /// Plain text, shown as it is.
    Text(String),
}

/// Picks out what the resource shows from the broker's result: the caps or
/// the state document of a snapshot, the events of a tail, the whole
/// health result, the text of a system read. A result of another kind
/// than the resource's request asked for is refused.
pub fn resource_body(request: ResourceRequest, result: BrokerResult) -> (r: Result<ResourceBody, CiluxError>)
    ensures
        match (request, result) {
            (ResourceRequest::Caps, BrokerResult::KernelSnapshot(s)) => r matches Ok(ResourceBody::Document(v)) && v == s.caps,
            (ResourceRequest::State, BrokerResult::KernelSnapshot(s)) => r matches Ok(ResourceBody::Document(v)) && v == s.state,
            (ResourceRequest::Events { .. }, BrokerResult::KernelEventsTail(t)) => r matches Ok(ResourceBody::Events(es)) && es == t.events,
            (ResourceRequest::Health, _) => r matches Ok(ResourceBody::Result(x)) && x == result,
            (ResourceRequest::System(_), BrokerResult::SystemRead(sr)) => r matches Ok(ResourceBody::Text(text)) && text == sr.text,
            _ => r == Err::<ResourceBody, CiluxError>(CiluxError::UnexpectedBrokerResultKind),
        },
{
    match request {
        ResourceRequest::Caps => match result {
            BrokerResult::KernelSnapshot(snapshot) => Ok(ResourceBody::Document(snapshot.caps)),
            _ => Err(CiluxError::UnexpectedBrokerResultKind),
        },
        ResourceRequest::State => match result {
            BrokerResult::KernelSnapshot(snapshot) => Ok(ResourceBody::Document(snapshot.state)),
            _ => Err(CiluxError::UnexpectedBrokerResultKind),
        },
        ResourceRequest::Events { .. } => match result {
            BrokerResult::KernelEventsTail(tail) => Ok(ResourceBody::Events(tail.events)),
            _ => Err(CiluxError::UnexpectedBrokerResultKind),
        },
        ResourceRequest::Health => Ok(ResourceBody::Result(result)),
        ResourceRequest::System(_) => match result {
            BrokerResult::SystemRead(read) => Ok(ResourceBody::Text(read.text)),
            _ => Err(CiluxError::UnexpectedBrokerResultKind),
        },
    }
}

/// A selector's resource URI is `cilux://system/` followed by its name.
pub proof fn lemma_selector_uri_is_prefixed_name(x: SystemReadSelector)
    ensures
        x.uri() == SYSTEM_RESOURCE_PREFIX@ + x.name(),
{
    reveal_strlit("cilux://system/");
    match x {
        SystemReadSelector::Dmesg => {
            reveal_strlit("dmesg");
            reveal_strlit("cilux://system/dmesg");
            assert(x.uri() =~= SYSTEM_RESOURCE_PREFIX@ + x.name());
        },
        SystemReadSelector::ProcCmdline => {
            reveal_strlit("proc_cmdline");
            reveal_strlit("cilux://system/proc_cmdline");
            assert(x.uri() =~= SYSTEM_RESOURCE_PREFIX@ + x.name());
        },
        SystemReadSelector::ProcModules => {
            reveal_strlit("proc_modules");
            reveal_strlit("cilux://system/proc_modules");
            assert(x.uri() =~= SYSTEM_RESOURCE_PREFIX@ + x.name());
        },
        SystemReadSelector::ProcVersion => {
            reveal_strlit("proc_version");
            reveal_strlit("cilux://system/proc_version");
            assert(x.uri() =~= SYSTEM_RESOURCE_PREFIX@ + x.name());
        },
        SystemReadSelector::ProcMeminfo => {
            reveal_strlit("proc_meminfo");
            reveal_strlit("cilux://system/proc_meminfo");
            assert(x.uri() =~= SYSTEM_RESOURCE_PREFIX@ + x.name());
        },
        SystemReadSelector::ProcLoadavg => {
            reveal_strlit("proc_loadavg");
            reveal_strlit("cilux://system/proc_loadavg");
            assert(x.uri() =~= SYSTEM_RESOURCE_PREFIX@ + x.name());
        },
        SystemReadSelector::ProcUptime => {
            reveal_strlit("proc_uptime");
            reveal_strlit("cilux://system/proc_uptime");
            assert(x.uri() =~= SYSTEM_RESOURCE_PREFIX@ + x.name());
        },
        SystemReadSelector::ProcCpuinfo => {
            reveal_strlit("proc_cpuinfo");
            reveal_strlit("cilux://system/proc_cpuinfo");
            assert(x.uri() =~= SYSTEM_RESOURCE_PREFIX@ + x.name());
        },
        SystemReadSelector::ProcInterrupts => {
            reveal_strlit("proc_interrupts");
            reveal_strlit("cilux://system/proc_interrupts");
            assert(x.uri() =~= SYSTEM_RESOURCE_PREFIX@ + x.name());
        },
        SystemReadSelector::ProcSoftirqs => {
            reveal_strlit("proc_softirqs");
            reveal_strlit("cilux://system/proc_softirqs");
            assert(x.uri() =~= SYSTEM_RESOURCE_PREFIX@ + x.name());
        },
        SystemReadSelector::ProcVmstat => {
            reveal_strlit("proc_vmstat");
            reveal_strlit("cilux://system/proc_vmstat");
            assert(x.uri() =~= SYSTEM_RESOURCE_PREFIX@ + x.name());
        },
        SystemReadSelector::ProcBuddyinfo => {
            reveal_strlit("proc_buddyinfo");
            reveal_strlit("cilux://system/proc_buddyinfo");
            assert(x.uri() =~= SYSTEM_RESOURCE_PREFIX@ + x.name());
        },
        SystemReadSelector::ProcZoneinfo => {
            reveal_strlit("proc_zoneinfo");
            reveal_strlit("cilux://system/proc_zoneinfo");
            assert(x.uri() =~= SYSTEM_RESOURCE_PREFIX@ + x.name());
        },
        SystemReadSelector::ProcIomem => {
            reveal_strlit("proc_iomem");
            reveal_strlit("cilux://system/proc_iomem");
            assert(x.uri() =~= SYSTEM_RESOURCE_PREFIX@ + x.name());
        },
        SystemReadSelector::ProcIoports => {
            reveal_strlit("proc_ioports");
            reveal_strlit("cilux://system/proc_ioports");
            assert(x.uri() =~= SYSTEM_RESOURCE_PREFIX@ + x.name());
        },
        SystemReadSelector::ProcSlabinfo => {
            reveal_strlit("proc_slabinfo");
            reveal_strlit("cilux://system/proc_slabinfo");
            assert(x.uri() =~= SYSTEM_RESOURCE_PREFIX@ + x.name());
        },
    }
}

/// Distinct selectors are published under distinct URIs.
pub proof fn lemma_selector_uris_distinct(x: SystemReadSelector, y: SystemReadSelector)
    ensures
        x.uri() == y.uri() ==> x == y,
{
    lemma_selector_uri_is_prefixed_name(x);
    lemma_selector_uri_is_prefixed_name(y);
    if x.uri() == y.uri() {
        let n = SYSTEM_RESOURCE_PREFIX@.len() as int;
        assert(x.name() =~= x.uri().skip(n));
        assert(y.name() =~= y.uri().skip(n));
        crate::protocol::lemma_system_read_selector_names_distinct(x, y);
    }
}

/// Reading the resource published for a selector asks for that selector.
pub proof fn lemma_selector_resource_resolves(x: SystemReadSelector, r: Result<ResourceRequest, CiluxError>)
    requires
        resource_outcome(x.uri(), r),
    ensures
        r == Ok::<ResourceRequest, CiluxError>(ResourceRequest::System(x)),
{
    lemma_selector_uri_is_prefixed_name(x);
    reveal_strlit("cilux://system/");
    reveal_strlit("cilux://events/");
    reveal_strlit("cilux://caps");
    reveal_strlit("cilux://state");
    reveal_strlit("cilux://events");
    reveal_strlit("cilux://health");
    let u = x.uri();
    assert(u.len() > 14);
    assert(u[8] == 's');
    assert(!EVENTS_RESOURCE_PREFIX@.is_prefix_of(u)) by {
        assert(EVENTS_RESOURCE_PREFIX@[8] == 'e');
    }
    assert(SYSTEM_RESOURCE_PREFIX@.is_prefix_of(u)) by {
        assert(u.subrange(0, SYSTEM_RESOURCE_PREFIX@.len() as int) =~= SYSTEM_RESOURCE_PREFIX@);
    }
    match r {
        Ok(ResourceRequest::System(s)) => {
            if s.uri() != u {
                assert(false);
            }
            lemma_selector_uris_distinct(s, x);
        },
        _ => {},
    }
}

/// A successful call of a tool asks the broker for the method the tool is
/// named after: the tool's name is `cilux_` followed by the method's name,
/// except that `cilux_events_tail` asks for `kernel_events_tail`.
pub proof fn lemma_tool_request_method(t: Tool, args: ToolArguments, req: BrokerRequest)
    requires
        tool_outcome(t, args, Ok(req)),
    ensures
        t.name() == "cilux_"@ + crate::broker::method_name(req)
            || (t.name() == "cilux_events_tail"@ && crate::broker::method_name(req) == "kernel_events_tail"@),
{
    reveal_strlit("cilux_");
    reveal_strlit("cilux_kernel_snapshot");
    reveal_strlit("kernel_snapshot");
    reveal_strlit("cilux_events_tail");
    reveal_strlit("kernel_events_tail");
    reveal_strlit("cilux_trace_configure");
    reveal_strlit("trace_configure");
    reveal_strlit("cilux_trace_status");
    reveal_strlit("trace_status");
    reveal_strlit("cilux_trace_enable");
    reveal_strlit("trace_enable");
    reveal_strlit("cilux_trace_disable");
    reveal_strlit("trace_disable");
    reveal_strlit("cilux_trace_reset_default");
    reveal_strlit("trace_reset_default");
    reveal_strlit("cilux_health");
    reveal_strlit("health");
    reveal_strlit("cilux_buffer_clear");
    reveal_strlit("buffer_clear");
    reveal_strlit("cilux_system_read");
    reveal_strlit("system_read");
    let m = crate::broker::method_name(req);
    match t {
        Tool::KernelSnapshot => assert(t.name() =~= "cilux_"@ + m),
        Tool::EventsTail => {},
        Tool::TraceConfigure => assert(t.name() =~= "cilux_"@ + m),
        Tool::TraceStatus => assert(t.name() =~= "cilux_"@ + m),
        Tool::TraceEnable => assert(t.name() =~= "cilux_"@ + m),
        Tool::TraceDisable => assert(t.name() =~= "cilux_"@ + m),
        Tool::TraceResetDefault => assert(t.name() =~= "cilux_"@ + m),
        Tool::Health => assert(t.name() =~= "cilux_"@ + m),
        Tool::BufferClear => assert(t.name() =~= "cilux_"@ + m),
        Tool::SystemRead => assert(t.name() =~= "cilux_"@ + m),
    }
}

/// Distinct tools ask the broker for distinct methods.
pub proof fn lemma_tools_ask_distinct_methods(
    t: Tool,
    u: Tool,
    args_t: ToolArguments,
    args_u: ToolArguments,
    req_t: BrokerRequest,
    req_u: BrokerRequest,
)
    requires
        tool_outcome(t, args_t, Ok(req_t)),
        tool_outcome(u, args_u, Ok(req_u)),
        t != u,
    ensures
        crate::broker::method_name(req_t) != crate::broker::method_name(req_u),
{
    lemma_tool_request_method(t, args_t, req_t);
    lemma_tool_request_method(u, args_u, req_u);
    crate::catalog::lemma_tool_names_distinct(t, u);
    reveal_strlit("cilux_");
    reveal_strlit("cilux_events_tail");
    reveal_strlit("kernel_events_tail");
    let mt = crate::broker::method_name(req_t);
    let mu = crate::broker::method_name(req_u);
    if mt == mu {
        if t.name() == "cilux_"@ + mt && u.name() == "cilux_"@ + mu {
            assert(t.name() == u.name());
        } else if t.name() == "cilux_events_tail"@ && mt == "kernel_events_tail"@ {
            if u.name() == "cilux_"@ + mu {
                assert(u.name()[6] == 'k');
                assert(u.name().len() == 24);
                crate::catalog::lemma_tool_name_lengths(u);
            }
        } else {
            if t.name() == "cilux_"@ + mt {
                assert(t.name()[6] == 'k');
                assert(t.name().len() == 24);
                crate::catalog::lemma_tool_name_lengths(t);
            }
        }
    }
}

/// Reading a resource the catalog lists serves it with the MIME type the
/// catalog lists for it.
pub proof fn lemma_read_mime_matches_catalog(i: int, r: Result<ResourceRequest, CiluxError>)
    requires
        0 <= i < crate::catalog::resources_spec().len(),
        resource_outcome(crate::catalog::resources_spec()[i].0, r),
    ensures
        r matches Ok(req) && req.mime() == crate::catalog::resources_spec()[i].3,
{
    reveal_strlit("cilux://caps");
    reveal_strlit("cilux://state");
    reveal_strlit("cilux://events");
    reveal_strlit("cilux://health");
    let base = crate::catalog::base_resources_spec();
    if i < 4 {
        assert(crate::catalog::resources_spec()[i] == base[i]);
        assert("cilux://caps"@.len() == 12 && "cilux://state"@.len() == 13);
        assert("cilux://events"@.len() == 14 && "cilux://health"@.len() == 14);
        assert("cilux://events"@[8] != "cilux://health"@[8]);
        if i == 0 {
            assert(r == Ok::<ResourceRequest, CiluxError>(ResourceRequest::Caps));
        } else if i == 1 {
            assert(r == Ok::<ResourceRequest, CiluxError>(ResourceRequest::State));
        } else if i == 2 {
            assert(r == Ok::<ResourceRequest, CiluxError>(ResourceRequest::Events { limit: DEFAULT_EVENT_RESOURCE_LIMIT }));
        } else {
            assert(r == Ok::<ResourceRequest, CiluxError>(ResourceRequest::Health));
        }
    } else {
        let x = SystemReadSelector::all_spec()[i - 4];
        assert(crate::catalog::resources_spec()[i] == crate::catalog::selector_resource(x));
        lemma_selector_resource_resolves(x, r);
    }
}

/// A read through a resource template is served with the MIME type the
/// catalog lists for that template.
pub proof fn lemma_template_mime_matches_catalog(uri: Seq<char>, r: Result<ResourceRequest, CiluxError>)
    requires
        resource_outcome(uri, r),
        EVENTS_RESOURCE_PREFIX@.is_prefix_of(uri) || SYSTEM_RESOURCE_PREFIX@.is_prefix_of(uri),
    ensures
        r matches Ok(req) ==> {
            &&& EVENTS_RESOURCE_PREFIX@.is_prefix_of(uri) ==> req.mime() == crate::catalog::templates_spec()[0].3
            &&& SYSTEM_RESOURCE_PREFIX@.is_prefix_of(uri) ==> req.mime() == crate::catalog::templates_spec()[1].3
        },
{
    reveal_strlit("cilux://caps");
    reveal_strlit("cilux://state");
    reveal_strlit("cilux://events");
    reveal_strlit("cilux://health");
    reveal_strlit("cilux://events/");
    reveal_strlit("cilux://system/");
    if EVENTS_RESOURCE_PREFIX@.is_prefix_of(uri) {
        assert(uri.len() >= 15);
        assert(uri.subrange(0, 15) =~= EVENTS_RESOURCE_PREFIX@);
        assert(uri[8] == uri.subrange(0, 15)[8]);
        assert(uri[8] == 'e');
        assert(!SYSTEM_RESOURCE_PREFIX@.is_prefix_of(uri)) by {
            assert(SYSTEM_RESOURCE_PREFIX@[8] == 's');
        }
        assert(uri != "cilux://caps"@ && uri != "cilux://state"@ && uri != "cilux://health"@) by {
            assert(uri[8] == 'e');
        }
        assert(uri != "cilux://events"@) by {
            assert("cilux://events"@.len() == 14);
        }
    } else {
        assert(uri.len() >= 15);
        assert(uri.subrange(0, 15) =~= SYSTEM_RESOURCE_PREFIX@);
        assert(uri[8] == uri.subrange(0, 15)[8]);
        assert(uri[8] == 's');
        assert(uri != "cilux://state"@) by {
            assert("cilux://state"@.len() == 13);
        }
    }
}

} // verus!
