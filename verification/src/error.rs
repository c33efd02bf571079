//! The library's error type and the text each error is reported with.

use vstd::prelude::*;
use crate::protocol::TraceCategory;
use crate::text::{decimal, push_decimal};

verus! {

/// Why an operation of the library was refused.
#[derive(Debug, Clone, PartialEq, Eq)]
pub enum CiluxError {
    /// A system-read selector name that no selector has.
    UnknownSystemSelector { selector: String },
    /// A trace category name that no category has.
    UnknownTraceCategory { category: String },
    /// A trace enable or disable request that names no category.
    EmptyTraceCategories,
    /// A trace enable or disable request that names categories the kernel
    /// does not support; they are listed in the order of `TraceCategory::ALL`.
    UnsupportedTraceCategories { categories: Vec<TraceCategory> },
    /// The broker answered with an error.
    Broker { code: String, message: String },
    /// The broker answered with a result of another kind than was asked for.
    UnexpectedResultKind,
    /// A debugfs JSON file that does not parse; `cause` is the parser's report.
    ParseFile { path: String, cause: String },
    /// An event line that does not parse as JSON; `cause` is the parser's report.
    ParseEventLine { line: String, cause: String },
    /// A Netlink reply shorter than its header.
    ShortResponse,
    /// The kernel answered with a Netlink error message.
    KernelReturnedError,
    /// A Netlink reply shorter than its Generic Netlink header.
    ShortGenericResponse,
    /// A reply lacks an attribute that its command returns.
    MissingAttribute(MissingAttribute),
    /// The kernel answered a ping with a status other than 1.
    UnexpectedPingStatus { status: u32 },
    /// An MCP tool call without a tool name.
    MissingToolName,
    /// An MCP tool call naming no tool of the catalog.
    UnknownTool { name: String },
    /// An MCP tool call naming a tool that this guest cannot serve.
    ToolUnavailable { name: String },
    /// An MCP system-read call without a selector string.
    MissingSelector,
    /// An MCP trace call without a categories array.
    MissingCategories,
    /// An MCP trace call with an empty categories array.
    EmptyCategories,
    /// An MCP trace call whose categories array holds something other than a string.
    CategoriesNotStrings,
    /// An MCP resource URI that names no resource.
    UnknownResource { uri: String },
    /// An events resource URI whose limit is not a `usize`.
    InvalidEventLimit { reason: IntErrorKind },
    /// A JSON-RPC request line that is not JSON; `cause` is the parser's report.
    InvalidRpcRequest { cause: String },
    /// A broker result of another kind than the resource asked for.
    UnexpectedBrokerResultKind,
    /// A step of a broker request was handed an outcome that answers
    /// another action than the one it asked for.
    UnexpectedKernelEvent,
}

/// Which attribute a Netlink reply lacked.
#[derive(Debug, Clone, Copy, PartialEq, Eq)]
pub enum MissingAttribute {
    PingStatus,
    SupportedMask,
    RingCapacity,
    TraceMask,
    DropCount,
    EventCount,
    TraceMaskInReply,
    EventCountInClearReply,
    FamilyId,
}

/// Why text is not a decimal integer of the wanted type.
#[derive(Debug, Clone, Copy, PartialEq, Eq)]
pub enum IntErrorKind {
    Empty,
    InvalidDigit,
    PosOverflow,
}

impl IntErrorKind {
    /// The text std reports for this kind of integer parse failure.
    pub open spec fn text(self) -> Seq<char> {
        match self {
            IntErrorKind::Empty => "cannot parse integer from empty string"@,
            IntErrorKind::InvalidDigit => "invalid digit found in string"@,
            IntErrorKind::PosOverflow => "number too large to fit in target type"@,
        }
    }

    pub fn as_str(self) -> (s: &'static str)
        ensures
            s@ == self.text(),
    {
        match self {
            IntErrorKind::Empty => "cannot parse integer from empty string",
            IntErrorKind::InvalidDigit => "invalid digit found in string",
            IntErrorKind::PosOverflow => "number too large to fit in target type",
        }
    }
}

impl MissingAttribute {
    /// The report for a reply that lacks this attribute.
    pub open spec fn text(self) -> Seq<char> {
        match self {
            MissingAttribute::PingStatus => "status missing from ping"@,
            MissingAttribute::SupportedMask => "supported mask missing"@,
            MissingAttribute::RingCapacity => "ring capacity missing"@,
            MissingAttribute::TraceMask => "trace mask missing"@,
            MissingAttribute::DropCount => "drop count missing"@,
            MissingAttribute::EventCount => "event count missing"@,
            MissingAttribute::TraceMaskInReply => "trace mask missing from response"@,
            MissingAttribute::EventCountInClearReply => "event count missing from clear reply"@,
            MissingAttribute::FamilyId => "family id missing from ctrl reply"@,
        }
    }

    pub fn as_str(self) -> (s: &'static str)
        ensures
            s@ == self.text(),
    {
        match self {
            MissingAttribute::PingStatus => "status missing from ping",
            MissingAttribute::SupportedMask => "supported mask missing",
            MissingAttribute::RingCapacity => "ring capacity missing",
            MissingAttribute::TraceMask => "trace mask missing",
            MissingAttribute::DropCount => "drop count missing",
            MissingAttribute::EventCount => "event count missing",
            MissingAttribute::TraceMaskInReply => "trace mask missing from response",
            MissingAttribute::EventCountInClearReply => "event count missing from clear reply",
            MissingAttribute::FamilyId => "family id missing from ctrl reply",
        }
    }
}

/// The names of the categories, separated by `", "`.
pub open spec fn names_joined(categories: Seq<TraceCategory>) -> Seq<char>
    decreases categories.len(),
{
    if categories.len() == 0 {
        Seq::empty()
    } else if categories.len() == 1 {
        categories[0].name()
    } else {
        names_joined(categories.drop_last()) + ", "@ + categories.last().name()
    }
}

impl CiluxError {
    /// This error reports the unknown system-read selector `name`.
    pub open spec fn unknown_system_selector_named(self, name: Seq<char>) -> bool {
        self matches CiluxError::UnknownSystemSelector { selector } && selector@ == name
    }

    /// This error reports the unknown trace category `name`.
    pub open spec fn unknown_trace_category_named(self, name: Seq<char>) -> bool {
        self matches CiluxError::UnknownTraceCategory { category } && category@ == name
    }

    /// The one-line report of the error.
    pub open spec fn text(self) -> Seq<char> {
        match self {
            CiluxError::UnknownSystemSelector { selector } => "unknown system selector `"@ + selector@ + "`"@,
            CiluxError::UnknownTraceCategory { category } => "unknown trace category `"@ + category@ + "`"@,
            CiluxError::EmptyTraceCategories => "trace categories must not be empty"@,
            CiluxError::UnsupportedTraceCategories { categories } =>
                "unsupported trace categories requested: "@ + names_joined(categories@),
            CiluxError::Broker { code, message } => code@ + ": "@ + message@,
            CiluxError::UnexpectedResultKind => "broker returned an unexpected result kind"@,
            CiluxError::ParseFile { path, cause } => "parse "@ + path@,
            CiluxError::ParseEventLine { line, cause } => "parse event line `"@ + line@ + "`"@,
            CiluxError::ShortResponse => "short netlink response"@,
            CiluxError::KernelReturnedError => "kernel returned NLMSG_ERROR"@,
            CiluxError::ShortGenericResponse => "short generic netlink response"@,
            CiluxError::MissingAttribute(m) => m.text(),
            CiluxError::UnexpectedPingStatus { status } => "unexpected ping status "@ + decimal(status as nat),
            CiluxError::MissingToolName => "missing tool name"@,
            CiluxError::UnknownTool { name } => "unknown tool `"@ + name@ + "`"@,
            CiluxError::ToolUnavailable { name } => "tool `"@ + name@ + "` is unavailable in the current guest mode"@,
            CiluxError::MissingSelector => "missing selector"@,
            CiluxError::MissingCategories => "missing categories"@,
            CiluxError::EmptyCategories => "categories must not be empty"@,
            CiluxError::CategoriesNotStrings => "categories must be strings"@,
            CiluxError::UnknownResource { uri } => "unknown resource `"@ + uri@ + "`"@,
            CiluxError::InvalidEventLimit { reason } => "parse event limit from resource URI"@,
            CiluxError::InvalidRpcRequest { cause } => "parse JSON-RPC request"@,
            CiluxError::UnexpectedBrokerResultKind => "unexpected broker result kind"@,
            CiluxError::UnexpectedKernelEvent => "unexpected kernel event"@,
        }
    }

    /// The report with the underlying causes appended, each after `": "`.
    pub open spec fn text_with_causes(self) -> Seq<char> {
        match self {
            CiluxError::ParseFile { path, cause } => self.text() + ": "@ + cause@,
            CiluxError::ParseEventLine { line, cause } => self.text() + ": "@ + cause@,
            CiluxError::InvalidEventLimit { reason } => self.text() + ": "@ + reason.text(),
            CiluxError::InvalidRpcRequest { cause } => self.text() + ": "@ + cause@,
            _ => self.text(),
        }
    }

    /// The one-line report of the error.
    pub fn message(&self) -> (s: String)
        ensures
            s@ == self.text(),
    {
        let mut s = String::new();
        match self {
            CiluxError::UnknownSystemSelector { selector } => {
                s.append("unknown system selector `");
                s.append(selector.as_str());
                s.append("`");
            },
            CiluxError::UnknownTraceCategory { category } => {
                s.append("unknown trace category `");
                s.append(category.as_str());
                s.append("`");
            },
            CiluxError::EmptyTraceCategories => s.append("trace categories must not be empty"),
            CiluxError::UnsupportedTraceCategories { categories } => {
                s.append("unsupported trace categories requested: ");
                push_names_joined(&mut s, categories.as_slice());
            },
            CiluxError::Broker { code, message } => {
                s.append(code.as_str());
                s.append(": ");
                s.append(message.as_str());
            },
            CiluxError::UnexpectedResultKind => s.append("broker returned an unexpected result kind"),
            CiluxError::ParseFile { path, cause } => {
                s.append("parse ");
                s.append(path.as_str());
            },
            CiluxError::ParseEventLine { line, cause } => {
                s.append("parse event line `");
                s.append(line.as_str());
                s.append("`");
            },
            CiluxError::ShortResponse => s.append("short netlink response"),
            CiluxError::KernelReturnedError => s.append("kernel returned NLMSG_ERROR"),
            CiluxError::ShortGenericResponse => s.append("short generic netlink response"),
            CiluxError::MissingAttribute(m) => s.append(m.as_str()),
            CiluxError::UnexpectedPingStatus { status } => {
                s.append("unexpected ping status ");
                push_decimal(&mut s, *status as u64);
            },
            CiluxError::MissingToolName => s.append("missing tool name"),
            CiluxError::UnknownTool { name } => {
                s.append("unknown tool `");
                s.append(name.as_str());
                s.append("`");
            },
            CiluxError::ToolUnavailable { name } => {
                s.append("tool `");
                s.append(name.as_str());
                s.append("` is unavailable in the current guest mode");
            },
            CiluxError::MissingSelector => s.append("missing selector"),
            CiluxError::MissingCategories => s.append("missing categories"),
            CiluxError::EmptyCategories => s.append("categories must not be empty"),
            CiluxError::CategoriesNotStrings => s.append("categories must be strings"),
            CiluxError::UnknownResource { uri } => {
                s.append("unknown resource `");
                s.append(uri.as_str());
                s.append("`");
            },
            CiluxError::InvalidEventLimit { reason } => s.append("parse event limit from resource URI"),
            CiluxError::InvalidRpcRequest { cause } => s.append("parse JSON-RPC request"),
            CiluxError::UnexpectedBrokerResultKind => s.append("unexpected broker result kind"),
            CiluxError::UnexpectedKernelEvent => s.append("unexpected kernel event"),
        }
        assert(s@ =~= self.text());
        s
    }

    /// The report with the underlying causes appended, each after `": "`.
    pub fn message_with_causes(&self) -> (s: String)
        ensures
            s@ == self.text_with_causes(),
    {
        let mut s = self.message();
        match self {
            CiluxError::ParseFile { path, cause } => {
                s.append(": ");
                s.append(cause.as_str());
            },
            CiluxError::ParseEventLine { line, cause } => {
                s.append(": ");
                s.append(cause.as_str());
            },
            CiluxError::InvalidEventLimit { reason } => {
                s.append(": ");
                s.append(reason.as_str());
            },
            CiluxError::InvalidRpcRequest { cause } => {
                s.append(": ");
                s.append(cause.as_str());
            },
            _ => {},
        }
        s
    }
}

/// Appends the names of the categories, separated by `", "`.
fn push_names_joined(s: &mut String, categories: &[TraceCategory])
    ensures
        final(s)@ == old(s)@ + names_joined(categories@),
{
    let ghost start = s@;
    let mut i: usize = 0;
    while i < categories.len()
        invariant
            i <= categories@.len(),
            s@ == start + names_joined(categories@.take(i as int)),
        decreases categories@.len() - i,
    {
        let ghost before = s@;
        if i != 0 {
            s.append(", ");
        }
        s.append(categories[i].as_str());
        proof {
            let t = categories@.take(i + 1);
            assert(t.drop_last() =~= categories@.take(i as int));
            if i == 0 {
                assert(names_joined(categories@.take(0)) =~= Seq::<char>::empty());
                assert(s@ =~= start + names_joined(t));
            } else {
                assert(s@ =~= start + names_joined(t));
            }
        }
        i = i + 1;
    }
    assert(categories@.take(categories@.len() as int) =~= categories@);
}

} // verus!
