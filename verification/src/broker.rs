//! The broker's bookkeeping around a request: the method name it is
//! audited under, and the answer an outcome becomes.

use vstd::prelude::*;
use crate::protocol::{BrokerError, BrokerRequest, BrokerResponse, BrokerResult};

verus! {

/// The method name of a request, as it is audited and named on the wire.
pub open spec fn method_name(request: BrokerRequest) -> Seq<char> {
    match request {
        BrokerRequest::KernelSnapshot(_) => "kernel_snapshot"@,
        BrokerRequest::KernelEventsTail(_) => "kernel_events_tail"@,
        BrokerRequest::TraceConfigure(_) => "trace_configure"@,
        BrokerRequest::TraceStatus(_) => "trace_status"@,
        BrokerRequest::TraceEnable(_) => "trace_enable"@,
        BrokerRequest::TraceDisable(_) => "trace_disable"@,
        BrokerRequest::TraceResetDefault(_) => "trace_reset_default"@,
        BrokerRequest::BufferClear(_) => "buffer_clear"@,
        BrokerRequest::Health(_) => "health"@,
        BrokerRequest::SystemRead(_) => "system_read"@,
    }
}

/// The method name of a request.
pub fn request_method(request: &BrokerRequest) -> (s: &'static str)
    ensures
        s@ == method_name(*request),
{
    match request {
        BrokerRequest::KernelSnapshot(_) => "kernel_snapshot",
        BrokerRequest::KernelEventsTail(_) => "kernel_events_tail",
        BrokerRequest::TraceConfigure(_) => "trace_configure",
        BrokerRequest::TraceStatus(_) => "trace_status",
        BrokerRequest::TraceEnable(_) => "trace_enable",
        BrokerRequest::TraceDisable(_) => "trace_disable",
        BrokerRequest::TraceResetDefault(_) => "trace_reset_default",
        BrokerRequest::BufferClear(_) => "buffer_clear",
        BrokerRequest::Health(_) => "health",
        BrokerRequest::SystemRead(_) => "system_read",
    }
}

/// The answer to a request that was carried out: its result, or the
/// error code `request_failed` with the failure's one-line report.
pub fn dispatch_outcome(outcome: Result<BrokerResult, String>) -> (r: BrokerResponse)
    ensures
        match outcome {
            Ok(result) => r == BrokerResponse::Success { result },
            Err(message) => r matches BrokerResponse::Error { error } && error.code@ == "request_failed"@
                && error.message == message,
        },
{
    match outcome {
        Ok(result) => BrokerResponse::Success { result },
        Err(message) => BrokerResponse::Error {
            error: BrokerError { code: "request_failed".to_owned(), message },
        },
    }
}

/// The answer to a line that is not a request: the error code
/// `bad_request` with `invalid request JSON: ` and the parser's report.
pub fn bad_request(detail: &str) -> (r: BrokerResponse)
    ensures
        r matches BrokerResponse::Error { error } && error.code@ == "bad_request"@
            && error.message@ == "invalid request JSON: "@ + detail@,
{
    let mut message = "invalid request JSON: ".to_owned();
    message.append(detail);
    BrokerResponse::Error { error: BrokerError { code: "bad_request".to_owned(), message } }
}

/// Requests of different methods are audited under different names.
pub proof fn lemma_method_names_distinct(a: BrokerRequest, b: BrokerRequest)
    ensures
        method_name(a) == method_name(b) ==> method_rank(a) == method_rank(b),
{
    reveal_strlit("kernel_snapshot");
    reveal_strlit("kernel_events_tail");
    reveal_strlit("trace_configure");
    reveal_strlit("trace_status");
    reveal_strlit("trace_enable");
    reveal_strlit("trace_disable");
    reveal_strlit("trace_reset_default");
    reveal_strlit("buffer_clear");
    reveal_strlit("health");
    reveal_strlit("system_read");
    if method_name(a) == method_name(b) {
        assert(method_name(a).len() == method_name(b).len());
        assert(method_name(a)[0] == method_name(b)[0]);
        assert(method_name(a)[6] == method_name(b)[6]);
        assert(method_name(a)[7] == method_name(b)[7]);
    }
}

/// The position of a request's method among the ten methods.
pub open spec fn method_rank(request: BrokerRequest) -> int {
    match request {
        BrokerRequest::KernelSnapshot(_) => 0,
        BrokerRequest::KernelEventsTail(_) => 1,
        BrokerRequest::TraceConfigure(_) => 2,
        BrokerRequest::TraceStatus(_) => 3,
        BrokerRequest::TraceEnable(_) => 4,
        BrokerRequest::TraceDisable(_) => 5,
        BrokerRequest::TraceResetDefault(_) => 6,
        BrokerRequest::BufferClear(_) => 7,
        BrokerRequest::Health(_) => 8,
        BrokerRequest::SystemRead(_) => 9,
    }
}

} // verus!
