//! How the broker carries out a request, one kernel action at a time.
//!
//! The broker's daemon runs a loop: it hands `broker_step` the request, the
//! phase the request is in and the outcome of the last action, performs the
//! action it gets back (read a file, run `dmesg`, send a Netlink command,
//! probe the guest's health) and hands back what came of it, until the
//! action is `Done` or `Fail`. A failure of the action itself ends the
//! request with that failure. The only actions that change the kernel are
//! `SetTraceMask`, for the four trace-control requests, and `ClearEvents`,
//! for a buffer clear.

use vstd::prelude::*;
use crate::error::CiluxError;
use crate::json::{json_document, json_refusal, parse_json_file};
use crate::kernel::{
    configure_outcome, disable_outcome, enable_outcome, events_tail_outcome, is_health_report, is_status_of,
    joined_path, system_read_file, system_read_path, KernelFacade,
};
use crate::netlink::{
    clear_events, clear_events_spec, get_state, set_trace_mask, set_trace_mask_spec, state_spec, ByteOrder,
    KernelCommand,
};
use crate::kernel::unsupported_bits;
use crate::protocol::{mask_of, BrokerRequest, BrokerResult, KernelSnapshot, TRACE_DEFAULT_MASK};

verus! {

/// Where a request stands between two actions.
#[derive(Debug)]
pub enum Phase {
    /// Nothing has been done yet.
    Start,
    /// The caps file of a snapshot is being read.
    ReadingCaps,
    /// The caps document was parsed; the state file is being read.
    ReadingState { caps: serde_json::Value },
    /// The events file is being read.
    ReadingEvents,
    /// A new trace mask is being written.
    WritingMask,
    /// A configured mask was applied; the state file is being read.
    ReadingConfiguredState { applied: u32 },
    /// The kernel state is being queried before any change.
    QueryingState,
    /// The kernel state is being queried after a mask was written.
    RequeryingState,
    /// The event ring is being cleared.
    Clearing,
    /// The guest's health is being probed.
    Probing,
    /// A system-read file or `dmesg` is being read.
    ReadingSystem,
    /// The request has its answer.
    Finished,
}

/// What the daemon is to do next for a request.
#[derive(Debug)]
pub enum KernelAction {
    /// Read the text file at `path`; a failure to read it is reported
    /// with `context`.
    ReadFile { path: String, context: String },
    /// Run `dmesg` and take its output.
    RunDmesg,
    /// Send the command to the Cilux Generic Netlink family and take the reply.
    Netlink(KernelCommand),
    /// Check which debugfs files exist and whether the kernel answers a ping.
    ProbeHealth,
    /// The request succeeded with this result.
    Done(BrokerResult),
    /// The request failed with this error.
    Fail(CiluxError),
}

/// What came of the last action.
#[derive(Debug)]
pub enum KernelEvent {
    /// No action yet: the request has just arrived.
    Begin,
    /// The text a file read or `dmesg` gave.
    Text(String),
    /// The bytes of the reply to a Netlink command.
    Reply(Vec<u8>),
    /// The outcome of a health probe, with the broker's pid and socket path.
    Probe {
        broker_pid: u32,
        socket_path: String,
        caps_exists: bool,
        state_exists: bool,
        events_exists: bool,
        netlink_ready: bool,
    },
}

/// `a` reads the file `path`, reporting a failure as `read` and the path.
pub open spec fn reads_file(a: KernelAction, path: Seq<char>) -> bool {
    a matches KernelAction::ReadFile { path: p, context: c } && p@ == path && c@ == "read "@ + path
}

/// `r` ends the request with the result that `ok` allows, or with an error.
pub open spec fn ends_with(r: (Phase, KernelAction), ok: spec_fn(BrokerResult) -> bool, err: spec_fn(CiluxError) -> bool) -> bool {
    r.0 == Phase::Finished && match r.1 {
        KernelAction::Done(result) => ok(result),
        KernelAction::Fail(e) => err(e),
        _ => false,
    }
}

/// `r` ends the request with the error `e`.
pub open spec fn fails_with(r: (Phase, KernelAction), e: CiluxError) -> bool {
    r.0 == Phase::Finished && r.1 == KernelAction::Fail(e)
}

/// `r` answers an outcome that does not fit the request's phase.
pub open spec fn out_of_order(r: (Phase, KernelAction)) -> bool {
    fails_with(r, CiluxError::UnexpectedKernelEvent)
}

/// The first action of a request.
pub open spec fn start_outcome(facade: KernelFacade, request: BrokerRequest, r: (Phase, KernelAction)) -> bool {
    match request {
        BrokerRequest::KernelSnapshot(_) => r.0 == Phase::ReadingCaps
            && reads_file(r.1, joined_path(facade.root(), "caps.json"@)),
        BrokerRequest::KernelEventsTail(_) => r.0 == Phase::ReadingEvents
            && (r.1 matches KernelAction::ReadFile { path, context }
            && path@ == joined_path(facade.root(), "events.ndjson"@) && context@ == "read events.ndjson"@),
        BrokerRequest::TraceConfigure(p) => r.0 == Phase::WritingMask
            && r.1 == KernelAction::Netlink(KernelCommand::SetTraceMask(p.trace_mask)),
        BrokerRequest::TraceStatus(_) => r.0 == Phase::QueryingState && r.1 == KernelAction::Netlink(KernelCommand::GetState),
        BrokerRequest::TraceEnable(_) => r.0 == Phase::QueryingState && r.1 == KernelAction::Netlink(KernelCommand::GetState),
        BrokerRequest::TraceDisable(_) => r.0 == Phase::QueryingState && r.1 == KernelAction::Netlink(KernelCommand::GetState),
        BrokerRequest::TraceResetDefault(_) => r.0 == Phase::QueryingState
            && r.1 == KernelAction::Netlink(KernelCommand::GetState),
        BrokerRequest::BufferClear(_) => r.0 == Phase::Clearing && r.1 == KernelAction::Netlink(KernelCommand::ClearEvents),
        BrokerRequest::Health(_) => r.0 == Phase::Probing && r.1 == KernelAction::ProbeHealth,
        BrokerRequest::SystemRead(p) => r.0 == Phase::ReadingSystem && match system_read_file(p.selector) {
            Some(path) => reads_file(r.1, path),
            None => r.1 == KernelAction::RunDmesg,
        },
    }
}

/// The step after the kernel state was queried, before any change: a status
/// request is answered; an enable or disable writes the mask decided from
/// the state, or is refused with no write; a reset writes the default mask
/// limited to what the kernel supports.
pub open spec fn queried_outcome(request: BrokerRequest, reply: Seq<u8>, order: ByteOrder, r: (Phase, KernelAction)) -> bool {
    match state_spec(reply, order) {
        Err(e) => fails_with(r, e),
        Ok(state) => match request {
            BrokerRequest::TraceStatus(_) => ends_with(
                r,
                |x: BrokerResult| x matches BrokerResult::TraceStatus(s) && is_status_of(s, state),
                |e: CiluxError| false,
            ),
            BrokerRequest::TraceEnable(p) => match r.1 {
                KernelAction::Netlink(KernelCommand::SetTraceMask(m)) => r.0 == Phase::WritingMask
                    && enable_outcome(state, p.categories@, Ok(m)),
                KernelAction::Fail(e) => r.0 == Phase::Finished && enable_outcome(state, p.categories@, Err(e)),
                _ => false,
            },
            BrokerRequest::TraceDisable(p) => match r.1 {
                KernelAction::Netlink(KernelCommand::SetTraceMask(m)) => r.0 == Phase::WritingMask
                    && disable_outcome(state, p.categories@, Ok(m)),
                KernelAction::Fail(e) => r.0 == Phase::Finished && disable_outcome(state, p.categories@, Err(e)),
                _ => false,
            },
            BrokerRequest::TraceResetDefault(_) => r.0 == Phase::WritingMask
                && r.1 == KernelAction::Netlink(KernelCommand::SetTraceMask(TRACE_DEFAULT_MASK & state.supported_mask)),
            _ => out_of_order(r),
        },
    }
}

/// The step after the kernel state was queried again, after a mask was
/// written: the request is answered with that state's status.
pub open spec fn requeried_outcome(request: BrokerRequest, reply: Seq<u8>, order: ByteOrder, r: (Phase, KernelAction)) -> bool {
    match state_spec(reply, order) {
        Err(e) => fails_with(r, e),
        Ok(state) => match request {
            BrokerRequest::TraceEnable(_) => ends_with(
                r,
                |x: BrokerResult| x matches BrokerResult::TraceEnable(s) && is_status_of(s, state),
                |e: CiluxError| false,
            ),
            BrokerRequest::TraceDisable(_) => ends_with(
                r,
                |x: BrokerResult| x matches BrokerResult::TraceDisable(s) && is_status_of(s, state),
                |e: CiluxError| false,
            ),
            BrokerRequest::TraceResetDefault(_) => ends_with(
                r,
                |x: BrokerResult| x matches BrokerResult::TraceResetDefault(s) && is_status_of(s, state),
                |e: CiluxError| false,
            ),
            _ => out_of_order(r),
        },
    }
}

/// The step after a mask was written: a configure goes on to read the state
/// file, the other trace requests query the kernel state again.
pub open spec fn written_outcome(facade: KernelFacade, request: BrokerRequest, reply: Seq<u8>, order: ByteOrder, r: (Phase, KernelAction)) -> bool {
    match set_trace_mask_spec(reply, order) {
        Err(e) => fails_with(r, e),
        Ok(applied) => match request {
            BrokerRequest::TraceConfigure(_) => r.0 == (Phase::ReadingConfiguredState { applied })
                && reads_file(r.1, joined_path(facade.root(), "state.json"@)),
            BrokerRequest::TraceEnable(_) => r.0 == Phase::RequeryingState
                && r.1 == KernelAction::Netlink(KernelCommand::GetState),
            BrokerRequest::TraceDisable(_) => r.0 == Phase::RequeryingState
                && r.1 == KernelAction::Netlink(KernelCommand::GetState),
            BrokerRequest::TraceResetDefault(_) => r.0 == Phase::RequeryingState
                && r.1 == KernelAction::Netlink(KernelCommand::GetState),
            _ => out_of_order(r),
        },
    }
}

/// What one step of a request does, given the phase it is in and the
/// outcome of the last action.
pub open spec fn step_outcome(
    facade: KernelFacade,
    request: BrokerRequest,
    phase: Phase,
    event: KernelEvent,
    order: ByteOrder,
    r: (Phase, KernelAction),
) -> bool {
    match (phase, event) {
        (Phase::Start, KernelEvent::Begin) => start_outcome(facade, request, r),
        (Phase::ReadingCaps, KernelEvent::Text(text)) => match request {
            BrokerRequest::KernelSnapshot(_) => match json_document(text@) {
                Some(caps) => r.0 == (Phase::ReadingState { caps })
                    && reads_file(r.1, joined_path(facade.root(), "state.json"@)),
                None => r.0 == Phase::Finished && (r.1 matches KernelAction::Fail(CiluxError::ParseFile { path, cause })
                    && path@ == joined_path(facade.root(), "caps.json"@) && cause@ == json_refusal(text@)),
            },
            _ => out_of_order(r),
        },
        (Phase::ReadingState { caps }, KernelEvent::Text(text)) => match request {
            BrokerRequest::KernelSnapshot(_) => match json_document(text@) {
                Some(state) => r.0 == Phase::Finished
                    && r.1 == KernelAction::Done(BrokerResult::KernelSnapshot(KernelSnapshot { caps, state })),
                None => r.0 == Phase::Finished && (r.1 matches KernelAction::Fail(CiluxError::ParseFile { path, cause })
                    && path@ == joined_path(facade.root(), "state.json"@) && cause@ == json_refusal(text@)),
            },
            _ => out_of_order(r),
        },
        (Phase::ReadingEvents, KernelEvent::Text(text)) => match request {
            BrokerRequest::KernelEventsTail(p) => ends_with(
                r,
                |x: BrokerResult| x matches BrokerResult::KernelEventsTail(t) && events_tail_outcome(text@, p.limit as nat, Ok(t)),
                |e: CiluxError| events_tail_outcome(text@, p.limit as nat, Err(e)),
            ),
            _ => out_of_order(r),
        },
        (Phase::WritingMask, KernelEvent::Reply(reply)) => written_outcome(facade, request, reply@, order, r),
        (Phase::ReadingConfiguredState { applied }, KernelEvent::Text(text)) => match request {
            BrokerRequest::TraceConfigure(_) => ends_with(
                r,
                |x: BrokerResult| x matches BrokerResult::TraceConfigure(c) && configure_outcome(facade.root(), applied, text@, Ok(c)),
                |e: CiluxError| configure_outcome(facade.root(), applied, text@, Err(e)),
            ),
            _ => out_of_order(r),
        },
        (Phase::QueryingState, KernelEvent::Reply(reply)) => queried_outcome(request, reply@, order, r),
        (Phase::RequeryingState, KernelEvent::Reply(reply)) => requeried_outcome(request, reply@, order, r),
        (Phase::Clearing, KernelEvent::Reply(reply)) => match request {
            BrokerRequest::BufferClear(_) => match clear_events_spec(reply@, order) {
                Err(e) => fails_with(r, e),
                Ok(remaining) => ends_with(
                    r,
                    |x: BrokerResult| x matches BrokerResult::BufferClear(s) && s.ok == (remaining == 0),
                    |e: CiluxError| false,
                ),
            },
            _ => out_of_order(r),
        },
        (Phase::Probing, KernelEvent::Probe { broker_pid, socket_path, caps_exists, state_exists, events_exists, netlink_ready }) => match request {
            BrokerRequest::Health(_) => ends_with(
                r,
                |x: BrokerResult| x matches BrokerResult::Health(h) && is_health_report(
                    h, facade.audit_log(), broker_pid, socket_path@, caps_exists, state_exists, events_exists, netlink_ready,
                ),
                |e: CiluxError| false,
            ),
            _ => out_of_order(r),
        },
        (Phase::ReadingSystem, KernelEvent::Text(text)) => match request {
            BrokerRequest::SystemRead(p) => ends_with(
                r,
                |x: BrokerResult| x matches BrokerResult::SystemRead(sr) && sr.selector == p.selector && sr.text == text,
                |e: CiluxError| false,
            ),
            _ => out_of_order(r),
        },
        _ => out_of_order(r),
    }
}

fn read_file_action(path: String) -> (a: KernelAction)
    ensures
        reads_file(a, path@),
{
    let mut context = "read ".to_owned();
    context.append(path.as_str());
    KernelAction::ReadFile { path, context }
}

fn start(facade: &KernelFacade, request: &BrokerRequest) -> (r: (Phase, KernelAction))
    ensures
        start_outcome(*facade, *request, r),
{
    match request {
        BrokerRequest::KernelSnapshot(_) => (Phase::ReadingCaps, read_file_action(facade.caps_path())),
        BrokerRequest::KernelEventsTail(_) => (
            Phase::ReadingEvents,
            KernelAction::ReadFile { path: facade.events_path(), context: "read events.ndjson".to_owned() },
        ),
        BrokerRequest::TraceConfigure(p) => (Phase::WritingMask, KernelAction::Netlink(KernelCommand::SetTraceMask(p.trace_mask))),
        BrokerRequest::TraceStatus(_) => (Phase::QueryingState, KernelAction::Netlink(KernelCommand::GetState)),
        BrokerRequest::TraceEnable(_) => (Phase::QueryingState, KernelAction::Netlink(KernelCommand::GetState)),
        BrokerRequest::TraceDisable(_) => (Phase::QueryingState, KernelAction::Netlink(KernelCommand::GetState)),
        BrokerRequest::TraceResetDefault(_) => (Phase::QueryingState, KernelAction::Netlink(KernelCommand::GetState)),
        BrokerRequest::BufferClear(_) => (Phase::Clearing, KernelAction::Netlink(KernelCommand::ClearEvents)),
        BrokerRequest::Health(_) => (Phase::Probing, KernelAction::ProbeHealth),
        BrokerRequest::SystemRead(p) => match system_read_path(p.selector) {
            Some(path) => (Phase::ReadingSystem, read_file_action(path.to_owned())),
            None => (Phase::ReadingSystem, KernelAction::RunDmesg),
        },
    }
}

fn after_query(facade: &KernelFacade, request: &BrokerRequest, reply: &[u8], order: ByteOrder) -> (r: (Phase, KernelAction))
    ensures
        queried_outcome(*request, reply@, order, r),
{
    let state = match get_state(reply, order) {
        Ok(state) => state,
        Err(e) => return (Phase::Finished, KernelAction::Fail(e)),
    };
    match request {
        BrokerRequest::TraceStatus(_) => (
            Phase::Finished,
            KernelAction::Done(BrokerResult::TraceStatus(facade.trace_status(state))),
        ),
        BrokerRequest::TraceEnable(p) => match facade.trace_enable(state, p.categories.as_slice()) {
            Ok(mask) => (Phase::WritingMask, KernelAction::Netlink(KernelCommand::SetTraceMask(mask))),
            Err(e) => (Phase::Finished, KernelAction::Fail(e)),
        },
        BrokerRequest::TraceDisable(p) => match facade.trace_disable(state, p.categories.as_slice()) {
            Ok(mask) => (Phase::WritingMask, KernelAction::Netlink(KernelCommand::SetTraceMask(mask))),
            Err(e) => (Phase::Finished, KernelAction::Fail(e)),
        },
        BrokerRequest::TraceResetDefault(_) => (
            Phase::WritingMask,
            KernelAction::Netlink(KernelCommand::SetTraceMask(facade.trace_reset_default(state))),
        ),
        _ => (Phase::Finished, KernelAction::Fail(CiluxError::UnexpectedKernelEvent)),
    }
}

fn after_requery(facade: &KernelFacade, request: &BrokerRequest, reply: &[u8], order: ByteOrder) -> (r: (Phase, KernelAction))
    ensures
        requeried_outcome(*request, reply@, order, r),
{
    let state = match get_state(reply, order) {
        Ok(state) => state,
        Err(e) => return (Phase::Finished, KernelAction::Fail(e)),
    };
    match request {
        BrokerRequest::TraceEnable(_) => (
            Phase::Finished,
            KernelAction::Done(BrokerResult::TraceEnable(facade.trace_status(state))),
        ),
        BrokerRequest::TraceDisable(_) => (
            Phase::Finished,
            KernelAction::Done(BrokerResult::TraceDisable(facade.trace_status(state))),
        ),
        BrokerRequest::TraceResetDefault(_) => (
            Phase::Finished,
            KernelAction::Done(BrokerResult::TraceResetDefault(facade.trace_status(state))),
        ),
        _ => (Phase::Finished, KernelAction::Fail(CiluxError::UnexpectedKernelEvent)),
    }
}

fn after_write(facade: &KernelFacade, request: &BrokerRequest, reply: &[u8], order: ByteOrder) -> (r: (Phase, KernelAction))
    ensures
        written_outcome(*facade, *request, reply@, order, r),
{
    let applied = match set_trace_mask(reply, order) {
        Ok(applied) => applied,
        Err(e) => return (Phase::Finished, KernelAction::Fail(e)),
    };
    match request {
        BrokerRequest::TraceConfigure(_) => (
            Phase::ReadingConfiguredState { applied },
            read_file_action(facade.state_path()),
        ),
        BrokerRequest::TraceEnable(_) => (Phase::RequeryingState, KernelAction::Netlink(KernelCommand::GetState)),
        BrokerRequest::TraceDisable(_) => (Phase::RequeryingState, KernelAction::Netlink(KernelCommand::GetState)),
        BrokerRequest::TraceResetDefault(_) => (Phase::RequeryingState, KernelAction::Netlink(KernelCommand::GetState)),
        _ => (Phase::Finished, KernelAction::Fail(CiluxError::UnexpectedKernelEvent)),
    }
}

/// One step of a request: given the phase it is in and what came of the
/// last action, the next phase and the next action.
pub fn broker_step(
    facade: &KernelFacade,
    request: &BrokerRequest,
    phase: Phase,
    event: KernelEvent,
    order: ByteOrder,
) -> (r: (Phase, KernelAction))
    ensures
        step_outcome(*facade, *request, phase, event, order, r),
{
    match (phase, event) {
        (Phase::Start, KernelEvent::Begin) => start(facade, request),
        (Phase::ReadingCaps, KernelEvent::Text(text)) => match request {
            BrokerRequest::KernelSnapshot(_) => match parse_json_file(facade.caps_path().as_str(), text.as_str()) {
                Ok(caps) => (Phase::ReadingState { caps }, read_file_action(facade.state_path())),
                Err(e) => (Phase::Finished, KernelAction::Fail(e)),
            },
            _ => (Phase::Finished, KernelAction::Fail(CiluxError::UnexpectedKernelEvent)),
        },
        (Phase::ReadingState { caps }, KernelEvent::Text(text)) => match request {
            BrokerRequest::KernelSnapshot(_) => match parse_json_file(facade.state_path().as_str(), text.as_str()) {
                Ok(state) => (Phase::Finished, KernelAction::Done(BrokerResult::KernelSnapshot(KernelSnapshot { caps, state }))),
                Err(e) => (Phase::Finished, KernelAction::Fail(e)),
            },
            _ => (Phase::Finished, KernelAction::Fail(CiluxError::UnexpectedKernelEvent)),
        },
        (Phase::ReadingEvents, KernelEvent::Text(text)) => match request {
            BrokerRequest::KernelEventsTail(p) => match facade.kernel_events_tail(text.as_str(), p.limit) {
                Ok(tail) => (Phase::Finished, KernelAction::Done(BrokerResult::KernelEventsTail(tail))),
                Err(e) => (Phase::Finished, KernelAction::Fail(e)),
            },
            _ => (Phase::Finished, KernelAction::Fail(CiluxError::UnexpectedKernelEvent)),
        },
        (Phase::WritingMask, KernelEvent::Reply(reply)) => after_write(facade, request, reply.as_slice(), order),
        (Phase::ReadingConfiguredState { applied }, KernelEvent::Text(text)) => match request {
            BrokerRequest::TraceConfigure(_) => match facade.trace_configure(applied, text.as_str()) {
                Ok(result) => (Phase::Finished, KernelAction::Done(BrokerResult::TraceConfigure(result))),
                Err(e) => (Phase::Finished, KernelAction::Fail(e)),
            },
            _ => (Phase::Finished, KernelAction::Fail(CiluxError::UnexpectedKernelEvent)),
        },
        (Phase::QueryingState, KernelEvent::Reply(reply)) => after_query(facade, request, reply.as_slice(), order),
        (Phase::RequeryingState, KernelEvent::Reply(reply)) => after_requery(facade, request, reply.as_slice(), order),
        (Phase::Clearing, KernelEvent::Reply(reply)) => match request {
            BrokerRequest::BufferClear(_) => match clear_events(reply.as_slice(), order) {
                Ok(remaining) => (Phase::Finished, KernelAction::Done(BrokerResult::BufferClear(facade.buffer_clear(remaining)))),
                Err(e) => (Phase::Finished, KernelAction::Fail(e)),
            },
            _ => (Phase::Finished, KernelAction::Fail(CiluxError::UnexpectedKernelEvent)),
        },
        (Phase::Probing, KernelEvent::Probe { broker_pid, socket_path, caps_exists, state_exists, events_exists, netlink_ready }) => match request {
            BrokerRequest::Health(_) => (
                Phase::Finished,
                KernelAction::Done(BrokerResult::Health(facade.health(
                    broker_pid,
                    socket_path.as_str(),
                    caps_exists,
                    state_exists,
                    events_exists,
                    netlink_ready,
                ))),
            ),
            _ => (Phase::Finished, KernelAction::Fail(CiluxError::UnexpectedKernelEvent)),
        },
        (Phase::ReadingSystem, KernelEvent::Text(text)) => match request {
            BrokerRequest::SystemRead(p) => (Phase::Finished, KernelAction::Done(BrokerResult::SystemRead(facade.system_read(p.selector, text)))),
            _ => (Phase::Finished, KernelAction::Fail(CiluxError::UnexpectedKernelEvent)),
        },
        _ => (Phase::Finished, KernelAction::Fail(CiluxError::UnexpectedKernelEvent)),
    }
}

/// The kernel's trace mask is written only for the four trace-control
/// requests: a configure writes the requested mask as its first action; an
/// enable, a disable or a reset writes, right after reading the kernel
/// state, the mask decided from that state (the current mask with the
/// named categories set or cleared, or the default mask limited to what
/// the kernel supports).
pub proof fn lemma_mask_written_only_by_trace_control(
    facade: KernelFacade,
    request: BrokerRequest,
    phase: Phase,
    event: KernelEvent,
    order: ByteOrder,
    r: (Phase, KernelAction),
    m: u32,
)
    requires
        step_outcome(facade, request, phase, event, order, r),
        r.1 == KernelAction::Netlink(KernelCommand::SetTraceMask(m)),
    ensures
        match request {
            BrokerRequest::TraceConfigure(p) => phase == Phase::Start && m == p.trace_mask,
            BrokerRequest::TraceEnable(p) => phase == Phase::QueryingState && (event matches KernelEvent::Reply(reply)
                && (state_spec(reply@, order) matches Ok(state) && p.categories@.len() > 0
                && unsupported_bits(state.supported_mask, mask_of(p.categories@)) == 0
                && m == state.trace_mask | mask_of(p.categories@))),
            BrokerRequest::TraceDisable(p) => phase == Phase::QueryingState && (event matches KernelEvent::Reply(reply)
                && (state_spec(reply@, order) matches Ok(state) && p.categories@.len() > 0
                && unsupported_bits(state.supported_mask, mask_of(p.categories@)) == 0
                && m == state.trace_mask & !mask_of(p.categories@))),
            BrokerRequest::TraceResetDefault(_) => phase == Phase::QueryingState && (event matches KernelEvent::Reply(reply)
                && (state_spec(reply@, order) matches Ok(state) && m == TRACE_DEFAULT_MASK & state.supported_mask)),
            _ => false,
        },
{
}

/// The event ring is cleared only by a buffer-clear request, as its first action.
pub proof fn lemma_ring_cleared_only_by_buffer_clear(
    facade: KernelFacade,
    request: BrokerRequest,
    phase: Phase,
    event: KernelEvent,
    order: ByteOrder,
    r: (Phase, KernelAction),
)
    requires
        step_outcome(facade, request, phase, event, order, r),
        r.1 == KernelAction::Netlink(KernelCommand::ClearEvents),
    ensures
        request is BufferClear,
        phase == Phase::Start,
{
}

/// An enable or disable that is refused (no category, or one the kernel
/// does not support) ends with the refusal, right after the state was
/// read, and writes nothing.
pub proof fn lemma_refused_request_writes_nothing(
    facade: KernelFacade,
    request: BrokerRequest,
    reply: Vec<u8>,
    order: ByteOrder,
    r: (Phase, KernelAction),
)
    requires
        step_outcome(facade, request, Phase::QueryingState, KernelEvent::Reply(reply), order, r),
        request is TraceEnable || request is TraceDisable,
        state_spec(reply@, order) matches Ok(state) && match request {
            BrokerRequest::TraceEnable(p) => p.categories@.len() == 0
                || unsupported_bits(state.supported_mask, mask_of(p.categories@)) != 0,
            BrokerRequest::TraceDisable(p) => p.categories@.len() == 0
                || unsupported_bits(state.supported_mask, mask_of(p.categories@)) != 0,
            _ => false,
        },
    ensures
        r.0 == Phase::Finished,
        r.1 is Fail,
{
}

/// A health request never fails: it probes the guest, then answers with
/// the health report of what the probe found.
pub proof fn lemma_health_never_fails(
    facade: KernelFacade,
    request: BrokerRequest,
    phase: Phase,
    event: KernelEvent,
    order: ByteOrder,
    r: (Phase, KernelAction),
)
    requires
        step_outcome(facade, request, phase, event, order, r),
        request is Health,
        (phase == Phase::Start && event == KernelEvent::Begin) || (phase == Phase::Probing && event is Probe),
    ensures
        phase == Phase::Start ==> r.0 == Phase::Probing && r.1 == KernelAction::ProbeHealth,
        phase == Phase::Probing ==> r.0 == Phase::Finished && (r.1 matches KernelAction::Done(BrokerResult::Health(_))),
{
}

/// A tool is available exactly when the guest has what its request's
/// first kernel action needs: the Netlink family for a request that starts
/// with a Netlink command (every trace tool and the buffer clear), the
/// debugfs documents for a snapshot, the event log for an events tail, and
/// nothing for a health probe or a system read.
pub proof fn lemma_tool_availability_follows_kernel_path(
    facade: KernelFacade,
    tool: crate::catalog::Tool,
    args: crate::mcp::ToolArguments,
    caps: crate::protocol::BrokerCapabilities,
    request: BrokerRequest,
    r: (Phase, KernelAction),
)
    requires
        crate::mcp::tool_outcome(tool, args, Ok(request)),
        start_outcome(facade, request, r),
    ensures
        r.1 is Netlink ==> crate::catalog::tool_available_spec(tool, caps) == caps.trace_control,
        r.0 == Phase::ReadingCaps ==> crate::catalog::tool_available_spec(tool, caps) == caps.kernel_snapshot,
        r.0 == Phase::ReadingEvents ==> crate::catalog::tool_available_spec(tool, caps) == caps.events_tail,
        (r.0 == Phase::Probing || r.0 == Phase::ReadingSystem) ==> crate::catalog::tool_available_spec(tool, caps),
{
}

} // verus!
