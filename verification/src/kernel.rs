//! The broker's view of the kernel module: where its debugfs files are,
//! how trace requests turn into trace masks, and how readings of the
//! kernel become answers.
//!
//! Reading files, running `dmesg` and talking Netlink stay with the
//! caller; the functions here take what was read and decide.

use vstd::prelude::*;
use crate::error::CiluxError;
use crate::json::{json_accepts, json_document, json_refusal, parse_event_line, parse_json_file};
use crate::netlink::KernelState;
use crate::protocol::{
    categories_of_mask, guest_mode_of, lemma_categories_of_mask_members, BrokerCapabilities, GuestMode, lemma_mask_of_bits, mask_has, mask_of, HealthReport, KernelEventsTail, KernelSnapshot, StatusResult, SystemReadResult,
    SystemReadSelector, TraceCategory, TraceConfigureResult, TraceStatusResult, DEFAULT_APP_SERVER_PORT, DEFAULT_DEBUGFS_ROOT,
    TRACE_DEFAULT_MASK,
};
use crate::text::{chars_of, lines, push_chars, split_lines, string_from_chars};

verus! {

/// The bits of a mask that belong to no category.
pub open spec fn other_bits(mask: u32) -> u32 {
    mask & 0xffff_fff0
}

/// The bits of `requested` that `supported` lacks.
pub open spec fn unsupported_bits(supported_mask: u32, requested_mask: u32) -> u32 {
    requested_mask & !supported_mask
}

/// `r` refuses the categories of the `unsupported` bits, listed in the
/// order of `TraceCategory::ALL`.
pub open spec fn refuses_unsupported<T>(r: Result<T, CiluxError>, unsupported: u32) -> bool {
    r matches Err(CiluxError::UnsupportedTraceCategories { categories })
        && categories@ == categories_of_mask(unsupported)
}

/// The mask of the categories of a trace request; a request that names
/// no category is refused.
pub fn trace_categories_mask(categories: &[TraceCategory]) -> (r: Result<u32, CiluxError>)
    ensures
        categories@.len() == 0 ==> r == Err::<u32, CiluxError>(CiluxError::EmptyTraceCategories),
        categories@.len() > 0 ==> r == Ok::<u32, CiluxError>(mask_of(categories@)),
{
    if categories.len() == 0 {
        return Err(CiluxError::EmptyTraceCategories);
    }
    Ok(TraceCategory::mask_for(categories))
}

/// Refuses a requested mask with bits the kernel does not support, naming
/// the unsupported categories.
pub fn ensure_supported_categories(supported_mask: u32, requested_mask: u32) -> (r: Result<(), CiluxError>)
    ensures
        unsupported_bits(supported_mask, requested_mask) == 0 ==> r is Ok,
        unsupported_bits(supported_mask, requested_mask) != 0 ==> refuses_unsupported(r, unsupported_bits(supported_mask, requested_mask)),
{
    let unsupported_mask = requested_mask & !supported_mask;
    if unsupported_mask == 0 {
        return Ok(());
    }
    Err(CiluxError::UnsupportedTraceCategories { categories: TraceCategory::from_mask(unsupported_mask) })
}

/// The mask after enabling the categories: the current mask with their
/// bits set. Refused when no category is named or one is unsupported.
pub fn trace_enable_mask(current_mask: u32, supported_mask: u32, categories: &[TraceCategory]) -> (r: Result<u32, CiluxError>)
    ensures
        categories@.len() == 0 ==> r == Err::<u32, CiluxError>(CiluxError::EmptyTraceCategories),
        categories@.len() > 0 && unsupported_bits(supported_mask, mask_of(categories@)) != 0 ==> refuses_unsupported(r, unsupported_bits(supported_mask, mask_of(categories@))),
        categories@.len() > 0 && unsupported_bits(supported_mask, mask_of(categories@)) == 0 ==> r == Ok::<u32, CiluxError>(
            current_mask | mask_of(categories@),
        ),
{
    let requested_mask = trace_categories_mask(categories)?;
    ensure_supported_categories(supported_mask, requested_mask)?;
    Ok(current_mask | requested_mask)
}

/// The mask after disabling the categories: the current mask with their
/// bits cleared. Refused when no category is named or one is unsupported.
pub fn trace_disable_mask(current_mask: u32, supported_mask: u32, categories: &[TraceCategory]) -> (r: Result<u32, CiluxError>)
    ensures
        categories@.len() == 0 ==> r == Err::<u32, CiluxError>(CiluxError::EmptyTraceCategories),
        categories@.len() > 0 && unsupported_bits(supported_mask, mask_of(categories@)) != 0 ==> refuses_unsupported(r, unsupported_bits(supported_mask, mask_of(categories@))),
        categories@.len() > 0 && unsupported_bits(supported_mask, mask_of(categories@)) == 0 ==> r == Ok::<u32, CiluxError>(
            current_mask & !mask_of(categories@),
        ),
{
    let requested_mask = trace_categories_mask(categories)?;
    ensure_supported_categories(supported_mask, requested_mask)?;
    Ok(current_mask & !requested_mask)
}

/// The default mask limited to what the kernel supports.
pub fn trace_reset_default_mask(supported_mask: u32) -> (r: u32)
    ensures
        r == TRACE_DEFAULT_MASK & supported_mask,
{
    TRACE_DEFAULT_MASK & supported_mask
}

proof fn lemma_bit_ops(a: u32, b: u32, bit: u32)
    requires
        bit == 1 || bit == 2 || bit == 4 || bit == 8,
    ensures
        ((a | b) & bit != 0) == ((a & bit != 0) || (b & bit != 0)),
        ((a & !b) & bit != 0) == ((a & bit != 0) && (b & bit == 0)),
        ((a & b) & bit != 0) == ((a & bit != 0) && (b & bit != 0)),
{
    assert(((a | b) & bit != 0) == ((a & bit != 0) || (b & bit != 0))) by (bit_vector)
        requires bit == 1 || bit == 2 || bit == 4 || bit == 8;
    assert(((a & !b) & bit != 0) == ((a & bit != 0) && (b & bit == 0))) by (bit_vector)
        requires bit == 1 || bit == 2 || bit == 4 || bit == 8;
    assert(((a & b) & bit != 0) == ((a & bit != 0) && (b & bit != 0))) by (bit_vector)
        requires bit == 1 || bit == 2 || bit == 4 || bit == 8;
}

/// Enabling sets the bits of exactly the named categories and leaves every
/// other bit of the mask as it was.
pub proof fn lemma_enable_mask_bits(current_mask: u32, categories: Seq<TraceCategory>)
    ensures
        forall|c: TraceCategory| #[trigger] mask_has(current_mask | mask_of(categories), c)
            == (mask_has(current_mask, c) || categories.contains(c)),
        other_bits(current_mask | mask_of(categories)) == other_bits(current_mask),
{
    let m = mask_of(categories);
    lemma_mask_of_bits(categories);
    assert forall|c: TraceCategory| #[trigger] mask_has(current_mask | m, c)
        == (mask_has(current_mask, c) || categories.contains(c)) by {
        lemma_bit_ops(current_mask, m, c.bit());
        assert(mask_has(m, c) == categories.contains(c));
    }
    assert(other_bits(current_mask | m) == other_bits(current_mask)) by (bit_vector)
        requires m & 0xffff_fff0 == 0;
}

/// Disabling clears the bits of exactly the named categories and leaves
/// every other bit of the mask as it was.
pub proof fn lemma_disable_mask_bits(current_mask: u32, categories: Seq<TraceCategory>)
    ensures
        forall|c: TraceCategory| #[trigger] mask_has(current_mask & !mask_of(categories), c)
            == (mask_has(current_mask, c) && !categories.contains(c)),
        other_bits(current_mask & !mask_of(categories)) == other_bits(current_mask),
{
    let m = mask_of(categories);
    lemma_mask_of_bits(categories);
    assert forall|c: TraceCategory| #[trigger] mask_has(current_mask & !m, c)
        == (mask_has(current_mask, c) && !categories.contains(c)) by {
        lemma_bit_ops(current_mask, m, c.bit());
        assert(mask_has(m, c) == categories.contains(c));
    }
    assert(other_bits(current_mask & !m) == other_bits(current_mask)) by (bit_vector)
        requires m & 0xffff_fff0 == 0;
}

/// After an enable, the status lists a category as enabled exactly when it
/// was listed before or the request named it.
pub proof fn lemma_enabled_categories_after_enable(current_mask: u32, categories: Seq<TraceCategory>)
    ensures
        forall|c: TraceCategory| #[trigger] categories_of_mask(current_mask | mask_of(categories)).contains(c)
            == (categories_of_mask(current_mask).contains(c) || categories.contains(c)),
{
    lemma_enable_mask_bits(current_mask, categories);
    lemma_categories_of_mask_members(current_mask);
    lemma_categories_of_mask_members(current_mask | mask_of(categories));
}

/// After a disable, the status lists a category as enabled exactly when it
/// was listed before and the request did not name it.
pub proof fn lemma_enabled_categories_after_disable(current_mask: u32, categories: Seq<TraceCategory>)
    ensures
        forall|c: TraceCategory| #[trigger] categories_of_mask(current_mask & !mask_of(categories)).contains(c)
            == (categories_of_mask(current_mask).contains(c) && !categories.contains(c)),
{
    lemma_disable_mask_bits(current_mask, categories);
    lemma_categories_of_mask_members(current_mask);
    lemma_categories_of_mask_members(current_mask & !mask_of(categories));
}

/// A trace request is refused as unsupported exactly when it names a
/// category whose bit the kernel's supported mask lacks.
pub proof fn lemma_unsupported_request(supported_mask: u32, categories: Seq<TraceCategory>)
    ensures
        (unsupported_bits(supported_mask, mask_of(categories)) != 0) == (exists|c: TraceCategory|
            categories.contains(c) && !#[trigger] mask_has(supported_mask, c)),
{
    let m = mask_of(categories);
    let s = supported_mask;
    lemma_mask_of_bits(categories);
    assert(mask_has(m, TraceCategory::SchedProcessExec) == categories.contains(TraceCategory::SchedProcessExec));
    assert(mask_has(m, TraceCategory::SchedProcessExit) == categories.contains(TraceCategory::SchedProcessExit));
    assert(mask_has(m, TraceCategory::Module) == categories.contains(TraceCategory::Module));
    assert(mask_has(m, TraceCategory::MarkVictim) == categories.contains(TraceCategory::MarkVictim));
    assert((m & !s != 0) == ((m & 1 != 0 && s & 1 == 0) || (m & 2 != 0 && s & 2 == 0)
        || (m & 4 != 0 && s & 4 == 0) || (m & 8 != 0 && s & 8 == 0))) by (bit_vector)
        requires m & 0xffff_fff0 == 0;
    if unsupported_bits(s, m) != 0 {
        if m & 1 != 0 && s & 1 == 0 {
            assert(!mask_has(s, TraceCategory::SchedProcessExec));
        } else if m & 2 != 0 && s & 2 == 0 {
            assert(!mask_has(s, TraceCategory::SchedProcessExit));
        } else if m & 4 != 0 && s & 4 == 0 {
            assert(!mask_has(s, TraceCategory::Module));
        } else {
            assert(!mask_has(s, TraceCategory::MarkVictim));
        }
    }
    if exists|c: TraceCategory| categories.contains(c) && !#[trigger] mask_has(s, c) {
        let c = choose|c: TraceCategory| categories.contains(c) && !#[trigger] mask_has(s, c);
        match c {
            TraceCategory::SchedProcessExec => {},
            TraceCategory::SchedProcessExit => {},
            TraceCategory::Module => {},
            TraceCategory::MarkVictim => {},
        }
    }
}

/// Disabling the categories that were just enabled leaves them off and
/// every other bit as it was before the enable.
pub proof fn lemma_disable_undoes_enable(current_mask: u32, categories: Seq<TraceCategory>)
    ensures
        (current_mask | mask_of(categories)) & !mask_of(categories) == current_mask & !mask_of(categories),
{
    let m = mask_of(categories);
    assert((current_mask | m) & !m == current_mask & !m) by (bit_vector);
}

/// Enabling the same categories twice is enabling them once.
pub proof fn lemma_enable_idempotent(current_mask: u32, categories: Seq<TraceCategory>)
    ensures
        (current_mask | mask_of(categories)) | mask_of(categories) == current_mask | mask_of(categories),
{
    let m = mask_of(categories);
    assert((current_mask | m) | m == current_mask | m) by (bit_vector);
}

/// The reset mask turns on exactly the supported categories and no other bit.
pub proof fn lemma_reset_default_bits(supported_mask: u32)
    ensures
        forall|c: TraceCategory| #[trigger] mask_has(TRACE_DEFAULT_MASK & supported_mask, c)
            == mask_has(supported_mask, c),
        other_bits(TRACE_DEFAULT_MASK & supported_mask) == 0,
{
    assert forall|c: TraceCategory| #[trigger] mask_has(TRACE_DEFAULT_MASK & supported_mask, c)
        == mask_has(supported_mask, c) by {
        lemma_bit_ops(15, supported_mask, c.bit());
        assert(15u32 & 1 != 0 && 15u32 & 2 != 0 && 15u32 & 4 != 0 && 15u32 & 8 != 0) by (bit_vector);
    }
    assert(other_bits(15 & supported_mask) == 0) by (bit_vector);
}

/// The trace status that a kernel state reading stands for.
pub fn trace_status_from_kernel_state(state: KernelState) -> (r: TraceStatusResult)
    ensures
        r.trace_mask == state.trace_mask,
        r.supported_mask == state.supported_mask,
        r.drop_count == state.drop_count,
        r.event_count == state.event_count,
        r.ring_capacity == state.ring_capacity,
        r.enabled_categories@ == categories_of_mask(state.trace_mask),
        r.supported_categories@ == categories_of_mask(state.supported_mask),
{
    TraceStatusResult::new(
        state.trace_mask,
        state.supported_mask,
        state.drop_count,
        state.event_count,
        state.ring_capacity,
    )
}

/// The file a system-read selector is read from; `dmesg` is read by
/// running the `dmesg` command instead.
pub open spec fn system_read_file(selector: SystemReadSelector) -> Option<Seq<char>> {
    match selector {
        SystemReadSelector::Dmesg => None,
        SystemReadSelector::ProcCmdline => Some("/proc/cmdline"@),
        SystemReadSelector::ProcModules => Some("/proc/modules"@),
        SystemReadSelector::ProcVersion => Some("/proc/version"@),
        SystemReadSelector::ProcMeminfo => Some("/proc/meminfo"@),
        SystemReadSelector::ProcLoadavg => Some("/proc/loadavg"@),
        SystemReadSelector::ProcUptime => Some("/proc/uptime"@),
        SystemReadSelector::ProcCpuinfo => Some("/proc/cpuinfo"@),
        SystemReadSelector::ProcInterrupts => Some("/proc/interrupts"@),
        SystemReadSelector::ProcSoftirqs => Some("/proc/softirqs"@),
        SystemReadSelector::ProcVmstat => Some("/proc/vmstat"@),
        SystemReadSelector::ProcBuddyinfo => Some("/proc/buddyinfo"@),
        SystemReadSelector::ProcZoneinfo => Some("/proc/zoneinfo"@),
        SystemReadSelector::ProcIomem => Some("/proc/iomem"@),
        SystemReadSelector::ProcIoports => Some("/proc/ioports"@),
        SystemReadSelector::ProcSlabinfo => Some("/proc/slabinfo"@),
    }
}

/// The file a system-read selector is read from, if it is read from a file.
pub fn system_read_path(selector: SystemReadSelector) -> (r: Option<&'static str>)
    ensures
        match r {
            Some(path) => system_read_file(selector) == Some(path@),
            None => system_read_file(selector) is None,
        },
{
    match selector {
        SystemReadSelector::Dmesg => None,
        SystemReadSelector::ProcCmdline => Some("/proc/cmdline"),
        SystemReadSelector::ProcModules => Some("/proc/modules"),
        SystemReadSelector::ProcVersion => Some("/proc/version"),
        SystemReadSelector::ProcMeminfo => Some("/proc/meminfo"),
        SystemReadSelector::ProcLoadavg => Some("/proc/loadavg"),
        SystemReadSelector::ProcUptime => Some("/proc/uptime"),
        SystemReadSelector::ProcCpuinfo => Some("/proc/cpuinfo"),
        SystemReadSelector::ProcInterrupts => Some("/proc/interrupts"),
        SystemReadSelector::ProcSoftirqs => Some("/proc/softirqs"),
        SystemReadSelector::ProcVmstat => Some("/proc/vmstat"),
        SystemReadSelector::ProcBuddyinfo => Some("/proc/buddyinfo"),
        SystemReadSelector::ProcZoneinfo => Some("/proc/zoneinfo"),
        SystemReadSelector::ProcIomem => Some("/proc/iomem"),
        SystemReadSelector::ProcIoports => Some("/proc/ioports"),
        SystemReadSelector::ProcSlabinfo => Some("/proc/slabinfo"),
    }
}

/// Every selector but `dmesg` is read from the file `/proc/` followed by
/// its name without the `proc_` prefix, and its resource description ends
/// by naming that file.
pub proof fn lemma_proc_selectors_name_their_files(s: SystemReadSelector)
    requires
        s != SystemReadSelector::Dmesg,
    ensures
        "proc_"@.is_prefix_of(s.name()),
        system_read_file(s) == Some("/proc/"@ + s.name().skip(5)),
        s.description().len() > "/proc/"@.len() + s.name().len() - 5,
        s.description().subrange(
            s.description().len() - ("/proc/"@ + s.name().skip(5)).len() - 1,
            s.description().len() as int,
        ) == "/proc/"@ + s.name().skip(5) + "."@,
{
    reveal_strlit("proc_");
    reveal_strlit("/proc/");
    reveal_strlit(".");
    match s {
        SystemReadSelector::Dmesg => {},
        SystemReadSelector::ProcCmdline => {
            reveal_strlit("proc_cmdline");
            reveal_strlit("/proc/cmdline");
            reveal_strlit("Current boot arguments from /proc/cmdline.");
            assert(s.name().skip(5) =~= "cmdline"@) by { reveal_strlit("cmdline"); }
            assert("/proc/"@ + "cmdline"@ =~= "/proc/cmdline"@) by { reveal_strlit("cmdline"); }
            assert(s.description().subrange(s.description().len() - "/proc/cmdline"@.len() - 1, s.description().len() as int) =~= "/proc/cmdline"@ + "."@);
        },
        SystemReadSelector::ProcModules => {
            reveal_strlit("proc_modules");
            reveal_strlit("/proc/modules");
            reveal_strlit("Current loaded kernel modules from /proc/modules.");
            assert(s.name().skip(5) =~= "modules"@) by { reveal_strlit("modules"); }
            assert("/proc/"@ + "modules"@ =~= "/proc/modules"@) by { reveal_strlit("modules"); }
            assert(s.description().subrange(s.description().len() - "/proc/modules"@.len() - 1, s.description().len() as int) =~= "/proc/modules"@ + "."@);
        },
        SystemReadSelector::ProcVersion => {
            reveal_strlit("proc_version");
            reveal_strlit("/proc/version");
            reveal_strlit("Kernel build identity from /proc/version.");
            assert(s.name().skip(5) =~= "version"@) by { reveal_strlit("version"); }
            assert("/proc/"@ + "version"@ =~= "/proc/version"@) by { reveal_strlit("version"); }
            assert(s.description().subrange(s.description().len() - "/proc/version"@.len() - 1, s.description().len() as int) =~= "/proc/version"@ + "."@);
        },
        SystemReadSelector::ProcMeminfo => {
            reveal_strlit("proc_meminfo");
            reveal_strlit("/proc/meminfo");
            reveal_strlit("Current memory accounting from /proc/meminfo.");
            assert(s.name().skip(5) =~= "meminfo"@) by { reveal_strlit("meminfo"); }
            assert("/proc/"@ + "meminfo"@ =~= "/proc/meminfo"@) by { reveal_strlit("meminfo"); }
            assert(s.description().subrange(s.description().len() - "/proc/meminfo"@.len() - 1, s.description().len() as int) =~= "/proc/meminfo"@ + "."@);
        },
        SystemReadSelector::ProcLoadavg => {
            reveal_strlit("proc_loadavg");
            reveal_strlit("/proc/loadavg");
            reveal_strlit("Current scheduler load from /proc/loadavg.");
            assert(s.name().skip(5) =~= "loadavg"@) by { reveal_strlit("loadavg"); }
            assert("/proc/"@ + "loadavg"@ =~= "/proc/loadavg"@) by { reveal_strlit("loadavg"); }
            assert(s.description().subrange(s.description().len() - "/proc/loadavg"@.len() - 1, s.description().len() as int) =~= "/proc/loadavg"@ + "."@);
        },
        SystemReadSelector::ProcUptime => {
            reveal_strlit("proc_uptime");
            reveal_strlit("/proc/uptime");
            reveal_strlit("Current uptime from /proc/uptime.");
            assert(s.name().skip(5) =~= "uptime"@) by { reveal_strlit("uptime"); }
            assert("/proc/"@ + "uptime"@ =~= "/proc/uptime"@) by { reveal_strlit("uptime"); }
            assert(s.description().subrange(s.description().len() - "/proc/uptime"@.len() - 1, s.description().len() as int) =~= "/proc/uptime"@ + "."@);
        },
        SystemReadSelector::ProcCpuinfo => {
            reveal_strlit("proc_cpuinfo");
            reveal_strlit("/proc/cpuinfo");
            reveal_strlit("Current CPU topology and features from /proc/cpuinfo.");
            assert(s.name().skip(5) =~= "cpuinfo"@) by { reveal_strlit("cpuinfo"); }
            assert("/proc/"@ + "cpuinfo"@ =~= "/proc/cpuinfo"@) by { reveal_strlit("cpuinfo"); }
            assert(s.description().subrange(s.description().len() - "/proc/cpuinfo"@.len() - 1, s.description().len() as int) =~= "/proc/cpuinfo"@ + "."@);
        },
        SystemReadSelector::ProcInterrupts => {
            reveal_strlit("proc_interrupts");
            reveal_strlit("/proc/interrupts");
            reveal_strlit("Current interrupt counters from /proc/interrupts.");
            assert(s.name().skip(5) =~= "interrupts"@) by { reveal_strlit("interrupts"); }
            assert("/proc/"@ + "interrupts"@ =~= "/proc/interrupts"@) by { reveal_strlit("interrupts"); }
            assert(s.description().subrange(s.description().len() - "/proc/interrupts"@.len() - 1, s.description().len() as int) =~= "/proc/interrupts"@ + "."@);
        },
        SystemReadSelector::ProcSoftirqs => {
            reveal_strlit("proc_softirqs");
            reveal_strlit("/proc/softirqs");
            reveal_strlit("Current softirq counters from /proc/softirqs.");
            assert(s.name().skip(5) =~= "softirqs"@) by { reveal_strlit("softirqs"); }
            assert("/proc/"@ + "softirqs"@ =~= "/proc/softirqs"@) by { reveal_strlit("softirqs"); }
            assert(s.description().subrange(s.description().len() - "/proc/softirqs"@.len() - 1, s.description().len() as int) =~= "/proc/softirqs"@ + "."@);
        },
        SystemReadSelector::ProcVmstat => {
            reveal_strlit("proc_vmstat");
            reveal_strlit("/proc/vmstat");
            reveal_strlit("Current virtual-memory counters from /proc/vmstat.");
            assert(s.name().skip(5) =~= "vmstat"@) by { reveal_strlit("vmstat"); }
            assert("/proc/"@ + "vmstat"@ =~= "/proc/vmstat"@) by { reveal_strlit("vmstat"); }
            assert(s.description().subrange(s.description().len() - "/proc/vmstat"@.len() - 1, s.description().len() as int) =~= "/proc/vmstat"@ + "."@);
        },
        SystemReadSelector::ProcBuddyinfo => {
            reveal_strlit("proc_buddyinfo");
            reveal_strlit("/proc/buddyinfo");
            reveal_strlit("Current page allocator free-area state from /proc/buddyinfo.");
            assert(s.name().skip(5) =~= "buddyinfo"@) by { reveal_strlit("buddyinfo"); }
            assert("/proc/"@ + "buddyinfo"@ =~= "/proc/buddyinfo"@) by { reveal_strlit("buddyinfo"); }
            assert(s.description().subrange(s.description().len() - "/proc/buddyinfo"@.len() - 1, s.description().len() as int) =~= "/proc/buddyinfo"@ + "."@);
        },
        SystemReadSelector::ProcZoneinfo => {
            reveal_strlit("proc_zoneinfo");
            reveal_strlit("/proc/zoneinfo");
            reveal_strlit("Current zone watermarks and page accounting from /proc/zoneinfo.");
            assert(s.name().skip(5) =~= "zoneinfo"@) by { reveal_strlit("zoneinfo"); }
            assert("/proc/"@ + "zoneinfo"@ =~= "/proc/zoneinfo"@) by { reveal_strlit("zoneinfo"); }
            assert(s.description().subrange(s.description().len() - "/proc/zoneinfo"@.len() - 1, s.description().len() as int) =~= "/proc/zoneinfo"@ + "."@);
        },
        SystemReadSelector::ProcIomem => {
            reveal_strlit("proc_iomem");
            reveal_strlit("/proc/iomem");
            reveal_strlit("Current physical memory map from /proc/iomem.");
            assert(s.name().skip(5) =~= "iomem"@) by { reveal_strlit("iomem"); }
            assert("/proc/"@ + "iomem"@ =~= "/proc/iomem"@) by { reveal_strlit("iomem"); }
            assert(s.description().subrange(s.description().len() - "/proc/iomem"@.len() - 1, s.description().len() as int) =~= "/proc/iomem"@ + "."@);
        },
        SystemReadSelector::ProcIoports => {
            reveal_strlit("proc_ioports");
            reveal_strlit("/proc/ioports");
            reveal_strlit("Current I/O port allocations from /proc/ioports.");
            assert(s.name().skip(5) =~= "ioports"@) by { reveal_strlit("ioports"); }
            assert("/proc/"@ + "ioports"@ =~= "/proc/ioports"@) by { reveal_strlit("ioports"); }
            assert(s.description().subrange(s.description().len() - "/proc/ioports"@.len() - 1, s.description().len() as int) =~= "/proc/ioports"@ + "."@);
        },
        SystemReadSelector::ProcSlabinfo => {
            reveal_strlit("proc_slabinfo");
            reveal_strlit("/proc/slabinfo");
            reveal_strlit("Current slab allocator state from /proc/slabinfo.");
            assert(s.name().skip(5) =~= "slabinfo"@) by { reveal_strlit("slabinfo"); }
            assert("/proc/"@ + "slabinfo"@ =~= "/proc/slabinfo"@) by { reveal_strlit("slabinfo"); }
            assert(s.description().subrange(s.description().len() - "/proc/slabinfo"@.len() - 1, s.description().len() as int) =~= "/proc/slabinfo"@ + "."@);
        },
    }
}

/// `Path::join` of a directory and a relative file name: a `'/'` goes
/// between them unless the directory is empty or already ends with one.
pub open spec fn joined_path(dir: Seq<char>, name: Seq<char>) -> Seq<char> {
    if dir.len() == 0 {
        name
    } else if dir.last() == '/' {
        dir + name
    } else {
        dir + "/"@ + name
    }
}

fn join_file_name(dir: &String, name: &str) -> (r: String)
    ensures
        r@ == joined_path(dir@, name@),
{
    let d = chars_of(dir.as_str());
    let mut r = dir.clone();
    if d.len() > 0 && d[d.len() - 1] != '/' {
        r.append("/");
    }
    r.append(name);
    r
}

/// The last `limit` lines, or all of them when there are fewer.
pub open spec fn last_lines(all: Seq<Seq<char>>, limit: nat) -> Seq<Seq<char>> {
    if all.len() <= limit {
        all
    } else {
        all.skip(all.len() - limit)
    }
}

/// The lines of an events file that a tail of `limit` events reads.
pub open spec fn event_lines(data: Seq<char>, limit: nat) -> Seq<Seq<char>> {
    last_lines(lines(data), limit)
}

/// `r` is what the events tail of `limit` over the events file `data`
/// gives: each of the selected lines parsed, in order, or the first of them
/// that does not parse.
pub open spec fn events_tail_outcome(data: Seq<char>, limit: nat, r: Result<KernelEventsTail, CiluxError>) -> bool {
    let lines = event_lines(data, limit);
    &&& r is Ok == (forall|i: int| 0 <= i < lines.len() ==> json_accepts(#[trigger] lines[i]))
    &&& r matches Ok(tail) ==> tail.events@.len() == lines.len()
        && forall|i: int| 0 <= i < tail.events@.len() ==> json_document(#[trigger] lines[i]) == Some(tail.events@[i])
    &&& r matches Err(e) ==> exists|k: int| {
        &&& 0 <= k < lines.len()
        &&& !json_accepts(#[trigger] lines[k])
        &&& forall|j: int| 0 <= j < k ==> json_accepts(lines[j])
        &&& e matches CiluxError::ParseEventLine { line, cause } && line@ == lines[k] && cause@ == json_refusal(lines[k])
    }
}

/// An events file with no text, as the kernel leaves it after a buffer
/// clear, gives an empty tail whatever the limit.
pub proof fn lemma_empty_events_file_tail(limit: nat, r: Result<KernelEventsTail, CiluxError>)
    requires
        events_tail_outcome(Seq::empty(), limit, r),
    ensures
        r matches Ok(tail) && tail.events@.len() == 0,
{
    assert(lines(Seq::<char>::empty()) == Seq::<Seq<char>>::empty());
    assert(event_lines(Seq::empty(), limit).len() == 0);
}

/// `r` is the answer to a trace configure whose applied mask is `applied`,
/// given the state file `raw` read from the debugfs directory `root`.
pub open spec fn configure_outcome(root: Seq<char>, applied: u32, raw: Seq<char>, r: Result<TraceConfigureResult, CiluxError>) -> bool {
    &&& r is Ok == json_accepts(raw)
    &&& r matches Ok(result) ==> result.trace_mask == applied && json_document(raw) == Some(result.state)
    &&& r matches Err(e) ==> e matches CiluxError::ParseFile { path, cause } && path@ == joined_path(root, "state.json"@)
        && cause@ == json_refusal(raw)
}

/// `s` is the trace status that the kernel state `state` stands for.
pub open spec fn is_status_of(s: TraceStatusResult, state: KernelState) -> bool {
    &&& s.trace_mask == state.trace_mask
    &&& s.supported_mask == state.supported_mask
    &&& s.drop_count == state.drop_count
    &&& s.event_count == state.event_count
    &&& s.ring_capacity == state.ring_capacity
    &&& s.enabled_categories@ == categories_of_mask(state.trace_mask)
    &&& s.supported_categories@ == categories_of_mask(state.supported_mask)
}

/// `r` is the mask an enable of `categories` applies to the kernel state
/// `state`, or the refusal of the request.
pub open spec fn enable_outcome(state: KernelState, categories: Seq<TraceCategory>, r: Result<u32, CiluxError>) -> bool {
    &&& categories.len() == 0 ==> r == Err::<u32, CiluxError>(CiluxError::EmptyTraceCategories)
    &&& categories.len() > 0 && unsupported_bits(state.supported_mask, mask_of(categories)) != 0
        ==> refuses_unsupported(r, unsupported_bits(state.supported_mask, mask_of(categories)))
    &&& categories.len() > 0 && unsupported_bits(state.supported_mask, mask_of(categories)) == 0
        ==> r == Ok::<u32, CiluxError>(state.trace_mask | mask_of(categories))
}

/// `r` is the mask a disable of `categories` applies to the kernel state
/// `state`, or the refusal of the request.
pub open spec fn disable_outcome(state: KernelState, categories: Seq<TraceCategory>, r: Result<u32, CiluxError>) -> bool {
    &&& categories.len() == 0 ==> r == Err::<u32, CiluxError>(CiluxError::EmptyTraceCategories)
    &&& categories.len() > 0 && unsupported_bits(state.supported_mask, mask_of(categories)) != 0
        ==> refuses_unsupported(r, unsupported_bits(state.supported_mask, mask_of(categories)))
    &&& categories.len() > 0 && unsupported_bits(state.supported_mask, mask_of(categories)) == 0
        ==> r == Ok::<u32, CiluxError>(state.trace_mask & !mask_of(categories))
}

/// `r` is the health report of a broker with pid `broker_pid` on socket
/// `socket_path` and audit log `audit_log`, given which debugfs files exist
/// and whether the kernel answered a ping.
pub open spec fn is_health_report(
    r: HealthReport,
    audit_log: Seq<char>,
    broker_pid: u32,
    socket_path: Seq<char>,
    caps_exists: bool,
    state_exists: bool,
    events_exists: bool,
    netlink_ready: bool,
) -> bool {
    &&& r.broker_pid == broker_pid
    &&& r.socket_path@ == socket_path
    &&& r.audit_log_path@ == audit_log
    &&& r.debugfs_ready == (caps_exists && state_exists && events_exists)
    &&& r.netlink_ready == netlink_ready
    &&& r.app_server_port == DEFAULT_APP_SERVER_PORT
    &&& r.capabilities.kernel_snapshot == (caps_exists && state_exists)
    &&& r.capabilities.events_tail == events_exists
    &&& r.capabilities.trace_control == netlink_ready
    &&& r.guest_mode == guest_mode_of(r.capabilities)
}

/// Where the broker finds the kernel module's debugfs files and its audit log.
pub struct KernelFacade {
    debugfs_root: String,
    audit_log_path: String,
}

impl KernelFacade {
    /// The debugfs directory.
    pub closed spec fn root(&self) -> Seq<char> {
        self.debugfs_root@
    }

    /// The audit log's path.
    pub closed spec fn audit_log(&self) -> Seq<char> {
        self.audit_log_path@
    }

    pub fn new(debugfs_root: &str, audit_log_path: &str) -> (r: KernelFacade)
        ensures
            r.root() == debugfs_root@,
            r.audit_log() == audit_log_path@,
    {
        KernelFacade { debugfs_root: debugfs_root.to_owned(), audit_log_path: audit_log_path.to_owned() }
    }

    pub fn caps_path(&self) -> (r: String)
        ensures
            r@ == joined_path(self.root(), "caps.json"@),
    {
        join_file_name(&self.debugfs_root, "caps.json")
    }

    pub fn state_path(&self) -> (r: String)
        ensures
            r@ == joined_path(self.root(), "state.json"@),
    {
        join_file_name(&self.debugfs_root, "state.json")
    }

    pub fn events_path(&self) -> (r: String)
        ensures
            r@ == joined_path(self.root(), "events.ndjson"@),
    {
        join_file_name(&self.debugfs_root, "events.ndjson")
    }

    /// The kernel snapshot, given the contents of the caps and state files;
    /// the first of them that does not parse is reported with its path.
    pub fn kernel_snapshot(&self, caps_raw: &str, state_raw: &str) -> (r: Result<KernelSnapshot, CiluxError>)
        ensures
            r is Ok == (json_accepts(caps_raw@) && json_accepts(state_raw@)),
            r matches Ok(snapshot) ==> json_document(caps_raw@) == Some(snapshot.caps)
                && json_document(state_raw@) == Some(snapshot.state),
            !json_accepts(caps_raw@) ==> (r matches Err(CiluxError::ParseFile { path, cause }) && cause@ == json_refusal(caps_raw@)
                && path@ == joined_path(self.root(), "caps.json"@)),
            json_accepts(caps_raw@) && !json_accepts(state_raw@) ==> (r matches Err(
                CiluxError::ParseFile { path, cause },
            ) && cause@ == json_refusal(state_raw@) && path@ == joined_path(self.root(), "state.json"@)),
    {
        let caps = parse_json_file(self.caps_path().as_str(), caps_raw)?;
        let state = parse_json_file(self.state_path().as_str(), state_raw)?;
        Ok(KernelSnapshot { caps, state })
    }

    /// The answer to a trace-configure request, given the mask the kernel
    /// reported after the change and the contents of the state file read
    /// afterwards; a state file that does not parse is reported with its path.
    pub fn trace_configure(&self, applied_mask: u32, state_raw: &str) -> (r: Result<TraceConfigureResult, CiluxError>)
        ensures
            r is Ok == json_accepts(state_raw@),
            r matches Ok(result) ==> result.trace_mask == applied_mask
                && json_document(state_raw@) == Some(result.state),
            r matches Err(e) ==> e matches CiluxError::ParseFile { path, cause } && cause@ == json_refusal(state_raw@)
                && path@ == joined_path(self.root(), "state.json"@),
    {
        let state = parse_json_file(self.state_path().as_str(), state_raw)?;
        Ok(TraceConfigureResult { trace_mask: applied_mask, state })
    }

    /// The newest `limit` events of the events file `data`, oldest first;
    /// the first of them that is not JSON is reported.
    pub fn kernel_events_tail(&self, data: &str, limit: usize) -> (r: Result<KernelEventsTail, CiluxError>)
        ensures
            r is Ok == (forall|i: int| 0 <= i < event_lines(data@, limit as nat).len()
                ==> json_accepts(#[trigger] event_lines(data@, limit as nat)[i])),
            r matches Ok(tail) ==> tail.events@.len() == event_lines(data@, limit as nat).len()
                && forall|i: int| 0 <= i < tail.events@.len()
                    ==> json_document(#[trigger] event_lines(data@, limit as nat)[i]) == Some(tail.events@[i]),
            r matches Err(e) ==> exists|k: int| {
                &&& 0 <= k < event_lines(data@, limit as nat).len()
                &&& !json_accepts(#[trigger] event_lines(data@, limit as nat)[k])
                &&& forall|j: int| 0 <= j < k ==> json_accepts(event_lines(data@, limit as nat)[j])
                &&& e matches CiluxError::ParseEventLine { line, cause } && line@ == event_lines(data@, limit as nat)[k]
                    && cause@ == json_refusal(event_lines(data@, limit as nat)[k])
            },
    {
        let chars = chars_of(data);
        let all = split_lines(chars.as_slice());
        let ghost selected = event_lines(data@, limit as nat);
        let start = if all.len() <= limit { 0 } else { all.len() - limit };
        assert(selected.len() == all@.len() - start);
        assert forall|i: int| 0 <= i < selected.len() implies #[trigger] selected[i] == all@[start + i]@ by {
            assert(selected[i] == lines(data@)[start + i]);
        }
        let mut events: Vec<serde_json::Value> = Vec::new();
        let mut i: usize = start;
        while i < all.len()
            invariant
                start <= i <= all@.len(),
                selected == event_lines(data@, limit as nat),
                selected.len() == all@.len() - start,
                forall|k: int| 0 <= k < selected.len() ==> #[trigger] selected[k] == all@[start + k]@,
                events@.len() == i - start,
                forall|j: int| 0 <= j < i - start ==> json_accepts(#[trigger] selected[j]),
                forall|j: int| 0 <= j < i - start ==> json_document(#[trigger] selected[j]) == Some(events@[j]),
            decreases all@.len() - i,
        {
            let line = string_from_chars(all[i].as_slice());
            assert(line@ == selected[i - start]);
            match parse_event_line(line.as_str()) {
                Ok(value) => events.push(value),
                Err(e) => {
                    proof {
                        let k = i - start;
                        assert(!json_accepts(event_lines(data@, limit as nat)[k]));
                        assert(forall|j: int| 0 <= j < k ==> json_accepts(#[trigger] event_lines(data@, limit as nat)[j]));
                    }
                    return Err(e);
                },
            }
            i = i + 1;
        }
        Ok(KernelEventsTail { events })
    }

    /// The trace status a kernel state reading stands for.
    pub fn trace_status(&self, state: KernelState) -> (r: TraceStatusResult)
        ensures
            r.trace_mask == state.trace_mask,
            r.supported_mask == state.supported_mask,
            r.drop_count == state.drop_count,
            r.event_count == state.event_count,
            r.ring_capacity == state.ring_capacity,
            r.enabled_categories@ == categories_of_mask(state.trace_mask),
            r.supported_categories@ == categories_of_mask(state.supported_mask),
    {
        trace_status_from_kernel_state(state)
    }

    /// The mask to apply for a trace-enable request, given the kernel's state.
    pub fn trace_enable(&self, state: KernelState, categories: &[TraceCategory]) -> (r: Result<u32, CiluxError>)
        ensures
            categories@.len() == 0 ==> r == Err::<u32, CiluxError>(CiluxError::EmptyTraceCategories),
            categories@.len() > 0 && unsupported_bits(state.supported_mask, mask_of(categories@)) != 0 ==> refuses_unsupported(r, unsupported_bits(state.supported_mask, mask_of(categories@))),
            categories@.len() > 0 && unsupported_bits(state.supported_mask, mask_of(categories@)) == 0 ==> r == Ok::<u32, CiluxError>(
                state.trace_mask | mask_of(categories@),
            ),
    {
        trace_enable_mask(state.trace_mask, state.supported_mask, categories)
    }

    /// The mask to apply for a trace-disable request, given the kernel's state.
    pub fn trace_disable(&self, state: KernelState, categories: &[TraceCategory]) -> (r: Result<u32, CiluxError>)
        ensures
            categories@.len() == 0 ==> r == Err::<u32, CiluxError>(CiluxError::EmptyTraceCategories),
            categories@.len() > 0 && unsupported_bits(state.supported_mask, mask_of(categories@)) != 0 ==> refuses_unsupported(r, unsupported_bits(state.supported_mask, mask_of(categories@))),
            categories@.len() > 0 && unsupported_bits(state.supported_mask, mask_of(categories@)) == 0 ==> r == Ok::<u32, CiluxError>(
                state.trace_mask & !mask_of(categories@),
            ),
    {
        trace_disable_mask(state.trace_mask, state.supported_mask, categories)
    }

    /// The mask to apply to reset tracing to the default, given the kernel's state.
    pub fn trace_reset_default(&self, state: KernelState) -> (r: u32)
        ensures
            r == TRACE_DEFAULT_MASK & state.supported_mask,
    {
        trace_reset_default_mask(state.supported_mask)
    }

    /// The answer to a buffer clear, given how many events the kernel
    /// reports left in the ring: success when none are.
    pub fn buffer_clear(&self, remaining: u32) -> (r: StatusResult)
        ensures
            r.ok == (remaining == 0),
    {
        StatusResult { ok: remaining == 0 }
    }

    /// The health report, given whether each debugfs file exists and
    /// whether the kernel answered a ping.
    pub fn health(
        &self,
        broker_pid: u32,
        socket_path: &str,
        caps_exists: bool,
        state_exists: bool,
        events_exists: bool,
        netlink_ready: bool,
    ) -> (r: HealthReport)
        ensures
            r.broker_pid == broker_pid,
            r.socket_path@ == socket_path@,
            r.audit_log_path@ == self.audit_log(),
            r.debugfs_ready == (caps_exists && state_exists && events_exists),
            r.netlink_ready == netlink_ready,
            r.app_server_port == DEFAULT_APP_SERVER_PORT,
            r.capabilities.kernel_snapshot == (caps_exists && state_exists),
            r.capabilities.events_tail == events_exists,
            r.capabilities.trace_control == netlink_ready,
            r.guest_mode == guest_mode_of(r.capabilities),
    {
        let capabilities = BrokerCapabilities {
            kernel_snapshot: caps_exists && state_exists,
            events_tail: events_exists,
            trace_control: netlink_ready,
        };
        let guest_mode = if capabilities.kernel_snapshot || capabilities.events_tail || capabilities.trace_control {
            GuestMode::ResearchKernel
        } else {
            GuestMode::DesktopStockKernel
        };
        HealthReport {
            broker_pid,
            socket_path: socket_path.to_owned(),
            audit_log_path: self.audit_log_path.clone(),
            guest_mode,
            debugfs_ready: caps_exists && state_exists && events_exists,
            netlink_ready,
            app_server_port: DEFAULT_APP_SERVER_PORT,
            capabilities,
        }
    }

    /// The answer to a system read, given the text that was read.
    pub fn system_read(&self, selector: SystemReadSelector, text: String) -> (r: SystemReadResult)
        ensures
            r.selector == selector,
            r.text == text,
    {
        SystemReadResult { selector, text }
    }
}

impl Default for KernelFacade {
    fn default() -> (r: KernelFacade)
        ensures
            r.root() == DEFAULT_DEBUGFS_ROOT@,
            r.audit_log() == "/var/log/cilux-broker.log"@,
    {
        KernelFacade::new(DEFAULT_DEBUGFS_ROOT, "/var/log/cilux-broker.log")
    }
}

} // verus!
