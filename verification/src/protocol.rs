//! The messages exchanged between the broker and its clients, and the
//! vocabulary they share: trace categories, system-read selectors and the
//! trace-mask bits.

use vstd::prelude::*;
use crate::error::CiluxError;
use crate::text::str_eq;

verus! {

pub const DEFAULT_BROKER_SOCKET: &'static str = "/run/cilux-broker.sock";
pub const DEFAULT_DEBUGFS_ROOT: &'static str = "/sys/kernel/debug/cilux";
pub const DEFAULT_AUDIT_LOG: &'static str = "/var/log/cilux-broker.log";
pub const DEFAULT_APP_SERVER_PORT: u16 = 8765;

pub const TRACE_EXEC: u32 = 1;
pub const TRACE_EXIT: u32 = 2;
pub const TRACE_MODULE: u32 = 4;
pub const TRACE_OOM: u32 = 8;
pub const TRACE_DEFAULT_MASK: u32 = 15;

pub const FAMILY_NAME: &'static str = "cilux";
pub const FAMILY_VERSION: u8 = 1;

/// The curated, read-only views of guest state that the broker serves.
#[derive(Debug, Clone, Copy, PartialEq, Eq, Hash)]
pub enum SystemReadSelector {
    Dmesg,
    ProcCmdline,
    ProcModules,
    ProcVersion,
    ProcMeminfo,
    ProcLoadavg,
    ProcUptime,
    ProcCpuinfo,
    ProcInterrupts,
    ProcSoftirqs,
    ProcVmstat,
    ProcBuddyinfo,
    ProcZoneinfo,
    ProcIomem,
    ProcIoports,
    ProcSlabinfo,
}

impl SystemReadSelector {
    /// Every selector, in declaration order.
    pub const ALL: [SystemReadSelector; 16] = [
        SystemReadSelector::Dmesg,
        SystemReadSelector::ProcCmdline,
        SystemReadSelector::ProcModules,
        SystemReadSelector::ProcVersion,
        SystemReadSelector::ProcMeminfo,
        SystemReadSelector::ProcLoadavg,
        SystemReadSelector::ProcUptime,
        SystemReadSelector::ProcCpuinfo,
        SystemReadSelector::ProcInterrupts,
        SystemReadSelector::ProcSoftirqs,
        SystemReadSelector::ProcVmstat,
        SystemReadSelector::ProcBuddyinfo,
        SystemReadSelector::ProcZoneinfo,
        SystemReadSelector::ProcIomem,
        SystemReadSelector::ProcIoports,
        SystemReadSelector::ProcSlabinfo,
    ];

    /// The selectors in the order of `ALL`.
    pub open spec fn all_spec() -> Seq<SystemReadSelector> {
        seq![SystemReadSelector::Dmesg, SystemReadSelector::ProcCmdline, SystemReadSelector::ProcModules, SystemReadSelector::ProcVersion, SystemReadSelector::ProcMeminfo, SystemReadSelector::ProcLoadavg, SystemReadSelector::ProcUptime, SystemReadSelector::ProcCpuinfo, SystemReadSelector::ProcInterrupts, SystemReadSelector::ProcSoftirqs, SystemReadSelector::ProcVmstat, SystemReadSelector::ProcBuddyinfo, SystemReadSelector::ProcZoneinfo, SystemReadSelector::ProcIomem, SystemReadSelector::ProcIoports, SystemReadSelector::ProcSlabinfo]
    }

    /// The selector's wire name.
    pub open spec fn name(self) -> Seq<char> {
        match self {
            SystemReadSelector::Dmesg => "dmesg"@,
            SystemReadSelector::ProcCmdline => "proc_cmdline"@,
            SystemReadSelector::ProcModules => "proc_modules"@,
            SystemReadSelector::ProcVersion => "proc_version"@,
            SystemReadSelector::ProcMeminfo => "proc_meminfo"@,
            SystemReadSelector::ProcLoadavg => "proc_loadavg"@,
            SystemReadSelector::ProcUptime => "proc_uptime"@,
            SystemReadSelector::ProcCpuinfo => "proc_cpuinfo"@,
            SystemReadSelector::ProcInterrupts => "proc_interrupts"@,
            SystemReadSelector::ProcSoftirqs => "proc_softirqs"@,
            SystemReadSelector::ProcVmstat => "proc_vmstat"@,
            SystemReadSelector::ProcBuddyinfo => "proc_buddyinfo"@,
            SystemReadSelector::ProcZoneinfo => "proc_zoneinfo"@,
            SystemReadSelector::ProcIomem => "proc_iomem"@,
            SystemReadSelector::ProcIoports => "proc_ioports"@,
            SystemReadSelector::ProcSlabinfo => "proc_slabinfo"@,
        }
    }

    /// The MCP resource URI under which the selector is published.
    pub open spec fn uri(self) -> Seq<char> {
        match self {
            SystemReadSelector::Dmesg => "cilux://system/dmesg"@,
            SystemReadSelector::ProcCmdline => "cilux://system/proc_cmdline"@,
            SystemReadSelector::ProcModules => "cilux://system/proc_modules"@,
            SystemReadSelector::ProcVersion => "cilux://system/proc_version"@,
            SystemReadSelector::ProcMeminfo => "cilux://system/proc_meminfo"@,
            SystemReadSelector::ProcLoadavg => "cilux://system/proc_loadavg"@,
            SystemReadSelector::ProcUptime => "cilux://system/proc_uptime"@,
            SystemReadSelector::ProcCpuinfo => "cilux://system/proc_cpuinfo"@,
            SystemReadSelector::ProcInterrupts => "cilux://system/proc_interrupts"@,
            SystemReadSelector::ProcSoftirqs => "cilux://system/proc_softirqs"@,
            SystemReadSelector::ProcVmstat => "cilux://system/proc_vmstat"@,
            SystemReadSelector::ProcBuddyinfo => "cilux://system/proc_buddyinfo"@,
            SystemReadSelector::ProcZoneinfo => "cilux://system/proc_zoneinfo"@,
            SystemReadSelector::ProcIomem => "cilux://system/proc_iomem"@,
            SystemReadSelector::ProcIoports => "cilux://system/proc_ioports"@,
            SystemReadSelector::ProcSlabinfo => "cilux://system/proc_slabinfo"@,
        }
    }

    /// The MCP resource's display name.
    pub open spec fn display_name(self) -> Seq<char> {
        match self {
            SystemReadSelector::Dmesg => "Guest Dmesg"@,
            SystemReadSelector::ProcCmdline => "Guest Proc Cmdline"@,
            SystemReadSelector::ProcModules => "Guest Proc Modules"@,
            SystemReadSelector::ProcVersion => "Guest Proc Version"@,
            SystemReadSelector::ProcMeminfo => "Guest Proc Meminfo"@,
            SystemReadSelector::ProcLoadavg => "Guest Proc Loadavg"@,
            SystemReadSelector::ProcUptime => "Guest Proc Uptime"@,
            SystemReadSelector::ProcCpuinfo => "Guest Proc Cpuinfo"@,
            SystemReadSelector::ProcInterrupts => "Guest Proc Interrupts"@,
            SystemReadSelector::ProcSoftirqs => "Guest Proc Softirqs"@,
            SystemReadSelector::ProcVmstat => "Guest Proc Vmstat"@,
            SystemReadSelector::ProcBuddyinfo => "Guest Proc Buddyinfo"@,
            SystemReadSelector::ProcZoneinfo => "Guest Proc Zoneinfo"@,
            SystemReadSelector::ProcIomem => "Guest Proc Iomem"@,
            SystemReadSelector::ProcIoports => "Guest Proc Ioports"@,
            SystemReadSelector::ProcSlabinfo => "Guest Proc Slabinfo"@,
        }
    }

    /// The MCP resource's description.
    pub open spec fn description(self) -> Seq<char> {
        match self {
            SystemReadSelector::Dmesg => "Kernel ring buffer via the broker's curated system read path."@,
            SystemReadSelector::ProcCmdline => "Current boot arguments from /proc/cmdline."@,
            SystemReadSelector::ProcModules => "Current loaded kernel modules from /proc/modules."@,
            SystemReadSelector::ProcVersion => "Kernel build identity from /proc/version."@,
            SystemReadSelector::ProcMeminfo => "Current memory accounting from /proc/meminfo."@,
            SystemReadSelector::ProcLoadavg => "Current scheduler load from /proc/loadavg."@,
            SystemReadSelector::ProcUptime => "Current uptime from /proc/uptime."@,
            SystemReadSelector::ProcCpuinfo => "Current CPU topology and features from /proc/cpuinfo."@,
            SystemReadSelector::ProcInterrupts => "Current interrupt counters from /proc/interrupts."@,
            SystemReadSelector::ProcSoftirqs => "Current softirq counters from /proc/softirqs."@,
            SystemReadSelector::ProcVmstat => "Current virtual-memory counters from /proc/vmstat."@,
            SystemReadSelector::ProcBuddyinfo => "Current page allocator free-area state from /proc/buddyinfo."@,
            SystemReadSelector::ProcZoneinfo => "Current zone watermarks and page accounting from /proc/zoneinfo."@,
            SystemReadSelector::ProcIomem => "Current physical memory map from /proc/iomem."@,
            SystemReadSelector::ProcIoports => "Current I/O port allocations from /proc/ioports."@,
            SystemReadSelector::ProcSlabinfo => "Current slab allocator state from /proc/slabinfo."@,
        }
    }

    pub fn as_str(self) -> (s: &'static str)
        ensures
            s@ == self.name(),
    {
        match self {
            SystemReadSelector::Dmesg => "dmesg",
            SystemReadSelector::ProcCmdline => "proc_cmdline",
            SystemReadSelector::ProcModules => "proc_modules",
            SystemReadSelector::ProcVersion => "proc_version",
            SystemReadSelector::ProcMeminfo => "proc_meminfo",
            SystemReadSelector::ProcLoadavg => "proc_loadavg",
            SystemReadSelector::ProcUptime => "proc_uptime",
            SystemReadSelector::ProcCpuinfo => "proc_cpuinfo",
            SystemReadSelector::ProcInterrupts => "proc_interrupts",
            SystemReadSelector::ProcSoftirqs => "proc_softirqs",
            SystemReadSelector::ProcVmstat => "proc_vmstat",
            SystemReadSelector::ProcBuddyinfo => "proc_buddyinfo",
            SystemReadSelector::ProcZoneinfo => "proc_zoneinfo",
            SystemReadSelector::ProcIomem => "proc_iomem",
            SystemReadSelector::ProcIoports => "proc_ioports",
            SystemReadSelector::ProcSlabinfo => "proc_slabinfo",
        }
    }

    pub fn resource_uri(self) -> (s: &'static str)
        ensures
            s@ == self.uri(),
    {
        match self {
            SystemReadSelector::Dmesg => "cilux://system/dmesg",
            SystemReadSelector::ProcCmdline => "cilux://system/proc_cmdline",
            SystemReadSelector::ProcModules => "cilux://system/proc_modules",
            SystemReadSelector::ProcVersion => "cilux://system/proc_version",
            SystemReadSelector::ProcMeminfo => "cilux://system/proc_meminfo",
            SystemReadSelector::ProcLoadavg => "cilux://system/proc_loadavg",
            SystemReadSelector::ProcUptime => "cilux://system/proc_uptime",
            SystemReadSelector::ProcCpuinfo => "cilux://system/proc_cpuinfo",
            SystemReadSelector::ProcInterrupts => "cilux://system/proc_interrupts",
            SystemReadSelector::ProcSoftirqs => "cilux://system/proc_softirqs",
            SystemReadSelector::ProcVmstat => "cilux://system/proc_vmstat",
            SystemReadSelector::ProcBuddyinfo => "cilux://system/proc_buddyinfo",
            SystemReadSelector::ProcZoneinfo => "cilux://system/proc_zoneinfo",
            SystemReadSelector::ProcIomem => "cilux://system/proc_iomem",
            SystemReadSelector::ProcIoports => "cilux://system/proc_ioports",
            SystemReadSelector::ProcSlabinfo => "cilux://system/proc_slabinfo",
        }
    }

    pub fn resource_name(self) -> (s: &'static str)
        ensures
            s@ == self.display_name(),
    {
        match self {
            SystemReadSelector::Dmesg => "Guest Dmesg",
            SystemReadSelector::ProcCmdline => "Guest Proc Cmdline",
            SystemReadSelector::ProcModules => "Guest Proc Modules",
            SystemReadSelector::ProcVersion => "Guest Proc Version",
            SystemReadSelector::ProcMeminfo => "Guest Proc Meminfo",
            SystemReadSelector::ProcLoadavg => "Guest Proc Loadavg",
            SystemReadSelector::ProcUptime => "Guest Proc Uptime",
            SystemReadSelector::ProcCpuinfo => "Guest Proc Cpuinfo",
            SystemReadSelector::ProcInterrupts => "Guest Proc Interrupts",
            SystemReadSelector::ProcSoftirqs => "Guest Proc Softirqs",
            SystemReadSelector::ProcVmstat => "Guest Proc Vmstat",
            SystemReadSelector::ProcBuddyinfo => "Guest Proc Buddyinfo",
            SystemReadSelector::ProcZoneinfo => "Guest Proc Zoneinfo",
            SystemReadSelector::ProcIomem => "Guest Proc Iomem",
            SystemReadSelector::ProcIoports => "Guest Proc Ioports",
            SystemReadSelector::ProcSlabinfo => "Guest Proc Slabinfo",
        }
    }

    pub fn resource_description(self) -> (s: &'static str)
        ensures
            s@ == self.description(),
    {
        match self {
            SystemReadSelector::Dmesg => "Kernel ring buffer via the broker's curated system read path.",
            SystemReadSelector::ProcCmdline => "Current boot arguments from /proc/cmdline.",
            SystemReadSelector::ProcModules => "Current loaded kernel modules from /proc/modules.",
            SystemReadSelector::ProcVersion => "Kernel build identity from /proc/version.",
            SystemReadSelector::ProcMeminfo => "Current memory accounting from /proc/meminfo.",
            SystemReadSelector::ProcLoadavg => "Current scheduler load from /proc/loadavg.",
            SystemReadSelector::ProcUptime => "Current uptime from /proc/uptime.",
            SystemReadSelector::ProcCpuinfo => "Current CPU topology and features from /proc/cpuinfo.",
            SystemReadSelector::ProcInterrupts => "Current interrupt counters from /proc/interrupts.",
            SystemReadSelector::ProcSoftirqs => "Current softirq counters from /proc/softirqs.",
            SystemReadSelector::ProcVmstat => "Current virtual-memory counters from /proc/vmstat.",
            SystemReadSelector::ProcBuddyinfo => "Current page allocator free-area state from /proc/buddyinfo.",
            SystemReadSelector::ProcZoneinfo => "Current zone watermarks and page accounting from /proc/zoneinfo.",
            SystemReadSelector::ProcIomem => "Current physical memory map from /proc/iomem.",
            SystemReadSelector::ProcIoports => "Current I/O port allocations from /proc/ioports.",
            SystemReadSelector::ProcSlabinfo => "Current slab allocator state from /proc/slabinfo.",
        }
    }

    /// Parses a selector from its wire name.
    pub fn parse(selector: &str) -> (r: Result<SystemReadSelector, CiluxError>)
        ensures
            match r {
                Ok(x) => x.name() == selector@,
                Err(e) => (forall|x: SystemReadSelector| #[trigger] x.name() != selector@)
                    && e.unknown_system_selector_named(selector@),
            },
    {
        if str_eq(selector, "dmesg") {
            return Ok(SystemReadSelector::Dmesg);
        }
        if str_eq(selector, "proc_cmdline") {
            return Ok(SystemReadSelector::ProcCmdline);
        }
        if str_eq(selector, "proc_modules") {
            return Ok(SystemReadSelector::ProcModules);
        }
        if str_eq(selector, "proc_version") {
            return Ok(SystemReadSelector::ProcVersion);
        }
        if str_eq(selector, "proc_meminfo") {
            return Ok(SystemReadSelector::ProcMeminfo);
        }
        if str_eq(selector, "proc_loadavg") {
            return Ok(SystemReadSelector::ProcLoadavg);
        }
        if str_eq(selector, "proc_uptime") {
            return Ok(SystemReadSelector::ProcUptime);
        }
        if str_eq(selector, "proc_cpuinfo") {
            return Ok(SystemReadSelector::ProcCpuinfo);
        }
        if str_eq(selector, "proc_interrupts") {
            return Ok(SystemReadSelector::ProcInterrupts);
        }
        if str_eq(selector, "proc_softirqs") {
            return Ok(SystemReadSelector::ProcSoftirqs);
        }
        if str_eq(selector, "proc_vmstat") {
            return Ok(SystemReadSelector::ProcVmstat);
        }
        if str_eq(selector, "proc_buddyinfo") {
            return Ok(SystemReadSelector::ProcBuddyinfo);
        }
        if str_eq(selector, "proc_zoneinfo") {
            return Ok(SystemReadSelector::ProcZoneinfo);
        }
        if str_eq(selector, "proc_iomem") {
            return Ok(SystemReadSelector::ProcIomem);
        }
        if str_eq(selector, "proc_ioports") {
            return Ok(SystemReadSelector::ProcIoports);
        }
        if str_eq(selector, "proc_slabinfo") {
            return Ok(SystemReadSelector::ProcSlabinfo);
        }
        proof {
            assert forall|x: SystemReadSelector| #[trigger] x.name() != selector@ by {
                match x {
                    SystemReadSelector::Dmesg => {},
                    SystemReadSelector::ProcCmdline => {},
                    SystemReadSelector::ProcModules => {},
                    SystemReadSelector::ProcVersion => {},
                    SystemReadSelector::ProcMeminfo => {},
                    SystemReadSelector::ProcLoadavg => {},
                    SystemReadSelector::ProcUptime => {},
                    SystemReadSelector::ProcCpuinfo => {},
                    SystemReadSelector::ProcInterrupts => {},
                    SystemReadSelector::ProcSoftirqs => {},
                    SystemReadSelector::ProcVmstat => {},
                    SystemReadSelector::ProcBuddyinfo => {},
                    SystemReadSelector::ProcZoneinfo => {},
                    SystemReadSelector::ProcIomem => {},
                    SystemReadSelector::ProcIoports => {},
                    SystemReadSelector::ProcSlabinfo => {},
                }
            }
        }
        Err(CiluxError::UnknownSystemSelector { selector: selector.to_owned() })
    }
}

impl std::str::FromStr for SystemReadSelector {
    type Err = CiluxError;

    /// Parses a selector from its wire name, as `SystemReadSelector::parse` does.
    fn from_str(selector: &str) -> (r: Result<SystemReadSelector, CiluxError>)
        ensures
            match r {
                Ok(x) => x.name() == selector@,
                Err(e) => (forall|x: SystemReadSelector| #[trigger] x.name() != selector@)
                    && e.unknown_system_selector_named(selector@),
            },
    {
        SystemReadSelector::parse(selector)
    }
}

/// Distinct selectors have distinct wire names, so a name read back with
/// `parse` gives the selector it was written for.
pub proof fn lemma_system_read_selector_names_distinct(x: SystemReadSelector, y: SystemReadSelector)
    ensures
        x.name() == y.name() ==> x == y,
{
    reveal_strlit("dmesg");
    reveal_strlit("proc_cmdline");
    reveal_strlit("proc_modules");
    reveal_strlit("proc_version");
    reveal_strlit("proc_meminfo");
    reveal_strlit("proc_loadavg");
    reveal_strlit("proc_uptime");
    reveal_strlit("proc_cpuinfo");
    reveal_strlit("proc_interrupts");
    reveal_strlit("proc_softirqs");
    reveal_strlit("proc_vmstat");
    reveal_strlit("proc_buddyinfo");
    reveal_strlit("proc_zoneinfo");
    reveal_strlit("proc_iomem");
    reveal_strlit("proc_ioports");
    reveal_strlit("proc_slabinfo");
    if x.name() == y.name() {
        assert(x.name().len() == y.name().len());
        assert(x.name()[5] == y.name()[5]);
        assert(x.name()[6] == y.name()[6]);
        assert(x.name()[7] == y.name()[7]);
        match x {
            SystemReadSelector::Dmesg => {},
            SystemReadSelector::ProcCmdline => {},
            SystemReadSelector::ProcModules => {},
            SystemReadSelector::ProcVersion => {},
            SystemReadSelector::ProcMeminfo => {},
            SystemReadSelector::ProcLoadavg => {},
            SystemReadSelector::ProcUptime => {},
            SystemReadSelector::ProcCpuinfo => {},
            SystemReadSelector::ProcInterrupts => {},
            SystemReadSelector::ProcSoftirqs => {},
            SystemReadSelector::ProcVmstat => {},
            SystemReadSelector::ProcBuddyinfo => {},
            SystemReadSelector::ProcZoneinfo => {},
            SystemReadSelector::ProcIomem => {},
            SystemReadSelector::ProcIoports => {},
            SystemReadSelector::ProcSlabinfo => {},
        }
    }
}

/// Distinct selectors are published with distinct resource names and
/// distinct descriptions.
pub proof fn lemma_selector_resource_texts_distinct(x: SystemReadSelector, y: SystemReadSelector)
    ensures
        x.display_name() == y.display_name() ==> x == y,
        x.description() == y.description() ==> x == y,
{
    reveal_strlit("Kernel ring buffer via the broker's curated system read path.");
    reveal_strlit("Current boot arguments from /proc/cmdline.");
    reveal_strlit("Current loaded kernel modules from /proc/modules.");
    reveal_strlit("Kernel build identity from /proc/version.");
    reveal_strlit("Current memory accounting from /proc/meminfo.");
    reveal_strlit("Current scheduler load from /proc/loadavg.");
    reveal_strlit("Current uptime from /proc/uptime.");
    reveal_strlit("Current CPU topology and features from /proc/cpuinfo.");
    reveal_strlit("Current interrupt counters from /proc/interrupts.");
    reveal_strlit("Current softirq counters from /proc/softirqs.");
    reveal_strlit("Current virtual-memory counters from /proc/vmstat.");
    reveal_strlit("Current page allocator free-area state from /proc/buddyinfo.");
    reveal_strlit("Current zone watermarks and page accounting from /proc/zoneinfo.");
    reveal_strlit("Current physical memory map from /proc/iomem.");
    reveal_strlit("Current I/O port allocations from /proc/ioports.");
    reveal_strlit("Current slab allocator state from /proc/slabinfo.");
    reveal_strlit("Guest Dmesg");
    reveal_strlit("Guest Proc Cmdline");
    reveal_strlit("Guest Proc Modules");
    reveal_strlit("Guest Proc Version");
    reveal_strlit("Guest Proc Meminfo");
    reveal_strlit("Guest Proc Loadavg");
    reveal_strlit("Guest Proc Uptime");
    reveal_strlit("Guest Proc Cpuinfo");
    reveal_strlit("Guest Proc Interrupts");
    reveal_strlit("Guest Proc Softirqs");
    reveal_strlit("Guest Proc Vmstat");
    reveal_strlit("Guest Proc Buddyinfo");
    reveal_strlit("Guest Proc Zoneinfo");
    reveal_strlit("Guest Proc Iomem");
    reveal_strlit("Guest Proc Ioports");
    reveal_strlit("Guest Proc Slabinfo");
    if x.display_name() == y.display_name() {
        assert(x.display_name().len() == y.display_name().len());
        assert(x.display_name()[11] == y.display_name()[11]);
        assert(x.display_name()[12] == y.display_name()[12]);
        match x {
            SystemReadSelector::Dmesg => {},
            SystemReadSelector::ProcCmdline => {},
            SystemReadSelector::ProcModules => {},
            SystemReadSelector::ProcVersion => {},
            SystemReadSelector::ProcMeminfo => {},
            SystemReadSelector::ProcLoadavg => {},
            SystemReadSelector::ProcUptime => {},
            SystemReadSelector::ProcCpuinfo => {},
            SystemReadSelector::ProcInterrupts => {},
            SystemReadSelector::ProcSoftirqs => {},
            SystemReadSelector::ProcVmstat => {},
            SystemReadSelector::ProcBuddyinfo => {},
            SystemReadSelector::ProcZoneinfo => {},
            SystemReadSelector::ProcIomem => {},
            SystemReadSelector::ProcIoports => {},
            SystemReadSelector::ProcSlabinfo => {},
        }
    }
    if x.description() == y.description() {
        assert(x.description().len() == y.description().len());
        assert(x.description()[8] == y.description()[8]);
        match x {
            SystemReadSelector::Dmesg => {},
            SystemReadSelector::ProcCmdline => {},
            SystemReadSelector::ProcModules => {},
            SystemReadSelector::ProcVersion => {},
            SystemReadSelector::ProcMeminfo => {},
            SystemReadSelector::ProcLoadavg => {},
            SystemReadSelector::ProcUptime => {},
            SystemReadSelector::ProcCpuinfo => {},
            SystemReadSelector::ProcInterrupts => {},
            SystemReadSelector::ProcSoftirqs => {},
            SystemReadSelector::ProcVmstat => {},
            SystemReadSelector::ProcBuddyinfo => {},
            SystemReadSelector::ProcZoneinfo => {},
            SystemReadSelector::ProcIomem => {},
            SystemReadSelector::ProcIoports => {},
            SystemReadSelector::ProcSlabinfo => {},
        }
    }
}

/// The upper-case form of an ASCII lower-case letter; any other character
/// is kept.
pub open spec fn upper(c: char) -> char {
    if 'a' <= c && c <= 'z' {
        ((c as u32) - 32) as char
    } else {
        c
    }
}

/// The words of `name`, separated by `_`, each with its first letter in
/// upper case, joined by spaces.
pub open spec fn title_words(name: Seq<char>) -> Seq<char> {
    Seq::new(name.len(), |i: int| if name[i] == '_' {
        ' '
    } else if i == 0 || name[i - 1] == '_' {
        upper(name[i])
    } else {
        name[i]
    })
}

/// A selector's resource is named `Guest` followed by the words of its
/// wire name, capitalised.
pub proof fn lemma_selector_display_name_is_title(s: SystemReadSelector)
    ensures
        s.display_name() == "Guest "@ + title_words(s.name()),
{
    reveal_strlit("Guest ");
    match s {
        SystemReadSelector::Dmesg => {
            reveal_strlit("dmesg");
            reveal_strlit("Guest Dmesg");
            assert(s.display_name() =~= "Guest "@ + title_words(s.name()));
        },
        SystemReadSelector::ProcCmdline => {
            reveal_strlit("proc_cmdline");
            reveal_strlit("Guest Proc Cmdline");
            assert(s.display_name() =~= "Guest "@ + title_words(s.name()));
        },
        SystemReadSelector::ProcModules => {
            reveal_strlit("proc_modules");
            reveal_strlit("Guest Proc Modules");
            assert(s.display_name() =~= "Guest "@ + title_words(s.name()));
        },
        SystemReadSelector::ProcVersion => {
            reveal_strlit("proc_version");
            reveal_strlit("Guest Proc Version");
            assert(s.display_name() =~= "Guest "@ + title_words(s.name()));
        },
        SystemReadSelector::ProcMeminfo => {
            reveal_strlit("proc_meminfo");
            reveal_strlit("Guest Proc Meminfo");
            assert(s.display_name() =~= "Guest "@ + title_words(s.name()));
        },
        SystemReadSelector::ProcLoadavg => {
            reveal_strlit("proc_loadavg");
            reveal_strlit("Guest Proc Loadavg");
            assert(s.display_name() =~= "Guest "@ + title_words(s.name()));
        },
        SystemReadSelector::ProcUptime => {
            reveal_strlit("proc_uptime");
            reveal_strlit("Guest Proc Uptime");
            assert(s.display_name() =~= "Guest "@ + title_words(s.name()));
        },
        SystemReadSelector::ProcCpuinfo => {
            reveal_strlit("proc_cpuinfo");
            reveal_strlit("Guest Proc Cpuinfo");
            assert(s.display_name() =~= "Guest "@ + title_words(s.name()));
        },
        SystemReadSelector::ProcInterrupts => {
            reveal_strlit("proc_interrupts");
            reveal_strlit("Guest Proc Interrupts");
            assert(s.display_name() =~= "Guest "@ + title_words(s.name()));
        },
        SystemReadSelector::ProcSoftirqs => {
            reveal_strlit("proc_softirqs");
            reveal_strlit("Guest Proc Softirqs");
            assert(s.display_name() =~= "Guest "@ + title_words(s.name()));
        },
        SystemReadSelector::ProcVmstat => {
            reveal_strlit("proc_vmstat");
            reveal_strlit("Guest Proc Vmstat");
            assert(s.display_name() =~= "Guest "@ + title_words(s.name()));
        },
        SystemReadSelector::ProcBuddyinfo => {
            reveal_strlit("proc_buddyinfo");
            reveal_strlit("Guest Proc Buddyinfo");
            assert(s.display_name() =~= "Guest "@ + title_words(s.name()));
        },
        SystemReadSelector::ProcZoneinfo => {
            reveal_strlit("proc_zoneinfo");
            reveal_strlit("Guest Proc Zoneinfo");
            assert(s.display_name() =~= "Guest "@ + title_words(s.name()));
        },
        SystemReadSelector::ProcIomem => {
            reveal_strlit("proc_iomem");
            reveal_strlit("Guest Proc Iomem");
            assert(s.display_name() =~= "Guest "@ + title_words(s.name()));
        },
        SystemReadSelector::ProcIoports => {
            reveal_strlit("proc_ioports");
            reveal_strlit("Guest Proc Ioports");
            assert(s.display_name() =~= "Guest "@ + title_words(s.name()));
        },
        SystemReadSelector::ProcSlabinfo => {
            reveal_strlit("proc_slabinfo");
            reveal_strlit("Guest Proc Slabinfo");
            assert(s.display_name() =~= "Guest "@ + title_words(s.name()));
        },
    }
}

/// The kernel events that the trace mask can switch on and off.
#[derive(Debug, Clone, Copy, PartialEq, Eq, Hash)]
pub enum TraceCategory {
    SchedProcessExec,
    SchedProcessExit,
    Module,
    MarkVictim,
}

/// `seq![c]` when `on` holds, else the empty sequence.
pub open spec fn listed(on: bool, c: TraceCategory) -> Seq<TraceCategory> {
    if on {
        seq![c]
    } else {
        Seq::empty()
    }
}

/// Whether `mask` has the bit of category `c` set.
pub open spec fn mask_has(mask: u32, c: TraceCategory) -> bool {
    mask & c.bit() != 0
}

/// The categories whose bits are set in `mask`, in the order of `ALL`;
/// bits that belong to no category are ignored.
pub open spec fn categories_of_mask(mask: u32) -> Seq<TraceCategory> {
    listed(mask_has(mask, TraceCategory::SchedProcessExec), TraceCategory::SchedProcessExec)
        + listed(mask_has(mask, TraceCategory::SchedProcessExit), TraceCategory::SchedProcessExit)
        + listed(mask_has(mask, TraceCategory::Module), TraceCategory::Module)
        + listed(mask_has(mask, TraceCategory::MarkVictim), TraceCategory::MarkVictim)
}

/// The bitwise OR of the bits of the given categories.
pub open spec fn mask_of(categories: Seq<TraceCategory>) -> u32
    decreases categories.len(),
{
    if categories.len() == 0 {
        0
    } else {
        mask_of(categories.drop_last()) | categories.last().bit()
    }
}

impl TraceCategory {
    /// Every category, in declaration order.
    pub const ALL: [TraceCategory; 4] = [
        TraceCategory::SchedProcessExec,
        TraceCategory::SchedProcessExit,
        TraceCategory::Module,
        TraceCategory::MarkVictim,
    ];

    /// The categories in the order of `ALL`.
    pub open spec fn all_spec() -> Seq<TraceCategory> {
        seq![
            TraceCategory::SchedProcessExec,
            TraceCategory::SchedProcessExit,
            TraceCategory::Module,
            TraceCategory::MarkVictim,
        ]
    }

    /// The category's bit in the trace mask.
    pub open spec fn bit(self) -> u32 {
        match self {
            TraceCategory::SchedProcessExec => TRACE_EXEC,
            TraceCategory::SchedProcessExit => TRACE_EXIT,
            TraceCategory::Module => TRACE_MODULE,
            TraceCategory::MarkVictim => TRACE_OOM,
        }
    }

    /// The category's wire name.
    pub open spec fn name(self) -> Seq<char> {
        match self {
            TraceCategory::SchedProcessExec => "sched_process_exec"@,
            TraceCategory::SchedProcessExit => "sched_process_exit"@,
            TraceCategory::Module => "module"@,
            TraceCategory::MarkVictim => "mark_victim"@,
        }
    }

    pub fn as_str(self) -> (s: &'static str)
        ensures
            s@ == self.name(),
    {
        match self {
            TraceCategory::SchedProcessExec => "sched_process_exec",
            TraceCategory::SchedProcessExit => "sched_process_exit",
            TraceCategory::Module => "module",
            TraceCategory::MarkVictim => "mark_victim",
        }
    }

    pub fn mask_bit(self) -> (bit: u32)
        ensures
            bit == self.bit(),
    {
        match self {
            TraceCategory::SchedProcessExec => TRACE_EXEC,
            TraceCategory::SchedProcessExit => TRACE_EXIT,
            TraceCategory::Module => TRACE_MODULE,
            TraceCategory::MarkVictim => TRACE_OOM,
        }
    }

    /// The categories whose bits are set in `mask`, in the order of `ALL`.
    pub fn from_mask(mask: u32) -> (categories: Vec<TraceCategory>)
        ensures
            categories@ == categories_of_mask(mask),
    {
        let mut categories: Vec<TraceCategory> = Vec::new();
        let mut i: usize = 0;
        while i < 4
            invariant
                i <= 4,
                categories@ == Self::filtered(mask, i as int),
            decreases 4 - i,
        {
            let category = Self::ALL[i];
            assert(category == Self::all_spec()[i as int]);
            if mask & category.mask_bit() != 0 {
                categories.push(category);
            }
            assert(categories@ =~= Self::filtered(mask, i + 1));
            i = i + 1;
        }
        proof {
            reveal_with_fuel(TraceCategory::filtered, 5);
            assert(categories@ =~= categories_of_mask(mask));
        }
        categories
    }

    /// The categories among the first `n` of `ALL` whose bits are set in `mask`.
    pub open spec fn filtered(mask: u32, n: int) -> Seq<TraceCategory>
        decreases n,
    {
        if n <= 0 {
            Seq::empty()
        } else {
            Self::filtered(mask, n - 1) + listed(
                mask_has(mask, Self::all_spec()[n - 1]),
                Self::all_spec()[n - 1],
            )
        }
    }

    /// The bitwise OR of the bits of the given categories.
    pub fn mask_for(categories: &[TraceCategory]) -> (mask: u32)
        ensures
            mask == mask_of(categories@),
    {
        let mut mask: u32 = 0;
        let mut i: usize = 0;
        while i < categories.len()
            invariant
                i <= categories@.len(),
                mask == mask_of(categories@.take(i as int)),
            decreases categories@.len() - i,
        {
            assert(categories@.take(i + 1).drop_last() =~= categories@.take(i as int));
            mask = mask | categories[i].mask_bit();
            i = i + 1;
        }
        assert(categories@.take(categories@.len() as int) =~= categories@);
        mask
    }

    /// Parses a category from its wire name.
    pub fn parse(category: &str) -> (r: Result<TraceCategory, CiluxError>)
        ensures
            match r {
                Ok(x) => x.name() == category@,
                Err(e) => (forall|x: TraceCategory| #[trigger] x.name() != category@)
                    && e.unknown_trace_category_named(category@),
            },
    {
        if str_eq(category, "sched_process_exec") {
            return Ok(TraceCategory::SchedProcessExec);
        }
        if str_eq(category, "sched_process_exit") {
            return Ok(TraceCategory::SchedProcessExit);
        }
        if str_eq(category, "module") {
            return Ok(TraceCategory::Module);
        }
        if str_eq(category, "mark_victim") {
            return Ok(TraceCategory::MarkVictim);
        }
        proof {
            assert forall|x: TraceCategory| #[trigger] x.name() != category@ by {
                match x {
                    TraceCategory::SchedProcessExec => {},
                    TraceCategory::SchedProcessExit => {},
                    TraceCategory::Module => {},
                    TraceCategory::MarkVictim => {},
                }
            }
        }
        Err(CiluxError::UnknownTraceCategory { category: category.to_owned() })
    }
}

impl std::str::FromStr for TraceCategory {
    type Err = CiluxError;

    /// Parses a category from its wire name, as `TraceCategory::parse` does.
    fn from_str(category: &str) -> (r: Result<TraceCategory, CiluxError>)
        ensures
            match r {
                Ok(x) => x.name() == category@,
                Err(e) => (forall|x: TraceCategory| #[trigger] x.name() != category@)
                    && e.unknown_trace_category_named(category@),
            },
    {
        TraceCategory::parse(category)
    }
}

/// Distinct categories have distinct wire names, so a name read back with
/// `parse` gives the category it was written for.
pub proof fn lemma_trace_category_names_distinct(x: TraceCategory, y: TraceCategory)
    ensures
        x.name() == y.name() ==> x == y,
{
    reveal_strlit("sched_process_exec");
    reveal_strlit("sched_process_exit");
    reveal_strlit("module");
    reveal_strlit("mark_victim");
    if x.name() == y.name() {
        assert(x.name().len() == y.name().len());
        assert(x.name()[16] == y.name()[16]);
        match x {
            TraceCategory::SchedProcessExec => {},
            TraceCategory::SchedProcessExit => {},
            TraceCategory::Module => {},
            TraceCategory::MarkVictim => {},
        }
    }
}

proof fn lemma_or_bits(a: u32, b: u32)
    ensures
        ((a | b) & 1 != 0) == ((a & 1 != 0) || (b & 1 != 0)),
        ((a | b) & 2 != 0) == ((a & 2 != 0) || (b & 2 != 0)),
        ((a | b) & 4 != 0) == ((a & 4 != 0) || (b & 4 != 0)),
        ((a | b) & 8 != 0) == ((a & 8 != 0) || (b & 8 != 0)),
        ((a | b) & 0xffff_fff0 == 0) == ((a & 0xffff_fff0 == 0) && (b & 0xffff_fff0 == 0)),
{
    assert(((a | b) & 1 != 0) == ((a & 1 != 0) || (b & 1 != 0))) by (bit_vector);
    assert(((a | b) & 2 != 0) == ((a & 2 != 0) || (b & 2 != 0))) by (bit_vector);
    assert(((a | b) & 4 != 0) == ((a & 4 != 0) || (b & 4 != 0))) by (bit_vector);
    assert(((a | b) & 8 != 0) == ((a & 8 != 0) || (b & 8 != 0))) by (bit_vector);
    assert(((a | b) & 0xffff_fff0 == 0) == ((a & 0xffff_fff0 == 0) && (b & 0xffff_fff0 == 0)))
        by (bit_vector);
}

proof fn lemma_single_bits()
    ensures
        1u32 & 1 != 0 && 1u32 & 2 == 0 && 1u32 & 4 == 0 && 1u32 & 8 == 0 && 1u32 & 0xffff_fff0 == 0,
        2u32 & 1 == 0 && 2u32 & 2 != 0 && 2u32 & 4 == 0 && 2u32 & 8 == 0 && 2u32 & 0xffff_fff0 == 0,
        4u32 & 1 == 0 && 4u32 & 2 == 0 && 4u32 & 4 != 0 && 4u32 & 8 == 0 && 4u32 & 0xffff_fff0 == 0,
        8u32 & 1 == 0 && 8u32 & 2 == 0 && 8u32 & 4 == 0 && 8u32 & 8 != 0 && 8u32 & 0xffff_fff0 == 0,
        0u32 & 1 == 0 && 0u32 & 2 == 0 && 0u32 & 4 == 0 && 0u32 & 8 == 0 && 0u32 & 0xffff_fff0 == 0,
{
    assert(1u32 & 1 != 0 && 1u32 & 2 == 0 && 1u32 & 4 == 0 && 1u32 & 8 == 0 && 1u32 & 0xffff_fff0 == 0) by (bit_vector);
    assert(2u32 & 1 == 0 && 2u32 & 2 != 0 && 2u32 & 4 == 0 && 2u32 & 8 == 0 && 2u32 & 0xffff_fff0 == 0) by (bit_vector);
    assert(4u32 & 1 == 0 && 4u32 & 2 == 0 && 4u32 & 4 != 0 && 4u32 & 8 == 0 && 4u32 & 0xffff_fff0 == 0) by (bit_vector);
    assert(8u32 & 1 == 0 && 8u32 & 2 == 0 && 8u32 & 4 == 0 && 8u32 & 8 != 0 && 8u32 & 0xffff_fff0 == 0) by (bit_vector);
    assert(0u32 & 1 == 0 && 0u32 & 2 == 0 && 0u32 & 4 == 0 && 0u32 & 8 == 0 && 0u32 & 0xffff_fff0 == 0) by (bit_vector);
}

/// The mask of a list of categories has exactly the bits of the categories
/// in the list, and no bit outside `TRACE_DEFAULT_MASK`.
pub proof fn lemma_mask_of_bits(categories: Seq<TraceCategory>)
    ensures
        forall|c: TraceCategory| #[trigger] mask_has(mask_of(categories), c) == categories.contains(c),
        mask_of(categories) & 0xffff_fff0 == 0,
    decreases categories.len(),
{
    lemma_single_bits();
    if categories.len() > 0 {
        let rest = categories.drop_last();
        lemma_mask_of_bits(rest);
        lemma_or_bits(mask_of(rest), categories.last().bit());
        assert forall|c: TraceCategory| #[trigger] mask_has(mask_of(categories), c) == categories.contains(c) by {
            assert(categories =~= rest.push(categories.last()));
            assert(mask_has(mask_of(rest), c) == rest.contains(c));
            match c {
                TraceCategory::SchedProcessExec => {},
                TraceCategory::SchedProcessExit => {},
                TraceCategory::Module => {},
                TraceCategory::MarkVictim => {},
            }
            if categories.contains(c) && c != categories.last() {
                let k = choose|k: int| 0 <= k < categories.len() && categories[k] == c;
                assert(rest[k] == c);
            }
            if rest.contains(c) {
                let k = choose|k: int| 0 <= k < rest.len() && rest[k] == c;
                assert(categories[k] == c);
            }
            if c == categories.last() {
                assert(categories[categories.len() - 1] == c);
            }
        }
    }
}

/// `mask_for` and `from_mask` undo each other: the categories read back
/// from the mask of a list are the distinct categories of the list, in
/// the order of `ALL`.
pub proof fn lemma_from_mask_of_mask_for(categories: Seq<TraceCategory>)
    ensures
        categories_of_mask(mask_of(categories))
            == listed(categories.contains(TraceCategory::SchedProcessExec), TraceCategory::SchedProcessExec)
            + listed(categories.contains(TraceCategory::SchedProcessExit), TraceCategory::SchedProcessExit)
            + listed(categories.contains(TraceCategory::Module), TraceCategory::Module)
            + listed(categories.contains(TraceCategory::MarkVictim), TraceCategory::MarkVictim),
{
    lemma_mask_of_bits(categories);
    assert(mask_has(mask_of(categories), TraceCategory::SchedProcessExec) == categories.contains(TraceCategory::SchedProcessExec));
    assert(mask_has(mask_of(categories), TraceCategory::SchedProcessExit) == categories.contains(TraceCategory::SchedProcessExit));
    assert(mask_has(mask_of(categories), TraceCategory::Module) == categories.contains(TraceCategory::Module));
    assert(mask_has(mask_of(categories), TraceCategory::MarkVictim) == categories.contains(TraceCategory::MarkVictim));
}

/// The categories read from a mask are exactly those whose bits it has,
/// each of them once.
pub proof fn lemma_categories_of_mask_members(mask: u32)
    ensures
        forall|c: TraceCategory| #[trigger] categories_of_mask(mask).contains(c) == mask_has(mask, c),
        categories_of_mask(mask).no_duplicates(),
{
    let s = categories_of_mask(mask);
    let a = listed(mask_has(mask, TraceCategory::SchedProcessExec), TraceCategory::SchedProcessExec);
    let b = listed(mask_has(mask, TraceCategory::SchedProcessExit), TraceCategory::SchedProcessExit);
    let c3 = listed(mask_has(mask, TraceCategory::Module), TraceCategory::Module);
    let d = listed(mask_has(mask, TraceCategory::MarkVictim), TraceCategory::MarkVictim);
    assert(s == a + b + c3 + d);
    assert forall|c: TraceCategory| #[trigger] s.contains(c) == mask_has(mask, c) by {
        if s.contains(c) {
            let k = choose|k: int| 0 <= k < s.len() && s[k] == c;
            if k < a.len() {
                assert(a[k] == c);
            } else if k < a.len() + b.len() {
                assert(b[k - a.len()] == c);
            } else if k < a.len() + b.len() + c3.len() {
                assert(c3[k - a.len() - b.len()] == c);
            } else {
                assert(d[k - a.len() - b.len() - c3.len()] == c);
            }
        }
        if mask_has(mask, c) {
            match c {
                TraceCategory::SchedProcessExec => assert(s[0] == c),
                TraceCategory::SchedProcessExit => assert(s[a.len() as int] == c),
                TraceCategory::Module => assert(s[(a.len() + b.len()) as int] == c),
                TraceCategory::MarkVictim => assert(s[(a.len() + b.len() + c3.len()) as int] == c),
            }
        }
    }
    assert forall|i: int, j: int| 0 <= i < s.len() && 0 <= j < s.len() && i != j implies s[i] != s[j] by {
        if i < j {
            lemma_listed_order(mask, i, j);
        } else {
            lemma_listed_order(mask, j, i);
        }
    }
}

/// The position of a category in `ALL`.
spec fn rank(c: TraceCategory) -> int {
    match c {
        TraceCategory::SchedProcessExec => 0,
        TraceCategory::SchedProcessExit => 1,
        TraceCategory::Module => 2,
        TraceCategory::MarkVictim => 3,
    }
}

proof fn lemma_listed_order(mask: u32, i: int, j: int)
    requires
        0 <= i < j < categories_of_mask(mask).len(),
    ensures
        rank(categories_of_mask(mask)[i]) < rank(categories_of_mask(mask)[j]),
{
    let s = categories_of_mask(mask);
    let a = listed(mask_has(mask, TraceCategory::SchedProcessExec), TraceCategory::SchedProcessExec);
    let b = listed(mask_has(mask, TraceCategory::SchedProcessExit), TraceCategory::SchedProcessExit);
    let c3 = listed(mask_has(mask, TraceCategory::Module), TraceCategory::Module);
    let d = listed(mask_has(mask, TraceCategory::MarkVictim), TraceCategory::MarkVictim);
    assert(s == a + b + c3 + d);
    let ab = a.len() + b.len();
    let abc = ab + c3.len();
    assert(forall|k: int| 0 <= k < a.len() ==> rank(#[trigger] s[k]) == 0);
    assert(forall|k: int| a.len() <= k < ab ==> rank(#[trigger] s[k]) == 1);
    assert(forall|k: int| ab <= k < abc ==> rank(#[trigger] s[k]) == 2);
    assert(forall|k: int| abc <= k < s.len() ==> rank(#[trigger] s[k]) == 3);
}

/// The mask of the categories read from `mask` is `mask` without the bits
/// that belong to no category.
pub proof fn lemma_mask_for_of_from_mask(mask: u32)
    ensures
        mask_of(categories_of_mask(mask)) == mask & TRACE_DEFAULT_MASK,
{
    let s = categories_of_mask(mask);
    lemma_mask_of_bits(s);
    lemma_categories_of_mask_members(mask);
    let m = mask_of(s);
    assert(mask_has(m, TraceCategory::SchedProcessExec) == mask_has(mask, TraceCategory::SchedProcessExec));
    assert(mask_has(m, TraceCategory::SchedProcessExit) == mask_has(mask, TraceCategory::SchedProcessExit));
    assert(mask_has(m, TraceCategory::Module) == mask_has(mask, TraceCategory::Module));
    assert(mask_has(m, TraceCategory::MarkVictim) == mask_has(mask, TraceCategory::MarkVictim));
    assert(m & 0xffff_fff0 == 0);
    lemma_same_low_bits(m, mask);
}

proof fn lemma_same_low_bits(m: u32, mask: u32)
    requires
        (m & 1 != 0) == (mask & 1 != 0),
        (m & 2 != 0) == (mask & 2 != 0),
        (m & 4 != 0) == (mask & 4 != 0),
        (m & 8 != 0) == (mask & 8 != 0),
        m & 0xffff_fff0 == 0,
    ensures
        m == mask & 15,
{
    assert(m == mask & 15) by (bit_vector)
        requires
            (m & 1 != 0) == (mask & 1 != 0),
            (m & 2 != 0) == (mask & 2 != 0),
            (m & 4 != 0) == (mask & 4 != 0),
            (m & 8 != 0) == (mask & 8 != 0),
            m & 0xffff_fff0 == 0;
}

#[derive(Debug, Clone, Default, PartialEq, Eq)]
pub struct KernelSnapshotRequest {}

#[derive(Debug, Clone, PartialEq, Eq)]
pub struct KernelEventsTailRequest {
    pub limit: usize,
}

#[derive(Debug, Clone, PartialEq, Eq)]
pub struct TraceConfigureRequest {
    pub trace_mask: u32,
}

#[derive(Debug, Clone, Default, PartialEq, Eq)]
pub struct TraceStatusRequest {}

#[derive(Debug, Clone, PartialEq, Eq)]
pub struct TraceCategoriesRequest {
    pub categories: Vec<TraceCategory>,
}

#[derive(Debug, Clone, Default, PartialEq, Eq)]
pub struct TraceResetDefaultRequest {}

#[derive(Debug, Clone, Default, PartialEq, Eq)]
pub struct BufferClearRequest {}

#[derive(Debug, Clone, Default, PartialEq, Eq)]
pub struct HealthRequest {}

#[derive(Debug, Clone, PartialEq, Eq)]
pub struct SystemReadRequest {
    pub selector: SystemReadSelector,
}

/// A request to the broker; on the wire its method name is the variant's
/// name in snake case and its parameters are the payload.
#[derive(Debug, Clone, PartialEq, Eq)]
pub enum BrokerRequest {
    KernelSnapshot(KernelSnapshotRequest),
    KernelEventsTail(KernelEventsTailRequest),
    TraceConfigure(TraceConfigureRequest),
    TraceStatus(TraceStatusRequest),
    TraceEnable(TraceCategoriesRequest),
    TraceDisable(TraceCategoriesRequest),
    TraceResetDefault(TraceResetDefaultRequest),
    BufferClear(BufferClearRequest),
    Health(HealthRequest),
    SystemRead(SystemReadRequest),
}

/// The broker's answer: a result, or an error with a code and a message.
/// On the wire the variants are tagged `"status": "ok"` and `"status": "error"`.
#[derive(Debug)]
pub enum BrokerResponse {
    Success { result: BrokerResult },
    Error { error: BrokerError },
}

#[derive(Debug, Clone, PartialEq, Eq)]
pub struct BrokerError {
    pub code: String,
    pub message: String,
}

/// The payload of a successful answer, one kind per request method.
#[derive(Debug)]
pub enum BrokerResult {
    KernelSnapshot(KernelSnapshot),
    KernelEventsTail(KernelEventsTail),
    TraceConfigure(TraceConfigureResult),
    TraceStatus(TraceStatusResult),
    TraceEnable(TraceStatusResult),
    TraceDisable(TraceStatusResult),
    TraceResetDefault(TraceStatusResult),
    BufferClear(StatusResult),
    Health(HealthReport),
    SystemRead(SystemReadResult),
}

/// The kernel module's capability and state documents.
#[derive(Debug)]
pub struct KernelSnapshot {
    pub caps: serde_json::Value,
    pub state: serde_json::Value,
}

/// The most recent kernel events, oldest first.
#[derive(Debug)]
pub struct KernelEventsTail {
    pub events: Vec<serde_json::Value>,
}

#[derive(Debug)]
pub struct TraceConfigureResult {
    pub trace_mask: u32,
    pub state: serde_json::Value,
}

/// The trace mask and counters, with the categories the masks stand for.
#[derive(Debug, Clone, PartialEq, Eq)]
pub struct TraceStatusResult {
    pub trace_mask: u32,
    pub supported_mask: u32,
    pub drop_count: u32,
    pub event_count: u32,
    pub ring_capacity: u32,
    pub enabled_categories: Vec<TraceCategory>,
    pub supported_categories: Vec<TraceCategory>,
}

impl TraceStatusResult {
    /// A status whose category lists are read from the masks.
    pub fn new(
        trace_mask: u32,
        supported_mask: u32,
        drop_count: u32,
        event_count: u32,
        ring_capacity: u32,
    ) -> (r: TraceStatusResult)
        ensures
            r.trace_mask == trace_mask,
            r.supported_mask == supported_mask,
            r.drop_count == drop_count,
            r.event_count == event_count,
            r.ring_capacity == ring_capacity,
            r.enabled_categories@ == categories_of_mask(trace_mask),
            r.supported_categories@ == categories_of_mask(supported_mask),
    {
        TraceStatusResult {
            trace_mask,
            supported_mask,
            drop_count,
            event_count,
            ring_capacity,
            enabled_categories: TraceCategory::from_mask(trace_mask),
            supported_categories: TraceCategory::from_mask(supported_mask),
        }
    }
}

#[derive(Debug, Clone, PartialEq, Eq)]
pub struct StatusResult {
    pub ok: bool,
}

/// The kind of guest the broker runs in: one with the Cilux kernel module
/// (a research kernel), or a stock desktop kernel without it.
#[derive(Debug, Clone, Copy, PartialEq, Eq)]
pub enum GuestMode {
    ResearchKernel,
    DesktopStockKernel,
}

/// The kernel-backed features the broker can serve on this guest.
#[derive(Debug, Clone, Copy, PartialEq, Eq)]
pub struct BrokerCapabilities {
    /// The debugfs capability and state documents can be read.
    pub kernel_snapshot: bool,
    /// The debugfs event log can be read.
    pub events_tail: bool,
    /// The Generic Netlink family answers, so tracing can be controlled.
    pub trace_control: bool,
}

impl BrokerCapabilities {
    /// Every feature: the research kernel guest.
    pub fn full() -> (r: BrokerCapabilities)
        ensures
            r.kernel_snapshot && r.events_tail && r.trace_control,
    {
        BrokerCapabilities { kernel_snapshot: true, events_tail: true, trace_control: true }
    }

    /// No kernel-backed feature: the stock desktop guest.
    pub fn desktop_stock_kernel() -> (r: BrokerCapabilities)
        ensures
            !r.kernel_snapshot && !r.events_tail && !r.trace_control,
    {
        BrokerCapabilities { kernel_snapshot: false, events_tail: false, trace_control: false }
    }
}

/// The guest mode that a set of capabilities reveals: a guest with any
/// kernel-backed feature runs the Cilux kernel module.
pub open spec fn guest_mode_of(caps: BrokerCapabilities) -> GuestMode {
    if caps.kernel_snapshot || caps.events_tail || caps.trace_control {
        GuestMode::ResearchKernel
    } else {
        GuestMode::DesktopStockKernel
    }
}

#[derive(Debug, Clone, PartialEq, Eq)]
pub struct HealthReport {
    pub broker_pid: u32,
    pub socket_path: String,
    pub audit_log_path: String,
    pub guest_mode: GuestMode,
    pub debugfs_ready: bool,
    pub netlink_ready: bool,
    pub app_server_port: u16,
    pub capabilities: BrokerCapabilities,
}

#[derive(Debug, Clone, PartialEq, Eq)]
pub struct SystemReadResult {
    pub selector: SystemReadSelector,
    pub text: String,
}

/// The error a broker error answer is reported as.
pub open spec fn broker_error(error: BrokerError) -> CiluxError {
    CiluxError::Broker { code: error.code, message: error.message }
}

impl BrokerResponse {
    /// The result of a successful answer; an error answer becomes an
    /// `CiluxError::Broker` with its code and message.
    pub fn into_result(self) -> (r: Result<BrokerResult, CiluxError>)
        ensures
            match self {
                BrokerResponse::Success { result } => r == Ok::<BrokerResult, CiluxError>(result),
                BrokerResponse::Error { error } => r == Err::<BrokerResult, CiluxError>(broker_error(error)),
            },
    {
        match self {
            BrokerResponse::Success { result } => Ok(result),
            BrokerResponse::Error { error } => Err(CiluxError::Broker { code: error.code, message: error.message }),
        }
    }
}

/// Takes the result of a successful answer through `f`, which picks out
/// the kind that was asked for; any other kind is `UnexpectedResultKind`.
pub fn expect_kind<T, F: FnOnce(BrokerResult) -> Option<T>>(response: BrokerResponse, f: F) -> (r: Result<T, CiluxError>)
    requires
        forall|result: BrokerResult| f.requires((result,)),
    ensures
        match response {
            BrokerResponse::Error { error } => r == Err::<T, CiluxError>(broker_error(error)),
            BrokerResponse::Success { result } => exists|picked: Option<T>| #[trigger] f.ensures((result,), picked)
                && r == match picked {
                    Some(v) => Ok::<T, CiluxError>(v),
                    None => Err::<T, CiluxError>(CiluxError::UnexpectedResultKind),
                },
        },
{
    let result = response.into_result()?;
    match f(result) {
        Some(v) => Ok(v),
        None => Err(CiluxError::UnexpectedResultKind),
    }
}

} // verus!
