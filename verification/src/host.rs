//! Sibling snapshots of the host: uptime, memory and processor identity.
//!
//! Each is one OS query followed by plain arithmetic; the query lives
//! outside this crate and the arithmetic lives here, with exact contracts.

use vstd::arithmetic::div_mod::lemma_div_is_ordered;
use vstd::prelude::*;

verus! {

/// Bytes per (binary) megabyte.
pub const BYTES_PER_MEGABYTE: u64 = 1_048_576;

/// A snapshot type of this report: `new` yields the empty value and `info`
/// fills the value in from whatever source backs the implementor.
pub trait SystemInfo: Sized {
    fn new() -> Self;

    fn info(&mut self);
}

/// How long the host has been up, as a tick count in milliseconds and its
/// day / hour / minute / second breakdown.
#[derive(Clone, Copy, Debug, PartialEq, Eq, Structural)]
pub struct Uptime {
    pub uptime_ms: u64,
    pub uptime_days: u64,
    pub uptime_hours: u64,
    pub uptime_minutes: u64,
    pub uptime_seconds: u64,
}

/// Whole days in a tick count of milliseconds.
pub open spec fn days_of(ms: u64) -> u64 {
    (ms / 3_600_000) / 24
}

/// The hour of the day breakdown (zero to twenty-three).
pub open spec fn hours_of(ms: u64) -> u64 {
    (ms / 3_600_000) % 24
}

/// The minute of the hour breakdown (zero to fifty-nine).
pub open spec fn minutes_of(ms: u64) -> u64 {
    (ms / 60_000) % 60
}

/// The second of the minute breakdown (zero to fifty-nine).
pub open spec fn seconds_of(ms: u64) -> u64 {
    (ms / 1_000) % 60
}

impl Default for Uptime {
    /// Zero uptime.
    fn default() -> (r: Uptime)
        ensures
            r == (Uptime {
                uptime_ms: 0u64,
                uptime_days: 0u64,
                uptime_hours: 0u64,
                uptime_minutes: 0u64,
                uptime_seconds: 0u64,
            }),
    {
        Uptime { uptime_ms: 0, uptime_days: 0, uptime_hours: 0, uptime_minutes: 0, uptime_seconds: 0 }
    }
}

impl Uptime {
    /// Break a tick count in milliseconds down into days, hours, minutes
    /// and seconds.
    pub fn from_milliseconds(ms: u64) -> (r: Uptime)
        ensures
            r.uptime_ms == ms,
            r.uptime_days == days_of(ms),
            r.uptime_hours == hours_of(ms),
            r.uptime_minutes == minutes_of(ms),
            r.uptime_seconds == seconds_of(ms),
    {
        Uptime {
            uptime_ms: ms,
            uptime_days: (ms / 3_600_000) / 24,
            uptime_hours: (ms / 3_600_000) % 24,
            uptime_minutes: (ms / 60_000) % 60,
            uptime_seconds: (ms / 1_000) % 60,
        }
    }
}

impl SystemInfo for Uptime {
    fn new() -> Uptime {
        Uptime::default()
    }

    /// Rederive the breakdown from the stored tick count.
    fn info(&mut self) {
        *self = Uptime::from_milliseconds(self.uptime_ms);
    }
}

/// Memory and paging figures, all in whole megabytes.
#[derive(Clone, Copy, Debug, PartialEq, Eq, Structural)]
pub struct Memory {
    pub installed_ram: u64,
    pub available_memory: u64,
    pub page_file_size: u64,
    pub available_page: u64,
    pub used_page: u64,
}

/// Installed memory in megabytes, from the kilobyte count the host reports.
pub open spec fn installed_of(installed_kb: u64) -> u64 {
    installed_kb / 1_024
}

/// The page-file figure: the total commit limit in megabytes, less the
/// installed memory where the limit exceeds it.
pub open spec fn page_file_of(total_page_file: u64, installed_kb: u64) -> int {
    if total_page_file / BYTES_PER_MEGABYTE < installed_of(installed_kb) {
        (total_page_file / BYTES_PER_MEGABYTE) as int
    } else {
        total_page_file / BYTES_PER_MEGABYTE - installed_of(installed_kb)
    }
}

/// The available-page figure: the available commit in megabytes, less the
/// installed memory, floored at zero.
pub open spec fn available_page_of(available_page_file: u64, installed_kb: u64) -> int {
    if available_page_file / BYTES_PER_MEGABYTE < installed_of(installed_kb) {
        0
    } else {
        available_page_file / BYTES_PER_MEGABYTE - installed_of(installed_kb)
    }
}

impl Default for Memory {
    /// No measurement: all figures zero.
    fn default() -> (r: Memory)
        ensures
            r == (Memory {
                installed_ram: 0u64,
                available_memory: 0u64,
                page_file_size: 0u64,
                available_page: 0u64,
                used_page: 0u64,
            }),
    {
        Memory {
            installed_ram: 0,
            available_memory: 0,
            page_file_size: 0,
            available_page: 0,
            used_page: 0,
        }
    }
}

impl Memory {
    /// Derive the megabyte figures from one memory-status query: the
    /// installed memory in kilobytes, and the available physical memory,
    /// the page-file commit limit and the available commit in bytes.  The
    /// provider reports an available commit no larger than the limit.
    pub fn from_status(
        installed_kb: u64,
        available_physical: u64,
        total_page_file: u64,
        available_page_file: u64,
    ) -> (r: Memory)
        requires
            available_page_file <= total_page_file,
        ensures
            r.installed_ram == installed_of(installed_kb),
            r.available_memory == available_physical / BYTES_PER_MEGABYTE,
            r.page_file_size == page_file_of(total_page_file, installed_kb),
            r.available_page == available_page_of(available_page_file, installed_kb),
            r.used_page == r.page_file_size - r.available_page,
    {
        proof {
            lemma_div_is_ordered(
                available_page_file as int,
                total_page_file as int,
                BYTES_PER_MEGABYTE as int,
            );
        }
        let installed_ram = installed_kb / 1_024;
        let available_memory = available_physical / BYTES_PER_MEGABYTE;
        let total_page_mb = total_page_file / BYTES_PER_MEGABYTE;
        let available_page_mb = available_page_file / BYTES_PER_MEGABYTE;
        let page_file_size = if total_page_mb < installed_ram {
            total_page_mb
        } else {
            total_page_mb - installed_ram
        };
        let available_page = if available_page_mb < installed_ram {
            0
        } else {
            available_page_mb - installed_ram
        };
        let used_page = page_file_size - available_page;
        Memory { installed_ram, available_memory, page_file_size, available_page, used_page }
    }
}

impl SystemInfo for Memory {
    fn new() -> Memory {
        Memory::default()
    }

    /// Rederive the used-page figure from the stored page figures; the
    /// other fields are primary measurements and stay as they are.
    fn info(&mut self) {
        if self.available_page <= self.page_file_size {
            self.used_page = self.page_file_size - self.available_page;
        } else {
            self.used_page = 0;
        }
    }
}

/// Processor identity: core count and current clock speed.
#[derive(Clone, Copy, Debug, PartialEq, Eq, Structural)]
pub struct Processor {
    pub current_mhz: u64,
    pub number_processors: u32,
}

impl Default for Processor {
    /// No measurement: zero cores at zero megahertz.
    fn default() -> (r: Processor)
        ensures
            r == (Processor { current_mhz: 0u64, number_processors: 0u32 }),
    {
        Processor { current_mhz: 0, number_processors: 0 }
    }
}

impl Processor {
    /// Combine the two independently fallible processor queries: the core
    /// count, and the current clock speed of the first core (on this
    /// platform all cores share one speed).  A missing answer contributes
    /// zero for its own field only.
    pub fn from_parts(processors: Option<u32>, first_core_mhz: Option<u64>) -> (r: Processor)
        ensures
            r.number_processors == (match processors {
                Some(n) => n,
                None => 0u32,
            }),
            r.current_mhz == (match first_core_mhz {
                Some(mhz) => mhz,
                None => 0u64,
            }),
    {
        Processor {
            number_processors: match processors {
                Some(n) => n,
                None => 0,
            },
            current_mhz: match first_core_mhz {
                Some(mhz) => mhz,
                None => 0,
            },
        }
    }
}

impl SystemInfo for Processor {
    fn new() -> Processor {
        Processor::default()
    }

    /// Both fields are primary measurements; there is nothing to rederive.
    fn info(&mut self) {
    }
}

} // verus!
