//! Adaptive decision engine for a resident network/CPU watchdog.
//!
//! The library holds the verified core of the watchdog: CPU accounting and
//! usage computation, parsing of the kernel's aggregate CPU counters, the
//! hysteresis state machines that debounce load, latency and failure signals
//! into remediation actions, the single-slot command mailbox fed by a control
//! channel, and the interval scheduler that drives them. The surrounding
//! process (sockets, shell commands, timers) feeds plain values in and carries
//! the decided actions out.

use vstd::prelude::*;

pub mod bytes;
pub mod cpu;
pub mod hysteresis;
pub mod mailbox;
pub mod monitor;
pub mod netcfg;

verus! {

/// CPU usage percentage above which a sample counts as high load.
pub const CPU_USAGE_THRESHOLD: u64 = 85;

/// Round-trip latency (milliseconds) above which a successful probe counts as slow.
pub const HIGH_LATENCY_THRESHOLD: u64 = 50;

/// Number of consecutive high-latency probes that triggers throttling.
pub const MAX_HIGH_LATENCY: u64 = 3;

/// Number of consecutive elevated-load samples that triggers throttling.
pub const MAX_HIGH_LOAD: u64 = 3;

/// Number of consecutive normal-load samples that ends elevated mode.
pub const RECOVERY_SAMPLES: u64 = 3;

/// Number of consecutive probe failures that triggers a reboot.
pub const MAX_FAILURES: u64 = 10;

/// Milliseconds between CPU usage checks.
pub const CPU_CHECK_INTERVAL_MS: u64 = 30_000;

/// Milliseconds between connectivity probes.
pub const PING_INTERVAL_MS: u64 = 60_000;

/// Milliseconds between log truncation requests.
pub const DAY_INTERVAL_MS: u64 = 86_400_000;

} // verus!
