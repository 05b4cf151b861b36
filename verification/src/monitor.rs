//! The scheduler's state and per-tick decisions.
//!
//! A [`Monitor`] owns everything the control loop mutates: the previous CPU
//! snapshot, the three hysteresis machines, the mailbox slot, and the
//! last-fired timestamps of the interval checks. The surrounding loop polls
//! the control socket, reads the clock and the accounting file, and probes
//! the target; every decision about what those observations mean is made
//! here, one method per event, each a verified function of the old state
//! and the plain values handed in.

use vstd::prelude::*;

use crate::cpu::{cpu_usage_spec, CpuStats};
use crate::hysteresis::{
    failure_step_spec, latency_step_spec, load_step_spec, FailureState, LatencyState, LoadActions,
    LoadState,
};
use crate::mailbox::{classify_signal, classify_signal_spec, ServerCmd, Signal};
use crate::{CPU_CHECK_INTERVAL_MS, DAY_INTERVAL_MS, PING_INTERVAL_MS};

verus! {

/// Whether an interval check is due: at least `interval` milliseconds of
/// monotonic time have passed since the check last fired. A clock reading
/// older than the last firing (which a monotonic clock never produces)
/// reads as not due.
pub open spec fn interval_elapsed(now_ms: int, last_ms: int, interval_ms: int) -> bool {
    last_ms <= now_ms && now_ms - last_ms >= interval_ms
}

/// Decides whether an interval check is due; see [`interval_elapsed`].
pub fn interval_due(now_ms: u64, last_ms: u64, interval_ms: u64) -> (r: bool)
    ensures
        r == interval_elapsed(now_ms as int, last_ms as int, interval_ms as int),
{
    now_ms >= last_ms && now_ms - last_ms >= interval_ms
}

/// Shapes one connectivity check's outcome: on success the measured
/// round-trip time is reported, on failure no latency exists.
pub fn check_connectivity(connected: bool, elapsed_ms: u64) -> (r: (bool, Option<u64>))
    ensures
        connected ==> r == (true, Some(elapsed_ms)),
        !connected ==> r == (false, None::<u64>),
{
    if connected {
        (true, Some(elapsed_ms))
    } else {
        (false, None)
    }
}

/// What one connectivity check decided: the streak notification and the
/// capabilities to invoke.
#[derive(Clone, Copy, Debug, PartialEq, Eq, Structural)]
pub struct ProbeActions {
    pub high_latency_notice: bool,
    pub throttle: bool,
    pub restore: bool,
    pub reboot: bool,
}

/// The combined latency-and-failure reading of one probe outcome.
///
/// - Success with a measured latency: the latency machine runs and the
///   failure counter resets.
/// - Success without a measurement: both streaks reset silently — in
///   particular no restore fires, whatever the latency streak was.
/// - Failure: the failure counter runs; the latency streak is untouched.
pub open spec fn probe_step_spec(
    lat: LatencyState,
    fail: FailureState,
    success: bool,
    latency_ms: Option<u64>,
) -> (LatencyState, FailureState, ProbeActions) {
    if success {
        match latency_ms {
            Some(ms) => {
                let stepped = latency_step_spec(lat, ms as int);
                (
                    stepped.0,
                    FailureState { consecutive_failures: 0 },
                    ProbeActions {
                        high_latency_notice: stepped.1.high_notice,
                        throttle: stepped.1.throttle,
                        restore: stepped.1.restore,
                        reboot: false,
                    },
                )
            },
            None => (
                LatencyState { high_streak: 0 },
                FailureState { consecutive_failures: 0 },
                ProbeActions {
                    high_latency_notice: false,
                    throttle: false,
                    restore: false,
                    reboot: false,
                },
            ),
        }
    } else {
        let stepped = failure_step_spec(fail, false);
        (
            lat,
            stepped.0,
            ProbeActions {
                high_latency_notice: false,
                throttle: false,
                restore: false,
                reboot: stepped.1,
            },
        )
    }
}

/// The mutable context of the control loop.
pub struct Monitor {
    /// The mailbox slot: the encoded pending command, overwritten by the
    /// latest recognized control datagram, drained once per tick.
    pub pending_cmd: u8,
    /// The snapshot the next usage computation subtracts from.
    pub prev_cpu: CpuStats,
    /// The load hysteresis machine.
    pub load: LoadState,
    /// The latency hysteresis machine.
    pub latency: LatencyState,
    /// The failure counter.
    pub failures: FailureState,
    /// When the CPU check last fired, in monotonic milliseconds.
    pub last_cpu_check_ms: u64,
    /// When the connectivity check last fired, in monotonic milliseconds.
    pub last_network_check_ms: u64,
    /// When the log truncation last fired, in monotonic milliseconds.
    pub last_log_prune_ms: u64,
}

impl Monitor {
    /// The startup state: empty mailbox, all machines at rest, every
    /// interval check anchored at the given clock reading, and the given
    /// initial snapshot (all-zero when the first read failed).
    pub fn new(now_ms: u64, initial_cpu: CpuStats) -> (m: Monitor)
        ensures
            m.pending_cmd == 0,
            m.prev_cpu == initial_cpu,
            m.load == (LoadState {
                mode: crate::hysteresis::LoadMode::Normal,
                elevated_streak: 0u64,
                recovery_streak: 0u64,
            }),
            m.latency == (LatencyState { high_streak: 0u64 }),
            m.failures == (FailureState { consecutive_failures: 0u64 }),
            m.last_cpu_check_ms == now_ms,
            m.last_network_check_ms == now_ms,
            m.last_log_prune_ms == now_ms,
    {
        Monitor {
            pending_cmd: 0,
            prev_cpu: initial_cpu,
            load: LoadState::new(),
            latency: LatencyState::new(),
            failures: FailureState::new(),
            last_cpu_check_ms: now_ms,
            last_network_check_ms: now_ms,
            last_log_prune_ms: now_ms,
        }
    }

    /// Takes one control datagram: a recognized payload is acknowledged,
    /// and the three command payloads latch their command into the mailbox
    /// slot, overwriting whatever was pending; `PING` and unrecognized
    /// payloads leave the slot alone, and only recognized payloads are
    /// acknowledged. Returns whether to echo the acknowledgment.
    pub fn receive_datagram(&mut self, payload: &[u8]) -> (ack: bool)
        ensures
            ack == (classify_signal_spec(payload@) is Some),
            final(self).pending_cmd == (match classify_signal_spec(payload@) {
                Some(Signal::RestartAdbd) => ServerCmd::RestartADB.as_code(),
                Some(Signal::KillAdbd) => ServerCmd::KillADB.as_code(),
                Some(Signal::RestartServer) => ServerCmd::RestartSERVER.as_code(),
                Some(Signal::Ping) => old(self).pending_cmd,
                None => old(self).pending_cmd,
            }),
            final(self).prev_cpu == old(self).prev_cpu,
            final(self).load == old(self).load,
            final(self).latency == old(self).latency,
            final(self).failures == old(self).failures,
            final(self).last_cpu_check_ms == old(self).last_cpu_check_ms,
            final(self).last_network_check_ms == old(self).last_network_check_ms,
            final(self).last_log_prune_ms == old(self).last_log_prune_ms,
    {
        match classify_signal(payload) {
            Some(Signal::RestartAdbd) => {
                ServerCmd::RestartADB.store(&mut self.pending_cmd);
                true
            },
            Some(Signal::KillAdbd) => {
                ServerCmd::KillADB.store(&mut self.pending_cmd);
                true
            },
            Some(Signal::RestartServer) => {
                ServerCmd::RestartSERVER.store(&mut self.pending_cmd);
                true
            },
            Some(Signal::Ping) => true,
            None => false,
        }
    }

    /// Drains the mailbox: returns the pending command and leaves the slot
    /// empty, so each latched command is consumed exactly once.
    pub fn take_command(&mut self) -> (c: ServerCmd)
        ensures
            c == ServerCmd::from_code(old(self).pending_cmd),
            final(self).pending_cmd == 0,
            final(self).prev_cpu == old(self).prev_cpu,
            final(self).load == old(self).load,
            final(self).latency == old(self).latency,
            final(self).failures == old(self).failures,
            final(self).last_cpu_check_ms == old(self).last_cpu_check_ms,
            final(self).last_network_check_ms == old(self).last_network_check_ms,
            final(self).last_log_prune_ms == old(self).last_log_prune_ms,
    {
        let c = ServerCmd::load(&self.pending_cmd);
        ServerCmd::Idle.store(&mut self.pending_cmd);
        c
    }

    /// Whether the CPU usage check is due at the given clock reading.
    pub fn cpu_check_due(&self, now_ms: u64) -> (r: bool)
        ensures
            r == interval_elapsed(
                now_ms as int,
                self.last_cpu_check_ms as int,
                CPU_CHECK_INTERVAL_MS as int,
            ),
    {
        interval_due(now_ms, self.last_cpu_check_ms, CPU_CHECK_INTERVAL_MS)
    }

    /// Accounts a CPU check whose snapshot read failed: the check fired, so
    /// its timer re-anchors, but the previous snapshot and every machine
    /// stay untouched and the tick is skipped.
    pub fn note_cpu_read_failure(&mut self, now_ms: u64)
        ensures
            final(self).last_cpu_check_ms == now_ms,
            final(self).pending_cmd == old(self).pending_cmd,
            final(self).prev_cpu == old(self).prev_cpu,
            final(self).load == old(self).load,
            final(self).latency == old(self).latency,
            final(self).failures == old(self).failures,
            final(self).last_network_check_ms == old(self).last_network_check_ms,
            final(self).last_log_prune_ms == old(self).last_log_prune_ms,
    {
        self.last_cpu_check_ms = now_ms;
    }

    /// Feeds one fresh snapshot through the load machine: computes the
    /// usage over the interval since the previous snapshot, steps the
    /// machine, retains the fresh snapshot, and re-anchors the CPU timer.
    /// Returns the usage (for notifications) and what the machine decided.
    pub fn handle_cpu_sample(&mut self, now_ms: u64, cur: CpuStats) -> (r: (u64, LoadActions))
        ensures
            r.0 == cpu_usage_spec(old(self).prev_cpu, cur),
            r.0 <= 100,
            final(self).load == load_step_spec(old(self).load, r.0 as int).0,
            r.1 == load_step_spec(old(self).load, r.0 as int).1,
            final(self).prev_cpu == cur,
            final(self).last_cpu_check_ms == now_ms,
            final(self).pending_cmd == old(self).pending_cmd,
            final(self).latency == old(self).latency,
            final(self).failures == old(self).failures,
            final(self).last_network_check_ms == old(self).last_network_check_ms,
            final(self).last_log_prune_ms == old(self).last_log_prune_ms,
    {
        let usage = crate::cpu::calculate_cpu_usage(&self.prev_cpu, &cur);
        self.prev_cpu = cur;
        let actions = self.load.step(usage);
        self.last_cpu_check_ms = now_ms;
        (usage, actions)
    }

    /// Whether the connectivity check is due at the given clock reading.
    pub fn network_check_due(&self, now_ms: u64) -> (r: bool)
        ensures
            r == interval_elapsed(
                now_ms as int,
                self.last_network_check_ms as int,
                PING_INTERVAL_MS as int,
            ),
    {
        interval_due(now_ms, self.last_network_check_ms, PING_INTERVAL_MS)
    }

    /// Feeds one probe outcome through the latency machine and the failure
    /// counter, and re-anchors the connectivity timer; see
    /// [`probe_step_spec`].
    pub fn handle_probe(&mut self, now_ms: u64, success: bool, latency_ms: Option<u64>) -> (a:
        ProbeActions)
        ensures
            final(self).latency == probe_step_spec(
                old(self).latency,
                old(self).failures,
                success,
                latency_ms,
            ).0,
            final(self).failures == probe_step_spec(
                old(self).latency,
                old(self).failures,
                success,
                latency_ms,
            ).1,
            a == probe_step_spec(old(self).latency, old(self).failures, success, latency_ms).2,
            final(self).last_network_check_ms == now_ms,
            final(self).pending_cmd == old(self).pending_cmd,
            final(self).prev_cpu == old(self).prev_cpu,
            final(self).load == old(self).load,
            final(self).last_cpu_check_ms == old(self).last_cpu_check_ms,
            final(self).last_log_prune_ms == old(self).last_log_prune_ms,
    {
        self.last_network_check_ms = now_ms;
        if success {
            match latency_ms {
                Some(ms) => {
                    let stepped = self.latency.step(ms);
                    self.failures.consecutive_failures = 0;
                    ProbeActions {
                        high_latency_notice: stepped.high_notice,
                        throttle: stepped.throttle,
                        restore: stepped.restore,
                        reboot: false,
                    }
                },
                None => {
                    self.latency.high_streak = 0;
                    self.failures.consecutive_failures = 0;
                    ProbeActions {
                        high_latency_notice: false,
                        throttle: false,
                        restore: false,
                        reboot: false,
                    }
                },
            }
        } else {
            let reboot = self.failures.step(false);
            ProbeActions {
                high_latency_notice: false,
                throttle: false,
                restore: false,
                reboot,
            }
        }
    }

    /// Whether the daily log truncation is due at the given clock reading.
    pub fn log_prune_due(&self, now_ms: u64) -> (r: bool)
        ensures
            r == interval_elapsed(
                now_ms as int,
                self.last_log_prune_ms as int,
                DAY_INTERVAL_MS as int,
            ),
    {
        interval_due(now_ms, self.last_log_prune_ms, DAY_INTERVAL_MS)
    }

    /// Accounts a fired log truncation: re-anchors its timer.
    pub fn note_log_prune(&mut self, now_ms: u64)
        ensures
            final(self).last_log_prune_ms == now_ms,
            final(self).pending_cmd == old(self).pending_cmd,
            final(self).prev_cpu == old(self).prev_cpu,
            final(self).load == old(self).load,
            final(self).latency == old(self).latency,
            final(self).failures == old(self).failures,
            final(self).last_cpu_check_ms == old(self).last_cpu_check_ms,
            final(self).last_network_check_ms == old(self).last_network_check_ms,
    {
        self.last_log_prune_ms = now_ms;
    }
}

} // verus!
