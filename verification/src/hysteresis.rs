//! The three debouncing state machines of the decision engine.
//!
//! Each machine consumes one sample per tick and decides which remediation
//! capabilities to invoke: network throttling on sustained high CPU load or
//! sustained high probe latency, parameter restore and cache clearing on
//! recovery, and a host reboot on sustained probe failure. Every transition
//! is a pure function of the previous state and the sample, stated by a
//! spec-level transition table that the executable steps are proved to
//! follow.

use vstd::prelude::*;

use crate::{CPU_USAGE_THRESHOLD, HIGH_LATENCY_THRESHOLD, MAX_FAILURES, MAX_HIGH_LATENCY,
    MAX_HIGH_LOAD, RECOVERY_SAMPLES};

verus! {

/// A counter bump that cannot wrap: a streak pinned at `u64::MAX` stays
/// there. Every trigger comparison in the machines happens at small values,
/// far below the pin.
pub open spec fn spec_saturating_inc(x: u64) -> u64 {
    if x == u64::MAX {
        x
    } else {
        (x + 1) as u64
    }
}

fn saturating_inc(x: u64) -> (r: u64)
    ensures
        r == spec_saturating_inc(x),
{
    if x == u64::MAX {
        x
    } else {
        x + 1
    }
}

/// Which regime the load machine is in: `Elevated` once a sample crossed
/// the usage threshold, back to `Normal` only after a full recovery streak.
#[derive(Clone, Copy, Debug, PartialEq, Eq, Structural)]
pub enum LoadMode {
    Normal,
    Elevated,
}

/// The load hysteresis state: the regime, the count of threshold-crossing
/// samples in the current escalation, and the count of consecutive
/// at-or-under-threshold samples since the escalation peaked.
#[derive(Clone, Copy, Debug, PartialEq, Eq, Structural)]
pub struct LoadState {
    pub mode: LoadMode,
    pub elevated_streak: u64,
    pub recovery_streak: u64,
}

/// The notification a load sample asks for. `Quiet` is the steady normal
/// state, which deliberately emits nothing.
#[derive(Clone, Copy, Debug, PartialEq, Eq, Structural)]
pub enum LoadNotice {
    Quiet,
    EnterElevated,
    StillElevated,
    Exiting,
}

/// What one load sample decided: a notification plus the capabilities to
/// invoke.
#[derive(Clone, Copy, Debug, PartialEq, Eq, Structural)]
pub struct LoadActions {
    pub notice: LoadNotice,
    pub throttle: bool,
    pub restore: bool,
    pub clear_cache: bool,
}

impl LoadState {
    /// The startup state: normal regime, both streaks clear.
    pub fn new() -> (s: LoadState)
        ensures
            s == (LoadState { mode: LoadMode::Normal, elevated_streak: 0u64, recovery_streak: 0u64 }),
    {
        LoadState { mode: LoadMode::Normal, elevated_streak: 0, recovery_streak: 0 }
    }

    /// Feeds one usage sample through the machine; see
    /// [`load_step_spec`] for the transition table.
    pub fn step(&mut self, usage: u64) -> (a: LoadActions)
        ensures
            *final(self) == load_step_spec(*old(self), usage as int).0,
            a == load_step_spec(*old(self), usage as int).1,
    {
        if usage > CPU_USAGE_THRESHOLD {
            match self.mode {
                LoadMode::Normal => {
                    self.mode = LoadMode::Elevated;
                    self.elevated_streak = 1;
                    self.recovery_streak = 0;
                    LoadActions {
                        notice: LoadNotice::EnterElevated,
                        throttle: false,
                        restore: false,
                        clear_cache: false,
                    }
                },
                LoadMode::Elevated => {
                    self.elevated_streak = saturating_inc(self.elevated_streak);
                    self.recovery_streak = 0;
                    LoadActions {
                        notice: LoadNotice::StillElevated,
                        throttle: self.elevated_streak == MAX_HIGH_LOAD,
                        restore: false,
                        clear_cache: false,
                    }
                },
            }
        } else {
            match self.mode {
                LoadMode::Normal => LoadActions {
                    notice: LoadNotice::Quiet,
                    throttle: false,
                    restore: false,
                    clear_cache: false,
                },
                LoadMode::Elevated => {
                    self.recovery_streak = saturating_inc(self.recovery_streak);
                    if self.recovery_streak >= RECOVERY_SAMPLES {
                        self.mode = LoadMode::Normal;
                        self.elevated_streak = 0;
                        self.recovery_streak = 0;
                        LoadActions {
                            notice: LoadNotice::Exiting,
                            throttle: false,
                            restore: true,
                            clear_cache: true,
                        }
                    } else {
                        LoadActions {
                            notice: LoadNotice::Exiting,
                            throttle: false,
                            restore: false,
                            clear_cache: false,
                        }
                    }
                },
            }
        }
    }
}

/// The load machine's transition table, over one usage sample.
///
/// - Normal, over threshold: enter the elevated regime at streak one and
///   announce it; nothing is invoked yet.
/// - Elevated, over threshold: lengthen the streak, clear any recovery
///   progress, announce the continued load, and throttle exactly when the
///   streak reaches the trigger count — once per escalation.
/// - Elevated, at or under threshold: lengthen the recovery streak and
///   announce the pending exit on every such sample; when the recovery
///   streak reaches its trigger the state resets fully to normal and the
///   restore and cache-clear capabilities are both invoked, exactly once.
/// - Normal, at or under threshold: steady state, no notice and no action.
pub open spec fn load_step_spec(s: LoadState, usage: int) -> (LoadState, LoadActions) {
    if usage > CPU_USAGE_THRESHOLD {
        match s.mode {
            LoadMode::Normal => (
                LoadState { mode: LoadMode::Elevated, elevated_streak: 1, recovery_streak: 0 },
                LoadActions {
                    notice: LoadNotice::EnterElevated,
                    throttle: false,
                    restore: false,
                    clear_cache: false,
                },
            ),
            LoadMode::Elevated => {
                let streak = spec_saturating_inc(s.elevated_streak);
                (
                    LoadState {
                        mode: LoadMode::Elevated,
                        elevated_streak: streak,
                        recovery_streak: 0,
                    },
                    LoadActions {
                        notice: LoadNotice::StillElevated,
                        throttle: streak == MAX_HIGH_LOAD,
                        restore: false,
                        clear_cache: false,
                    },
                )
            },
        }
    } else {
        match s.mode {
            LoadMode::Normal => (
                s,
                LoadActions {
                    notice: LoadNotice::Quiet,
                    throttle: false,
                    restore: false,
                    clear_cache: false,
                },
            ),
            LoadMode::Elevated => {
                let streak = spec_saturating_inc(s.recovery_streak);
                if streak >= RECOVERY_SAMPLES {
                    (
                        LoadState {
                            mode: LoadMode::Normal,
                            elevated_streak: 0,
                            recovery_streak: 0,
                        },
                        LoadActions {
                            notice: LoadNotice::Exiting,
                            throttle: false,
                            restore: true,
                            clear_cache: true,
                        },
                    )
                } else {
                    (
                        LoadState {
                            mode: LoadMode::Elevated,
                            elevated_streak: s.elevated_streak,
                            recovery_streak: streak,
                        },
                        LoadActions {
                            notice: LoadNotice::Exiting,
                            throttle: false,
                            restore: false,
                            clear_cache: false,
                        },
                    )
                }
            },
        }
    }
}

/// What every reachable load state satisfies: the normal regime carries no
/// streaks, and the elevated regime was entered by at least one
/// threshold-crossing sample.
pub open spec fn load_state_wf(s: LoadState) -> bool {
    &&& s.mode == LoadMode::Normal ==> s.elevated_streak == 0 && s.recovery_streak == 0
    &&& s.mode == LoadMode::Elevated ==> s.elevated_streak >= 1
}

/// The startup state is well formed and every step preserves
/// well-formedness: streak counters return to zero only through the
/// machine's own transitions.
pub proof fn lemma_load_step_preserves_wf(s: LoadState, usage: int)
    requires
        load_state_wf(s),
    ensures
        load_state_wf(load_step_spec(s, usage).0),
{
}

/// From the normal regime, three consecutive samples over the threshold
/// invoke the throttle capability exactly once, on the third sample.
pub proof fn lemma_throttle_once_on_third_high_sample(
    s0: LoadState,
    u1: int,
    u2: int,
    u3: int,
)
    requires
        s0.mode == LoadMode::Normal,
        u1 > CPU_USAGE_THRESHOLD,
        u2 > CPU_USAGE_THRESHOLD,
        u3 > CPU_USAGE_THRESHOLD,
    ensures
        !load_step_spec(s0, u1).1.throttle,
        !load_step_spec(load_step_spec(s0, u1).0, u2).1.throttle,
        load_step_spec(load_step_spec(load_step_spec(s0, u1).0, u2).0, u3).1.throttle,
{
}

/// From an elevated state with no recovery progress yet, three consecutive
/// samples at or under the threshold invoke the restore and cache-clear
/// capabilities exactly once each, on the third sample, and reset the state
/// to normal with both streaks cleared.
pub proof fn lemma_recovery_after_three_normal_samples(
    s0: LoadState,
    u1: int,
    u2: int,
    u3: int,
)
    requires
        s0.mode == LoadMode::Elevated,
        s0.recovery_streak == 0,
        u1 <= CPU_USAGE_THRESHOLD,
        u2 <= CPU_USAGE_THRESHOLD,
        u3 <= CPU_USAGE_THRESHOLD,
    ensures
        !load_step_spec(s0, u1).1.restore,
        !load_step_spec(s0, u1).1.clear_cache,
        !load_step_spec(load_step_spec(s0, u1).0, u2).1.restore,
        !load_step_spec(load_step_spec(s0, u1).0, u2).1.clear_cache,
        load_step_spec(load_step_spec(load_step_spec(s0, u1).0, u2).0, u3).1.restore,
        load_step_spec(load_step_spec(load_step_spec(s0, u1).0, u2).0, u3).1.clear_cache,
        load_step_spec(load_step_spec(load_step_spec(s0, u1).0, u2).0, u3).0 == (LoadState {
            mode: LoadMode::Normal,
            elevated_streak: 0u64,
            recovery_streak: 0u64,
        }),
{
}

/// The latency hysteresis state: the count of consecutive high-latency
/// successful probes. The counter is deliberately unbounded — it keeps
/// growing past the trigger value.
#[derive(Clone, Copy, Debug, PartialEq, Eq, Structural)]
pub struct LatencyState {
    pub high_streak: u64,
}

/// What one latency sample decided: whether to announce the high-latency
/// streak, and the capabilities to invoke.
#[derive(Clone, Copy, Debug, PartialEq, Eq, Structural)]
pub struct LatencyActions {
    pub high_notice: bool,
    pub throttle: bool,
    pub restore: bool,
}

impl LatencyState {
    /// The startup state: no streak.
    pub fn new() -> (s: LatencyState)
        ensures
            s == (LatencyState { high_streak: 0u64 }),
    {
        LatencyState { high_streak: 0 }
    }

    /// Feeds the latency of one successful probe through the machine; see
    /// [`latency_step_spec`] for the transition table.
    pub fn step(&mut self, latency_ms: u64) -> (a: LatencyActions)
        ensures
            *final(self) == latency_step_spec(*old(self), latency_ms as int).0,
            a == latency_step_spec(*old(self), latency_ms as int).1,
    {
        if latency_ms > HIGH_LATENCY_THRESHOLD {
            self.high_streak = saturating_inc(self.high_streak);
            LatencyActions {
                high_notice: true,
                throttle: self.high_streak == MAX_HIGH_LATENCY,
                restore: false,
            }
        } else {
            let was_at_trigger = self.high_streak == MAX_HIGH_LATENCY;
            self.high_streak = 0;
            LatencyActions { high_notice: false, throttle: false, restore: was_at_trigger }
        }
    }
}

/// The latency machine's transition table, over the latency of one
/// successful probe.
///
/// - Latency over the threshold: lengthen the streak (without any cap),
///   announce it, and throttle exactly when the streak equals the trigger
///   count.
/// - Latency at or under the threshold: reset the streak to zero; restore
///   exactly when the streak stood at exactly the trigger count. The
///   equality check is deliberate, so a streak that grew past the trigger
///   resets without a restore; only the load machine's own recovery can
///   then undo the throttling.
pub open spec fn latency_step_spec(s: LatencyState, latency_ms: int) -> (
    LatencyState,
    LatencyActions,
) {
    if latency_ms > HIGH_LATENCY_THRESHOLD {
        let streak = spec_saturating_inc(s.high_streak);
        (
            LatencyState { high_streak: streak },
            LatencyActions {
                high_notice: true,
                throttle: streak == MAX_HIGH_LATENCY,
                restore: false,
            },
        )
    } else {
        (
            LatencyState { high_streak: 0 },
            LatencyActions {
                high_notice: false,
                throttle: false,
                restore: s.high_streak == MAX_HIGH_LATENCY,
            },
        )
    }
}

/// From a clear streak, three consecutive high-latency probes invoke the
/// throttle capability exactly once, on the third; a normal-latency probe
/// right after invokes the restore capability exactly once.
pub proof fn lemma_latency_throttle_then_restore(
    s0: LatencyState,
    l1: int,
    l2: int,
    l3: int,
    l4: int,
)
    requires
        s0.high_streak == 0,
        l1 > HIGH_LATENCY_THRESHOLD,
        l2 > HIGH_LATENCY_THRESHOLD,
        l3 > HIGH_LATENCY_THRESHOLD,
        l4 <= HIGH_LATENCY_THRESHOLD,
    ensures
        !latency_step_spec(s0, l1).1.throttle,
        !latency_step_spec(latency_step_spec(s0, l1).0, l2).1.throttle,
        latency_step_spec(latency_step_spec(latency_step_spec(s0, l1).0, l2).0, l3).1.throttle,
        latency_step_spec(
            latency_step_spec(latency_step_spec(latency_step_spec(s0, l1).0, l2).0, l3).0,
            l4,
        ).1.restore,
        latency_step_spec(
            latency_step_spec(latency_step_spec(latency_step_spec(s0, l1).0, l2).0, l3).0,
            l4,
        ).0.high_streak == 0,
{
}

/// From a clear streak, four consecutive high-latency probes followed by a
/// normal-latency probe reset the streak without invoking restore: the
/// streak stood past the trigger count when the normal sample arrived.
pub proof fn lemma_latency_overlong_streak_skips_restore(
    s0: LatencyState,
    l1: int,
    l2: int,
    l3: int,
    l4: int,
    l5: int,
)
    requires
        s0.high_streak == 0,
        l1 > HIGH_LATENCY_THRESHOLD,
        l2 > HIGH_LATENCY_THRESHOLD,
        l3 > HIGH_LATENCY_THRESHOLD,
        l4 > HIGH_LATENCY_THRESHOLD,
        l5 <= HIGH_LATENCY_THRESHOLD,
    ensures
        !latency_step_spec(
            latency_step_spec(
                latency_step_spec(latency_step_spec(latency_step_spec(s0, l1).0, l2).0, l3).0,
                l4,
            ).0,
            l5,
        ).1.restore,
        latency_step_spec(
            latency_step_spec(
                latency_step_spec(latency_step_spec(latency_step_spec(s0, l1).0, l2).0, l3).0,
                l4,
            ).0,
            l5,
        ).0.high_streak == 0,
{
}

/// The failure-counter state: the count of consecutive failed connectivity
/// probes.
#[derive(Clone, Copy, Debug, PartialEq, Eq, Structural)]
pub struct FailureState {
    pub consecutive_failures: u64,
}

impl FailureState {
    /// The startup state: no failures.
    pub fn new() -> (s: FailureState)
        ensures
            s == (FailureState { consecutive_failures: 0u64 }),
    {
        FailureState { consecutive_failures: 0 }
    }

    /// Feeds one probe outcome through the counter; see
    /// [`failure_step_spec`]. The returned flag asks for a host reboot.
    pub fn step(&mut self, success: bool) -> (reboot: bool)
        ensures
            *final(self) == failure_step_spec(*old(self), success).0,
            reboot == failure_step_spec(*old(self), success).1,
    {
        if success {
            self.consecutive_failures = 0;
            false
        } else {
            self.consecutive_failures = saturating_inc(self.consecutive_failures);
            self.consecutive_failures >= MAX_FAILURES
        }
    }
}

/// The failure counter's transition table, over one probe outcome.
///
/// Any success resets the counter. A failure lengthens it, and once the
/// count reaches the failure threshold a reboot is requested — and requested
/// again on every further failing probe, since the counter is deliberately
/// not reset by the request: reboot is retried until connectivity returns or
/// the host actually goes down.
pub open spec fn failure_step_spec(s: FailureState, success: bool) -> (FailureState, bool) {
    if success {
        (FailureState { consecutive_failures: 0 }, false)
    } else {
        let count = spec_saturating_inc(s.consecutive_failures);
        (FailureState { consecutive_failures: count }, count >= MAX_FAILURES)
    }
}

/// From a clear counter, failures below the threshold request no reboot,
/// and every consecutive failure from the threshold on — the tenth, the
/// eleventh, and each one after — requests a reboot again.
pub proof fn lemma_reboot_on_tenth_and_again(s0: FailureState)
    requires
        s0.consecutive_failures == 0,
    ensures
        forall|n: int|
            1 <= n < MAX_FAILURES ==> !#[trigger] failure_streak_spec(s0, n).1,
        forall|n: int|
            MAX_FAILURES <= n < u64::MAX ==> #[trigger] failure_streak_spec(s0, n).1,
{
    assert forall|n: int| 1 <= n < MAX_FAILURES implies !#[trigger] failure_streak_spec(
        s0,
        n,
    ).1 by {
        lemma_failure_streak_counts(s0, n);
    }
    assert forall|n: int| MAX_FAILURES <= n < u64::MAX implies #[trigger] failure_streak_spec(
        s0,
        n,
    ).1 by {
        lemma_failure_streak_counts(s0, n);
    }
}

/// The state and reboot request after `n` consecutive failing probes.
pub open spec fn failure_streak_spec(s: FailureState, n: int) -> (FailureState, bool)
    decreases n,
{
    if n <= 0 {
        (s, false)
    } else {
        failure_step_spec(failure_streak_spec(s, n - 1).0, false)
    }
}

/// A failure streak of length `n` counts exactly `n` failures (below the
/// saturation pin) and requests a reboot exactly from the threshold on.
proof fn lemma_failure_streak_counts(s0: FailureState, n: int)
    requires
        s0.consecutive_failures == 0,
        0 <= n < u64::MAX,
    ensures
        failure_streak_spec(s0, n).0.consecutive_failures == n,
        failure_streak_spec(s0, n).1 <==> (n >= MAX_FAILURES && n >= 1),
    decreases n,
{
    if n > 0 {
        lemma_failure_streak_counts(s0, n - 1);
    }
}

} // verus!
