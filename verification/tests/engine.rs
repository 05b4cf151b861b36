use zxping::cpu::CpuStats;
use zxping::hysteresis::{FailureState, LatencyState, LoadMode, LoadNotice, LoadState};
use zxping::mailbox::{ack_bytes, ServerCmd};
use zxping::monitor::{check_connectivity, interval_due, Monitor};

fn zero_snap() -> CpuStats {
    CpuStats {
        user: 0,
        nice: 0,
        system: 0,
        idle: 0,
        iowait: 0,
        irq: 0,
        softirq: 0,
        steal: 0,
        guest: 0,
        guest_nice: 0,
    }
}

#[test]
fn three_high_samples_throttle_once_on_third() {
    let mut s = LoadState::new();
    let a1 = s.step(90);
    assert_eq!(a1.notice, LoadNotice::EnterElevated);
    assert!(!a1.throttle);
    let a2 = s.step(90);
    assert_eq!(a2.notice, LoadNotice::StillElevated);
    assert!(!a2.throttle);
    let a3 = s.step(90);
    assert!(a3.throttle);
    assert_eq!(s.elevated_streak, 3);
    // a fourth high sample does not throttle again
    let a4 = s.step(90);
    assert!(!a4.throttle);
}

#[test]
fn recovery_restores_and_clears_cache_once() {
    let mut s = LoadState::new();
    s.step(90);
    // elevated; three normal samples end the escalation
    let b1 = s.step(10);
    assert_eq!(b1.notice, LoadNotice::Exiting);
    assert!(!b1.restore && !b1.clear_cache);
    let b2 = s.step(10);
    assert!(!b2.restore && !b2.clear_cache);
    let b3 = s.step(10);
    assert!(b3.restore && b3.clear_cache);
    assert_eq!(s.mode, LoadMode::Normal);
    assert_eq!(s.elevated_streak, 0);
    assert_eq!(s.recovery_streak, 0);
    // steady normal state stays quiet
    let b4 = s.step(10);
    assert_eq!(b4.notice, LoadNotice::Quiet);
    assert!(!b4.restore && !b4.clear_cache);
}

#[test]
fn interrupted_recovery_starts_over() {
    let mut s = LoadState::new();
    s.step(90);
    s.step(10);
    s.step(10);
    // a high sample clears the recovery progress
    s.step(90);
    assert_eq!(s.recovery_streak, 0);
    let c1 = s.step(10);
    let c2 = s.step(10);
    assert!(!c1.restore && !c2.restore);
    let c3 = s.step(10);
    assert!(c3.restore && c3.clear_cache);
}

#[test]
fn latency_throttles_on_third_and_restores_after() {
    let mut s = LatencyState::new();
    let a1 = s.step(60);
    assert!(a1.high_notice && !a1.throttle);
    let a2 = s.step(60);
    assert!(!a2.throttle);
    let a3 = s.step(60);
    assert!(a3.throttle);
    // normal probe right after the trigger restores exactly once
    let a4 = s.step(20);
    assert!(a4.restore);
    assert_eq!(s.high_streak, 0);
}

#[test]
fn overlong_latency_streak_resets_without_restore() {
    let mut s = LatencyState::new();
    s.step(60);
    s.step(60);
    s.step(60);
    let a4 = s.step(60);
    assert!(!a4.throttle); // fires only at exactly three
    let a5 = s.step(20);
    assert!(!a5.restore); // streak was four, not three
    assert_eq!(s.high_streak, 0);
}

#[test]
fn boundary_latency_is_not_high() {
    let mut s = LatencyState::new();
    let a = s.step(50);
    assert!(!a.high_notice);
    assert_eq!(s.high_streak, 0);
    let b = s.step(51);
    assert!(b.high_notice);
    assert_eq!(s.high_streak, 1);
}

#[test]
fn reboot_on_tenth_failure_and_again_on_eleventh() {
    let mut s = FailureState::new();
    for k in 1..=9u32 {
        let reboot = s.step(false);
        assert!(!reboot, "no reboot expected on failure {k}");
    }
    assert!(s.step(false)); // tenth
    assert!(s.step(false)); // eleventh: retried by design
    assert_eq!(s.consecutive_failures, 11);
    // any success clears the counter
    assert!(!s.step(true));
    assert_eq!(s.consecutive_failures, 0);
}

#[test]
fn probe_success_resets_failures_regardless_of_latency() {
    let mut m = Monitor::new(0, zero_snap());
    for _ in 0..9 {
        m.handle_probe(0, false, None);
    }
    let a = m.handle_probe(0, true, Some(500));
    assert!(!a.reboot);
    assert_eq!(m.failures.consecutive_failures, 0);
    assert_eq!(m.latency.high_streak, 1);
}

#[test]
fn probe_success_without_measurement_resets_silently() {
    let mut m = Monitor::new(0, zero_snap());
    m.handle_probe(0, true, Some(60));
    m.handle_probe(0, true, Some(60));
    m.handle_probe(0, true, Some(60)); // streak at the trigger
    let a = m.handle_probe(0, true, None);
    assert!(!a.restore); // unmeasured success resets without restore
    assert_eq!(m.latency.high_streak, 0);
}

#[test]
fn restart_datagram_is_acked_and_consumed_once() {
    let mut m = Monitor::new(0, zero_snap());
    let ack = m.receive_datagram(b"RESTART_ADBD");
    assert!(ack);
    assert_eq!(ack_bytes(), b"OK".to_vec());
    assert_eq!(m.take_command(), ServerCmd::RestartADB);
    // consumed exactly once: the slot is empty again
    assert_eq!(m.take_command(), ServerCmd::Idle);
}

#[test]
fn unrecognized_datagram_changes_nothing_and_sends_no_reply() {
    let mut m = Monitor::new(0, zero_snap());
    let ack = m.receive_datagram(b"FOO");
    assert!(!ack);
    assert_eq!(m.take_command(), ServerCmd::Idle);
}

#[test]
fn later_datagram_overwrites_pending_command() {
    let mut m = Monitor::new(0, zero_snap());
    assert!(m.receive_datagram(b"RESTART_ADBD"));
    assert!(m.receive_datagram(b"KILL_ADBD"));
    assert_eq!(m.take_command(), ServerCmd::KillADB);
    assert_eq!(m.take_command(), ServerCmd::Idle);
}

#[test]
fn ping_is_acked_without_latching_a_command() {
    let mut m = Monitor::new(0, zero_snap());
    assert!(m.receive_datagram(b"PING"));
    assert_eq!(m.take_command(), ServerCmd::Idle);
    assert!(m.receive_datagram(b"RESTART_SERVER"));
    assert!(m.receive_datagram(b"PING"));
    // the ping did not overwrite the latched reboot command
    assert_eq!(m.take_command(), ServerCmd::RestartSERVER);
}

#[test]
fn command_slot_codes_round_trip() {
    let mut slot: u8 = 0;
    for cmd in [ServerCmd::Idle, ServerCmd::RestartADB, ServerCmd::KillADB,
        ServerCmd::RestartSERVER] {
        cmd.store(&mut slot);
        assert_eq!(ServerCmd::load(&slot), cmd);
    }
    // an unknown code reads as the empty slot
    slot = 200;
    assert_eq!(ServerCmd::load(&slot), ServerCmd::Idle);
}

#[test]
fn interval_checks_fire_at_their_boundary() {
    assert!(!interval_due(29_999, 0, 30_000));
    assert!(interval_due(30_000, 0, 30_000));
    assert!(interval_due(70_000, 0, 30_000));
    // a reading older than the anchor is never due
    assert!(!interval_due(10, 20, 0));

    let m = Monitor::new(1_000, zero_snap());
    assert!(!m.cpu_check_due(30_999));
    assert!(m.cpu_check_due(31_000));
    assert!(!m.network_check_due(60_999));
    assert!(m.network_check_due(61_000));
    assert!(!m.log_prune_due(86_400_999));
    assert!(m.log_prune_due(86_401_000));
}

#[test]
fn cpu_sample_steps_load_machine_and_keeps_snapshot() {
    let mut m = Monitor::new(0, zero_snap());
    let busy = CpuStats {
        user: 90,
        nice: 0,
        system: 0,
        idle: 10,
        iowait: 0,
        irq: 0,
        softirq: 0,
        steal: 0,
        guest: 0,
        guest_nice: 0,
    };
    let (usage, actions) = m.handle_cpu_sample(30_000, busy);
    assert_eq!(usage, 90);
    assert_eq!(actions.notice, LoadNotice::EnterElevated);
    assert_eq!(m.prev_cpu, busy);
    assert_eq!(m.last_cpu_check_ms, 30_000);
    // same snapshot again: zero delta, zero usage, recovery progress
    let (usage2, actions2) = m.handle_cpu_sample(60_000, busy);
    assert_eq!(usage2, 0);
    assert_eq!(actions2.notice, LoadNotice::Exiting);
}

#[test]
fn failed_cpu_read_only_moves_the_timer() {
    let mut m = Monitor::new(0, zero_snap());
    m.receive_datagram(b"RESTART_ADBD");
    m.note_cpu_read_failure(30_000);
    assert_eq!(m.last_cpu_check_ms, 30_000);
    assert_eq!(m.load, LoadState::new());
    assert_eq!(m.take_command(), ServerCmd::RestartADB);
}

#[test]
fn connectivity_outcome_shapes() {
    assert_eq!(check_connectivity(true, 12), (true, Some(12)));
    assert_eq!(check_connectivity(false, 12), (false, None));
}
