use zxping::bytes::{bytes_eq, contains_bytes, is_numeric_name, parse_u64, parse_u64_or_zero,
    split_fields, starts_with};
use zxping::cpu::{calculate_cpu_usage, parse_cpu_line, parse_cpu_stats, CpuStats};
use zxping::netcfg::{default_network_bytes, default_target_bytes, format_notification,
    pick_bridge_network, select_target};

fn snap(v: [u64; 10]) -> CpuStats {
    CpuStats {
        user: v[0],
        nice: v[1],
        system: v[2],
        idle: v[3],
        iowait: v[4],
        irq: v[5],
        softirq: v[6],
        steal: v[7],
        guest: v[8],
        guest_nice: v[9],
    }
}

#[test]
fn usage_is_quotient_of_deltas() {
    let prev = snap([0, 0, 0, 0, 0, 0, 0, 0, 0, 0]);
    let cur = snap([30, 0, 20, 40, 10, 0, 0, 0, 0, 0]);
    // active delta 50, total delta 100
    assert_eq!(calculate_cpu_usage(&prev, &cur), 50);

    let prev = snap([10, 0, 0, 80, 0, 0, 0, 0, 0, 0]);
    let cur = snap([100, 0, 0, 90, 0, 0, 0, 0, 0, 0]);
    // active delta 90, total delta 100
    assert_eq!(calculate_cpu_usage(&prev, &cur), 90);

    let prev = snap([7, 1, 2, 5, 1, 0, 0, 0, 0, 0]);
    let cur = snap([8, 1, 2, 6, 1, 0, 0, 0, 0, 0]);
    // active delta 1, total delta 2 -> 50
    assert_eq!(calculate_cpu_usage(&prev, &cur), 50);
}

#[test]
fn usage_is_zero_without_total_delta() {
    let prev = snap([5, 0, 0, 5, 0, 0, 0, 0, 0, 0]);
    // identical snapshots: total delta 0
    assert_eq!(calculate_cpu_usage(&prev, &prev), 0);
    // counter wrap: totals went backwards
    let wrapped = snap([1, 0, 0, 1, 0, 0, 0, 0, 0, 0]);
    assert_eq!(calculate_cpu_usage(&prev, &wrapped), 0);
}

#[test]
fn usage_clamps_to_percentage_range() {
    // idle wrapped backwards while the total still grew: the active delta
    // exceeds the total delta and usage saturates at 100
    let prev = snap([0, 0, 0, 100, 0, 0, 0, 0, 0, 0]);
    let cur = snap([200, 0, 0, 50, 0, 0, 0, 0, 0, 0]);
    assert_eq!(calculate_cpu_usage(&prev, &cur), 100);
    // active counters wrapped backwards while the total grew: a negative
    // active delta reads as a zero-usage interval
    let prev = snap([100, 0, 0, 0, 0, 0, 0, 0, 0, 0]);
    let cur = snap([50, 0, 0, 200, 0, 0, 0, 0, 0, 0]);
    assert_eq!(calculate_cpu_usage(&prev, &cur), 0);
}

#[test]
fn parse_line_with_ten_fields() {
    let line = b"cpu 1 2 3 4 5 6 7 8 9 10";
    let st = parse_cpu_line(line).expect("line should parse");
    assert_eq!(st, snap([1, 2, 3, 4, 5, 6, 7, 8, 9, 10]));
}

#[test]
fn parse_line_with_nine_fields_defaults_guest_nice() {
    let line = b"cpu 1 2 3 4 5 6 7 8 9";
    let st = parse_cpu_line(line).expect("line should parse");
    assert_eq!(st, snap([1, 2, 3, 4, 5, 6, 7, 8, 9, 0]));
    assert_eq!(st.guest_nice, 0);
}

#[test]
fn parse_line_rejects_short_or_untagged_lines() {
    assert_eq!(parse_cpu_line(b"cpu 1 2 3 4 5 6 7 8"), None);
    assert_eq!(parse_cpu_line(b"cpu0 1 2 3 4 5 6 7 8 9 10"), None);
    assert_eq!(parse_cpu_line(b"intr 1 2 3 4 5 6 7 8 9 10"), None);
    assert_eq!(parse_cpu_line(b""), None);
}

#[test]
fn parse_field_failures_read_as_zero() {
    let line = b"cpu 1 abc 3 4 5 6 7 8 9 10";
    let st = parse_cpu_line(line).expect("line should parse");
    assert_eq!(st.nice, 0);
    // a value past u64::MAX fails the parse and reads as zero
    let line = b"cpu 99999999999999999999999999 2 3 4 5 6 7 8 9 10";
    let st = parse_cpu_line(line).expect("line should parse");
    assert_eq!(st.user, 0);
}

#[test]
fn parse_content_takes_first_matching_line() {
    let content = b"intr 0 0\ncpu 1 2 3 4 5 6 7 8 9 10\ncpu0 9 9 9 9 9 9 9 9 9 9\n";
    let st = parse_cpu_stats(content).expect("content should parse");
    assert_eq!(st, snap([1, 2, 3, 4, 5, 6, 7, 8, 9, 10]));
}

#[test]
fn parse_content_skips_short_tagged_lines() {
    let content = b"cpu 1 2\ncpu 5 6 7 8 9 10 11 12 13 14\n";
    let st = parse_cpu_stats(content).expect("content should parse");
    assert_eq!(st.user, 5);
}

#[test]
fn parse_content_handles_crlf_and_missing_trailing_newline() {
    let content = b"cpu 1 2 3 4 5 6 7 8 9 10\r\nmore 1";
    let st = parse_cpu_stats(content).expect("content should parse");
    assert_eq!(st, snap([1, 2, 3, 4, 5, 6, 7, 8, 9, 10]));
    let content = b"cpu 1 2 3 4 5 6 7 8 9";
    assert_eq!(parse_cpu_stats(content).map(|s| s.guest_nice), Some(0));
}

#[test]
fn parse_content_without_aggregate_line_fails() {
    assert_eq!(parse_cpu_stats(b""), None);
    assert_eq!(parse_cpu_stats(b"cpu0 1 2 3 4 5 6 7 8 9 10\n"), None);
}

#[test]
fn decimal_parse_matches_std() {
    assert_eq!(parse_u64(b"0"), Some(0));
    assert_eq!(parse_u64(b"42"), Some(42));
    assert_eq!(parse_u64(b"+42"), Some(42));
    assert_eq!(parse_u64(b"18446744073709551615"), Some(u64::MAX));
    assert_eq!(parse_u64(b"18446744073709551616"), None);
    assert_eq!(parse_u64(b""), None);
    assert_eq!(parse_u64(b"+"), None);
    assert_eq!(parse_u64(b"-1"), None);
    assert_eq!(parse_u64(b"12a"), None);
    assert_eq!(parse_u64(b"++1"), None);
    assert_eq!(parse_u64(b"4+2"), None);
    assert_eq!(parse_u64(b"007"), Some(7));
    assert_eq!(parse_u64_or_zero(b"12a"), 0);
    assert_eq!(parse_u64_or_zero(b"12"), 12);
}

#[test]
fn fields_split_on_runs_of_whitespace() {
    let fields = split_fields(b"  cpu\t 1  2 ");
    let views: Vec<&[u8]> = fields.iter().map(|f| f.as_slice()).collect();
    assert_eq!(views, vec![b"cpu".as_slice(), b"1".as_slice(), b"2".as_slice()]);
    assert!(split_fields(b"   ").is_empty());
}

#[test]
fn byte_helpers() {
    assert!(bytes_eq(b"abc", b"abc"));
    assert!(!bytes_eq(b"abc", b"abd"));
    assert!(!bytes_eq(b"abc", b"ab"));
    assert!(starts_with(b"cpu 1", b"cpu "));
    assert!(!starts_with(b"cpu1", b"cpu "));
    assert!(contains_bytes(b"/bin/adbd --server", b"adbd"));
    assert!(!contains_bytes(b"/bin/sh", b"adbd"));
    assert!(is_numeric_name(b"1234"));
    assert!(!is_numeric_name(b"12a4"));
}

#[test]
fn bridge_network_takes_first_usable_route() {
    let listing = b"default via 10.0.0.1 dev br0\n192.168.7.0/24 dev br0 proto kernel\n";
    assert_eq!(pick_bridge_network(listing), b"192.168.7.0/24".to_vec());
}

#[test]
fn bridge_network_skips_link_local_and_falls_back() {
    let listing = b"169.254.0.0/16 dev br0 scope link\n";
    assert_eq!(pick_bridge_network(listing), default_network_bytes());
    assert_eq!(pick_bridge_network(b""), b"192.168.0.0/24".to_vec());
}

#[test]
fn target_prefers_argument_then_env_then_default() {
    let args = vec![b"--background".to_vec(), b"10.1.2.3:8080".to_vec()];
    let env = Some(b"10.9.9.9:80".to_vec());
    assert_eq!(select_target(&args, &env), b"10.1.2.3:8080".to_vec());

    let flags_only = vec![b"--background".to_vec(), b"--isprod".to_vec()];
    assert_eq!(select_target(&flags_only, &env), b"10.9.9.9:80".to_vec());

    assert_eq!(select_target(&flags_only, &None), default_target_bytes());
    assert_eq!(select_target(&flags_only, &Some(Vec::new())), b"127.0.0.1:80".to_vec());
}

#[test]
fn target_skips_short_flags_too() {
    // the program's own short background flag is a flag, not a target
    let short_flag_only = vec![b"-b".to_vec()];
    assert_eq!(select_target(&short_flag_only, &None), default_target_bytes());
    let env = Some(b"10.9.9.9:80".to_vec());
    assert_eq!(select_target(&short_flag_only, &env), b"10.9.9.9:80".to_vec());
    let mixed = vec![b"-b".to_vec(), b"10.1.2.3:8080".to_vec()];
    assert_eq!(select_target(&mixed, &None), b"10.1.2.3:8080".to_vec());
}

#[test]
fn notification_carries_device_tag() {
    assert_eq!(format_notification(b"HIGH_LOAD_ENTER"), b"[zxic] HIGH_LOAD_ENTER".to_vec());
    assert_eq!(format_notification(b""), b"[zxic] ".to_vec());
}
