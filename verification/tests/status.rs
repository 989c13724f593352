use usque::clock::Duration;
use usque::status::{format_bytes, format_duration};

#[test]
fn format_bytes_values() {
    assert_eq!(format_bytes(0), "0 B");
    assert_eq!(format_bytes(512), "512 B");
    assert_eq!(format_bytes(1023), "1023 B");
    assert_eq!(format_bytes(1024), "1.0 KiB");
    assert_eq!(format_bytes(1536), "1.5 KiB");
    assert_eq!(format_bytes(1_048_576), "1.0 MiB");
    assert_eq!(format_bytes(1_073_741_824), "1.0 GiB");
}

#[test]
fn format_duration_values() {
    assert_eq!(format_duration(Duration::from_secs(0)), "0s");
    assert_eq!(format_duration(Duration::from_secs(59)), "59s");
    assert_eq!(format_duration(Duration::from_secs(60)), "1m 00s");
    assert_eq!(format_duration(Duration::from_secs(90)), "1m 30s");
    assert_eq!(format_duration(Duration::from_secs(3600)), "1h 00m 00s");
    assert_eq!(format_duration(Duration::from_secs(3661)), "1h 01m 01s");
}

#[test]
fn amounts_round_as_doubles_do() {
    let mut n: u64 = 1;
    let mut seed: u64 = 0x9e37_79b9_7f4a_7c15;
    for _ in 0..20_000 {
        seed = seed.wrapping_mul(6_364_136_223_846_793_005).wrapping_add(1);
        n = seed >> (seed % 50);
        let expected = if n >= 1 << 30 {
            format!("{:.1} GiB", n as f64 / (1u64 << 30) as f64)
        } else if n >= 1 << 20 {
            format!("{:.1} MiB", n as f64 / (1u64 << 20) as f64)
        } else if n >= 1 << 10 {
            format!("{:.1} KiB", n as f64 / 1024.0)
        } else {
            format!("{} B", n)
        };
        assert_eq!(format_bytes(n), expected);
    }
    assert!(n > 0);
    // Exact halves go to the even digit, and numbers beyond 53 bits are rounded first.
    for n in [1280u64, 1792, 2304, 1_310_720, u64::MAX, (1 << 54) + 268_435_457, (1 << 62) + 268_435_456 + 255] {
        let unit = if n >= 1 << 30 { 30 } else if n >= 1 << 20 { 20 } else { 10 };
        let name = if n >= 1 << 30 { "GiB" } else if n >= 1 << 20 { "MiB" } else { "KiB" };
        assert_eq!(format_bytes(n), format!("{:.1} {}", n as f64 / (1u64 << unit) as f64, name));
    }
}
