use webdir::sizes::human_size;

fn shown_as_double(bytes: u64) -> String {
    const UNITS: [&str; 4] = ["B", "KB", "MB", "GB"];
    let mut size = bytes as f64;
    let mut unit = 0;
    while size >= 1024.0 && unit < UNITS.len() - 1 {
        size /= 1024.0;
        unit += 1;
    }
    if unit == 0 {
        format!("{bytes} B")
    } else {
        format!("{size:.1} {}", UNITS[unit])
    }
}

#[test]
fn sizes_read_in_the_largest_fitting_unit() {
    assert_eq!(human_size(0), "0 B");
    assert_eq!(human_size(1023), "1023 B");
    assert_eq!(human_size(1024), "1.0 KB");
    assert_eq!(human_size(1536), "1.5 KB");
    assert_eq!(human_size(4096), "4.0 KB");
    assert_eq!(human_size(5 * 1024 * 1024), "5.0 MB");
    assert_eq!(human_size(3 * 1024 * 1024 * 1024 / 2), "1.5 GB");
}

#[test]
fn sizes_round_like_doubles_do() {
    let mut samples: Vec<u64> = vec![
        1280, 1331, 1332, 1126, 1075, 1076, 10188, 10189, 1048063, 1048064, 1048575, 1048576,
        1073741823, 1073741824, 1099511627776, 9007199254740991, 9007199254740992,
        9007199254740993, 9007199254740995, 18014398509481985, 18014398509481987,
        u64::MAX - 1024, u64::MAX - 1, u64::MAX,
    ];
    for step in 0..20000u64 {
        samples.push(step * 53 + 900);
        samples.push(step * 104_729 + 1_000_000);
        samples.push(step.wrapping_mul(0x9E37_79B9_7F4A_7C15));
    }
    for k in 1..4u32 {
        let unit = 1024u64.pow(k);
        for t in 0..2000u64 {
            // Values whose size in the unit ends exactly on a half tenth.
            let tie = (2 * t + 1) * unit / 20;
            samples.push(tie);
            samples.push(tie + 1);
            samples.push(tie.saturating_sub(1));
        }
    }
    for bytes in samples {
        assert_eq!(human_size(bytes), shown_as_double(bytes), "{bytes}");
    }
}
