use mps_allocator::{mps_memory_stats, MPSMemoryStats};

#[test]
fn stats_absent_when_no_handle() {
    assert_eq!(mps_memory_stats(0, 1, 2, 3, 4, 5, 6), None);
}

#[test]
fn stats_copy_the_six_query_answers() {
    let stats = mps_memory_stats(0x1000, 1024, 512, 2048, 4096, 256, 1024)
        .expect("a live facade should yield a snapshot");
    assert_eq!(stats.total_allocated, 1024);
    assert_eq!(stats.current_allocated, 512);
    assert_eq!(stats.driver_allocated, 2048);
    assert_eq!(stats.recommended_max, 4096);
    assert_eq!(stats.low_watermark_limit, 256);
    assert_eq!(stats.high_watermark_limit, 1024);
}

#[test]
fn rendering_lists_the_counters_in_order_with_byte_suffixes() {
    let stats = mps_memory_stats(0x1000, 1024, 512, 2048, 4096, 256, 1024).unwrap();
    let report = stats.render();
    let lines: Vec<&str> = report.lines().collect();
    assert_eq!(lines.len(), 7);
    assert_eq!(lines[0], "MPS Memory Stats:");
    assert_eq!(lines[1], "Total Allocated: 1024 bytes");
    assert_eq!(lines[2], "Current Allocated: 512 bytes");
    assert_eq!(lines[3], "Driver Allocated: 2048 bytes");
    assert_eq!(lines[4], "Recommended Max: 4096 bytes");
    assert_eq!(lines[5], "Low Watermark Limit: 256 bytes");
    assert_eq!(lines[6], "High Watermark Limit: 1024 bytes");
    for line in &lines[1..] {
        assert!(line.ends_with(" bytes"));
    }
}

#[test]
fn rendering_of_an_all_zero_snapshot() {
    let stats = MPSMemoryStats {
        total_allocated: 0,
        current_allocated: 0,
        driver_allocated: 0,
        recommended_max: 0,
        low_watermark_limit: 0,
        high_watermark_limit: 0,
    };
    assert_eq!(
        stats.render(),
        "MPS Memory Stats:\n\
         Total Allocated: 0 bytes\n\
         Current Allocated: 0 bytes\n\
         Driver Allocated: 0 bytes\n\
         Recommended Max: 0 bytes\n\
         Low Watermark Limit: 0 bytes\n\
         High Watermark Limit: 0 bytes"
    );
}

#[test]
fn rendering_of_the_largest_counter() {
    let stats = MPSMemoryStats {
        total_allocated: usize::MAX,
        current_allocated: 1,
        driver_allocated: 10,
        recommended_max: 100,
        low_watermark_limit: 1000,
        high_watermark_limit: 9,
    };
    let report = stats.render();
    assert!(report.contains(&format!("Total Allocated: {} bytes", usize::MAX)));
    assert!(report.contains("Current Allocated: 1 bytes"));
    assert!(report.contains("Driver Allocated: 10 bytes"));
    assert!(report.contains("Recommended Max: 100 bytes"));
    assert!(report.contains("Low Watermark Limit: 1000 bytes"));
    assert!(report.contains("High Watermark Limit: 9 bytes"));
}

#[test]
fn snapshots_are_plain_values() {
    let a = mps_memory_stats(0x1000, 1, 2, 3, 4, 5, 6).unwrap();
    let b = a;
    assert_eq!(a, b);
    assert_ne!(
        a,
        MPSMemoryStats {
            total_allocated: 7,
            current_allocated: 2,
            driver_allocated: 3,
            recommended_max: 4,
            low_watermark_limit: 5,
            high_watermark_limit: 6,
        }
    );
}
