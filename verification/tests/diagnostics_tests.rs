use ruffle4consoles::diagnostics::{is_slow, preload_step, tick_due, PreloadStep, PRELOAD_TIMEOUT_NANOS};
use ruffle4consoles::diagnostics::{
    format_bytes, get_vita_memory, gl_error_name, log_memory_snapshot, memory_snapshot_line, DiagnosticsState,
    NANOS_PER_SEC,
};

#[test]
fn fresh_state() {
    let d = DiagnosticsState::new();
    assert_eq!(d.frame_count, 0);
    assert_eq!(d.render_count, 0);
    assert_eq!(d.tick_time, 0);
    assert_eq!(d.heartbeat_interval, NANOS_PER_SEC);
    assert_eq!(d.memory_interval, 5 * NANOS_PER_SEC);
    assert!(!d.tick_in_progress);
    assert!(!d.render_in_progress);
    assert!(d.tick_start.is_none());
    assert!(!d.should_heartbeat());
    assert!(!d.should_check_memory());
}

#[test]
fn ticks_accumulate() {
    let mut d = DiagnosticsState::new();
    d.begin_tick();
    assert!(d.tick_in_progress);
    assert!(d.tick_start.is_some());
    std::hint::black_box(0);
    d.end_tick();
    assert!(!d.tick_in_progress);
    assert!(d.tick_start.is_none());
    assert_eq!(d.tick_time, d.last_tick_time);
    let first = d.tick_time;
    d.begin_tick();
    d.end_tick();
    assert_eq!(d.tick_time, first + d.last_tick_time);
    d.end_tick();
    assert_eq!(d.tick_time, first + d.last_tick_time);
}

#[test]
fn renders_are_counted() {
    let mut d = DiagnosticsState::new();
    d.end_render();
    assert_eq!(d.render_count, 1);
    assert_eq!(d.render_time, 0);
    d.begin_render();
    assert!(d.render_in_progress);
    d.end_render();
    assert_eq!(d.render_count, 2);
    assert_eq!(d.render_time, d.last_render_time);
    assert!(!d.render_in_progress);
}

#[test]
fn heartbeat_reset_clears_totals() {
    let mut d = DiagnosticsState::new();
    d.frame_count = 12;
    d.tick_time = 5;
    d.render_time = 6;
    d.executor_time = 7;
    d.render_count = 8;
    d.heartbeat_interval = 0;
    assert!(d.should_heartbeat());
    d.reset_heartbeat();
    assert_eq!(d.tick_time, 0);
    assert_eq!(d.render_time, 0);
    assert_eq!(d.executor_time, 0);
    assert_eq!(d.render_count, 0);
    assert_eq!(d.frame_count, 12);
    d.memory_interval = 0;
    assert!(d.should_check_memory());
    d.reset_memory_check();
    assert_eq!(d.frame_count, 12);
}

#[test]
fn byte_counts() {
    assert_eq!(format_bytes(0), "0 B");
    assert_eq!(format_bytes(1023), "1023 B");
    assert_eq!(format_bytes(1024), "1.0 KB");
    assert_eq!(format_bytes(1536), "1.5 KB");
    assert_eq!(format_bytes(1048575), "1024.0 KB");
    assert_eq!(format_bytes(1048576), "1.0 MB");
    assert_eq!(format_bytes(50 * 1024 * 1024 + 300 * 1024), "50.3 MB");
}

#[test]
fn byte_counts_print_like_floats() {
    let samples: [usize; 12] = [
        1280,
        1281,
        3328,
        2047,
        5 * 1024 * 1024 + 524288 / 5 * 0,
        1048576 + 52428,
        1048576 + 52429,
        123456789,
        (1 << 53) + 1,
        (1 << 60) + 12345,
        usize::MAX,
        usize::MAX - 4096,
    ];
    for &b in samples.iter() {
        let expected = if b >= 1024 * 1024 {
            format!("{:.1} MB", b as f64 / (1024.0 * 1024.0))
        } else if b >= 1024 {
            format!("{:.1} KB", b as f64 / 1024.0)
        } else {
            format!("{} B", b)
        };
        assert_eq!(format_bytes(b), expected, "{}", b);
    }
}

#[test]
fn memory_lines() {
    assert_eq!(get_vita_memory(), None);
    assert_eq!(log_memory_snapshot("first_frame"), None);
    assert_eq!(
        memory_snapshot_line("boot", (2048, 10 * 1024 * 1024, 512, 1536)),
        "[MEMORY @ boot] user=10.0 MB kernel=2.0 KB cdram=512 B phycont=1.5 KB"
    );
}

#[test]
fn gl_error_names() {
    assert_eq!(gl_error_name(0x0500), "INVALID_ENUM");
    assert_eq!(gl_error_name(0x0501), "INVALID_VALUE");
    assert_eq!(gl_error_name(0x0502), "INVALID_OPERATION");
    assert_eq!(gl_error_name(0x0505), "OUT_OF_MEMORY");
    assert_eq!(gl_error_name(0x0506), "INVALID_FRAMEBUFFER_OPERATION");
    assert_eq!(gl_error_name(0x0503), "UNKNOWN");
}

#[test]
fn frame_accounting() {
    let mut d = DiagnosticsState::new();
    d.record_dt(16_667);
    assert_eq!(d.last_dt, 16_667_000);
    d.record_executor(300);
    d.record_executor(200);
    assert_eq!(d.executor_time, 500);
    d.record_tick(4_000_000);
    d.record_tick(6_000_000);
    assert_eq!(d.frame_count, 2);
    assert_eq!(d.last_tick_time, 6_000_000);
    assert_eq!(d.tick_time, 10_000_000);
    d.record_render(2_000_000);
    assert_eq!(d.render_count, 1);
    assert_eq!(d.render_time, 2_000_000);
    assert_eq!(d.last_render_time, 2_000_000);
    d.tick_time = u128::MAX - 1;
    d.record_tick(10);
    assert_eq!(d.tick_time, u128::MAX);
}

#[test]
fn heartbeat_and_memory_check_decisions() {
    let d = DiagnosticsState::new();
    assert!(!d.heartbeat_due(0));
    assert!(!d.heartbeat_due(999_999_999));
    assert!(d.heartbeat_due(1_000_000_000));
    assert!(d.heartbeat_due(3_000_000_000));
    assert!(!d.memory_check_due(4_999_999_999));
    assert!(d.memory_check_due(5_000_000_000));
}

#[test]
fn preload_decisions() {
    assert_eq!(preload_step(false, 0), PreloadStep::Continue);
    assert_eq!(preload_step(false, PRELOAD_TIMEOUT_NANOS - 1), PreloadStep::Continue);
    assert_eq!(preload_step(false, PRELOAD_TIMEOUT_NANOS), PreloadStep::TimedOut);
    assert_eq!(preload_step(true, 0), PreloadStep::Finished);
    assert_eq!(preload_step(true, PRELOAD_TIMEOUT_NANOS * 2), PreloadStep::Finished);
}

#[test]
fn clock_decisions_at_given_readings() {
    let mut d = DiagnosticsState::new();
    assert_eq!(d.game_start, 0);
    assert_eq!(d.elapsed_at(2_500), 2_500);
    d.game_start = 100;
    assert_eq!(d.elapsed_at(50), 0);
    assert!(!d.should_heartbeat_at(999_999_999));
    assert!(d.should_heartbeat_at(1_000_000_000));
    d.reset_heartbeat_at(1_200_000_000);
    assert_eq!(d.last_heartbeat, 1_200_000_000);
    assert!(!d.should_heartbeat_at(2_000_000_000));
    assert!(d.should_heartbeat_at(2_200_000_000));
    assert!(!d.should_check_memory_at(4_999_999_999));
    assert!(d.should_check_memory_at(5_000_000_000));
    d.reset_memory_check_at(6_000_000_000);
    assert_eq!(d.last_memory_check, 6_000_000_000);
    assert!(!d.should_check_memory_at(10_000_000_000));
}

#[test]
fn ticks_and_renders_at_given_readings() {
    let mut d = DiagnosticsState::new();
    d.begin_tick_at(1_000);
    assert_eq!(d.tick_start, Some(1_000));
    assert!(d.tick_in_progress);
    d.end_tick_at(4_500);
    assert_eq!(d.last_tick_time, 3_500);
    assert_eq!(d.tick_time, 3_500);
    assert_eq!(d.tick_start, None);
    d.end_tick_at(9_000);
    assert_eq!(d.tick_time, 3_500);
    d.begin_render_at(10_000);
    d.end_render_at(10_250);
    assert_eq!(d.last_render_time, 250);
    assert_eq!(d.render_count, 1);
    assert!(d.now() >= d.game_start);
}

#[test]
fn frame_decisions() {
    assert!(!tick_due(0));
    assert!(tick_due(1));
    assert!(!is_slow(100_000_000));
    assert!(is_slow(100_000_001));
}
