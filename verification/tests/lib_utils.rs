use miniquad_test_utils::{create_test_window_conf, EventLogger, FrameDuration, FrameTimer};
use miniquad_test_utils::mouse::mouse_window_conf;
use miniquad_test_utils::window_conf::with_title_and_size;

#[test]
fn window_conf_has_reasonable_defaults() {
    let conf = create_test_window_conf();
    assert_eq!(conf.window_width, 800);
    assert_eq!(conf.window_height, 600);
    assert!(conf.window_title.contains("Miniquad"));
}

#[test]
fn window_conf_keeps_miniquad_defaults() {
    let conf = create_test_window_conf();
    let defaults = miniquad::conf::Conf::default();
    assert_eq!(conf.window_title, "Miniquad Test");
    assert_eq!(conf.sample_count, 1);
    assert_eq!(conf.high_dpi, defaults.high_dpi);
    assert_eq!(conf.fullscreen, defaults.fullscreen);
    assert_eq!(conf.window_resizable, defaults.window_resizable);
}

#[test]
fn mouse_conf_is_titled_and_not_high_dpi() {
    let conf = mouse_window_conf();
    assert_eq!(conf.window_title, "Mouse Pixels");
    assert_eq!(conf.window_width, 800);
    assert_eq!(conf.window_height, 600);
    assert!(!conf.high_dpi);
}

#[test]
fn frame_timer_tracks_frames() {
    let mut timer = FrameTimer::new();
    assert_eq!(timer.frame_count(), 0);

    timer.tick();
    assert_eq!(timer.frame_count(), 1);

    timer.tick();
    assert_eq!(timer.frame_count(), 2);
}

#[test]
fn new_timer_has_zero_average() {
    let timer = FrameTimer::default();
    assert_eq!(timer.frame_count(), 0);
    assert_eq!(timer.average_frame_time().as_nanos(), 0);
}

#[test]
fn average_is_total_over_count_rounded_down() {
    let mut timer = FrameTimer::new();
    timer.record_frame(FrameDuration::new(1, 0));
    timer.record_frame(FrameDuration::new(0, 2));
    timer.record_frame(FrameDuration::new(0, 0));
    assert_eq!(timer.frame_count(), 3);
    // (1_000_000_000 + 2) / 3 = 333_333_334
    let avg = timer.average_frame_time();
    assert_eq!(avg.as_nanos(), 333_333_334);
    assert_eq!(avg.as_secs(), 0);
    assert_eq!(avg.subsec_nanos(), 333_333_334);
    // the average times the count stays within one count of the total
    assert!(avg.as_nanos() * 3 <= 1_000_000_002);
    assert!(1_000_000_002 < (avg.as_nanos() + 1) * 3);
}

#[test]
fn ticks_add_their_durations_to_the_total() {
    let mut timer = FrameTimer::new();
    let a = timer.tick();
    let b = timer.tick();
    assert_eq!(timer.frame_count(), 2);
    assert_eq!(timer.average_frame_time().as_nanos(), (a.as_nanos() + b.as_nanos()) / 2);
}

#[test]
fn duration_new_carries_nanoseconds() {
    let d = FrameDuration::new(2, 1_500_000_000);
    assert_eq!(d.as_secs(), 3);
    assert_eq!(d.subsec_nanos(), 500_000_000);
    assert_eq!(d.as_nanos(), 3_500_000_000);
    assert_eq!(FrameDuration::zero().as_nanos(), 0);
}

#[test]
fn duration_holds_the_largest_std_duration() {
    let d = FrameDuration::new(u64::MAX, 999_999_999);
    let max = std::time::Duration::MAX;
    assert_eq!(d.as_nanos(), max.as_nanos());
    assert_eq!(d.as_secs(), max.as_secs());
    assert_eq!(d.subsec_nanos(), max.subsec_nanos());
}

#[test]
fn event_logger_marks_lines() {
    let logger = EventLogger::new();
    assert_eq!(logger.format_entry("KEY DOWN: A"), "[EVENT] KEY DOWN: A");
    assert_eq!(EventLogger::default().format_entry(""), "[EVENT] ");
}

#[test]
fn duration_round_trips_through_std() {
    let d = FrameDuration::new(7, 123);
    let std_d = std::time::Duration::new(d.as_secs(), d.subsec_nanos());
    assert_eq!(std_d.as_nanos(), d.as_nanos());
    let back = FrameDuration::new(std_d.as_secs(), std_d.subsec_nanos());
    assert_eq!(back.as_nanos(), 7_000_000_123);
}

#[test]
fn title_and_size_keep_the_other_settings() {
    let base = miniquad_test_utils::WindowConf {
        window_title: String::new(),
        window_width: 1,
        window_height: 2,
        high_dpi: true,
        fullscreen: true,
        sample_count: 4,
        window_resizable: false,
    };
    let c = with_title_and_size(base, "T", 320, 240);
    assert_eq!(c.window_title, "T");
    assert_eq!((c.window_width, c.window_height), (320, 240));
    assert!(c.high_dpi && c.fullscreen && !c.window_resizable);
    assert_eq!(c.sample_count, 4);
}

#[test]
fn default_flags_are_one_platform_set() {
    let c = create_test_window_conf();
    let desktop = !c.high_dpi && !c.fullscreen && c.window_resizable;
    let android = c.high_dpi && c.fullscreen && !c.window_resizable;
    assert!(desktop || android);
    let m = mouse_window_conf();
    assert_eq!(m.fullscreen, !m.window_resizable);
}

#[test]
fn average_uses_the_full_frame_count() {
    let mut timer = FrameTimer::new();
    for _ in 0..5 {
        timer.record_frame(FrameDuration::new(0, 10));
    }
    assert_eq!(timer.average_frame_time().as_nanos(), 10);
    for _ in 0..3 {
        timer.tick();
    }
    assert_eq!(timer.frame_count(), 8);
}
