use miniquad_test_utils::graphics::GraphicsTest;
use miniquad_test_utils::input::{InputTest, MAX_LOG_ENTRIES};
use miniquad_test_utils::report::report_due;
use miniquad_test_utils::window::WindowTest;

#[test]
fn graphics_reports_every_sixty_frames() {
    let mut test = GraphicsTest::new();
    assert_eq!(test.frame_count(), 0);
    let mut reported = Vec::new();
    for _ in 0..180 {
        if test.update() {
            reported.push(test.frame_count());
        }
    }
    assert_eq!(reported, vec![60, 120, 180]);
    assert_eq!(test.frame_count(), 180);
}

#[test]
fn window_test_ticks_its_timer() {
    let mut test = WindowTest::new();
    assert_eq!(test.frame_count(), 0);
    assert_eq!(test.frame_timer().frame_count(), 0);
    let mut reports = 0;
    for _ in 0..61 {
        if test.update() {
            reports += 1;
        }
    }
    assert_eq!(reports, 1);
    assert_eq!(test.frame_count(), 61);
    assert_eq!(test.frame_timer().frame_count(), 61);
}

#[test]
fn report_rule() {
    assert!(report_due(0));
    assert!(!report_due(1));
    assert!(!report_due(59));
    assert!(report_due(60));
    assert!(!report_due(61));
    assert!(report_due(120));
}

#[test]
fn input_log_keeps_the_last_twenty() {
    let mut test = InputTest::new();
    for i in 0..25 {
        test.log_event(format!("event {}", i));
    }
    let log: Vec<String> = test.event_log().iter().cloned().collect();
    assert_eq!(log.len(), MAX_LOG_ENTRIES);
    let expected: Vec<String> = (5..25).map(|i| format!("event {}", i)).collect();
    assert_eq!(log, expected);
}

#[test]
fn input_log_below_capacity_keeps_everything() {
    let mut test = InputTest::new();
    test.log_event("a".to_string());
    test.log_event("b".to_string());
    let log: Vec<String> = test.event_log().iter().cloned().collect();
    assert_eq!(log, vec!["a".to_string(), "b".to_string()]);
}

#[test]
fn key_down_logs_only_new_presses() {
    let mut test = InputTest::new();
    assert!(test.key_down_event(65, "KEY DOWN: A".to_string()));
    assert!(test.is_pressed(65));
    assert!(!test.key_down_event(65, "KEY DOWN: A".to_string()));
    assert_eq!(test.event_log().len(), 1);
    assert!(test.key_up_event(65, "KEY UP: A".to_string()));
    assert!(!test.is_pressed(65));
    assert!(!test.key_up_event(65, "KEY UP: A".to_string()));
    let log: Vec<String> = test.event_log().iter().cloned().collect();
    assert_eq!(log, vec!["KEY DOWN: A".to_string(), "KEY UP: A".to_string()]);
}

#[test]
fn key_up_without_press_changes_nothing() {
    let mut test = InputTest::new();
    assert!(!test.key_up_event(32, "KEY UP: Space".to_string()));
    assert_eq!(test.event_log().len(), 0);
    assert!(!test.is_pressed(32));
}
