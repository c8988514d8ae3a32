//! Shared utilities and per-program logic for a suite of small miniquad
//! test programs: window settings, frame timing, event logging, and the
//! state that each test program keeps between events.

pub mod event_logger;
pub mod frame_timer;
pub mod geometry;
pub mod graphics;
pub mod input;
pub mod mouse;
pub mod report;
pub mod starfield;
pub mod window;
pub mod window_conf;

pub use event_logger::EventLogger;
pub use frame_timer::{FrameDuration, FrameTimer};
pub use window_conf::{create_test_window_conf, WindowConf};
