//! Window settings for the test programs.

use vstd::prelude::*;

verus! {

/// The settings of a test window that the test programs choose: the
/// plain-valued settings of `miniquad::conf::Conf`. The window icon and the
/// platform hints are always miniquad's defaults.
pub struct WindowConf {
    /// The window title.
    pub window_title: String,
    /// Preferred window width in pixels.
    pub window_width: i32,
    /// Preferred window height in pixels.
    pub window_height: i32,
    /// Whether the canvas is scaled for high-DPI displays.
    pub high_dpi: bool,
    /// Whether the window starts in fullscreen mode.
    pub fullscreen: bool,
    /// MSAA sample count.
    pub sample_count: i32,
    /// Whether the user can resize the window.
    pub window_resizable: bool,
}

/// The two sets of window flags that miniquad's defaults take: on desktop a
/// resizable window that is neither high-DPI nor fullscreen, on Android a
/// fixed-size fullscreen high-DPI one.
pub open spec fn platform_default_flags(high_dpi: bool, fullscreen: bool, window_resizable: bool) -> bool {
    ||| !high_dpi && !fullscreen && window_resizable
    ||| high_dpi && fullscreen && !window_resizable
}

/// Calls `miniquad::conf::Conf::default` and moves its plain-valued fields
/// into a `WindowConf`. On every platform miniquad's source gives an empty
/// title, 800 by 600 pixels and one sample; the high-DPI, fullscreen and
/// resizable flags are one of the two sets that `platform_default_flags`
/// names (desktop or Android), and which one is not said.
#[verifier::external_body]
pub(crate) fn miniquad_default_conf() -> (c: WindowConf)
    ensures
        c.window_title@ == Seq::<char>::empty(),
        c.window_width == 800,
        c.window_height == 600,
        c.sample_count == 1,
        platform_default_flags(c.high_dpi, c.fullscreen, c.window_resizable),
{
    let d = miniquad::conf::Conf::default();
    WindowConf {
        window_title: d.window_title,
        window_width: d.window_width,
        window_height: d.window_height,
        high_dpi: d.high_dpi,
        fullscreen: d.fullscreen,
        sample_count: d.sample_count,
        window_resizable: d.window_resizable,
    }
}

/// The title of the test windows.
pub open spec fn test_window_title() -> Seq<char> {
    "Miniquad Test"@
}

/// `base` with the given title and size; every other setting is kept.
pub fn with_title_and_size(base: WindowConf, title: &str, width: i32, height: i32) -> (c: WindowConf)
    ensures
        c.window_title@ == title@,
        c.window_width == width,
        c.window_height == height,
        c.high_dpi == base.high_dpi,
        c.fullscreen == base.fullscreen,
        c.sample_count == base.sample_count,
        c.window_resizable == base.window_resizable,
{
    WindowConf {
        window_title: String::from_str(title),
        window_width: width,
        window_height: height,
        high_dpi: base.high_dpi,
        fullscreen: base.fullscreen,
        sample_count: base.sample_count,
        window_resizable: base.window_resizable,
    }
}

/// Window settings for the test programs: an 800x600 window titled
/// "Miniquad Test", everything else as miniquad's defaults.
pub fn create_test_window_conf() -> (c: WindowConf)
    ensures
        c.window_title@ == test_window_title(),
        c.window_width == 800,
        c.window_height == 600,
        c.sample_count == 1,
        platform_default_flags(c.high_dpi, c.fullscreen, c.window_resizable),
{
    with_title_and_size(miniquad_default_conf(), "Miniquad Test", 800, 600)
}

} // verus!
