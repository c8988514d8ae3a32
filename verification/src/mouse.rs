//! The drawing logic of the mouse test: a canvas of RGBA pixels on which
//! the pointer paints white pixels while the left button is held down.

use vstd::prelude::*;
use crate::window_conf::{WindowConf, with_title_and_size};

verus! {

/// Width of the mouse test's window and canvas, in pixels.
pub const WINDOW_WIDTH: i32 = 800;

/// Height of the mouse test's window and canvas, in pixels.
pub const WINDOW_HEIGHT: i32 = 600;

/// Bytes per pixel (red, green, blue, alpha).
pub const BYTES_PER_PIXEL: usize = 4;

/// The buttons of a pointing device.
#[derive(Clone, Copy, PartialEq, Eq, Structural, Debug)]
pub enum PointerButton {
    Left,
    Middle,
    Right,
    Unknown,
}

/// The bytes of `pixels` after painting pixel (`px`, `py`) white on a
/// canvas `width` pixels wide: the four bytes of that pixel become 255,
/// all others stay.
pub open spec fn painted_white(pixels: Seq<u8>, width: int, px: int, py: int) -> Seq<u8> {
    let start = (py * width + px) * 4;
    Seq::new(pixels.len(), |i: int| if start <= i < start + 4 { 255u8 } else { pixels[i] })
}

/// Whether pixel (`px`, `py`) lies on a canvas of `width` by `height` pixels.
pub open spec fn on_canvas(width: int, height: int, px: int, py: int) -> bool {
    0 <= px < width && 0 <= py < height
}

/// Whether all four bytes of pixel (`px`, `py`) are 255.
pub open spec fn is_white(pixels: Seq<u8>, width: int, px: int, py: int) -> bool {
    let start = (py * width + px) * 4;
    forall|i: int| start <= i < start + 4 ==> pixels[i] == 255u8
}

/// Law: every byte of a `width` by `height` canvas belongs to a pixel on
/// the canvas, and painting that pixel turns the byte white: byte `i` is
/// channel `i % 4` of pixel (`(i / 4) % width`, `(i / 4) / width`).
pub proof fn lemma_every_byte_belongs_to_a_pixel(
    pixels: Seq<u8>,
    width: int,
    height: int,
    i: int,
)
    requires
        0 <= width,
        0 <= height,
        pixels.len() == width * height * 4,
        0 <= i < width * height * 4,
    ensures
        on_canvas(width, height, (i / 4) % width, (i / 4) / width),
        painted_white(pixels, width, (i / 4) % width, (i / 4) / width)[i] == 255u8,
{
    let p = i / 4;
    assert(width > 0 && height > 0) by (nonlinear_arith)
        requires 0 <= i < width * height * 4, 0 <= width, 0 <= height;
    vstd::arithmetic::div_mod::lemma_fundamental_div_mod(i, 4);
    vstd::arithmetic::div_mod::lemma_fundamental_div_mod(p, width);
    let px = p % width;
    let py = p / width;
    assert(p < width * height) by (nonlinear_arith)
        requires i == 4 * p + i % 4, 0 <= i % 4 < 4, i < width * height * 4;
    vstd::arithmetic::div_mod::lemma_mod_pos_bound(i, 4);
    assert(p >= 0);
    vstd::arithmetic::div_mod::lemma_mod_pos_bound(p, width);
    assert(0 <= py < height) by (nonlinear_arith)
        requires p == width * py + px, 0 <= px < width, 0 <= p < width * height, width > 0;
    assert((py * width + px) * 4 <= i < (py * width + px) * 4 + 4) by (nonlinear_arith)
        requires p == width * py + px, i == 4 * p + i % 4, 0 <= i % 4 < 4;
}

/// Law: painting a pixel of the canvas leaves it white, leaves the buffer's
/// length, and painting it again changes nothing.
pub proof fn lemma_painting_whitens_once(pixels: Seq<u8>, width: int, height: int, px: int, py: int)
    requires
        pixels.len() == width * height * 4,
        on_canvas(width, height, px, py),
    ensures
        painted_white(pixels, width, px, py).len() == pixels.len(),
        is_white(painted_white(pixels, width, px, py), width, px, py),
        painted_white(painted_white(pixels, width, px, py), width, px, py) == painted_white(
            pixels,
            width,
            px,
            py,
        ),
{
    assert((py * width + px) * 4 + 4 <= width * height * 4) by (nonlinear_arith)
        requires 0 <= px < width, 0 <= py < height;
    let once = painted_white(pixels, width, px, py);
    assert(painted_white(once, width, px, py) =~= once);
}

/// The canvas of the mouse test, with whether the left button is down.
pub struct MouseCanvas {
    pixels: Vec<u8>,
    width: usize,
    height: usize,
    left_mouse_down: bool,
}

impl MouseCanvas {
    /// The canvas holds four bytes for each of its pixels.
    pub closed spec fn wf(&self) -> bool {
        self.pixels.len() == self.width * self.height * 4
    }

    /// The RGBA bytes of the canvas, row by row from the top.
    pub closed spec fn pixels_view(&self) -> Seq<u8> {
        self.pixels@
    }

    /// The width of the canvas in pixels.
    pub closed spec fn width_view(&self) -> nat {
        self.width as nat
    }

    /// The height of the canvas in pixels.
    pub closed spec fn height_view(&self) -> nat {
        self.height as nat
    }

    /// Whether the left button is held down.
    pub closed spec fn drawing(&self) -> bool {
        self.left_mouse_down
    }

    /// A black, fully transparent canvas of `width` by `height` pixels,
    /// with no button held.
    pub fn new(width: usize, height: usize) -> (c: Self)
        requires
            width * height * 4 <= usize::MAX,
        ensures
            c.width_view() == width,
            c.height_view() == height,
            c.pixels_view().len() == width * height * 4,
            forall|i: int| 0 <= i < c.pixels_view().len() ==> c.pixels_view()[i] == 0u8,
            !c.drawing(),
            c.wf(),
    {
        assert(width * height <= width * height * 4) by (nonlinear_arith);
        let n = width * height * BYTES_PER_PIXEL;
        let pixels = vec![0u8; n];
        MouseCanvas { pixels, width, height, left_mouse_down: false }
    }

    /// The RGBA bytes of the canvas, row by row from the top.
    pub fn pixels(&self) -> (p: &[u8])
        ensures
            p@ == self.pixels_view(),
    {
        self.pixels.as_slice()
    }

    /// The width of the canvas in pixels.
    pub fn width(&self) -> (w: usize)
        ensures
            w == self.width_view(),
    {
        self.width
    }

    /// The height of the canvas in pixels.
    pub fn height(&self) -> (h: usize)
        ensures
            h == self.height_view(),
    {
        self.height
    }

    /// Whether the left button is held down.
    pub fn is_drawing(&self) -> (d: bool)
        ensures
            d == self.drawing(),
    {
        self.left_mouse_down
    }

    /// Paints pixel (`px`, `py`) white; a pixel off the canvas is ignored.
    pub fn set_white_pixel(&mut self, px: i32, py: i32)
        requires
            old(self).wf(),
        ensures
            final(self).wf(),
            final(self).width_view() == old(self).width_view(),
            final(self).height_view() == old(self).height_view(),
            final(self).drawing() == old(self).drawing(),
            on_canvas(old(self).width_view() as int, old(self).height_view() as int, px as int, py as int)
                ==> final(self).pixels_view() == painted_white(
                old(self).pixels_view(),
                old(self).width_view() as int,
                px as int,
                py as int,
            ),
            !on_canvas(old(self).width_view() as int, old(self).height_view() as int, px as int, py as int)
                ==> final(self).pixels_view() == old(self).pixels_view(),
    {
        if px < 0 || py < 0 {
            return;
        }
        let px = px as usize;
        let py = py as usize;
        if px >= self.width || py >= self.height {
            return;
        }
        let w = self.width;
        let h = self.height;
        assert((py * w + px) * 4 + 4 <= w * h * 4) by (nonlinear_arith)
            requires px < w, py < h;
        let idx = (py * w + px) * BYTES_PER_PIXEL;
        let ghost before = self.pixels@;
        self.pixels.set(idx, 255);
        self.pixels.set(idx + 1, 255);
        self.pixels.set(idx + 2, 255);
        self.pixels.set(idx + 3, 255);
        assert(self.pixels@ =~= painted_white(before, w as int, px as int, py as int));
    }

    /// A button was pressed at pixel (`px`, `py`): the left button starts
    /// drawing and paints that pixel; other buttons are ignored.
    pub fn mouse_button_down_event(&mut self, button: PointerButton, px: i32, py: i32)
        requires
            old(self).wf(),
        ensures
            final(self).wf(),
            final(self).width_view() == old(self).width_view(),
            final(self).height_view() == old(self).height_view(),
            button == PointerButton::Left ==> {
                &&& final(self).drawing()
                &&& on_canvas(old(self).width_view() as int, old(self).height_view() as int, px as int, py as int)
                    ==> final(self).pixels_view() == painted_white(
                    old(self).pixels_view(),
                    old(self).width_view() as int,
                    px as int,
                    py as int,
                )
                &&& !on_canvas(old(self).width_view() as int, old(self).height_view() as int, px as int, py as int)
                    ==> final(self).pixels_view() == old(self).pixels_view()
            },
            button != PointerButton::Left ==> {
                &&& final(self).drawing() == old(self).drawing()
                &&& final(self).pixels_view() == old(self).pixels_view()
            },
    {
        if button != PointerButton::Left {
            return;
        }
        self.left_mouse_down = true;
        self.set_white_pixel(px, py);
    }

    /// A button was released: releasing the left button stops drawing;
    /// other buttons are ignored. The pixels do not change.
    pub fn mouse_button_up_event(&mut self, button: PointerButton)
        ensures
            final(self).wf() == old(self).wf(),
            final(self).width_view() == old(self).width_view(),
            final(self).height_view() == old(self).height_view(),
            final(self).pixels_view() == old(self).pixels_view(),
            button == PointerButton::Left ==> !final(self).drawing(),
            button != PointerButton::Left ==> final(self).drawing() == old(self).drawing(),
    {
        if button != PointerButton::Left {
            return;
        }
        self.left_mouse_down = false;
    }

    /// The pointer moved to pixel (`px`, `py`): while drawing, that pixel is
    /// painted; otherwise nothing changes.
    pub fn mouse_motion_event(&mut self, px: i32, py: i32)
        requires
            old(self).wf(),
        ensures
            final(self).wf(),
            final(self).width_view() == old(self).width_view(),
            final(self).height_view() == old(self).height_view(),
            final(self).drawing() == old(self).drawing(),
            old(self).drawing() && on_canvas(old(self).width_view() as int, old(self).height_view() as int, px as int, py as int)
                ==> final(self).pixels_view() == painted_white(
                old(self).pixels_view(),
                old(self).width_view() as int,
                px as int,
                py as int,
            ),
            !(old(self).drawing() && on_canvas(old(self).width_view() as int, old(self).height_view() as int, px as int, py as int))
                ==> final(self).pixels_view() == old(self).pixels_view(),
    {
        if !self.left_mouse_down {
            return;
        }
        self.set_white_pixel(px, py);
    }
}

/// The window settings of the mouse test over the given `defaults`: titled
/// "Mouse Pixels", the size of the canvas, without high-DPI scaling; the
/// fullscreen, resizable and sample-count settings are those of `defaults`.
pub fn mouse_conf_from(defaults: WindowConf) -> (c: WindowConf)
    ensures
        c.window_title@ == "Mouse Pixels"@,
        c.window_width == WINDOW_WIDTH,
        c.window_height == WINDOW_HEIGHT,
        !c.high_dpi,
        c.fullscreen == defaults.fullscreen,
        c.window_resizable == defaults.window_resizable,
        c.sample_count == defaults.sample_count,
{
    let mut c = with_title_and_size(defaults, "Mouse Pixels", WINDOW_WIDTH, WINDOW_HEIGHT);
    c.high_dpi = false;
    c
}

/// The window settings of the mouse test: titled "Mouse Pixels", the size
/// of the canvas, without high-DPI scaling; the rest as miniquad's defaults
/// (on desktop a resizable window, on Android a fixed-size fullscreen one).
pub fn mouse_window_conf() -> (c: WindowConf)
    ensures
        c.window_title@ == "Mouse Pixels"@,
        c.window_width == WINDOW_WIDTH,
        c.window_height == WINDOW_HEIGHT,
        !c.high_dpi,
        c.sample_count == 1,
        c.fullscreen == !c.window_resizable,
{
    mouse_conf_from(crate::window_conf::miniquad_default_conf())
}

} // verus!
