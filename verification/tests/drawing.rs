use miniquad_test_utils::geometry::{
    cube_corners, cube_edge_indices, gl_viewport_y, quad_indices, viewport_border_rect,
    viewport_indices, VIEWPORT_H, VIEWPORT_W, VIEWPORT_X, VIEWPORT_Y, WINDOW_H, WINDOW_W,
};
use miniquad_test_utils::mouse::{MouseCanvas, PointerButton};
use miniquad_test_utils::starfield::{lcg_bits, point_indices, star_x_bits, star_y_bits};

fn white_pixels(canvas: &MouseCanvas) -> Vec<usize> {
    canvas
        .pixels()
        .chunks(4)
        .enumerate()
        .filter(|(_, px)| px.iter().all(|b| *b == 255))
        .map(|(i, _)| i)
        .collect()
}

#[test]
fn canvas_starts_black() {
    let canvas = MouseCanvas::new(800, 600);
    assert_eq!(canvas.pixels().len(), 800 * 600 * 4);
    assert!(canvas.pixels().iter().all(|b| *b == 0));
    assert!(!canvas.is_drawing());
    assert_eq!(canvas.width(), 800);
    assert_eq!(canvas.height(), 600);
}

#[test]
fn set_white_pixel_paints_one_pixel() {
    let mut canvas = MouseCanvas::new(4, 3);
    canvas.set_white_pixel(2, 1);
    let start = (1 * 4 + 2) * 4;
    assert_eq!(&canvas.pixels()[start..start + 4], &[255, 255, 255, 255]);
    assert_eq!(white_pixels(&canvas), vec![6]);
    assert_eq!(canvas.pixels().iter().filter(|b| **b != 0).count(), 4);
    // painting again changes nothing
    let before = canvas.pixels().to_vec();
    canvas.set_white_pixel(2, 1);
    assert_eq!(canvas.pixels(), &before[..]);
}

#[test]
fn set_white_pixel_ignores_pixels_off_the_canvas() {
    let mut canvas = MouseCanvas::new(4, 3);
    canvas.set_white_pixel(-1, 0);
    canvas.set_white_pixel(0, -1);
    canvas.set_white_pixel(4, 0);
    canvas.set_white_pixel(0, 3);
    assert!(canvas.pixels().iter().all(|b| *b == 0));
    canvas.set_white_pixel(3, 2);
    assert_eq!(white_pixels(&canvas), vec![11]);
}

#[test]
fn left_button_draws_while_held() {
    let mut canvas = MouseCanvas::new(4, 3);
    canvas.mouse_motion_event(0, 0);
    assert!(white_pixels(&canvas).is_empty());
    canvas.mouse_button_down_event(PointerButton::Right, 1, 1);
    assert!(!canvas.is_drawing());
    assert!(white_pixels(&canvas).is_empty());
    canvas.mouse_button_down_event(PointerButton::Left, 1, 1);
    assert!(canvas.is_drawing());
    canvas.mouse_motion_event(2, 1);
    canvas.mouse_button_up_event(PointerButton::Middle);
    assert!(canvas.is_drawing());
    canvas.mouse_button_up_event(PointerButton::Left);
    assert!(!canvas.is_drawing());
    canvas.mouse_motion_event(3, 2);
    assert_eq!(white_pixels(&canvas), vec![5, 6]);
}

#[test]
fn lcg_takes_the_upper_bits() {
    assert_eq!(lcg_bits(0), 335903614);
    assert_eq!(lcg_bits(1), 1817669548);
    assert_eq!(lcg_bits(u64::MAX), 3149104977);
    assert_eq!(star_x_bits(0), 2798155248);
    assert_eq!(star_y_bits(0), 799117680);
    assert_eq!(star_x_bits(5), 3979260173);
}

#[test]
fn point_indices_are_sequential() {
    let indices = point_indices(400);
    assert_eq!(indices.len(), 400);
    assert!(indices.iter().enumerate().all(|(i, v)| *v as usize == i));
    assert!(point_indices(0).is_empty());
}

#[test]
fn quads_and_viewport_indices() {
    assert_eq!(quad_indices(0), [0, 1, 2, 0, 2, 3]);
    assert_eq!(quad_indices(4), [4, 5, 6, 4, 6, 7]);
    assert_eq!(viewport_indices(), vec![0, 1, 2, 0, 2, 3, 4, 5, 6, 4, 6, 7, 8, 9, 10]);
}

#[test]
fn viewport_is_centred_and_flipped() {
    assert_eq!(gl_viewport_y(WINDOW_H, VIEWPORT_Y, VIEWPORT_H), 150);
    assert_eq!(gl_viewport_y(WINDOW_H, 150, VIEWPORT_H), VIEWPORT_Y);
    assert_eq!(gl_viewport_y(600, 100, 50), 450);
    assert_eq!(VIEWPORT_X * 2 + VIEWPORT_W, WINDOW_W);
    assert_eq!(VIEWPORT_Y * 2 + VIEWPORT_H, WINDOW_H);
    let r = viewport_border_rect();
    assert_eq!((r.left, r.top, r.right, r.bottom), (192, 142, 608, 458));
}

#[test]
fn wireframe_cube_data() {
    let corners = cube_corners();
    assert_eq!(
        corners,
        vec![
            [-1, -1, -1],
            [1, -1, -1],
            [1, 1, -1],
            [-1, 1, -1],
            [-1, -1, 1],
            [1, -1, 1],
            [1, 1, 1],
            [-1, 1, 1],
        ]
    );
    let edges = cube_edge_indices();
    assert_eq!(
        edges,
        vec![0, 1, 1, 2, 2, 3, 3, 0, 4, 5, 5, 6, 6, 7, 7, 4, 0, 4, 1, 5, 2, 6, 3, 7]
    );
    for pair in edges.chunks(2) {
        let (a, b) = (corners[pair[0] as usize], corners[pair[1] as usize]);
        let differing = (0..3).filter(|i| a[*i] != b[*i]).count();
        assert_eq!(differing, 1);
    }
}
