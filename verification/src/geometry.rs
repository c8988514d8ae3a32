//! The integer geometry of the drawing tests: index buffers, the centred
//! viewport of the viewport test, and the wireframe cube.

use vstd::prelude::*;

verus! {

/// The six indices that draw the quad with corners `base` .. `base + 3`
/// (in order around it) as two triangles sharing the diagonal from `base`
/// to `base + 2`.
pub open spec fn quad_spec(base: int) -> Seq<int> {
    seq![base, base + 1, base + 2, base, base + 2, base + 3]
}

/// Law: the quad's six indices are two proper triangles over exactly the
/// corners `base` .. `base + 3`: every index is one of those corners, each
/// corner is used, each triangle has three different corners, and the two
/// triangles share the diagonal from `base` to `base + 2`, each adding one of
/// the two remaining corners.
pub proof fn lemma_quad_is_two_triangles(base: int)
    ensures
        quad_spec(base).len() == 6,
        forall|i: int| 0 <= i < 6 ==> base <= #[trigger] quad_spec(base)[i] <= base + 3,
        forall|c: int| base <= c <= base + 3 ==> #[trigger] quad_spec(base).contains(c),
        quad_spec(base)[0] != quad_spec(base)[1],
        quad_spec(base)[1] != quad_spec(base)[2],
        quad_spec(base)[0] != quad_spec(base)[2],
        quad_spec(base)[3] != quad_spec(base)[4],
        quad_spec(base)[4] != quad_spec(base)[5],
        quad_spec(base)[3] != quad_spec(base)[5],
        quad_spec(base)[0] == base && quad_spec(base)[3] == base,
        quad_spec(base)[2] == base + 2 && quad_spec(base)[4] == base + 2,
        quad_spec(base)[1] != quad_spec(base)[5],
{
    let q = quad_spec(base);
    assert forall|c: int| base <= c <= base + 3 implies #[trigger] q.contains(c) by {
        if c == base {
            assert(q[0] == c);
        } else if c == base + 1 {
            assert(q[1] == c);
        } else if c == base + 2 {
            assert(q[2] == c);
        } else {
            assert(q[5] == c);
        }
    }
}

/// The six indices of the quad with corners `base` .. `base + 3`.
pub fn quad_indices(base: u16) -> (indices: [u16; 6])
    requires
        base + 3 <= u16::MAX,
    ensures
        indices@.len() == 6,
        indices@[0] == base && indices@[1] == base + 1 && indices@[2] == base + 2,
        indices@[3] == base && indices@[4] == base + 2 && indices@[5] == base + 3,
        forall|i: int| 0 <= i < 6 ==> indices@[i] == quad_spec(base as int)[i],
{
    [base, base + 1, base + 2, base, base + 2, base + 3]
}

/// Width of the viewport test's window, in pixels.
pub const WINDOW_W: i32 = 800;

/// Height of the viewport test's window, in pixels.
pub const WINDOW_H: i32 = 600;

/// Left edge of the viewport, in window pixels.
pub const VIEWPORT_X: i32 = 200;

/// Top edge of the viewport, in window pixels (y grows downwards).
pub const VIEWPORT_Y: i32 = 150;

/// Width of the viewport, in pixels.
pub const VIEWPORT_W: i32 = 400;

/// Height of the viewport, in pixels.
pub const VIEWPORT_H: i32 = 300;

/// Thickness of the border drawn around the viewport, in pixels.
pub const BORDER: i32 = 8;

/// Law: the viewport is centred in the window: it leaves equal margins
/// left and right, and above and below.
pub proof fn lemma_viewport_centred()
    ensures
        VIEWPORT_X == WINDOW_W - (VIEWPORT_X + VIEWPORT_W),
        VIEWPORT_Y == WINDOW_H - (VIEWPORT_Y + VIEWPORT_H),
{
}

/// The y of a rectangle's bottom edge measured from the bottom of a window
/// `window_height` pixels high, for a rectangle whose top edge is `top`
/// pixels from the window's top and which is `height` pixels high.
pub open spec fn flip_y(window_height: int, top: int, height: int) -> int {
    window_height - top - height
}

/// The OpenGL viewport y (from the bottom) of a rectangle whose top edge is
/// `top` pixels from the top of a window `window_height` pixels high.
pub fn gl_viewport_y(window_height: i32, top: i32, height: i32) -> (y: i32)
    requires
        i32::MIN <= window_height - top - height <= i32::MAX,
        i32::MIN <= window_height - top <= i32::MAX,
    ensures
        y == flip_y(window_height as int, top as int, height as int),
{
    window_height - top - height
}

/// Law: flipping between top-down and bottom-up window coordinates twice
/// gives back the rectangle's original position.
pub proof fn lemma_flip_y_involution(window_height: int, top: int, height: int)
    ensures
        flip_y(window_height, flip_y(window_height, top, height), height) == top,
{
}

/// A rectangle in window pixels: left, top, right and bottom edges (y
/// grows downwards).
pub struct PixelRect {
    pub left: i32,
    pub top: i32,
    pub right: i32,
    pub bottom: i32,
}

/// The rectangle of the grey border around the viewport: the viewport
/// grown by `BORDER` pixels on every side.
pub fn viewport_border_rect() -> (r: PixelRect)
    ensures
        r.left == VIEWPORT_X - BORDER,
        r.top == VIEWPORT_Y - BORDER,
        r.right == VIEWPORT_X + VIEWPORT_W + BORDER,
        r.bottom == VIEWPORT_Y + VIEWPORT_H + BORDER,
{
    PixelRect {
        left: VIEWPORT_X - BORDER,
        top: VIEWPORT_Y - BORDER,
        right: VIEWPORT_X + VIEWPORT_W + BORDER,
        bottom: VIEWPORT_Y + VIEWPORT_H + BORDER,
    }
}

/// The viewport test's index buffer: the border quad (vertices 0-3), the
/// viewport background quad (vertices 4-7) and the triangle (vertices 8-10).
pub open spec fn viewport_index_spec() -> Seq<int> {
    quad_spec(0) + quad_spec(4) + seq![8int, 9, 10]
}

/// The index buffer of the viewport test.
pub fn viewport_indices() -> (indices: Vec<u16>)
    ensures
        indices@.len() == viewport_index_spec().len(),
        forall|i: int| 0 <= i < indices@.len() ==> indices@[i] == viewport_index_spec()[i],
{
    let border = quad_indices(0);
    let background = quad_indices(4);
    let mut indices: Vec<u16> = Vec::new();
    let mut i: usize = 0;
    while i < 6
        invariant
            i <= 6,
            indices@.len() == i,
            forall|j: int| 0 <= j < i ==> indices@[j] == viewport_index_spec()[j],
            forall|j: int| 0 <= j < 6 ==> border@[j] == quad_spec(0)[j],
        decreases 6 - i,
    {
        indices.push(border[i]);
        i = i + 1;
    }
    let mut i: usize = 0;
    while i < 6
        invariant
            i <= 6,
            indices@.len() == 6 + i,
            forall|j: int| 0 <= j < 6 + i ==> indices@[j] == viewport_index_spec()[j],
            forall|j: int| 0 <= j < 6 ==> background@[j] == quad_spec(4)[j],
        decreases 6 - i,
    {
        indices.push(background[i]);
        i = i + 1;
    }
    indices.push(8);
    indices.push(9);
    indices.push(10);
    indices
}

/// The number of corners of the cube.
pub const CUBE_CORNERS: u16 = 8;

/// The number of edges of the cube.
pub const CUBE_EDGES: u16 = 12;

/// Coordinate `axis` (0 = x, 1 = y, 2 = z) of corner `i` of the cube
/// spanning -1 to 1 on every axis. The corners go round the back face
/// (z = -1) from (-1, -1), then round the front face (z = 1) the same way.
pub open spec fn cube_corner(i: int, axis: int) -> int {
    if axis == 0 {
        if i == 1 || i == 2 || i == 5 || i == 6 { 1 } else { -1 }
    } else if axis == 1 {
        if i == 2 || i == 3 || i == 6 || i == 7 { 1 } else { -1 }
    } else {
        if i >= 4 { 1 } else { -1 }
    }
}

/// The first corner of edge `k` of the wireframe: the back face's four
/// edges, the front face's four, then the four joining the faces.
pub open spec fn edge_start(k: int) -> int {
    if k < 4 { k } else if k < 8 { k } else { k - 8 }
}

/// The second corner of edge `k` of the wireframe.
pub open spec fn edge_end(k: int) -> int {
    if k < 4 {
        (k + 1) % 4
    } else if k < 8 {
        4 + (k - 3) % 4
    } else {
        k - 4
    }
}

/// Whether corners `a` and `b` differ in exactly one coordinate, that is,
/// are joined by an edge of the cube.
pub open spec fn adjacent_corners(a: int, b: int) -> bool {
    let dx = cube_corner(a, 0) != cube_corner(b, 0);
    let dy = cube_corner(a, 1) != cube_corner(b, 1);
    let dz = cube_corner(a, 2) != cube_corner(b, 2);
    ||| dx && !dy && !dz
    ||| !dx && dy && !dz
    ||| !dx && !dy && dz
}

/// Whether edges `k` and `l` join the same two corners.
pub open spec fn same_edge(k: int, l: int) -> bool {
    ||| edge_start(k) == edge_start(l) && edge_end(k) == edge_end(l)
    ||| edge_start(k) == edge_end(l) && edge_end(k) == edge_start(l)
}

/// Law: the wireframe is the cube's edge set: each of its 12 edges joins
/// two of the 8 corners that differ in exactly one coordinate, and no two
/// of its edges join the same corners.
pub proof fn lemma_wireframe_is_cube(k: int, l: int)
    requires
        0 <= k < CUBE_EDGES,
        0 <= l < CUBE_EDGES,
    ensures
        0 <= edge_start(k) < CUBE_CORNERS,
        0 <= edge_end(k) < CUBE_CORNERS,
        adjacent_corners(edge_start(k), edge_end(k)),
        k != l ==> !same_edge(k, l),
{
}

/// The corners of the cube, each as its three coordinates.
pub fn cube_corners() -> (corners: Vec<[i8; 3]>)
    ensures
        corners@.len() == CUBE_CORNERS,
        forall|i: int, axis: int|
            0 <= i < CUBE_CORNERS && 0 <= axis < 3 ==> corners@[i]@[axis] == cube_corner(i, axis),
{
    let mut corners: Vec<[i8; 3]> = Vec::new();
    let mut i: u16 = 0;
    while i < CUBE_CORNERS
        invariant
            i <= CUBE_CORNERS,
            corners@.len() == i,
            forall|j: int, axis: int|
                0 <= j < i && 0 <= axis < 3 ==> corners@[j]@[axis] == cube_corner(j, axis),
        decreases CUBE_CORNERS - i,
    {
        let x: i8 = if i == 1 || i == 2 || i == 5 || i == 6 { 1 } else { -1 };
        let y: i8 = if i == 2 || i == 3 || i == 6 || i == 7 { 1 } else { -1 };
        let z: i8 = if i >= 4 { 1 } else { -1 };
        let corner = [x, y, z];
        assert(forall|axis: int| 0 <= axis < 3 ==> corner@[axis] == cube_corner(i as int, axis));
        corners.push(corner);
        i = i + 1;
    }
    corners
}

/// The wireframe's index buffer: for each edge, its two corners.
pub fn cube_edge_indices() -> (indices: Vec<u16>)
    ensures
        indices@.len() == 2 * CUBE_EDGES,
        forall|k: int|
            0 <= k < CUBE_EDGES ==> indices@[2 * k] == edge_start(k) && indices@[2 * k + 1]
                == edge_end(k),
{
    let mut indices: Vec<u16> = Vec::new();
    let mut k: u16 = 0;
    while k < CUBE_EDGES
        invariant
            k <= CUBE_EDGES,
            indices@.len() == 2 * k,
            forall|j: int|
                0 <= j < k ==> indices@[2 * j] == edge_start(j) && indices@[2 * j + 1] == edge_end(j),
        decreases CUBE_EDGES - k,
    {
        let (start, end) = if k < 4 {
            (k, (k + 1) % 4)
        } else if k < 8 {
            (k, 4 + (k - 3) % 4)
        } else {
            (k - 8, k - 4)
        };
        indices.push(start);
        indices.push(end);
        k = k + 1;
    }
    indices
}

} // verus!
