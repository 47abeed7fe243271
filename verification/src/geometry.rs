//! The static geometry: the scene triangle and the full-screen quad of the
//! blit pass.
//!
//! Vertex types are generic in their scalar, so the same shapes serve the
//! integer-valued static data here and the floats a GPU buffer holds.

use vstd::prelude::*;

verus! {

/// A vertex of the scene: a position and an RGBA color.
#[derive(Clone, Copy, Debug, PartialEq)]
pub struct Vertex<S> {
    pub position: [S; 3],
    pub color: [S; 4],
}

/// A vertex of the blit quad: a position and texture coordinates.
#[derive(Clone, Copy, Debug, PartialEq)]
pub struct BlitVertex<S> {
    pub position: [S; 3],
    pub uv_coords: [S; 2],
}

impl<S> Vertex<S> {
    /// The vertex at `position` with color `color`.
    pub fn new(position: [S; 3], color: [S; 4]) -> (vertex: Vertex<S>)
        ensures
            vertex.position == position,
            vertex.color == color,
    {
        Vertex { position, color }
    }
}

impl<S> BlitVertex<S> {
    /// The vertex at `position` with texture coordinates `uv_coords`.
    pub fn new(position: [S; 3], uv_coords: [S; 2]) -> (vertex: BlitVertex<S>)
        ensures
            vertex.position == position,
            vertex.uv_coords == uv_coords,
    {
        BlitVertex { position, uv_coords }
    }
}

/// The number of vertices of the scene triangle.
pub const SCENE_VERTEX_COUNT: u32 = 3;

/// The number of vertices of the blit quad: two triangles.
pub const BLIT_VERTEX_COUNT: u32 = 6;

/// A position in integer coordinates.
pub type Corner = (i8, i8, i8);

/// The positions of the scene triangle's corners.
pub open spec fn scene_triangle_positions() -> Seq<Corner> {
    seq![(-1i8, -1i8, 0i8), (0i8, 1i8, 0i8), (1i8, -1i8, 0i8)]
}

/// The colors of the scene triangle's corners: red, green, blue.
pub open spec fn scene_triangle_colors() -> Seq<(i8, i8, i8, i8)> {
    seq![(1i8, 0i8, 0i8, 1i8), (0i8, 1i8, 0i8, 1i8), (0i8, 0i8, 1i8, 1i8)]
}

/// The positions of the blit quad's vertices, triangle by triangle.
pub open spec fn blit_quad_positions() -> Seq<Corner> {
    seq![
        (1i8, 1i8, 0i8),
        (-1i8, 1i8, 0i8),
        (-1i8, -1i8, 0i8),
        (1i8, -1i8, 0i8),
        (1i8, 1i8, 0i8),
        (-1i8, -1i8, 0i8),
    ]
}

/// The texture coordinate that belongs to clip-space coordinate `p`: -1
/// maps to 0 and 1 maps to 1.
pub open spec fn uv_of(p: i8) -> i8 {
    if p == 1 {
        1
    } else {
        0
    }
}

/// The scene triangle, in integer coordinates.
pub fn scene_triangle() -> (vertices: [Vertex<i8>; 3])
    ensures
        forall|i: int|
            #![trigger vertices[i]]
            0 <= i < 3 ==> {
                let p = scene_triangle_positions()[i];
                let c = scene_triangle_colors()[i];
                &&& vertices[i].position@ == seq![p.0, p.1, p.2]
                &&& vertices[i].color@ == seq![c.0, c.1, c.2, c.3]
            },
{
    let vertices = [
        Vertex::new([-1, -1, 0], [1, 0, 0, 1]),
        Vertex::new([0, 1, 0], [0, 1, 0, 1]),
        Vertex::new([1, -1, 0], [0, 0, 1, 1]),
    ];
    assert forall|i: int| #![trigger vertices[i]] 0 <= i < 3 implies {
        let p = scene_triangle_positions()[i];
        let c = scene_triangle_colors()[i];
        &&& vertices[i].position@ == seq![p.0, p.1, p.2]
        &&& vertices[i].color@ == seq![c.0, c.1, c.2, c.3]
    } by {
        let p = scene_triangle_positions()[i];
        let c = scene_triangle_colors()[i];
        assert(vertices[i].position@ =~= seq![p.0, p.1, p.2]);
        assert(vertices[i].color@ =~= seq![c.0, c.1, c.2, c.3]);
    }
    vertices
}

/// The full-screen quad of the blit pass, in integer coordinates: two
/// triangles over the clip-space square from -1 to 1, each vertex carrying
/// the texture coordinates of its corner.
pub fn blit_quad() -> (vertices: [BlitVertex<i8>; 6])
    ensures
        forall|i: int|
            #![trigger vertices[i]]
            0 <= i < 6 ==> {
                let p = blit_quad_positions()[i];
                &&& vertices[i].position@ == seq![p.0, p.1, p.2]
                &&& vertices[i].uv_coords@ == seq![uv_of(p.0), uv_of(p.1)]
            },
{
    let vertices = [
        BlitVertex::new([1, 1, 0], [1, 1]),
        BlitVertex::new([-1, 1, 0], [0, 1]),
        BlitVertex::new([-1, -1, 0], [0, 0]),
        BlitVertex::new([1, -1, 0], [1, 0]),
        BlitVertex::new([1, 1, 0], [1, 1]),
        BlitVertex::new([-1, -1, 0], [0, 0]),
    ];
    assert forall|i: int| #![trigger vertices[i]] 0 <= i < 6 implies {
        let p = blit_quad_positions()[i];
        &&& vertices[i].position@ == seq![p.0, p.1, p.2]
        &&& vertices[i].uv_coords@ == seq![uv_of(p.0), uv_of(p.1)]
    } by {
        let p = blit_quad_positions()[i];
        assert(vertices[i].position@ =~= seq![p.0, p.1, p.2]);
        assert(vertices[i].uv_coords@ =~= seq![uv_of(p.0), uv_of(p.1)]);
    }
    vertices
}

/// On which side of the edge from `a` to `b` the point `(x / unit, y / unit)`
/// lies: positive to the left, negative to the right, zero on the edge's
/// line. The value is scaled by `unit`, which does not change its sign.
pub open spec fn edge_side(a: Corner, b: Corner, x: int, y: int, unit: int) -> int {
    (b.0 - a.0) * (y - a.1 * unit) - (b.1 - a.1) * (x - a.0 * unit)
}

/// Whether the point `(x / unit, y / unit)` lies in the closed triangle
/// `a`, `b`, `c`, whose corners run counter-clockwise.
pub open spec fn triangle_covers(a: Corner, b: Corner, c: Corner, x: int, y: int, unit: int) -> bool {
    &&& edge_side(a, b, x, y, unit) >= 0
    &&& edge_side(b, c, x, y, unit) >= 0
    &&& edge_side(c, a, x, y, unit) >= 0
}

/// The blit quad covers clip space: every point of the square from -1 to 1
/// lies in one of its two triangles, and all of its vertices lie in the
/// plane z = 0. Points are given as `(x / unit, y / unit)`, so the statement
/// reaches every rational point of the square.
pub proof fn lemma_blit_quad_covers_clip_space(x: int, y: int, unit: int)
    requires
        unit > 0,
        -unit <= x <= unit,
        -unit <= y <= unit,
    ensures
        forall|i: int| 0 <= i < 6 ==> (#[trigger] blit_quad_positions()[i]).2 == 0,
        triangle_covers(
            blit_quad_positions()[0],
            blit_quad_positions()[1],
            blit_quad_positions()[2],
            x,
            y,
            unit,
        ) || triangle_covers(
            blit_quad_positions()[3],
            blit_quad_positions()[4],
            blit_quad_positions()[5],
            x,
            y,
            unit,
        ),
{
    let q = blit_quad_positions();
    lemma_edge_side_expanded(q[0], q[1], x, y, unit);
    lemma_edge_side_expanded(q[1], q[2], x, y, unit);
    lemma_edge_side_expanded(q[2], q[0], x, y, unit);
    lemma_edge_side_expanded(q[3], q[4], x, y, unit);
    lemma_edge_side_expanded(q[4], q[5], x, y, unit);
    lemma_edge_side_expanded(q[5], q[3], x, y, unit);
    assert(edge_side(q[2], q[0], x, y, unit) == 2 * (y - x));
    assert(edge_side(q[4], q[5], x, y, unit) == 2 * (x - y));
}

/// The side of an edge between two corners of the clip-space square, with
/// its products by the corners' coordinates written as sums.
proof fn lemma_edge_side_expanded(a: Corner, b: Corner, x: int, y: int, unit: int)
    requires
        a.0 == 1 || a.0 == -1,
        a.1 == 1 || a.1 == -1,
        b.0 == 1 || b.0 == -1,
        b.1 == 1 || b.1 == -1,
    ensures
        edge_side(a, b, x, y, unit) == (if b.0 == a.0 {
            0
        } else if b.0 == 1 {
            2 * (y - a.1 * unit)
        } else {
            -2 * (y - a.1 * unit)
        }) - (if b.1 == a.1 {
            0
        } else if b.1 == 1 {
            2 * (x - a.0 * unit)
        } else {
            -2 * (x - a.0 * unit)
        }),
        a.1 * unit == (if a.1 == 1 {
            unit
        } else {
            -unit
        }),
        a.0 * unit == (if a.0 == 1 {
            unit
        } else {
            -unit
        }),
{
    let dx: int = b.0 - a.0;
    let dy: int = b.1 - a.1;
    let py: int = y - a.1 * unit;
    let px: int = x - a.0 * unit;
    assert(dx == 0 || dx == 2 || dx == -2);
    assert(dy == 0 || dy == 2 || dy == -2);
    assert(dx * py == (if dx == 0 {
        0
    } else if dx == 2 {
        2 * py
    } else {
        -2 * py
    })) by (nonlinear_arith)
        requires
            dx == 0 || dx == 2 || dx == -2,
    ;
    assert(dy * px == (if dy == 0 {
        0
    } else if dy == 2 {
        2 * px
    } else {
        -2 * px
    })) by (nonlinear_arith)
        requires
            dy == 0 || dy == 2 || dy == -2,
    ;
    assert(a.1 * unit == (if a.1 == 1 {
        unit
    } else {
        -unit
    })) by (nonlinear_arith)
        requires
            a.1 == 1 || a.1 == -1,
    ;
    assert(a.0 * unit == (if a.0 == 1 {
        unit
    } else {
        -unit
    })) by (nonlinear_arith)
        requires
            a.0 == 1 || a.0 == -1,
    ;
}

} // verus!
