//! The full-screen quad the render stage draws the compute output onto.
use vstd::prelude::*;
use crate::camera::F32_ONE_BITS;
use crate::layout::{cast_words, words_bytes};

verus! {

/// Bytes per vertex: a 2-component position, then a 2-component texture
/// coordinate, all `f32`.
pub const VERTEX_STRIDE: usize = 16;

/// Vertices of the quad: two triangles.
pub const QUAD_VERTEX_COUNT: usize = 6;

/// Bit pattern of the `f32` value minus one.
pub const F32_MINUS_ONE_BITS: u32 = 0xbf80_0000;

/// A quad corner: its position on the viewport, each coordinate -1 or 1,
/// and its texture coordinate, each 0 or 1.
#[derive(Debug, Clone, Copy, PartialEq, Eq)]
pub struct Vertex {
    pub position: (i8, i8),
    pub tex_coords: (u8, u8),
}

/// The corner at `(x, y)` with the texture coordinate that maps it 1:1.
pub open spec fn corner(x: int, y: int) -> Vertex {
    Vertex { position: (x as i8, y as i8), tex_coords: (((x + 1) / 2) as u8, ((1 - y) / 2) as u8) }
}

/// The quad: two counter-clockwise triangles that share the diagonal from
/// the top right to the bottom left corner. The texture's top row sits at
/// the top of the viewport.
pub open spec fn quad() -> Seq<Vertex> {
    seq![corner(1, 1), corner(-1, 1), corner(-1, -1), corner(1, 1), corner(-1, -1), corner(1, -1)]
}

/// Twice the signed area of a triangle: positive when it winds
/// counter-clockwise.
pub open spec fn twice_area(a: Vertex, b: Vertex, c: Vertex) -> int {
    (b.position.0 - a.position.0) * (c.position.1 - a.position.1)
        - (b.position.1 - a.position.1) * (c.position.0 - a.position.0)
}

/// The bit pattern of a coordinate that is -1, 0 or 1.
pub open spec fn unit_bits(v: int) -> u32 {
    if v < 0 {
        F32_MINUS_ONE_BITS
    } else if v == 0 {
        0
    } else {
        F32_ONE_BITS
    }
}

/// The four words of a vertex: position, then texture coordinate.
pub open spec fn vertex_words(v: Vertex) -> Seq<u32> {
    seq![
        unit_bits(v.position.0 as int),
        unit_bits(v.position.1 as int),
        unit_bits(v.tex_coords.0 as int),
        unit_bits(v.tex_coords.1 as int),
    ]
}

/// The words of a vertex sequence: element `j / 4`, word `j % 4`.
pub open spec fn vertices_words(vs: Seq<Vertex>) -> Seq<u32> {
    Seq::new(4 * vs.len(), |j: int| vertex_words(vs[j / 4])[j % 4])
}

fn bits_of(v: i8) -> (r: u32)
    requires
        -1 <= v <= 1,
    ensures
        r == unit_bits(v as int),
{
    if v < 0 {
        F32_MINUS_ONE_BITS
    } else if v == 0 {
        0
    } else {
        F32_ONE_BITS
    }
}

/// The six vertices of the quad.
pub fn quad_vertices() -> (r: Vec<Vertex>)
    ensures
        r@ == quad(),
{
    let r = vec![
        Vertex { position: (1, 1), tex_coords: (1, 0) },
        Vertex { position: (-1, 1), tex_coords: (0, 0) },
        Vertex { position: (-1, -1), tex_coords: (0, 1) },
        Vertex { position: (1, 1), tex_coords: (1, 0) },
        Vertex { position: (-1, -1), tex_coords: (0, 1) },
        Vertex { position: (1, -1), tex_coords: (1, 1) },
    ];
    assert(r@ =~= quad());
    r
}

/// The bytes of the vertex buffer: each vertex as four `f32`.
pub fn quad_bytes() -> (r: Vec<u8>)
    ensures
        exists|little: bool| r@ == #[trigger] words_bytes(vertices_words(quad()), little),
        r@.len() == VERTEX_STRIDE * QUAD_VERTEX_COUNT,
{
    let vs = quad_vertices();
    let mut words: Vec<u32> = Vec::new();
    let mut i: usize = 0;
    while i < vs.len()
        invariant
            vs@ == quad(),
            i <= vs@.len(),
            words@ =~= vertices_words(vs@.take(i as int)),
        decreases vs@.len() - i,
    {
        let v = vs[i];
        words.push(bits_of(v.position.0));
        words.push(bits_of(v.position.1));
        words.push(bits_of(v.tex_coords.0 as i8));
        words.push(bits_of(v.tex_coords.1 as i8));
        i = i + 1;
        assert(words@ =~= vertices_words(vs@.take(i as int))) by {
            assert forall|j: int| 0 <= j < 4 * i implies #[trigger] words@[j]
                == vertices_words(vs@.take(i as int))[j] by {
                if j >= 4 * (i - 1) {
                    assert(j / 4 == i - 1);
                } else {
                    assert(j / 4 < i - 1);
                }
            }
        }
    }
    assert(vs@.take(i as int) =~= quad());
    cast_words(words.as_slice())
}

/// Both triangles wind counter-clockwise, and their areas add up to the
/// whole viewport (a 2 by 2 square), which they therefore cover once;
/// every texture coordinate maps its corner 1:1 onto the image.
pub proof fn lemma_quad_covers_viewport()
    ensures
        twice_area(quad()[0], quad()[1], quad()[2]) > 0,
        twice_area(quad()[3], quad()[4], quad()[5]) > 0,
        twice_area(quad()[0], quad()[1], quad()[2]) + twice_area(quad()[3], quad()[4], quad()[5]) == 2 * 4,
        forall|i: int| 0 <= i < 6 ==> {
            let v = #[trigger] quad()[i];
            &&& (v.position.0 == -1 || v.position.0 == 1)
            &&& (v.position.1 == -1 || v.position.1 == 1)
            &&& 2 * v.tex_coords.0 == v.position.0 + 1
            &&& 2 * v.tex_coords.1 == 1 - v.position.1
        },
{
    let (p, m) = (corner(1, 1), corner(-1, -1));
    let (l, r) = (corner(-1, 1), corner(1, -1));
    assert(p.position.0 == 1 && p.position.1 == 1);
    assert(m.position.0 == -1 && m.position.1 == -1);
    assert(l.position.0 == -1 && l.position.1 == 1);
    assert(r.position.0 == 1 && r.position.1 == -1);
    assert(quad()[0] == p && quad()[1] == l && quad()[2] == m);
    assert(quad()[3] == p && quad()[4] == m && quad()[5] == r);
}

} // verus!
