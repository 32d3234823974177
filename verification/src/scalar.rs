//! Numbers as the host takes them: 32-bit IEEE 754 values, held here by
//! their bit patterns so that they can be compared exactly.

use vstd::prelude::*;

verus! {

/// Bit pattern of zero.
pub const ZERO: u32 = 0;

/// Bit pattern of one.
pub const ONE: u32 = 0x3F80_0000;

/// Bit pattern of minus one.
pub const MINUS_ONE: u32 = 0xBF80_0000;

/// The triangle: top, bottom left, bottom right, each as x, y, z.
pub open spec fn triangle_vertices() -> Seq<u32> {
    seq![ZERO, ONE, ZERO, MINUS_ONE, MINUS_ONE, ZERO, ONE, MINUS_ONE, ZERO]
}

/// Opaque red as red, green, blue, alpha.
pub open spec fn default_color() -> Seq<u32> {
    seq![ONE, ZERO, ZERO, ONE]
}

/// The color to draw with: the one selected, or opaque red where none is.
pub open spec fn chosen_color(selected: Option<Seq<u32>>) -> Seq<u32> {
    match selected {
        Some(color) => color,
        None => default_color(),
    }
}

/// How many vertices a flat list of coordinates holds, three to a vertex.
pub open spec fn vertices_in(coordinates: Seq<u32>) -> nat {
    coordinates.len() / 3
}

/// The coordinates of the triangle.
pub fn triangle() -> (vertices: Vec<u32>)
    ensures
        vertices@ == triangle_vertices(),
{
    let vertices = vec![ZERO, ONE, ZERO, MINUS_ONE, MINUS_ONE, ZERO, ONE, MINUS_ONE, ZERO];
    assert(vertices@ =~= triangle_vertices());
    vertices
}

/// The color to draw with: `selected`, or opaque red where it is `None`.
pub fn resolve_color(selected: Option<Vec<u32>>) -> (color: Vec<u32>)
    ensures
        color@ == chosen_color(
            match selected {
                Some(c) => Some(c@),
                None => None,
            },
        ),
{
    match selected {
        Some(color) => color,
        None => {
            let color = vec![ONE, ZERO, ZERO, ONE];
            assert(color@ =~= default_color());
            color
        },
    }
}

/// The number of vertices in `coordinates`, as a draw call counts them.
pub fn vertex_count(coordinates: &Vec<u32>) -> (count: i32)
    requires
        vertices_in(coordinates@) <= i32::MAX,
    ensures
        count == vertices_in(coordinates@),
{
    let vertices: usize = coordinates.len() / 3;
    vertices as i32
}

/// A copy of `values`, element for element.
pub fn copy_values(values: &Vec<u32>) -> (copy: Vec<u32>)
    ensures
        copy@ == values@,
{
    let copy = values.clone();
    assert(copy@ =~= values@);
    copy
}

/// The triangle has three vertices of three coordinates each.
pub proof fn lemma_triangle_shape()
    ensures
        triangle_vertices().len() == 9,
        vertices_in(triangle_vertices()) == 3,
{
}

} // verus!
