//! The unit quad that every layer draws: four corners, two triangles.

use vstd::prelude::*;
use crate::pipeline::{InputStepMode, LayoutModel, VertexAttribute, VertexBufferLayout, VertexFormat};

verus! {

/// A corner of the quad. `position` is in whole device units, `tex_coord` in
/// whole texture units with (0, 0) at the bottom-left texel.
#[derive(Debug, Clone, Copy, PartialEq, Eq, Structural)]
pub struct Vertex {
    pub position: Position,
    pub tex_coord: TexCoord,
}

#[derive(Debug, Clone, Copy, PartialEq, Eq, Structural)]
pub struct Position {
    pub x: i8,
    pub y: i8,
}

#[derive(Debug, Clone, Copy, PartialEq, Eq, Structural)]
pub struct TexCoord {
    pub u: u8,
    pub v: u8,
}

/// Bytes of one vertex in its buffer: four 32-bit floats.
pub const VERTEX_SIZE: u64 = 16;

/// The four corners: top-left, bottom-left, bottom-right, top-right.
pub open spec fn vertices_spec() -> Seq<Vertex> {
    seq![
        Vertex { position: Position { x: -1i8, y: 1 }, tex_coord: TexCoord { u: 0, v: 1 } },
        Vertex { position: Position { x: -1i8, y: -1i8 }, tex_coord: TexCoord { u: 0, v: 0 } },
        Vertex { position: Position { x: 1, y: -1i8 }, tex_coord: TexCoord { u: 1, v: 0 } },
        Vertex { position: Position { x: 1, y: 1 }, tex_coord: TexCoord { u: 1, v: 1 } },
    ]
}

/// Two triangles that share the diagonal from bottom-right to top-left.
pub open spec fn indices_spec() -> Seq<u16> {
    seq![0u16, 1u16, 2u16, 2u16, 3u16, 0u16]
}

/// Position at location 0, texture coordinate at location 1, once per vertex.
pub open spec fn layout_spec() -> LayoutModel {
    LayoutModel {
        array_stride: 16,
        step_mode: InputStepMode::Vertex,
        attributes: seq![
            VertexAttribute { offset: 0, shader_location: 0, format: VertexFormat::Float2 },
            VertexAttribute { offset: 8, shader_location: 1, format: VertexFormat::Float2 },
        ],
    }
}

/// Twice the signed area of the triangle `a`, `b`, `c`: positive exactly when
/// the corners run counter-clockwise.
pub open spec fn winding(a: Vertex, b: Vertex, c: Vertex) -> int {
    (b.position.x - a.position.x) * (c.position.y - a.position.y) - (c.position.x
        - a.position.x) * (b.position.y - a.position.y)
}

pub fn vertices() -> (corners: [Vertex; 4])
    ensures
        corners@ == vertices_spec(),
{
    let corners: [Vertex; 4] = [
        Vertex { position: Position { x: -1, y: 1 }, tex_coord: TexCoord { u: 0, v: 1 } },
        Vertex { position: Position { x: -1, y: -1 }, tex_coord: TexCoord { u: 0, v: 0 } },
        Vertex { position: Position { x: 1, y: -1 }, tex_coord: TexCoord { u: 1, v: 0 } },
        Vertex { position: Position { x: 1, y: 1 }, tex_coord: TexCoord { u: 1, v: 1 } },
    ];
    assert(corners@ =~= vertices_spec());
    corners
}

pub fn indices() -> (list: [u16; 6])
    ensures
        list@ == indices_spec(),
{
    let list: [u16; 6] = [0, 1, 2, 2, 3, 0];
    assert(list@ =~= indices_spec());
    list
}

/// The bytes of `values` with the low byte of each value first.
pub open spec fn low_byte_first(values: Seq<u16>) -> Seq<u8> {
    Seq::new(
        2 * values.len(),
        |i: int|
            if i % 2 == 0 {
                (values[i / 2] % 256) as u8
            } else {
                (values[i / 2] / 256) as u8
            },
    )
}

/// The bytes of `values` with the high byte of each value first.
pub open spec fn high_byte_first(values: Seq<u16>) -> Seq<u8> {
    Seq::new(
        2 * values.len(),
        |i: int|
            if i % 2 == 0 {
                (values[i / 2] / 256) as u8
            } else {
                (values[i / 2] % 256) as u8
            },
    )
}

/// `bytemuck::cast_slice` from `u16` to `u8`: the same memory read as
/// bytes. There are two bytes per value, in the order of the values, and
/// every value is stored in the machine's byte order, which is one of two.
#[verifier::external_body]
fn cast_slice(values: &[u16]) -> (bytes: &[u8])
    ensures
        bytes@ == low_byte_first(values@) || bytes@ == high_byte_first(values@),
{
    bytemuck::cast_slice(values)
}

/// The index list as the bytes of the index buffer.
pub fn index_bytes() -> (bytes: Vec<u8>)
    ensures
        bytes@ == low_byte_first(indices_spec()) || bytes@ == high_byte_first(indices_spec()),
        bytes@.len() == 12,
{
    let list: [u16; 6] = indices();
    let raw: &[u8] = cast_slice(list.as_slice());
    let mut bytes: Vec<u8> = Vec::new();
    let mut i: usize = 0;
    while i < raw.len()
        invariant
            i <= raw@.len(),
            bytes@ == raw@.subrange(0, i as int),
        decreases raw@.len() - i,
    {
        bytes.push(raw[i]);
        assert(bytes@ =~= raw@.subrange(0, i + 1));
        i += 1;
    }
    assert(bytes@ =~= raw@);
    bytes
}

pub fn layout() -> (layout: VertexBufferLayout)
    ensures
        layout@ == layout_spec(),
        layout@.is_packed_from(0),
{
    let mut attributes: Vec<VertexAttribute> = Vec::new();
    attributes.push(
        VertexAttribute { offset: 0, shader_location: 0, format: VertexFormat::Float2 },
    );
    attributes.push(
        VertexAttribute {
            offset: VertexFormat::Float2.size(),
            shader_location: 1,
            format: VertexFormat::Float2,
        },
    );
    assert(attributes@ =~= layout_spec().attributes);
    VertexBufferLayout { array_stride: VERTEX_SIZE, step_mode: InputStepMode::Vertex, attributes }
}

/// Every index names one of the four corners, and both triangles run
/// counter-clockwise, so neither is dropped as a back face.
pub proof fn lemma_quad_triangles_face_front()
    ensures
        indices_spec().len() == 6,
        forall|i: int| 0 <= i < 6 ==> (#[trigger] indices_spec()[i]) < vertices_spec().len(),
        winding(
            vertices_spec()[indices_spec()[0] as int],
            vertices_spec()[indices_spec()[1] as int],
            vertices_spec()[indices_spec()[2] as int],
        ) > 0,
        winding(
            vertices_spec()[indices_spec()[3] as int],
            vertices_spec()[indices_spec()[4] as int],
            vertices_spec()[indices_spec()[5] as int],
        ) > 0,
{
    let v = vertices_spec();
    let n = indices_spec();
    assert(n[0] == 0 && n[1] == 1 && n[2] == 2 && n[3] == 2 && n[4] == 3 && n[5] == 0);
    assert(v[0].position.x == -1 && v[0].position.y == 1);
    assert(v[1].position.x == -1 && v[1].position.y == -1);
    assert(v[2].position.x == 1 && v[2].position.y == -1);
    assert(v[3].position.x == 1 && v[3].position.y == 1);
}

/// The two triangles together cover the whole target: the corners span the
/// device square from (-1, -1) to (1, 1), and each corner's texture
/// coordinate is its position moved into the unit square.
pub proof fn lemma_quad_spans_target()
    ensures
        forall|i: int|
            0 <= i < 4 ==> {
                let corner = #[trigger] vertices_spec()[i];
                &&& (corner.position.x == -1 || corner.position.x == 1)
                &&& (corner.position.y == -1 || corner.position.y == 1)
                &&& 2 * corner.tex_coord.u == corner.position.x + 1
                &&& 2 * corner.tex_coord.v == corner.position.y + 1
            },
        forall|i: int, j: int|
            0 <= i < j < 4 ==> (#[trigger] vertices_spec()[i]).position != (
            #[trigger] vertices_spec()[j]).position,
{
}

} // verus!
