//! Chess pieces and the per-instance record that places one on screen.
//!
//! Screen positions are exact rationals with denominator eight, so every
//! coordinate here is an integer count of eighths of a normalized device unit.

use vstd::prelude::*;
use crate::pipeline::{InputStepMode, LayoutModel, VertexAttribute, VertexBufferLayout, VertexFormat};

verus! {

/// The kind of a piece, in the order of the atlas's columns.
#[derive(Debug, Clone, Copy, PartialEq, Eq, Structural)]
pub enum Type {
    King,
    Queen,
    Bishop,
    Knight,
    Rook,
    Pawn,
}

/// The side a piece belongs to, in the order of the atlas's rows.
#[derive(Debug, Clone, Copy, PartialEq, Eq, Structural)]
pub enum Color {
    Black,
    White,
}

#[derive(Debug, Clone, Copy, PartialEq, Eq, Structural)]
pub struct Piece {
    pub color: Color,
    pub type_: Type,
}

/// A 4x4 matrix whose entries are counts of eighths; `m23` is row 2, column 3.
#[derive(Debug, Clone, Copy, PartialEq, Eq, Structural)]
pub struct Transform {
    pub m11: i8,
    pub m12: i8,
    pub m13: i8,
    pub m14: i8,
    pub m21: i8,
    pub m22: i8,
    pub m23: i8,
    pub m24: i8,
    pub m31: i8,
    pub m32: i8,
    pub m33: i8,
    pub m34: i8,
    pub m41: i8,
    pub m42: i8,
    pub m43: i8,
    pub m44: i8,
}

/// The atlas cell of a sprite: `column` is the piece type, `row` the color.
#[derive(Debug, Clone, Copy, PartialEq, Eq, Structural)]
pub struct AtlasSelector {
    pub column: u16,
    pub row: u16,
}

/// What the GPU reads once per drawn piece: its transform and its atlas cell.
#[derive(Debug, Clone, Copy, PartialEq, Eq, Structural)]
pub struct PieceRaw {
    pub position: Transform,
    pub types: AtlasSelector,
}

/// Bytes of one instance record in its buffer: sixteen 32-bit floats, stored
/// column by column, then two 16-bit integers.
pub const PIECE_RAW_SIZE: u64 = 68;

/// Center of board coordinate `c` in eighths of a device unit:
/// `((c + 1/2) / 8) * 2 - 1 = (2c - 7) / 8`.
pub open spec fn world_eighths(c: int) -> int {
    2 * c - 7
}

/// The transform that shrinks the unit quad to one cell and moves it to the
/// cell at (`x`, `y`): a uniform scale by one eighth followed by a translation
/// to the cell's center.
pub open spec fn cell_transform(x: int, y: int) -> Transform {
    Transform {
        m11: 1,
        m12: 0,
        m13: 0,
        m14: world_eighths(x) as i8,
        m21: 0,
        m22: 1,
        m23: 0,
        m24: world_eighths(y) as i8,
        m31: 0,
        m32: 0,
        m33: 1,
        m34: 0,
        m41: 0,
        m42: 0,
        m43: 0,
        m44: 8,
    }
}

/// Maps a board coordinate to the center of its cell, in eighths.
pub fn board_coord_to_world(board: usize) -> (eighths: i8)
    requires
        board < 8,
    ensures
        eighths == world_eighths(board as int),
        -8 < eighths < 8,
{
    let doubled: i8 = 2 * (board as i8);
    doubled - 7
}

impl Type {
    /// The column of this type's sprites in the atlas.
    pub open spec fn ordinal_spec(self) -> u16 {
        match self {
            Type::King => 0,
            Type::Queen => 1,
            Type::Bishop => 2,
            Type::Knight => 3,
            Type::Rook => 4,
            Type::Pawn => 5,
        }
    }

    pub fn ordinal(self) -> (column: u16)
        ensures
            column == self.ordinal_spec(),
    {
        match self {
            Type::King => 0,
            Type::Queen => 1,
            Type::Bishop => 2,
            Type::Knight => 3,
            Type::Rook => 4,
            Type::Pawn => 5,
        }
    }
}

impl Color {
    /// The row of this color's sprites in the atlas.
    pub open spec fn ordinal_spec(self) -> u16 {
        match self {
            Color::Black => 0,
            Color::White => 1,
        }
    }

    pub fn ordinal(self) -> (row: u16)
        ensures
            row == self.ordinal_spec(),
    {
        match self {
            Color::Black => 0,
            Color::White => 1,
        }
    }
}

impl Transform {
    /// A uniform scale by `eighths / 8`.
    pub open spec fn scaling_spec(eighths: i8) -> Transform {
        Transform {
            m11: eighths,
            m12: 0,
            m13: 0,
            m14: 0,
            m21: 0,
            m22: eighths,
            m23: 0,
            m24: 0,
            m31: 0,
            m32: 0,
            m33: eighths,
            m34: 0,
            m41: 0,
            m42: 0,
            m43: 0,
            m44: 8,
        }
    }

    /// Whether the last row is (0, 0, 0, 1): the matrix is affine.
    pub open spec fn is_affine(self) -> bool {
        self.m41 == 0 && self.m42 == 0 && self.m43 == 0 && self.m44 == 8
    }

    /// This affine transform followed by a translation by (`tx`, `ty`, `tz`)
    /// eighths.
    pub open spec fn translated_spec(self, tx: int, ty: int, tz: int) -> Transform {
        Transform {
            m14: (self.m14 + tx) as i8,
            m24: (self.m24 + ty) as i8,
            m34: (self.m34 + tz) as i8,
            ..self
        }
    }

    /// First coordinate of the image of the point (`px`, `py`, 0, 1), in
    /// eighths, where `px` and `py` are whole device units.
    pub open spec fn image_x(self, px: int, py: int) -> int {
        self.m11 * px + self.m12 * py + self.m14
    }

    /// Second coordinate of the image of the point (`px`, `py`, 0, 1), in
    /// eighths.
    pub open spec fn image_y(self, px: int, py: int) -> int {
        self.m21 * px + self.m22 * py + self.m24
    }

    pub fn new_scaling(eighths: i8) -> (m: Transform)
        ensures
            m == Transform::scaling_spec(eighths),
            m.is_affine(),
    {
        Transform {
            m11: eighths,
            m12: 0,
            m13: 0,
            m14: 0,
            m21: 0,
            m22: eighths,
            m23: 0,
            m24: 0,
            m31: 0,
            m32: 0,
            m33: eighths,
            m34: 0,
            m41: 0,
            m42: 0,
            m43: 0,
            m44: 8,
        }
    }

    pub fn append_translation(&self, tx: i8, ty: i8, tz: i8) -> (m: Transform)
        requires
            self.is_affine(),
            i8::MIN <= self.m14 + tx <= i8::MAX,
            i8::MIN <= self.m24 + ty <= i8::MAX,
            i8::MIN <= self.m34 + tz <= i8::MAX,
        ensures
            m == self.translated_spec(tx as int, ty as int, tz as int),
            m.is_affine(),
    {
        Transform { m14: self.m14 + tx, m24: self.m24 + ty, m34: self.m34 + tz, ..*self }
    }
}

impl PieceRaw {
    /// The four columns of the transform at locations 2 to 5, the atlas
    /// selector at location 6, once per instance.
    pub open spec fn desc_spec() -> LayoutModel {
        LayoutModel {
            array_stride: 68,
            step_mode: InputStepMode::Instance,
            attributes: seq![
                VertexAttribute { offset: 0, shader_location: 2, format: VertexFormat::Float4 },
                VertexAttribute { offset: 16, shader_location: 3, format: VertexFormat::Float4 },
                VertexAttribute { offset: 32, shader_location: 4, format: VertexFormat::Float4 },
                VertexAttribute { offset: 48, shader_location: 5, format: VertexFormat::Float4 },
                VertexAttribute { offset: 64, shader_location: 6, format: VertexFormat::Ushort2 },
            ],
        }
    }

    pub fn desc() -> (layout: VertexBufferLayout)
        ensures
            layout@ == PieceRaw::desc_spec(),
            layout@.is_packed_from(2),
    {
        let column: u64 = VertexFormat::Float4.size();
        let mut attributes: Vec<VertexAttribute> = Vec::new();
        attributes.push(
            VertexAttribute { offset: 0, shader_location: 2, format: VertexFormat::Float4 },
        );
        attributes.push(
            VertexAttribute { offset: column, shader_location: 3, format: VertexFormat::Float4 },
        );
        attributes.push(
            VertexAttribute {
                offset: 2 * column,
                shader_location: 4,
                format: VertexFormat::Float4,
            },
        );
        attributes.push(
            VertexAttribute {
                offset: 3 * column,
                shader_location: 5,
                format: VertexFormat::Float4,
            },
        );
        attributes.push(
            VertexAttribute {
                offset: 4 * column,
                shader_location: 6,
                format: VertexFormat::Ushort2,
            },
        );
        assert(attributes@ =~= PieceRaw::desc_spec().attributes);
        VertexBufferLayout {
            array_stride: PIECE_RAW_SIZE,
            step_mode: InputStepMode::Instance,
            attributes,
        }
    }
}

impl Piece {
    pub fn new(color: Color, type_: Type) -> (piece: Piece)
        ensures
            piece == (Piece { color, type_ }),
    {
        Piece { color, type_ }
    }

    /// The instance record of this piece on the cell at (`x`, `y`).
    pub open spec fn raw_spec(self, x: int, y: int) -> PieceRaw {
        PieceRaw {
            position: cell_transform(x, y),
            types: AtlasSelector {
                column: self.type_.ordinal_spec(),
                row: self.color.ordinal_spec(),
            },
        }
    }

    pub fn to_raw(&self, x: usize, y: usize) -> (raw: PieceRaw)
        requires
            x < 8,
            y < 8,
        ensures
            raw == self.raw_spec(x as int, y as int),
    {
        let tx: i8 = board_coord_to_world(x);
        let ty: i8 = board_coord_to_world(y);
        PieceRaw {
            position: Transform::new_scaling(1).append_translation(tx, ty, 0),
            types: AtlasSelector { column: self.type_.ordinal(), row: self.color.ordinal() },
        }
    }
}

/// The cell centers are the eight odd counts of eighths strictly between -1
/// and 1: the first is -7/8, the last 7/8, and neighbours are a quarter apart.
pub proof fn lemma_world_centers_evenly_spaced(c: int)
    requires
        0 <= c < 8,
    ensures
        -8 < world_eighths(c) < 8,
        world_eighths(0) == -7,
        world_eighths(7) == 7,
        c < 7 ==> world_eighths(c + 1) - world_eighths(c) == 2,
{
}

/// Distinct board coordinates have distinct centers.
pub proof fn lemma_world_injective(a: int, b: int)
    requires
        world_eighths(a) == world_eighths(b),
    ensures
        a == b,
{
}

/// Every odd count of eighths strictly between -1 and 1 is the center of
/// exactly one board coordinate.
pub proof fn lemma_world_onto_centers(e: int)
    requires
        -8 < e < 8,
        e % 2 != 0,
    ensures
        0 <= (e + 7) / 2 < 8,
        world_eighths((e + 7) / 2) == e,
{
}

/// The transformed unit quad of a cell covers exactly that cell: its corners
/// lie on the grid lines `c / 4 - 1` and `(c + 1) / 4 - 1` of the board.
pub proof fn lemma_cell_quad_covers_cell(x: int, y: int)
    requires
        0 <= x < 8,
        0 <= y < 8,
    ensures
        cell_transform(x, y).image_x(-1, -1) == 2 * x - 8,
        cell_transform(x, y).image_x(1, 1) == 2 * (x + 1) - 8,
        cell_transform(x, y).image_y(-1, -1) == 2 * y - 8,
        cell_transform(x, y).image_y(1, 1) == 2 * (y + 1) - 8,
{
}

} // verus!
