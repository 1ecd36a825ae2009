//! The piece layer: one sprite per occupied cell, cut from the atlas and
//! laid over the background.

use vstd::prelude::*;
use crate::atlas::{decoded_image, Atlas, AtlasError, AtlasModel};
use crate::board::{default_cell, Board};
use crate::piece::{Piece, PieceRaw, PIECE_RAW_SIZE};
use crate::pipeline::{
    BindGroupLayoutEntry, BindingType, BlendState, PipelineModel, PipelineState, PrimitiveState,
    ShaderStage, TextureFormat,
};
use crate::quad::{indices, layout, layout_spec};
use crate::renderable::{DrawIndexed, Layer, LoadOp, RenderPass, RenderPassModel, Renderable};

verus! {

/// The most instance records the instance buffer holds: one per cell.
pub const MAX_PIECES: u64 = 64;

/// The `k`-th cell in drawing order: screen rows from 0 to 7, each from file
/// 0 to file 7, where screen row `y` shows the board's stored row `7 - y`.
pub open spec fn cell(board: Board, k: int) -> Option<Piece> {
    board[7 - k / 8][k % 8]
}

/// The instance record of the `k`-th cell in drawing order, if it is
/// occupied.
pub open spec fn cell_record(board: Board, k: int) -> Option<PieceRaw> {
    match cell(board, k) {
        Some(piece) => Some(piece.raw_spec(k % 8, k / 8)),
        None => None,
    }
}

/// The records of the occupied cells among the first `n` in drawing order.
pub open spec fn instances_upto(board: Board, n: nat) -> Seq<PieceRaw>
    decreases n,
{
    if n == 0 {
        Seq::empty()
    } else {
        let before = instances_upto(board, (n - 1) as nat);
        match cell_record(board, n - 1) {
            Some(record) => before.push(record),
            None => before,
        }
    }
}

/// The instance records of a board: one per occupied cell, in drawing order.
pub open spec fn instances(board: Board) -> Seq<PieceRaw> {
    instances_upto(board, 64)
}

/// How many of the first `n` cells in drawing order are occupied.
pub open spec fn occupied_upto(board: Board, n: nat) -> nat
    decreases n,
{
    if n == 0 {
        0
    } else {
        occupied_upto(board, (n - 1) as nat) + if cell(board, n - 1) is Some {
            1nat
        } else {
            0nat
        }
    }
}

/// How many cells of a board are occupied.
pub open spec fn occupied(board: Board) -> nat {
    occupied_upto(board, 64)
}

/// There is one record for each occupied cell among the first `n`.
pub proof fn lemma_instances_upto_len(board: Board, n: nat)
    ensures
        instances_upto(board, n).len() == occupied_upto(board, n),
        occupied_upto(board, n) <= n,
    decreases n,
{
    if n > 0 {
        lemma_instances_upto_len(board, (n - 1) as nat);
    }
}

/// The count of occupied cells never goes down along the drawing order.
pub proof fn lemma_occupied_upto_monotonic(board: Board, m: nat, n: nat)
    requires
        m <= n,
    ensures
        occupied_upto(board, m) <= occupied_upto(board, n),
    decreases n,
{
    if m < n {
        lemma_occupied_upto_monotonic(board, m, (n - 1) as nat);
    }
}

/// Records once emitted stay where they are: the records of the first `m`
/// cells are a prefix of the records of the first `n`.
pub proof fn lemma_instances_upto_prefix(board: Board, m: nat, n: nat)
    requires
        m <= n,
    ensures
        instances_upto(board, m).len() <= instances_upto(board, n).len(),
        instances_upto(board, n).subrange(0, instances_upto(board, m).len() as int)
            == instances_upto(board, m),
    decreases n,
{
    if m < n {
        lemma_instances_upto_prefix(board, m, (n - 1) as nat);
        let before = instances_upto(board, (n - 1) as nat);
        let len = instances_upto(board, m).len() as int;
        assert(instances_upto(board, n).subrange(0, len) =~= before.subrange(0, len));
    } else {
        assert(instances_upto(board, n).subrange(0, instances_upto(board, m).len() as int)
            =~= instances_upto(board, m));
    }
}

/// A board yields exactly as many records as it has occupied cells, and never
/// more than the instance buffer holds.
pub proof fn lemma_instances_count(board: Board)
    ensures
        instances(board).len() == occupied(board),
        instances(board).len() <= MAX_PIECES,
{
    lemma_instances_upto_len(board, 64);
}

/// The record of an occupied cell stands at the position given by the number
/// of occupied cells before it, and carries that cell's transform and the
/// atlas column and row of the piece on it.
pub proof fn lemma_instance_of_cell(board: Board, k: int)
    requires
        0 <= k < 64,
        cell(board, k) is Some,
    ensures
        occupied_upto(board, k as nat) < instances(board).len(),
        instances(board)[occupied_upto(board, k as nat) as int] == cell(board, k).unwrap().raw_spec(
            k % 8,
            k / 8,
        ),
        instances(board)[occupied_upto(board, k as nat) as int].types.column == cell(
            board,
            k,
        ).unwrap().type_.ordinal_spec(),
        instances(board)[occupied_upto(board, k as nat) as int].types.row == cell(
            board,
            k,
        ).unwrap().color.ordinal_spec(),
{
    let at = occupied_upto(board, k as nat) as int;
    lemma_instances_upto_len(board, k as nat);
    lemma_instances_upto_len(board, (k + 1) as nat);
    lemma_instances_upto_prefix(board, (k + 1) as nat, 64);
    let upto = instances_upto(board, (k + 1) as nat);
    assert(upto[at] == cell(board, k).unwrap().raw_spec(k % 8, k / 8));
    assert(instances(board).subrange(0, upto.len() as int)[at] == instances(board)[at]);
}

/// Every record among those of the first `n` cells comes from one of these
/// cells: the occupied cell whose count of occupied predecessors is the
/// record's position.
pub proof fn lemma_instance_upto_has_cell(board: Board, n: nat, i: int) -> (k: int)
    requires
        0 <= i < instances_upto(board, n).len(),
    ensures
        0 <= k < n,
        cell(board, k) is Some,
        occupied_upto(board, k as nat) == i,
        instances_upto(board, n)[i] == cell(board, k).unwrap().raw_spec(k % 8, k / 8),
    decreases n,
{
    lemma_instances_upto_len(board, n);
    lemma_instances_upto_len(board, (n - 1) as nat);
    if i < instances_upto(board, (n - 1) as nat).len() {
        lemma_instance_upto_has_cell(board, (n - 1) as nat, i)
    } else {
        n - 1
    }
}

/// Every record of a board comes from an occupied cell, whose transform and
/// atlas selector it carries: no record is padding.
pub proof fn lemma_instance_has_cell(board: Board, i: int) -> (k: int)
    requires
        0 <= i < instances(board).len(),
    ensures
        0 <= k < 64,
        cell(board, k) is Some,
        occupied_upto(board, k as nat) == i,
        instances(board)[i] == cell(board, k).unwrap().raw_spec(k % 8, k / 8),
        instances(board)[i].types.column == cell(board, k).unwrap().type_.ordinal_spec(),
        instances(board)[i].types.row == cell(board, k).unwrap().color.ordinal_spec(),
{
    lemma_instance_upto_has_cell(board, 64, i)
}

/// Records keep the drawing order of their cells: of two occupied cells, the
/// one drawn first has its record first.
pub proof fn lemma_instances_order_stable(board: Board, j: int, k: int)
    requires
        0 <= j < k < 64,
        cell(board, j) is Some,
        cell(board, k) is Some,
    ensures
        occupied_upto(board, j as nat) < occupied_upto(board, k as nat),
{
    lemma_occupied_upto_monotonic(board, (j + 1) as nat, k as nat);
}

/// Boards that agree on every cell agree on the records of the first `n`
/// cells.
pub proof fn lemma_instances_upto_deterministic(a: Board, b: Board, n: nat)
    requires
        n <= 64,
        forall|row: int, file: int|
            0 <= row < 8 && 0 <= file < 8 ==> (#[trigger] a[row][file]) == b[row][file],
    ensures
        instances_upto(a, n) == instances_upto(b, n),
    decreases n,
{
    if n > 0 {
        lemma_instances_upto_deterministic(a, b, (n - 1) as nat);
        let k = n - 1;
        assert(a[7 - k / 8][k % 8] == b[7 - k / 8][k % 8]);
    }
}

/// The records depend on nothing but the cells: boards that agree on every
/// cell have the same records, in the same order.
pub proof fn lemma_instances_deterministic(a: Board, b: Board)
    requires
        forall|row: int, file: int|
            0 <= row < 8 && 0 <= file < 8 ==> (#[trigger] a[row][file]) == b[row][file],
    ensures
        instances(a) == instances(b),
{
    lemma_instances_upto_deterministic(a, b, 64);
}

/// None of the first `n` cells of a board without pieces has a record.
pub proof fn lemma_no_pieces_no_instances_upto(board: Board, n: nat)
    requires
        n <= 64,
        forall|row: int, file: int|
            0 <= row < 8 && 0 <= file < 8 ==> (#[trigger] board[row][file]) is None,
    ensures
        instances_upto(board, n) == Seq::<PieceRaw>::empty(),
        occupied_upto(board, n) == 0,
    decreases n,
{
    if n > 0 {
        lemma_no_pieces_no_instances_upto(board, (n - 1) as nat);
        let k = n - 1;
        assert(board[7 - k / 8][k % 8] is None);
    }
}

/// A board without pieces has no records, and the piece layer draws zero
/// instances for it.
pub proof fn lemma_no_pieces_no_instances(board: Board, layer: PiecesView)
    requires
        forall|row: int, file: int|
            0 <= row < 8 && 0 <= file < 8 ==> (#[trigger] board[row][file]) is None,
    ensures
        instances(board) == Seq::<PieceRaw>::empty(),
        occupied(board) == 0,
        layer.pass_spec(board).upload.len() == 0,
        layer.pass_spec(board).draw.unwrap().instance_end == 0,
{
    lemma_no_pieces_no_instances_upto(board, 64);
}

/// The cell at file `x` of screen row `y` adds one to the count if it is
/// occupied, and nothing if it is not.
pub proof fn lemma_occupied_step(board: Board, y: int, x: int)
    requires
        0 <= y < 8,
        0 <= x < 8,
    ensures
        occupied_upto(board, (8 * y + x + 1) as nat) == occupied_upto(board, (8 * y + x) as nat)
            + if board[7 - y][x] is Some {
            1nat
        } else {
            0nat
        },
{
    assert((8 * y + x) / 8 == y && (8 * y + x) % 8 == x);
}

/// A screen row whose cells are all occupied adds eight to the count, and one
/// whose cells are all empty adds nothing.
pub proof fn lemma_occupied_row(board: Board, y: int, full: bool)
    requires
        0 <= y < 8,
        forall|file: int| 0 <= file < 8 ==> ((#[trigger] board[7 - y][file]) is Some) == full,
    ensures
        occupied_upto(board, (8 * y + 8) as nat) == occupied_upto(board, (8 * y) as nat) + if full {
            8nat
        } else {
            0nat
        },
{
    lemma_occupied_step(board, y, 0);
    lemma_occupied_step(board, y, 1);
    lemma_occupied_step(board, y, 2);
    lemma_occupied_step(board, y, 3);
    lemma_occupied_step(board, y, 4);
    lemma_occupied_step(board, y, 5);
    lemma_occupied_step(board, y, 6);
    lemma_occupied_step(board, y, 7);
}

/// The standard starting position has thirty-two pieces, so thirty-two
/// records are made for it and thirty-two instances drawn.
pub proof fn lemma_starting_position_count(board: Board, layer: PiecesView)
    requires
        forall|row: int, file: int|
            0 <= row < 8 && 0 <= file < 8 ==> (#[trigger] board[row][file]) == default_cell(
                row,
                file,
            ),
    ensures
        occupied(board) == 32,
        instances(board).len() == 32,
        layer.pass_spec(board).draw.unwrap().instance_end == 32,
{
    assert forall|y: int, file: int| 0 <= y < 8 && 0 <= file < 8 implies ((
    #[trigger] board[7 - y][file]) is Some) == (y < 2 || y >= 6) by {
        assert(board[7 - y][file] == default_cell(7 - y, file));
    }
    lemma_occupied_row(board, 0, true);
    lemma_occupied_row(board, 1, true);
    lemma_occupied_row(board, 2, false);
    lemma_occupied_row(board, 3, false);
    lemma_occupied_row(board, 4, false);
    lemma_occupied_row(board, 5, false);
    lemma_occupied_row(board, 6, true);
    lemma_occupied_row(board, 7, true);
    lemma_instances_count(board);
}

/// The records of any board fit the instance buffer, which is sized for one
/// record per cell.
pub proof fn lemma_upload_fits_buffer(board: Board)
    ensures
        instances(board).len() * PIECE_RAW_SIZE <= MAX_PIECES * PIECE_RAW_SIZE,
{
    lemma_instances_count(board);
}

/// The two vertex streams of the piece pipeline are each packed without gap
/// or overlap, and feed disjoint shader locations: the quad's attributes end
/// where the instance record's begin.
pub proof fn lemma_streams_feed_distinct_locations()
    ensures
        layout_spec().is_packed_from(0),
        PieceRaw::desc_spec().is_packed_from(2),
        layout_spec().end_location(0) == 2,
        PieceRaw::desc_spec().end_location(2) == 7,
        PieceRaw::desc_spec().array_stride == PIECE_RAW_SIZE,
{
    let quad = layout_spec().attributes;
    assert(quad[0].offset == 0 && quad[1].offset == 8);
    let record = PieceRaw::desc_spec().attributes;
    assert(record[0].offset == 0 && record[1].offset == 16 && record[2].offset == 32
        && record[3].offset == 48 && record[4].offset == 64);
}

/// The copy that fills the texture reads only samples the atlas has: the
/// rows it copies, at the stride it copies them, end within the atlas's data.
pub proof fn lemma_atlas_upload_in_bounds(layer: PiecesView, format: TextureFormat, atlas: AtlasModel)
    requires
        layer.built_for(format, atlas),
        atlas.well_formed(),
    ensures
        layer.texture.bytes_per_row == 4 * layer.texture.width,
        layer.texture.bytes_per_row * layer.texture.rows_per_image <= layer.atlas@.data.len(),
{
}

/// Encodes a board as its instance records.
pub fn encode_board(board: &Board) -> (records: Vec<PieceRaw>)
    ensures
        records@ == instances(*board),
        records@.len() == occupied(*board),
        records@.len() <= MAX_PIECES,
{
    let mut records: Vec<PieceRaw> = Vec::new();
    let mut y: usize = 0;
    while y < 8
        invariant
            y <= 8,
            records@ == instances_upto(*board, (8 * y) as nat),
        decreases 8 - y,
    {
        let row: &[Option<Piece>; 8] = &board[7 - y];
        let mut x: usize = 0;
        while x < 8
            invariant
                y < 8,
                x <= 8,
                *row == board[7 - y as int],
                records@ == instances_upto(*board, (8 * y + x) as nat),
            decreases 8 - x,
        {
            assert((8 * y + x) / 8 == y && (8 * y + x) % 8 == x);
            match row[x] {
                Some(piece) => {
                    records.push(piece.to_raw(x, y));
                },
                None => {},
            }
            x += 1;
        }
        y += 1;
    }
    proof {
        lemma_instances_count(*board);
    }
    records
}

#[derive(Debug, Clone, Copy, PartialEq, Eq, Structural)]
pub enum FilterMode {
    Nearest,
    Linear,
}

#[derive(Debug, Clone, Copy, PartialEq, Eq, Structural)]
pub enum AddressMode {
    ClampToEdge,
    Repeat,
    MirrorRepeat,
}

/// How the fragment stage reads the atlas.
#[derive(Debug, Clone, Copy, PartialEq, Eq, Structural)]
pub struct Sampler {
    pub address_mode_u: AddressMode,
    pub address_mode_v: AddressMode,
    pub address_mode_w: AddressMode,
    pub mag_filter: FilterMode,
    pub min_filter: FilterMode,
    pub mipmap_filter: FilterMode,
}

/// The atlas as a GPU texture, and the layout of the pixel data copied into
/// it.
#[derive(Debug, Clone, Copy, PartialEq, Eq, Structural)]
pub struct AtlasTexture {
    pub width: u32,
    pub height: u32,
    pub depth: u32,
    pub mip_level_count: u32,
    pub sample_count: u32,
    pub format: TextureFormat,
    /// Bytes from one row of pixels to the next in the source data.
    pub bytes_per_row: u32,
    pub rows_per_image: u32,
}

#[derive(Debug, Clone, PartialEq, Eq)]
pub struct PiecesView {
    pub pipeline: PipelineState,
    /// The entries of the index buffer the layer draws, as `start..end`.
    pub indices_start: u32,
    pub indices_end: u32,
    /// Bytes of the instance buffer.
    pub piece_buffer_size: u64,
    /// The pixels the texture is filled from.
    pub atlas: Atlas,
    pub texture: AtlasTexture,
    pub sampler: Sampler,
}

impl PiecesView {
    /// The pipeline of the layer for a target of the given format: the quad's
    /// layout per vertex, the instance record's layout per instance,
    /// alpha-over blending, and the atlas's texture and sampler bound to the
    /// fragment stage at bindings 0 and 1.
    pub open spec fn pipeline_spec(format: TextureFormat) -> PipelineModel {
        PipelineModel {
            format,
            alpha_blend: BlendState::alpha_over_spec(),
            color_blend: BlendState::alpha_over_spec(),
            primitive: PrimitiveState::solid_triangles_spec(),
            sample_count: 1,
            geometry: layout_spec(),
            instances: Some(PieceRaw::desc_spec()),
            bindings: seq![
                BindGroupLayoutEntry {
                    binding: 0,
                    visibility: ShaderStage::Fragment,
                    ty: BindingType::Texture { multisampled: false, filterable: false },
                },
                BindGroupLayoutEntry {
                    binding: 1,
                    visibility: ShaderStage::Fragment,
                    ty: BindingType::Sampler { comparison: false, filtering: true },
                },
            ],
        }
    }

    /// A flat, single-level, gamma-correct 8-bit RGBA texture of the atlas's
    /// size, filled from tightly packed rows.
    pub open spec fn texture_spec(width: u32, height: u32) -> AtlasTexture {
        AtlasTexture {
            width,
            height,
            depth: 1,
            mip_level_count: 1,
            sample_count: 1,
            format: TextureFormat::Rgba8UnormSrgb,
            bytes_per_row: (4 * width) as u32,
            rows_per_image: height,
        }
    }

    /// Smooth when a sprite is enlarged, crisp when it is shrunk, and never
    /// reading past the atlas's edge.
    pub open spec fn sampler_spec() -> Sampler {
        Sampler {
            address_mode_u: AddressMode::ClampToEdge,
            address_mode_v: AddressMode::ClampToEdge,
            address_mode_w: AddressMode::ClampToEdge,
            mag_filter: FilterMode::Linear,
            min_filter: FilterMode::Nearest,
            mipmap_filter: FilterMode::Nearest,
        }
    }

    /// Whether this is the piece layer for a target of the given format and
    /// the given atlas.
    pub open spec fn built_for(&self, format: TextureFormat, atlas: AtlasModel) -> bool {
        &&& self.pipeline@ == PiecesView::pipeline_spec(format)
        &&& self.indices_start == 0
        &&& self.indices_end == 6
        &&& self.piece_buffer_size == MAX_PIECES * PIECE_RAW_SIZE
        &&& self.atlas@ == atlas
        &&& self.texture == PiecesView::texture_spec(atlas.width, atlas.height)
        &&& self.sampler == PiecesView::sampler_spec()
    }

    /// Builds the layer for a target of the given format, with its atlas
    /// decoded from an encoded image.
    pub fn new(format: TextureFormat, atlas_image: &[u8]) -> (view: Result<PiecesView, AtlasError>)
        ensures
            match Atlas::of_decoded(decoded_image(atlas_image@)) {
                Ok(atlas) => view is Ok && view.unwrap().built_for(format, atlas)
                    && atlas.well_formed(),
                Err(error) => view == Err::<PiecesView, AtlasError>(error),
            },
    {
        match Atlas::decode(atlas_image) {
            Ok(atlas) => Ok(PiecesView::with_atlas(format, atlas)),
            Err(error) => Err(error),
        }
    }

    /// Builds the layer for a target of the given format around an atlas.
    pub fn with_atlas(format: TextureFormat, atlas: Atlas) -> (view: PiecesView)
        requires
            atlas@.well_formed(),
        ensures
            view.built_for(format, atlas@),
    {
        let list: [u16; 6] = indices();
        let texture = AtlasTexture {
            width: atlas.width,
            height: atlas.height,
            depth: 1,
            mip_level_count: 1,
            sample_count: 1,
            format: TextureFormat::Rgba8UnormSrgb,
            bytes_per_row: 4 * atlas.width,
            rows_per_image: atlas.height,
        };
        let sampler = Sampler {
            address_mode_u: AddressMode::ClampToEdge,
            address_mode_v: AddressMode::ClampToEdge,
            address_mode_w: AddressMode::ClampToEdge,
            mag_filter: FilterMode::Linear,
            min_filter: FilterMode::Nearest,
            mipmap_filter: FilterMode::Nearest,
        };
        let mut bindings: Vec<BindGroupLayoutEntry> = Vec::new();
        bindings.push(
            BindGroupLayoutEntry {
                binding: 0,
                visibility: ShaderStage::Fragment,
                ty: BindingType::Texture { multisampled: false, filterable: false },
            },
        );
        bindings.push(
            BindGroupLayoutEntry {
                binding: 1,
                visibility: ShaderStage::Fragment,
                ty: BindingType::Sampler { comparison: false, filtering: true },
            },
        );
        assert(bindings@ =~= PiecesView::pipeline_spec(format).bindings);
        let pipeline = PipelineState {
            format,
            alpha_blend: BlendState::alpha_over(),
            color_blend: BlendState::alpha_over(),
            primitive: PrimitiveState::solid_triangles(),
            sample_count: 1,
            geometry: layout(),
            instances: Some(PieceRaw::desc()),
            bindings,
        };
        PiecesView {
            pipeline,
            indices_start: 0,
            indices_end: list.len() as u32,
            piece_buffer_size: MAX_PIECES * PIECE_RAW_SIZE,
            atlas,
            texture,
            sampler,
        }
    }
}

impl Renderable for PiecesView {
    /// The board's records are uploaded, and the layer's indices are drawn
    /// once per record over what the target already holds.
    open spec fn pass_spec(&self, board: Board) -> RenderPassModel {
        RenderPassModel {
            load: LoadOp::Load,
            store: true,
            upload: instances(board),
            draw: Some(
                DrawIndexed {
                    layer: Layer::Pieces,
                    first_index: self.indices_start,
                    index_end: self.indices_end,
                    base_vertex: 0,
                    first_instance: 0,
                    instance_end: occupied(board) as u32,
                },
            ),
        }
    }

    fn render(&self, board: &Board) -> (pass: RenderPass) {
        let upload: Vec<PieceRaw> = encode_board(board);
        let count: u32 = upload.len() as u32;
        RenderPass {
            load: LoadOp::Load,
            store: true,
            upload,
            draw: Some(
                DrawIndexed {
                    layer: Layer::Pieces,
                    first_index: self.indices_start,
                    index_end: self.indices_end,
                    base_vertex: 0,
                    first_instance: 0,
                    instance_end: count,
                },
            ),
        }
    }
}

} // verus!
