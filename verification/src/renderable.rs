//! What a layer contributes to a frame: one render pass.

use vstd::prelude::*;
use crate::board::Board;
use crate::piece::PieceRaw;

verus! {

/// A color whose channels are counts of tenths.
#[derive(Debug, Clone, Copy, PartialEq, Eq, Structural)]
pub struct ClearColor {
    pub r: u8,
    pub g: u8,
    pub b: u8,
    pub a: u8,
}

/// What a pass does to its target before it draws.
#[derive(Debug, Clone, Copy, PartialEq, Eq, Structural)]
pub enum LoadOp {
    /// Fill the target with a color.
    Clear(ClearColor),
    /// Keep what earlier passes left there.
    Load,
}

/// The layer whose pipeline and buffers a pass binds.
#[derive(Debug, Clone, Copy, PartialEq, Eq, Structural)]
pub enum Layer {
    Background,
    Pieces,
}

/// One indexed, instanced draw call: indices `first_index..index_end` of the
/// bound index buffer, once for each instance in
/// `first_instance..instance_end`.
#[derive(Debug, Clone, Copy, PartialEq, Eq, Structural)]
pub struct DrawIndexed {
    pub layer: Layer,
    pub first_index: u32,
    pub index_end: u32,
    pub base_vertex: i32,
    pub first_instance: u32,
    pub instance_end: u32,
}

/// One render pass on the frame's image.
#[derive(Debug, Clone, PartialEq, Eq)]
pub struct RenderPass {
    pub load: LoadOp,
    /// Whether the pass's output is written back to the target.
    pub store: bool,
    /// Instance records to write to the start of the instance buffer before
    /// the pass runs.
    pub upload: Vec<PieceRaw>,
    /// The draw call of the pass, if it draws.
    pub draw: Option<DrawIndexed>,
}

/// The mathematical content of a [`RenderPass`].
pub ghost struct RenderPassModel {
    pub load: LoadOp,
    pub store: bool,
    pub upload: Seq<PieceRaw>,
    pub draw: Option<DrawIndexed>,
}

impl View for RenderPass {
    type V = RenderPassModel;

    open spec fn view(&self) -> RenderPassModel {
        RenderPassModel {
            load: self.load,
            store: self.store,
            upload: self.upload@,
            draw: self.draw,
        }
    }
}

/// A layer of the frame.
pub trait Renderable {
    /// The pass this layer records for `board`.
    spec fn pass_spec(&self, board: Board) -> RenderPassModel;

    /// Records the layer's pass for `board`.
    fn render(&self, board: &Board) -> (pass: RenderPass)
        ensures
            pass@ == self.pass_spec(*board),
    ;
}

} // verus!
