//! The background layer: one quad over the whole target, shaded into light
//! and dark squares from its texture coordinates alone.

use vstd::prelude::*;
use crate::board::Board;
use crate::pipeline::{BlendState, PipelineModel, PipelineState, PrimitiveState, TextureFormat};
use crate::quad::{indices, layout, layout_spec};
use crate::renderable::{DrawIndexed, Layer, LoadOp, RenderPass, RenderPassModel, Renderable};

verus! {

#[derive(Debug, Clone, PartialEq, Eq)]
pub struct Background {
    pub pipeline: PipelineState,
    /// How many entries of the index buffer the layer draws.
    pub idx_num: u32,
}

impl Background {
    /// The pipeline of the layer for a target of the given format: the quad's
    /// layout alone, opaque output, no bindings.
    pub open spec fn pipeline_spec(format: TextureFormat) -> PipelineModel {
        PipelineModel {
            format,
            alpha_blend: BlendState::replace_spec(),
            color_blend: BlendState::replace_spec(),
            primitive: PrimitiveState::solid_triangles_spec(),
            sample_count: 1,
            geometry: layout_spec(),
            instances: None,
            bindings: Seq::empty(),
        }
    }

    /// Whether this is the background layer for a target of the given
    /// format.
    pub open spec fn built_for(&self, format: TextureFormat) -> bool {
        &&& self.pipeline@ == Background::pipeline_spec(format)
        &&& self.idx_num == 6
    }

    pub fn new(format: TextureFormat) -> (background: Background)
        ensures
            background.built_for(format),
    {
        let pipeline = PipelineState {
            format,
            alpha_blend: BlendState::replace(),
            color_blend: BlendState::replace(),
            primitive: PrimitiveState::solid_triangles(),
            sample_count: 1,
            geometry: layout(),
            instances: None,
            bindings: Vec::new(),
        };
        let list: [u16; 6] = indices();
        Background { pipeline, idx_num: list.len() as u32 }
    }
}

impl Renderable for Background {
    /// One instance of the first `idx_num` indices, drawn over what the
    /// target already holds; nothing is uploaded and the board is not read.
    open spec fn pass_spec(&self, board: Board) -> RenderPassModel {
        RenderPassModel {
            load: LoadOp::Load,
            store: true,
            upload: Seq::empty(),
            draw: Some(
                DrawIndexed {
                    layer: Layer::Background,
                    first_index: 0,
                    index_end: self.idx_num,
                    base_vertex: 0,
                    first_instance: 0,
                    instance_end: 1,
                },
            ),
        }
    }

    fn render(&self, board: &Board) -> (pass: RenderPass) {
        RenderPass {
            load: LoadOp::Load,
            store: true,
            upload: Vec::new(),
            draw: Some(
                DrawIndexed {
                    layer: Layer::Background,
                    first_index: 0,
                    index_end: self.idx_num,
                    base_vertex: 0,
                    first_instance: 0,
                    instance_end: 1,
                },
            ),
        }
    }
}

} // verus!
