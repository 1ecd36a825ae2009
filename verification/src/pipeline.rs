//! Plain descriptions of what a render pipeline is built from: vertex buffer
//! layouts, blending, rasterization and the color target's format.

use vstd::prelude::*;

verus! {

/// The component type and count of one vertex attribute.
#[derive(Debug, Clone, Copy, PartialEq, Eq, Structural)]
pub enum VertexFormat {
    /// Two 32-bit floats.
    Float2,
    /// Four 32-bit floats.
    Float4,
    /// Two unsigned 16-bit integers.
    Ushort2,
}

/// Whether a vertex buffer advances once per vertex or once per instance.
#[derive(Debug, Clone, Copy, PartialEq, Eq, Structural)]
pub enum InputStepMode {
    Vertex,
    Instance,
}

#[derive(Debug, Clone, Copy, PartialEq, Eq, Structural)]
pub struct VertexAttribute {
    pub offset: u64,
    pub shader_location: u32,
    pub format: VertexFormat,
}

/// How one vertex buffer is cut into records and attributes.
#[derive(Debug, Clone, PartialEq, Eq)]
pub struct VertexBufferLayout {
    pub array_stride: u64,
    pub step_mode: InputStepMode,
    pub attributes: Vec<VertexAttribute>,
}

/// The mathematical content of a [`VertexBufferLayout`].
pub ghost struct LayoutModel {
    pub array_stride: u64,
    pub step_mode: InputStepMode,
    pub attributes: Seq<VertexAttribute>,
}

impl View for VertexBufferLayout {
    type V = LayoutModel;

    open spec fn view(&self) -> LayoutModel {
        LayoutModel {
            array_stride: self.array_stride,
            step_mode: self.step_mode,
            attributes: self.attributes@,
        }
    }
}

impl VertexFormat {
    /// Bytes that one attribute of this format occupies.
    pub open spec fn size_spec(self) -> u64 {
        match self {
            VertexFormat::Float2 => 8,
            VertexFormat::Float4 => 16,
            VertexFormat::Ushort2 => 4,
        }
    }

    pub fn size(self) -> (bytes: u64)
        ensures
            bytes == self.size_spec(),
    {
        match self {
            VertexFormat::Float2 => 8,
            VertexFormat::Float4 => 16,
            VertexFormat::Ushort2 => 4,
        }
    }
}

impl LayoutModel {
    /// Every attribute starts where the one before it ends, the first at
    /// offset 0 and shader location `first_location`, locations count up by
    /// one, and the last attribute ends at the stride: the record has no gap
    /// and no overlap.
    pub open spec fn is_packed_from(self, first_location: u32) -> bool {
        &&& self.attributes.len() > 0
        &&& self.attributes[0].offset == 0
        &&& forall|i: int|
            0 <= i < self.attributes.len() ==> (#[trigger] self.attributes[i]).shader_location
                == first_location + i
        &&& forall|i: int|
            0 <= i < self.attributes.len() - 1 ==> (#[trigger] self.attributes[i + 1]).offset
                == self.attributes[i].offset + self.attributes[i].format.size_spec()
        &&& self.attributes.last().offset + self.attributes.last().format.size_spec()
            == self.array_stride
    }

    /// One past the highest shader location this layout feeds.
    pub open spec fn end_location(self, first_location: u32) -> int {
        first_location + self.attributes.len()
    }
}

#[derive(Debug, Clone, Copy, PartialEq, Eq, Structural)]
pub enum BlendFactor {
    Zero,
    One,
    SrcAlpha,
    OneMinusSrcAlpha,
}

#[derive(Debug, Clone, Copy, PartialEq, Eq, Structural)]
pub enum BlendOperation {
    Add,
    Subtract,
}

/// `operation(src_factor * source, dst_factor * destination)`.
#[derive(Debug, Clone, Copy, PartialEq, Eq, Structural)]
pub struct BlendState {
    pub src_factor: BlendFactor,
    pub dst_factor: BlendFactor,
    pub operation: BlendOperation,
}

impl BlendState {
    /// The source replaces the destination.
    pub open spec fn replace_spec() -> BlendState {
        BlendState {
            src_factor: BlendFactor::One,
            dst_factor: BlendFactor::Zero,
            operation: BlendOperation::Add,
        }
    }

    /// The source is laid over the destination in proportion to its alpha.
    pub open spec fn alpha_over_spec() -> BlendState {
        BlendState {
            src_factor: BlendFactor::SrcAlpha,
            dst_factor: BlendFactor::OneMinusSrcAlpha,
            operation: BlendOperation::Add,
        }
    }

    pub fn replace() -> (blend: BlendState)
        ensures
            blend == BlendState::replace_spec(),
    {
        BlendState {
            src_factor: BlendFactor::One,
            dst_factor: BlendFactor::Zero,
            operation: BlendOperation::Add,
        }
    }

    pub fn alpha_over() -> (blend: BlendState)
        ensures
            blend == BlendState::alpha_over_spec(),
    {
        BlendState {
            src_factor: BlendFactor::SrcAlpha,
            dst_factor: BlendFactor::OneMinusSrcAlpha,
            operation: BlendOperation::Add,
        }
    }
}

#[derive(Debug, Clone, Copy, PartialEq, Eq, Structural)]
pub enum PrimitiveTopology {
    PointList,
    LineList,
    LineStrip,
    TriangleList,
    TriangleStrip,
}

#[derive(Debug, Clone, Copy, PartialEq, Eq, Structural)]
pub enum FrontFace {
    Ccw,
    Cw,
}

#[derive(Debug, Clone, Copy, PartialEq, Eq, Structural)]
pub enum CullMode {
    /// No face is dropped.
    Neither,
    Front,
    Back,
}

#[derive(Debug, Clone, Copy, PartialEq, Eq, Structural)]
pub enum PolygonMode {
    Fill,
    Line,
    Point,
}

#[derive(Debug, Clone, Copy, PartialEq, Eq, Structural)]
pub struct PrimitiveState {
    pub topology: PrimitiveTopology,
    pub front_face: FrontFace,
    pub cull_mode: CullMode,
    pub polygon_mode: PolygonMode,
}

impl PrimitiveState {
    /// Filled triangle lists whose counter-clockwise side faces the viewer,
    /// with the back faces dropped.
    pub open spec fn solid_triangles_spec() -> PrimitiveState {
        PrimitiveState {
            topology: PrimitiveTopology::TriangleList,
            front_face: FrontFace::Ccw,
            cull_mode: CullMode::Back,
            polygon_mode: PolygonMode::Fill,
        }
    }

    pub fn solid_triangles() -> (state: PrimitiveState)
        ensures
            state == PrimitiveState::solid_triangles_spec(),
    {
        PrimitiveState {
            topology: PrimitiveTopology::TriangleList,
            front_face: FrontFace::Ccw,
            cull_mode: CullMode::Back,
            polygon_mode: PolygonMode::Fill,
        }
    }
}

/// The shader stage that reads a binding.
#[derive(Debug, Clone, Copy, PartialEq, Eq, Structural)]
pub enum ShaderStage {
    Vertex,
    Fragment,
}

/// What is bound at a binding.
#[derive(Debug, Clone, Copy, PartialEq, Eq, Structural)]
pub enum BindingType {
    /// A flat texture of float samples.
    Texture { multisampled: bool, filterable: bool },
    Sampler { comparison: bool, filtering: bool },
}

/// One slot of a pipeline's bind group.
#[derive(Debug, Clone, Copy, PartialEq, Eq, Structural)]
pub struct BindGroupLayoutEntry {
    pub binding: u32,
    pub visibility: ShaderStage,
    pub ty: BindingType,
}

/// The pixel formats a presentation surface or the atlas may have.
#[derive(Debug, Clone, Copy, PartialEq, Eq, Structural)]
pub enum TextureFormat {
    Rgba8Unorm,
    Rgba8UnormSrgb,
    Bgra8Unorm,
    Bgra8UnormSrgb,
}

/// Everything a layer's pipeline is compiled from, apart from its shaders.
#[derive(Debug, Clone, PartialEq, Eq)]
pub struct PipelineState {
    /// Format of the color target the pipeline writes.
    pub format: TextureFormat,
    pub alpha_blend: BlendState,
    pub color_blend: BlendState,
    pub primitive: PrimitiveState,
    /// Samples per pixel.
    pub sample_count: u32,
    /// The per-vertex stream, bound at slot 0.
    pub geometry: VertexBufferLayout,
    /// The per-instance stream, bound at slot 1, where the layer has one.
    pub instances: Option<VertexBufferLayout>,
    /// The slots of the pipeline's one bind group; empty where it has none.
    pub bindings: Vec<BindGroupLayoutEntry>,
}

/// The mathematical content of a [`PipelineState`].
pub ghost struct PipelineModel {
    pub format: TextureFormat,
    pub alpha_blend: BlendState,
    pub color_blend: BlendState,
    pub primitive: PrimitiveState,
    pub sample_count: u32,
    pub geometry: LayoutModel,
    pub instances: Option<LayoutModel>,
    pub bindings: Seq<BindGroupLayoutEntry>,
}

impl View for PipelineState {
    type V = PipelineModel;

    open spec fn view(&self) -> PipelineModel {
        PipelineModel {
            format: self.format,
            alpha_blend: self.alpha_blend,
            color_blend: self.color_blend,
            primitive: self.primitive,
            sample_count: self.sample_count,
            geometry: self.geometry@,
            instances: match self.instances {
                Some(layout) => Some(layout@),
                None => None,
            },
            bindings: self.bindings@,
        }
    }
}

} // verus!
