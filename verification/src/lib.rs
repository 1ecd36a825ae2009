//! A chessboard renderer's host-side logic: the sprite instance encoder, the
//! vertex layouts, the pipeline settings of the two layers and the per-frame
//! composition, all as plain values that a GPU backend can carry out.

use vstd::prelude::*;

pub mod atlas;
pub mod piece;
pub mod board;
pub mod pipeline;
pub mod quad;
pub mod renderable;
pub mod background;
pub mod pieces;

use crate::atlas::{decoded_image, Atlas, AtlasError, AtlasModel};
use crate::background::Background;
use crate::board::Board;
use crate::pieces::{occupied, PiecesView};
use crate::pipeline::TextureFormat;
use crate::renderable::{ClearColor, Layer, LoadOp, RenderPass, RenderPassModel, Renderable};

verus! {

/// A size in physical pixels.
#[derive(Debug, Clone, Copy, PartialEq, Eq, Structural)]
pub struct PhysicalSize {
    pub width: u32,
    pub height: u32,
}

/// When a finished image is shown.
#[derive(Debug, Clone, Copy, PartialEq, Eq, Structural)]
pub enum PresentMode {
    Immediate,
    Mailbox,
    /// Images are shown in the order they were submitted, one per refresh.
    Fifo,
}

/// The configuration of the presentable-image chain.
#[derive(Debug, Clone, Copy, PartialEq, Eq, Structural)]
pub struct SwapChainDescriptor {
    pub format: TextureFormat,
    pub width: u32,
    pub height: u32,
    pub present_mode: PresentMode,
}

/// Why no image could be acquired for a frame.
#[derive(Debug, Clone, Copy, PartialEq, Eq, Structural)]
pub enum SwapChainError {
    /// No image became available in time.
    Timeout,
    /// The surface changed under the chain.
    Outdated,
    /// The chain was lost.
    Lost,
    /// The backend has no memory left for the chain.
    OutOfMemory,
}

/// What the caller does after a frame that could not be drawn.
#[derive(Debug, Clone, Copy, PartialEq, Eq, Structural)]
pub enum Recovery {
    /// The configuration was renewed at the current size: rebuild the chain
    /// from it and draw again at the next frame.
    Reconfigure,
    /// Nothing can be done: stop drawing.
    Terminate,
}

/// The passes of one frame, in the order they are recorded and run.
#[derive(Debug, Clone, PartialEq, Eq)]
pub struct Frame {
    pub passes: Vec<RenderPass>,
}

impl View for Frame {
    type V = Seq<RenderPassModel>;

    open spec fn view(&self) -> Seq<RenderPassModel> {
        self.passes@.map_values(|pass: RenderPass| pass@)
    }
}

/// The color every frame starts from: (0.1, 0.2, 0.3), opaque.
pub open spec fn clear_color() -> ClearColor {
    ClearColor { r: 1, g: 2, b: 3, a: 10 }
}

/// The pass that opens a frame: it fills the target and draws nothing.
pub open spec fn clear_pass() -> RenderPassModel {
    RenderPassModel {
        load: LoadOp::Clear(clear_color()),
        store: true,
        upload: Seq::empty(),
        draw: None,
    }
}

/// Each dimension of `size` raised to at least one pixel.
pub open spec fn clamped(size: PhysicalSize) -> PhysicalSize {
    PhysicalSize {
        width: if size.width == 0 {
            1
        } else {
            size.width
        },
        height: if size.height == 0 {
            1
        } else {
            size.height
        },
    }
}

/// The engine: the surface's configuration and the two layers drawn on it.
#[derive(Debug, Clone, PartialEq, Eq)]
pub struct BoardView {
    pub sc_desc: SwapChainDescriptor,
    pub size: PhysicalSize,
    pub background: Background,
    pub pieces_view: PiecesView,
}

impl BoardView {
    /// Both layers write the format the surface is configured with.
    pub open spec fn formats_agree(&self) -> bool {
        &&& self.background.pipeline.format == self.sc_desc.format
        &&& self.pieces_view.pipeline.format == self.sc_desc.format
    }

    /// The frame drawn for `board`: a clear, then the background, then the
    /// pieces.
    pub open spec fn frame_spec(&self, board: Board) -> Seq<RenderPassModel> {
        seq![clear_pass(), self.background.pass_spec(board), self.pieces_view.pass_spec(board)]
    }

    /// The engine after its surface changed to `new_size`.
    pub open spec fn resized_spec(self, new_size: PhysicalSize) -> BoardView {
        BoardView {
            size: new_size,
            sc_desc: SwapChainDescriptor {
                width: clamped(new_size).width,
                height: clamped(new_size).height,
                ..self.sc_desc
            },
            ..self
        }
    }

    /// Whether this is the engine for a surface of the given format and
    /// size, with the given atlas: the chain shows images in submission
    /// order, and both layers are built for the surface's format.
    pub open spec fn built_for(
        &self,
        format: TextureFormat,
        size: PhysicalSize,
        atlas: AtlasModel,
    ) -> bool {
        &&& self.size == size
        &&& self.sc_desc == (SwapChainDescriptor {
            format,
            width: size.width,
            height: size.height,
            present_mode: PresentMode::Fifo,
        })
        &&& self.background.built_for(format)
        &&& self.pieces_view.built_for(format, atlas)
    }

    /// Builds the engine for a surface of the given preferred format and
    /// size, with the atlas decoded from an encoded image.
    pub fn create(format: TextureFormat, size: PhysicalSize, atlas_image: &[u8]) -> (view: Result<
        BoardView,
        AtlasError,
    >)
        ensures
            match Atlas::of_decoded(decoded_image(atlas_image@)) {
                Ok(atlas) => view is Ok && view.unwrap().built_for(format, size, atlas)
                    && view.unwrap().formats_agree(),
                Err(error) => view == Err::<BoardView, AtlasError>(error),
            },
    {
        let sc_desc = SwapChainDescriptor {
            format,
            width: size.width,
            height: size.height,
            present_mode: PresentMode::Fifo,
        };
        let background = Background::new(sc_desc.format);
        match PiecesView::new(sc_desc.format, atlas_image) {
            Ok(pieces_view) => Ok(BoardView { sc_desc, size, background, pieces_view }),
            Err(error) => Err(error),
        }
    }

    pub fn size(&self) -> (size: PhysicalSize)
        ensures
            size == self.size,
    {
        self.size
    }

    /// Records the surface's new size and renews the chain's configuration,
    /// with no dimension below one pixel. The layers are kept as they are.
    pub fn resize(&mut self, new_size: PhysicalSize)
        ensures
            *final(self) == old(self).resized_spec(new_size),
            final(self).sc_desc.width >= 1,
            final(self).sc_desc.height >= 1,
            old(self).formats_agree() ==> final(self).formats_agree(),
    {
        self.size = new_size;
        self.sc_desc.width = if new_size.width == 0 {
            1
        } else {
            new_size.width
        };
        self.sc_desc.height = if new_size.height == 0 {
            1
        } else {
            new_size.height
        };
    }

    /// Composes the frame for `board`, given how the acquisition of the
    /// frame's image went: without an image nothing is drawn and the error is
    /// handed on; with one, the frame is the clear, the background and the
    /// pieces, in that order.
    pub fn render(&self, board: &Board, acquired: Result<(), SwapChainError>) -> (frame: Result<
        Frame,
        SwapChainError,
    >)
        ensures
            match acquired {
                Ok(_) => frame is Ok && frame.unwrap()@ == self.frame_spec(*board),
                Err(error) => frame == Err::<Frame, SwapChainError>(error),
            },
    {
        match acquired {
            Err(error) => Err(error),
            Ok(_) => {
                let mut passes: Vec<RenderPass> = Vec::new();
                passes.push(
                    RenderPass {
                        load: LoadOp::Clear(ClearColor { r: 1, g: 2, b: 3, a: 10 }),
                        store: true,
                        upload: Vec::new(),
                        draw: None,
                    },
                );
                passes.push(self.background.render(board));
                passes.push(self.pieces_view.render(board));
                let frame = Frame { passes };
                assert(frame@ =~= self.frame_spec(*board));
                Ok(frame)
            },
        }
    }

    /// Reacts to a frame that could not be drawn. Out of memory ends the
    /// drawing and changes nothing; any other error is healed by a resize to
    /// the current size.
    pub fn recover(&mut self, error: SwapChainError) -> (next: Recovery)
        ensures
            error == SwapChainError::OutOfMemory ==> next == Recovery::Terminate && *final(self)
                == *old(self),
            error != SwapChainError::OutOfMemory ==> next == Recovery::Reconfigure && *final(self)
                == old(self).resized_spec(old(self).size),
    {
        match error {
            SwapChainError::OutOfMemory => Recovery::Terminate,
            _ => {
                let size = self.size();
                self.resize(size);
                Recovery::Reconfigure
            },
        }
    }
}

/// Every frame has exactly three passes. The first clears the target and
/// draws nothing. The second draws the background, once, and the third draws
/// the pieces, once per occupied cell; both keep what is already on the
/// target, so the pieces lie over the background and the background over the
/// clear color.
pub proof fn lemma_frame_layers_in_order(view: BoardView, board: Board)
    ensures
        view.frame_spec(board).len() == 3,
        view.frame_spec(board)[0].load == LoadOp::Clear(clear_color()),
        view.frame_spec(board)[0].draw is None,
        view.frame_spec(board)[1].load == LoadOp::Load,
        view.frame_spec(board)[1].draw is Some,
        view.frame_spec(board)[1].draw.unwrap().layer == Layer::Background,
        view.frame_spec(board)[1].draw.unwrap().instance_end == 1,
        view.frame_spec(board)[2].load == LoadOp::Load,
        view.frame_spec(board)[2].draw is Some,
        view.frame_spec(board)[2].draw.unwrap().layer == Layer::Pieces,
        view.frame_spec(board)[2].draw.unwrap().instance_end == occupied(board),
        view.frame_spec(board)[2].upload.len() == occupied(board),
        forall|i: int| 0 <= i < 3 ==> (#[trigger] view.frame_spec(board)[i]).store,
{
    crate::pieces::lemma_instances_count(board);
}

/// A resize never leaves a dimension of the configuration at zero, whatever
/// size is asked for, and changes neither the format nor the present mode.
pub proof fn lemma_resize_never_empty(view: BoardView, new_size: PhysicalSize)
    ensures
        view.resized_spec(new_size).sc_desc.width >= 1,
        view.resized_spec(new_size).sc_desc.height >= 1,
        new_size.width >= 1 ==> view.resized_spec(new_size).sc_desc.width == new_size.width,
        new_size.height >= 1 ==> view.resized_spec(new_size).sc_desc.height == new_size.height,
        view.resized_spec(new_size).sc_desc.format == view.sc_desc.format,
        view.resized_spec(new_size).sc_desc.present_mode == view.sc_desc.present_mode,
        view.resized_spec(new_size).size == new_size,
{
}

} // verus!
