use chessboard_rs::atlas::{Atlas, AtlasError};
use chessboard_rs::background::Background;
use chessboard_rs::board::{default_board, Board};
use chessboard_rs::piece::{Color, Piece, PieceRaw, Type};
use chessboard_rs::pieces::{AddressMode, AtlasTexture, FilterMode, PiecesView, Sampler};
use chessboard_rs::pipeline::{
    BindGroupLayoutEntry, BindingType, BlendState, PrimitiveState, ShaderStage, TextureFormat,
};
use chessboard_rs::quad::layout;
use chessboard_rs::renderable::{ClearColor, DrawIndexed, Layer, LoadOp, Renderable};
use chessboard_rs::{BoardView, PhysicalSize, PresentMode, Recovery, SwapChainDescriptor, SwapChainError};

fn encoded(image: image::DynamicImage) -> Vec<u8> {
    let mut bytes: Vec<u8> = Vec::new();
    image.write_to(&mut bytes, image::ImageOutputFormat::Png).unwrap();
    bytes
}

/// Two pixels wide, three rows; every sample is its own index.
fn atlas_image() -> Vec<u8> {
    let samples: Vec<u8> = (0u8..24).collect();
    let buffer = image::RgbaImage::from_raw(2, 3, samples).unwrap();
    encoded(image::DynamicImage::ImageRgba8(buffer))
}

fn engine() -> BoardView {
    BoardView::create(
        TextureFormat::Bgra8UnormSrgb,
        PhysicalSize { width: 600, height: 600 },
        &atlas_image(),
    )
    .unwrap()
}

#[test]
fn atlas_from_parts_keeps_size_and_samples() {
    let atlas = Atlas::from_parts(2, 1, vec![1, 2, 3, 4, 5, 6, 7, 8]).unwrap();
    assert_eq!(atlas, Atlas { width: 2, height: 1, data: vec![1, 2, 3, 4, 5, 6, 7, 8] });
}

#[test]
fn atlas_from_parts_accepts_an_empty_image() {
    assert_eq!(Atlas::from_parts(0, 0, vec![]), Ok(Atlas { width: 0, height: 0, data: vec![] }));
    assert_eq!(Atlas::from_parts(0, 9, vec![]), Ok(Atlas { width: 0, height: 9, data: vec![] }));
}

#[test]
fn atlas_from_parts_rejects_a_row_too_wide() {
    assert_eq!(Atlas::from_parts(1 << 30, 0, vec![]), Err(AtlasError::TooWide));
    assert_eq!(Atlas::from_parts(u32::MAX, 1, vec![0; 4]), Err(AtlasError::TooWide));
    assert!(Atlas::from_parts((1 << 30) - 1, 0, vec![]).is_ok());
}

#[test]
fn atlas_from_parts_rejects_missing_samples() {
    assert_eq!(Atlas::from_parts(2, 1, vec![0; 7]), Err(AtlasError::Truncated));
    assert_eq!(Atlas::from_parts(1, 1, vec![]), Err(AtlasError::Truncated));
}

#[test]
fn decoded_atlas_has_its_rows_reversed() {
    let atlas = Atlas::decode(&atlas_image()).unwrap();
    assert_eq!(atlas.width, 2);
    assert_eq!(atlas.height, 3);
    let expected: Vec<u8> = vec![
        16, 17, 18, 19, 20, 21, 22, 23, 8, 9, 10, 11, 12, 13, 14, 15, 0, 1, 2, 3, 4, 5, 6, 7,
    ];
    assert_eq!(atlas.data, expected);
}

#[test]
fn decode_rejects_bytes_that_are_no_image() {
    assert_eq!(Atlas::decode(&[]), Err(AtlasError::Undecodable));
    assert_eq!(Atlas::decode(b"not an image at all"), Err(AtlasError::Undecodable));
}

#[test]
fn decode_rejects_an_image_without_alpha() {
    let buffer = image::RgbImage::from_raw(1, 1, vec![9, 9, 9]).unwrap();
    let bytes = encoded(image::DynamicImage::ImageRgb8(buffer));
    assert_eq!(Atlas::decode(&bytes), Err(AtlasError::NotRgba8));
}

#[test]
fn background_layer_is_an_opaque_quad() {
    let background = Background::new(TextureFormat::Rgba8Unorm);
    assert_eq!(background.idx_num, 6);
    assert_eq!(background.pipeline.format, TextureFormat::Rgba8Unorm);
    assert_eq!(background.pipeline.alpha_blend, BlendState::replace());
    assert_eq!(background.pipeline.color_blend, BlendState::replace());
    assert_eq!(background.pipeline.primitive, PrimitiveState::solid_triangles());
    assert_eq!(background.pipeline.sample_count, 1);
    assert_eq!(background.pipeline.geometry, layout());
    assert_eq!(background.pipeline.instances, None);
    assert!(background.pipeline.bindings.is_empty());
}

#[test]
fn background_draws_one_quad_over_what_is_there() {
    let background = Background::new(TextureFormat::Bgra8Unorm);
    for board in [default_board(), [[None; 8]; 8]] {
        let pass = background.render(&board);
        assert_eq!(pass.load, LoadOp::Load);
        assert!(pass.store);
        assert!(pass.upload.is_empty());
        assert_eq!(
            pass.draw,
            Some(DrawIndexed {
                layer: Layer::Background,
                first_index: 0,
                index_end: 6,
                base_vertex: 0,
                first_instance: 0,
                instance_end: 1,
            })
        );
    }
}

#[test]
fn piece_layer_is_built_around_its_atlas() {
    let view = PiecesView::new(TextureFormat::Bgra8UnormSrgb, &atlas_image()).unwrap();
    assert_eq!(view.pipeline.format, TextureFormat::Bgra8UnormSrgb);
    assert_eq!(view.pipeline.alpha_blend, BlendState::alpha_over());
    assert_eq!(view.pipeline.color_blend, BlendState::alpha_over());
    assert_eq!(view.pipeline.primitive, PrimitiveState::solid_triangles());
    assert_eq!(view.pipeline.sample_count, 1);
    assert_eq!(view.pipeline.geometry, layout());
    assert_eq!(view.pipeline.instances, Some(PieceRaw::desc()));
    assert_eq!(
        view.pipeline.bindings,
        vec![
            BindGroupLayoutEntry {
                binding: 0,
                visibility: ShaderStage::Fragment,
                ty: BindingType::Texture { multisampled: false, filterable: false },
            },
            BindGroupLayoutEntry {
                binding: 1,
                visibility: ShaderStage::Fragment,
                ty: BindingType::Sampler { comparison: false, filtering: true },
            },
        ]
    );
    assert_eq!((view.indices_start, view.indices_end), (0, 6));
    assert_eq!(view.piece_buffer_size, 4352);
    assert_eq!(view.atlas, Atlas::decode(&atlas_image()).unwrap());
    assert_eq!(
        view.texture,
        AtlasTexture {
            width: 2,
            height: 3,
            depth: 1,
            mip_level_count: 1,
            sample_count: 1,
            format: TextureFormat::Rgba8UnormSrgb,
            bytes_per_row: 8,
            rows_per_image: 3,
        }
    );
    assert_eq!(
        view.sampler,
        Sampler {
            address_mode_u: AddressMode::ClampToEdge,
            address_mode_v: AddressMode::ClampToEdge,
            address_mode_w: AddressMode::ClampToEdge,
            mag_filter: FilterMode::Linear,
            min_filter: FilterMode::Nearest,
            mipmap_filter: FilterMode::Nearest,
        }
    );
}

#[test]
fn piece_layer_needs_a_decodable_atlas() {
    assert_eq!(
        PiecesView::new(TextureFormat::Bgra8UnormSrgb, &[1, 2, 3]),
        Err(AtlasError::Undecodable)
    );
    assert_eq!(
        BoardView::create(
            TextureFormat::Bgra8UnormSrgb,
            PhysicalSize { width: 1, height: 1 },
            &[1, 2, 3]
        ),
        Err(AtlasError::Undecodable)
    );
}

#[test]
fn with_atlas_and_new_build_the_same_layer() {
    let atlas = Atlas::decode(&atlas_image()).unwrap();
    assert_eq!(
        PiecesView::with_atlas(TextureFormat::Rgba8Unorm, atlas),
        PiecesView::new(TextureFormat::Rgba8Unorm, &atlas_image()).unwrap()
    );
}

#[test]
fn empty_board_draws_zero_instances() {
    let view = PiecesView::new(TextureFormat::Bgra8UnormSrgb, &atlas_image()).unwrap();
    let board: Board = [[None; 8]; 8];
    let pass = view.render(&board);
    assert!(pass.upload.is_empty());
    assert_eq!(pass.load, LoadOp::Load);
    assert_eq!(
        pass.draw,
        Some(DrawIndexed {
            layer: Layer::Pieces,
            first_index: 0,
            index_end: 6,
            base_vertex: 0,
            first_instance: 0,
            instance_end: 0,
        })
    );
}

#[test]
fn piece_layer_draws_one_instance_per_piece() {
    let view = PiecesView::new(TextureFormat::Bgra8UnormSrgb, &atlas_image()).unwrap();
    let mut board: Board = [[None; 8]; 8];
    board[3][4] = Some(Piece::new(Color::Black, Type::Queen));
    board[4][4] = Some(Piece::new(Color::White, Type::King));
    let pass = view.render(&board);
    assert_eq!(
        pass.upload,
        vec![
            Piece::new(Color::White, Type::King).to_raw(4, 3),
            Piece::new(Color::Black, Type::Queen).to_raw(4, 4),
        ]
    );
    assert_eq!(pass.draw.unwrap().instance_end, 2);
    assert!(pass.store);
}

#[test]
fn created_engine_is_configured_for_its_surface() {
    let view = engine();
    assert_eq!(view.size(), PhysicalSize { width: 600, height: 600 });
    assert_eq!(
        view.sc_desc,
        SwapChainDescriptor {
            format: TextureFormat::Bgra8UnormSrgb,
            width: 600,
            height: 600,
            present_mode: PresentMode::Fifo,
        }
    );
    assert_eq!(view.background, Background::new(TextureFormat::Bgra8UnormSrgb));
    assert_eq!(
        view.pieces_view,
        PiecesView::new(TextureFormat::Bgra8UnormSrgb, &atlas_image()).unwrap()
    );
    assert_eq!(view.background.pipeline.format, view.sc_desc.format);
    assert_eq!(view.pieces_view.pipeline.format, view.sc_desc.format);
}

#[test]
fn starting_position_renders_thirty_two_instances() {
    let view = engine();
    let frame = view.render(&default_board(), Ok(())).unwrap();
    assert_eq!(frame.passes.len(), 3);
    assert_eq!(frame.passes[2].upload.len(), 32);
    assert_eq!(frame.passes[2].draw.unwrap().instance_end, 32);
}

#[test]
fn frame_is_a_clear_then_background_then_pieces() {
    let view = engine();
    let board = default_board();
    let frame = view.render(&board, Ok(())).unwrap();
    assert_eq!(frame.passes.len(), 3);
    assert_eq!(frame.passes[0].load, LoadOp::Clear(ClearColor { r: 1, g: 2, b: 3, a: 10 }));
    assert!(frame.passes[0].store);
    assert!(frame.passes[0].upload.is_empty());
    assert_eq!(frame.passes[0].draw, None);
    assert_eq!(frame.passes[1], view.background.render(&board));
    assert_eq!(frame.passes[1].load, LoadOp::Load);
    assert_eq!(frame.passes[1].draw.unwrap().layer, Layer::Background);
    assert_eq!(frame.passes[2], view.pieces_view.render(&board));
    assert_eq!(frame.passes[2].load, LoadOp::Load);
    assert_eq!(frame.passes[2].draw.unwrap().layer, Layer::Pieces);
}

#[test]
fn background_is_drawn_even_without_pieces() {
    let view = engine();
    let board: Board = [[None; 8]; 8];
    let frame = view.render(&board, Ok(())).unwrap();
    assert_eq!(frame.passes.len(), 3);
    assert_eq!(frame.passes[1].draw.unwrap().instance_end, 1);
    assert_eq!(frame.passes[2].draw.unwrap().instance_end, 0);
}

#[test]
fn no_frame_without_an_image() {
    let view = engine();
    let board = default_board();
    for error in [
        SwapChainError::Timeout,
        SwapChainError::Outdated,
        SwapChainError::Lost,
        SwapChainError::OutOfMemory,
    ] {
        assert_eq!(view.render(&board, Err(error)), Err(error));
    }
}

#[test]
fn resize_to_nothing_is_clamped_to_one_pixel() {
    let mut view = engine();
    view.resize(PhysicalSize { width: 0, height: 0 });
    assert_eq!(view.sc_desc.width, 1);
    assert_eq!(view.sc_desc.height, 1);
    assert_eq!(view.size(), PhysicalSize { width: 0, height: 0 });
}

#[test]
fn resize_keeps_format_mode_and_layers() {
    let before = engine();
    let mut view = engine();
    view.resize(PhysicalSize { width: 800, height: 0 });
    assert_eq!(
        view.sc_desc,
        SwapChainDescriptor {
            format: TextureFormat::Bgra8UnormSrgb,
            width: 800,
            height: 1,
            present_mode: PresentMode::Fifo,
        }
    );
    assert_eq!(view.size(), PhysicalSize { width: 800, height: 0 });
    assert_eq!(view.background, before.background);
    assert_eq!(view.pieces_view, before.pieces_view);
}

#[test]
fn out_of_memory_ends_the_drawing() {
    let mut view = engine();
    assert_eq!(view.recover(SwapChainError::OutOfMemory), Recovery::Terminate);
    assert_eq!(view, engine());
}

#[test]
fn other_errors_are_healed_by_a_resize_to_the_current_size() {
    for error in [SwapChainError::Timeout, SwapChainError::Outdated, SwapChainError::Lost] {
        let mut view = engine();
        view.resize(PhysicalSize { width: 0, height: 300 });
        let before = view.clone();
        assert_eq!(view.recover(error), Recovery::Reconfigure);
        assert_eq!(view, before);
        assert_eq!(view.sc_desc.width, 1);
        assert_eq!(view.sc_desc.height, 300);
    }
}
