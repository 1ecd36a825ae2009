use chessboard_rs::board::{default_board, Board};
use chessboard_rs::piece::{
    board_coord_to_world, AtlasSelector, Color, Piece, PieceRaw, Transform, Type, PIECE_RAW_SIZE,
};
use chessboard_rs::pieces::{encode_board, MAX_PIECES};
use chessboard_rs::pipeline::{
    BlendFactor, BlendOperation, BlendState, CullMode, FrontFace, InputStepMode, PolygonMode,
    PrimitiveState, PrimitiveTopology, VertexAttribute, VertexFormat,
};
use chessboard_rs::quad::{index_bytes, indices, layout, vertices, VERTEX_SIZE};

fn empty() -> Board {
    [[None; 8]; 8]
}

fn occupied_cells(board: &Board) -> usize {
    board.iter().flatten().filter(|cell| cell.is_some()).count()
}

#[test]
fn new_piece_keeps_color_and_type() {
    let piece = Piece::new(Color::White, Type::Queen);
    assert_eq!(piece.color, Color::White);
    assert_eq!(piece.type_, Type::Queen);
    assert_eq!(piece, Piece { color: Color::White, type_: Type::Queen });
}

#[test]
fn type_ordinals_follow_declaration_order() {
    assert_eq!(Type::King.ordinal(), 0);
    assert_eq!(Type::Queen.ordinal(), 1);
    assert_eq!(Type::Bishop.ordinal(), 2);
    assert_eq!(Type::Knight.ordinal(), 3);
    assert_eq!(Type::Rook.ordinal(), 4);
    assert_eq!(Type::Pawn.ordinal(), 5);
}

#[test]
fn color_ordinals_follow_declaration_order() {
    assert_eq!(Color::Black.ordinal(), 0);
    assert_eq!(Color::White.ordinal(), 1);
}

#[test]
fn world_coordinate_of_first_and_last_cell() {
    assert_eq!(board_coord_to_world(0), -7);
    assert_eq!(board_coord_to_world(7), 7);
    assert_eq!(f32::from(board_coord_to_world(0)) / 8.0, -0.875);
    assert_eq!(f32::from(board_coord_to_world(7)) / 8.0, 0.875);
}

#[test]
fn world_coordinate_matches_the_float_formula() {
    for c in 0..8usize {
        let expected = ((c as f32 + 0.5) / 8.0 * 2.0) - 1.0;
        assert_eq!(f32::from(board_coord_to_world(c)) / 8.0, expected);
    }
}

#[test]
fn world_coordinates_are_a_quarter_apart_and_distinct() {
    for c in 0..7usize {
        let here = board_coord_to_world(c);
        let next = board_coord_to_world(c + 1);
        assert_eq!(next - here, 2);
        assert_eq!(f32::from(next - here) / 8.0, 0.25);
    }
    for a in 0..8usize {
        for b in 0..8usize {
            if a != b {
                assert_ne!(board_coord_to_world(a), board_coord_to_world(b));
            }
        }
        assert!(board_coord_to_world(a) > -8 && board_coord_to_world(a) < 8);
    }
}

#[test]
fn scaling_then_translation_moves_only_the_last_column() {
    let scaled = Transform::new_scaling(1);
    assert_eq!(
        scaled,
        Transform {
            m11: 1, m12: 0, m13: 0, m14: 0,
            m21: 0, m22: 1, m23: 0, m24: 0,
            m31: 0, m32: 0, m33: 1, m34: 0,
            m41: 0, m42: 0, m43: 0, m44: 8,
        }
    );
    let moved = scaled.append_translation(-3, 5, 0);
    assert_eq!(
        moved,
        Transform {
            m11: 1, m12: 0, m13: 0, m14: -3,
            m21: 0, m22: 1, m23: 0, m24: 5,
            m31: 0, m32: 0, m33: 1, m34: 0,
            m41: 0, m42: 0, m43: 0, m44: 8,
        }
    );
}

#[test]
fn white_knight_on_its_start_square_selects_the_knight_sprite() {
    let raw = Piece::new(Color::White, Type::Knight).to_raw(1, 7);
    assert_eq!(raw.types, AtlasSelector { column: Type::Knight.ordinal(), row: Color::White.ordinal() });
    assert_eq!(raw.types, AtlasSelector { column: 3, row: 1 });
    assert_eq!(raw.position.m14, -5);
    assert_eq!(raw.position.m24, 7);
    assert_eq!(raw.position.m11, 1);
    assert_eq!(raw.position.m44, 8);
}

#[test]
fn instance_layout_has_four_columns_and_a_selector() {
    let desc = PieceRaw::desc();
    assert_eq!(desc.array_stride, 68);
    assert_eq!(desc.array_stride, PIECE_RAW_SIZE);
    assert_eq!(desc.step_mode, InputStepMode::Instance);
    assert_eq!(
        desc.attributes,
        vec![
            VertexAttribute { offset: 0, shader_location: 2, format: VertexFormat::Float4 },
            VertexAttribute { offset: 16, shader_location: 3, format: VertexFormat::Float4 },
            VertexAttribute { offset: 32, shader_location: 4, format: VertexFormat::Float4 },
            VertexAttribute { offset: 48, shader_location: 5, format: VertexFormat::Float4 },
            VertexAttribute { offset: 64, shader_location: 6, format: VertexFormat::Ushort2 },
        ]
    );
}

#[test]
fn layouts_are_packed() {
    for layout in [layout(), PieceRaw::desc()] {
        let mut end = 0u64;
        for attribute in &layout.attributes {
            assert_eq!(attribute.offset, end);
            end += attribute.format.size();
        }
        assert_eq!(end, layout.array_stride);
    }
}

#[test]
fn vertex_format_sizes() {
    assert_eq!(VertexFormat::Float2.size(), 8);
    assert_eq!(VertexFormat::Float4.size(), 16);
    assert_eq!(VertexFormat::Ushort2.size(), 4);
}

#[test]
fn quad_has_the_four_corners_in_order() {
    let corners = vertices();
    let flat: Vec<(i8, i8, u8, u8)> = corners
        .iter()
        .map(|v| (v.position.x, v.position.y, v.tex_coord.u, v.tex_coord.v))
        .collect();
    assert_eq!(flat, vec![(-1, 1, 0, 1), (-1, -1, 0, 0), (1, -1, 1, 0), (1, 1, 1, 1)]);
}

#[test]
fn quad_indices_form_two_front_facing_triangles() {
    let list = indices();
    assert_eq!(list, [0, 1, 2, 2, 3, 0]);
    let corners = vertices();
    for triangle in list.chunks(3) {
        let a = corners[usize::from(triangle[0])].position;
        let b = corners[usize::from(triangle[1])].position;
        let c = corners[usize::from(triangle[2])].position;
        let winding = i32::from(b.x - a.x) * i32::from(c.y - a.y)
            - i32::from(c.x - a.x) * i32::from(b.y - a.y);
        assert_eq!(winding, 4);
    }
}

#[test]
fn quad_layout_has_position_and_texture_coordinate() {
    let quad = layout();
    assert_eq!(quad.array_stride, 16);
    assert_eq!(quad.array_stride, VERTEX_SIZE);
    assert_eq!(quad.step_mode, InputStepMode::Vertex);
    assert_eq!(
        quad.attributes,
        vec![
            VertexAttribute { offset: 0, shader_location: 0, format: VertexFormat::Float2 },
            VertexAttribute { offset: 8, shader_location: 1, format: VertexFormat::Float2 },
        ]
    );
}

#[test]
fn index_bytes_are_the_indices_in_machine_byte_order() {
    let mut expected: Vec<u8> = Vec::new();
    for index in indices() {
        expected.extend_from_slice(&index.to_ne_bytes());
    }
    let bytes = index_bytes();
    assert_eq!(bytes.len(), 12);
    assert_eq!(bytes, expected);
    let low_first = vec![0u8, 0, 1, 0, 2, 0, 2, 0, 3, 0, 0, 0];
    let high_first = vec![0u8, 0, 0, 1, 0, 2, 0, 2, 0, 3, 0, 0];
    assert!(bytes == low_first || bytes == high_first);
}

#[test]
fn blend_states() {
    assert_eq!(
        BlendState::replace(),
        BlendState {
            src_factor: BlendFactor::One,
            dst_factor: BlendFactor::Zero,
            operation: BlendOperation::Add,
        }
    );
    assert_eq!(
        BlendState::alpha_over(),
        BlendState {
            src_factor: BlendFactor::SrcAlpha,
            dst_factor: BlendFactor::OneMinusSrcAlpha,
            operation: BlendOperation::Add,
        }
    );
}

#[test]
fn primitive_state_is_solid_culled_triangles() {
    assert_eq!(
        PrimitiveState::solid_triangles(),
        PrimitiveState {
            topology: PrimitiveTopology::TriangleList,
            front_face: FrontFace::Ccw,
            cull_mode: CullMode::Back,
            polygon_mode: PolygonMode::Fill,
        }
    );
}

#[test]
fn default_board_is_the_starting_position() {
    let board = default_board();
    let back = [
        Type::Rook,
        Type::Knight,
        Type::Bishop,
        Type::Queen,
        Type::King,
        Type::Bishop,
        Type::Knight,
        Type::Rook,
    ];
    for file in 0..8 {
        assert_eq!(board[0][file], Some(Piece::new(Color::Black, back[file])));
        assert_eq!(board[1][file], Some(Piece::new(Color::Black, Type::Pawn)));
        for row in 2..6 {
            assert_eq!(board[row][file], None);
        }
        assert_eq!(board[6][file], Some(Piece::new(Color::White, Type::Pawn)));
        assert_eq!(board[7][file], Some(Piece::new(Color::White, back[file])));
    }
}

#[test]
fn empty_board_encodes_to_nothing() {
    assert_eq!(encode_board(&empty()), Vec::<PieceRaw>::new());
}

#[test]
fn default_board_encodes_to_thirty_two_records() {
    let records = encode_board(&default_board());
    assert_eq!(records.len(), 32);
    assert_eq!(records.len(), occupied_cells(&default_board()));
}

#[test]
fn stored_row_seven_is_drawn_first() {
    let records = encode_board(&default_board());
    assert_eq!(records[0], Piece::new(Color::White, Type::Rook).to_raw(0, 0));
    assert_eq!(records[1], Piece::new(Color::White, Type::Knight).to_raw(1, 0));
    assert_eq!(records[8], Piece::new(Color::White, Type::Pawn).to_raw(0, 1));
    assert_eq!(records[16], Piece::new(Color::Black, Type::Pawn).to_raw(0, 6));
    assert_eq!(records[31], Piece::new(Color::Black, Type::Rook).to_raw(7, 7));
}

#[test]
fn single_piece_lands_on_the_mirrored_row() {
    let mut board = empty();
    board[7][1] = Some(Piece::new(Color::White, Type::Knight));
    let records = encode_board(&board);
    assert_eq!(records.len(), 1);
    assert_eq!(records[0].types, AtlasSelector { column: 3, row: 1 });
    assert_eq!(records[0].position.m14, -5);
    assert_eq!(records[0].position.m24, -7);

    let mut board = empty();
    board[0][1] = Some(Piece::new(Color::Black, Type::Knight));
    let records = encode_board(&board);
    assert_eq!(records, vec![Piece::new(Color::Black, Type::Knight).to_raw(1, 7)]);
    assert_eq!(records[0].position.m24, 7);
}

#[test]
fn every_record_carries_the_selector_of_its_piece() {
    let board = default_board();
    let records = encode_board(&board);
    let mut next = 0;
    for y in 0..8 {
        for x in 0..8 {
            if let Some(piece) = board[7 - y][x] {
                assert_eq!(records[next].types.column, piece.type_.ordinal());
                assert_eq!(records[next].types.row, piece.color.ordinal());
                assert_eq!(records[next], piece.to_raw(x, y));
                next += 1;
            }
        }
    }
    assert_eq!(next, records.len());
}

#[test]
fn encoding_twice_gives_the_same_records() {
    let board = default_board();
    assert_eq!(encode_board(&board), encode_board(&board));
    let copy = board;
    assert_eq!(encode_board(&board), encode_board(&copy));
}

#[test]
fn full_board_fills_the_instance_buffer_exactly() {
    let board: Board = [[Some(Piece::new(Color::Black, Type::Pawn)); 8]; 8];
    let records = encode_board(&board);
    assert_eq!(records.len(), 64);
    assert_eq!(records.len() as u64, MAX_PIECES);
    assert_eq!(records[63], Piece::new(Color::Black, Type::Pawn).to_raw(7, 7));
}

#[test]
fn record_count_equals_occupied_cells_on_sparse_boards() {
    let mut board = empty();
    let mut placed = 0;
    for k in [0usize, 5, 9, 18, 27, 36, 45, 54, 63] {
        board[k / 8][k % 8] = Some(Piece::new(Color::White, Type::Bishop));
        placed += 1;
        assert_eq!(encode_board(&board).len(), placed);
        assert_eq!(encode_board(&board).len(), occupied_cells(&board));
    }
}
