use draughts::rules::board::{Board, GameResult, Side};
use draughts::rules::moves::{Move, MoveFlags};
use draughts::rules::zobrist::{
    keys, of_position, plane_of, toggle_piece, toggle_side, PLANES, TABLE_FINGERPRINT,
};
use draughts::rules::SQUARES;
use draughts::CURRENT_FORMAT_VERSION;

#[test]
fn the_opening_position_has_twelve_men_a_side() {
    let board = Board::initial();
    assert_eq!(board.black_men.count_ones(), 12);
    assert_eq!(board.white_men.count_ones(), 12);
    assert_eq!(board.black_kings, 0);
    assert_eq!(board.white_kings, 0);
    assert_eq!(board.material_difference(Side::Black), 0);
}

#[test]
fn the_board_blob_round_trips() {
    let board = Board {
        black_men: 0x0123_4567,
        white_men: 0x89AB_CDEF,
        black_kings: 0x0000_00FF,
        white_kings: 0xFF00_0000,
    };
    assert_eq!(
        Board::from_bytes(&board.to_bytes(), CURRENT_FORMAT_VERSION),
        Some(board)
    );
}

#[test]
fn an_unrecognized_format_version_does_not_decode() {
    let board = Board::initial();
    assert_eq!(Board::from_bytes(&board.to_bytes(), 999), None);
}

#[test]
fn the_board_blob_is_exactly_sixteen_bytes() {
    assert_eq!(Board::initial().to_bytes().len(), 16);
}

#[test]
fn the_board_blob_is_little_endian_in_field_order() {
    let board = Board {
        black_men: 0x0403_0201,
        white_men: 0x0807_0605,
        black_kings: 0x0C0B_0A09,
        white_kings: 0x100F_0E0D,
    };
    let bytes = board.to_bytes();
    for (index, byte) in bytes.iter().enumerate() {
        assert_eq!(*byte as usize, index + 1);
    }
}

#[test]
fn a_king_counts_as_two_men() {
    let board = Board {
        black_men: 0b111,
        white_men: 0b1,
        black_kings: 0,
        white_kings: 1 << 31,
    };
    assert_eq!(board.material_difference(Side::Black), 0);
    let promoted = Board {
        black_kings: 1 << 30,
        ..board
    };
    assert_eq!(promoted.material_difference(Side::Black), 2);
    assert_eq!(promoted.material_difference(Side::White), -2);
    assert_eq!(board.occupied(), 0b111 | (1 << 31));
    assert_eq!(board.pieces_of(Side::White), 0b1 | (1 << 31));
}

#[test]
fn side_codes_and_results_are_the_persisted_ones() {
    assert_eq!(Side::Black.as_i64(), 0);
    assert_eq!(Side::White.as_i64(), 1);
    assert_eq!(Side::Black.opponent(), Side::White);
    assert_eq!(GameResult::Draw.as_i64(), 3);
}

#[test]
fn the_packed_move_round_trips_over_every_square_pair() {
    for from in 0..32u8 {
        for to in 0..32u8 {
            let mv = Move {
                from,
                to,
                flags: MoveFlags::capture().union(MoveFlags::promotion()),
            };
            assert_eq!(Move::from_u16(mv.to_u16()), mv);
        }
    }
}

#[test]
fn flags_survive_the_round_trip_independently() {
    for flags in [
        MoveFlags::none(),
        MoveFlags::capture(),
        MoveFlags::multi_jump(),
        MoveFlags::promotion(),
        MoveFlags::capture().union(MoveFlags::multi_jump()),
    ] {
        let mv = Move {
            from: 5,
            to: 14,
            flags,
        };
        assert_eq!(Move::from_u16(mv.to_u16()).flags, flags);
    }
}

#[test]
fn unknown_flag_bits_are_dropped() {
    let flags = MoveFlags::from_bits_truncate(0xFF);
    assert_eq!(flags.bits(), 0b111);
    assert!(flags.contains(MoveFlags::capture()));
    assert!(!MoveFlags::none().contains(MoveFlags::capture()));
}

#[test]
fn the_packed_move_layout_is_from_to_flags() {
    let mv = Move {
        from: 3,
        to: 9,
        flags: MoveFlags::capture(),
    };
    assert_eq!(mv.to_u16(), 3 | (9 << 5) | (1 << 10));
    assert!(mv.is_capture());
}

#[test]
fn the_key_table_is_stable_across_builds() {
    assert_eq!(
        keys().fingerprint(),
        TABLE_FINGERPRINT,
        "the Zobrist key table changed; a format_version bump is needed first"
    );
}

#[test]
fn every_key_is_distinct() {
    let table = keys();
    let mut seen = std::collections::HashSet::new();
    for plane in 0..PLANES {
        for square in 0..SQUARES {
            assert!(seen.insert(table.piece(plane, square)), "duplicate key");
        }
    }
    assert!(seen.insert(table.side_to_move()));
}

#[test]
fn side_to_move_is_folded_into_the_hash() {
    let board = Board::initial();
    assert_ne!(
        of_position(&board, Side::Black),
        of_position(&board, Side::White),
        "two positions differing only in side to move must not collide"
    );
}

#[test]
fn toggling_a_piece_twice_is_the_identity() {
    let hash = of_position(&Board::initial(), Side::Black);
    assert_eq!(toggle_piece(toggle_piece(hash, 0, 17), 0, 17), hash);
    assert_eq!(toggle_side(toggle_side(hash)), hash);
}

#[test]
fn incremental_update_agrees_with_full_recomputation() {
    let mut board = Board::initial();
    let mut hash = of_position(&board, Side::Black);

    board.black_men &= !(1 << 8);
    hash = toggle_piece(hash, plane_of(Side::Black, false), 8);
    board.black_men |= 1 << 13;
    hash = toggle_piece(hash, plane_of(Side::Black, false), 13);
    hash = toggle_side(hash);

    assert_eq!(hash, of_position(&board, Side::White));
}

#[test]
fn the_empty_board_with_black_to_move_hashes_to_zero() {
    assert_eq!(of_position(&Board::default(), Side::Black), 0);
    assert_eq!(
        of_position(&Board::default(), Side::White),
        keys().side_to_move()
    );
}
