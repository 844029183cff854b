use chess_state::def::{
    BK, BN, BP, BQ, BR, MOV_CAS, MOV_CR_ENP, MOV_ENP, MOV_PROMO, MOV_REG, PLAYER_B, PLAYER_W, WB,
    WK, WN, WP, WQ, WR,
};
use chess_state::moves::MoveError;
use chess_state::state::State;
use chess_state::util::map_sqr_notation_to_index;

const START: &str = "rnbqkbnr/pppppppp/8/8/8/8/PPPPPPPP/RNBQKBNR w KQkq - 0 1";

type Scalars = (u8, u8, usize, u16, usize, usize);

type Stacks = (
    Vec<u8>,
    Vec<usize>,
    Vec<u8>,
    Vec<(usize, usize, u8, u8)>,
    Vec<u16>,
    Vec<usize>,
    Vec<usize>,
);

fn sq(notation: &str) -> usize {
    map_sqr_notation_to_index(notation).unwrap()
}

fn scalars(state: &State) -> Scalars {
    (
        state.player,
        state.cas_rights,
        state.enp_square,
        state.non_cap_mov_count,
        state.wk_index,
        state.bk_index,
    )
}

fn stacks(state: &State) -> Stacks {
    (
        state.taken_piece_stack.clone(),
        state.enp_sqr_stack.clone(),
        state.cas_rights_stack.clone(),
        state.history_mov_stack.clone(),
        state.non_cap_mov_count_stack.clone(),
        state.wk_index_stack.clone(),
        state.bk_index_stack.clone(),
    )
}

fn whole(state: &State) -> (Vec<u8>, Scalars, Stacks) {
    (state.squares.to_vec(), scalars(state), stacks(state))
}

fn assert_round_trip(fen: &str, from: &str, to: &str, kind: u8, promo: u8) {
    let mut state = State::new(fen).unwrap();
    let before = whole(&state);
    assert_eq!(Ok(()), state.do_mov(sq(from), sq(to), kind, promo));
    assert_ne!(before, whole(&state));
    assert_eq!(Ok(()), state.undo_mov(sq(from), sq(to), kind));
    assert_eq!(before, whole(&state));
}

#[test]
fn test_round_trip_regular() {
    assert_round_trip(START, "g1", "f3", MOV_REG, 0);
    assert_round_trip("r3k2r/8/8/8/8/8/8/R3K2R w KQkq e6 7 9", "e1", "e2", MOV_REG, 0);
    assert_round_trip("r3k2r/8/8/8/8/8/8/R3K2R b KQkq - 7 9", "h8", "h1", MOV_REG, 0);
}

#[test]
fn test_round_trip_capture() {
    assert_round_trip("4k3/8/8/3p4/4P3/8/8/4K3 w - - 0 1", "e4", "d5", MOV_REG, 0);
    assert_round_trip("r3k2r/8/8/8/8/8/8/R3K2R w KQkq - 0 1", "a1", "a8", MOV_REG, 0);
}

#[test]
fn test_round_trip_promotion() {
    assert_round_trip("4k3/P7/8/8/8/8/8/4K3 w - - 0 1", "a7", "a8", MOV_PROMO, WQ);
    assert_round_trip("1n2k3/P7/8/8/8/8/8/4K3 w - - 0 1", "a7", "b8", MOV_PROMO, WN);
    assert_round_trip("4k3/8/8/8/8/8/p7/1N2K3 b - - 0 1", "a2", "b1", MOV_PROMO, BQ);
}

#[test]
fn test_round_trip_castle() {
    let fen_w = "r3k2r/pppppppp/8/8/8/8/PPPPPPPP/R3K2R w KQkq - 0 1";
    let fen_b = "r3k2r/pppppppp/8/8/8/8/PPPPPPPP/R3K2R b KQkq - 0 1";
    assert_round_trip(fen_w, "e1", "g1", MOV_CAS, 0);
    assert_round_trip(fen_w, "e1", "c1", MOV_CAS, 0);
    assert_round_trip(fen_b, "e8", "g8", MOV_CAS, 0);
    assert_round_trip(fen_b, "e8", "c8", MOV_CAS, 0);
}

#[test]
fn test_round_trip_en_passant() {
    assert_round_trip(
        "r1bqkbnr/ppp1p1pp/2n5/3pPp2/3P4/8/PPP2PPP/RNBQKBNR w KQkq f6 0 1",
        "e5",
        "f6",
        MOV_ENP,
        0,
    );
    assert_round_trip("4k3/8/8/8/3pP3/8/8/4K3 b - e3 0 1", "d4", "e3", MOV_ENP, 0);
}

#[test]
fn test_round_trip_double_push() {
    assert_round_trip(START, "e2", "e4", MOV_CR_ENP, 0);
    assert_round_trip("rnbqkbnr/pppppppp/8/8/4P3/8/PPPP1PPP/RNBQKBNR b KQkq e3 0 1", "c7", "c5", MOV_CR_ENP, 0);
}

#[test]
fn test_round_trip_of_a_line_of_moves() {
    let mut state = State::new(START).unwrap();
    let before = whole(&state);
    let line = [
        ("e2", "e4", MOV_CR_ENP),
        ("d7", "d5", MOV_CR_ENP),
        ("e4", "d5", MOV_REG),
        ("d8", "d5", MOV_REG),
        ("g1", "f3", MOV_REG),
        ("c8", "g4", MOV_REG),
        ("f1", "e2", MOV_REG),
        ("b8", "c6", MOV_REG),
        ("e1", "g1", MOV_CAS),
        ("e8", "c8", MOV_CAS),
    ];
    for (from, to, kind) in line {
        assert_eq!(Ok(()), state.do_mov(sq(from), sq(to), kind, 0));
    }
    assert_eq!(10, state.history_mov_stack.len());
    assert_eq!(10, state.taken_piece_stack.len());
    assert_eq!(0b0000, state.cas_rights);
    assert_eq!(sq("g1"), state.wk_index);
    assert_eq!(sq("c8"), state.bk_index);
    for (from, to, kind) in line.iter().rev() {
        assert_eq!(Ok(()), state.undo_mov(sq(from), sq(to), *kind));
    }
    assert_eq!(before, whole(&state));
}

#[test]
fn test_every_move_pushes_one_entry_on_every_stack() {
    let cases = [
        (START, "g1", "f3", MOV_REG, 0),
        ("4k3/P7/8/8/8/8/8/4K3 w - - 0 1", "a7", "a8", MOV_PROMO, WQ),
        ("r3k2r/8/8/8/8/8/8/R3K2R w KQkq - 0 1", "e1", "g1", MOV_CAS, 0),
        ("4k3/8/8/3pP3/8/8/8/4K3 w - d6 0 1", "e5", "d6", MOV_ENP, 0),
        (START, "e2", "e4", MOV_CR_ENP, 0),
    ];
    for (fen, from, to, kind, promo) in cases {
        let mut state = State::new(fen).unwrap();
        state.do_mov(sq(from), sq(to), kind, promo).unwrap();
        assert_eq!(1, state.taken_piece_stack.len());
        assert_eq!(1, state.enp_sqr_stack.len());
        assert_eq!(1, state.cas_rights_stack.len());
        assert_eq!(1, state.history_mov_stack.len());
        assert_eq!(1, state.non_cap_mov_count_stack.len());
        assert_eq!(1, state.wk_index_stack.len());
        assert_eq!(1, state.bk_index_stack.len());
    }
}

#[test]
fn test_regular_move_records() {
    let mut state = State::new("4k3/8/8/3p4/4P3/8/8/4K3 w - - 0 1").unwrap();
    state.non_cap_mov_count = 12;
    state.do_mov(sq("e4"), sq("d5"), MOV_REG, 0).unwrap();
    assert_eq!(WP, state.squares[sq("d5")]);
    assert_eq!(0, state.squares[sq("e4")]);
    assert_eq!(vec![BP], state.taken_piece_stack);
    assert_eq!(vec![(sq("e4"), sq("d5"), WP, BP)], state.history_mov_stack);
    assert_eq!(vec![12], state.non_cap_mov_count_stack);
    assert_eq!(vec![0], state.enp_sqr_stack);
    assert_eq!(vec![0], state.cas_rights_stack);
    assert_eq!(vec![sq("e1")], state.wk_index_stack);
    assert_eq!(vec![sq("e8")], state.bk_index_stack);
    assert_eq!(0, state.non_cap_mov_count);
    assert_eq!(PLAYER_B, state.player);
}

#[test]
fn test_king_move_updates_cache() {
    let mut state = State::new("4k3/8/8/8/8/8/8/4K3 w - - 0 1").unwrap();
    state.do_mov(sq("e1"), sq("d2"), MOV_REG, 0).unwrap();
    assert_eq!(sq("d2"), state.wk_index);
    assert_eq!(sq("e8"), state.bk_index);
    state.do_mov(sq("e8"), sq("f7"), MOV_REG, 0).unwrap();
    assert_eq!(sq("d2"), state.wk_index);
    assert_eq!(sq("f7"), state.bk_index);
    state.undo_mov(sq("e8"), sq("f7"), MOV_REG).unwrap();
    state.undo_mov(sq("e1"), sq("d2"), MOV_REG).unwrap();
    assert_eq!(sq("e1"), state.wk_index);
    assert_eq!(sq("e8"), state.bk_index);
}

#[test]
fn test_double_push_sets_target_behind_destination() {
    let mut state = State::new(START).unwrap();
    state.do_mov(sq("e2"), sq("e4"), MOV_CR_ENP, 0).unwrap();
    assert_eq!(sq("e3"), state.enp_square);
    assert_eq!(sq("e4") - 16, state.enp_square);
    assert_eq!(WP, state.squares[sq("e4")]);
    assert_eq!(0, state.squares[sq("e2")]);
    assert_eq!(1, state.non_cap_mov_count);

    state.do_mov(sq("c7"), sq("c5"), MOV_CR_ENP, 0).unwrap();
    assert_eq!(sq("c6"), state.enp_square);
    assert_eq!(sq("c5") + 16, state.enp_square);
    assert_eq!(2, state.non_cap_mov_count);
}

#[test]
fn test_target_is_cleared_by_the_next_move_of_any_kind() {
    let next = [
        ("rnbqkbnr/pppp1ppp/8/4p3/8/8/PPPPPPPP/RNBQKBNR w KQkq e6 0 1", "g1", "f3", MOV_REG, 0),
        ("4k3/P7/8/8/8/8/8/4K3 w - e6 0 1", "a7", "a8", MOV_PROMO, WQ),
        ("r3k2r/8/8/8/8/8/8/R3K2R w KQkq e6 0 1", "e1", "g1", MOV_CAS, 0),
        ("4k3/8/8/3pP3/8/8/8/4K3 w - d6 0 1", "e5", "d6", MOV_ENP, 0),
    ];
    for (fen, from, to, kind, promo) in next {
        let mut state = State::new(fen).unwrap();
        assert_ne!(0, state.enp_square);
        state.do_mov(sq(from), sq(to), kind, promo).unwrap();
        assert_eq!(0, state.enp_square);
    }
    let mut state = State::new("4k3/8/8/3pP3/8/8/8/4K3 w - d6 0 1").unwrap();
    state.do_null_mov();
    assert_eq!(0, state.enp_square);
}

#[test]
fn test_king_leaving_home_clears_both_rights() {
    let mut state = State::new("r3k2r/8/8/8/8/8/8/R3K2R w KQkq - 0 1").unwrap();
    state.do_mov(sq("e1"), sq("e2"), MOV_REG, 0).unwrap();
    assert_eq!(0b0011, state.cas_rights);
    state.do_mov(sq("e8"), sq("d8"), MOV_REG, 0).unwrap();
    assert_eq!(0b0000, state.cas_rights);
    state.do_mov(sq("e2"), sq("e1"), MOV_REG, 0).unwrap();
    state.do_mov(sq("d8"), sq("e8"), MOV_REG, 0).unwrap();
    assert_eq!(0b0000, state.cas_rights);
    state.undo_mov(sq("d8"), sq("e8"), MOV_REG).unwrap();
    state.undo_mov(sq("e2"), sq("e1"), MOV_REG).unwrap();
    state.undo_mov(sq("e8"), sq("d8"), MOV_REG).unwrap();
    assert_eq!(0b0011, state.cas_rights);
    state.undo_mov(sq("e1"), sq("e2"), MOV_REG).unwrap();
    assert_eq!(0b1111, state.cas_rights);
}

#[test]
fn test_rook_leaving_corner_clears_one_right() {
    let fen_w = "r3k2r/8/8/8/8/8/8/R3K2R w KQkq - 0 1";
    let fen_b = "r3k2r/8/8/8/8/8/8/R3K2R b KQkq - 0 1";
    let cases = [
        (fen_w, "a1", "a2", 0b1011),
        (fen_w, "h1", "h2", 0b0111),
        (fen_b, "a8", "a7", 0b1110),
        (fen_b, "h8", "h7", 0b1101),
    ];
    for (fen, from, to, expected) in cases {
        let mut state = State::new(fen).unwrap();
        state.do_mov(sq(from), sq(to), MOV_REG, 0).unwrap();
        assert_eq!(expected, state.cas_rights);
        state.undo_mov(sq(from), sq(to), MOV_REG).unwrap();
        assert_eq!(0b1111, state.cas_rights);
    }
}

#[test]
fn test_other_pieces_and_squares_keep_the_rights() {
    let mut state = State::new("r3k2r/8/8/8/8/8/R7/R3K2R w KQkq - 0 1").unwrap();
    state.do_mov(sq("a2"), sq("a3"), MOV_REG, 0).unwrap();
    assert_eq!(0b1111, state.cas_rights);
}

#[test]
fn test_taking_a_rook_on_its_corner_keeps_the_right() {
    let mut state = State::new("r3k2r/8/8/8/8/8/6B1/4K3 w kq - 0 1").unwrap();
    state.do_mov(sq("g2"), sq("a8"), MOV_REG, 0).unwrap();
    assert_eq!(WB, state.squares[sq("a8")]);
    assert_eq!(0b0011, state.cas_rights);
}

#[test]
fn test_castle_moves_king_and_rook() {
    let fen_w = "r3k2r/8/8/8/8/8/8/R3K2R w KQkq - 5 1";
    let fen_b = "r3k2r/8/8/8/8/8/8/R3K2R b KQkq - 5 1";
    let cases = [
        (fen_w, "e1", "g1", "h1", "f1", WK, WR, 0b0011),
        (fen_w, "e1", "c1", "a1", "d1", WK, WR, 0b0011),
        (fen_b, "e8", "g8", "h8", "f8", BK, BR, 0b1100),
        (fen_b, "e8", "c8", "a8", "d8", BK, BR, 0b1100),
    ];
    for (fen, king_from, king_to, rook_from, rook_to, king, rook, rights) in cases {
        let mut state = State::new(fen).unwrap();
        state.non_cap_mov_count = 5;
        state.do_mov(sq(king_from), sq(king_to), MOV_CAS, 0).unwrap();
        assert_eq!(king, state.squares[sq(king_to)]);
        assert_eq!(rook, state.squares[sq(rook_to)]);
        assert_eq!(0, state.squares[sq(king_from)]);
        assert_eq!(0, state.squares[sq(rook_from)]);
        assert_eq!(rights, state.cas_rights);
        assert_eq!(0, state.non_cap_mov_count);
        assert_eq!(vec![0], state.taken_piece_stack);
        if king == WK {
            assert_eq!(sq(king_to), state.wk_index);
            assert_eq!(sq("e8"), state.bk_index);
        } else {
            assert_eq!(sq(king_to), state.bk_index);
            assert_eq!(sq("e1"), state.wk_index);
        }
    }
}

#[test]
fn test_castle_to_another_square_moves_nothing() {
    let mut state = State::new("r3k2r/8/8/8/8/8/8/R3K2R w KQkq e6 5 1").unwrap();
    state.non_cap_mov_count = 5;
    let board = state.squares;
    state.do_mov(sq("e1"), sq("e2"), MOV_CAS, 0).unwrap();
    assert_eq!(board, state.squares);
    assert_eq!(0b1111, state.cas_rights);
    assert_eq!(sq("e1"), state.wk_index);
    assert_eq!(0, state.non_cap_mov_count);
    assert_eq!(0, state.enp_square);
    assert_eq!(PLAYER_B, state.player);
    state.undo_mov(sq("e1"), sq("e2"), MOV_CAS).unwrap();
    assert_eq!(board, state.squares);
    assert_eq!(5, state.non_cap_mov_count);
    assert_eq!(sq("e6"), state.enp_square);
}

#[test]
fn test_castle_from_the_start_position() {
    let mut state = State::new(START).unwrap();
    assert_eq!(0b1111, state.cas_rights);
    assert_eq!(0, state.enp_square);
    assert_eq!(PLAYER_W, state.player);
    let before = whole(&state);

    state.do_mov(sq("e1"), sq("g1"), MOV_CAS, 0).unwrap();
    assert_eq!(WK, state.squares[sq("g1")]);
    assert_eq!(WR, state.squares[sq("f1")]);
    assert_eq!(0, state.squares[sq("e1")]);
    assert_eq!(0, state.squares[sq("h1")]);
    assert_eq!(sq("e1") + 2, state.wk_index);
    assert_eq!(0b0011, state.cas_rights);
    assert_eq!(PLAYER_B, state.player);

    state.undo_mov(sq("e1"), sq("g1"), MOV_CAS).unwrap();
    assert_eq!(before.1, scalars(&state));
    assert_eq!(before.2, stacks(&state));
    assert_eq!(WK, state.squares[sq("e1")]);
    assert_eq!(WR, state.squares[sq("h1")]);
    for index in 0..120 {
        if index != sq("f1") && index != sq("g1") {
            assert_eq!(before.0[index], state.squares[index], "cell {}", index);
        }
    }
    assert_eq!(0, state.squares[sq("f1")]);
    assert_eq!(0, state.squares[sq("g1")]);
}

#[test]
fn test_castle_with_a_clear_path_returns_to_the_exact_position() {
    let mut state = State::new("rnbqkbnr/pppppppp/8/8/8/8/PPPPPPPP/RNBQK2R w KQkq - 0 1").unwrap();
    let before = whole(&state);
    state.do_mov(sq("e1"), sq("g1"), MOV_CAS, 0).unwrap();
    assert_eq!(WK, state.squares[sq("g1")]);
    assert_eq!(WR, state.squares[sq("f1")]);
    assert_eq!(0b0011, state.cas_rights);
    state.undo_mov(sq("e1"), sq("g1"), MOV_CAS).unwrap();
    assert_eq!(before, whole(&state));
}

#[test]
fn test_en_passant_takes_the_pawn_behind_the_target() {
    let mut state = State::new("4k3/8/8/3pP3/8/8/8/4K3 w - d6 3 1").unwrap();
    state.non_cap_mov_count = 3;
    state.do_mov(sq("e5"), sq("d6"), MOV_ENP, 0).unwrap();
    assert_eq!(WP, state.squares[sq("d6")]);
    assert_eq!(0, state.squares[sq("d5")]);
    assert_eq!(0, state.squares[sq("e5")]);
    assert_eq!(vec![BP], state.taken_piece_stack);
    assert_eq!(0, state.non_cap_mov_count);

    let mut state = State::new("4k3/8/8/8/3pP3/8/8/4K3 b - e3 3 1").unwrap();
    state.do_mov(sq("d4"), sq("e3"), MOV_ENP, 0).unwrap();
    assert_eq!(BP, state.squares[sq("e3")]);
    assert_eq!(0, state.squares[sq("e4")]);
    assert_eq!(0, state.squares[sq("d4")]);
    assert_eq!(vec![WP], state.taken_piece_stack);
}

#[test]
fn test_promotion_places_the_piece_and_comes_back_as_a_pawn() {
    let mut state = State::new("1n2k3/P7/8/8/8/8/8/4K3 w - - 0 1").unwrap();
    state.do_mov(sq("a7"), sq("b8"), MOV_PROMO, WN).unwrap();
    assert_eq!(WN, state.squares[sq("b8")]);
    assert_eq!(0, state.squares[sq("a7")]);
    assert_eq!(vec![BN], state.taken_piece_stack);
    state.undo_mov(sq("a7"), sq("b8"), MOV_PROMO).unwrap();
    assert_eq!(BN, state.squares[sq("b8")]);
    assert_eq!(WP, state.squares[sq("a7")]);
}

#[test]
fn test_ply_counter() {
    let mut state = State::new("r3k2r/1P6/8/3pP3/8/8/P7/R3K2R w KQkq d6 0 1").unwrap();
    state.non_cap_mov_count = 40;
    state.do_mov(sq("a1"), sq("b1"), MOV_REG, 0).unwrap();
    assert_eq!(41, state.non_cap_mov_count);
    state.undo_mov(sq("a1"), sq("b1"), MOV_REG).unwrap();
    assert_eq!(40, state.non_cap_mov_count);

    state.do_mov(sq("a2"), sq("a4"), MOV_CR_ENP, 0).unwrap();
    assert_eq!(41, state.non_cap_mov_count);
    state.undo_mov(sq("a2"), sq("a4"), MOV_CR_ENP).unwrap();

    state.do_mov(sq("a1"), sq("a8"), MOV_REG, 0).unwrap();
    assert_eq!(WR, state.squares[sq("a8")]);
    assert_eq!(0, state.non_cap_mov_count);
    state.undo_mov(sq("a1"), sq("a8"), MOV_REG).unwrap();
    assert_eq!(40, state.non_cap_mov_count);

    state.do_mov(sq("b7"), sq("b8"), MOV_PROMO, WQ).unwrap();
    assert_eq!(0, state.non_cap_mov_count);
    state.undo_mov(sq("b7"), sq("b8"), MOV_PROMO).unwrap();

    state.do_mov(sq("b7"), sq("a8"), MOV_PROMO, WQ).unwrap();
    assert_eq!(0, state.non_cap_mov_count);
    state.undo_mov(sq("b7"), sq("a8"), MOV_PROMO).unwrap();

    state.do_mov(sq("e1"), sq("g1"), MOV_CAS, 0).unwrap();
    assert_eq!(0, state.non_cap_mov_count);
    state.undo_mov(sq("e1"), sq("g1"), MOV_CAS).unwrap();

    state.do_mov(sq("e5"), sq("d6"), MOV_ENP, 0).unwrap();
    assert_eq!(0, state.non_cap_mov_count);
    state.undo_mov(sq("e5"), sq("d6"), MOV_ENP).unwrap();
    assert_eq!(40, state.non_cap_mov_count);
}

#[test]
fn test_fifty_move_rule_triggers_at_one_hundred() {
    let mut state = State::new("4k3/8/8/8/8/8/8/R3K3 w - - 0 1").unwrap();
    state.non_cap_mov_count = 98;
    assert!(!state.is_draw());
    state.do_mov(sq("a1"), sq("a2"), MOV_REG, 0).unwrap();
    assert_eq!(99, state.non_cap_mov_count);
    assert!(!state.is_draw());
    state.do_mov(sq("e8"), sq("e7"), MOV_REG, 0).unwrap();
    assert_eq!(100, state.non_cap_mov_count);
    assert!(state.is_draw());
    state.do_mov(sq("a2"), sq("a3"), MOV_REG, 0).unwrap();
    assert_eq!(101, state.non_cap_mov_count);
    assert!(state.is_draw());
    state.undo_mov(sq("a2"), sq("a3"), MOV_REG).unwrap();
    state.undo_mov(sq("e8"), sq("e7"), MOV_REG).unwrap();
    assert!(!state.is_draw());
}

#[test]
fn test_back_and_forth_is_a_draw() {
    let mut state = State::new(START).unwrap();
    let line = [("g1", "f3"), ("g8", "f6"), ("f3", "g1"), ("f6", "g8"), ("g1", "f3")];
    for (from, to) in line {
        state.do_mov(sq(from), sq(to), MOV_REG, 0).unwrap();
        assert!(!state.is_draw());
    }
    state.do_mov(sq("g8"), sq("f6"), MOV_REG, 0).unwrap();
    assert_eq!(6, state.non_cap_mov_count);
    assert!(state.is_draw());
    state.undo_mov(sq("g8"), sq("f6"), MOV_REG).unwrap();
    assert!(!state.is_draw());
}

#[test]
fn test_repetition_by_another_move_order_is_not_seen() {
    let mut state = State::new(START).unwrap();
    let line = [
        ("g1", "f3"),
        ("g8", "f6"),
        ("b1", "c3"),
        ("b8", "c6"),
        ("f3", "g1"),
        ("f6", "g8"),
        ("c3", "b1"),
        ("c6", "b8"),
        ("b1", "c3"),
        ("b8", "c6"),
        ("g1", "f3"),
        ("g8", "f6"),
        ("c3", "b1"),
        ("c6", "b8"),
        ("f3", "g1"),
        ("f6", "g8"),
    ];
    let start = state.squares;
    for (played, (from, to)) in line.iter().enumerate() {
        state.do_mov(sq(from), sq(to), MOV_REG, 0).unwrap();
        assert!(!state.is_draw(), "after {} half-moves", played + 1);
    }
    assert_eq!(start, state.squares);
    assert_eq!(16, state.non_cap_mov_count);
}

#[test]
fn test_repetition_needs_six_quiet_half_moves() {
    let mut state = State::new("4k1n1/8/8/8/8/8/6p1/4K1NR w - - 0 1").unwrap();
    state.do_mov(sq("h1"), sq("h2"), MOV_REG, 0).unwrap();
    state.do_mov(sq("g8"), sq("f6"), MOV_REG, 0).unwrap();
    state.do_mov(sq("h2"), sq("g2"), MOV_REG, 0).unwrap();
    assert_eq!(0, state.non_cap_mov_count);
    for (from, to) in [("f6", "g8"), ("g1", "f3"), ("g8", "f6"), ("f3", "g1"), ("f6", "g8")] {
        state.do_mov(sq(from), sq(to), MOV_REG, 0).unwrap();
        assert!(!state.is_draw());
    }
    assert_eq!(5, state.non_cap_mov_count);
    state.do_mov(sq("g1"), sq("f3"), MOV_REG, 0).unwrap();
    assert_eq!(6, state.non_cap_mov_count);
    assert!(state.is_draw());
}

#[test]
fn test_repetition_looks_at_all_four_parts_of_a_record() {
    let record = (sq("g1"), sq("f3"), WN, 0);
    let reply = (sq("g8"), sq("f6"), BN, 0);
    let back = (sq("f3"), sq("g1"), WN, 0);
    let reply_back = (sq("f6"), sq("g8"), BN, 0);
    let mut state = State::new(START).unwrap();
    state.non_cap_mov_count = 6;
    state.history_mov_stack = vec![record, reply, back, reply_back, record, reply];
    assert!(state.is_draw());
    for changed in [
        (sq("b1"), sq("f3"), WN, 0),
        (sq("g1"), sq("h3"), WN, 0),
        (sq("g1"), sq("f3"), WB, 0),
        (sq("g1"), sq("f3"), WN, BP),
    ] {
        state.history_mov_stack = vec![changed, reply, back, reply_back, record, reply];
        assert!(!state.is_draw());
        state.history_mov_stack = vec![record, changed, back, reply_back, record, reply];
        assert!(!state.is_draw());
    }
}

#[test]
fn test_draw_with_a_short_log_is_decided_by_the_counter_alone() {
    let mut state = State::new(START).unwrap();
    state.non_cap_mov_count = 50;
    assert!(!state.is_draw());
    state.history_mov_stack = vec![(1, 2, WN, 0); 5];
    assert!(!state.is_draw());
    state.history_mov_stack = vec![(1, 2, WN, 0); 6];
    assert!(state.is_draw());
    state.non_cap_mov_count = 5;
    assert!(!state.is_draw());
}

#[test]
fn test_null_move() {
    let mut state = State::new("4k3/8/8/3pP3/8/8/8/4K3 w - d6 0 1").unwrap();
    let before = whole(&state);
    state.do_null_mov();
    assert_eq!(PLAYER_B, state.player);
    assert_eq!(0, state.enp_square);
    assert_eq!(vec![sq("d6")], state.enp_sqr_stack);
    assert_eq!(before.0, state.squares.to_vec());
    assert!(state.history_mov_stack.is_empty());
    assert!(state.taken_piece_stack.is_empty());
    assert_eq!(Ok(()), state.undo_null_mov());
    assert_eq!(before, whole(&state));
}

#[test]
fn test_null_move_inside_a_line() {
    let mut state = State::new(START).unwrap();
    let before = whole(&state);
    state.do_mov(sq("e2"), sq("e4"), MOV_CR_ENP, 0).unwrap();
    state.do_null_mov();
    assert_eq!(PLAYER_W, state.player);
    state.do_mov(sq("e4"), sq("e5"), MOV_REG, 0).unwrap();
    state.undo_mov(sq("e4"), sq("e5"), MOV_REG).unwrap();
    state.undo_null_mov().unwrap();
    assert_eq!(sq("e3"), state.enp_square);
    state.undo_mov(sq("e2"), sq("e4"), MOV_CR_ENP).unwrap();
    assert_eq!(before, whole(&state));
}

#[test]
fn test_undo_null_move_without_history() {
    let mut state = State::new(START).unwrap();
    let before = whole(&state);
    assert_eq!(Err(MoveError::EmptyHistory), state.undo_null_mov());
    assert_eq!(before, whole(&state));
}

#[test]
fn test_invalid_kind() {
    let mut state = State::new(START).unwrap();
    let before = whole(&state);
    for kind in [0u8, 6, 7, 255] {
        assert_eq!(Err(MoveError::InvalidKind), state.do_mov(sq("e2"), sq("e4"), kind, 0));
        assert_eq!(Err(MoveError::InvalidKind), state.undo_mov(sq("e2"), sq("e4"), kind));
        assert_eq!(Err(MoveError::InvalidKind), state.do_mov(200, 300, kind, 0));
    }
    assert_eq!(before, whole(&state));
}

#[test]
fn test_off_board() {
    let mut state = State::new(START).unwrap();
    state.do_mov(sq("g1"), sq("f3"), MOV_REG, 0).unwrap();
    let before = whole(&state);
    for kind in [MOV_REG, MOV_PROMO, MOV_CAS, MOV_ENP, MOV_CR_ENP] {
        for (from, to) in [(8, 20), (20, 8), (120, 20), (20, 120), (20, 127), (0x100, 20), (20, usize::MAX)] {
            assert_eq!(Err(MoveError::OffBoard), state.do_mov(from, to, kind, 0));
            assert_eq!(Err(MoveError::OffBoard), state.undo_mov(from, to, kind));
        }
    }
    assert_eq!(before, whole(&state));
}

#[test]
fn test_off_board_behind_the_destination() {
    let mut white = State::new("4k3/8/8/8/8/8/8/4K3 w - - 0 1").unwrap();
    assert_eq!(Err(MoveError::OffBoard), white.do_mov(sq("e2"), sq("e1"), MOV_ENP, 0));
    assert_eq!(Err(MoveError::OffBoard), white.do_mov(sq("e2"), sq("a1"), MOV_CR_ENP, 0));
    assert_eq!(Ok(()), white.do_mov(sq("a1"), sq("a2"), MOV_CR_ENP, 0));
    assert_eq!(sq("a1"), white.enp_square);

    let mut black = State::new("4k3/8/8/8/8/8/8/4K3 b - - 0 1").unwrap();
    assert_eq!(Err(MoveError::OffBoard), black.do_mov(sq("e7"), sq("e8"), MOV_ENP, 0));
    assert_eq!(Err(MoveError::OffBoard), black.do_mov(sq("e7"), sq("h8"), MOV_CR_ENP, 0));
    assert_eq!(Ok(()), black.do_mov(sq("h8"), sq("h7"), MOV_CR_ENP, 0));
    assert_eq!(sq("h8"), black.enp_square);
    assert_eq!(Err(MoveError::OffBoard), black.undo_mov(sq("h7"), sq("h8"), MOV_ENP));
    assert_eq!(Ok(()), black.undo_mov(sq("h7"), sq("h8"), MOV_CR_ENP));
}

#[test]
fn test_counter_overflow() {
    let mut state = State::new(START).unwrap();
    state.non_cap_mov_count = u16::MAX;
    let before = whole(&state);
    assert_eq!(Err(MoveError::CounterOverflow), state.do_mov(sq("g1"), sq("f3"), MOV_REG, 0));
    assert_eq!(Err(MoveError::CounterOverflow), state.do_mov(sq("e2"), sq("e4"), MOV_CR_ENP, 0));
    assert_eq!(before, whole(&state));
    assert_eq!(Ok(()), state.do_mov(sq("d1"), sq("d7"), MOV_REG, 0));
    assert_eq!(0, state.non_cap_mov_count);
    assert_eq!(Ok(()), state.undo_mov(sq("d1"), sq("d7"), MOV_REG));
    assert_eq!(u16::MAX, state.non_cap_mov_count);
    state.non_cap_mov_count = u16::MAX - 1;
    assert_eq!(Ok(()), state.do_mov(sq("g1"), sq("f3"), MOV_REG, 0));
    assert_eq!(u16::MAX, state.non_cap_mov_count);
    assert!(state.is_draw());
}

#[test]
fn test_empty_history() {
    let mut state = State::new(START).unwrap();
    let before = whole(&state);
    for kind in [MOV_REG, MOV_PROMO, MOV_CAS, MOV_ENP, MOV_CR_ENP] {
        assert_eq!(Err(MoveError::EmptyHistory), state.undo_mov(sq("e2"), sq("e4"), kind));
    }
    assert_eq!(before, whole(&state));
    state.do_mov(sq("e2"), sq("e4"), MOV_CR_ENP, 0).unwrap();
    assert_eq!(Ok(()), state.undo_mov(sq("e2"), sq("e4"), MOV_CR_ENP));
    assert_eq!(Err(MoveError::EmptyHistory), state.undo_mov(sq("e2"), sq("e4"), MOV_CR_ENP));
}

#[test]
fn test_empty_history_when_one_stack_is_empty() {
    let mut state = State::new(START).unwrap();
    state.do_null_mov();
    assert_eq!(Err(MoveError::EmptyHistory), state.undo_mov(sq("e2"), sq("e4"), MOV_REG));
    state.undo_null_mov().unwrap();
    state.do_mov(sq("g1"), sq("f3"), MOV_REG, 0).unwrap();
    state.taken_piece_stack.clear();
    let before = whole(&state);
    assert_eq!(Err(MoveError::EmptyHistory), state.undo_mov(sq("g1"), sq("f3"), MOV_REG));
    assert_eq!(before, whole(&state));
}

#[test]
fn test_padding_is_never_written() {
    let mut state = State::new(START).unwrap();
    let line = [
        ("e2", "e4", MOV_CR_ENP),
        ("d7", "d5", MOV_CR_ENP),
        ("e4", "d5", MOV_REG),
        ("h7", "h5", MOV_CR_ENP),
        ("h2", "h4", MOV_CR_ENP),
        ("h8", "h6", MOV_REG),
        ("a2", "a4", MOV_CR_ENP),
        ("h6", "a6", MOV_REG),
    ];
    for (from, to, kind) in line {
        state.do_mov(sq(from), sq(to), kind, 0).unwrap();
        for index in 0..120 {
            if index % 16 >= 8 {
                assert_eq!(0, state.squares[index]);
            }
        }
    }
}
