//! The position itself: the board, whose turn it is, castling rights, the
//! en-passant target, the ply counter, the cached king squares and the undo
//! stacks, with the operations that a search driver calls on it.

use vstd::prelude::*;
use crate::def::{
    get_opposite_player, is_index_valid, on_board, BK, BOARD_SIZE, BP, BR, CAS_SQUARE_BK,
    CAS_SQUARE_BQ, CAS_SQUARE_WK, CAS_SQUARE_WQ, DIM_SIZE, MOV_CAS, MOV_CR_ENP, MOV_ENP, MOV_PROMO,
    MOV_REG, PLAYER_W, WK, WP, WR,
};
use crate::fen::{
    chars_of, decode, fen_error, get_cas_rights_from_fen, get_enp_sqr_from_fen,
    get_player_from_fen, get_squares_from_fen, split_chars, FenError,
};
use crate::moves::{
    apply_move, apply_null_move, board_after, board_after_castle, board_before,
    board_before_castle, do_mov_error, draw, king_index_after, ply_after, revert_move,
    revert_null_move, rights_after_castle, rights_after_leaving, square_behind, taken_piece,
    undo_mov_error, well_formed, MoveError, StateView, LAST_DUP_MOV_DISTANCE,
    MAX_NON_CAP_PLY_COUNT,
};
use crate::util::{map_piece_code_to_char, piece_char};

verus! {

const FEN_SQRS_INDEX: usize = 0;

const FEN_PLAYER_INDEX: usize = 1;

const FEN_CAS_RIGHTS_INDEX: usize = 2;

const FEN_ENP_SQR_INDEX: usize = 3;

pub struct State {
    pub squares: [u8; 120],
    pub player: u8,
    pub cas_rights: u8,
    pub enp_square: usize,
    pub non_cap_mov_count: u16,
    pub wk_index: usize,
    pub bk_index: usize,
    pub taken_piece_stack: Vec<u8>,
    pub enp_sqr_stack: Vec<usize>,
    pub cas_rights_stack: Vec<u8>,
    pub history_mov_stack: Vec<(usize, usize, u8, u8)>,
    pub non_cap_mov_count_stack: Vec<u16>,
    pub wk_index_stack: Vec<usize>,
    pub bk_index_stack: Vec<usize>,
}

impl View for State {
    type V = StateView;

    open spec fn view(&self) -> StateView {
        StateView {
            board: self.squares@,
            player: self.player,
            cas_rights: self.cas_rights,
            enp_square: self.enp_square,
            non_cap_mov_count: self.non_cap_mov_count,
            wk_index: self.wk_index,
            bk_index: self.bk_index,
            taken_piece_stack: self.taken_piece_stack@,
            enp_sqr_stack: self.enp_sqr_stack@,
            cas_rights_stack: self.cas_rights_stack@,
            history_mov_stack: self.history_mov_stack@,
            non_cap_mov_count_stack: self.non_cap_mov_count_stack@,
            wk_index_stack: self.wk_index_stack@,
            bk_index_stack: self.bk_index_stack@,
        }
    }
}

/// Whether `index` is a square of the board.
fn is_on_board(index: usize) -> (yes: bool)
    ensures
        yes == on_board(index as int),
{
    index < BOARD_SIZE && is_index_valid(index)
}

/// Whether the square one rank behind `to`, seen from `player`, is on the
/// board.
fn has_square_behind(player: u8, to: usize) -> (yes: bool)
    requires
        on_board(to as int),
    ensures
        yes == on_board(square_behind(to as int, player)),
{
    if player == PLAYER_W {
        to >= 16
    } else {
        to < 104
    }
}

/// The board as text: eight lines of eight characters and a line feed each,
/// the far rank first, each square shown by the letter of its piece.
pub open spec fn board_text(board: Seq<u8>) -> Seq<char> {
    Seq::new(
        72,
        |i: int|
            if i % 9 == 8 {
                '\n'
            } else {
                piece_char(board[(7 - i / 9) * 16 + i % 9])
            },
    )
}

impl State {
    /// Reads a position from its descriptor. A descriptor with a fault is
    /// refused with the fault's name.
    pub fn new(fen_string: &str) -> (res: Result<State, FenError>)
        ensures
            match res {
                Ok(state) => fen_error(fen_string@) is None && state@ == decode(fen_string@),
                Err(e) => fen_error(fen_string@) == Some(e),
            },
            res matches Ok(state) ==> well_formed(state@),
    {
        let fen_chars: Vec<char> = chars_of(fen_string);
        let fen_segment_list: Vec<Vec<char>> = split_chars(&fen_chars, ' ');
        if fen_segment_list.len() < 4 {
            return Err(FenError::MissingField);
        }
        let (squares, wk_index, bk_index) = match get_squares_from_fen(
            &fen_segment_list[FEN_SQRS_INDEX],
        ) {
            Some(placed) => placed,
            None => {
                return Err(FenError::BadBoard);
            },
        };
        let player: u8 = match get_player_from_fen(&fen_segment_list[FEN_PLAYER_INDEX]) {
            Some(player) => player,
            None => {
                return Err(FenError::BadPlayer);
            },
        };
        let cas_rights: u8 = match get_cas_rights_from_fen(
            &fen_segment_list[FEN_CAS_RIGHTS_INDEX],
        ) {
            Some(cas_rights) => cas_rights,
            None => {
                return Err(FenError::BadCastling);
            },
        };
        let enp_sqr: usize = match get_enp_sqr_from_fen(&fen_segment_list[FEN_ENP_SQR_INDEX]) {
            Some(enp_sqr) => enp_sqr,
            None => {
                return Err(FenError::BadEnPassant);
            },
        };

        Ok(
            State {
                squares: squares,
                player: player,
                cas_rights: cas_rights,
                enp_square: enp_sqr,
                non_cap_mov_count: 0,
                wk_index: wk_index,
                bk_index: bk_index,
                taken_piece_stack: Vec::new(),
                enp_sqr_stack: Vec::new(),
                cas_rights_stack: Vec::new(),
                history_mov_stack: Vec::new(),
                non_cap_mov_count_stack: Vec::new(),
                wk_index_stack: Vec::new(),
                bk_index_stack: Vec::new(),
            },
        )
    }

    /// The board as text, for a person to read.
    pub fn to_string(&self) -> (text: String)
        ensures
            text@ == board_text(self.squares@),
    {
        let mut display_string: String = String::new();
        let mut line: usize = 0;
        while line < DIM_SIZE
            invariant
                line <= DIM_SIZE,
                display_string@ == board_text(self.squares@).take(9 * line),
            decreases DIM_SIZE - line,
        {
            let rank_left_index: usize = 112 - 16 * line;
            let mut file_index: usize = 0;
            while file_index < DIM_SIZE
                invariant
                    line < DIM_SIZE,
                    file_index <= DIM_SIZE,
                    rank_left_index == 112 - 16 * line,
                    display_string@ == board_text(self.squares@).take(9 * line + file_index),
                decreases DIM_SIZE - file_index,
            {
                display_string.push(
                    map_piece_code_to_char(self.squares[rank_left_index + file_index]),
                );
                file_index += 1;
                assert(display_string@ =~= board_text(self.squares@).take(9 * line + file_index));
            }
            display_string.push('\n');
            line += 1;
            assert(display_string@ =~= board_text(self.squares@).take(9 * line));
        }
        assert(display_string@ =~= board_text(self.squares@));
        display_string
    }

    /// Whether the position counts as drawn: by the fifty-move rule, or by
    /// the last two moves repeating the two that lie four half-moves
    /// before them.
    pub fn is_draw(&self) -> (drawn: bool)
        ensures
            drawn == draw(self@),
    {
        if self.non_cap_mov_count >= MAX_NON_CAP_PLY_COUNT {
            return true;
        }
        let history_len: usize = self.history_mov_stack.len();
        if self.non_cap_mov_count < 6 || history_len < LAST_DUP_MOV_DISTANCE + 1 {
            return false;
        }
        let (from, to, mov_piece, taken_piece) = self.history_mov_stack[history_len - 1];
        let (last_from, last_to, last_mov_piece, last_taken_piece) =
            self.history_mov_stack[history_len - LAST_DUP_MOV_DISTANCE];
        if from == last_from && to == last_to && mov_piece == last_mov_piece && taken_piece
            == last_taken_piece {
            let (from, to, mov_piece, taken_piece) = self.history_mov_stack[history_len - 2];
            let (last_from, last_to, last_mov_piece, last_taken_piece) =
                self.history_mov_stack[history_len - LAST_DUP_MOV_DISTANCE - 1];
            if from == last_from && to == last_to && mov_piece == last_mov_piece && taken_piece
                == last_taken_piece {
                return true;
            }
        }
        false
    }

    /// Passes the turn without moving.
    pub fn do_null_mov(&mut self)
        ensures
            final(self)@ == apply_null_move(old(self)@),
            well_formed(old(self)@) ==> well_formed(final(self)@),
    {
        self.enp_sqr_stack.push(self.enp_square);
        self.enp_square = 0;
        self.player = get_opposite_player(self.player);
    }

    /// Takes back a null move. Refuses, and changes nothing, when the
    /// en-passant stack is empty.
    pub fn undo_null_mov(&mut self) -> (res: Result<(), MoveError>)
        ensures
            old(self)@.enp_sqr_stack.len() == 0 ==> res == Err::<(), MoveError>(
                MoveError::EmptyHistory,
            ) && *final(self) == *old(self),
            old(self)@.enp_sqr_stack.len() > 0 ==> res is Ok && final(self)@ == revert_null_move(
                old(self)@,
            ),
            well_formed(old(self)@) && old(self)@.enp_sqr_stack.len()
                > old(self)@.history_mov_stack.len() ==> well_formed(final(self)@),
    {
        if self.enp_sqr_stack.len() == 0 {
            return Err(MoveError::EmptyHistory);
        }
        self.enp_square = self.enp_sqr_stack.pop().unwrap();
        self.player = get_opposite_player(self.player);
        Ok(())
    }

    /// Applies a move of the player to move. `mov_type` is one of the five
    /// move kinds, `promo` the code that a promotion puts on `to`.
    ///
    /// The move is not checked against the rules of the game. It is
    /// refused, and the position left as it was, when the kind is unknown,
    /// when a square it touches is off the board, or when the ply counter
    /// cannot be raised.
    pub fn do_mov(&mut self, from: usize, to: usize, mov_type: u8, promo: u8) -> (res: Result<
        (),
        MoveError,
    >)
        ensures
            res == (match do_mov_error(old(self)@, from, to, mov_type) {
                Some(e) => Err::<(), MoveError>(e),
                None => Ok::<(), MoveError>(()),
            }),
            res is Err ==> *final(self) == *old(self),
            res is Ok ==> final(self)@ == apply_move(old(self)@, from, to, mov_type, promo),
            well_formed(old(self)@) ==> well_formed(final(self)@),
    {
        if !(mov_type == MOV_REG || mov_type == MOV_PROMO || mov_type == MOV_CAS || mov_type
            == MOV_ENP || mov_type == MOV_CR_ENP) {
            return Err(MoveError::InvalidKind);
        }
        if !is_on_board(from) || !is_on_board(to) {
            return Err(MoveError::OffBoard);
        }
        if (mov_type == MOV_ENP || mov_type == MOV_CR_ENP) && !has_square_behind(self.player, to) {
            return Err(MoveError::OffBoard);
        }
        if ((mov_type == MOV_REG && self.squares[to] == 0) || mov_type == MOV_CR_ENP)
            && self.non_cap_mov_count == u16::MAX {
            return Err(MoveError::CounterOverflow);
        }
        self.cas_rights_stack.push(self.cas_rights);
        self.enp_sqr_stack.push(self.enp_square);
        self.history_mov_stack.push((from, to, self.squares[from], self.squares[to]));
        self.non_cap_mov_count_stack.push(self.non_cap_mov_count);
        self.wk_index_stack.push(self.wk_index);
        self.bk_index_stack.push(self.bk_index);
        self.enp_square = 0;

        if mov_type == MOV_REG {
            self.do_reg_mov(from, to);
        } else if mov_type == MOV_PROMO {
            self.do_promo_mov(from, to, promo);
        } else if mov_type == MOV_CAS {
            self.do_cas_mov(to);
        } else if mov_type == MOV_ENP {
            self.do_enp_mov(from, to);
        } else {
            self.do_cr_enp_mov(from, to);
        }

        self.player = get_opposite_player(self.player);
        Ok(())
    }

    /// Takes back the last move applied, which the caller names again.
    ///
    /// It is refused, and the position left as it was, when the kind is
    /// unknown, when a square it touches is off the board, or when one of
    /// the undo stacks is empty. Whether the move named is the one that was
    /// applied is not checked.
    pub fn undo_mov(&mut self, from: usize, to: usize, mov_type: u8) -> (res: Result<
        (),
        MoveError,
    >)
        ensures
            res == (match undo_mov_error(old(self)@, from, to, mov_type) {
                Some(e) => Err::<(), MoveError>(e),
                None => Ok::<(), MoveError>(()),
            }),
            res is Err ==> *final(self) == *old(self),
            res is Ok ==> final(self)@ == revert_move(old(self)@, from, to, mov_type),
            well_formed(old(self)@) ==> well_formed(final(self)@),
    {
        if !(mov_type == MOV_REG || mov_type == MOV_PROMO || mov_type == MOV_CAS || mov_type
            == MOV_ENP || mov_type == MOV_CR_ENP) {
            return Err(MoveError::InvalidKind);
        }
        if !is_on_board(from) || !is_on_board(to) {
            return Err(MoveError::OffBoard);
        }
        if mov_type == MOV_ENP && !has_square_behind(get_opposite_player(self.player), to) {
            return Err(MoveError::OffBoard);
        }
        if self.taken_piece_stack.len() == 0 || self.enp_sqr_stack.len() == 0
            || self.cas_rights_stack.len() == 0 || self.history_mov_stack.len() == 0
            || self.non_cap_mov_count_stack.len() == 0 || self.wk_index_stack.len() == 0
            || self.bk_index_stack.len() == 0 {
            return Err(MoveError::EmptyHistory);
        }
        self.cas_rights = self.cas_rights_stack.pop().unwrap();
        self.enp_square = self.enp_sqr_stack.pop().unwrap();
        self.non_cap_mov_count = self.non_cap_mov_count_stack.pop().unwrap();
        self.wk_index = self.wk_index_stack.pop().unwrap();
        self.bk_index = self.bk_index_stack.pop().unwrap();
        self.history_mov_stack.pop();
        let taken_piece: u8 = self.taken_piece_stack.pop().unwrap();

        self.player = get_opposite_player(self.player);

        if mov_type == MOV_REG {
            self.undo_reg_mov(from, to, taken_piece);
        } else if mov_type == MOV_PROMO {
            self.undo_promo_mov(from, to, taken_piece);
        } else if mov_type == MOV_CAS {
            self.undo_cas_mov(to);
        } else if mov_type == MOV_ENP {
            self.undo_enp_mov(from, to, taken_piece);
        } else {
            self.undo_cr_enp_mov(from, to);
        }
        Ok(())
    }

    fn do_reg_mov(&mut self, from: usize, to: usize)
        requires
            from < BOARD_SIZE,
            to < BOARD_SIZE,
            old(self).squares[to as int] == 0 ==> old(self).non_cap_mov_count < u16::MAX,
        ensures
            final(self)@ == (StateView {
                board: board_after(old(self)@.board, old(self).player, from as int, to as int, MOV_REG, 0),
                cas_rights: rights_after_leaving(
                    old(self).cas_rights,
                    old(self).squares[from as int],
                    from as int,
                ),
                non_cap_mov_count: ply_after(
                    old(self).non_cap_mov_count,
                    old(self)@.board,
                    to as int,
                    MOV_REG,
                ),
                wk_index: king_index_after(old(self).wk_index, WK, old(self)@.board, from, to, MOV_REG),
                bk_index: king_index_after(old(self).bk_index, BK, old(self)@.board, from, to, MOV_REG),
                taken_piece_stack: old(self)@.taken_piece_stack.push(old(self).squares[to as int]),
                ..old(self)@
            }),
    {
        let moving_piece: u8 = self.squares[from];
        let taken_piece: u8 = self.squares[to];

        if taken_piece == 0 {
            self.non_cap_mov_count += 1;
        } else {
            self.non_cap_mov_count = 0;
        }

        self.taken_piece_stack.push(taken_piece);
        self.squares[to] = moving_piece;
        self.squares[from] = 0;

        if moving_piece == WR {
            if from == 0 {
                self.cas_rights = self.cas_rights & 0b1011;
            } else if from == 7 {
                self.cas_rights = self.cas_rights & 0b0111;
            }
        } else if moving_piece == BR {
            if from == 112 {
                self.cas_rights = self.cas_rights & 0b1110;
            } else if from == 119 {
                self.cas_rights = self.cas_rights & 0b1101;
            }
        } else if moving_piece == WK {
            if from == 4 {
                self.cas_rights = self.cas_rights & 0b0011;
            }
            self.wk_index = to;
        } else if moving_piece == BK {
            if from == 116 {
                self.cas_rights = self.cas_rights & 0b1100;
            }
            self.bk_index = to;
        }
    }

    fn undo_reg_mov(&mut self, from: usize, to: usize, taken_piece: u8)
        requires
            from < BOARD_SIZE,
            to < BOARD_SIZE,
        ensures
            final(self)@ == (StateView {
                board: board_before(
                    old(self)@.board,
                    old(self).player,
                    from as int,
                    to as int,
                    MOV_REG,
                    taken_piece,
                ),
                ..old(self)@
            }),
    {
        let moving_piece: u8 = self.squares[to];

        self.squares[to] = taken_piece;
        self.squares[from] = moving_piece;
    }

    fn do_promo_mov(&mut self, from: usize, to: usize, promo: u8)
        requires
            from < BOARD_SIZE,
            to < BOARD_SIZE,
        ensures
            final(self)@ == (StateView {
                board: board_after(
                    old(self)@.board,
                    old(self).player,
                    from as int,
                    to as int,
                    MOV_PROMO,
                    promo,
                ),
                non_cap_mov_count: 0,
                taken_piece_stack: old(self)@.taken_piece_stack.push(old(self).squares[to as int]),
                ..old(self)@
            }),
    {
        let taken_piece: u8 = self.squares[to];

        self.taken_piece_stack.push(taken_piece);
        self.squares[to] = promo;
        self.squares[from] = 0;

        self.non_cap_mov_count = 0;
    }

    fn undo_promo_mov(&mut self, from: usize, to: usize, taken_piece: u8)
        requires
            from < BOARD_SIZE,
            to < BOARD_SIZE,
        ensures
            final(self)@ == (StateView {
                board: board_before(
                    old(self)@.board,
                    old(self).player,
                    from as int,
                    to as int,
                    MOV_PROMO,
                    taken_piece,
                ),
                ..old(self)@
            }),
    {
        let moving_piece: u8 = if self.player == PLAYER_W {
            WP
        } else {
            BP
        };

        self.squares[to] = taken_piece;
        self.squares[from] = moving_piece;
    }

    fn do_cas_mov(&mut self, to: usize)
        ensures
            final(self)@ == (StateView {
                board: board_after_castle(old(self)@.board, to as int),
                cas_rights: rights_after_castle(old(self).cas_rights, to as int),
                non_cap_mov_count: 0,
                wk_index: king_index_after(old(self).wk_index, WK, old(self)@.board, to, to, MOV_CAS),
                bk_index: king_index_after(old(self).bk_index, BK, old(self)@.board, to, to, MOV_CAS),
                taken_piece_stack: old(self)@.taken_piece_stack.push(0),
                ..old(self)@
            }),
    {
        self.non_cap_mov_count = 0;
        self.taken_piece_stack.push(0);

        if to == CAS_SQUARE_WK {
            self.cas_rights = self.cas_rights & 0b0011;
            self.wk_index = to;

            let k_index: usize = CAS_SQUARE_WK - 2;
            let r_index: usize = CAS_SQUARE_WK + 1;
            let r_to_index: usize = CAS_SQUARE_WK - 1;

            self.squares[k_index] = 0;
            self.squares[r_index] = 0;
            self.squares[r_to_index] = WR;
            self.squares[CAS_SQUARE_WK] = WK;
        } else if to == CAS_SQUARE_BK {
            self.cas_rights = self.cas_rights & 0b1100;
            self.bk_index = to;

            let k_index: usize = CAS_SQUARE_BK - 2;
            let r_index: usize = CAS_SQUARE_BK + 1;
            let r_to_index: usize = CAS_SQUARE_BK - 1;

            self.squares[k_index] = 0;
            self.squares[r_index] = 0;
            self.squares[r_to_index] = BR;
            self.squares[CAS_SQUARE_BK] = BK;
        } else if to == CAS_SQUARE_WQ {
            self.cas_rights = self.cas_rights & 0b0011;
            self.wk_index = to;

            let k_index: usize = CAS_SQUARE_WQ + 2;
            let r_index: usize = CAS_SQUARE_WQ - 2;
            let r_to_index: usize = CAS_SQUARE_WQ + 1;

            self.squares[k_index] = 0;
            self.squares[r_index] = 0;
            self.squares[r_to_index] = WR;
            self.squares[CAS_SQUARE_WQ] = WK;
        } else if to == CAS_SQUARE_BQ {
            self.cas_rights = self.cas_rights & 0b1100;
            self.bk_index = to;

            let k_index: usize = CAS_SQUARE_BQ + 2;
            let r_index: usize = CAS_SQUARE_BQ - 2;
            let r_to_index: usize = CAS_SQUARE_BQ + 1;

            self.squares[k_index] = 0;
            self.squares[r_index] = 0;
            self.squares[r_to_index] = BR;
            self.squares[CAS_SQUARE_BQ] = BK;
        }
    }

    fn undo_cas_mov(&mut self, to: usize)
        ensures
            final(self)@ == (StateView {
                board: board_before_castle(old(self)@.board, to as int),
                ..old(self)@
            }),
    {
        if to == CAS_SQUARE_WK {
            self.squares[CAS_SQUARE_WK - 2] = WK;
            self.squares[CAS_SQUARE_WK + 1] = WR;
            self.squares[CAS_SQUARE_WK - 1] = 0;
            self.squares[CAS_SQUARE_WK] = 0;
        } else if to == CAS_SQUARE_BK {
            self.squares[CAS_SQUARE_BK - 2] = BK;
            self.squares[CAS_SQUARE_BK + 1] = BR;
            self.squares[CAS_SQUARE_BK - 1] = 0;
            self.squares[CAS_SQUARE_BK] = 0;
        } else if to == CAS_SQUARE_WQ {
            self.squares[CAS_SQUARE_WQ + 2] = WK;
            self.squares[CAS_SQUARE_WQ - 2] = WR;
            self.squares[CAS_SQUARE_WQ + 1] = 0;
            self.squares[CAS_SQUARE_WQ] = 0;
        } else if to == CAS_SQUARE_BQ {
            self.squares[CAS_SQUARE_BQ + 2] = BK;
            self.squares[CAS_SQUARE_BQ - 2] = BR;
            self.squares[CAS_SQUARE_BQ + 1] = 0;
            self.squares[CAS_SQUARE_BQ] = 0;
        }
    }

    fn do_enp_mov(&mut self, from: usize, to: usize)
        requires
            from < BOARD_SIZE,
            to < BOARD_SIZE,
            on_board(square_behind(to as int, old(self).player)),
        ensures
            final(self)@ == (StateView {
                board: board_after(old(self)@.board, old(self).player, from as int, to as int, MOV_ENP, 0),
                non_cap_mov_count: 0,
                taken_piece_stack: old(self)@.taken_piece_stack.push(
                    taken_piece(old(self)@.board, old(self).player, to as int, MOV_ENP),
                ),
                ..old(self)@
            }),
    {
        let taken_index: usize = if self.player == PLAYER_W {
            to - 16
        } else {
            to + 16
        };

        self.non_cap_mov_count = 0;

        let moving_piece: u8 = self.squares[from];
        let taken_piece: u8 = self.squares[taken_index];

        self.taken_piece_stack.push(taken_piece);
        self.squares[to] = moving_piece;
        self.squares[from] = 0;
        self.squares[taken_index] = 0;
    }

    fn undo_enp_mov(&mut self, from: usize, to: usize, taken_piece: u8)
        requires
            from < BOARD_SIZE,
            to < BOARD_SIZE,
            on_board(square_behind(to as int, old(self).player)),
        ensures
            final(self)@ == (StateView {
                board: board_before(
                    old(self)@.board,
                    old(self).player,
                    from as int,
                    to as int,
                    MOV_ENP,
                    taken_piece,
                ),
                ..old(self)@
            }),
    {
        let taken_index: usize = if self.player == PLAYER_W {
            to - 16
        } else {
            to + 16
        };

        let moving_piece: u8 = self.squares[to];

        self.squares[taken_index] = taken_piece;
        self.squares[from] = moving_piece;
        self.squares[to] = 0;
    }

    fn do_cr_enp_mov(&mut self, from: usize, to: usize)
        requires
            from < BOARD_SIZE,
            to < BOARD_SIZE,
            on_board(square_behind(to as int, old(self).player)),
            old(self).non_cap_mov_count < u16::MAX,
        ensures
            final(self)@ == (StateView {
                board: board_after(
                    old(self)@.board,
                    old(self).player,
                    from as int,
                    to as int,
                    MOV_CR_ENP,
                    0,
                ),
                enp_square: square_behind(to as int, old(self).player) as usize,
                non_cap_mov_count: (old(self).non_cap_mov_count + 1) as u16,
                taken_piece_stack: old(self)@.taken_piece_stack.push(0),
                ..old(self)@
            }),
    {
        self.enp_square = if self.player == PLAYER_W {
            to - 16
        } else {
            to + 16
        };

        self.non_cap_mov_count += 1;
        self.taken_piece_stack.push(0);

        let moving_piece: u8 = self.squares[from];

        self.squares[to] = moving_piece;
        self.squares[from] = 0;
    }

    fn undo_cr_enp_mov(&mut self, from: usize, to: usize)
        requires
            from < BOARD_SIZE,
            to < BOARD_SIZE,
        ensures
            final(self)@ == (StateView {
                board: board_before(old(self)@.board, old(self).player, from as int, to as int, MOV_CR_ENP, 0),
                ..old(self)@
            }),
    {
        let moving_piece: u8 = self.squares[to];

        self.squares[from] = moving_piece;
        self.squares[to] = 0;
    }
}

} // verus!
