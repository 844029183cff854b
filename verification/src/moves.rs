//! The mathematical model of a position and of the five kinds of move.
//!
//! A position is seen as a `StateView`: the board as a sequence of 120 piece
//! codes, the scalar fields, and the undo stacks as sequences whose last
//! element is the top. `apply_move` and `revert_move` say, field by field,
//! what applying and reversing a move make of such a view.

use vstd::prelude::*;
use crate::def::{
    on_board, BK, BOARD_SIZE, BP, BR, CAS_SQUARE_BK, CAS_SQUARE_BQ, CAS_SQUARE_WK, CAS_SQUARE_WQ, MOV_CAS,
    MOV_CR_ENP, MOV_ENP, MOV_PROMO, MOV_REG, PLAYER_SWITCH, PLAYER_W, WK, WP, WR,
};

verus! {

/// Why a move was refused. A refused move leaves the position untouched.
#[derive(Clone, Copy, Debug, PartialEq, Eq, Structural)]
pub enum MoveError {
    /// The move kind is none of the five known kinds.
    InvalidKind,
    /// A square that the move reads or writes is not on the board.
    OffBoard,
    /// The ply counter is at its largest value and the move would raise it.
    CounterOverflow,
    /// An undo stack is empty.
    EmptyHistory,
}

/// One entry of the move log: origin, destination, the code found on the
/// origin and the code found on the destination before the move.
pub type MoveRecord = (usize, usize, u8, u8);

/// A position as a mathematical value.
#[verifier::ext_equal]
pub struct StateView {
    pub board: Seq<u8>,
    pub player: u8,
    pub cas_rights: u8,
    pub enp_square: usize,
    pub non_cap_mov_count: u16,
    pub wk_index: usize,
    pub bk_index: usize,
    pub taken_piece_stack: Seq<u8>,
    pub enp_sqr_stack: Seq<usize>,
    pub cas_rights_stack: Seq<u8>,
    pub history_mov_stack: Seq<MoveRecord>,
    pub non_cap_mov_count_stack: Seq<u16>,
    pub wk_index_stack: Seq<usize>,
    pub bk_index_stack: Seq<usize>,
}

/// The shape of a position that `State::new` builds, and that applying and
/// reversing moves keep: the cells beside the board are empty, the stacks
/// that every move pushes are equally long, and the en-passant stack, which
/// null moves push too, is no shorter.
pub open spec fn well_formed(s: StateView) -> bool {
    &&& s.board.len() == BOARD_SIZE
    &&& forall|i: int| 0 <= i < BOARD_SIZE && !on_board(i) ==> #[trigger] s.board[i] == 0
    &&& s.taken_piece_stack.len() == s.history_mov_stack.len()
    &&& s.cas_rights_stack.len() == s.history_mov_stack.len()
    &&& s.non_cap_mov_count_stack.len() == s.history_mov_stack.len()
    &&& s.wk_index_stack.len() == s.history_mov_stack.len()
    &&& s.bk_index_stack.len() == s.history_mov_stack.len()
    &&& s.enp_sqr_stack.len() >= s.history_mov_stack.len()
}

pub open spec fn is_move_kind(kind: u8) -> bool {
    kind == MOV_REG || kind == MOV_PROMO || kind == MOV_CAS || kind == MOV_ENP || kind
        == MOV_CR_ENP
}

/// The pawn of a player. Whoever is not the first player counts as the
/// second.
pub open spec fn pawn_of(player: u8) -> u8 {
    if player == PLAYER_W {
        WP
    } else {
        BP
    }
}

/// The square one rank behind `to`, seen from the player who moves there:
/// where a pawn that was passed stands, and the square that a double push
/// jumps over.
pub open spec fn square_behind(to: int, player: u8) -> int {
    if player == PLAYER_W {
        to - 16
    } else {
        to + 16
    }
}

/// The four squares on which a castling king lands.
pub open spec fn is_castle_square(to: int) -> bool {
    to == CAS_SQUARE_WK || to == CAS_SQUARE_WQ || to == CAS_SQUARE_BK || to == CAS_SQUARE_BQ
}

pub open spec fn is_king_side(to: int) -> bool {
    to == CAS_SQUARE_WK || to == CAS_SQUARE_BK
}

pub open spec fn is_white_castle(to: int) -> bool {
    to == CAS_SQUARE_WK || to == CAS_SQUARE_WQ
}

/// Where the king stands before it castles to `to`.
pub open spec fn castle_king_from(to: int) -> int {
    if is_king_side(to) {
        to - 2
    } else {
        to + 2
    }
}

/// Where the rook stands before the king castles to `to`.
pub open spec fn castle_rook_from(to: int) -> int {
    if is_king_side(to) {
        to + 1
    } else {
        to - 2
    }
}

/// Where the rook lands: the square the king passes over.
pub open spec fn castle_rook_to(to: int) -> int {
    if is_king_side(to) {
        to - 1
    } else {
        to + 1
    }
}

pub open spec fn castle_king(to: int) -> u8 {
    if is_white_castle(to) {
        WK
    } else {
        BK
    }
}

pub open spec fn castle_rook(to: int) -> u8 {
    if is_white_castle(to) {
        WR
    } else {
        BR
    }
}

/// The rights that survive when `piece` leaves `from` by a regular move:
/// a rook that leaves its corner loses one right, a king that leaves its
/// home square loses both of its side.
pub open spec fn rights_after_leaving(rights: u8, piece: u8, from: int) -> u8 {
    if piece == WR && from == 0 {
        rights & 0b1011
    } else if piece == WR && from == 7 {
        rights & 0b0111
    } else if piece == BR && from == 112 {
        rights & 0b1110
    } else if piece == BR && from == 119 {
        rights & 0b1101
    } else if piece == WK && from == 4 {
        rights & 0b0011
    } else if piece == BK && from == 116 {
        rights & 0b1100
    } else {
        rights
    }
}

/// The rights that survive a castle to `to`: none of the castling side.
pub open spec fn rights_after_castle(rights: u8, to: int) -> u8 {
    if !is_castle_square(to) {
        rights
    } else if is_white_castle(to) {
        rights & 0b0011
    } else {
        rights & 0b1100
    }
}

pub open spec fn rights_after(rights: u8, board: Seq<u8>, from: int, to: int, kind: u8) -> u8 {
    if kind == MOV_REG {
        rights_after_leaving(rights, board[from], from)
    } else if kind == MOV_CAS {
        rights_after_castle(rights, to)
    } else {
        rights
    }
}

/// The board after a castle to `to`. A destination that is no castle square
/// moves nothing.
pub open spec fn board_after_castle(board: Seq<u8>, to: int) -> Seq<u8> {
    if is_castle_square(to) {
        board.update(castle_king_from(to), 0).update(castle_rook_from(to), 0).update(
            castle_rook_to(to),
            castle_rook(to),
        ).update(to, castle_king(to))
    } else {
        board
    }
}

/// The board after a move of `player`.
pub open spec fn board_after(
    board: Seq<u8>,
    player: u8,
    from: int,
    to: int,
    kind: u8,
    promo: u8,
) -> Seq<u8> {
    if kind == MOV_REG || kind == MOV_CR_ENP {
        board.update(to, board[from]).update(from, 0)
    } else if kind == MOV_PROMO {
        board.update(to, promo).update(from, 0)
    } else if kind == MOV_ENP {
        board.update(to, board[from]).update(from, 0).update(square_behind(to, player), 0)
    } else if kind == MOV_CAS {
        board_after_castle(board, to)
    } else {
        board
    }
}

/// The code that a move takes off the board, zero when it takes none.
pub open spec fn taken_piece(board: Seq<u8>, player: u8, to: int, kind: u8) -> u8 {
    if kind == MOV_REG || kind == MOV_PROMO {
        board[to]
    } else if kind == MOV_ENP {
        board[square_behind(to, player)]
    } else {
        0
    }
}

/// Whether the move raises the ply counter: a regular move onto an empty
/// square, or a double pawn push. Every other move resets it.
pub open spec fn raises_ply(board: Seq<u8>, to: int, kind: u8) -> bool {
    (kind == MOV_REG && board[to] == 0) || kind == MOV_CR_ENP
}

pub open spec fn ply_after(count: u16, board: Seq<u8>, to: int, kind: u8) -> u16 {
    if raises_ply(board, to, kind) {
        (count + 1) as u16
    } else {
        0
    }
}

/// The cached square of the king `king` after the move.
pub open spec fn king_index_after(
    index: usize,
    king: u8,
    board: Seq<u8>,
    from: usize,
    to: usize,
    kind: u8,
) -> usize {
    if kind == MOV_REG && board[from as int] == king {
        to
    } else if kind == MOV_CAS && is_castle_square(to as int) && castle_king(to as int) == king {
        to
    } else {
        index
    }
}

/// Whether every square that the move touches is on the board.
pub open spec fn squares_on_board(player: u8, from: int, to: int, kind: u8) -> bool {
    &&& on_board(from)
    &&& on_board(to)
    &&& (kind == MOV_ENP || kind == MOV_CR_ENP) ==> on_board(square_behind(to, player))
}

/// The error with which `do_mov` refuses a move, if it refuses it.
pub open spec fn do_mov_error(s: StateView, from: usize, to: usize, kind: u8) -> Option<
    MoveError,
> {
    if !is_move_kind(kind) {
        Some(MoveError::InvalidKind)
    } else if !squares_on_board(s.player, from as int, to as int, kind) {
        Some(MoveError::OffBoard)
    } else if raises_ply(s.board, to as int, kind) && s.non_cap_mov_count == u16::MAX {
        Some(MoveError::CounterOverflow)
    } else {
        None
    }
}

/// The position after the player to move has made the move: one entry more
/// on every stack, the en-passant target cleared unless the move is a
/// double push, and the other player to move.
pub open spec fn apply_move(s: StateView, from: usize, to: usize, kind: u8, promo: u8) -> StateView {
    StateView {
        board: board_after(s.board, s.player, from as int, to as int, kind, promo),
        player: s.player ^ PLAYER_SWITCH,
        cas_rights: rights_after(s.cas_rights, s.board, from as int, to as int, kind),
        enp_square: if kind == MOV_CR_ENP {
            square_behind(to as int, s.player) as usize
        } else {
            0
        },
        non_cap_mov_count: ply_after(s.non_cap_mov_count, s.board, to as int, kind),
        wk_index: king_index_after(s.wk_index, WK, s.board, from, to, kind),
        bk_index: king_index_after(s.bk_index, BK, s.board, from, to, kind),
        taken_piece_stack: s.taken_piece_stack.push(
            taken_piece(s.board, s.player, to as int, kind),
        ),
        enp_sqr_stack: s.enp_sqr_stack.push(s.enp_square),
        cas_rights_stack: s.cas_rights_stack.push(s.cas_rights),
        history_mov_stack: s.history_mov_stack.push(
            (from, to, s.board[from as int], s.board[to as int]),
        ),
        non_cap_mov_count_stack: s.non_cap_mov_count_stack.push(s.non_cap_mov_count),
        wk_index_stack: s.wk_index_stack.push(s.wk_index),
        bk_index_stack: s.bk_index_stack.push(s.bk_index),
    }
}

/// The board before a castle to `to`, given the board after it.
pub open spec fn board_before_castle(board: Seq<u8>, to: int) -> Seq<u8> {
    if is_castle_square(to) {
        board.update(castle_king_from(to), castle_king(to)).update(
            castle_rook_from(to),
            castle_rook(to),
        ).update(castle_rook_to(to), 0).update(to, 0)
    } else {
        board
    }
}

/// The board before a move of `mover`, given the board after it and the
/// code that the move took. A promotion puts the mover's pawn back on the
/// origin: the board does not remember what stood there.
pub open spec fn board_before(
    board: Seq<u8>,
    mover: u8,
    from: int,
    to: int,
    kind: u8,
    taken: u8,
) -> Seq<u8> {
    if kind == MOV_REG {
        board.update(to, taken).update(from, board[to])
    } else if kind == MOV_PROMO {
        board.update(to, taken).update(from, pawn_of(mover))
    } else if kind == MOV_ENP {
        board.update(square_behind(to, mover), taken).update(from, board[to]).update(to, 0)
    } else if kind == MOV_CR_ENP {
        board.update(from, board[to]).update(to, 0)
    } else if kind == MOV_CAS {
        board_before_castle(board, to)
    } else {
        board
    }
}

/// Whether each of the stacks that reversing a move pops holds an entry.
pub open spec fn has_history(s: StateView) -> bool {
    &&& s.taken_piece_stack.len() > 0
    &&& s.enp_sqr_stack.len() > 0
    &&& s.cas_rights_stack.len() > 0
    &&& s.history_mov_stack.len() > 0
    &&& s.non_cap_mov_count_stack.len() > 0
    &&& s.wk_index_stack.len() > 0
    &&& s.bk_index_stack.len() > 0
}

/// The error with which `undo_mov` refuses, if it refuses. The player who
/// made the move is the one who is not to move now.
pub open spec fn undo_mov_error(s: StateView, from: usize, to: usize, kind: u8) -> Option<
    MoveError,
> {
    if !is_move_kind(kind) {
        Some(MoveError::InvalidKind)
    } else if !(on_board(from as int) && on_board(to as int) && (kind == MOV_ENP ==> on_board(
        square_behind(to as int, s.player ^ PLAYER_SWITCH),
    ))) {
        Some(MoveError::OffBoard)
    } else if !has_history(s) {
        Some(MoveError::EmptyHistory)
    } else {
        None
    }
}

/// The position before the move: the scalar fields as the stacks recorded
/// them, every stack one entry shorter, the mover to move again, and the
/// squares of the move written back.
pub open spec fn revert_move(s: StateView, from: usize, to: usize, kind: u8) -> StateView {
    StateView {
        board: board_before(
            s.board,
            s.player ^ PLAYER_SWITCH,
            from as int,
            to as int,
            kind,
            s.taken_piece_stack.last(),
        ),
        player: s.player ^ PLAYER_SWITCH,
        cas_rights: s.cas_rights_stack.last(),
        enp_square: s.enp_sqr_stack.last(),
        non_cap_mov_count: s.non_cap_mov_count_stack.last(),
        wk_index: s.wk_index_stack.last(),
        bk_index: s.bk_index_stack.last(),
        taken_piece_stack: s.taken_piece_stack.drop_last(),
        enp_sqr_stack: s.enp_sqr_stack.drop_last(),
        cas_rights_stack: s.cas_rights_stack.drop_last(),
        history_mov_stack: s.history_mov_stack.drop_last(),
        non_cap_mov_count_stack: s.non_cap_mov_count_stack.drop_last(),
        wk_index_stack: s.wk_index_stack.drop_last(),
        bk_index_stack: s.bk_index_stack.drop_last(),
    }
}

/// A move as its caller describes it: origin, destination, one of the five
/// kinds, and the code that a promotion puts on the destination.
pub struct Move {
    pub from: usize,
    pub to: usize,
    pub kind: u8,
    pub promo: u8,
}

/// What one call of `do_mov` makes of a position: the move applied, or the
/// position as it was when the move is refused.
pub open spec fn after_move(s: StateView, m: Move) -> StateView {
    if do_mov_error(s, m.from, m.to, m.kind) is None {
        apply_move(s, m.from, m.to, m.kind, m.promo)
    } else {
        s
    }
}

/// What a run of calls of `do_mov` makes of a position.
pub open spec fn after_moves(s: StateView, moves: Seq<Move>) -> StateView
    decreases moves.len(),
{
    if moves.len() == 0 {
        s
    } else {
        after_move(after_moves(s, moves.drop_last()), moves.last())
    }
}

/// The position after a null move: the turn passes, the en-passant target
/// is put on its stack and cleared, and nothing else changes.
pub open spec fn apply_null_move(s: StateView) -> StateView {
    StateView {
        player: s.player ^ PLAYER_SWITCH,
        enp_square: 0,
        enp_sqr_stack: s.enp_sqr_stack.push(s.enp_square),
        ..s
    }
}

/// The position before a null move.
pub open spec fn revert_null_move(s: StateView) -> StateView {
    StateView {
        player: s.player ^ PLAYER_SWITCH,
        enp_square: s.enp_sqr_stack.last(),
        enp_sqr_stack: s.enp_sqr_stack.drop_last(),
        ..s
    }
}

/// Half-moves without capture after which the game is drawn.
pub const MAX_NON_CAP_PLY_COUNT: u16 = 100;

/// How far back the move that a repeated move repeats lies, counted from
/// the end of the log.
pub const LAST_DUP_MOV_DISTANCE: usize = 5;

pub open spec fn fifty_move_draw(count: u16) -> bool {
    count >= MAX_NON_CAP_PLY_COUNT
}

/// The short repetition pattern: with at least six quiet half-moves behind,
/// the last two log entries equal those that lie four entries before them.
pub open spec fn repetition_draw(count: u16, history: Seq<MoveRecord>) -> bool {
    let n = history.len() as int;
    &&& count >= LAST_DUP_MOV_DISTANCE + 1
    &&& n >= LAST_DUP_MOV_DISTANCE + 1
    &&& history[n - 1] == history[n - LAST_DUP_MOV_DISTANCE]
    &&& history[n - 2] == history[n - LAST_DUP_MOV_DISTANCE - 1]
}

pub open spec fn draw(s: StateView) -> bool {
    fifty_move_draw(s.non_cap_mov_count) || repetition_draw(
        s.non_cap_mov_count,
        s.history_mov_stack,
    )
}

} // verus!
