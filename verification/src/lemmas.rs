//! What holds of applying and reversing moves, proved over the model of
//! `moves`.

use vstd::prelude::*;
use crate::def::{on_board, BK, BOARD_SIZE, BR, MOV_CAS, MOV_CR_ENP, MOV_ENP, MOV_PROMO, MOV_REG, PLAYER_B, PLAYER_SWITCH, PLAYER_W, WK, WR};
use crate::fen::{decode, fen_error, last_seen, scan_square};
use crate::moves::{after_move, after_moves, apply_move, apply_null_move, castle_king, castle_king_from, castle_rook, castle_rook_from, castle_rook_to, do_mov_error, draw, fifty_move_draw, is_castle_square, is_white_castle, pawn_of, repetition_draw, revert_move, revert_null_move, square_behind, undo_mov_error, well_formed, Move, MoveError, StateView};

verus! {

/// Whether a move has the shape of a legal one on this position, as far as
/// reversing it depends on that: it goes from one square to another; a
/// promotion moves the mover's own pawn; an en-passant capture and a double
/// push land on an empty square; a castle finds king and rook at home and
/// their landing squares empty.
pub open spec fn legal_shaped(s: StateView, from: usize, to: usize, kind: u8) -> bool {
    if kind == MOV_REG {
        from != to
    } else if kind == MOV_PROMO {
        from != to && s.board[from as int] == pawn_of(s.player)
    } else if kind == MOV_ENP || kind == MOV_CR_ENP {
        from != to && s.board[to as int] == 0
    } else if kind == MOV_CAS && is_castle_square(to as int) {
        &&& s.board[castle_king_from(to as int)] == castle_king(to as int)
        &&& s.board[castle_rook_from(to as int)] == castle_rook(to as int)
        &&& s.board[castle_rook_to(to as int)] == 0
        &&& s.board[to as int] == 0
    } else {
        true
    }
}

proof fn lemma_switch_twice(player: u8)
    by (bit_vector)
    ensures
        (player ^ 0b11) ^ 0b11 == player,
{
}

/// Clearing bits of `rights` leaves a subset of them, and a subset of a
/// subset is a subset.
proof fn lemma_subset_of_rights(rights: u8, mask: u8, earlier: u8)
    by (bit_vector)
    ensures
        (rights & mask) & rights == rights & mask,
        rights & earlier == rights ==> (rights & mask) & earlier == rights & mask,
{
}

/// Reversing a move that was just applied gives back the position as it
/// was before: the board, the player to move, the castling rights, the
/// en-passant target, the ply counter, both king squares and every undo
/// stack. This holds of every kind of move that `do_mov` accepts and that
/// has the shape of a legal one.
pub proof fn lemma_undo_restores(s: StateView, from: usize, to: usize, kind: u8, promo: u8)
    requires
        s.board.len() == BOARD_SIZE,
        do_mov_error(s, from, to, kind) is None,
        legal_shaped(s, from, to, kind),
    ensures
        undo_mov_error(apply_move(s, from, to, kind, promo), from, to, kind) is None,
        revert_move(apply_move(s, from, to, kind, promo), from, to, kind) == s,
{
    let applied = apply_move(s, from, to, kind, promo);
    let reverted = revert_move(applied, from, to, kind);
    lemma_switch_twice(s.player);
    assert(reverted.board =~= s.board);
    assert(reverted =~= s);
}

/// Taking back a null move that was just made gives back the position as
/// it was.
pub proof fn lemma_undo_null_restores(s: StateView)
    ensures
        apply_null_move(s).enp_sqr_stack.len() > 0,
        revert_null_move(apply_null_move(s)) == s,
{
    lemma_switch_twice(s.player);
    assert(revert_null_move(apply_null_move(s)) =~= s);
}

/// A double pawn push sets the en-passant target to the square directly
/// behind its destination. The target lives for one move: whatever is
/// applied next clears it, a null move too, and only another double push
/// sets a target again, its own.
pub proof fn lemma_en_passant_target_lives_one_move(
    s: StateView,
    from: usize,
    to: usize,
    next: Move,
)
    requires
        do_mov_error(s, from, to, MOV_CR_ENP) is None,
    ensures
        apply_move(s, from, to, MOV_CR_ENP, 0).enp_square == square_behind(to as int, s.player),
        on_board(apply_move(s, from, to, MOV_CR_ENP, 0).enp_square as int),
        do_mov_error(apply_move(s, from, to, MOV_CR_ENP, 0), next.from, next.to, next.kind)
            is None ==> after_move(apply_move(s, from, to, MOV_CR_ENP, 0), next).enp_square == (
        if next.kind == MOV_CR_ENP {
            square_behind(next.to as int, s.player ^ PLAYER_SWITCH) as usize
        } else {
            0
        }),
        apply_null_move(apply_move(s, from, to, MOV_CR_ENP, 0)).enp_square == 0,
{
}

/// A king that leaves its home square by a regular move takes both castling
/// rights of its side with it, and a rook that leaves its corner the right
/// of that corner. Reversing the move gives the rights back.
pub proof fn lemma_leaving_home_clears_rights(s: StateView, from: usize, to: usize)
    requires
        do_mov_error(s, from, to, MOV_REG) is None,
    ensures
        s.board[from as int] == WK && from == 4 ==> apply_move(s, from, to, MOV_REG, 0).cas_rights
            & 0b1100 == 0,
        s.board[from as int] == BK && from == 116 ==> apply_move(
            s,
            from,
            to,
            MOV_REG,
            0,
        ).cas_rights & 0b0011 == 0,
        s.board[from as int] == WR && from == 7 ==> apply_move(s, from, to, MOV_REG, 0).cas_rights
            & 0b1000 == 0,
        s.board[from as int] == WR && from == 0 ==> apply_move(s, from, to, MOV_REG, 0).cas_rights
            & 0b0100 == 0,
        s.board[from as int] == BR && from == 119 ==> apply_move(
            s,
            from,
            to,
            MOV_REG,
            0,
        ).cas_rights & 0b0010 == 0,
        s.board[from as int] == BR && from == 112 ==> apply_move(
            s,
            from,
            to,
            MOV_REG,
            0,
        ).cas_rights & 0b0001 == 0,
        revert_move(apply_move(s, from, to, MOV_REG, 0), from, to, MOV_REG).cas_rights
            == s.cas_rights,
{
    let r = s.cas_rights;
    assert((r & 0b0011) & 0b1100 == 0 && (r & 0b1100) & 0b0011 == 0 && (r & 0b0111) & 0b1000 == 0
        && (r & 0b1011) & 0b0100 == 0 && (r & 0b1101) & 0b0010 == 0 && (r & 0b1110) & 0b0001
        == 0) by (bit_vector);
}

/// A castle takes both castling rights of the side that castles.
pub proof fn lemma_castle_clears_rights(s: StateView, from: usize, to: usize)
    requires
        do_mov_error(s, from, to, MOV_CAS) is None,
        is_castle_square(to as int),
    ensures
        is_white_castle(to as int) ==> apply_move(s, from, to, MOV_CAS, 0).cas_rights & 0b1100
            == 0,
        !is_white_castle(to as int) ==> apply_move(s, from, to, MOV_CAS, 0).cas_rights & 0b0011
            == 0,
{
    let r = s.cas_rights;
    assert((r & 0b0011) & 0b1100 == 0 && (r & 0b1100) & 0b0011 == 0) by (bit_vector);
}

/// No move sets a castling right: the rights after a move are among those
/// before it.
pub proof fn lemma_move_keeps_rights_lost(s: StateView, m: Move)
    ensures
        after_move(s, m).cas_rights & s.cas_rights == after_move(s, m).cas_rights,
{
    let r = s.cas_rights;
    assert(r & r == r && (r & 0b1011) & r == r & 0b1011 && (r & 0b0111) & r == r & 0b0111 && (r
        & 0b1110) & r == r & 0b1110 && (r & 0b1101) & r == r & 0b1101 && (r & 0b0011) & r == r
        & 0b0011 && (r & 0b1100) & r == r & 0b1100) by (bit_vector);
}

/// A castling right once lost stays lost, whatever moves are applied
/// afterwards: only reversing the move that took it brings it back.
pub proof fn lemma_rights_lost_for_good(s: StateView, moves: Seq<Move>)
    ensures
        after_moves(s, moves).cas_rights & s.cas_rights == after_moves(s, moves).cas_rights,
    decreases moves.len(),
{
    if moves.len() == 0 {
        let r = s.cas_rights;
        assert(r & r == r) by (bit_vector);
    } else {
        let before = after_moves(s, moves.drop_last());
        lemma_rights_lost_for_good(s, moves.drop_last());
        lemma_move_keeps_rights_lost(before, moves.last());
        let x = after_moves(s, moves).cas_rights;
        let y = before.cas_rights;
        let z = s.cas_rights;
        assert(x & z == x) by (bit_vector)
            requires
                x & y == x,
                y & z == y,
        ;
    }
}

/// A capture, a promotion, a castle and an en-passant capture reset the ply
/// counter to zero; a regular move onto an empty square and a double push
/// raise it by one.
pub proof fn lemma_ply_counter(s: StateView, from: usize, to: usize, kind: u8, promo: u8)
    requires
        do_mov_error(s, from, to, kind) is None,
    ensures
        (kind == MOV_REG && s.board[to as int] != 0) || kind == MOV_PROMO || kind == MOV_CAS
            || kind == MOV_ENP ==> apply_move(s, from, to, kind, promo).non_cap_mov_count == 0,
        (kind == MOV_REG && s.board[to as int] == 0) || kind == MOV_CR_ENP ==> apply_move(
            s,
            from,
            to,
            kind,
            promo,
        ).non_cap_mov_count == s.non_cap_mov_count + 1,
{
}

/// The fifty-move rule draws the game exactly when the ply counter has
/// reached one hundred. Below that only the repetition pattern draws it.
pub proof fn lemma_fifty_move_rule(s: StateView)
    ensures
        fifty_move_draw(s.non_cap_mov_count) <==> s.non_cap_mov_count >= 100,
        s.non_cap_mov_count >= 100 ==> draw(s),
        s.non_cap_mov_count < 100 ==> (draw(s) <==> repetition_draw(
            s.non_cap_mov_count,
            s.history_mov_stack,
        )),
{
}

/// The six half-moves of a piece that goes from `a` to `b`, back and to `b`
/// again, while another goes from `c` to `d`, back and to `d` again.
pub open spec fn back_and_forth(a: usize, b: usize, c: usize, d: usize) -> Seq<Move> {
    seq![
        Move { from: a, to: b, kind: MOV_REG, promo: 0 },
        Move { from: c, to: d, kind: MOV_REG, promo: 0 },
        Move { from: b, to: a, kind: MOV_REG, promo: 0 },
        Move { from: d, to: c, kind: MOV_REG, promo: 0 },
        Move { from: a, to: b, kind: MOV_REG, promo: 0 },
        Move { from: c, to: d, kind: MOV_REG, promo: 0 },
    ]
}

/// Two pieces that each step to an empty square and back, and then repeat
/// their first step, leave a position that the repetition pattern reports
/// as drawn.
pub proof fn lemma_back_and_forth_is_draw(s: StateView, a: usize, b: usize, c: usize, d: usize)
    requires
        s.board.len() == BOARD_SIZE,
        on_board(a as int) && on_board(b as int) && on_board(c as int) && on_board(d as int),
        a != b && a != c && a != d && b != c && b != d && c != d,
        s.board[b as int] == 0,
        s.board[d as int] == 0,
        s.non_cap_mov_count + 6 <= u16::MAX,
    ensures
        repetition_draw(
            after_moves(s, back_and_forth(a, b, c, d)).non_cap_mov_count,
            after_moves(s, back_and_forth(a, b, c, d)).history_mov_stack,
        ),
        draw(after_moves(s, back_and_forth(a, b, c, d))),
{
    let moves = back_and_forth(a, b, c, d);
    let s0 = s;
    let s1 = after_move(s0, moves[0]);
    let s2 = after_move(s1, moves[1]);
    let s3 = after_move(s2, moves[2]);
    let s4 = after_move(s3, moves[3]);
    let s5 = after_move(s4, moves[4]);
    let s6 = after_move(s5, moves[5]);
    assert(after_moves(s, moves.take(0)) == s0);
    assert(after_moves(s, moves.take(1)) == s1) by {
        assert(moves.take(1).drop_last() =~= moves.take(0));
    }
    assert(after_moves(s, moves.take(2)) == s2) by {
        assert(moves.take(2).drop_last() =~= moves.take(1));
    }
    assert(after_moves(s, moves.take(3)) == s3) by {
        assert(moves.take(3).drop_last() =~= moves.take(2));
    }
    assert(after_moves(s, moves.take(4)) == s4) by {
        assert(moves.take(4).drop_last() =~= moves.take(3));
    }
    assert(after_moves(s, moves.take(5)) == s5) by {
        assert(moves.take(5).drop_last() =~= moves.take(4));
    }
    assert(after_moves(s, moves) == s6) by {
        assert(moves.drop_last() =~= moves.take(5));
    }
    assert(s4.board =~= s.board);
}

/// Applying a move and reversing one keep a position well formed, and so do
/// a null move and, while a null move is still to be taken back, taking it
/// back.
pub proof fn lemma_moves_keep_well_formed(s: StateView, from: usize, to: usize, kind: u8, promo: u8)
    requires
        well_formed(s),
    ensures
        do_mov_error(s, from, to, kind) is None ==> well_formed(
            apply_move(s, from, to, kind, promo),
        ),
        undo_mov_error(s, from, to, kind) is None ==> well_formed(revert_move(s, from, to, kind)),
        well_formed(apply_null_move(s)),
        s.enp_sqr_stack.len() > s.history_mov_stack.len() ==> well_formed(revert_null_move(s)),
{
}

/// On a well-formed position reversing a move is refused for want of
/// history exactly when no move is on the log.
pub proof fn lemma_history_is_the_log(s: StateView, from: usize, to: usize, kind: u8)
    requires
        well_formed(s),
    ensures
        undo_mov_error(s, from, to, kind) == Some(MoveError::EmptyHistory) ==> s.history_mov_stack.len()
            == 0,
        s.history_mov_stack.len() == 0 ==> undo_mov_error(s, from, to, kind) is Some,
{
}

/// Whether the cached square of the first player's king holds that king.
pub open spec fn white_king_cached(s: StateView) -> bool {
    s.wk_index < BOARD_SIZE && s.board[s.wk_index as int] == WK
}

/// Whether the cached square of the second player's king holds that king.
pub open spec fn black_king_cached(s: StateView) -> bool {
    s.bk_index < BOARD_SIZE && s.board[s.bk_index as int] == BK
}

/// Whether the move leaves the kings to regular moves and castles, and
/// takes none: it neither lands on the square of `king_index`, nor takes
/// the piece there in passing, nor moves it as if it were a pawn.
pub open spec fn spares_king(s: StateView, king_index: usize, from: usize, to: usize, kind: u8) -> bool {
    &&& to != king_index || (kind == MOV_CAS && !is_castle_square(to as int))
    &&& kind == MOV_ENP ==> square_behind(to as int, s.player) != king_index
    &&& kind == MOV_PROMO || kind == MOV_ENP || kind == MOV_CR_ENP ==> from != king_index
}

/// The cached king squares follow the kings: a move of legal shape that
/// spares the kings leaves each cache on the square of its king.
pub proof fn lemma_king_cache_follows(s: StateView, from: usize, to: usize, kind: u8, promo: u8)
    requires
        s.board.len() == BOARD_SIZE,
        do_mov_error(s, from, to, kind) is None,
        legal_shaped(s, from, to, kind),
    ensures
        white_king_cached(s) && spares_king(s, s.wk_index, from, to, kind) ==> white_king_cached(
            apply_move(s, from, to, kind, promo),
        ),
        black_king_cached(s) && spares_king(s, s.bk_index, from, to, kind) ==> black_king_cached(
            apply_move(s, from, to, kind, promo),
        ),
{
}

/// Where one of the first `n` squares read holds `piece`, the square that
/// `last_seen` gives holds it.
pub proof fn lemma_last_seen_holds_piece(board: Seq<u8>, piece: u8, n: nat)
    requires
        n <= 64,
        exists|p: int| 0 <= p < n && board[#[trigger] scan_square(p)] == piece,
    ensures
        on_board(last_seen(board, piece, n) as int),
        board[last_seen(board, piece, n) as int] == piece,
    decreases n,
{
    if board[scan_square(n - 1)] == piece {
    } else {
        let p = choose|p: int| 0 <= p < n && board[#[trigger] scan_square(p)] == piece;
        assert(0 <= p < n - 1 && board[scan_square(p)] == piece);
        lemma_last_seen_holds_piece(board, piece, (n - 1) as nat);
    }
}

/// A descriptor that is accepted gives a well-formed position, and where
/// its board holds a king the cache of that king points to one.
pub proof fn lemma_decoded_position(fen: Seq<char>)
    requires
        fen_error(fen) is None,
    ensures
        well_formed(decode(fen)),
        decode(fen).player == PLAYER_W || decode(fen).player == PLAYER_B,
        on_board(decode(fen).enp_square as int),
        (exists|i: int| on_board(i) && decode(fen).board[i] == WK) ==> white_king_cached(
            decode(fen),
        ),
        (exists|i: int| on_board(i) && decode(fen).board[i] == BK) ==> black_king_cached(
            decode(fen),
        ),
{
    let board = decode(fen).board;
    if exists|i: int| on_board(i) && board[i] == WK {
        let i = choose|i: int| on_board(i) && board[i] == WK;
        let p = (7 - i / 16) * 8 + i % 16;
        assert(scan_square(p) == i);
        lemma_last_seen_holds_piece(board, WK, 64);
    }
    if exists|i: int| on_board(i) && board[i] == BK {
        let i = choose|i: int| on_board(i) && board[i] == BK;
        let p = (7 - i / 16) * 8 + i % 16;
        assert(scan_square(p) == i);
        lemma_last_seen_holds_piece(board, BK, 64);
    }
}

/// The cells of the array that are no squares of the board are never
/// written, neither by applying a move nor by reversing one.
pub proof fn lemma_padding_untouched(s: StateView, from: usize, to: usize, kind: u8, promo: u8, i: int)
    requires
        s.board.len() == BOARD_SIZE,
        0 <= i < BOARD_SIZE,
        !on_board(i),
    ensures
        do_mov_error(s, from, to, kind) is None ==> apply_move(s, from, to, kind, promo).board[i]
            == s.board[i],
        undo_mov_error(s, from, to, kind) is None ==> revert_move(s, from, to, kind).board[i]
            == s.board[i],
{
}

} // verus!
