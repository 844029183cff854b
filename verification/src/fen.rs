//! Reading a position from its textual descriptor.
//!
//! A descriptor has at least four fields, one space between two of them:
//! the board, the player to move, the castling rights and the en-passant
//! target. Fields after the fourth are not looked at. The board is eight
//! rank descriptors with `/` between them, the far rank first; in a rank
//! descriptor a digit stands for that many empty squares and a letter for a
//! piece, and together they fill exactly eight squares.

use vstd::prelude::*;
use crate::def::{BK, BOARD_SIZE, DIM_SIZE, PLAYER_B, PLAYER_W, WK};
use crate::moves::StateView;
use crate::util::{map_piece_char_to_code, piece_code, sqr_index, sqr_index_of};

verus! {

/// Why a descriptor was refused. Of several faults the one in the earliest
/// field is reported, a missing field before all.
#[derive(Clone, Copy, Debug, PartialEq, Eq, Structural)]
pub enum FenError {
    /// The descriptor has fewer than four fields.
    MissingField,
    /// The board field has not eight ranks, or a rank holds a character that
    /// is neither a digit nor a piece letter, or does not fill eight squares.
    BadBoard,
    /// The player field is neither `w` nor `b`.
    BadPlayer,
    /// The castling field is not `-` and holds a character other than
    /// `K`, `Q`, `k`, `q`.
    BadCastling,
    /// The en-passant field is neither `-` nor the notation of a square.
    BadEnPassant,
}

/// The pieces into which the separator `sep` cuts `s`, in order. There is
/// one piece more than there are separators, and a piece may be empty.
pub open spec fn split(s: Seq<char>, sep: char) -> Seq<Seq<char>>
    decreases s.len(),
{
    if s.len() == 0 {
        seq![Seq::<char>::empty()]
    } else {
        let before = split(s.drop_last(), sep);
        if s.last() == sep {
            before.push(Seq::<char>::empty())
        } else {
            before.drop_last().push(before.last().push(s.last()))
        }
    }
}

pub open spec fn is_digit(c: char) -> bool {
    '0' <= c && c <= '9'
}

pub open spec fn digit_value(c: char) -> nat {
    (c as int - '0' as int) as nat
}

/// The squares that one character of a rank descriptor stands for.
pub open spec fn squares_of_char(c: char) -> Seq<u8> {
    if is_digit(c) {
        Seq::new(digit_value(c), |i: int| 0u8)
    } else {
        seq![piece_code(c)]
    }
}

/// The squares that a rank descriptor stands for, from file a on.
pub open spec fn squares_of_rank(rank: Seq<char>) -> Seq<u8>
    decreases rank.len(),
{
    if rank.len() == 0 {
        Seq::<u8>::empty()
    } else {
        squares_of_rank(rank.drop_last()) + squares_of_char(rank.last())
    }
}

/// Whether every character of a rank descriptor is a digit or a piece
/// letter.
pub open spec fn rank_chars_known(rank: Seq<char>) -> bool {
    forall|i: int| 0 <= i < rank.len() ==> is_digit(#[trigger] rank[i]) || piece_code(rank[i]) != 0
}

pub open spec fn rank_ok(rank: Seq<char>) -> bool {
    rank_chars_known(rank) && squares_of_rank(rank).len() == DIM_SIZE
}

pub open spec fn board_ok(field: Seq<char>) -> bool {
    let ranks = split(field, '/');
    &&& ranks.len() == DIM_SIZE
    &&& forall|k: int| 0 <= k < DIM_SIZE ==> rank_ok(#[trigger] ranks[k])
}

/// The board that a board field describes. Its first rank descriptor fills
/// the far rank; the cells beside the board stay zero.
pub open spec fn board_of(field: Seq<char>) -> Seq<u8> {
    let ranks = split(field, '/');
    Seq::new(
        BOARD_SIZE as nat,
        |i: int|
            if i % 16 < 8 {
                squares_of_rank(ranks[7 - i / 16])[i % 16]
            } else {
                0u8
            },
    )
}

/// The square that is read as number `position` when the board field is
/// read from its start: the far rank first, each rank from file a on.
pub open spec fn scan_square(position: int) -> int {
    (7 - position / 8) * 16 + position % 8
}

/// Among the first `n` squares read, the last one that holds `piece`, or
/// zero when none does.
pub open spec fn last_seen(board: Seq<u8>, piece: u8, n: nat) -> usize
    decreases n,
{
    if n == 0 {
        0
    } else if board[scan_square(n - 1)] == piece {
        scan_square(n - 1) as usize
    } else {
        last_seen(board, piece, (n - 1) as nat)
    }
}

/// The square cached for a king: where the board field places it, the
/// later place if it places several, zero if none.
pub open spec fn king_square(board: Seq<u8>, king: u8) -> usize {
    last_seen(board, king, 64)
}

pub open spec fn player_of(field: Seq<char>) -> Option<u8> {
    if field == seq!['w'] {
        Some(PLAYER_W)
    } else if field == seq!['b'] {
        Some(PLAYER_B)
    } else {
        None
    }
}

pub open spec fn is_castling_char(c: char) -> bool {
    c == 'K' || c == 'Q' || c == 'k' || c == 'q'
}

pub open spec fn castling_ok(field: Seq<char>) -> bool {
    field == seq!['-'] || forall|i: int|
        0 <= i < field.len() ==> is_castling_char(#[trigger] field[i])
}

pub open spec fn with_right(rights: u8, granted: bool, bit: u8) -> u8 {
    if granted {
        rights | bit
    } else {
        rights
    }
}

/// The castling rights that a castling field grants: one bit for each of
/// the four letters that occurs in it.
pub open spec fn rights_of(field: Seq<char>) -> u8 {
    with_right(
        with_right(
            with_right(with_right(0, field.contains('K'), 0b1000), field.contains('Q'), 0b0100),
            field.contains('k'),
            0b0010,
        ),
        field.contains('q'),
        0b0001,
    )
}

pub open spec fn enp_ok(field: Seq<char>) -> bool {
    field == seq!['-'] || sqr_index(field) is Some
}

/// The en-passant target that the field names, zero for none.
pub open spec fn enp_of(field: Seq<char>) -> usize {
    if field == seq!['-'] {
        0
    } else {
        sqr_index(field).unwrap()
    }
}

/// The fault for which a descriptor is refused, if it is.
pub open spec fn fen_error(fen: Seq<char>) -> Option<FenError> {
    let fields = split(fen, ' ');
    if fields.len() < 4 {
        Some(FenError::MissingField)
    } else if !board_ok(fields[0]) {
        Some(FenError::BadBoard)
    } else if player_of(fields[1]) is None {
        Some(FenError::BadPlayer)
    } else if !castling_ok(fields[2]) {
        Some(FenError::BadCastling)
    } else if !enp_ok(fields[3]) {
        Some(FenError::BadEnPassant)
    } else {
        None
    }
}

/// The position that a descriptor describes: no move made yet, so the ply
/// counter is zero and every stack empty.
pub open spec fn decode(fen: Seq<char>) -> StateView {
    let fields = split(fen, ' ');
    let board = board_of(fields[0]);
    StateView {
        board: board,
        player: player_of(fields[1]).unwrap(),
        cas_rights: rights_of(fields[2]),
        enp_square: enp_of(fields[3]),
        non_cap_mov_count: 0,
        wk_index: king_square(board, WK),
        bk_index: king_square(board, BK),
        taken_piece_stack: Seq::empty(),
        enp_sqr_stack: Seq::empty(),
        cas_rights_stack: Seq::empty(),
        history_mov_stack: Seq::empty(),
        non_cap_mov_count_stack: Seq::empty(),
        wk_index_stack: Seq::empty(),
        bk_index_stack: Seq::empty(),
    }
}

/// A longer start of a rank descriptor stands for no fewer squares.
proof fn lemma_rank_grows(rank: Seq<char>, j: int)
    requires
        0 <= j <= rank.len(),
    ensures
        squares_of_rank(rank.take(j)).len() <= squares_of_rank(rank).len(),
    decreases rank.len() - j,
{
    if j == rank.len() {
        assert(rank.take(j) =~= rank);
    } else {
        lemma_rank_grows(rank, j + 1);
        assert(rank.take(j + 1).drop_last() =~= rank.take(j));
    }
}

/// The characters of a string.
pub fn chars_of(s: &str) -> (chars: Vec<char>)
    ensures
        chars@ == s@,
{
    let mut chars: Vec<char> = Vec::new();
    for c in it: s.chars()
        invariant
            chars@ == it.seq().take(it.index() as int),
            it.seq() == s@,
    {
        chars.push(c);
    }
    chars
}

/// Cuts `s` at every `sep`.
pub fn split_chars(s: &Vec<char>, sep: char) -> (pieces: Vec<Vec<char>>)
    ensures
        pieces@.len() == split(s@, sep).len(),
        forall|k: int| 0 <= k < pieces@.len() ==> (#[trigger] pieces@[k])@ == split(s@, sep)[k],
{
    let mut pieces: Vec<Vec<char>> = Vec::new();
    let mut piece: Vec<char> = Vec::new();
    let mut i: usize = 0;
    while i < s.len()
        invariant
            i <= s.len(),
            split(s@.take(i as int), sep).len() == pieces@.len() + 1,
            forall|k: int|
                0 <= k < pieces@.len() ==> (#[trigger] pieces@[k])@ == split(
                    s@.take(i as int),
                    sep,
                )[k],
            piece@ == split(s@.take(i as int), sep).last(),
        decreases s.len() - i,
    {
        let c: char = s[i];
        proof {
            assert(s@.take(i + 1).drop_last() =~= s@.take(i as int));
        }
        if c == sep {
            pieces.push(piece);
            piece = Vec::new();
        } else {
            piece.push(c);
        }
        i += 1;
    }
    proof {
        assert(s@.take(i as int) =~= s@);
    }
    pieces.push(piece);
    pieces
}

/// Writes the squares of one rank descriptor into the eight cells from
/// `base` on, which are empty before.
fn place_rank(squares: &mut [u8; 120], rank: &Vec<char>, base: usize) -> (ok: bool)
    requires
        base + DIM_SIZE <= BOARD_SIZE,
        forall|i: int| base <= i < base + DIM_SIZE ==> old(squares)[i] == 0,
    ensures
        ok == rank_ok(rank@),
        ok ==> forall|i: int|
            base <= i < base + DIM_SIZE ==> final(squares)[i] == squares_of_rank(rank@)[i - base],
        forall|i: int|
            0 <= i < BOARD_SIZE && !(base <= i < base + DIM_SIZE) ==> final(squares)[i] == old(
                squares,
            )[i],
{
    let mut file: usize = 0;
    let mut j: usize = 0;
    while j < rank.len()
        invariant
            j <= rank.len(),
            base + DIM_SIZE <= BOARD_SIZE,
            file <= DIM_SIZE,
            file == squares_of_rank(rank@.take(j as int)).len(),
            rank_chars_known(rank@.take(j as int)),
            forall|i: int|
                base <= i < base + file ==> squares[i] == squares_of_rank(rank@.take(j as int))[i
                    - base],
            forall|i: int| base + file <= i < base + DIM_SIZE ==> squares[i] == 0,
            forall|i: int|
                0 <= i < BOARD_SIZE && !(base <= i < base + DIM_SIZE) ==> squares[i] == old(
                    squares,
                )[i],
        decreases rank.len() - j,
    {
        let c: char = rank[j];
        proof {
            assert(rank@.take(j + 1).drop_last() =~= rank@.take(j as int));
            lemma_rank_grows(rank@, j + 1);
        }
        if c >= '0' && c <= '9' {
            let skipped: usize = ((c as u8) - ('0' as u8)) as usize;
            if file + skipped > DIM_SIZE {
                return false;
            }
            file += skipped;
        } else {
            let piece: u8 = map_piece_char_to_code(c);
            if piece == 0 {
                assert(!is_digit(rank@[j as int]) && piece_code(rank@[j as int]) == 0);
                return false;
            }
            if file >= DIM_SIZE {
                return false;
            }
            squares[base + file] = piece;
            file += 1;
        }
        j += 1;
    }
    proof {
        assert(rank@.take(j as int) =~= rank@);
    }
    file == DIM_SIZE
}

/// The square cached for `king` on a board.
fn find_king(squares: &[u8; 120], king: u8) -> (index: usize)
    ensures
        index == king_square(squares@, king),
{
    let mut index: usize = 0;
    let mut position: usize = 0;
    while position < 64
        invariant
            position <= 64,
            index == last_seen(squares@, king, position as nat),
        decreases 64 - position,
    {
        let square: usize = (7 - position / 8) * 16 + position % 8;
        if squares[square] == king {
            index = square;
        }
        position += 1;
    }
    index
}

/// Reads the board field: the board and the squares of the two kings.
pub fn get_squares_from_fen(fen_squares: &Vec<char>) -> (res: Option<([u8; 120], usize, usize)>)
    ensures
        res is Some <==> board_ok(fen_squares@),
        res matches Some((squares, wk_index, bk_index)) ==> {
            &&& squares@ == board_of(fen_squares@)
            &&& wk_index == king_square(board_of(fen_squares@), WK)
            &&& bk_index == king_square(board_of(fen_squares@), BK)
        },
{
    let ranks: Vec<Vec<char>> = split_chars(fen_squares, '/');
    if ranks.len() != DIM_SIZE {
        return None;
    }
    let ghost described = split(fen_squares@, '/');
    let mut squares: [u8; 120] = [0u8;120];
    let mut rank_index: usize = 0;
    while rank_index < DIM_SIZE
        invariant
            rank_index <= DIM_SIZE,
            ranks@.len() == DIM_SIZE,
            described == split(fen_squares@, '/'),
            described.len() == DIM_SIZE,
            forall|k: int| 0 <= k < DIM_SIZE ==> (#[trigger] ranks@[k])@ == described[k],
            forall|k: int| 0 <= k < rank_index ==> rank_ok(#[trigger] described[k]),
            forall|i: int|
                0 <= i < BOARD_SIZE ==> #[trigger] squares[i] == (if i % 16 < 8 && 7 - i / 16
                    < rank_index {
                    squares_of_rank(described[7 - i / 16])[i % 16]
                } else {
                    0u8
                }),
        decreases DIM_SIZE - rank_index,
    {
        let base: usize = 112 - 16 * rank_index;
        let ok: bool = place_rank(&mut squares, &ranks[rank_index], base);
        if !ok {
            assert(!rank_ok(described[rank_index as int]));
            return None;
        }
        rank_index += 1;
    }
    assert(squares@ =~= board_of(fen_squares@));
    let wk_index: usize = find_king(&squares, WK);
    let bk_index: usize = find_king(&squares, BK);
    Some((squares, wk_index, bk_index))
}

/// Reads the player field.
pub fn get_player_from_fen(fen_player: &Vec<char>) -> (player: Option<u8>)
    ensures
        player == player_of(fen_player@),
{
    if fen_player.len() != 1 {
        return None;
    }
    let c: char = fen_player[0];
    proof {
        assert(fen_player@ =~= seq![c]);
        assert(seq!['w'][0] == 'w' && seq!['b'][0] == 'b');
    }
    if c == 'w' {
        Some(PLAYER_W)
    } else if c == 'b' {
        Some(PLAYER_B)
    } else {
        None
    }
}

/// Whether `c` occurs in `chars`.
fn contains_char(chars: &Vec<char>, c: char) -> (found: bool)
    ensures
        found == chars@.contains(c),
{
    let mut i: usize = 0;
    while i < chars.len()
        invariant
            i <= chars.len(),
            forall|k: int| 0 <= k < i ==> chars@[k] != c,
        decreases chars.len() - i,
    {
        if chars[i] == c {
            return true;
        }
        i += 1;
    }
    false
}

/// Whether `chars` is the one character `c`.
fn is_single(chars: &Vec<char>, c: char) -> (yes: bool)
    ensures
        yes == (chars@ == seq![c]),
{
    proof {
        assert(seq![c][0] == c);
    }
    if chars.len() == 1 && chars[0] == c {
        proof {
            assert(chars@ =~= seq![c]);
        }
        true
    } else {
        false
    }
}

/// Reads the castling field.
pub fn get_cas_rights_from_fen(fen_cas_rights: &Vec<char>) -> (rights: Option<u8>)
    ensures
        rights is Some <==> castling_ok(fen_cas_rights@),
        rights matches Some(cas_rights) ==> cas_rights == rights_of(fen_cas_rights@),
{
    if !is_single(fen_cas_rights, '-') {
        let mut i: usize = 0;
        while i < fen_cas_rights.len()
            invariant
                i <= fen_cas_rights.len(),
                fen_cas_rights@ != seq!['-'],
                forall|k: int| 0 <= k < i ==> is_castling_char(#[trigger] fen_cas_rights@[k]),
            decreases fen_cas_rights.len() - i,
        {
            let c: char = fen_cas_rights[i];
            if !(c == 'K' || c == 'Q' || c == 'k' || c == 'q') {
                assert(!is_castling_char(fen_cas_rights@[i as int]));
                return None;
            }
            i += 1;
        }
    }
    let mut cas_rights: u8 = 0;

    if contains_char(fen_cas_rights, 'K') {
        cas_rights = cas_rights | 0b1000;
    }
    if contains_char(fen_cas_rights, 'Q') {
        cas_rights = cas_rights | 0b0100;
    }
    if contains_char(fen_cas_rights, 'k') {
        cas_rights = cas_rights | 0b0010;
    }
    if contains_char(fen_cas_rights, 'q') {
        cas_rights = cas_rights | 0b0001;
    }
    Some(cas_rights)
}

/// Reads the en-passant field.
pub fn get_enp_sqr_from_fen(fen_enp_sqr: &Vec<char>) -> (target: Option<usize>)
    ensures
        target is Some <==> enp_ok(fen_enp_sqr@),
        target matches Some(enp_square) ==> enp_square == enp_of(fen_enp_sqr@),
{
    if is_single(fen_enp_sqr, '-') {
        return Some(0);
    }
    if fen_enp_sqr.len() != 2 {
        return None;
    }
    proof {
        assert(fen_enp_sqr@ =~= seq![fen_enp_sqr@[0], fen_enp_sqr@[1]]);
    }
    sqr_index_of(fen_enp_sqr[0], fen_enp_sqr[1])
}

} // verus!
