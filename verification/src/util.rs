//! Lookup tables between the textual and the encoded form of pieces and
//! squares.

use vstd::prelude::*;
use crate::def::{BB, BK, BN, BP, BQ, BR, WB, WK, WN, WP, WQ, WR};

verus! {

/// The piece that a letter stands for: upper case for the first player,
/// lower case for the second. Zero for any other character.
pub open spec fn piece_code(piece_char: char) -> u8 {
    match piece_char {
        'P' => WP,
        'N' => WN,
        'B' => WB,
        'R' => WR,
        'Q' => WQ,
        'K' => WK,
        'p' => BP,
        'n' => BN,
        'b' => BB,
        'r' => BR,
        'q' => BQ,
        'k' => BK,
        _ => 0,
    }
}

/// The letter that shows a piece, and `'-'` for an empty square or a code
/// that names no piece.
pub open spec fn piece_char(piece_code: u8) -> char {
    if piece_code == WP {
        'P'
    } else if piece_code == WN {
        'N'
    } else if piece_code == WB {
        'B'
    } else if piece_code == WR {
        'R'
    } else if piece_code == WQ {
        'Q'
    } else if piece_code == WK {
        'K'
    } else if piece_code == BP {
        'p'
    } else if piece_code == BN {
        'n'
    } else if piece_code == BB {
        'b'
    } else if piece_code == BR {
        'r'
    } else if piece_code == BQ {
        'q'
    } else if piece_code == BK {
        'k'
    } else {
        '-'
    }
}

pub open spec fn is_file_char(c: char) -> bool {
    'a' <= c && c <= 'h'
}

pub open spec fn is_rank_char(c: char) -> bool {
    '1' <= c && c <= '8'
}

/// The square that an algebraic notation names: a file letter `a` to `h`
/// followed by a rank digit `1` to `8`. Ranks are sixteen cells apart.
pub open spec fn sqr_index(notation: Seq<char>) -> Option<usize> {
    if notation.len() == 2 && is_file_char(notation[0]) && is_rank_char(notation[1]) {
        Some(((notation[1] as int - '1' as int) * 16 + (notation[0] as int - 'a' as int)) as usize)
    } else {
        None
    }
}

/// `String::push` of the standard library appends the character to the end
/// of the string and changes nothing else of it.
pub assume_specification[ String::push ](s: &mut String, ch: char)
    ensures
        final(s)@ == old(s)@.push(ch),
;

pub fn map_piece_char_to_code(piece_char: char) -> (code: u8)
    ensures
        code == piece_code(piece_char),
{
    match piece_char {
        'P' => WP,
        'N' => WN,
        'B' => WB,
        'R' => WR,
        'Q' => WQ,
        'K' => WK,
        'p' => BP,
        'n' => BN,
        'b' => BB,
        'r' => BR,
        'q' => BQ,
        'k' => BK,
        _ => 0,
    }
}

pub fn map_piece_code_to_char(piece_code: u8) -> (shown: char)
    ensures
        shown == piece_char(piece_code),
{
    if piece_code == WP {
        'P'
    } else if piece_code == WN {
        'N'
    } else if piece_code == WB {
        'B'
    } else if piece_code == WR {
        'R'
    } else if piece_code == WQ {
        'Q'
    } else if piece_code == WK {
        'K'
    } else if piece_code == BP {
        'p'
    } else if piece_code == BN {
        'n'
    } else if piece_code == BB {
        'b'
    } else if piece_code == BR {
        'r'
    } else if piece_code == BQ {
        'q'
    } else if piece_code == BK {
        'k'
    } else {
        '-'
    }
}

/// The square named by two characters, when they are a file letter and a
/// rank digit.
pub fn sqr_index_of(file: char, rank: char) -> (index: Option<usize>)
    ensures
        index == sqr_index(seq![file, rank]),
{
    if file >= 'a' && file <= 'h' && rank >= '1' && rank <= '8' {
        let file_index: u8 = (file as u8) - ('a' as u8);
        let rank_index: u8 = (rank as u8) - ('1' as u8);
        Some(rank_index as usize * 16 + file_index as usize)
    } else {
        None
    }
}

/// Reads an algebraic square notation such as `e4`. Anything that is not
/// exactly a file letter followed by a rank digit gives `None`.
pub fn map_sqr_notation_to_index(sqr_notation: &str) -> (index: Option<usize>)
    ensures
        index == sqr_index(sqr_notation@),
        index matches Some(i) ==> crate::def::on_board(i as int),
{
    if sqr_notation.unicode_len() != 2 {
        return None;
    }
    let file: char = sqr_notation.get_char(0);
    let rank: char = sqr_notation.get_char(1);
    assert(sqr_notation@ =~= seq![file, rank]);
    sqr_index_of(file, rank)
}

} // verus!
