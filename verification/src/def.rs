//! Piece, player and square encoding.
//!
//! A piece code is a byte made of two bit groups: the two low bits name the
//! owner (`PLAYER_W` or `PLAYER_B`), the six bits above them name the piece
//! type, one bit each. Zero is an empty square.

use vstd::prelude::*;

verus! {

pub const BOARD_SIZE: usize = 120;

pub const DIM_SIZE: usize = 8;

pub const MOV_REG: u8 = 1;

pub const MOV_PROMO: u8 = 2;

pub const MOV_CAS: u8 = 3;

pub const MOV_ENP: u8 = 4;

pub const MOV_CR_ENP: u8 = 5;

pub const CAS_SQUARE_WK: usize = 6;

pub const CAS_SQUARE_WQ: usize = 2;

pub const CAS_SQUARE_BK: usize = 118;

pub const CAS_SQUARE_BQ: usize = 114;

pub const PLAYER_W: u8 = 0b10;

pub const PLAYER_B: u8 = 0b01;

pub const PLAYER_SWITCH: u8 = 0b11;

pub const WP: u8 = 6;

pub const WN: u8 = 10;

pub const WB: u8 = 18;

pub const WR: u8 = 34;

pub const WQ: u8 = 66;

pub const WK: u8 = 130;

pub const BP: u8 = 5;

pub const BN: u8 = 9;

pub const BB: u8 = 17;

pub const BR: u8 = 33;

pub const BQ: u8 = 65;

pub const BK: u8 = 129;

pub const P: u8 = 0b100;

pub const N: u8 = 0b1000;

pub const B: u8 = 0b10000;

pub const R: u8 = 0b100000;

pub const Q: u8 = 0b1000000;

pub const K: u8 = 0b10000000;

/// A square of the board proper: below the array's end and in the left
/// half of its sixteen-wide row.
pub open spec fn on_board(index: int) -> bool {
    0 <= index < BOARD_SIZE && index % 16 < 8
}

/// The 0x88 test. It accepts exactly the indices whose bits 3 and 7 are
/// clear; below 128 those are the squares of the board.
#[inline]
pub fn is_index_valid(index: usize) -> (valid: bool)
    ensures
        valid == (index & 0x88 == 0),
        index < 128 ==> (valid <==> on_board(index as int)),
{
    assert(index < 128 ==> ((index & 0x88 == 0) <==> (index < 120 && index % 16 < 8)))
        by (bit_vector);
    index & 0x88 == 0
}

/// The other player: both colour bits flipped.
#[inline]
pub fn get_opposite_player(player: u8) -> (other: u8)
    ensures
        other == player ^ PLAYER_SWITCH,
        player == PLAYER_W ==> other == PLAYER_B,
        player == PLAYER_B ==> other == PLAYER_W,
{
    assert(0b10u8 ^ 0b11u8 == 0b01u8) by (bit_vector);
    assert(0b01u8 ^ 0b11u8 == 0b10u8) by (bit_vector);
    player ^ PLAYER_SWITCH
}

/// Whether `piece_code` carries every colour bit of `player`.
#[inline]
pub fn on_same_side(player: u8, piece_code: u8) -> (same: bool)
    ensures
        same == (player & piece_code == player),
{
    player & piece_code == player
}

#[inline]
pub fn is_k(piece_code: u8) -> (yes: bool)
    ensures
        yes == (piece_code & K != 0),
{
    piece_code & K != 0
}

#[inline]
pub fn is_q(piece_code: u8) -> (yes: bool)
    ensures
        yes == (piece_code & Q != 0),
{
    piece_code & Q != 0
}

#[inline]
pub fn is_r(piece_code: u8) -> (yes: bool)
    ensures
        yes == (piece_code & R != 0),
{
    piece_code & R != 0
}

#[inline]
pub fn is_b(piece_code: u8) -> (yes: bool)
    ensures
        yes == (piece_code & B != 0),
{
    piece_code & B != 0
}

#[inline]
pub fn is_n(piece_code: u8) -> (yes: bool)
    ensures
        yes == (piece_code & N != 0),
{
    piece_code & N != 0
}

#[inline]
pub fn is_p(piece_code: u8) -> (yes: bool)
    ensures
        yes == (piece_code & P != 0),
{
    piece_code & P != 0
}

} // verus!
