//! Marker-ring geometry: maps a marker index to one of eight compass
//! positions on a face, using only the unit offsets -1, 0 and 1.
//!
//! A marker index is reduced modulo 8; position 0 is the top of the ring
//! and positions proceed clockwise. The screen position of a marker, in
//! per-mille units of the face width and height, is
//! `x = 500 + 280 * x_offset` and `y = 500 - 400 * y_offset`.

use vstd::prelude::*;

verus! {

/// Horizontal unit offset of ring position `n` (reduced modulo 8):
/// 0 at top and bottom, 1 on the right half, -1 on the left half.
pub open spec fn x_offset_spec(n: int) -> int {
    let m = n % 8;
    if m == 0 || m == 4 {
        0
    } else if m <= 3 {
        1
    } else {
        -1
    }
}

/// Vertical unit offset of ring position `n` (reduced modulo 8):
/// 1 on the top arc {0, 1, 7}, 0 on the sides {2, 6}, -1 on the bottom arc.
pub open spec fn y_offset_spec(n: int) -> int {
    let m = n % 8;
    if m == 0 || m == 1 || m == 7 {
        1
    } else if m == 2 || m == 6 {
        0
    } else {
        -1
    }
}

pub fn x_offset(n: u8) -> (r: i32)
    ensures
        r == x_offset_spec(n as int),
{
    match n % 8 {
        0 | 4 => 0,
        1 | 2 | 3 => 1,
        _ => -1,
    }
}

pub fn y_offset(n: u8) -> (r: i32)
    ensures
        r == y_offset_spec(n as int),
{
    match n % 8 {
        0 | 1 | 7 => 1,
        2 | 6 => 0,
        _ => -1,
    }
}

/// Both offsets are periodic with period 8: reducing the index modulo 8
/// first never changes the offset.
pub proof fn lemma_offset_periodic(n: int)
    ensures
        x_offset_spec(n) == x_offset_spec(n % 8),
        y_offset_spec(n) == y_offset_spec(n % 8),
{
    assert(0 <= n % 8 < 8) by (nonlinear_arith);
    assert((n % 8) % 8 == n % 8) by (nonlinear_arith)
        requires 0 <= n % 8 < 8;
}

/// Horizontal marker position on the ring, in per-mille of the face width.
pub open spec fn marker_x_spec(n: int) -> int {
    500 + 280 * x_offset_spec(n)
}

/// Vertical marker position on the ring, in per-mille of the face height.
pub open spec fn marker_y_spec(n: int) -> int {
    500 - 400 * y_offset_spec(n)
}

pub fn marker_x(n: u8) -> (r: u32)
    ensures
        r == marker_x_spec(n as int),
{
    match x_offset(n) {
        0 => 500,
        1 => 780,
        _ => 220,
    }
}

pub fn marker_y(n: u8) -> (r: u32)
    ensures
        r == marker_y_spec(n as int),
{
    match y_offset(n) {
        0 => 500,
        1 => 100,
        _ => 900,
    }
}

} // verus!
