//! From grid cells to pixels.

use vstd::prelude::*;

verus! {

/// The side of one grid cell, in pixels.
pub const BLOCK_SIZE: u32 = 25;

/// The pixel at which the cell with coordinate `game_coord` begins:
/// `BLOCK_SIZE` times the coordinate, held to what a `u32` can take. A cell
/// left of or above the origin begins at pixel 0.
pub open spec fn pixel_of(game_coord: int) -> int {
    let wide = game_coord * BLOCK_SIZE;
    if wide < 0 {
        0
    } else if wide > u32::MAX {
        u32::MAX as int
    } else {
        wide
    }
}

/// The pixel at which the cell with coordinate `game_coord` begins.
pub fn to_coord_u32(game_coord: i32) -> (r: u32)
    ensures
        r == pixel_of(game_coord as int),
{
    if game_coord <= 0 {
        0
    } else {
        let cells: u64 = game_coord as u64;
        let side: u64 = BLOCK_SIZE as u64;
        assert(cells * side == cells * 25) by (nonlinear_arith)
            requires
                side == 25,
        ;
        let wide: u64 = cells * side;
        if wide > u32::MAX as u64 {
            u32::MAX
        } else {
            wide as u32
        }
    }
}

} // verus!
