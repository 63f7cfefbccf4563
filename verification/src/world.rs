use vstd::prelude::*;
use crate::player::Player;

verus! {

/// Columns the terrain is divided into; its height is kept at the
/// `TERRAIN_SEGMENTS + 1` column boundaries.
pub const TERRAIN_SEGMENTS: usize = 384;

/// How far across the world a side's base stands, in percent.
pub open spec fn spec_base_percent(p: Player) -> usize {
    match p {
        Player::Blue => 15,
        Player::Red => 85,
    }
}

/// The terrain boundary a side's base is built on.
pub open spec fn spec_base_segment(p: Player) -> usize {
    (TERRAIN_SEGMENTS * spec_base_percent(p) / 100) as usize
}

/// The terrain boundary on which the base of side `p` is built: Blue's at
/// fifteen percent of the way across the world, Red's at eighty-five.
pub fn base_segment(p: Player) -> (r: usize)
    ensures
        r == spec_base_segment(p),
        r < TERRAIN_SEGMENTS,
        p == Player::Blue ==> r == TERRAIN_SEGMENTS * 15 / 100,
        p == Player::Red ==> r == TERRAIN_SEGMENTS * 85 / 100,
{
    let percent: usize = match p {
        Player::Blue => 15,
        Player::Red => 85,
    };
    TERRAIN_SEGMENTS * percent / 100
}

/// The bases stand on the terrain, Blue's to the left of Red's.
pub proof fn lemma_bases_apart()
    ensures
        spec_base_segment(Player::Blue) < spec_base_segment(Player::Red),
        spec_base_segment(Player::Red) <= TERRAIN_SEGMENTS,
{
}

} // verus!
