use vstd::prelude::*;

pub mod bus;
pub mod config;
pub mod monitor;
pub mod player;
pub mod state;

verus! {

/// Volume is stored in millionths of full scale: `1_000_000` is full volume.
pub const VOLUME_SCALE: i64 = 1_000_000;

/// Clamps `v` into the closed interval `[lo, hi]`.
pub open spec fn clamp_spec(v: int, lo: int, hi: int) -> int
    recommends
        lo <= hi,
{
    if v < lo {
        lo
    } else if v > hi {
        hi
    } else {
        v
    }
}

/// Clamps a raw volume request into the accepted range `[0, VOLUME_SCALE]`.
pub fn clamp_volume(v: i64) -> (r: i64)
    ensures
        r == clamp_spec(v as int, 0, VOLUME_SCALE as int),
{
    if v < 0 {
        0
    } else if v > VOLUME_SCALE {
        VOLUME_SCALE
    } else {
        v
    }
}

} // verus!
