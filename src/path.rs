//! What one call of the path integrator does: stop, return the background, or shade a hit.
use vstd::prelude::*;
use crate::hit::{has_candidate, is_nearest, nearest_hit};

verus! {

/// Bounces counted from the first indirect one; a call at this depth returns no radiance.
pub const MAX_BOUNCES: u32 = 6;

/// The survival threshold `0.90`, as the bit pattern of a double-precision value.
///
/// Each call draws one uniform number in `[0, 1)`, held by its bit pattern (whose unsigned
/// order is the order of the values there); a draw above this ends the path with no radiance,
/// and surviving paths are not scaled up to compensate.
pub const SURVIVAL: u64 = 0x3FEC_CCCC_CCCC_CCCD;

/// The outcome of one call of the integrator.
#[derive(PartialEq, Eq, Structural, Clone, Copy, Debug)]
pub enum PathStep {
    /// The path ends here and contributes zero radiance.
    Terminate,
    /// The ray meets nothing: the camera's background color, unchanged.
    Background,
    /// The ray first meets the primitive at this index: shade it and bounce once more.
    Shade(usize),
}

/// Whether a call at `depth` goes on past the depth cap and the survival draw.
pub open spec fn survives(depth: u32, max_depth: u32, draw: u64) -> bool {
    depth < max_depth && draw <= SURVIVAL
}

/// What a call of the integrator at `depth` does, given its survival draw and what each
/// primitive of the scene reported for the ray.
pub fn path_step(depth: u32, max_depth: u32, draw: u64, hits: &Vec<Option<u32>>) -> (s: PathStep)
    ensures
        !survives(depth, max_depth, draw) <==> s == PathStep::Terminate,
        depth >= max_depth ==> s == PathStep::Terminate,
        survives(depth, max_depth, draw) && !has_candidate(hits@) <==> s == PathStep::Background,
        s matches PathStep::Shade(i) ==> survives(depth, max_depth, draw) && is_nearest(hits@, i as int),
        survives(depth, max_depth, draw) && has_candidate(hits@) ==> s is Shade,
{
    if depth >= max_depth {
        return PathStep::Terminate;
    }
    if draw > SURVIVAL {
        return PathStep::Terminate;
    }
    match nearest_hit(hits) {
        None => PathStep::Background,
        Some(i) => PathStep::Shade(i),
    }
}

} // verus!
