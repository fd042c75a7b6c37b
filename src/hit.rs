//! Choice of the nearest surface along a ray and the shadow test.
//!
//! A distance along a ray is held as the IEEE-754 bit pattern of a single-precision value.
//! For non-negative values, and for positive infinity, the order of these patterns read as
//! unsigned integers is the order of the values; every NaN pattern lies above that of infinity,
//! so, as with the float comparisons, a NaN distance is never "nearer" than a finite one.
use vstd::prelude::*;

verus! {

/// Distances at or below this (`0.001`) are self-intersections and never count as a hit.
pub const HIT_EPSILON: u32 = 0x3A83_126F;

/// Occluders at or below this distance (`0.0001`) from a shadow ray's origin are ignored.
pub const SHADOW_EPSILON: u32 = 0x38D1_B717;

/// Positive infinity: the distance of "nothing hit yet".
pub const FAR: u32 = 0x7F80_0000;

/// A reported intersection distance that counts as a hit of a primary or bounce ray.
pub open spec fn is_candidate(t: Option<u32>) -> bool {
    match t {
        Some(d) => HIT_EPSILON < d && d < FAR,
        None => false,
    }
}

/// The distance of a reported intersection (meaningful only when there is one).
pub open spec fn dist(t: Option<u32>) -> u32 {
    match t {
        Some(d) => d,
        None => FAR,
    }
}

/// Entry `i` is the nearest hit: the smallest candidate distance, the first one among equals.
pub open spec fn is_nearest(hits: Seq<Option<u32>>, i: int) -> bool {
    &&& 0 <= i < hits.len()
    &&& is_candidate(hits[i])
    &&& forall|j: int| 0 <= j < hits.len() && is_candidate(hits[j]) ==> dist(hits[i]) <= dist(hits[j])
    &&& forall|j: int| 0 <= j < i && is_candidate(hits[j]) ==> dist(hits[i]) < dist(hits[j])
}

pub open spec fn has_candidate(hits: Seq<Option<u32>>) -> bool {
    exists|j: int| 0 <= j < hits.len() && is_candidate(hits[j])
}

/// An intersection that blocks a shadow ray whose light lies at distance `to_light`.
pub open spec fn blocks(t: Option<u32>, to_light: u32) -> bool {
    match t {
        Some(d) => SHADOW_EPSILON < d && d < to_light,
        None => false,
    }
}

/// Index of the primitive that a ray meets first, given what each primitive reported
/// (in scene order); `None` when no report is a hit.
pub fn nearest_hit(hits: &Vec<Option<u32>>) -> (r: Option<usize>)
    ensures
        r is None <==> !has_candidate(hits@),
        r matches Some(i) ==> is_nearest(hits@, i as int),
{
    let mut best: Option<usize> = None;
    let mut closest: u32 = FAR;
    let mut k: usize = 0;
    while k < hits.len()
        invariant
            k <= hits.len(),
            best is None ==> closest == FAR && forall|j: int| 0 <= j < k ==> !is_candidate(hits@[j]),
            best matches Some(i) ==> {
                &&& i < k
                &&& is_candidate(hits@[i as int])
                &&& closest == dist(hits@[i as int])
                &&& forall|j: int| 0 <= j < k && is_candidate(hits@[j]) ==> closest <= dist(hits@[j])
                &&& forall|j: int| 0 <= j < i && is_candidate(hits@[j]) ==> closest < dist(hits@[j])
            },
        decreases hits.len() - k,
    {
        if let Some(t) = hits[k] {
            if t < closest && t > HIT_EPSILON {
                closest = t;
                best = Some(k);
            }
        }
        k = k + 1;
    }
    best
}

/// Whether some primitive blocks the way from a surface point to a light `to_light` away,
/// given what each primitive reported for the shadow ray.
pub fn in_shadow(hits: &Vec<Option<u32>>, to_light: u32) -> (r: bool)
    ensures
        r == exists|j: int| 0 <= j < hits.len() && blocks(hits@[j], to_light),
{
    let mut k: usize = 0;
    while k < hits.len()
        invariant
            k <= hits.len(),
            forall|j: int| 0 <= j < k ==> !blocks(hits@[j], to_light),
        decreases hits.len() - k,
    {
        if let Some(t) = hits[k] {
            if t > SHADOW_EPSILON && t < to_light {
                return true;
            }
        }
        k = k + 1;
    }
    false
}

/// For each light, in scene order, whether it reaches the surface point: `shadow_hits[k]`
/// holds what each primitive reported for the shadow ray toward light `k`, and `to_light[k]`
/// the distance to that light. A light that is blocked contributes nothing at all.
pub fn visible_lights(shadow_hits: &Vec<Vec<Option<u32>>>, to_light: &Vec<u32>) -> (r: Vec<bool>)
    requires
        shadow_hits.len() == to_light.len(),
    ensures
        r.len() == to_light.len(),
        forall|k: int| 0 <= k < r.len() ==> r[k] == !exists|j: int|
            0 <= j < shadow_hits[k].len() && blocks(shadow_hits[k]@[j], to_light[k]),
{
    let mut r: Vec<bool> = Vec::new();
    let mut k: usize = 0;
    while k < to_light.len()
        invariant
            shadow_hits.len() == to_light.len(),
            k <= to_light.len(),
            r.len() == k,
            forall|m: int| 0 <= m < k ==> r[m] == !exists|j: int|
                0 <= j < shadow_hits[m].len() && blocks(shadow_hits[m]@[j], to_light[m]),
        decreases to_light.len() - k,
    {
        let blocked = in_shadow(&shadow_hits[k], to_light[k]);
        r.push(!blocked);
        k = k + 1;
    }
    r
}

} // verus!
