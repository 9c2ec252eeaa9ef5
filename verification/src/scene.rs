//! The search for the surface that a ray strikes first, and the light that
//! reaches the point struck.

use vstd::prelude::*;
use vstd::arithmetic::power2::{lemma2_to64_rest, lemma_pow2_adds, pow2};
use crate::scalar::{equal_values, magnitude_increases, one, value, Scalar};
use crate::shapes::Intersection;

pub mod camera;

verus! {

broadcast use crate::scalar::group_scalar_patterns;

/// The number of jittered rays cast through a pixel, beside the one through
/// its centre.
pub const SAMPLES: usize = 4;

/// The pattern of one thousandth, as near as binary64 comes to it: the least
/// parameter at which a hit counts. A ray that starts on a surface meets that
/// surface again at a parameter near zero, and such a hit is no hit.
pub const MIN_T: u64 = 0x3F50_624D_D2F1_A9FC;

/// The least parameter is the binary64 number nearest to one thousandth: a
/// thousand times it differs from one by 96 steps of 2^-62, and a thousand
/// times its neighbour to either side by over 900.
pub proof fn min_t_is_a_thousandth()
    ensures
        1000 * value(MIN_T) - one() == 96 * pow2(1012),
        1000 * value((MIN_T - 1) as u64) - one() == -904 * pow2(1012),
        1000 * value((MIN_T + 1) as u64) - one() == 1096 * pow2(1012),
{
    lemma2_to64_rest();
    lemma_pow2_adds(62, 1012);
    let p = pow2(1012) as int;
    assert(1000 * (0x10_624D_D2F1_A9FC * p) - 0x4000_0000_0000_0000 * p == 96 * p)
        by (nonlinear_arith);
    assert(1000 * (0x10_624D_D2F1_A9FB * p) - 0x4000_0000_0000_0000 * p == -904 * p)
        by (nonlinear_arith);
    assert(1000 * (0x10_624D_D2F1_A9FD * p) - 0x4000_0000_0000_0000 * p == 1096 * p)
        by (nonlinear_arith);
}

/// Whether an intersection takes part in the search: a hit that lies ahead of
/// the ray's origin by at least the least parameter.
pub open spec fn counts(h: Intersection) -> bool {
    h matches Intersection::Hit(t) && t@ >= 0 && t@ >= value(MIN_T)
}

/// Whether anything in the list takes part in the search.
pub open spec fn anything_counts(hits: Seq<Intersection>) -> bool {
    exists|k: int| 0 <= k < hits.len() && counts(#[trigger] hits[k])
}

/// Whether entry `i` is the closest hit of the list: it counts, nothing that
/// counts is nearer, and whatever counts before it is farther.
pub open spec fn is_closest(hits: Seq<Intersection>, i: int) -> bool {
    &&& 0 <= i < hits.len()
    &&& counts(hits[i])
    &&& forall|k: int|
        0 <= k < hits.len() && counts(#[trigger] hits[k]) ==> hits[i]->Hit_0@ <= hits[k]->Hit_0@
    &&& forall|k: int| 0 <= k < i && counts(#[trigger] hits[k]) ==> hits[i]->Hit_0@ < hits[k]->Hit_0@
}

/// Whether `found` is what the search returns on the list: nothing where
/// nothing counts, and else the closest hit's parameter and place.
pub open spec fn is_found(hits: Seq<Intersection>, found: Option<(Scalar, usize)>) -> bool {
    match found {
        Some((t, i)) => is_closest(hits, i as int) && hits[i as int] == Intersection::Hit(t),
        None => !anything_counts(hits),
    }
}

/// The closest hit among the intersections of one ray with the surfaces of a
/// scene, with its place in the list. Among equally close hits the first is
/// chosen.
pub fn find_closest(hits: &[Intersection]) -> (found: Option<(Scalar, usize)>)
    ensures
        is_found(hits@, found),
{
    let min_t = Scalar::from_bits(MIN_T).unwrap();
    let mut closest: Option<(Scalar, usize)> = None;
    let mut i: usize = 0;
    while i < hits.len()
        invariant
            i <= hits.len(),
            min_t@ == value(MIN_T),
            is_found(hits@.take(i as int), closest),
        decreases hits.len() - i,
    {
        if let Intersection::Hit(t) = hits[i] {
            if !t.lt(Scalar::zero()) && !t.abs().lt(min_t) {
                let nearer = match closest {
                    Some((best, _)) => t.lt(best),
                    None => true,
                };
                if nearer {
                    closest = Some((t, i));
                }
            }
        }
        i += 1;
    }
    assert(hits@.take(i as int) =~= hits@);
    closest
}

/// The share of the light that reaches a point, given the intersections of
/// the ray from the point towards the light and the cosine of the angle
/// between that ray and the surface's normal. Where that ray strikes anything,
/// however far away, the point lies in full shadow; else the share is the
/// cosine, or zero where the surface faces away. It is never negative.
pub fn light_brightness(shadow_hits: &[Intersection], cosine: Scalar) -> (brightness: Scalar)
    ensures
        brightness@ == if anything_counts(shadow_hits@) || cosine@ < 0 {
            0
        } else {
            cosine@
        },
        anything_counts(shadow_hits@) || cosine@ <= 0 ==> brightness == Scalar::of(0),
        !anything_counts(shadow_hits@) && cosine@ > 0 ==> brightness == cosine,
{
    let closest = find_closest(shadow_hits);
    if closest.is_some() {
        Scalar::zero()
    } else {
        Scalar::zero().max(cosine)
    }
}

/// The search has one answer: two results that both meet its contract on one
/// list are the same result.
pub proof fn closest_is_unique(
    hits: Seq<Intersection>,
    first: Option<(Scalar, usize)>,
    second: Option<(Scalar, usize)>,
)
    requires
        is_found(hits, first),
        is_found(hits, second),
    ensures
        first == second,
{
}

/// Where no surface is met at the ray's origin or ahead of it, the search
/// finds nothing.
pub proof fn nothing_ahead_nothing_found(hits: Seq<Intersection>, found: Option<(Scalar, usize)>)
    requires
        forall|k: int| 0 <= k < hits.len() ==> !(#[trigger] hits[k]).ahead(),
        is_found(hits, found),
    ensures
        found is None,
{
}

/// The intersections of a list of intersections paired with their surfaces.
pub open spec fn hits_of<S>(pairs: Seq<(Intersection, S)>) -> Seq<Intersection> {
    pairs.map_values(|pair: (Intersection, S)| pair.0)
}

/// Whether no two entries that count are equally far.
pub open spec fn no_ties(hits: Seq<Intersection>) -> bool {
    forall|j: int, k: int|
        0 <= j < k < hits.len() && counts(#[trigger] hits[j]) && counts(#[trigger] hits[k])
            ==> hits[j]->Hit_0@ != hits[k]->Hit_0@
}

/// An entry of one list stands somewhere in every list that holds the same
/// entries, each as often.
proof fn place_in_the_other<S>(
    a: Seq<(Intersection, S)>,
    b: Seq<(Intersection, S)>,
    i: int,
) -> (j: int)
    requires
        a.to_multiset() == b.to_multiset(),
        0 <= i < a.len(),
    ensures
        0 <= j < b.len(),
        b[j] == a[i],
        hits_of(b)[j] == hits_of(a)[i],
{
    a.to_multiset_ensures();
    b.to_multiset_ensures();
    assert(a.contains(a[i]));
    assert(b.to_multiset().count(a[i]) > 0);
    choose|j: int| 0 <= j < b.len() && b[j] == a[i]
}

/// The search does not depend on the order of the surfaces. For two lists that
/// hold the same pairs of intersection and surface, each as often: either both
/// searches find nothing, or they find the same parameter, and the same
/// surface too unless two hits that count are equally far.
pub proof fn closest_ignores_order<S>(
    a: Seq<(Intersection, S)>,
    b: Seq<(Intersection, S)>,
    found_a: Option<(Scalar, usize)>,
    found_b: Option<(Scalar, usize)>,
)
    requires
        a.to_multiset() == b.to_multiset(),
        is_found(hits_of(a), found_a),
        is_found(hits_of(b), found_b),
    ensures
        match (found_a, found_b) {
            (Some((ta, ia)), Some((tb, ib))) => {
                &&& ta == tb
                &&& no_ties(hits_of(a)) ==> a[ia as int].1 == b[ib as int].1
            },
            (None, None) => true,
            _ => false,
        },
{
    if let Some((ta, ia)) = found_a {
        let jb = place_in_the_other(a, b, ia as int);
        assert(counts(hits_of(b)[jb]));
        let (tb, ib) = found_b.unwrap();
        let ja = place_in_the_other(b, a, ib as int);
        magnitude_increases(0, MIN_T);
        equal_values(ta, tb);
    } else if let Some((tb, ib)) = found_b {
        let ja = place_in_the_other(b, a, ib as int);
        assert(counts(hits_of(a)[ja]));
    }
}

} // verus!
