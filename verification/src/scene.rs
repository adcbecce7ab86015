//! The scene: shapes in the order they were added, and lights.
//!
//! A scene does not look into its shapes. Whoever casts a ray asks every
//! shape where the ray meets it and hands the answers over, one per shape and
//! in the shapes' order: `None` for a miss, else the ray parameter of the hit.

use crate::point_light::PointLight;
use crate::scalar::{lawful, Scalar};
use vstd::prelude::*;
use vstd::std_specs::cmp::PartialOrdIs;

verus! {

/// Shapes of any type `S` and the lights that shine on them.
pub struct Scene<S, T> {
    pub objects: Vec<S>,
    pub lights: Vec<PointLight<T>>,
}

/// The place of the nearest hit: a scan from the first answer to the last
/// that moves on only to a hit strictly below the one it holds.
pub open spec fn spec_nearest<T: Scalar>(hits: Seq<Option<T>>) -> Option<int>
    decreases hits.len(),
{
    if hits.len() == 0 {
        None
    } else {
        let before = spec_nearest(hits.drop_last());
        match (before, hits.last()) {
            (None, Some(_)) => Some(hits.len() - 1),
            (Some(i), Some(t)) => if t.is_lt(&hits[i].unwrap()) {
                Some(hits.len() - 1)
            } else {
                Some(i)
            },
            (_, None) => before,
        }
    }
}

/// Some hit lies strictly between `zero` and `max_distance`.
pub open spec fn spec_is_occluded<T: Scalar>(
    hits: Seq<Option<T>>,
    zero: T,
    max_distance: T,
) -> bool {
    exists|i: int|
        0 <= i < hits.len() && (#[trigger] hits[i] matches Some(t) && zero.is_lt(&t) && t.is_lt(
            &max_distance,
        ))
}

/// The nearest hit is one of the hits.
pub proof fn lemma_nearest_is_a_hit<T: Scalar>(hits: Seq<Option<T>>)
    ensures
        spec_nearest(hits) matches Some(i) ==> 0 <= i < hits.len() && hits[i] is Some,
        spec_nearest(hits) is None <==> forall|j: int| 0 <= j < hits.len() ==> hits[j] is None,
    decreases hits.len(),
{
    if hits.len() > 0 {
        lemma_nearest_is_a_hit(hits.drop_last());
        if spec_nearest(hits) is None {
            assert forall|j: int| 0 <= j < hits.len() implies hits[j] is None by {
                if j < hits.len() - 1 {
                    assert(hits.drop_last()[j] is None);
                }
            }
        } else {
            assert(hits[hits.len() - 1] == hits.last());
            if let Some(i) = spec_nearest(hits.drop_last()) {
                assert(hits.drop_last()[i] == hits[i]);
            }
        }
    }
}

/// Shapes `i` and `j` are both hit, `i` strictly nearer than `j`.
pub open spec fn nearer<T: Scalar>(hits: Seq<Option<T>>, i: int, j: int) -> bool {
    hits[i] is Some && hits[j] is Some && hits[i].unwrap().is_lt(&hits[j].unwrap())
}

/// The hits lie on a line: none is below itself, what is below a hit is below
/// all that the hit is below, and a third hit is above the lower of two or
/// below the higher.
pub open spec fn hits_ordered<T: Scalar>(hits: Seq<Option<T>>) -> bool {
    &&& forall|i: int| 0 <= i < hits.len() ==> !#[trigger] nearer(hits, i, i)
    &&& forall|i: int, j: int, k: int|
        #![trigger nearer(hits, i, j), nearer(hits, j, k)]
        0 <= i < hits.len() && 0 <= j < hits.len() && 0 <= k < hits.len() && nearer(hits, i, j)
            && nearer(hits, j, k) ==> nearer(hits, i, k)
    &&& forall|i: int, j: int, k: int|
        #![trigger nearer(hits, i, j), nearer(hits, k, j)]
        0 <= i < hits.len() && 0 <= j < hits.len() && 0 <= k < hits.len() && hits[k] is Some
            && nearer(hits, i, j) && !nearer(hits, k, j) ==> nearer(hits, i, k)
}

/// Where the hits lie on a line, as numbers do, the scan finds the least of
/// them, and of several least ones the first: no hit is strictly nearer than
/// the one returned, and every hit before it is strictly farther.
pub proof fn law_nearest_is_first_least<T: Scalar>(hits: Seq<Option<T>>)
    requires
        hits_ordered(hits),
    ensures
        spec_nearest(hits) matches Some(m) ==> {
            &&& 0 <= m < hits.len() && hits[m] is Some
            &&& forall|j: int| 0 <= j < hits.len() ==> !#[trigger] nearer(hits, j, m)
            &&& forall|j: int| 0 <= j < m && hits[j] is Some ==> #[trigger] nearer(hits, m, j)
        },
    decreases hits.len(),
{
    if hits.len() > 0 {
        let front = hits.drop_last();
        let last = hits.len() - 1;
        assert forall|i: int, j: int| 0 <= i < last && 0 <= j < last implies nearer(front, i, j)
            == nearer(hits, i, j) by {}
        assert(hits_ordered(front)) by {
            assert forall|i: int, j: int, k: int|
                #![trigger nearer(front, i, j), nearer(front, j, k)]
                0 <= i < front.len() && 0 <= j < front.len() && 0 <= k < front.len() && nearer(
                    front,
                    i,
                    j,
                ) && nearer(front, j, k) implies nearer(front, i, k) by {
                assert(nearer(hits, i, j) && nearer(hits, j, k));
            }
            assert forall|i: int, j: int, k: int|
                #![trigger nearer(front, i, j), nearer(front, k, j)]
                0 <= i < front.len() && 0 <= j < front.len() && 0 <= k < front.len()
                    && front[k] is Some && nearer(front, i, j) && !nearer(
                    front,
                    k,
                    j,
                ) implies nearer(front, i, k) by {
                assert(nearer(hits, i, j) && !nearer(hits, k, j));
            }
        }
        law_nearest_is_first_least(front);
        lemma_nearest_is_a_hit(front);
        if let Some(m) = spec_nearest(hits) {
            if m == last {
                if let Some(b) = spec_nearest(front) {
                    // the last hit is strictly below the best before it
                    assert(nearer(hits, last, b));
                    assert forall|j: int| 0 <= j < hits.len() implies !#[trigger] nearer(
                        hits,
                        j,
                        last,
                    ) by {
                        if j < last && hits[j] is Some {
                            assert(!nearer(front, j, b));
                            assert(!nearer(hits, j, b));
                            assert(nearer(hits, last, j));
                            if nearer(hits, j, last) {
                                assert(nearer(hits, j, j));
                            }
                        }
                    }
                    assert forall|j: int| 0 <= j < last && hits[j] is Some implies #[trigger]
                        nearer(hits, last, j) by {
                        assert(!nearer(front, j, b));
                        assert(!nearer(hits, j, b));
                    }
                } else {
                    assert forall|j: int| 0 <= j < last implies hits[j] is None by {
                        assert(front[j] == hits[j]);
                    }
                }
            } else {
                assert(spec_nearest(front) == Some(m));
                assert forall|j: int| 0 <= j < hits.len() implies !#[trigger] nearer(
                    hits,
                    j,
                    m,
                ) by {
                    if j < last {
                        assert(!nearer(front, j, m));
                    }
                }
                assert forall|j: int| 0 <= j < m && hits[j] is Some implies #[trigger] nearer(
                    hits,
                    m,
                    j,
                ) by {
                    assert(front[j] == hits[j]);
                    assert(nearer(front, m, j));
                }
            }
        }
    }
}

impl<S, T: Scalar> Scene<S, T> {
    /// The nearest of the places where a ray meets the shapes, with its
    /// shape. `hits[i]` is where the ray meets `objects[i]`. Of two shapes
    /// that the ray meets at the same parameter the one added first is
    /// returned.
    pub fn intersection(&self, hits: &Vec<Option<T>>) -> (r: Option<(T, &S)>)
        requires
            hits.len() == self.objects.len(),
        ensures
            r is None <==> forall|j: int| 0 <= j < hits.len() ==> hits[j] is None,
            r matches Some((t, shape)) ==> exists|i: int|
                0 <= i < hits.len() && #[trigger] hits[i] == Some(t) && shape == &self.objects[i],
            lawful::<T>() ==> (match spec_nearest(hits@) {
                Some(i) => 0 <= i < hits.len() && r == Some((hits[i].unwrap(), &self.objects[i])),
                None => r is None,
            }),
            lawful::<T>() && hits_ordered(hits@) ==> (spec_nearest(hits@) matches Some(i) ==> {
                &&& forall|j: int| 0 <= j < hits.len() ==> !#[trigger] nearer(hits@, j, i)
                &&& forall|j: int| 0 <= j < i && hits[j] is Some ==> #[trigger] nearer(hits@, i, j)
            }),
    {
        proof {
            lemma_nearest_is_a_hit(hits@);
            if hits_ordered(hits@) {
                law_nearest_is_first_least(hits@);
            }
        }
        let mut min_intersection: Option<(T, usize)> = None;
        let mut k: usize = 0;
        while k < hits.len()
            invariant
                k <= hits.len(),
                min_intersection is None <==> forall|j: int| 0 <= j < k ==> hits[j] is None,
                min_intersection matches Some((t, i)) ==> i < k && hits[i as int] == Some(t),
                lawful::<T>() ==> (match spec_nearest(hits@.take(k as int)) {
                    Some(i) => 0 <= i < k && hits[i] is Some && min_intersection == Some(
                        (hits[i].unwrap(), i as usize),
                    ),
                    None => min_intersection is None,
                }),
            decreases hits.len() - k,
        {
            proof {
                assert(hits@.take(k as int + 1).drop_last() == hits@.take(k as int));
                assert(hits@.take(k as int + 1).last() == hits[k as int]);
                lemma_nearest_is_a_hit(hits@.take(k as int));
            }
            match (min_intersection, hits[k]) {
                (None, Some(t)) => {
                    min_intersection = Some((t, k));
                },
                (Some((min_t, _)), Some(t)) => {
                    if t < min_t {
                        min_intersection = Some((t, k));
                    }
                },
                _ => {},
            }
            k += 1;
        }
        proof {
            assert(hits@.take(k as int) == hits@);
        }
        match min_intersection {
            Some((t, i)) => Some((t, &self.objects[i])),
            None => None,
        }
    }

    /// Whether something stands between a point and a light at
    /// `max_distance` from it: whether the shadow ray meets any shape
    /// strictly between `zero` and `max_distance`. `hits[i]` is where the ray
    /// meets `objects[i]`.
    pub fn is_occluded(&self, hits: &Vec<Option<T>>, zero: T, max_distance: T) -> (r: bool)
        requires
            hits.len() == self.objects.len(),
        ensures
            lawful::<T>() ==> r == spec_is_occluded(hits@, zero, max_distance),
            r ==> exists|i: int| 0 <= i < hits.len() && #[trigger] hits[i] is Some,
    {
        let mut k: usize = 0;
        while k < hits.len()
            invariant
                k <= hits.len(),
                lawful::<T>() ==> !spec_is_occluded(hits@.take(k as int), zero, max_distance),
            decreases hits.len() - k,
        {
            if let Some(t) = hits[k] {
                if zero < t && t < max_distance {
                    assert(hits@[k as int] == Some(t));
                    return true;
                }
            }
            proof {
                if lawful::<T>() && spec_is_occluded(hits@.take(k as int + 1), zero, max_distance) {
                    let i = choose|i: int|
                        0 <= i < k + 1 && (#[trigger] hits@.take(k as int + 1)[i] matches Some(t)
                            && zero.is_lt(&t) && t.is_lt(&max_distance));
                    if i < k {
                        assert(hits@.take(k as int)[i] == hits@.take(k as int + 1)[i]);
                    }
                    assert(false);
                }
            }
            k += 1;
        }
        proof {
            assert(hits@.take(k as int) == hits@);
        }
        false
    }
}

} // verus!
