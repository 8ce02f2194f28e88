//! Casting one ray into a scene: the nearest hit wins, and its material
//! gives the colour.

use vstd::prelude::*;
use crate::color::Color;
use crate::light::Light;
use crate::ray_intersect::{Intersect, RayIntersect};
use crate::scalar::{Scalar, INFINITY_BITS};
use crate::vector::Vec3;

verus! {

/// A hit that can be seen: it is one, and its distance is a number below
/// infinity.
pub open spec fn visible(hit: Intersect) -> bool {
    hit.is_intersecting && hit.distance.less(Scalar { bits: INFINITY_BITS })
}

/// `hits[i]` is the visible hit that a scan from the front keeps: it is
/// strictly nearer than every visible hit before it, and no visible hit after
/// it is strictly nearer.
pub open spec fn is_nearest(hits: Seq<Intersect>, i: int) -> bool {
    &&& 0 <= i < hits.len()
    &&& visible(hits[i])
    &&& forall|j: int|
        0 <= j < i && visible(#[trigger] hits[j]) ==> hits[i].distance.less(hits[j].distance)
    &&& forall|j: int|
        i < j < hits.len() && visible(#[trigger] hits[j]) ==> !hits[j].distance.less(
            hits[i].distance,
        )
}

/// The index of the nearest visible hit, the first of several at the same
/// distance; `None` where nothing is visible.
pub open spec fn nearest(hits: Seq<Intersect>) -> Option<int> {
    if exists|i: int| is_nearest(hits, i) {
        Some(choose|i: int| is_nearest(hits, i))
    } else {
        None
    }
}

/// The colour of a ray that found `hits`: that of the nearest visible hit,
/// or the background.
pub open spec fn shade(hits: Seq<Intersect>, background: Color) -> Color {
    match nearest(hits) {
        Some(i) => hits[i].color(),
        None => background,
    }
}

/// At most one index is the nearest.
pub proof fn nearest_is_unique(hits: Seq<Intersect>, i: int, k: int)
    requires
        is_nearest(hits, i),
        is_nearest(hits, k),
    ensures
        i == k,
{
    if i < k {
        assert(visible(hits[i]));
        assert(hits[k].distance.less(hits[i].distance));
        assert(!hits[k].distance.less(hits[i].distance));
    } else if k < i {
        assert(visible(hits[k]));
        assert(hits[i].distance.less(hits[k].distance));
        assert(!hits[i].distance.less(hits[k].distance));
    }
}

/// The nearest hit is at most as far as any visible hit, and strictly nearer
/// than those before it.
pub proof fn nearest_is_minimal(hits: Seq<Intersect>, i: int, j: int)
    requires
        is_nearest(hits, i),
        0 <= j < hits.len(),
        visible(hits[j]),
    ensures
        hits[i].distance.value() <= hits[j].distance.value(),
        j < i ==> hits[i].distance.value() < hits[j].distance.value(),
{
    if j < i {
        assert(hits[i].distance.less(hits[j].distance));
    } else if i < j {
        assert(!hits[j].distance.less(hits[i].distance));
    }
}

/// Of two visible hits on one ray, the strictly nearer one gives the colour,
/// whichever comes first in the scene.
pub proof fn nearer_of_two_wins(a: Intersect, b: Intersect, background: Color)
    requires
        visible(a),
        visible(b),
        a.distance.less(b.distance),
    ensures
        shade(seq![a, b], background) == a.color(),
        shade(seq![b, a], background) == a.color(),
{
    let ab = seq![a, b];
    let ba = seq![b, a];
    assert(ab[0] == a && ab[1] == b);
    assert(ba[0] == b && ba[1] == a);
    assert(is_nearest(ab, 0));
    assert(is_nearest(ba, 1));
    let i = choose|i: int| is_nearest(ab, i);
    nearest_is_unique(ab, i, 0);
    let k = choose|k: int| is_nearest(ba, k);
    nearest_is_unique(ba, k, 1);
}

/// Of two visible hits at the same distance, the one that comes first in the
/// scene gives the colour.
pub proof fn first_of_equals_wins(a: Intersect, b: Intersect, background: Color)
    requires
        visible(a),
        visible(b),
        a.distance.value() == b.distance.value(),
    ensures
        shade(seq![a, b], background) == a.color(),
{
    let ab = seq![a, b];
    assert(ab[0] == a && ab[1] == b);
    assert(is_nearest(ab, 0));
    let i = choose|i: int| is_nearest(ab, i);
    nearest_is_unique(ab, i, 0);
}

/// A ray that finds nothing visible shows the background.
pub proof fn nothing_visible_is_background(hits: Seq<Intersect>, background: Color)
    requires
        forall|j: int| 0 <= j < hits.len() ==> !visible(#[trigger] hits[j]),
    ensures
        shade(hits, background) == background,
{
}

/// The index of the nearest visible hit, scanning from the front with a
/// strict comparison, so that the first of several equally near hits stays.
pub fn nearest_hit(hits: &[Intersect]) -> (found: Option<usize>)
    ensures
        found matches Some(i) ==> is_nearest(hits@, i as int),
        found is None ==> forall|j: int| 0 <= j < hits.len() ==> !visible(#[trigger] hits@[j]),
        nearest(hits@) == match found {
            Some(i) => Some(i as int),
            None => None,
        },
{
    let mut found: Option<usize> = None;
    let mut zbuffer: Scalar = Scalar::infinity();
    let mut k: usize = 0;
    while k < hits.len()
        invariant
            k <= hits.len(),
            found matches Some(i) ==> i < k && is_nearest(hits@.take(k as int), i as int)
                && zbuffer == hits@[i as int].distance,
            found is None ==> zbuffer.bits == INFINITY_BITS && forall|j: int|
                0 <= j < k ==> !visible(#[trigger] hits@[j]),
        decreases hits.len() - k,
    {
        let ghost before = hits@.take(k as int);
        let ghost after = hits@.take(k + 1);
        assert(forall|j: int| 0 <= j < k ==> before[j] == after[j]);
        assert(after[k as int] == hits@[k as int]);
        if hits[k].is_intersecting && hits[k].distance.lt(zbuffer) {
            proof {
                match found {
                    Some(i) => {
                        assert forall|j: int| 0 <= j < k && visible(#[trigger] after[j]) implies after[k as int].distance.less(
                            after[j].distance,
                        ) by {
                            assert(visible(before[j]));
                            if j < i {
                                assert(before[i as int].distance.less(before[j].distance));
                            } else if j > i {
                                assert(!before[j].distance.less(before[i as int].distance));
                            }
                        }
                    },
                    None => {},
                }
                assert(is_nearest(after, k as int));
            }
            zbuffer = hits[k].distance;
            found = Some(k);
        } else {
            proof {
                match found {
                    Some(i) => {
                        assert(before[i as int] == after[i as int]);
                        assert(is_nearest(after, i as int));
                    },
                    None => {},
                }
            }
        }
        k += 1;
    }
    proof {
        assert(hits@.take(k as int) == hits@);
        match found {
            Some(i) => {
                let c = choose|c: int| is_nearest(hits@, c);
                nearest_is_unique(hits@, c, i as int);
            },
            None => {},
        }
    }
    found
}

/// The colour of a ray, given what it found on each primitive of the scene
/// in turn: that of the nearest visible hit, or `color_fondo`.
pub fn shade_hits(hits: &[Intersect], color_fondo: &Color) -> (color: Color)
    ensures
        color == shade(hits@, *color_fondo),
{
    match nearest_hit(hits) {
        Some(i) => hits[i].material.get_diffuse_color(hits[i].column, hits[i].row),
        None => *color_fondo,
    }
}

/// What a ray finds on each primitive of a scene, in scene order.
pub open spec fn found_by(
    objects: Seq<Box<dyn RayIntersect>>,
    ray_origin: Vec3,
    ray_direction: Vec3,
) -> Seq<Intersect> {
    Seq::new(objects.len(), |j: int| objects[j].found(ray_origin, ray_direction))
}

/// Casts the ray at every primitive of the scene, in order, and gives the
/// colour of the nearest visible hit, or `color_fondo` where there is none.
/// Surfaces are shaded flat, by their material alone: `light` is not read.
pub fn cast_ray(
    ray_origin: &Vec3,
    ray_direction: &Vec3,
    objects: &[Box<dyn RayIntersect>],
    light: &Light,
    color_fondo: &Color,
) -> (color: Color)
    ensures
        color == shade(found_by(objects@, *ray_origin, *ray_direction), *color_fondo),
{
    let mut hits: Vec<Intersect> = Vec::with_capacity(objects.len());
    let mut k: usize = 0;
    while k < objects.len()
        invariant
            k <= objects.len(),
            hits.len() == k,
            forall|j: int|
                0 <= j < k ==> #[trigger] hits@[j] == objects@[j].found(
                    *ray_origin,
                    *ray_direction,
                ),
        decreases objects.len() - k,
    {
        hits.push(objects[k].ray_intersect(ray_origin, ray_direction));
        k += 1;
    }
    assert(hits@ =~= found_by(objects@, *ray_origin, *ray_direction));
    shade_hits(hits.as_slice(), color_fondo)
}

/// A ray cast into an empty scene shows the background.
pub proof fn empty_scene_is_background(ray_origin: Vec3, ray_direction: Vec3, background: Color)
    ensures
        shade(
            found_by(Seq::<Box<dyn RayIntersect>>::empty(), ray_origin, ray_direction),
            background,
        ) == background,
{
}

} // verus!
