//! Where a ray meets a triangle, if it does.
//!
//! The triangle lies in a plane. The ray meets the plane at the distance `t`
//! along its direction, unless it runs parallel to the plane; a flat
//! triangle, of normal nought, counts as parallel to every ray. A meeting
//! behind the start of the ray, at a negative `t`, is none. The point of
//! meeting then has to lie inside the triangle, strictly: a point on an edge
//! is outside.
//!
//! The order of the three corners matters. It gives the normal its sign, and
//! with it the sense of the test.
use crate::geometry::{added, scaled, Vector3};
use crate::scalar::{
    is_negative, is_nought, is_positive, negation, quotient, says_negative, says_nought,
    says_positive, sum, Scalar,
};
use crate::vectors::{
    cross, cross_product, dot, dot_product, from_to, normalizable, opposite, opposite_of,
    try_vector_to_unit_vector, unit_fails, unit_found, vector_ab, vector_to_unit_vector, NotANumber,
};
use vstd::prelude::*;

verus! {

/// `c` may be the cross product of the edge from `from` to `to` with the
/// vector from `h` to `from`.
pub open spec fn edge_turn<S: Scalar>(
    from: Vector3<S>,
    to: Vector3<S>,
    h: Vector3<S>,
    c: Vector3<S>,
) -> bool {
    exists|edge: Vector3<S>, spoke: Vector3<S>|
        {
            &&& #[trigger] from_to(from, to, edge)
            &&& #[trigger] from_to(h, from, spoke)
            &&& cross(edge, spoke, c)
        }
}

/// Computes the cross product of the edge from `from` to `to` with the
/// vector from `h` to `from`.
fn edge_turn_of<S: Scalar>(from: Vector3<S>, to: Vector3<S>, h: Vector3<S>) -> (c: Vector3<S>)
    ensures
        edge_turn(from, to, h, c),
{
    let edge = vector_ab(from, to);
    let spoke = vector_ab(h, from);
    let c = cross_product(edge, spoke);
    assert(from_to(from, to, edge) && from_to(h, from, spoke) && cross(edge, spoke, c));
    c
}

/// Asked whether `a`, `b` and `c` are all more than nought, the scalars may
/// answer `answer`.
pub open spec fn says_all_positive<S: Scalar>(a: S, b: S, c: S, answer: bool) -> bool {
    if answer {
        says_positive(a, true) && says_positive(b, true) && says_positive(c, true)
    } else {
        says_positive(a, false) || says_positive(b, false) || says_positive(c, false)
    }
}

/// Asked whether the three turns point the same way, the scalars may answer
/// `answer`: whether the dot products of the first with the second, of the
/// first with the third and of the third with the second are all more than
/// nought.
pub open spec fn says_same_way<S: Scalar>(
    c1: Vector3<S>,
    c2: Vector3<S>,
    c3: Vector3<S>,
    answer: bool,
) -> bool {
    exists|a: S, b: S, c: S|
        {
            &&& #[trigger] dot(c1, c2, a)
            &&& #[trigger] dot(c1, c3, b)
            &&& #[trigger] dot(c3, c2, c)
            &&& says_all_positive(a, b, c, answer)
        }
}

/// Asked whether `h` lies inside the triangle `p1`, `p2`, `p3`, the test may
/// answer `answer`: whether the turns at the three edges, from `p1` to `p2`,
/// from `p2` to `p3` and from `p3` to `p1`, point the same way.
pub open spec fn says_inside<S: Scalar>(
    p1: Vector3<S>,
    p2: Vector3<S>,
    p3: Vector3<S>,
    h: Vector3<S>,
    answer: bool,
) -> bool {
    exists|c1: Vector3<S>, c2: Vector3<S>, c3: Vector3<S>|
        {
            &&& #[trigger] edge_turn(p1, p2, h, c1)
            &&& #[trigger] edge_turn(p2, p3, h, c2)
            &&& #[trigger] edge_turn(p3, p1, h, c3)
            &&& says_same_way(c1, c2, c3, answer)
        }
}

/// Tells whether `point_on_plane`, taken to lie in the plane of the
/// triangle, lies inside the triangle. The normal of the plane plays no part
/// in the answer.
pub fn point_inside_triangle<S: Scalar>(
    plane_normal: Vector3<S>,
    triangle_p1: Vector3<S>,
    triangle_p2: Vector3<S>,
    triangle_p3: Vector3<S>,
    point_on_plane: Vector3<S>,
) -> (answer: bool)
    ensures
        says_inside(triangle_p1, triangle_p2, triangle_p3, point_on_plane, answer),
{
    let c1 = edge_turn_of(triangle_p1, triangle_p2, point_on_plane);
    let c2 = edge_turn_of(triangle_p2, triangle_p3, point_on_plane);
    let c3 = edge_turn_of(triangle_p3, triangle_p1, point_on_plane);
    let barycentric_a = dot_product(c1, c2);
    let barycentric_b = dot_product(c1, c3);
    let barycentric_c = dot_product(c3, c2);
    let answer = is_positive(barycentric_a) && is_positive(barycentric_b) && is_positive(
        barycentric_c,
    );
    assert(dot(c1, c2, barycentric_a) && dot(c1, c3, barycentric_b) && dot(c3, c2, barycentric_c)
        && says_all_positive(barycentric_a, barycentric_b, barycentric_c, answer));
    assert(edge_turn(triangle_p1, triangle_p2, point_on_plane, c1) && edge_turn(
        triangle_p2,
        triangle_p3,
        point_on_plane,
        c2,
    ) && edge_turn(triangle_p3, triangle_p1, point_on_plane, c3) && says_same_way(
        c1,
        c2,
        c3,
        answer,
    ));
    answer
}

/// `n` may be the normal of the plane of the triangle `p1`, `p2`, `p3`: the
/// cross product of `p2 - p1` with `p1 - p3`.
pub open spec fn plane_normal_of<S: Scalar>(
    p1: Vector3<S>,
    p2: Vector3<S>,
    p3: Vector3<S>,
    n: Vector3<S>,
) -> bool {
    exists|e12: Vector3<S>, e31: Vector3<S>|
        {
            &&& #[trigger] from_to(p1, p2, e12)
            &&& #[trigger] from_to(p3, p1, e31)
            &&& cross(e12, e31, n)
        }
}

/// `d` may be the offset of the plane with normal `n` through `p3`:
/// `-1 * dot(n, p3)`.
pub open spec fn plane_offset<S: Scalar>(n: Vector3<S>, p3: Vector3<S>, d: S) -> bool {
    exists|np: S| #[trigger] dot(n, p3, np) && opposite(np, d)
}

/// `t` may be the distance along the ray at which it meets the plane:
/// `-(dot(n, o) + d) / den`, where `den` is the dot product of the normal
/// with the direction of the ray.
pub open spec fn plane_distance<S: Scalar>(n: Vector3<S>, d: S, o: Vector3<S>, den: S, t: S) -> bool {
    exists|no: S, s: S, neg: S|
        {
            &&& #[trigger] dot(n, o, no)
            &&& #[trigger] sum(no, d, s)
            &&& #[trigger] negation(s, neg)
            &&& quotient(neg, den, t)
        }
}

/// `p` may be the point at the distance `t` from `o` along `dir`:
/// `o + dir * t`.
pub open spec fn point_along<S: Scalar>(o: Vector3<S>, dir: Vector3<S>, t: S, p: Vector3<S>) -> bool {
    exists|step: Vector3<S>| #[trigger] scaled(dir, t, step) && added(o, step, p)
}

/// `res` may be what the ray gives that meets the plane at the distance `t`:
/// the point at that distance when it is taken to lie inside the triangle,
/// nothing when it is not.
pub open spec fn met_at<S: Scalar>(
    p1: Vector3<S>,
    p2: Vector3<S>,
    p3: Vector3<S>,
    dir: Vector3<S>,
    o: Vector3<S>,
    t: S,
    res: Option<Vector3<S>>,
) -> bool {
    exists|p: Vector3<S>, inside: bool|
        {
            &&& #[trigger] point_along(o, dir, t, p)
            &&& #[trigger] says_inside(p1, p2, p3, p, inside)
            &&& res == if inside {
                Some(p)
            } else {
                None
            }
        }
}

/// `res` may be what the ray gives that is not parallel to the plane:
/// nothing when the distance to the plane is taken for negative, and what it
/// meets at that distance when it is not.
pub open spec fn met_ahead<S: Scalar>(
    p1: Vector3<S>,
    p2: Vector3<S>,
    p3: Vector3<S>,
    dir: Vector3<S>,
    o: Vector3<S>,
    n: Vector3<S>,
    d: S,
    den: S,
    res: Option<Vector3<S>>,
) -> bool {
    exists|t: S| #[trigger]
        plane_distance(n, d, o, den, t) && if res is None {
            says_negative(t, true) || (says_negative(t, false) && met_at(p1, p2, p3, dir, o, t, res))
        } else {
            says_negative(t, false) && met_at(p1, p2, p3, dir, o, t, res)
        }
}

/// `res` may be what the ray from `o` along the unit vector `dir` gives
/// against the triangle `p1`, `p2`, `p3`: nothing when the dot product of
/// the normal with the direction is taken for nought, and what the ray meets
/// ahead of it when it is not.
pub open spec fn met<S: Scalar>(
    p1: Vector3<S>,
    p2: Vector3<S>,
    p3: Vector3<S>,
    dir: Vector3<S>,
    o: Vector3<S>,
    res: Option<Vector3<S>>,
) -> bool {
    exists|n: Vector3<S>, d: S, den: S|
        {
            &&& #[trigger] plane_normal_of(p1, p2, p3, n)
            &&& #[trigger] plane_offset(n, p3, d)
            &&& #[trigger] dot(n, dir, den)
            &&& if res is None {
                says_nought(den, true) || (says_nought(den, false) && met_ahead(
                    p1,
                    p2,
                    p3,
                    dir,
                    o,
                    n,
                    d,
                    den,
                    res,
                ))
            } else {
                says_nought(den, false) && met_ahead(p1, p2, p3, dir, o, n, d, den, res)
            }
        }
}

/// The point where the ray from `orig` along the unit vector `dir` meets the
/// triangle `p1`, `p2`, `p3`, if it does.
pub fn intersection_along<S: Scalar>(
    p1: Vector3<S>,
    p2: Vector3<S>,
    p3: Vector3<S>,
    dir: Vector3<S>,
    orig: Vector3<S>,
) -> (res: Option<Vector3<S>>)
    ensures
        met(p1, p2, p3, dir, orig, res),
{
    let e12 = vector_ab(p1, p2);
    let e31 = vector_ab(p3, p1);
    let plane_normal = cross_product(e12, e31);
    assert(from_to(p1, p2, e12) && from_to(p3, p1, e31) && cross(e12, e31, plane_normal));
    let np = dot_product(plane_normal, p3);
    let d = opposite_of(np);
    assert(dot(plane_normal, p3, np) && opposite(np, d));
    let den = dot_product(plane_normal, dir);
    if is_nought(den) {
        assert(plane_normal_of(p1, p2, p3, plane_normal) && plane_offset(plane_normal, p3, d)
            && dot(plane_normal, dir, den) && says_nought(den, true));
        return None;
    }
    let no = dot_product(plane_normal, orig);
    let s = no.plus(d);
    let neg = s.negated();
    let t = neg.over(den);
    assert(dot(plane_normal, orig, no) && sum(no, d, s) && negation(s, neg) && quotient(
        neg,
        den,
        t,
    ));
    if is_negative(t) {
        assert(plane_distance(plane_normal, d, orig, den, t) && says_negative(t, true));
        assert(met_ahead(p1, p2, p3, dir, orig, plane_normal, d, den, None));
        assert(plane_normal_of(p1, p2, p3, plane_normal) && plane_offset(plane_normal, p3, d)
            && dot(plane_normal, dir, den) && says_nought(den, false));
        return None;
    }
    let step = dir * t;
    let p = orig + step;
    assert(scaled(dir, t, step) && added(orig, step, p));
    let inside = point_inside_triangle(plane_normal, p1, p2, p3, p);
    let res = if inside {
        Some(p)
    } else {
        None
    };
    assert(point_along(orig, dir, t, p) && says_inside(p1, p2, p3, p, inside));
    assert(met_at(p1, p2, p3, dir, orig, t, res));
    assert(plane_distance(plane_normal, d, orig, den, t) && says_negative(t, false));
    assert(met_ahead(p1, p2, p3, dir, orig, plane_normal, d, den, res));
    assert(plane_normal_of(p1, p2, p3, plane_normal) && plane_offset(plane_normal, p3, d) && dot(
        plane_normal,
        dir,
        den,
    ) && says_nought(den, false));
    res
}

/// `res` may be what the ray from `o` along `vec` gives against the
/// triangle: what the ray along the unit vector of `vec` meets.
pub open spec fn intersected<S: Scalar>(
    p1: Vector3<S>,
    p2: Vector3<S>,
    p3: Vector3<S>,
    vec: Vector3<S>,
    o: Vector3<S>,
    res: Option<Vector3<S>>,
) -> bool {
    exists|dir: Vector3<S>| #[trigger] unit_found(vec, dir) && met(p1, p2, p3, dir, o, res)
}

/// `res` may be what trying the ray from `o` along `vec` against the
/// triangle gives: an error when `vec` cannot be normalized, and what the
/// ray meets when it can.
pub open spec fn tried<S: Scalar>(
    p1: Vector3<S>,
    p2: Vector3<S>,
    p3: Vector3<S>,
    vec: Vector3<S>,
    o: Vector3<S>,
    res: Result<Option<Vector3<S>>, NotANumber>,
) -> bool {
    match res {
        Ok(hit) => intersected(p1, p2, p3, vec, o, hit),
        Err(_) => unit_fails(vec),
    }
}

/// The point where the ray from `orig_p_and_camera_origin` along `vec_p`
/// meets the triangle `p1`, `p2`, `p3`, if it does; or an error when `vec_p`
/// has no unit vector.
pub fn try_get_intersection<S: Scalar>(
    p1: Vector3<S>,
    p2: Vector3<S>,
    p3: Vector3<S>,
    vec_p: Vector3<S>,
    orig_p_and_camera_origin: Vector3<S>,
) -> (res: Result<Option<Vector3<S>>, NotANumber>)
    ensures
        tried(p1, p2, p3, vec_p, orig_p_and_camera_origin, res),
{
    let dir_vec_p = match try_vector_to_unit_vector(vec_p) {
        Ok(dir) => dir,
        Err(e) => {
            return Err(e);
        },
    };
    let hit = intersection_along(p1, p2, p3, dir_vec_p, orig_p_and_camera_origin);
    assert(unit_found(vec_p, dir_vec_p) && met(
        p1,
        p2,
        p3,
        dir_vec_p,
        orig_p_and_camera_origin,
        hit,
    ));
    Ok(hit)
}

/// The point where the ray from `orig_p_and_camera_origin` along `vec_p`
/// meets the triangle `p1`, `p2`, `p3`, if it does.
pub fn get_intersection<S: Scalar>(
    p1: Vector3<S>,
    p2: Vector3<S>,
    p3: Vector3<S>,
    vec_p: Vector3<S>,
    orig_p_and_camera_origin: Vector3<S>,
) -> (res: Option<Vector3<S>>)
    requires
        normalizable(vec_p),
    ensures
        intersected(p1, p2, p3, vec_p, orig_p_and_camera_origin, res),
{
    let dir_vec_p = vector_to_unit_vector(vec_p);
    let hit = intersection_along(p1, p2, p3, dir_vec_p, orig_p_and_camera_origin);
    assert(unit_found(vec_p, dir_vec_p) && met(
        p1,
        p2,
        p3,
        dir_vec_p,
        orig_p_and_camera_origin,
        hit,
    ));
    hit
}

} // verus!
