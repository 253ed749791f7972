//! The casting of one ray through each cell of a grid.
//!
//! The grid is laid over the viewport: the cell in row `i` and column `j`
//! takes the point at the ratio `j / width` between the left and the right
//! edge and at the ratio `i / height` between the top and the bottom edge.
//! The ray through the cell leads from the eye to that point. It is tested
//! against every triangle of the object, each corner taken from the present
//! vertices and displaced by the object's origin. A cell is lit when some
//! triangle is hit. No depth is compared: which triangle is hit does not
//! matter, and the order of the triangles has no bearing on the result.
use crate::camera::Camera;
use crate::geometry::{added, scaled, Vector3};
use crate::intersect::{intersected, try_get_intersection};
use crate::objects::Object;
use crate::scalar::{count, difference, quotient, whole, Scalar};
use crate::vectors::{
    from_to, lemma_normalizable_never_fails, normalizable, unit_fails, vector_ab, NotANumber,
};
use vstd::pervasive::unreached;
use vstd::prelude::*;

verus! {

/// The value of a cell whose ray hits a triangle.
pub open spec fn foreground() -> Seq<u8> {
    seq![255u8, 255u8, 255u8]
}

/// The value of a cell whose ray hits nothing.
pub open spec fn background() -> Seq<u8> {
    seq![0u8, 0u8, 0u8]
}

/// The value of a cell, given the outcome of the hit test of each triangle:
/// the foreground when any of them is a hit, the background otherwise.
pub open spec fn shade_of(outcomes: Seq<bool>) -> Seq<u8> {
    if outcomes.contains(true) {
        foreground()
    } else {
        background()
    }
}

/// Computes the value of a cell from the outcomes of the hit tests.
pub fn shade(outcomes: &Vec<bool>) -> (color: [u8; 3])
    ensures
        color@ == shade_of(outcomes@),
{
    let mut color: [u8; 3] = [0, 0, 0];
    let mut k: usize = 0;
    while k < outcomes.len()
        invariant
            k <= outcomes.len(),
            color@ == shade_of(outcomes@.take(k as int)),
        decreases outcomes.len() - k,
    {
        proof {
            let seen = outcomes@.take(k as int);
            let next = outcomes@.take(k + 1);
            assert(next =~= seen.push(outcomes@[k as int]));
            assert(forall|j: int| 0 <= j < seen.len() ==> seen[j] == next[j]);
            if seen.contains(true) {
                let j = choose|j: int| 0 <= j < seen.len() && seen[j] == true;
                assert(next[j] == true);
            }
            if outcomes@[k as int] {
                assert(next[k as int] == true);
            }
        }
        if outcomes[k] {
            color = [255, 255, 255];
        }
        k += 1;
    }
    assert(outcomes@.take(k as int) =~= outcomes@);
    color
}

/// `r` may be the ratio of `part` to `all`.
pub open spec fn ratio<S: Scalar>(part: usize, all: usize, r: S) -> bool {
    exists|p: S, a: S| #[trigger] count(part, p) && #[trigger] count(all, a) && quotient(p, a, r)
}

/// Computes the ratio of `part` to `all`.
fn ratio_of<S: Scalar>(part: usize, all: usize) -> (r: S)
    ensures
        ratio(part, all, r),
{
    let p = S::from_index(part);
    let a = S::from_index(all);
    let r = p.over(a);
    assert(count(part, p) && count(all, a) && quotient(p, a, r));
    r
}

/// `r` may be the point at the ratio `t` on the way from `a` to `b`:
/// `a * (1 - t) + b * t`.
pub open spec fn between<S: Scalar>(a: Vector3<S>, b: Vector3<S>, t: S, r: Vector3<S>) -> bool {
    exists|one: S, rest: S, near: Vector3<S>, far: Vector3<S>|
        {
            &&& #[trigger] whole(1, one)
            &&& #[trigger] difference(one, t, rest)
            &&& #[trigger] scaled(a, rest, near)
            &&& #[trigger] scaled(b, t, far)
            &&& added(near, far, r)
        }
}

/// Computes the point at the ratio `t` on the way from `a` to `b`.
fn between_of<S: Scalar>(a: Vector3<S>, b: Vector3<S>, t: S) -> (r: Vector3<S>)
    ensures
        between(a, b, t, r),
{
    let one = S::from_int(1);
    let rest = one.minus(t);
    let near = a * rest;
    let far = b * t;
    let r = near + far;
    assert(whole(1, one) && difference(one, t, rest) && scaled(a, rest, near) && scaled(b, t, far)
        && added(near, far, r));
    r
}

/// `p` may be the point of the viewport at the ratio `a` from left to right
/// and at the ratio `b` from top to bottom: the point at `b` between the
/// point at `a` of the top edge and the point at `a` of the bottom edge.
pub open spec fn sample_point<S: Scalar>(
    top_left: Vector3<S>,
    top_right: Vector3<S>,
    bottom_left: Vector3<S>,
    bottom_right: Vector3<S>,
    a: S,
    b: S,
    p: Vector3<S>,
) -> bool {
    exists|top: Vector3<S>, bottom: Vector3<S>|
        {
            &&& #[trigger] between(top_left, top_right, a, top)
            &&& #[trigger] between(bottom_left, bottom_right, a, bottom)
            &&& between(top, bottom, b, p)
        }
}

/// The viewport, the eye and the grid that a rendering is made for.
pub struct Projection<S> {
    pub top_left: Vector3<S>,
    pub top_right: Vector3<S>,
    pub bottom_left: Vector3<S>,
    pub bottom_right: Vector3<S>,
    pub eye: Vector3<S>,
    pub width: usize,
    pub height: usize,
}

/// `ray` may be the ray through the cell in row `row` and column `column`:
/// the vector from the eye to the point of the viewport at the ratios
/// `column / width` and `row / height`.
pub open spec fn cell_ray<S: Scalar>(view: Projection<S>, row: usize, column: usize, ray: Vector3<S>) -> bool {
    exists|a: S, b: S, p: Vector3<S>|
        {
            &&& #[trigger] ratio(column, view.width, a)
            &&& #[trigger] ratio(row, view.height, b)
            &&& #[trigger] sample_point(
                view.top_left,
                view.top_right,
                view.bottom_left,
                view.bottom_right,
                a,
                b,
                p,
            )
            &&& from_to(view.eye, p, ray)
        }
}

/// Computes the ray through the cell in row `row` and column `column`.
fn cell_ray_of<S: Scalar>(view: &Projection<S>, row: usize, column: usize) -> (ray: Vector3<S>)
    ensures
        cell_ray(*view, row, column, ray),
{
    let ratio_a = ratio_of(column, view.width);
    let ratio_b = ratio_of(row, view.height);
    let vec_t = between_of(view.top_left, view.top_right, ratio_a);
    let vec_b = between_of(view.bottom_left, view.bottom_right, ratio_a);
    let point_p = between_of(vec_t, vec_b, ratio_b);
    assert(between(view.top_left, view.top_right, ratio_a, vec_t) && between(
        view.bottom_left,
        view.bottom_right,
        ratio_a,
        vec_b,
    ) && between(vec_t, vec_b, ratio_b, point_p));
    let vec_o = vector_ab(view.eye, point_p);
    assert(ratio(column, view.width, ratio_a) && ratio(row, view.height, ratio_b) && sample_point(
        view.top_left,
        view.top_right,
        view.bottom_left,
        view.bottom_right,
        ratio_a,
        ratio_b,
        point_p,
    ) && from_to(view.eye, point_p, vec_o));
    vec_o
}

/// `p` may be corner `c` of triangle `k` of `obj` as it stands in the scene:
/// the present vertex that the triangle names, with the origin added.
pub open spec fn placed<S: Scalar>(obj: &Object<S>, k: int, c: int, p: Vector3<S>) -> bool {
    added(obj.transform_vertices[obj.polygons[k][c] as int], obj.origin, p)
}

/// `outcome` may be what the test of the ray from `eye` along `ray` against
/// triangle `k` of `obj` says: whether the ray meets the triangle whose
/// corners are placed in the scene, in the triangle's order.
pub open spec fn triangle_outcome<S: Scalar>(
    obj: &Object<S>,
    eye: Vector3<S>,
    ray: Vector3<S>,
    k: int,
    outcome: bool,
) -> bool {
    exists|p1: Vector3<S>, p2: Vector3<S>, p3: Vector3<S>, hit: Option<Vector3<S>>|
        {
            &&& #[trigger] placed(obj, k, 0, p1)
            &&& #[trigger] placed(obj, k, 1, p2)
            &&& #[trigger] placed(obj, k, 2, p3)
            &&& #[trigger] intersected(p1, p2, p3, ray, eye, hit)
            &&& outcome == hit.is_some()
        }
}

/// `outcomes` may hold, for each triangle of `obj` in order, what the test
/// of the ray from `eye` along `ray` against it says.
pub open spec fn probed<S: Scalar>(
    obj: &Object<S>,
    eye: Vector3<S>,
    ray: Vector3<S>,
    outcomes: Seq<bool>,
) -> bool {
    &&& outcomes.len() == obj.polygons.len()
    &&& forall|k: int|
        0 <= k < obj.polygons.len() ==> triangle_outcome(obj, eye, ray, k, #[trigger] outcomes[k])
}

/// `res` may be what probing `obj` with the ray from `eye` along `ray`
/// gives: the outcomes for all triangles, or an error when there is a
/// triangle to test and `ray` has no unit vector.
pub open spec fn probe_tried<S: Scalar>(
    obj: &Object<S>,
    eye: Vector3<S>,
    ray: Vector3<S>,
    res: Result<Vec<bool>, NotANumber>,
) -> bool {
    match res {
        Ok(outcomes) => probed(obj, eye, ray, outcomes@),
        Err(_) => obj.polygons.len() > 0 && unit_fails(ray),
    }
}

/// Tests the ray from `eye` along `ray` against every triangle of `obj`, in
/// the order of the list.
pub fn try_probe<S: Scalar>(obj: &Object<S>, eye: Vector3<S>, ray: Vector3<S>) -> (res: Result<
    Vec<bool>,
    NotANumber,
>)
    requires
        obj.well_formed(),
    ensures
        probe_tried(obj, eye, ray, res),
{
    let mut outcomes: Vec<bool> = Vec::new();
    let mut k: usize = 0;
    while k < obj.polygons.len()
        invariant
            obj.well_formed(),
            k <= obj.polygons.len(),
            outcomes.len() == k,
            forall|j: int| 0 <= j < k ==> triangle_outcome(obj, eye, ray, j, #[trigger] outcomes[j]),
        decreases obj.polygons.len() - k,
    {
        let polygon = &obj.polygons[k];
        assert(obj.polygon_in_range(k as int));
        let point_1 = obj.transform_vertices[polygon[0]] + obj.origin;
        let point_2 = obj.transform_vertices[polygon[1]] + obj.origin;
        let point_3 = obj.transform_vertices[polygon[2]] + obj.origin;
        let hit = match try_get_intersection(point_1, point_2, point_3, ray, eye) {
            Ok(hit) => hit,
            Err(e) => {
                return Err(e);
            },
        };
        let outcome = hit.is_some();
        assert(placed(obj, k as int, 0, point_1) && placed(obj, k as int, 1, point_2) && placed(
            obj,
            k as int,
            2,
            point_3,
        ) && intersected(point_1, point_2, point_3, ray, eye, hit));
        outcomes.push(outcome);
        k += 1;
    }
    Ok(outcomes)
}

/// `color` may be the value of the cell in row `row` and column `column`:
/// the shade of the outcomes of probing `obj` with the ray through the cell.
pub open spec fn cell_rendered<S: Scalar>(
    view: Projection<S>,
    obj: &Object<S>,
    row: usize,
    column: usize,
    color: Seq<u8>,
) -> bool {
    exists|ray: Vector3<S>, outcomes: Seq<bool>|
        {
            &&& #[trigger] cell_ray(view, row, column, ray)
            &&& #[trigger] probed(obj, view.eye, ray, outcomes)
            &&& color == shade_of(outcomes)
        }
}

/// `grid` may be a rendering of `obj`: `height` rows of `width` cells, each
/// cell with a value that it may take.
pub open spec fn rendered<S: Scalar>(view: Projection<S>, obj: &Object<S>, grid: Seq<Vec<[u8; 3]>>) -> bool {
    &&& grid.len() == view.height
    &&& forall|i: int| 0 <= i < view.height ==> (#[trigger] grid[i]).len() == view.width
    &&& forall|i: int, j: int|
        0 <= i < view.height && 0 <= j < view.width ==> cell_rendered(
            view,
            obj,
            i as usize,
            j as usize,
            #[trigger] grid[i][j]@,
        )
}

/// Rendering `obj` may fail: there is a triangle to test, and the ray
/// through some cell of the grid has no unit vector.
pub open spec fn render_fails<S: Scalar>(view: Projection<S>, obj: &Object<S>) -> bool {
    exists|row: usize, column: usize, ray: Vector3<S>|
        {
            &&& row < view.height
            &&& column < view.width
            &&& obj.polygons.len() > 0
            &&& #[trigger] cell_ray(view, row, column, ray)
            &&& unit_fails(ray)
        }
}

/// `obj` can be rendered: nothing is to be tested, or the ray through every
/// cell of the grid has a unit vector.
pub open spec fn renderable<S: Scalar>(view: Projection<S>, obj: &Object<S>) -> bool {
    forall|row: usize, column: usize, ray: Vector3<S>|
        row < view.height && column < view.width && obj.polygons.len() > 0 && #[trigger] cell_ray(
            view,
            row,
            column,
            ray,
        ) ==> normalizable(ray)
}

/// `res` may be what trying to render `obj` gives.
pub open spec fn render_tried<S: Scalar>(
    view: Projection<S>,
    obj: &Object<S>,
    res: Result<Vec<Vec<[u8; 3]>>, NotANumber>,
) -> bool {
    match res {
        Ok(grid) => rendered(view, obj, grid@),
        Err(_) => render_fails(view, obj),
    }
}

/// The projection through the corners `corner1` (top left), `corner2` (top
/// right), `corner3` (bottom left) and `corner4` (bottom right) from the eye
/// of `camera`, on a grid of `height` rows and `width` columns.
pub open spec fn projection_of<S: Scalar>(
    corner1: Vector3<S>,
    corner2: Vector3<S>,
    corner3: Vector3<S>,
    corner4: Vector3<S>,
    camera: Camera<S>,
    width: usize,
    height: usize,
) -> Projection<S> {
    Projection {
        top_left: corner1,
        top_right: corner2,
        bottom_left: corner3,
        bottom_right: corner4,
        eye: camera.position,
        width,
        height,
    }
}

/// Renders `obj` on a grid of `height` rows and `width` columns, or reports
/// that the ray through some cell has no unit vector. A cell holds 255 three
/// times when its ray hits some triangle, and 0 three times when it hits
/// none.
pub fn try_raycasting<S: Scalar>(
    corner1: Vector3<S>,
    corner2: Vector3<S>,
    corner3: Vector3<S>,
    corner4: Vector3<S>,
    camera: Camera<S>,
    obj: Object<S>,
    width: usize,
    height: usize,
) -> (res: Result<Vec<Vec<[u8; 3]>>, NotANumber>)
    requires
        obj.well_formed(),
    ensures
        render_tried(projection_of(corner1, corner2, corner3, corner4, camera, width, height), &obj, res),
{
    let view = Projection {
        top_left: corner1,
        top_right: corner2,
        bottom_left: corner3,
        bottom_right: corner4,
        eye: camera.position,
        width,
        height,
    };
    let mut map_2d: Vec<Vec<[u8; 3]>> = Vec::new();
    let mut i: usize = 0;
    while i < height
        invariant
            obj.well_formed(),
            view == projection_of(corner1, corner2, corner3, corner4, camera, width, height),
            i <= height,
            map_2d.len() == i,
            forall|r: int| 0 <= r < i ==> (#[trigger] map_2d[r]).len() == width,
            forall|r: int, c: int|
                0 <= r < i && 0 <= c < width ==> cell_rendered(
                    view,
                    &obj,
                    r as usize,
                    c as usize,
                    #[trigger] map_2d[r][c]@,
                ),
        decreases height - i,
    {
        let mut row: Vec<[u8; 3]> = Vec::new();
        let mut j: usize = 0;
        while j < width
            invariant
                obj.well_formed(),
                view == projection_of(corner1, corner2, corner3, corner4, camera, width, height),
                i < height,
                j <= width,
                row.len() == j,
                forall|c: int|
                    0 <= c < j ==> cell_rendered(view, &obj, i, c as usize, #[trigger] row[c]@),
            decreases width - j,
        {
            let vec_o = cell_ray_of(&view, i, j);
            let outcomes = match try_probe(&obj, view.eye, vec_o) {
                Ok(outcomes) => outcomes,
                Err(e) => {
                    assert(i < view.height && j < view.width && obj.polygons.len() > 0 && cell_ray(
                        view,
                        i,
                        j,
                        vec_o,
                    ) && unit_fails(vec_o));
                    return Err(e);
                },
            };
            let color = shade(&outcomes);
            assert(cell_ray(view, i, j, vec_o) && probed(&obj, view.eye, vec_o, outcomes@));
            row.push(color);
            j += 1;
        }
        map_2d.push(row);
        i += 1;
    }
    Ok(map_2d)
}

/// Renders `obj` on a grid of `height` rows and `width` columns. A cell
/// holds 255 three times when its ray hits some triangle, and 0 three times
/// when it hits none.
pub fn raycasting<S: Scalar>(
    corner1: Vector3<S>,
    corner2: Vector3<S>,
    corner3: Vector3<S>,
    corner4: Vector3<S>,
    camera: Camera<S>,
    obj: Object<S>,
    width: usize,
    height: usize,
) -> (grid: Vec<Vec<[u8; 3]>>)
    requires
        obj.well_formed(),
        renderable(projection_of(corner1, corner2, corner3, corner4, camera, width, height), &obj),
    ensures
        rendered(projection_of(corner1, corner2, corner3, corner4, camera, width, height), &obj, grid@),
{
    let ghost view = projection_of(corner1, corner2, corner3, corner4, camera, width, height);
    let ghost scene = obj;
    match try_raycasting(corner1, corner2, corner3, corner4, camera, obj, width, height) {
        Ok(grid) => grid,
        Err(_) => {
            proof {
                let (row, column, ray) = choose|row: usize, column: usize, ray: Vector3<S>|
                    {
                        &&& row < view.height
                        &&& column < view.width
                        &&& scene.polygons.len() > 0
                        &&& #[trigger] cell_ray(view, row, column, ray)
                        &&& unit_fails(ray)
                    };
                assert(normalizable(ray));
                lemma_normalizable_never_fails(ray);
            }
            unreached()
        },
    }
}

/// The value of a cell does not depend on the order in which the triangles
/// are listed: outcomes that differ only in their order give the same shade.
pub proof fn lemma_shade_ignores_order(first: Seq<bool>, second: Seq<bool>)
    requires
        first.to_multiset() == second.to_multiset(),
    ensures
        shade_of(first) == shade_of(second),
{
    vstd::seq_lib::to_multiset_contains(first, true);
    vstd::seq_lib::to_multiset_contains(second, true);
}

/// A cell is lit exactly when the ray through it hits some triangle.
pub proof fn lemma_shade_is_any_hit(outcomes: Seq<bool>)
    ensures
        shade_of(outcomes) == foreground() <==> exists|k: int|
            0 <= k < outcomes.len() && #[trigger] outcomes[k],
        shade_of(outcomes) == background() <==> forall|k: int|
            0 <= k < outcomes.len() ==> !#[trigger] outcomes[k],
{
    assert(foreground()[0] != background()[0]);
    if outcomes.contains(true) {
        let k = choose|k: int| 0 <= k < outcomes.len() && outcomes[k] == true;
        assert(outcomes[k]);
    }
}

/// When every cell of the grid is given the same ray, as happens when the
/// four corners of the viewport fall on one point, and the test of that ray
/// against each triangle has one outcome only, every cell of a rendering
/// holds the same value.
pub proof fn lemma_one_ray_gives_one_shade<S: Scalar>(
    view: Projection<S>,
    obj: &Object<S>,
    grid: Seq<Vec<[u8; 3]>>,
    only: Vector3<S>,
)
    requires
        rendered(view, obj, grid),
        forall|row: usize, column: usize, ray: Vector3<S>|
            row < view.height && column < view.width && #[trigger] cell_ray(view, row, column, ray)
                ==> ray == only,
        forall|k: int|
            0 <= k < obj.polygons.len() ==> !(#[trigger] triangle_outcome(
                obj,
                view.eye,
                only,
                k,
                true,
            ) && triangle_outcome(obj, view.eye, only, k, false)),
    ensures
        forall|i: int, j: int, k: int, l: int|
            0 <= i < view.height && 0 <= j < view.width && 0 <= k < view.height && 0 <= l
                < view.width ==> (#[trigger] grid[i][j])@ == (#[trigger] grid[k][l])@,
{
    assert forall|i: int, j: int, k: int, l: int|
        0 <= i < view.height && 0 <= j < view.width && 0 <= k < view.height && 0 <= l
            < view.width implies (#[trigger] grid[i][j])@ == (#[trigger] grid[k][l])@ by {
        let one = grid[i][j]@;
        let two = grid[k][l]@;
        assert(cell_rendered(view, obj, i as usize, j as usize, one));
        assert(cell_rendered(view, obj, k as usize, l as usize, two));
        let (ray1, outcomes1) = choose|ray: Vector3<S>, outcomes: Seq<bool>|
            {
                &&& #[trigger] cell_ray(view, i as usize, j as usize, ray)
                &&& #[trigger] probed(obj, view.eye, ray, outcomes)
                &&& one == shade_of(outcomes)
            };
        let (ray2, outcomes2) = choose|ray: Vector3<S>, outcomes: Seq<bool>|
            {
                &&& #[trigger] cell_ray(view, k as usize, l as usize, ray)
                &&& #[trigger] probed(obj, view.eye, ray, outcomes)
                &&& two == shade_of(outcomes)
            };
        assert(ray1 == only && ray2 == only);
        assert forall|t: int| 0 <= t < outcomes1.len() implies outcomes1[t] == outcomes2[t] by {
            assert(triangle_outcome(obj, view.eye, only, t, outcomes1[t]));
            assert(triangle_outcome(obj, view.eye, only, t, outcomes2[t]));
        }
        assert(outcomes1 =~= outcomes2);
    }
}

} // verus!
