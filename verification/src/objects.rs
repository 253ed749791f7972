//! A triangle mesh, and the accumulation of rotations applied to it.
//!
//! An object keeps its base vertices, those it was made with, never changed, beside the
//! vertices as they stand now: the images of the first under the cumulative
//! transform. A rotation composes an increment into the cumulative
//! transform, on its left, and derives the present vertices anew from the
//! base ones. The present vertices of before play no part in it, so no
//! error is carried from one rotation into the next.
use crate::geometry::{
    composed, identity, is_identity, transformed, vector_of, whole_vector, Point, TransformMatrix,
    Vector3,
};
use crate::scalar::Scalar;
use vstd::prelude::*;

verus! {

/// A mesh of triangles over a list of vertices.
#[derive(Clone)]
pub struct Object<S> {
    /// Added to every vertex when the object is placed in the scene.
    pub origin: Point<S>,
    /// The vertices as the object was made, in its own frame.
    pub vertices: Vec<Vector3<S>>,
    /// The vertices under the cumulative transform.
    pub transform_vertices: Vec<Vector3<S>>,
    /// The triangles, each three positions in the vertex lists. The order of
    /// the three decides which way the triangle faces.
    pub polygons: Vec<[usize; 3]>,
    /// The cumulative transform: every rotation so far, composed.
    pub transform_matrix: TransformMatrix<S>,
    pub tranlation_vector: Vector3<S>,
}

impl<S> Object<S> {
    /// Triangle `k` names three vertices that exist.
    pub open spec fn polygon_in_range(&self, k: int) -> bool {
        forall|c: int| 0 <= c < 3 ==> (#[trigger] self.polygons[k][c]) < self.vertices.len()
    }

    /// Every triangle names vertices that exist, and there are as many
    /// present vertices as base ones.
    pub open spec fn well_formed(&self) -> bool {
        &&& self.transform_vertices.len() == self.vertices.len()
        &&& forall|k: int| 0 <= k < self.polygons.len() ==> #[trigger] self.polygon_in_range(k)
    }

    /// Tells whether the object is well formed.
    pub fn is_well_formed(&self) -> (ok: bool)
        ensures
            ok == self.well_formed(),
    {
        if self.transform_vertices.len() != self.vertices.len() {
            return false;
        }
        let count = self.vertices.len();
        let mut k: usize = 0;
        while k < self.polygons.len()
            invariant
                k <= self.polygons.len(),
                count == self.vertices.len(),
                forall|j: int| 0 <= j < k ==> #[trigger] self.polygon_in_range(j),
            decreases self.polygons.len() - k,
        {
            let polygon = &self.polygons[k];
            if polygon[0] >= count || polygon[1] >= count || polygon[2] >= count {
                assert(!self.polygon_in_range(k as int));
                return false;
            }
            assert(self.polygon_in_range(k as int));
            k += 1;
        }
        true
    }
}

/// The triangles of the test object.
pub open spec fn test_polygons() -> Seq<Seq<usize>> {
    seq![seq![0usize, 1, 2], seq![0usize, 1, 3], seq![2usize, 3, 0], seq![1usize, 2, 3]]
}

/// `obj` may be the test object: a tetrahedron about its own origin, placed
/// at `(0, 0, 100)`, not yet rotated.
pub open spec fn is_test_object<S: Scalar>(obj: Object<S>) -> bool {
    &&& whole_vector(0, 0, 100, obj.origin)
    &&& obj.vertices.len() == 4
    &&& whole_vector(20, -20, 50, obj.vertices[0])
    &&& whole_vector(-20, -20, 50, obj.vertices[1])
    &&& whole_vector(0, 20, 0, obj.vertices[2])
    &&& whole_vector(0, 0, -50, obj.vertices[3])
    &&& obj.transform_vertices@ == obj.vertices@
    &&& obj.polygons.len() == 4
    &&& forall|k: int| 0 <= k < 4 ==> (#[trigger] obj.polygons[k])@ == test_polygons()[k]
    &&& is_identity(obj.transform_matrix)
    &&& whole_vector(0, 0, 0, obj.tranlation_vector)
}

/// Makes the test object.
pub fn new_test_obj<S: Scalar>() -> (obj: Object<S>)
    ensures
        is_test_object(obj),
        obj.well_formed(),
{
    let v0: Vector3<S> = vector_of(20, -20, 50);
    let v1: Vector3<S> = vector_of(-20, -20, 50);
    let v2: Vector3<S> = vector_of(0, 20, 0);
    let v3: Vector3<S> = vector_of(0, 0, -50);
    let mut vertices: Vec<Vector3<S>> = Vec::new();
    vertices.push(v0);
    vertices.push(v1);
    vertices.push(v2);
    vertices.push(v3);
    let mut transform_vertices: Vec<Vector3<S>> = Vec::new();
    transform_vertices.push(v0);
    transform_vertices.push(v1);
    transform_vertices.push(v2);
    transform_vertices.push(v3);
    let mut polygons: Vec<[usize; 3]> = Vec::new();
    polygons.push([0, 1, 2]);
    polygons.push([0, 1, 3]);
    polygons.push([2, 3, 0]);
    polygons.push([1, 2, 3]);
    let obj = Object {
        origin: vector_of(0, 0, 100),
        vertices,
        transform_vertices,
        polygons,
        transform_matrix: identity(),
        tranlation_vector: vector_of(0, 0, 0),
    };
    proof {
        assert(obj.transform_vertices@ =~= obj.vertices@);
        assert forall|k: int| 0 <= k < 4 implies (#[trigger] obj.polygons[k])@ == test_polygons()[k] by {
            assert(obj.polygons[k]@ =~= test_polygons()[k]);
        }
        assert forall|k: int| 0 <= k < obj.polygons.len() implies #[trigger] obj.polygon_in_range(
            k,
        ) by {
            assert(obj.polygons[k]@ == test_polygons()[k]);
        }
    }
    obj
}

/// The present vertices of `obj` may be the images of its base vertices
/// under its cumulative transform, one for one.
pub open spec fn derived<S: Scalar>(obj: &Object<S>) -> bool {
    &&& obj.transform_vertices.len() == obj.vertices.len()
    &&& forall|i: int|
        0 <= i < obj.vertices.len() ==> transformed(
            obj.transform_matrix,
            obj.vertices[i],
            #[trigger] obj.transform_vertices[i],
        )
}

/// `after` may be `before` rotated by `increment`: the cumulative transform
/// of `after` is the product of `increment`, on the left, with the
/// cumulative transform of `before`; the present vertices of `after` are
/// derived from the base vertices; and nothing else differs.
pub open spec fn rotated<S: Scalar>(
    before: &Object<S>,
    increment: TransformMatrix<S>,
    after: &Object<S>,
) -> bool {
    &&& after.origin == before.origin
    &&& after.vertices@ == before.vertices@
    &&& after.polygons@ == before.polygons@
    &&& after.tranlation_vector == before.tranlation_vector
    &&& composed(increment, before.transform_matrix, after.transform_matrix)
    &&& derived(after)
}

/// Rotates `obj` by `transform_matrix`.
pub fn rotate<S: Scalar>(obj: Object<S>, transform_matrix: TransformMatrix<S>) -> (res: Object<S>)
    ensures
        rotated(&obj, transform_matrix, &res),
        obj.well_formed() ==> res.well_formed(),
{
    let new_transform_matrix = transform_matrix * obj.transform_matrix;
    let mut new_vertices: Vec<Vector3<S>> = Vec::new();
    let mut i: usize = 0;
    while i < obj.vertices.len()
        invariant
            i <= obj.vertices.len(),
            new_vertices.len() == i,
            forall|j: int|
                0 <= j < i ==> transformed(
                    new_transform_matrix,
                    obj.vertices[j],
                    #[trigger] new_vertices[j],
                ),
        decreases obj.vertices.len() - i,
    {
        new_vertices.push(new_transform_matrix * obj.vertices[i]);
        i += 1;
    }
    let res = Object {
        origin: obj.origin,
        vertices: obj.vertices,
        transform_vertices: new_vertices,
        polygons: obj.polygons,
        transform_matrix: new_transform_matrix,
        tranlation_vector: obj.tranlation_vector,
    };
    proof {
        if obj.well_formed() {
            assert forall|k: int| 0 <= k < res.polygons.len() implies #[trigger] res.polygon_in_range(
                k,
            ) by {
                assert(obj.polygon_in_range(k));
            }
        }
    }
    res
}

/// The transform `m` sends every vector to itself.
pub open spec fn fixes_every_vector<S: Scalar>(m: TransformMatrix<S>) -> bool {
    forall|v: Vector3<S>, r: Vector3<S>| #[trigger] transformed(m, v, r) ==> r == v
}

/// Composed on the left of any transform, `increment` gives that transform
/// back.
pub open spec fn left_unit<S: Scalar>(increment: TransformMatrix<S>) -> bool {
    forall|m: TransformMatrix<S>, r: TransformMatrix<S>| #[trigger]
        composed(increment, m, r) ==> r == m
}

/// A transform has at most one image for each vector.
pub open spec fn single_valued<S: Scalar>() -> bool {
    forall|m: TransformMatrix<S>, v: Vector3<S>, r1: Vector3<S>, r2: Vector3<S>|
        #![trigger transformed(m, v, r1), transformed(m, v, r2)]
        transformed(m, v, r1) && transformed(m, v, r2) ==> r1 == r2
}

/// A run of rotations: it starts from `states[0]`, and each later state is
/// the one before it rotated by the increment of that step.
pub open spec fn rotations<S: Scalar>(
    states: Seq<Object<S>>,
    increments: Seq<TransformMatrix<S>>,
) -> bool {
    &&& states.len() == increments.len() + 1
    &&& forall|k: int|
        1 <= k < states.len() ==> rotated(&states[k - 1], increments[k - 1], #[trigger] &states[k])
}

/// An object whose cumulative transform sends every vector to itself, and
/// whose present vertices are derived, stands exactly where it was made.
pub proof fn lemma_identity_transform_shows_base<S: Scalar>(obj: &Object<S>)
    requires
        derived(obj),
        fixes_every_vector(obj.transform_matrix),
    ensures
        obj.transform_vertices@ == obj.vertices@,
{
    assert forall|i: int| 0 <= i < obj.vertices.len() implies obj.transform_vertices[i]
        == obj.vertices[i] by {
        assert(transformed(obj.transform_matrix, obj.vertices[i], obj.transform_vertices[i]));
    }
    assert(obj.transform_vertices@ =~= obj.vertices@);
}

/// A rotation by an increment that is a left unit of composition leaves the
/// cumulative transform as it was. If that transform sends every vector to
/// itself, every present vertex then equals the base vertex at its
/// position; and if the object was derived before and transforms are single
/// valued, no present vertex moves.
pub proof fn lemma_identity_increment<S: Scalar>(
    before: &Object<S>,
    increment: TransformMatrix<S>,
    after: &Object<S>,
)
    requires
        rotated(before, increment, after),
        left_unit(increment),
    ensures
        after.transform_matrix == before.transform_matrix,
        fixes_every_vector(before.transform_matrix) ==> after.transform_vertices@
            == before.vertices@,
        derived(before) && single_valued::<S>() ==> after.transform_vertices@
            == before.transform_vertices@,
{
    assert(composed(increment, before.transform_matrix, after.transform_matrix));
    if fixes_every_vector(before.transform_matrix) {
        lemma_identity_transform_shows_base(after);
    }
    if derived(before) && single_valued::<S>() {
        assert forall|i: int| 0 <= i < before.vertices.len() implies after.transform_vertices[i]
            == before.transform_vertices[i] by {
            assert(transformed(
                before.transform_matrix,
                before.vertices[i],
                before.transform_vertices[i],
            ));
            assert(transformed(
                after.transform_matrix,
                after.vertices[i],
                after.transform_vertices[i],
            ));
        }
        assert(after.transform_vertices@ =~= before.transform_vertices@);
    }
}

/// Through any run of rotations the base vertices, the triangles and
/// the origin stay as they were at the start, and after each rotation the
/// present vertices are derived from the base ones.
pub proof fn lemma_rotations_keep_base<S: Scalar>(
    states: Seq<Object<S>>,
    increments: Seq<TransformMatrix<S>>,
    k: int,
)
    requires
        rotations(states, increments),
        0 <= k < states.len(),
    ensures
        states[k].vertices@ == states[0].vertices@,
        states[k].polygons@ == states[0].polygons@,
        states[k].origin == states[0].origin,
        k >= 1 ==> derived(&states[k]),
        states[0].well_formed() && k >= 1 ==> states[k].well_formed(),
    decreases k,
{
    if k >= 1 {
        lemma_rotations_keep_base(states, increments, k - 1);
        assert(rotated(&states[k - 1], increments[k - 1], &states[k]));
        if states[0].well_formed() {
            assert forall|t: int| 0 <= t < states[k].polygons.len() implies #[trigger] states[k].polygon_in_range(
                t,
            ) by {
                assert(states[0].polygon_in_range(t));
            }
        }
    }
}

/// After any run of one or more rotations whose cumulative transform sends
/// every vector to itself, every present vertex is back at the original
/// vertex of the start, exactly: nothing drifts, however long the run.
pub proof fn lemma_rotations_return_to_base<S: Scalar>(
    states: Seq<Object<S>>,
    increments: Seq<TransformMatrix<S>>,
)
    requires
        rotations(states, increments),
        increments.len() >= 1,
        fixes_every_vector(states.last().transform_matrix),
    ensures
        states.last().transform_vertices@ == states[0].vertices@,
{
    let n = states.len() - 1;
    lemma_rotations_keep_base(states, increments, n);
    lemma_identity_transform_shows_base(&states[n]);
}

} // verus!
