//! The algebra of three-component vectors: differences, dot and cross
//! products, lengths and unit vectors.
//!
//! A length is a square root, and a unit vector a quotient. Either may fail
//! to be a number: the length of a vector with a component that is none, or
//! the unit vector of a vector of length nought. The functions named `try_`
//! report that; the others leave such vectors to their callers to exclude.
use crate::geometry::Vector3;
use crate::scalar::{
    difference, exact, never_nan, product, quotient, says_nan, square_root, sum, whole, Scalar,
};
use vstd::pervasive::unreached;
use vstd::prelude::*;

verus! {

/// A result that should have been a number and was none.
#[derive(Copy, Clone, Debug, PartialEq, Eq)]
pub struct NotANumber;

/// `r` may be the vector that leads from `a` to `b`: `b - a`, component by
/// component.
pub open spec fn from_to<S: Scalar>(a: Vector3<S>, b: Vector3<S>, r: Vector3<S>) -> bool {
    &&& difference(b.x, a.x, r.x)
    &&& difference(b.y, a.y, r.y)
    &&& difference(b.z, a.z, r.z)
}

/// The vector that leads from `a` to `b`.
pub fn vector_ab<S: Scalar>(a: Vector3<S>, b: Vector3<S>) -> (r: Vector3<S>)
    ensures
        from_to(a, b, r),
{
    Vector3 { x: b.x.minus(a.x), y: b.y.minus(a.y), z: b.z.minus(a.z) }
}

/// `r` may be the dot product `a.x * b.x + a.y * b.y + a.z * b.z`, the
/// products taken first and added from the left.
pub open spec fn dot<S: Scalar>(a: Vector3<S>, b: Vector3<S>, r: S) -> bool {
    exists|xx: S, yy: S, zz: S, xy: S|
        {
            &&& #[trigger] product(a.x, b.x, xx)
            &&& #[trigger] product(a.y, b.y, yy)
            &&& #[trigger] product(a.z, b.z, zz)
            &&& #[trigger] sum(xx, yy, xy)
            &&& sum(xy, zz, r)
        }
}

/// The dot product of two vectors.
pub fn dot_product<S: Scalar>(v_1: Vector3<S>, v_2: Vector3<S>) -> (r: S)
    ensures
        dot(v_1, v_2, r),
{
    let xx = v_1.x.times(v_2.x);
    let yy = v_1.y.times(v_2.y);
    let zz = v_1.z.times(v_2.z);
    let xy = xx.plus(yy);
    let r = xy.plus(zz);
    assert(product(v_1.x, v_2.x, xx) && product(v_1.y, v_2.y, yy) && product(v_1.z, v_2.z, zz)
        && sum(xx, yy, xy) && sum(xy, zz, r));
    r
}

/// `r` may be `p * t - s * q`.
pub open spec fn minor<S: Scalar>(p: S, q: S, s: S, t: S, r: S) -> bool {
    exists|pt: S, sq: S|
        {
            &&& #[trigger] product(p, t, pt)
            &&& #[trigger] product(s, q, sq)
            &&& difference(pt, sq, r)
        }
}

/// `r` may be `-1 * m`.
pub open spec fn opposite<S: Scalar>(m: S, r: S) -> bool {
    exists|minus_one: S| #[trigger] whole(-1, minus_one) && product(minus_one, m, r)
}

/// `r` may be the right-handed cross product of `a` and `b`:
/// `(a.y * b.z - b.y * a.z, -1 * (a.x * b.z - b.x * a.z), a.x * b.y - b.x * a.y)`.
pub open spec fn cross<S: Scalar>(a: Vector3<S>, b: Vector3<S>, r: Vector3<S>) -> bool {
    &&& minor(a.y, a.z, b.y, b.z, r.x)
    &&& exists|m: S| #[trigger] minor(a.x, a.z, b.x, b.z, m) && opposite(m, r.y)
    &&& minor(a.x, a.y, b.x, b.y, r.z)
}

/// Computes `p * t - s * q`.
fn minor_of<S: Scalar>(p: S, q: S, s: S, t: S) -> (r: S)
    ensures
        minor(p, q, s, t, r),
{
    let pt = p.times(t);
    let sq = s.times(q);
    let r = pt.minus(sq);
    assert(product(p, t, pt) && product(s, q, sq) && difference(pt, sq, r));
    r
}

/// Computes `-1 * m`.
pub fn opposite_of<S: Scalar>(m: S) -> (r: S)
    ensures
        opposite(m, r),
{
    let minus_one = S::from_int(-1);
    let r = minus_one.times(m);
    assert(whole(-1, minus_one) && product(minus_one, m, r));
    r
}

/// The right-handed cross product of two vectors. It is the zero vector
/// when the two are parallel, or when one of them is the zero vector.
pub fn cross_product<S: Scalar>(v_1: Vector3<S>, v_2: Vector3<S>) -> (r: Vector3<S>)
    ensures
        cross(v_1, v_2, r),
{
    let x = minor_of(v_1.y, v_1.z, v_2.y, v_2.z);
    let m = minor_of(v_1.x, v_1.z, v_2.x, v_2.z);
    let y = opposite_of(m);
    let z = minor_of(v_1.x, v_1.y, v_2.x, v_2.y);
    assert(minor(v_1.x, v_1.z, v_2.x, v_2.z, m) && opposite(m, y));
    Vector3 { x, y, z }
}

/// `r` may be the hypotenuse of `a` and `b`: the square root of
/// `a * a + b * b`.
pub open spec fn hypotenuse<S: Scalar>(a: S, b: S, r: S) -> bool {
    exists|aa: S, bb: S, s: S|
        {
            &&& #[trigger] product(a, a, aa)
            &&& #[trigger] product(b, b, bb)
            &&& #[trigger] sum(aa, bb, s)
            &&& square_root(s, r)
        }
}

/// Computes the hypotenuse of `a` and `b`.
fn hypotenuse_of<S: Scalar>(a: S, b: S) -> (r: S)
    ensures
        hypotenuse(a, b, r),
{
    let aa = a.times(a);
    let bb = b.times(b);
    let s = aa.plus(bb);
    let r = s.root();
    assert(product(a, a, aa) && product(b, b, bb) && sum(aa, bb, s) && square_root(s, r));
    r
}

/// `r` may be the length of `v`: the hypotenuse of `v.z` and of the
/// hypotenuse of `v.x` and `v.y`.
pub open spec fn length<S: Scalar>(v: Vector3<S>, r: S) -> bool {
    exists|aux: S| #[trigger] hypotenuse(v.x, v.y, aux) && hypotenuse(aux, v.z, r)
}

/// `r` may be the length that measuring `v` finds: both hypotenuses on the
/// way are taken for numbers.
pub open spec fn length_found<S: Scalar>(v: Vector3<S>, r: S) -> bool {
    exists|aux: S|
        {
            &&& #[trigger] hypotenuse(v.x, v.y, aux)
            &&& says_nan(aux, false)
            &&& hypotenuse(aux, v.z, r)
            &&& says_nan(r, false)
        }
}

/// Measuring `v` may fail: a hypotenuse on the way is taken for no number.
pub open spec fn length_fails<S: Scalar>(v: Vector3<S>) -> bool {
    exists|aux: S| #[trigger]
        hypotenuse(v.x, v.y, aux) && (says_nan(aux, true) || exists|r: S|
            says_nan(aux, false) && #[trigger] hypotenuse(aux, v.z, r) && says_nan(r, true))
}

/// `res` may be what measuring `v` gives.
pub open spec fn measured<S: Scalar>(v: Vector3<S>, res: Result<S, NotANumber>) -> bool {
    match res {
        Ok(r) => length_found(v, r),
        Err(_) => length_fails(v),
    }
}

/// Neither hypotenuse on the way to the length of `v` is ever taken for no
/// number.
pub open spec fn measurable<S: Scalar>(v: Vector3<S>) -> bool {
    forall|aux: S| #[trigger]
        hypotenuse(v.x, v.y, aux) ==> never_nan(aux) && forall|r: S| #[trigger]
            hypotenuse(aux, v.z, r) ==> never_nan(r)
}

/// The length of `vec`, or an error when a hypotenuse on the way to it is
/// no number.
pub fn try_length_of_vector<S: Scalar>(vec: Vector3<S>) -> (res: Result<S, NotANumber>)
    ensures
        measured(vec, res),
{
    let aux_vec = hypotenuse_of(vec.x, vec.y);
    if aux_vec.is_nan() {
        assert(hypotenuse(vec.x, vec.y, aux_vec) && says_nan(aux_vec, true));
        return Err(NotANumber);
    }
    let res = hypotenuse_of(aux_vec, vec.z);
    if res.is_nan() {
        assert(says_nan(aux_vec, false) && hypotenuse(aux_vec, vec.z, res) && says_nan(res, true));
        assert(hypotenuse(vec.x, vec.y, aux_vec));
        return Err(NotANumber);
    }
    assert(hypotenuse(vec.x, vec.y, aux_vec) && says_nan(aux_vec, false) && hypotenuse(
        aux_vec,
        vec.z,
        res,
    ) && says_nan(res, false));
    Ok(res)
}

/// A length that measuring finds is a length.
pub proof fn lemma_found_is_length<S: Scalar>(v: Vector3<S>, len: S)
    requires
        length_found(v, len),
    ensures
        length(v, len),
{
    let aux = choose|aux: S|
        {
            &&& #[trigger] hypotenuse(v.x, v.y, aux)
            &&& says_nan(aux, false)
            &&& hypotenuse(aux, v.z, len)
            &&& says_nan(len, false)
        };
    assert(hypotenuse(v.x, v.y, aux) && hypotenuse(aux, v.z, len));
}

/// The length of `vec`.
pub fn length_of_vector<S: Scalar>(vec: Vector3<S>) -> (r: S)
    requires
        measurable(vec),
    ensures
        length_found(vec, r),
{
    match try_length_of_vector(vec) {
        Ok(r) => r,
        Err(_) => {
            proof {
                lemma_measurable_never_fails(vec);
            }
            unreached()
        },
    }
}

/// `r` may be `v` with every component divided by `len`.
pub open spec fn divided<S: Scalar>(v: Vector3<S>, len: S, r: Vector3<S>) -> bool {
    &&& quotient(v.x, len, r.x)
    &&& quotient(v.y, len, r.y)
    &&& quotient(v.z, len, r.z)
}

/// `r` may be the unit vector along `v`: `v` divided by its length.
pub open spec fn unit<S: Scalar>(v: Vector3<S>, r: Vector3<S>) -> bool {
    exists|len: S| #[trigger] length(v, len) && divided(v, len, r)
}

/// Every component of `v` is taken for a number.
pub open spec fn all_numbers<S: Scalar>(v: Vector3<S>) -> bool {
    says_nan(v.x, false) && says_nan(v.y, false) && says_nan(v.z, false)
}

/// Some component of `v` is taken for no number.
pub open spec fn some_nan<S: Scalar>(v: Vector3<S>) -> bool {
    says_nan(v.x, true) || says_nan(v.y, true) || says_nan(v.z, true)
}

/// `r` may be the unit vector that normalizing `v` finds: `v` divided by a
/// length that measuring finds, every component taken for a number.
pub open spec fn unit_found<S: Scalar>(v: Vector3<S>, r: Vector3<S>) -> bool {
    exists|len: S| #[trigger] length_found(v, len) && divided(v, len, r) && all_numbers(r)
}

/// Normalizing `v` may fail: measuring fails, or a component of `v` divided
/// by its length is taken for no number.
pub open spec fn unit_fails<S: Scalar>(v: Vector3<S>) -> bool {
    ||| length_fails(v)
    ||| exists|len: S, q: Vector3<S>|
        #[trigger] length_found(v, len) && #[trigger] divided(v, len, q) && some_nan(q)
}

/// `res` may be what normalizing `v` gives.
pub open spec fn normalized<S: Scalar>(v: Vector3<S>, res: Result<Vector3<S>, NotANumber>) -> bool {
    match res {
        Ok(r) => unit_found(v, r),
        Err(_) => unit_fails(v),
    }
}

/// `v` can be measured, and no component of `v` divided by its length is
/// ever taken for no number.
pub open spec fn normalizable<S: Scalar>(v: Vector3<S>) -> bool {
    &&& measurable(v)
    &&& forall|len: S, q: Vector3<S>|
        #[trigger] length(v, len) && #[trigger] divided(v, len, q) ==> never_nan(q.x) && never_nan(
            q.y,
        ) && never_nan(q.z)
}

/// The unit vector along `vec`, or an error when its length or one of its
/// components is no number, as is the case for the zero vector.
pub fn try_vector_to_unit_vector<S: Scalar>(vec: Vector3<S>) -> (res: Result<
    Vector3<S>,
    NotANumber,
>)
    ensures
        normalized(vec, res),
{
    let len = match try_length_of_vector(vec) {
        Ok(len) => len,
        Err(e) => {
            return Err(e);
        },
    };
    let q = Vector3 { x: vec.x.over(len), y: vec.y.over(len), z: vec.z.over(len) };
    if q.x.is_nan() || q.y.is_nan() || q.z.is_nan() {
        assert(length_found(vec, len) && divided(vec, len, q) && some_nan(q));
        return Err(NotANumber);
    }
    assert(length_found(vec, len) && divided(vec, len, q) && all_numbers(q));
    Ok(q)
}

/// A unit vector that normalizing finds is a unit vector.
pub proof fn lemma_found_is_unit<S: Scalar>(v: Vector3<S>, r: Vector3<S>)
    requires
        unit_found(v, r),
    ensures
        unit(v, r),
{
    let len = choose|len: S| #[trigger] length_found(v, len) && divided(v, len, r) && all_numbers(r);
    lemma_found_is_length(v, len);
    assert(length(v, len) && divided(v, len, r));
}

/// A vector that can be measured is never measured in vain.
pub proof fn lemma_measurable_never_fails<S: Scalar>(v: Vector3<S>)
    requires
        measurable(v),
    ensures
        !length_fails(v),
{
    if length_fails(v) {
        let aux = choose|aux: S| #[trigger]
            hypotenuse(v.x, v.y, aux) && (says_nan(aux, true) || exists|r: S|
                says_nan(aux, false) && #[trigger] hypotenuse(aux, v.z, r) && says_nan(r, true));
        assert(never_nan(aux));
        let r = choose|r: S|
            says_nan(aux, false) && #[trigger] hypotenuse(aux, v.z, r) && says_nan(r, true);
        assert(never_nan(r));
    }
}

/// A vector that can be normalized is never normalized in vain.
pub proof fn lemma_normalizable_never_fails<S: Scalar>(v: Vector3<S>)
    requires
        normalizable(v),
    ensures
        !unit_fails(v),
{
    lemma_measurable_never_fails(v);
    if unit_fails(v) {
        let (len, q) = choose|len: S, q: Vector3<S>|
            #[trigger] length_found(v, len) && #[trigger] divided(v, len, q) && some_nan(q);
        lemma_found_is_length(v, len);
        assert(length(v, len) && divided(v, len, q));
    }
}

/// The unit vector along `vec`.
pub fn vector_to_unit_vector<S: Scalar>(vec: Vector3<S>) -> (r: Vector3<S>)
    requires
        normalizable(vec),
    ensures
        unit_found(vec, r),
{
    match try_vector_to_unit_vector(vec) {
        Ok(r) => r,
        Err(_) => {
            proof {
                lemma_normalizable_never_fails(vec);
            }
            unreached()
        },
    }
}

/// The dot product of the readings of `a` and `b` through `value`.
pub open spec fn dot_value<S: Scalar>(value: spec_fn(S) -> int, a: Vector3<S>, b: Vector3<S>) -> int {
    value(a.x) * value(b.x) + value(a.y) * value(b.y) + value(a.z) * value(b.z)
}

/// In exact arithmetic a dot product reads as the dot product of the
/// readings.
pub proof fn lemma_dot_exact<S: Scalar>(value: spec_fn(S) -> int, a: Vector3<S>, b: Vector3<S>, r: S)
    requires
        exact(value),
        dot(a, b, r),
    ensures
        value(r) == dot_value(value, a, b),
{
    let (xx, yy, zz, xy) = choose|xx: S, yy: S, zz: S, xy: S|
        {
            &&& #[trigger] product(a.x, b.x, xx)
            &&& #[trigger] product(a.y, b.y, yy)
            &&& #[trigger] product(a.z, b.z, zz)
            &&& #[trigger] sum(xx, yy, xy)
            &&& sum(xy, zz, r)
        };
    assert(sum(xy, zz, r));
}

/// In exact arithmetic `p * t - s * q` reads as that expression over the
/// readings.
pub proof fn lemma_minor_exact<S: Scalar>(value: spec_fn(S) -> int, p: S, q: S, s: S, t: S, r: S)
    requires
        exact(value),
        minor(p, q, s, t, r),
    ensures
        value(r) == value(p) * value(t) - value(s) * value(q),
{
    let (pt, sq) = choose|pt: S, sq: S|
        {
            &&& #[trigger] product(p, t, pt)
            &&& #[trigger] product(s, q, sq)
            &&& difference(pt, sq, r)
        };
    assert(difference(pt, sq, r));
}

/// In exact arithmetic `-1 * m` reads as the negative of the reading of `m`.
pub proof fn lemma_opposite_exact<S: Scalar>(value: spec_fn(S) -> int, m: S, r: S)
    requires
        exact(value),
        opposite(m, r),
    ensures
        value(r) == -value(m),
{
    let minus_one = choose|minus_one: S| #[trigger] whole(-1, minus_one) && product(minus_one, m, r);
    assert(product(minus_one, m, r));
    assert(value(minus_one) == -1);
    assert(value(r) == value(minus_one) * value(m));
    assert((-1) * value(m) == -value(m)) by (nonlinear_arith);
}

/// In exact arithmetic a cross product reads, component by component, as
/// the cross product of the readings.
pub proof fn lemma_cross_exact<S: Scalar>(
    value: spec_fn(S) -> int,
    a: Vector3<S>,
    b: Vector3<S>,
    r: Vector3<S>,
)
    requires
        exact(value),
        cross(a, b, r),
    ensures
        value(r.x) == value(a.y) * value(b.z) - value(b.y) * value(a.z),
        value(r.y) == value(b.x) * value(a.z) - value(a.x) * value(b.z),
        value(r.z) == value(a.x) * value(b.y) - value(b.x) * value(a.y),
{
    lemma_minor_exact(value, a.y, a.z, b.y, b.z, r.x);
    let m = choose|m: S| #[trigger] minor(a.x, a.z, b.x, b.z, m) && opposite(m, r.y);
    lemma_minor_exact(value, a.x, a.z, b.x, b.z, m);
    lemma_opposite_exact(value, m, r.y);
    lemma_minor_exact(value, a.x, a.y, b.x, b.y, r.z);
}

/// In exact arithmetic the cross product of two vectors is perpendicular to
/// both: its dot product with either reads as nought.
pub proof fn lemma_cross_is_perpendicular<S: Scalar>(
    value: spec_fn(S) -> int,
    u: Vector3<S>,
    v: Vector3<S>,
    c: Vector3<S>,
    with_u: S,
    with_v: S,
)
    requires
        exact(value),
        cross(u, v, c),
        dot(c, u, with_u),
        dot(c, v, with_v),
    ensures
        value(with_u) == 0,
        value(with_v) == 0,
{
    lemma_cross_exact(value, u, v, c);
    lemma_dot_exact(value, c, u, with_u);
    lemma_dot_exact(value, c, v, with_v);
    let (ux, uy, uz) = (value(u.x), value(u.y), value(u.z));
    let (vx, vy, vz) = (value(v.x), value(v.y), value(v.z));
    assert((uy * vz - vy * uz) * ux + (vx * uz - ux * vz) * uy + (ux * vy - vx * uy) * uz == 0)
        by (nonlinear_arith);
    assert((uy * vz - vy * uz) * vx + (vx * uz - ux * vz) * vy + (ux * vy - vx * uy) * vz == 0)
        by (nonlinear_arith);
}

/// In exact arithmetic the cross product of two parallel vectors reads as
/// the zero vector: so it is when the second is a multiple of the first,
/// the zero vector among them, and when the first is a multiple of the
/// second.
pub proof fn lemma_cross_of_parallel_is_zero<S: Scalar>(
    value: spec_fn(S) -> int,
    a: Vector3<S>,
    b: Vector3<S>,
    c: Vector3<S>,
    k: int,
)
    requires
        exact(value),
        cross(a, b, c),
        (value(b.x) == k * value(a.x) && value(b.y) == k * value(a.y) && value(b.z) == k * value(
            a.z,
        )) || (value(a.x) == k * value(b.x) && value(a.y) == k * value(b.y) && value(a.z) == k
            * value(b.z)),
    ensures
        value(c.x) == 0 && value(c.y) == 0 && value(c.z) == 0,
{
    lemma_cross_exact(value, a, b, c);
    let (ax, ay, az) = (value(a.x), value(a.y), value(a.z));
    let (bx, by, bz) = (value(b.x), value(b.y), value(b.z));
    if bx == k * ax && by == k * ay && bz == k * az {
        assert(ay * (k * az) - (k * ay) * az == 0 && (k * ax) * az - ax * (k * az) == 0 && ax * (k
            * ay) - (k * ax) * ay == 0) by (nonlinear_arith);
    } else {
        assert((k * by) * bz - by * (k * bz) == 0 && bx * (k * bz) - (k * bx) * bz == 0 && (k * bx)
            * by - bx * (k * by) == 0) by (nonlinear_arith);
    }
}

/// In exact arithmetic the vector from a point to itself reads as the zero
/// vector.
pub proof fn lemma_from_a_point_to_itself<S: Scalar>(
    value: spec_fn(S) -> int,
    a: Vector3<S>,
    r: Vector3<S>,
)
    requires
        exact(value),
        from_to(a, a, r),
    ensures
        value(r.x) == 0 && value(r.y) == 0 && value(r.z) == 0,
{
}

} // verus!
