//! Three-component vectors and three-row matrices, and their arithmetic.
//!
//! A matrix stands for a linear map and is stored by rows. The product
//! `a * b` of two matrices is the map that applies `b` first and `a` after
//! it; it is not commutative.
use crate::scalar::{exact, product, sum, whole, Scalar};
use crate::vectors::{dot, dot_product, lemma_dot_exact};
use vstd::prelude::*;
use vstd::std_specs::ops::{AddSpecImpl, MulSpecImpl};

verus! {

/// Why a position inside a vector or a matrix was refused.
#[derive(Copy, Clone, Debug, PartialEq, Eq)]
pub enum IndexError {
    /// The position was 3 or more.
    IndexOutOfBounds,
}

/// A vector of three scalar components. Two vectors are equal exactly when
/// their components are equal one by one.
#[derive(Copy, Clone, Debug, PartialEq)]
pub struct Vector3<S> {
    pub x: S,
    pub y: S,
    pub z: S,
}

/// A position in space, given by the vector that leads to it.
pub type Point<S> = Vector3<S>;

impl<S> Vector3<S> {
    /// The component at position `index`: `x` at 0, `y` at 1, `z` at 2.
    pub open spec fn component(self, index: int) -> S
        recommends
            0 <= index < 3,
    {
        if index == 0 {
            self.x
        } else if index == 1 {
            self.y
        } else {
            self.z
        }
    }

    /// This vector with the component at position `index` replaced by `value`.
    pub open spec fn with_component(self, index: int, value: S) -> Self
        recommends
            0 <= index < 3,
    {
        if index == 0 {
            Vector3 { x: value, y: self.y, z: self.z }
        } else if index == 1 {
            Vector3 { x: self.x, y: value, z: self.z }
        } else {
            Vector3 { x: self.x, y: self.y, z: value }
        }
    }

    /// Borrows the component at position `index`.
    pub fn index(&self, index: usize) -> (r: &S)
        requires
            index < 3,
        ensures
            *r == self.component(index as int),
    {
        if index == 0 {
            &self.x
        } else if index == 1 {
            &self.y
        } else {
            &self.z
        }
    }

    /// Borrows the component at position `index` for writing. Whatever is
    /// written through the borrow lands in that component and in no other.
    pub fn index_mut(&mut self, index: usize) -> (r: &mut S)
        requires
            index < 3,
        ensures
            *r == old(self).component(index as int),
            *final(self) == old(self).with_component(index as int, *final(r)),
    {
        if index == 0 {
            &mut self.x
        } else if index == 1 {
            &mut self.y
        } else {
            &mut self.z
        }
    }

    /// Borrows the component at position `index`, or reports that there is
    /// no such position.
    pub fn get(&self, index: usize) -> (r: Result<&S, IndexError>)
        ensures
            index < 3 ==> r == Ok::<&S, IndexError>(&self.component(index as int)),
            index >= 3 ==> r == Err::<&S, IndexError>(IndexError::IndexOutOfBounds),
    {
        if index < 3 {
            Ok(self.index(index))
        } else {
            Err(IndexError::IndexOutOfBounds)
        }
    }
}

/// A linear map of three-component vectors, stored as its three rows.
#[derive(Copy, Clone, Debug, PartialEq)]
pub struct TransformMatrix<S> {
    pub row_1: Vector3<S>,
    pub row_2: Vector3<S>,
    pub row_3: Vector3<S>,
}

impl<S> TransformMatrix<S> {
    /// The row at position `index`: `row_1` at 0, `row_2` at 1, `row_3` at 2.
    pub open spec fn row(self, index: int) -> Vector3<S>
        recommends
            0 <= index < 3,
    {
        if index == 0 {
            self.row_1
        } else if index == 1 {
            self.row_2
        } else {
            self.row_3
        }
    }

    /// The column at position `index`, from the first row to the third.
    pub open spec fn column(self, index: int) -> Vector3<S>
        recommends
            0 <= index < 3,
    {
        Vector3 {
            x: self.row_1.component(index),
            y: self.row_2.component(index),
            z: self.row_3.component(index),
        }
    }

    /// Borrows the row at position `index`.
    pub fn index(&self, index: usize) -> (r: &Vector3<S>)
        requires
            index < 3,
        ensures
            *r == self.row(index as int),
    {
        if index == 0 {
            &self.row_1
        } else if index == 1 {
            &self.row_2
        } else {
            &self.row_3
        }
    }

    /// Copies out the column at position `index`.
    pub fn column_at(&self, index: usize) -> (r: Vector3<S>) where S: Copy
        requires
            index < 3,
        ensures
            r == self.column(index as int),
    {
        Vector3 {
            x: *self.row_1.index(index),
            y: *self.row_2.index(index),
            z: *self.row_3.index(index),
        }
    }

    /// Borrows the row at position `index`, or reports that there is no such
    /// position.
    pub fn get(&self, index: usize) -> (r: Result<&Vector3<S>, IndexError>)
        ensures
            index < 3 ==> r == Ok::<&Vector3<S>, IndexError>(&self.row(index as int)),
            index >= 3 ==> r == Err::<&Vector3<S>, IndexError>(IndexError::IndexOutOfBounds),
    {
        if index < 3 {
            Ok(self.index(index))
        } else {
            Err(IndexError::IndexOutOfBounds)
        }
    }
}

/// `r` may stand for the vector of the whole numbers `x`, `y` and `z`.
pub open spec fn whole_vector<S: Scalar>(x: int, y: int, z: int, r: Vector3<S>) -> bool {
    &&& whole(x, r.x)
    &&& whole(y, r.y)
    &&& whole(z, r.z)
}

/// The vector of the whole numbers `x`, `y` and `z`.
pub fn vector_of<S: Scalar>(x: i32, y: i32, z: i32) -> (r: Vector3<S>)
    ensures
        whole_vector(x as int, y as int, z as int, r),
{
    Vector3 { x: S::from_int(x), y: S::from_int(y), z: S::from_int(z) }
}

/// `m` may stand for the identity: ones on the diagonal, nought elsewhere.
pub open spec fn is_identity<S: Scalar>(m: TransformMatrix<S>) -> bool {
    &&& whole_vector(1, 0, 0, m.row_1)
    &&& whole_vector(0, 1, 0, m.row_2)
    &&& whole_vector(0, 0, 1, m.row_3)
}

/// The identity matrix.
pub fn identity<S: Scalar>() -> (m: TransformMatrix<S>)
    ensures
        is_identity(m),
{
    TransformMatrix { row_1: vector_of(1, 0, 0), row_2: vector_of(0, 1, 0), row_3: vector_of(0, 0, 1) }
}

/// `r` may be `a + b`, taken component by component.
pub open spec fn added<S: Scalar>(a: Vector3<S>, b: Vector3<S>, r: Vector3<S>) -> bool {
    &&& sum(a.x, b.x, r.x)
    &&& sum(a.y, b.y, r.y)
    &&& sum(a.z, b.z, r.z)
}

/// `r` may be `v` with every component multiplied by `s`.
pub open spec fn scaled<S: Scalar>(v: Vector3<S>, s: S, r: Vector3<S>) -> bool {
    &&& product(v.x, s, r.x)
    &&& product(v.y, s, r.y)
    &&& product(v.z, s, r.z)
}

/// `r` may be the image of `v` under `m`: each component of `r` is the dot
/// product of the row of `m` at its position with `v`.
pub open spec fn transformed<S: Scalar>(m: TransformMatrix<S>, v: Vector3<S>, r: Vector3<S>) -> bool {
    &&& dot(m.row_1, v, r.x)
    &&& dot(m.row_2, v, r.y)
    &&& dot(m.row_3, v, r.z)
}

/// `r` may be the product `a * b`: the entry of `r` in row `i` and column `j`
/// is the dot product of row `i` of `a` with column `j` of `b`.
pub open spec fn composed<S: Scalar>(
    a: TransformMatrix<S>,
    b: TransformMatrix<S>,
    r: TransformMatrix<S>,
) -> bool {
    forall|i: int, j: int|
        0 <= i < 3 && 0 <= j < 3 ==> dot(a.row(i), b.column(j), #[trigger] r.row(i).component(j))
}

impl<S: Scalar> AddSpecImpl for Vector3<S> {
    /// No function of the operands is claimed for the sum: see `added`.
    open spec fn obeys_add_spec() -> bool {
        false
    }

    open spec fn add_req(self, rhs: Vector3<S>) -> bool {
        true
    }

    open spec fn add_spec(self, rhs: Vector3<S>) -> Vector3<S> {
        arbitrary()
    }
}

impl<S: Scalar> core::ops::Add for Vector3<S> {
    type Output = Vector3<S>;

    /// The sum of two vectors, component by component.
    fn add(self, vec: Vector3<S>) -> (r: Vector3<S>)
        ensures
            added(self, vec, r),
    {
        Vector3 { x: self.x.plus(vec.x), y: self.y.plus(vec.y), z: self.z.plus(vec.z) }
    }
}

impl<S: Scalar> MulSpecImpl<S> for Vector3<S> {
    /// No function of the operands is claimed for the product: see `scaled`.
    open spec fn obeys_mul_spec() -> bool {
        false
    }

    open spec fn mul_req(self, rhs: S) -> bool {
        true
    }

    open spec fn mul_spec(self, rhs: S) -> Vector3<S> {
        arbitrary()
    }
}

impl<S: Scalar> core::ops::Mul<S> for Vector3<S> {
    type Output = Vector3<S>;

    /// The vector with every component multiplied by `scalar`.
    fn mul(self, scalar: S) -> (r: Vector3<S>)
        ensures
            scaled(self, scalar, r),
    {
        Vector3 { x: self.x.times(scalar), y: self.y.times(scalar), z: self.z.times(scalar) }
    }
}

impl<S: Scalar> MulSpecImpl<Vector3<S>> for TransformMatrix<S> {
    /// No function of the operands is claimed for the image: see
    /// `transformed`.
    open spec fn obeys_mul_spec() -> bool {
        false
    }

    open spec fn mul_req(self, rhs: Vector3<S>) -> bool {
        true
    }

    open spec fn mul_spec(self, rhs: Vector3<S>) -> Vector3<S> {
        arbitrary()
    }
}

impl<S: Scalar> core::ops::Mul<Vector3<S>> for TransformMatrix<S> {
    type Output = Vector3<S>;

    /// The image of `vec` under the matrix.
    fn mul(self, vec: Vector3<S>) -> (r: Vector3<S>)
        ensures
            transformed(self, vec, r),
    {
        Vector3 {
            x: dot_product(self.row_1, vec),
            y: dot_product(self.row_2, vec),
            z: dot_product(self.row_3, vec),
        }
    }
}

impl<S: Scalar> MulSpecImpl<TransformMatrix<S>> for TransformMatrix<S> {
    /// No function of the operands is claimed for the product: see
    /// `composed`.
    open spec fn obeys_mul_spec() -> bool {
        false
    }

    open spec fn mul_req(self, rhs: TransformMatrix<S>) -> bool {
        true
    }

    open spec fn mul_spec(self, rhs: TransformMatrix<S>) -> TransformMatrix<S> {
        arbitrary()
    }
}

impl<S: Scalar> core::ops::Mul<TransformMatrix<S>> for TransformMatrix<S> {
    type Output = TransformMatrix<S>;

    /// The product of two matrices: the map that applies `matrix_2` first.
    fn mul(self, matrix_2: TransformMatrix<S>) -> (r: TransformMatrix<S>)
        ensures
            composed(self, matrix_2, r),
    {
        let zero = S::from_int(0);
        let blank = Vector3 { x: zero, y: zero, z: zero };
        let mut rows: [Vector3<S>; 3] = [blank, blank, blank];
        let mut row_index: usize = 0;
        while row_index < 3
            invariant
                row_index <= 3,
                forall|i: int, j: int|
                    0 <= i < row_index && 0 <= j < 3 ==> dot(
                        self.row(i),
                        matrix_2.column(j),
                        #[trigger] rows[i].component(j),
                    ),
            decreases 3 - row_index,
        {
            let mut v = blank;
            let mut col_index: usize = 0;
            while col_index < 3
                invariant
                    row_index < 3,
                    col_index <= 3,
                    forall|j: int|
                        0 <= j < col_index ==> dot(
                            self.row(row_index as int),
                            matrix_2.column(j),
                            #[trigger] v.component(j),
                        ),
                decreases 3 - col_index,
            {
                let cell = dot_product(*self.index(row_index), matrix_2.column_at(col_index));
                let ghost before = v;
                *v.index_mut(col_index) = cell;
                assert(v == before.with_component(col_index as int, cell));
                assert forall|j: int| 0 <= j < col_index + 1 implies dot(
                    self.row(row_index as int),
                    matrix_2.column(j),
                    #[trigger] v.component(j),
                ) by {
                    if j < col_index {
                        assert(v.component(j) == before.component(j));
                    }
                }
                col_index += 1;
            }
            rows[row_index] = v;
            row_index += 1;
        }
        let r = TransformMatrix { row_1: rows[0], row_2: rows[1], row_3: rows[2] };
        assert forall|i: int, j: int| 0 <= i < 3 && 0 <= j < 3 implies dot(
            self.row(i),
            matrix_2.column(j),
            #[trigger] r.row(i).component(j),
        ) by {
            assert(r.row(i) == rows[i]);
        }
        r
    }
}

/// The entries of `a` and `b` read alike through `value`.
pub open spec fn same_values<S: Scalar>(
    value: spec_fn(S) -> int,
    a: TransformMatrix<S>,
    b: TransformMatrix<S>,
) -> bool {
    forall|i: int, j: int|
        0 <= i < 3 && 0 <= j < 3 ==> value(#[trigger] a.row(i).component(j)) == value(
            b.row(i).component(j),
        )
}

/// In exact arithmetic the identity sends every vector to a vector that
/// reads as the same.
pub proof fn lemma_identity_keeps_vectors<S: Scalar>(
    value: spec_fn(S) -> int,
    unit: TransformMatrix<S>,
    v: Vector3<S>,
    r: Vector3<S>,
)
    requires
        exact(value),
        is_identity(unit),
        transformed(unit, v, r),
    ensures
        value(r.x) == value(v.x),
        value(r.y) == value(v.y),
        value(r.z) == value(v.z),
{
    lemma_dot_exact(value, unit.row_1, v, r.x);
    lemma_dot_exact(value, unit.row_2, v, r.y);
    lemma_dot_exact(value, unit.row_3, v, r.z);
    let (x, y, z) = (value(v.x), value(v.y), value(v.z));
    assert(1 * x + 0 * y + 0 * z == x && 0 * x + 1 * y + 0 * z == y && 0 * x + 0 * y + 1 * z == z)
        by (nonlinear_arith);
}

/// In exact arithmetic the product of any matrix with the identity, on
/// either side, reads as that matrix, entry by entry.
pub proof fn lemma_identity_is_unit<S: Scalar>(
    value: spec_fn(S) -> int,
    unit: TransformMatrix<S>,
    m: TransformMatrix<S>,
    left: TransformMatrix<S>,
    right: TransformMatrix<S>,
)
    requires
        exact(value),
        is_identity(unit),
        composed(unit, m, left),
        composed(m, unit, right),
    ensures
        same_values(value, left, m),
        same_values(value, right, m),
{
    assert forall|i: int, j: int| 0 <= i < 3 && 0 <= j < 3 implies value(
        #[trigger] left.row(i).component(j),
    ) == value(m.row(i).component(j)) by {
        assert(dot(unit.row(i), m.column(j), left.row(i).component(j)));
        lemma_dot_exact(value, unit.row(i), m.column(j), left.row(i).component(j));
        let (x, y, z) = (
            value(m.column(j).x),
            value(m.column(j).y),
            value(m.column(j).z),
        );
        assert(1 * x + 0 * y + 0 * z == x && 0 * x + 1 * y + 0 * z == y && 0 * x + 0 * y + 1 * z
            == z) by (nonlinear_arith);
    }
    assert forall|i: int, j: int| 0 <= i < 3 && 0 <= j < 3 implies value(
        #[trigger] right.row(i).component(j),
    ) == value(m.row(i).component(j)) by {
        assert(dot(m.row(i), unit.column(j), right.row(i).component(j)));
        lemma_dot_exact(value, m.row(i), unit.column(j), right.row(i).component(j));
        let (x, y, z) = (value(m.row(i).x), value(m.row(i).y), value(m.row(i).z));
        assert(x * 1 + y * 0 + z * 0 == x && x * 0 + y * 1 + z * 0 == y && x * 0 + y * 0 + z * 1
            == z) by (nonlinear_arith);
    }
}

} // verus!
