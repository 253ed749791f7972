//! The scalars of the geometry, and what may be said of their arithmetic.
//!
//! The geometry is written over any type that offers the operations of
//! [`Scalar`]. Nothing is assumed of them: an operation need not even give
//! the same result twice for the same operands. A contract therefore never
//! says what a result *is*; it says which operation produced it from which
//! operands, through the relations of this module. `sum(a, b, r)` reads: `r`
//! is a result that `a.plus(b)` may give.
use vstd::prelude::*;

verus! {

/// The operations that the geometry asks of its scalars.
pub trait Scalar: Copy {
    /// The scalar that stands for the whole number `n`.
    fn from_int(n: i32) -> Self;

    /// The scalar that stands for the count `n`.
    fn from_index(n: usize) -> Self;

    /// `self + rhs`.
    fn plus(self, rhs: Self) -> Self;

    /// `self - rhs`.
    fn minus(self, rhs: Self) -> Self;

    /// `self * rhs`.
    fn times(self, rhs: Self) -> Self;

    /// `self / rhs`.
    fn over(self, rhs: Self) -> Self;

    /// `-self`.
    fn negated(self) -> Self;

    /// The square root of `self`.
    fn root(self) -> Self;

    /// Whether `self` is no number at all.
    fn is_nan(self) -> bool;

    /// Whether `self < rhs`.
    fn less(self, rhs: Self) -> bool;

    /// Whether `self == rhs`.
    fn same(self, rhs: Self) -> bool;
}

/// `r` may stand for the whole number `n`.
pub open spec fn whole<S: Scalar>(n: int, r: S) -> bool {
    i32::MIN <= n <= i32::MAX && call_ensures(S::from_int, (n as i32,), r)
}

/// `r` may stand for the count `n`.
pub open spec fn count<S: Scalar>(n: usize, r: S) -> bool {
    call_ensures(S::from_index, (n,), r)
}

/// `r` may be `a + b`.
pub open spec fn sum<S: Scalar>(a: S, b: S, r: S) -> bool {
    call_ensures(S::plus, (a, b), r)
}

/// `r` may be `a - b`.
pub open spec fn difference<S: Scalar>(a: S, b: S, r: S) -> bool {
    call_ensures(S::minus, (a, b), r)
}

/// `r` may be `a * b`.
pub open spec fn product<S: Scalar>(a: S, b: S, r: S) -> bool {
    call_ensures(S::times, (a, b), r)
}

/// `r` may be `a / b`.
pub open spec fn quotient<S: Scalar>(a: S, b: S, r: S) -> bool {
    call_ensures(S::over, (a, b), r)
}

/// `r` may be `-a`.
pub open spec fn negation<S: Scalar>(a: S, r: S) -> bool {
    call_ensures(S::negated, (a,), r)
}

/// `r` may be the square root of `a`.
pub open spec fn square_root<S: Scalar>(a: S, r: S) -> bool {
    call_ensures(S::root, (a,), r)
}

/// Asked whether `a` is no number, the scalar may answer `answer`.
pub open spec fn says_nan<S: Scalar>(a: S, answer: bool) -> bool {
    call_ensures(S::is_nan, (a,), answer)
}

/// Asked whether `a < b`, the scalars may answer `answer`.
pub open spec fn says_less<S: Scalar>(a: S, b: S, answer: bool) -> bool {
    call_ensures(S::less, (a, b), answer)
}

/// Asked whether `a == b`, the scalars may answer `answer`.
pub open spec fn says_same<S: Scalar>(a: S, b: S, answer: bool) -> bool {
    call_ensures(S::same, (a, b), answer)
}

/// `a` is never taken for no number.
pub open spec fn never_nan<S: Scalar>(a: S) -> bool {
    !says_nan(a, true)
}

/// Asked whether `a` is less than nought, the scalars may answer `answer`.
pub open spec fn says_negative<S: Scalar>(a: S, answer: bool) -> bool {
    exists|nought: S| #[trigger] whole(0, nought) && says_less(a, nought, answer)
}

/// Asked whether `a` is more than nought, the scalars may answer `answer`.
pub open spec fn says_positive<S: Scalar>(a: S, answer: bool) -> bool {
    exists|nought: S| #[trigger] whole(0, nought) && says_less(nought, a, answer)
}

/// Asked whether `a` equals nought, the scalars may answer `answer`.
pub open spec fn says_nought<S: Scalar>(a: S, answer: bool) -> bool {
    exists|nought: S| #[trigger] whole(0, nought) && says_same(a, nought, answer)
}

/// The arithmetic of `S` is exact when read through `value`: what stands
/// for a whole number reads as that number, and sums, differences, products
/// and negations read as those of the integers. No arithmetic that rounds is
/// exact under any reading; this is the ideal that such arithmetic
/// approaches.
pub open spec fn exact<S: Scalar>(value: spec_fn(S) -> int) -> bool {
    &&& forall|n: int, r: S| #[trigger] whole(n, r) ==> value(r) == n
    &&& forall|a: S, b: S, r: S| #[trigger] sum(a, b, r) ==> value(r) == value(a) + value(b)
    &&& forall|a: S, b: S, r: S| #[trigger] difference(a, b, r) ==> value(r) == value(a) - value(b)
    &&& forall|a: S, b: S, r: S| #[trigger] product(a, b, r) ==> value(r) == value(a) * value(b)
    &&& forall|a: S, r: S| #[trigger] negation(a, r) ==> value(r) == -value(a)
}

/// Asks whether `a` is less than nought.
pub fn is_negative<S: Scalar>(a: S) -> (answer: bool)
    ensures
        says_negative(a, answer),
{
    let nought = S::from_int(0);
    let answer = a.less(nought);
    assert(whole(0, nought) && says_less(a, nought, answer));
    answer
}

/// Asks whether `a` is more than nought.
pub fn is_positive<S: Scalar>(a: S) -> (answer: bool)
    ensures
        says_positive(a, answer),
{
    let nought = S::from_int(0);
    let answer = nought.less(a);
    assert(whole(0, nought) && says_less(nought, a, answer));
    answer
}

/// Asks whether `a` equals nought.
pub fn is_nought<S: Scalar>(a: S) -> (answer: bool)
    ensures
        says_nought(a, answer),
{
    let nought = S::from_int(0);
    let answer = a.same(nought);
    assert(whole(0, nought) && says_same(a, nought, answer));
    answer
}

} // verus!
