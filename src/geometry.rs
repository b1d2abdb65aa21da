use vstd::prelude::*;

verus! {

/// The distance between two coordinates, as a mathematical integer.
pub open spec fn dist(a: usize, b: usize) -> nat {
    if a >= b {
        (a - b) as nat
    } else {
        (b - a) as nat
    }
}

/// The squared Euclidean distance between two grid points.
pub open spec fn dist_sqr_spec(lhs: (usize, usize), rhs: (usize, usize)) -> int {
    let dx = lhs.0 - rhs.0;
    let dy = lhs.1 - rhs.1;
    dx * dx + dy * dy
}

/// `|a - b|` without leaving the unsigned range.
pub fn abs_diff(a: usize, b: usize) -> (r: usize)
    ensures
        r == dist(a, b),
{
    if a >= b {
        a - b
    } else {
        b - a
    }
}

/// Squared Euclidean distance between two grid points.
pub fn distance_sqr(lhs: (usize, usize), rhs: (usize, usize)) -> (r: usize)
    requires
        dist_sqr_spec(lhs, rhs) <= usize::MAX,
    ensures
        r == dist_sqr_spec(lhs, rhs),
{
    let dx = abs_diff(lhs.0, rhs.0);
    let dy = abs_diff(lhs.1, rhs.1);
    proof {
        assert(dx * dx == (lhs.0 - rhs.0) * (lhs.0 - rhs.0)) by (nonlinear_arith)
            requires
                dx == dist(lhs.0, rhs.0),
        ;
        assert(dy * dy == (lhs.1 - rhs.1) * (lhs.1 - rhs.1)) by (nonlinear_arith)
            requires
                dy == dist(lhs.1, rhs.1),
        ;
        assert(dx * dx <= usize::MAX) by (nonlinear_arith)
            requires
                dy * dy >= 0,
                dx * dx + dy * dy <= usize::MAX,
        ;
    }
    dx * dx + dy * dy
}

} // verus!
