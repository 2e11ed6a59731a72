use vstd::prelude::*;

use crate::error::ShapeError;
use crate::point::Point;

verus! {

/// A closed polygon: the last point joins back to the first.
#[derive(Debug)]
pub struct Polygon {
    pub points: Vec<Point>,
}

/// Index of the point that follows `i` around a loop of `n` points.
pub open spec fn next_index(i: int, n: int) -> int {
    if i + 1 < n {
        i + 1
    } else {
        0
    }
}

/// The cross product of point `i` with the point after it.
pub open spec fn cross_at(p: Seq<Point>, i: int) -> int {
    let j = next_index(i, p.len() as int);
    p[i].x * p[j].y - p[j].x * p[i].y
}

/// Sum of the first `k` cross products of the loop `p`.
pub open spec fn shoelace_prefix(p: Seq<Point>, k: nat) -> int
    decreases k,
{
    if k == 0 {
        0
    } else {
        shoelace_prefix(p, (k - 1) as nat) + cross_at(p, k - 1)
    }
}

/// The signed shoelace sum of the loop `p`: twice its signed area.
pub open spec fn shoelace(p: Seq<Point>) -> int {
    shoelace_prefix(p, p.len())
}

/// Twice the area enclosed by the loop `p`.
pub open spec fn doubled_area(p: Seq<Point>) -> int {
    if shoelace(p) < 0 {
        -shoelace(p)
    } else {
        shoelace(p)
    }
}

proof fn lemma_cross_bound(a: i32, b: i32, c: i32, d: i32)
    ensures
        -0x4000_0000_0000_0000 <= a * b <= 0x4000_0000_0000_0000,
        -0x4000_0000_0000_0000 <= c * d <= 0x4000_0000_0000_0000,
        -0x8000_0000_0000_0000 <= a * b - c * d <= 0x8000_0000_0000_0000,
{
    assert(-0x4000_0000_0000_0000 <= a * b <= 0x4000_0000_0000_0000) by (nonlinear_arith)
        requires
            -0x8000_0000 <= a <= 0x7fff_ffff,
            -0x8000_0000 <= b <= 0x7fff_ffff,
    ;
    assert(-0x4000_0000_0000_0000 <= c * d <= 0x4000_0000_0000_0000) by (nonlinear_arith)
        requires
            -0x8000_0000 <= c <= 0x7fff_ffff,
            -0x8000_0000 <= d <= 0x7fff_ffff,
    ;
}

/// The loop `p` started one point later: the first point moves to the end.
pub open spec fn rotate_once(p: Seq<Point>) -> Seq<Point> {
    Seq::new(p.len(), |i: int| p[next_index(i, p.len() as int)])
}

/// The loop `p` started `k` points later.
pub open spec fn rotate_by(p: Seq<Point>, k: nat) -> Seq<Point>
    decreases k,
{
    if k == 0 {
        p
    } else {
        rotate_once(rotate_by(p, (k - 1) as nat))
    }
}

/// The loop `p` walked in the opposite direction.
pub open spec fn reversed(p: Seq<Point>) -> Seq<Point> {
    Seq::new(p.len(), |i: int| p[p.len() - 1 - i])
}

proof fn lemma_rotate_once_prefix(p: Seq<Point>, k: nat)
    requires
        k < p.len(),
    ensures
        shoelace_prefix(rotate_once(p), k) == shoelace_prefix(p, k + 1) - cross_at(p, 0),
    decreases k,
{
    let q = rotate_once(p);
    let n = p.len() as int;
    assert(shoelace_prefix(p, k + 1) == shoelace_prefix(p, k) + cross_at(p, k as int));
    if k > 0 {
        lemma_rotate_once_prefix(p, (k - 1) as nat);
        let i = k - 1;
        assert(q[i] == p[k as int]);
        assert(q[next_index(i, n)] == p[next_index(k as int, n)]);
        assert(cross_at(q, i) == cross_at(p, k as int));
    }
}

/// Starting the loop one point later keeps the shoelace sum.
pub proof fn lemma_rotate_once_shoelace(p: Seq<Point>)
    ensures
        shoelace(rotate_once(p)) == shoelace(p),
{
    let n = p.len();
    if n > 0 {
        lemma_rotate_once_prefix(p, (n - 1) as nat);
        assert(shoelace_prefix(rotate_once(p), n) == shoelace_prefix(rotate_once(p), (n - 1) as nat)
            + cross_at(rotate_once(p), n - 1));
    }
}

/// Any cyclic rotation of the points keeps the shoelace sum, and so the area.
pub proof fn lemma_rotate_keeps_area(p: Seq<Point>, k: nat)
    ensures
        shoelace(rotate_by(p, k)) == shoelace(p),
        doubled_area(rotate_by(p, k)) == doubled_area(p),
        rotate_by(p, k).len() == p.len(),
    decreases k,
{
    if k > 0 {
        lemma_rotate_keeps_area(p, (k - 1) as nat);
        lemma_rotate_once_shoelace(rotate_by(p, (k - 1) as nat));
    }
}

proof fn lemma_reversed_prefix(p: Seq<Point>, k: nat)
    requires
        k < p.len(),
    ensures
        shoelace_prefix(reversed(p), k) == shoelace_prefix(p, (p.len() - 1 - k) as nat)
            - shoelace_prefix(p, (p.len() - 1) as nat),
    decreases k,
{
    let n = p.len() as int;
    if k > 0 {
        lemma_reversed_prefix(p, (k - 1) as nat);
        let i = k - 1;
        let q = reversed(p);
        assert(cross_at(q, i) == -cross_at(p, n - 2 - i));
    }
}

/// Walking the loop backwards negates the shoelace sum and keeps the area.
pub proof fn lemma_reverse_keeps_area(p: Seq<Point>)
    ensures
        shoelace(reversed(p)) == -shoelace(p),
        doubled_area(reversed(p)) == doubled_area(p),
{
    let n = p.len();
    if n > 0 {
        let q = reversed(p);
        lemma_reversed_prefix(p, (n - 1) as nat);
        assert(cross_at(q, n - 1) == -cross_at(p, n - 1));
        assert(shoelace_prefix(q, n) == shoelace_prefix(q, (n - 1) as nat) + cross_at(q, n - 1));
        assert(shoelace_prefix(p, n) == shoelace_prefix(p, (n - 1) as nat) + cross_at(p, n - 1));
    }
}

impl Polygon {
    /// A polygon is accepted when it has more than three points.
    pub open spec fn spec_is_valid(&self) -> bool {
        self.points@.len() > 3
    }

    /// Accepts a polygon with more than three points.
    pub fn is_valid(&self) -> (r: Result<bool, ShapeError>)
        ensures
            r == (if self.spec_is_valid() {
                Ok::<bool, ShapeError>(true)
            } else {
                Err(ShapeError::InvalidPolygon)
            }),
    {
        if self.points.len() > 3 {
            Ok(true)
        } else {
            Err(ShapeError::InvalidPolygon)
        }
    }

    /// Twice the enclosed area, by the shoelace formula.
    pub fn doubled_area(&self) -> (r: u128)
        ensures
            r as int == doubled_area(self.points@),
    {
        let n: usize = self.points.len();
        let mut sum: i128 = 0;
        let mut i: usize = 0;
        while i < n
            invariant
                n == self.points@.len(),
                i <= n,
                sum as int == shoelace_prefix(self.points@, i as nat),
                -(i as int) * 0x8000_0000_0000_0000 <= sum as int <= (i as int)
                    * 0x8000_0000_0000_0000,
            decreases n - i,
        {
            let j: usize = if i + 1 < n {
                i + 1
            } else {
                0
            };
            let a = self.points[i];
            let b = self.points[j];
            proof {
                lemma_cross_bound(a.x, b.y, b.x, a.y);
            }
            let term: i128 = (a.x as i128) * (b.y as i128) - (b.x as i128) * (a.y as i128);
            assert(i < 0x1_0000_0000_0000_0000);
            sum = sum + term;
            i = i + 1;
        }
        if sum < 0 {
            (-sum) as u128
        } else {
            sum as u128
        }
    }
}

} // verus!
