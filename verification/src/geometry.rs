//! The canvas lattice, the three anchors and the midpoint rule.
//!
//! Coordinates are fixed-point numbers: one pixel is [`SCALE`] lattice units,
//! so that a midpoint is computed in integers and every statement about it is
//! exact.

use vstd::prelude::*;

verus! {

/// Width of the canvas, in whole pixels.
pub const WIDTH: u64 = 1000;

/// Height of the canvas, in whole pixels.
pub const HEIGHT: u64 = 700;

/// Lattice units in one pixel.
pub const SCALE: u64 = 0x1_0000_0000;

/// The largest horizontal coordinate, in lattice units.
pub const MAX_X: u64 = WIDTH * SCALE;

/// The largest vertical coordinate, in lattice units.
pub const MAX_Y: u64 = HEIGHT * SCALE;

/// Number of anchors.
pub const ANCHOR_COUNT: usize = 3;

/// A place on the lattice: the mathematical value of a [`Point`].
pub struct Position {
    pub x: int,
    pub y: int,
}

/// The canvas, borders included.
pub open spec fn in_canvas(p: Position) -> bool {
    0 <= p.x <= MAX_X && 0 <= p.y <= MAX_Y
}

/// The closed triangle spanned by the three anchors, which is their convex
/// hull: not below the base, not left of the edge from the apex to the lower
/// left corner, not right of the edge from the apex to the lower right corner.
/// Both edges fall 7 units for every 5 units sideways.
pub open spec fn in_hull(p: Position) -> bool {
    &&& p.y <= MAX_Y
    &&& 7 * p.x + 5 * p.y >= 5 * MAX_Y
    &&& 7 * p.x - 5 * p.y <= 5 * MAX_Y
}

/// The anchors: the apex in the middle of the top border, then the lower left
/// and the lower right corner.
pub open spec fn anchor_position(index: int) -> Position {
    if index == 0 {
        Position { x: MAX_X as int / 2, y: 0 }
    } else if index == 1 {
        Position { x: 0, y: MAX_Y as int }
    } else {
        Position { x: MAX_X as int, y: MAX_Y as int }
    }
}

/// The weight of an anchor in a position, as a multiple of `1 / (10 * MAX_Y)`:
/// how far the position is from the edge opposite the anchor, measured so that
/// the anchor itself has the full weight.
pub open spec fn anchor_weight(p: Position, index: int) -> int {
    if index == 0 {
        10 * (MAX_Y - p.y)
    } else if index == 1 {
        5 * MAX_Y - 7 * p.x + 5 * p.y
    } else {
        7 * p.x + 5 * p.y - 5 * MAX_Y
    }
}

/// Half of `sum`. An odd sum lies midway between two lattice values; it goes
/// to the one on the side of `twice_target / 2`.
pub open spec fn half_toward(sum: int, twice_target: int) -> int {
    if sum % 2 != 0 && sum < twice_target {
        sum / 2 + 1
    } else {
        sum / 2
    }
}

/// The lattice point nearest to the middle of `p` and `q`. Where the middle
/// falls between two lattice points, the one towards the middle of the
/// triangle's base is taken.
pub open spec fn midpoint(p: Position, q: Position) -> Position {
    Position { x: half_toward(p.x + q.x, MAX_X as int), y: half_toward(p.y + q.y, 2 * MAX_Y) }
}

/// A point of the canvas, in lattice units.
#[derive(Clone, Copy, Debug, PartialEq, Eq)]
pub struct Point {
    x: u64,
    y: u64,
}

impl View for Point {
    type V = Position;

    closed spec fn view(&self) -> Position {
        Position { x: self.x as int, y: self.y as int }
    }
}

fn half_toward_exec(sum: u64, twice_target: u64) -> (half: u64)
    ensures
        half == half_toward(sum as int, twice_target as int),
{
    if sum % 2 != 0 && sum < twice_target {
        sum / 2 + 1
    } else {
        sum / 2
    }
}

impl Point {
    #[verifier::type_invariant]
    spec fn inv(self) -> bool {
        in_canvas(self@)
    }

    /// The point at `(x, y)` lattice units, unless that lies off the canvas.
    pub fn new(x: u64, y: u64) -> (point: Option<Point>)
        ensures
            point is Some <==> in_canvas(Position { x: x as int, y: y as int }),
            point is Some ==> point.unwrap()@ == (Position { x: x as int, y: y as int }),
    {
        if x <= MAX_X && y <= MAX_Y {
            Some(Point { x, y })
        } else {
            None
        }
    }

    /// The horizontal coordinate, in lattice units.
    pub fn x(&self) -> (x: u64)
        ensures
            x == self@.x,
            x <= MAX_X,
    {
        proof {
            use_type_invariant(self);
        }
        self.x
    }

    /// The vertical coordinate, in lattice units.
    pub fn y(&self) -> (y: u64)
        ensures
            y == self@.y,
            y <= MAX_Y,
    {
        proof {
            use_type_invariant(self);
        }
        self.y
    }

    /// The lattice point in the middle of `self` and `other`.
    pub fn midpoint(self, other: Point) -> (middle: Point)
        ensures
            middle@ == midpoint(self@, other@),
    {
        proof {
            use_type_invariant(&self);
            use_type_invariant(&other);
        }
        let sum_x: u64 = self.x + other.x;
        let sum_y: u64 = self.y + other.y;
        Point { x: half_toward_exec(sum_x, MAX_X), y: half_toward_exec(sum_y, 2 * MAX_Y) }
    }
}

/// The anchor with the given index.
pub fn anchor(index: usize) -> (point: Point)
    requires
        index < ANCHOR_COUNT,
    ensures
        point@ == anchor_position(index as int),
{
    if index == 0 {
        Point { x: MAX_X / 2, y: 0 }
    } else if index == 1 {
        Point { x: 0, y: MAX_Y }
    } else {
        Point { x: MAX_X, y: MAX_Y }
    }
}

/// The canvas is a whole number of pixels wide and high, and the slanted
/// edges of the triangle, from the apex to a lower corner, fall `HEIGHT` over
/// a run of `WIDTH / 2`, which is 7 over 5.
pub proof fn lemma_canvas_in_pixels()
    ensures
        MAX_X == WIDTH * SCALE,
        MAX_Y == HEIGHT * SCALE,
        5 * HEIGHT == 7 * (WIDTH / 2),
{
}

/// The triangle is the convex hull of the anchors. Every position is the sum
/// of the anchors taken with its three weights, which add up to one (all in
/// units of `1 / (10 * MAX_Y)`); it lies in the triangle exactly when no weight
/// is negative.
pub proof fn lemma_hull_is_convex_hull(p: Position)
    ensures
        anchor_weight(p, 0) + anchor_weight(p, 1) + anchor_weight(p, 2) == 10 * MAX_Y,
        10 * MAX_Y * p.x == anchor_weight(p, 0) * anchor_position(0).x + anchor_weight(p, 1)
            * anchor_position(1).x + anchor_weight(p, 2) * anchor_position(2).x,
        10 * MAX_Y * p.y == anchor_weight(p, 0) * anchor_position(0).y + anchor_weight(p, 1)
            * anchor_position(1).y + anchor_weight(p, 2) * anchor_position(2).y,
        in_hull(p) <==> anchor_weight(p, 0) >= 0 && anchor_weight(p, 1) >= 0 && anchor_weight(
            p,
            2,
        ) >= 0,
{
    let (x, y) = (p.x, p.y);
    let (w0, w1, w2) = (anchor_weight(p, 0), anchor_weight(p, 1), anchor_weight(p, 2));
    let (width, height) = (MAX_X as int, MAX_Y as int);
    assert(10 * height * x == w0 * (width / 2) + w1 * 0 + w2 * width) by (nonlinear_arith)
        requires
            w0 == 10 * (height - y),
            w2 == 7 * x + 5 * y - 5 * height,
            width == 4294967296000,
            height == 3006477107200,
    ;
    assert(10 * height * y == w0 * 0 + w1 * height + w2 * height) by (nonlinear_arith)
        requires
            w1 == 5 * height - 7 * x + 5 * y,
            w2 == 7 * x + 5 * y - 5 * height,
    ;
}

/// Every point of the triangle is on the canvas.
pub proof fn lemma_hull_in_canvas(p: Position)
    requires
        in_hull(p),
    ensures
        in_canvas(p),
{
}

/// The anchors are corners of the triangle.
pub proof fn lemma_anchor_in_hull(index: int)
    requires
        0 <= index < ANCHOR_COUNT,
    ensures
        in_hull(anchor_position(index)),
{
}

/// The midpoint is off the true middle by at most half a lattice unit in each
/// coordinate, and it is the true middle where that is a lattice point.
pub proof fn lemma_midpoint_nearest(p: Position, q: Position)
    ensures
        -1 <= 2 * midpoint(p, q).x - (p.x + q.x) <= 1,
        -1 <= 2 * midpoint(p, q).y - (p.y + q.y) <= 1,
        (p.x + q.x) % 2 == 0 ==> 2 * midpoint(p, q).x == p.x + q.x,
        (p.y + q.y) % 2 == 0 ==> 2 * midpoint(p, q).y == p.y + q.y,
{
}

/// The midpoint of two points of the canvas is on the canvas.
pub proof fn lemma_midpoint_in_canvas(p: Position, q: Position)
    requires
        in_canvas(p),
        in_canvas(q),
    ensures
        in_canvas(midpoint(p, q)),
{
}

/// The triangle is closed under the midpoint: rounding never carries a point
/// across an edge.
pub proof fn lemma_midpoint_in_hull(p: Position, q: Position)
    requires
        in_hull(p),
        in_hull(q),
    ensures
        in_hull(midpoint(p, q)),
{
}

/// A point outside the triangle comes nearer to it with every step: the
/// midpoint with an anchor is at most half as far beyond an edge as the point
/// was, and not beyond an edge that the point was not beyond.
pub proof fn lemma_midpoint_nears_hull(p: Position, index: int, edge: int)
    requires
        in_canvas(p),
        0 <= index < ANCHOR_COUNT,
        0 <= edge < ANCHOR_COUNT,
    ensures
        anchor_weight(p, edge) >= 0 ==> anchor_weight(midpoint(p, anchor_position(index)), edge)
            >= 0,
        anchor_weight(p, edge) < 0 ==> 2 * anchor_weight(midpoint(p, anchor_position(index)), edge)
            >= anchor_weight(p, edge),
{
}

} // verus!
