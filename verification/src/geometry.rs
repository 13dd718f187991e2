//! Axis-aligned boxes, distances and sizes on the integer world grid.
//!
//! A box is given by its center and its full size. Half-extents are never
//! rounded: every comparison is made on doubled coordinates, so a box of odd
//! size has its edges halfway between two grid points.

use vstd::prelude::*;

verus! {

/// A point, a displacement or a size in world space, in whole world units.
#[derive(Clone, Copy, PartialEq, Eq, Debug)]
pub struct Vec2 {
    pub x: i32,
    pub y: i32,
}

/// Half-width of the band around each edge line of a box in which a press
/// starts a resize.
pub const EDGE_THRESHOLD: i32 = 15;

/// Smallest width or height that a resize leaves.
pub const MIN_SIZE: i32 = 50;

/// Largest width or height that a resize leaves.
pub const MAX_SIZE: i32 = 1000;

/// The point lies in the closed box of the given center and size:
/// `center - size / 2 <= point <= center + size / 2` on both axes.
pub open spec fn spec_contains(point: Vec2, center: Vec2, size: Vec2) -> bool {
    &&& 2 * center.x - size.x <= 2 * point.x <= 2 * center.x + size.x
    &&& 2 * center.y - size.y <= 2 * point.y <= 2 * center.y + size.y
}

/// `coord` is at most `threshold` away from the line whose doubled coordinate
/// is `doubled_edge`.
pub open spec fn in_band(coord: int, doubled_edge: int, threshold: int) -> bool {
    doubled_edge - 2 * threshold <= 2 * coord <= doubled_edge + 2 * threshold
}

/// The point lies within `threshold` of one of the four edge lines of the box,
/// each line extended over the whole other axis.
pub open spec fn spec_near_edge(point: Vec2, center: Vec2, size: Vec2, threshold: i32) -> bool {
    ||| in_band(point.x as int, 2 * center.x - size.x, threshold as int)
    ||| in_band(point.x as int, 2 * center.x + size.x, threshold as int)
    ||| in_band(point.y as int, 2 * center.y - size.y, threshold as int)
    ||| in_band(point.y as int, 2 * center.y + size.y, threshold as int)
}

/// `value` brought into the range of `i32`.
pub open spec fn saturate(value: int) -> int {
    if value < i32::MIN {
        i32::MIN as int
    } else if value > i32::MAX {
        i32::MAX as int
    } else {
        value
    }
}

/// The displacement `a - b`, each axis held within the range of `i32`.
pub open spec fn spec_difference(a: Vec2, b: Vec2) -> Vec2 {
    Vec2 { x: saturate(a.x - b.x) as i32, y: saturate(a.y - b.y) as i32 }
}

/// The point lies on one of the four edges of the box: on an edge line, and
/// between the two edge lines of the other axis.
pub open spec fn on_edge(point: Vec2, center: Vec2, size: Vec2) -> bool {
    let dx = 2 * (point.x - center.x);
    let dy = 2 * (point.y - center.y);
    ||| (dx == size.x || dx == -size.x) && -size.y <= dy <= size.y
    ||| (dy == size.y || dy == -size.y) && -size.x <= dx <= size.x
}

/// The point lies exactly one unit beyond one of the four edge lines of the
/// box, on the outer side.
pub open spec fn one_beyond_edge(point: Vec2, center: Vec2, size: Vec2) -> bool {
    let dx = 2 * (point.x - center.x);
    let dy = 2 * (point.y - center.y);
    ||| dx == size.x + 2
    ||| dx == -size.x - 2
    ||| dy == size.y + 2
    ||| dy == -size.y - 2
}

/// Square of the Euclidean distance between two points.
pub open spec fn squared_distance(a: Vec2, b: Vec2) -> int {
    (a.x - b.x) * (a.x - b.x) + (a.y - b.y) * (a.y - b.y)
}

/// `root` is the square root of `n`, rounded down.
pub open spec fn is_floor_sqrt(n: int, root: int) -> bool {
    0 <= root && root * root <= n < (root + 1) * (root + 1)
}

/// The square root of `n`, rounded down (for `n >= 0`).
pub open spec fn floor_sqrt(n: int) -> int {
    choose|root: int| is_floor_sqrt(n, root)
}

/// Euclidean distance between two points, rounded down to whole units.
pub open spec fn spec_distance(a: Vec2, b: Vec2) -> int {
    floor_sqrt(squared_distance(a, b))
}

/// `value` brought into `[MIN_SIZE, MAX_SIZE]`.
pub open spec fn clamp_extent(value: int) -> int {
    if value < MIN_SIZE {
        MIN_SIZE as int
    } else if value > MAX_SIZE {
        MAX_SIZE as int
    } else {
        value
    }
}

/// The distance a resize divides by: the initial distance, or one unit where
/// the gesture began exactly at the center of the widget.
pub open spec fn effective_distance(initial_distance: int) -> int {
    if initial_distance == 0 {
        1
    } else {
        initial_distance
    }
}

/// One axis of a resized widget: `initial * current_distance / initial_distance`,
/// rounded down, then clamped.
pub open spec fn spec_scaled_extent(initial: int, initial_distance: int, current_distance: int) -> int {
    clamp_extent(initial * current_distance / effective_distance(initial_distance))
}

/// Both axes of a resized widget, each scaled and clamped on its own.
pub open spec fn spec_scaled_size(initial: Vec2, initial_distance: u64, current_distance: u64) -> Vec2 {
    Vec2 {
        x: spec_scaled_extent(initial.x as int, initial_distance as int, current_distance as int) as i32,
        y: spec_scaled_extent(initial.y as int, initial_distance as int, current_distance as int) as i32,
    }
}

/// The rounded-down square root is unique.
pub proof fn lemma_floor_sqrt_unique(n: int, r1: int, r2: int)
    requires
        is_floor_sqrt(n, r1),
        is_floor_sqrt(n, r2),
    ensures
        r1 == r2,
{
    if r1 < r2 {
        assert((r1 + 1) * (r1 + 1) <= r2 * r2) by (nonlinear_arith)
            requires
                0 <= r1,
                r1 + 1 <= r2,
        ;
    } else if r2 < r1 {
        assert((r2 + 1) * (r2 + 1) <= r1 * r1) by (nonlinear_arith)
            requires
                0 <= r2,
                r2 + 1 <= r1,
        ;
    }
}

/// Any witness of `is_floor_sqrt` is the value of `floor_sqrt`.
pub proof fn lemma_floor_sqrt(n: int, root: int)
    requires
        is_floor_sqrt(n, root),
    ensures
        floor_sqrt(n) == root,
{
    lemma_floor_sqrt_unique(n, root, floor_sqrt(n));
}

/// Every natural number has a rounded-down square root.
pub proof fn lemma_floor_sqrt_exists(n: int)
    requires
        0 <= n,
    ensures
        is_floor_sqrt(n, floor_sqrt(n)),
    decreases n,
{
    if n == 0 {
        assert(is_floor_sqrt(0, 0));
    } else {
        lemma_floor_sqrt_exists(n - 1);
        let r = floor_sqrt(n - 1);
        if (r + 1) * (r + 1) <= n {
            assert((r + 1) * (r + 1) < (r + 2) * (r + 2)) by (nonlinear_arith)
                requires
                    0 <= r,
            ;
            assert(is_floor_sqrt(n, r + 1));
        } else {
            assert(is_floor_sqrt(n, r));
        }
    }
}

/// The rounded-down distance between two points of the grid fits in 33 bits.
pub proof fn lemma_distance_bounds(a: Vec2, b: Vec2)
    ensures
        is_floor_sqrt(squared_distance(a, b), spec_distance(a, b)),
        0 <= spec_distance(a, b) < 0x2_0000_0000,
{
    let dx = a.x - b.x;
    let dy = a.y - b.y;
    assert(0 <= dx * dx <= 0x1_0000_0000 * 0x1_0000_0000) by (nonlinear_arith)
        requires
            -0x1_0000_0000 <= dx <= 0x1_0000_0000,
    ;
    assert(0 <= dy * dy <= 0x1_0000_0000 * 0x1_0000_0000) by (nonlinear_arith)
        requires
            -0x1_0000_0000 <= dy <= 0x1_0000_0000,
    ;
    lemma_floor_sqrt_exists(squared_distance(a, b));
    let d = spec_distance(a, b);
    if d >= 0x2_0000_0000 {
        assert(d * d >= 0x2_0000_0000 * 0x2_0000_0000) by (nonlinear_arith)
            requires
                d >= 0x2_0000_0000,
        ;
    }
}

/// Along an axis the distance is exact: between two points that differ in
/// one coordinate only, it is the absolute difference of that coordinate.
pub proof fn lemma_distance_along_axis(a: Vec2, b: Vec2)
    ensures
        a.y == b.y ==> spec_distance(a, b) == (if a.x >= b.x { a.x - b.x } else { b.x - a.x }),
        a.x == b.x ==> spec_distance(a, b) == (if a.y >= b.y { a.y - b.y } else { b.y - a.y }),
{
    let dx = a.x - b.x;
    let dy = a.y - b.y;
    let ax = if dx >= 0 { dx } else { -dx };
    let ay = if dy >= 0 { dy } else { -dy };
    assert(ax * ax == dx * dx && ax * ax < (ax + 1) * (ax + 1)) by (nonlinear_arith)
        requires
            0 <= ax,
            ax == dx || ax == -dx,
    ;
    assert(ay * ay == dy * dy && ay * ay < (ay + 1) * (ay + 1)) by (nonlinear_arith)
        requires
            0 <= ay,
            ay == dy || ay == -dy,
    ;
    assert(dx == 0 ==> dx * dx == 0) by (nonlinear_arith);
    assert(dy == 0 ==> dy * dy == 0) by (nonlinear_arith);
    if a.y == b.y {
        lemma_floor_sqrt(squared_distance(a, b), ax);
    }
    if a.x == b.x {
        lemma_floor_sqrt(squared_distance(a, b), ay);
    }
}

/// Tells whether `point` lies in the box centered at `center` with half-extents
/// `size / 2` on both axes, bounds included.
pub fn contains(point: Vec2, center: Vec2, size: Vec2) -> (inside: bool)
    ensures
        inside == spec_contains(point, center, size),
{
    let px: i64 = 2 * (point.x as i64);
    let py: i64 = 2 * (point.y as i64);
    let cx: i64 = 2 * (center.x as i64);
    let cy: i64 = 2 * (center.y as i64);
    let sx: i64 = size.x as i64;
    let sy: i64 = size.y as i64;
    cx - sx <= px && px <= cx + sx && cy - sy <= py && py <= cy + sy
}

/// Tells whether `point` lies within `threshold` of one of the four edge lines
/// of the box centered at `center`. Each band runs across the full range of
/// the other axis, so a point far beyond a corner along one axis still
/// matches when it is close to an edge line of the other.
pub fn near_edge(point: Vec2, center: Vec2, size: Vec2, threshold: i32) -> (near: bool)
    ensures
        near == spec_near_edge(point, center, size, threshold),
{
    let px: i64 = 2 * (point.x as i64);
    let py: i64 = 2 * (point.y as i64);
    let cx: i64 = 2 * (center.x as i64);
    let cy: i64 = 2 * (center.y as i64);
    let sx: i64 = size.x as i64;
    let sy: i64 = size.y as i64;
    let t: i64 = 2 * (threshold as i64);
    let left: bool = cx - sx - t <= px && px <= cx - sx + t;
    let right: bool = cx + sx - t <= px && px <= cx + sx + t;
    let bottom: bool = cy - sy - t <= py && py <= cy - sy + t;
    let top: bool = cy + sy - t <= py && py <= cy + sy + t;
    left || right || bottom || top
}

/// Center of a viewport of the given width and height, in viewport
/// coordinates, each axis rounded down.
pub fn viewport_center(width: u32, height: u32) -> (center: Vec2)
    ensures
        center.x == width / 2,
        center.y == height / 2,
{
    Vec2 { x: (width / 2) as i32, y: (height / 2) as i32 }
}

/// The displacement from `b` to `a`. An axis whose exact difference does not
/// fit in `i32` is held at the nearest bound.
pub fn difference(a: Vec2, b: Vec2) -> (d: Vec2)
    ensures
        d == spec_difference(a, b),
        d.x == saturate(a.x - b.x),
        d.y == saturate(a.y - b.y),
{
    Vec2 { x: saturating(a.x as i64 - b.x as i64), y: saturating(a.y as i64 - b.y as i64) }
}

fn saturating(value: i64) -> (held: i32)
    ensures
        held == saturate(value as int),
{
    if value < i32::MIN as i64 {
        i32::MIN
    } else if value > i32::MAX as i64 {
        i32::MAX
    } else {
        value as i32
    }
}

/// Square root of `n`, rounded down.
pub fn isqrt(n: u128) -> (root: u64)
    ensures
        is_floor_sqrt(n as int, root as int),
        root == floor_sqrt(n as int),
{
    let mut lo: u128 = 0;
    let mut hi: u128 = 0x1_0000_0000_0000_0000;
    assert(0x1_0000_0000_0000_0000int * 0x1_0000_0000_0000_0000int > u128::MAX) by (nonlinear_arith);
    while hi - lo > 1
        invariant
            lo < hi <= 0x1_0000_0000_0000_0000,
            lo * lo <= n < hi * hi,
        decreases hi - lo,
    {
        let mid: u128 = lo + (hi - lo) / 2;
        assert(mid * mid <= 0xffff_ffff_ffff_ffff * 0xffff_ffff_ffff_ffff) by (nonlinear_arith)
            requires
                0 <= mid <= 0xffff_ffff_ffff_ffff,
        ;
        if mid * mid <= n {
            lo = mid;
        } else {
            hi = mid;
        }
    }
    proof {
        lemma_floor_sqrt(n as int, lo as int);
    }
    lo as u64
}

/// Euclidean distance between `a` and `b`, rounded down to whole units.
pub fn distance(a: Vec2, b: Vec2) -> (d: u64)
    ensures
        d == spec_distance(a, b),
        is_floor_sqrt(squared_distance(a, b), d as int),
{
    let dx: i64 = a.x as i64 - b.x as i64;
    let dy: i64 = a.y as i64 - b.y as i64;
    let ax: u128 = if dx < 0 { (-dx) as u128 } else { dx as u128 };
    let ay: u128 = if dy < 0 { (-dy) as u128 } else { dy as u128 };
    assert(ax * ax == (a.x - b.x) * (a.x - b.x)) by (nonlinear_arith)
        requires
            ax == a.x - b.x || ax == -(a.x - b.x),
    ;
    assert(ay * ay == (a.y - b.y) * (a.y - b.y)) by (nonlinear_arith)
        requires
            ay == a.y - b.y || ay == -(a.y - b.y),
    ;
    assert(ax * ax <= 0xffff_ffff * 0xffff_ffff) by (nonlinear_arith)
        requires
            0 <= ax <= 0xffff_ffff,
    ;
    assert(ay * ay <= 0xffff_ffff * 0xffff_ffff) by (nonlinear_arith)
        requires
            0 <= ay <= 0xffff_ffff,
    ;
    isqrt(ax * ax + ay * ay)
}

/// One axis of a resized widget: the initial extent scaled by
/// `current_distance / initial_distance`, rounded down and clamped to
/// `[MIN_SIZE, MAX_SIZE]`. A gesture that began exactly at the center of the
/// widget has initial distance zero; it is scaled as if it had begun one unit
/// away.
pub fn scaled_extent(initial: i32, initial_distance: u64, current_distance: u64) -> (extent: i32)
    ensures
        extent == spec_scaled_extent(initial as int, initial_distance as int, current_distance as int),
        MIN_SIZE <= extent <= MAX_SIZE,
{
    let divisor: u128 = if initial_distance == 0 { 1 } else { initial_distance as u128 };
    if initial <= 0 {
        assert(initial * current_distance / (divisor as int) <= 0) by (nonlinear_arith)
            requires
                initial <= 0,
                current_distance >= 0,
                divisor > 0,
        ;
        return MIN_SIZE;
    }
    let factor: u128 = current_distance as u128;
    let start: u128 = initial as u128;
    assert(start * factor <= 0x7fff_ffff * 0xffff_ffff_ffff_ffff) by (nonlinear_arith)
        requires
            0 <= start <= 0x7fff_ffff,
            0 <= factor <= 0xffff_ffff_ffff_ffff,
    ;
    let target: u128 = start * factor / divisor;
    if target < MIN_SIZE as u128 {
        MIN_SIZE
    } else if target > MAX_SIZE as u128 {
        MAX_SIZE
    } else {
        target as i32
    }
}

/// The size of a widget under resize: each axis of `initial` scaled by
/// `current_distance / initial_distance` and clamped on its own.
pub fn scaled_size(initial: Vec2, initial_distance: u64, current_distance: u64) -> (size: Vec2)
    ensures
        size == spec_scaled_size(initial, initial_distance, current_distance),
        size.x == spec_scaled_extent(initial.x as int, initial_distance as int, current_distance as int),
        size.y == spec_scaled_extent(initial.y as int, initial_distance as int, current_distance as int),
{
    Vec2 {
        x: scaled_extent(initial.x, initial_distance, current_distance),
        y: scaled_extent(initial.y, initial_distance, current_distance),
    }
}

} // verus!
