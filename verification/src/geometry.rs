//! Vectors and axis-aligned rectangles over the integers, and the rounding
//! of sub-pixel quantities to whole pixels.

use vstd::prelude::*;

verus! {

/// A vector in the plane with integer components, so that its algebra is
/// exact. What one unit stands for is up to the user: a normal counts whole
/// units, the velocity of the ball counts `1 / SUBPIXELS` of a pixel per tick.
///
/// `w` is a third component that the algebra below never reads; every vector
/// that the algebra produces has `w == 0`.
#[derive(Clone, Copy, Debug, Default, PartialEq, Eq, Structural)]
pub struct Vector {
    pub x: i32,
    pub y: i32,
    pub w: i32,
}

impl Vector {
    /// The dot product in the plane: `x * x' + y * y'`.
    pub open spec fn spec_dot(self, other: Vector) -> int {
        self.x * other.x + self.y * other.y
    }

    /// The squared length in the plane.
    pub open spec fn norm_squared(self) -> int {
        self.spec_dot(self)
    }

    /// The vector has length one. Over the integers these are the four axis
    /// directions (see [`lemma_unit_is_axis`]).
    pub open spec fn is_unit(self) -> bool {
        self.norm_squared() == 1
    }

    /// First component of `self - 2 (self . normal) normal`.
    pub open spec fn reflected_x(self, normal: Vector) -> int {
        self.x - 2 * self.spec_dot(normal) * normal.x
    }

    /// Second component of `self - 2 (self . normal) normal`.
    pub open spec fn reflected_y(self, normal: Vector) -> int {
        self.y - 2 * self.spec_dot(normal) * normal.y
    }

    /// Both components of the reflected vector can be held in 32 bits.
    pub open spec fn reflection_fits(self, normal: Vector) -> bool {
        &&& i32::MIN <= self.reflected_x(normal) <= i32::MAX
        &&& i32::MIN <= self.reflected_y(normal) <= i32::MAX
    }

    /// The mirror image `self - 2 (self . normal) normal`, with `w` zero.
    /// It has a meaning where [`Self::reflection_fits`] holds.
    pub open spec fn spec_reflection(self, normal: Vector) -> Vector {
        Vector { x: self.reflected_x(normal) as i32, y: self.reflected_y(normal) as i32, w: 0 }
    }

    /// The dot product of the `x` and `y` components; `w` is not read.
    ///
    /// The result is given in 128 bits, which hold it whatever the operands.
    pub fn dot(&self, other: Vector) -> (d: i128)
        ensures
            d == self.spec_dot(other),
    {
        let ax: i128 = self.x as i128;
        let ay: i128 = self.y as i128;
        let bx: i128 = other.x as i128;
        let by: i128 = other.y as i128;
        proof {
            lemma_product_bound(ax as int, bx as int);
            lemma_product_bound(ay as int, by as int);
        }
        ax * bx + ay * by
    }

    /// Both components of `self - 2 (self . normal) normal`, in 128 bits.
    fn reflected(&self, normal: Vector) -> (r: (i128, i128))
        ensures
            r.0 == self.reflected_x(normal),
            r.1 == self.reflected_y(normal),
    {
        let angle: i128 = self.dot(normal);
        let nx: i128 = normal.x as i128;
        let ny: i128 = normal.y as i128;
        proof {
            lemma_product_bound(self.x as int, normal.x as int);
            lemma_product_bound(self.y as int, normal.y as int);
        }
        let twice: i128 = 2 * angle;
        assert(-0x8000_0000_0000_0000_0000_0000 <= twice * nx <= 0x8000_0000_0000_0000_0000_0000
            && -0x8000_0000_0000_0000_0000_0000 <= twice * ny <= 0x8000_0000_0000_0000_0000_0000)
            by (nonlinear_arith)
            requires
                -0x1_0000_0000_0000_0000 <= twice <= 0x1_0000_0000_0000_0000,
                -0x8000_0000 <= nx <= 0x7fff_ffff,
                -0x8000_0000 <= ny <= 0x7fff_ffff,
        ;
        (self.x as i128 - twice * nx, self.y as i128 - twice * ny)
    }

    /// The velocity after an elastic bounce off a surface whose outward
    /// normal is `normal`: `self - 2 (self . normal) normal`. Only `x` and `y`
    /// are carried over; `w` of the result is zero.
    pub fn reflection(&self, normal: Vector) -> (r: Vector)
        requires
            self.reflection_fits(normal),
        ensures
            r.x == self.reflected_x(normal),
            r.y == self.reflected_y(normal),
            r.w == 0,
            r == self.spec_reflection(normal),
    {
        let (x, y) = self.reflected(normal);
        Vector { x: x as i32, y: y as i32, w: 0 }
    }

    /// [`Self::reflection`] for any two vectors: the reflected vector where
    /// it can be held in 32 bits, `None` where it cannot.
    pub fn checked_reflection(&self, normal: Vector) -> (r: Option<Vector>)
        ensures
            r is Some <==> self.reflection_fits(normal),
            r is Some ==> r->0 == self.spec_reflection(normal),
    {
        let (x, y) = self.reflected(normal);
        if x < i32::MIN as i128 || x > i32::MAX as i128 || y < i32::MIN as i128 || y
            > i32::MAX as i128 {
            None
        } else {
            Some(self.reflection(normal))
        }
    }
}

/// The product of two 32-bit integers has at most 63 bits.
proof fn lemma_product_bound(a: int, b: int)
    requires
        i32::MIN <= a <= i32::MAX,
        i32::MIN <= b <= i32::MAX,
    ensures
        -0x4000_0000_0000_0000 <= a * b <= 0x4000_0000_0000_0000,
{
    assert(-0x4000_0000_0000_0000 <= a * b <= 0x4000_0000_0000_0000) by (nonlinear_arith)
        requires
            -0x8000_0000 <= a <= 0x7fff_ffff,
            -0x8000_0000 <= b <= 0x7fff_ffff,
    ;
}

/// An axis-aligned box in pixel space: its top-left corner and its extent.
#[derive(Clone, Copy, Debug, Default, PartialEq, Eq, Structural)]
pub struct Rect {
    pub x: i32,
    pub y: i32,
    pub width: i32,
    pub height: i32,
}

impl Rect {
    /// The closed intervals `[x, x + width]` of the two boxes meet.
    pub open spec fn overlaps_horizontally(self, other: Rect) -> bool {
        self.x <= other.x + other.width && self.x + self.width >= other.x
    }

    /// The closed intervals `[y, y + height]` of the two boxes meet.
    pub open spec fn overlaps_vertically(self, other: Rect) -> bool {
        self.y <= other.y + other.height && self.y + self.height >= other.y
    }

    /// The two boxes meet on both axes. Boxes that only touch along an edge
    /// or at a corner do overlap.
    pub open spec fn spec_overlaps(self, other: Rect) -> bool {
        self.overlaps_horizontally(other) && self.overlaps_vertically(other)
    }

    /// The pixel in column `col` and row `row` lies in the box. The box holds
    /// `width` columns from `x` on and `height` rows from `y` on, so one of
    /// no width or no height holds no pixel.
    pub open spec fn covers(self, col: int, row: int) -> bool {
        &&& self.x <= col < self.x + self.width
        &&& self.y <= row < self.y + self.height
    }

    /// Whether the two boxes overlap, touching edges included.
    ///
    /// The sums are taken in 64 bits, so every pair of boxes is answered.
    pub fn overlaps(&self, other: Rect) -> (hit: bool)
        ensures
            hit == self.spec_overlaps(other),
    {
        let ax: i64 = self.x as i64;
        let ay: i64 = self.y as i64;
        let bx: i64 = other.x as i64;
        let by: i64 = other.y as i64;
        let horizontal = ax <= bx + other.width as i64 && ax + self.width as i64 >= bx;
        let vertical = ay <= by + other.height as i64 && ay + self.height as i64 >= by;
        vertical && horizontal
    }
}

/// How many velocity units make one pixel per tick. A velocity component of
/// `SUBPIXELS` moves its owner by one pixel each tick, one of `SUBPIXELS / 2`
/// by half a pixel before rounding.
pub const SUBPIXELS: i32 = 256;

/// `v / SUBPIXELS` rounded to the nearest integer, a tie going away from zero.
pub open spec fn spec_round_to_pixels(v: int) -> int {
    if v >= 0 {
        (v + 128) / 256
    } else {
        -((128 - v) / 256)
    }
}

/// The whole number of pixels nearest to `v` sub-pixel units; a value half
/// way between two pixels goes to the one farther from zero.
pub fn round_to_pixels(v: i32) -> (p: i32)
    ensures
        p == spec_round_to_pixels(v as int),
{
    let wide: i64 = v as i64;
    if wide >= 0 {
        ((wide + 128) / 256) as i32
    } else {
        let magnitude: i64 = (128 - wide) / 256;
        (-magnitude) as i32
    }
}

/// Overlap does not depend on the order of the two boxes.
pub proof fn lemma_overlaps_symmetric(a: Rect, b: Rect)
    ensures
        a.spec_overlaps(b) == b.spec_overlaps(a),
{
}

/// A box overlaps itself exactly when its extent is not negative.
pub proof fn lemma_overlaps_self(a: Rect)
    ensures
        a.spec_overlaps(a) <==> a.width >= 0 && a.height >= 0,
{
}

/// The dot product is symmetric.
pub proof fn lemma_dot_symmetric(a: Vector, b: Vector)
    ensures
        a.spec_dot(b) == b.spec_dot(a),
{
    assert(a.x * b.x == b.x * a.x) by (nonlinear_arith);
    assert(a.y * b.y == b.y * a.y) by (nonlinear_arith);
}

/// The integer vectors of length one are the four axis directions.
pub proof fn lemma_unit_is_axis(n: Vector)
    ensures
        n.is_unit() <==> (n.x == 0 && (n.y == 1 || n.y == -1)) || (n.y == 0 && (n.x == 1 || n.x
            == -1)),
{
    let x = n.x as int;
    let y = n.y as int;
    assert(x * x + y * y == 1 ==> -1 <= x <= 1 && -1 <= y <= 1) by (nonlinear_arith);
    assert(x == 0 ==> x * x == 0) by (nonlinear_arith);
    assert(y == 0 ==> y * y == 0) by (nonlinear_arith);
    assert(x == 1 || x == -1 ==> x * x == 1) by (nonlinear_arith);
    assert(y == 1 || y == -1 ==> y * y == 1) by (nonlinear_arith);
}

/// Reflecting off a unit normal negates the component along the normal and
/// keeps the other one.
pub proof fn lemma_reflection_flips(v: Vector, n: Vector)
    requires
        n.is_unit(),
    ensures
        n.x != 0 ==> v.reflected_x(n) == -v.x && v.reflected_y(n) == v.y,
        n.y != 0 ==> v.reflected_x(n) == v.x && v.reflected_y(n) == -v.y,
        v.reflection_fits(n) <==> (n.x != 0 ==> v.x != i32::MIN) && (n.y != 0 ==> v.y != i32::MIN),
{
    lemma_unit_is_axis(n);
    let x = v.x as int;
    let y = v.y as int;
    let a = n.x as int;
    let b = n.y as int;
    assert(b == 0 && (a == 1 || a == -1) ==> x - 2 * (x * a + y * b) * a == -x && y - 2 * (x * a
        + y * b) * b == y) by (nonlinear_arith);
    assert(a == 0 && (b == 1 || b == -1) ==> x - 2 * (x * a + y * b) * a == x && y - 2 * (x * a
        + y * b) * b == -y) by (nonlinear_arith);
}

/// A bounce off a unit normal is elastic: the reflected vector is as long as
/// the incoming one.
pub proof fn lemma_reflection_keeps_length(v: Vector, n: Vector)
    requires
        n.is_unit(),
    ensures
        v.reflected_x(n) * v.reflected_x(n) + v.reflected_y(n) * v.reflected_y(n)
            == v.norm_squared(),
        v.reflection_fits(n) ==> v.spec_reflection(n).norm_squared() == v.norm_squared(),
{
    lemma_reflection_flips(v, n);
    let x = v.x as int;
    let y = v.y as int;
    assert((-x) * (-x) == x * x) by (nonlinear_arith);
    assert((-y) * (-y) == y * y) by (nonlinear_arith);
}

/// Reflecting twice off the same unit normal gives back the `x` and `y` that
/// one started with, and so the whole vector where its `w` is zero.
pub proof fn lemma_reflection_twice(v: Vector, n: Vector)
    requires
        n.is_unit(),
        v.reflection_fits(n),
    ensures
        v.spec_reflection(n).reflection_fits(n),
        v.spec_reflection(n).spec_reflection(n) == (Vector { x: v.x, y: v.y, w: 0 }),
        v.w == 0 ==> v.spec_reflection(n).spec_reflection(n) == v,
{
    lemma_reflection_flips(v, n);
    lemma_reflection_flips(v.spec_reflection(n), n);
}

/// Rounding picks a nearest pixel: the result is at most half a pixel away,
/// and exactly half a pixel away only on the side farther from zero.
pub proof fn lemma_round_is_nearest(v: int)
    ensures
        v >= 0 ==> -128 < 256 * spec_round_to_pixels(v) - v <= 128,
        v < 0 ==> -128 <= 256 * spec_round_to_pixels(v) - v < 128,
        spec_round_to_pixels(-v) == -spec_round_to_pixels(v),
        v % 256 == 0 ==> 256 * spec_round_to_pixels(v) == v,
{
}

} // verus!
