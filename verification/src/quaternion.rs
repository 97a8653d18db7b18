//! Quaternions with integer components. On integers the Hamilton product is
//! exact, so the algebra's laws hold without tolerance and are proved here.

use vstd::prelude::*;

verus! {

/// A quaternion as mathematics has it: four integers of any size.
pub struct Hamilton {
    pub w: int,
    pub x: int,
    pub y: int,
    pub z: int,
}

impl Hamilton {
    /// The multiplicative identity, (1, 0, 0, 0).
    pub open spec fn identity() -> Hamilton {
        Hamilton { w: 1, x: 0, y: 0, z: 0 }
    }

    /// The Hamilton product of `self` and `other`, in this order.
    pub open spec fn product(self, other: Hamilton) -> Hamilton {
        Hamilton {
            w: self.w * other.w - self.x * other.x - self.y * other.y - self.z * other.z,
            x: self.w * other.x + self.x * other.w + self.y * other.z - self.z * other.y,
            y: self.w * other.y - self.x * other.z + self.y * other.w + self.z * other.x,
            z: self.w * other.z + self.x * other.y - self.y * other.x + self.z * other.w,
        }
    }

    /// The conjugate: the same scalar part, the vector part negated.
    pub open spec fn conjugate(self) -> Hamilton {
        Hamilton { w: self.w, x: -self.x, y: -self.y, z: -self.z }
    }

    /// The negative: every component negated.
    pub open spec fn negated(self) -> Hamilton {
        Hamilton { w: -self.w, x: -self.x, y: -self.y, z: -self.z }
    }

    /// The vector (x, y, z) as a quaternion without scalar part.
    pub open spec fn pure(x: int, y: int, z: int) -> Hamilton {
        Hamilton { w: 0, x, y, z }
    }

    /// The integer `s` as a quaternion: (s, 0, 0, 0).
    pub open spec fn scalar(s: int) -> Hamilton {
        Hamilton { w: s, x: 0, y: 0, z: 0 }
    }

    /// Every component multiplied by `s`.
    pub open spec fn scaled(self, s: int) -> Hamilton {
        Hamilton { w: s * self.w, x: s * self.x, y: s * self.y, z: s * self.z }
    }

    /// The square of the norm: the sum of the squares of the components.
    pub open spec fn norm_squared(self) -> int {
        self.w * self.w + self.x * self.x + self.y * self.y + self.z * self.z
    }

    /// Whether each component can be held in sixty-four bits.
    pub open spec fn fits(self) -> bool {
        &&& i64::MIN <= self.w <= i64::MAX
        &&& i64::MIN <= self.x <= i64::MAX
        &&& i64::MIN <= self.y <= i64::MAX
        &&& i64::MIN <= self.z <= i64::MAX
    }
}

/// A quaternion (w, x, y, z) with integer components.
#[derive(Clone, Copy, Debug, PartialEq, Eq, Structural)]
pub struct Quaternion {
    pub w: i64,
    pub x: i64,
    pub y: i64,
    pub z: i64,
}

impl View for Quaternion {
    type V = Hamilton;

    open spec fn view(&self) -> Hamilton {
        Hamilton { w: self.w as int, x: self.x as int, y: self.y as int, z: self.z as int }
    }
}

/// The product of two machine integers, which always fits in twice the width.
fn wide_product(a: i64, b: i64) -> (p: i128)
    ensures
        p == a * b,
        -0x4000_0000_0000_0000_0000_0000_0000_0000 + 0x8000_0000_0000_0000 <= p,
        p <= 0x4000_0000_0000_0000_0000_0000_0000_0000,
{
    assert(-0x4000_0000_0000_0000_0000_0000_0000_0000 + 0x8000_0000_0000_0000 <= a * b
        <= 0x4000_0000_0000_0000_0000_0000_0000_0000) by (nonlinear_arith)
        requires
            -0x8000_0000_0000_0000 <= a <= 0x7fff_ffff_ffff_ffff,
            -0x8000_0000_0000_0000 <= b <= 0x7fff_ffff_ffff_ffff,
    ;
    (a as i128) * (b as i128)
}

impl Quaternion {
    /// The quaternion with the given components.
    pub fn new(w: i64, x: i64, y: i64, z: i64) -> (q: Quaternion)
        ensures
            q == (Quaternion { w, x, y, z }),
    {
        Quaternion { w, x, y, z }
    }

    /// The multiplicative identity, (1, 0, 0, 0).
    pub fn identity() -> (q: Quaternion)
        ensures
            q@ == Hamilton::identity(),
    {
        Quaternion { w: 1, x: 0, y: 0, z: 0 }
    }

    /// The Hamilton product of `self` and `other`, in this order. Neither
    /// operand is changed. The product's components have to fit in sixty-four
    /// bits; what is computed on the way to them may be larger.
    pub fn multiply(&self, other: &Quaternion) -> (q: Quaternion)
        requires
            self@.product(other@).fits(),
        ensures
            q@ == self@.product(other@),
    {
        let ww: i128 = wide_product(self.w, other.w);
        let wx: i128 = wide_product(self.w, other.x);
        let wy: i128 = wide_product(self.w, other.y);
        let wz: i128 = wide_product(self.w, other.z);
        let xw: i128 = wide_product(self.x, other.w);
        let xx: i128 = wide_product(self.x, other.x);
        let xy: i128 = wide_product(self.x, other.y);
        let xz: i128 = wide_product(self.x, other.z);
        let yw: i128 = wide_product(self.y, other.w);
        let yx: i128 = wide_product(self.y, other.x);
        let yy: i128 = wide_product(self.y, other.y);
        let yz: i128 = wide_product(self.y, other.z);
        let zw: i128 = wide_product(self.z, other.w);
        let zx: i128 = wide_product(self.z, other.x);
        let zy: i128 = wide_product(self.z, other.y);
        let zz: i128 = wide_product(self.z, other.z);
        // Each sum starts with a difference of two products, which fits; from
        // there on it is never further from the result than one product.
        let w: i128 = ((ww - xx) - yy) - zz;
        let x: i128 = ((yz - zy) + xw) + wx;
        let y: i128 = ((wy - xz) + yw) + zx;
        let z: i128 = ((xy - yx) + wz) + zw;
        Quaternion { w: w as i64, x: x as i64, y: y as i64, z: z as i64 }
    }

    /// The conjugate: the same scalar part, the vector part negated. The
    /// operand is not changed. The least sixty-four bit integer has no
    /// negative, so the vector part may not hold it.
    pub fn conjugate(&self) -> (q: Quaternion)
        requires
            self@.conjugate().fits(),
        ensures
            q@ == self@.conjugate(),
    {
        Quaternion { w: self.w, x: -self.x, y: -self.y, z: -self.z }
    }
}

/// The identity is neutral on both sides, for every quaternion.
pub proof fn lemma_identity_is_neutral(q: Hamilton)
    ensures
        Hamilton::identity().product(q) == q,
        q.product(Hamilton::identity()) == q,
{
}

/// A sum of four terms times a factor, term by term, for each pattern of
/// signs that a Hamilton product has.
proof fn lemma_sum_times(p: int, q: int, r: int, s: int, c: int)
    ensures
        (p - q - r - s) * c == p * c - q * c - r * c - s * c,
        (p + q + r - s) * c == p * c + q * c + r * c - s * c,
        (p - q + r + s) * c == p * c - q * c + r * c + s * c,
        (p + q - r + s) * c == p * c + q * c - r * c + s * c,
{
    assert((p - q - r - s) * c == p * c - q * c - r * c - s * c) by (nonlinear_arith);
    assert((p + q + r - s) * c == p * c + q * c + r * c - s * c) by (nonlinear_arith);
    assert((p - q + r + s) * c == p * c - q * c + r * c + s * c) by (nonlinear_arith);
    assert((p + q - r + s) * c == p * c + q * c - r * c + s * c) by (nonlinear_arith);
}

/// A factor times a sum of four terms, term by term, for the same patterns.
proof fn lemma_times_sum(c: int, p: int, q: int, r: int, s: int)
    ensures
        c * (p - q - r - s) == c * p - c * q - c * r - c * s,
        c * (p + q + r - s) == c * p + c * q + c * r - c * s,
        c * (p - q + r + s) == c * p - c * q + c * r + c * s,
        c * (p + q - r + s) == c * p + c * q - c * r + c * s,
{
    assert(c * (p - q - r - s) == c * p - c * q - c * r - c * s) by (nonlinear_arith);
    assert(c * (p + q + r - s) == c * p + c * q + c * r - c * s) by (nonlinear_arith);
    assert(c * (p - q + r + s) == c * p - c * q + c * r + c * s) by (nonlinear_arith);
    assert(c * (p + q - r + s) == c * p + c * q - c * r + c * s) by (nonlinear_arith);
}

/// The product is associative.
pub proof fn lemma_product_is_associative(a: Hamilton, b: Hamilton, c: Hamilton)
    ensures
        a.product(b).product(c) == a.product(b.product(c)),
{
    // Both sides are sums of the sixty-four products of one component of
    // each operand. Spread every sum, then regroup each product of three.
    // the w component
    lemma_sum_times(a.w * b.w, a.x * b.x, a.y * b.y, a.z * b.z, c.w);
    lemma_sum_times(a.w * b.x, a.x * b.w, a.y * b.z, a.z * b.y, c.x);
    lemma_sum_times(a.w * b.y, a.x * b.z, a.y * b.w, a.z * b.x, c.y);
    lemma_sum_times(a.w * b.z, a.x * b.y, a.y * b.x, a.z * b.w, c.z);
    lemma_times_sum(a.w, b.w * c.w, b.x * c.x, b.y * c.y, b.z * c.z);
    lemma_times_sum(a.x, b.w * c.x, b.x * c.w, b.y * c.z, b.z * c.y);
    lemma_times_sum(a.y, b.w * c.y, b.x * c.z, b.y * c.w, b.z * c.x);
    lemma_times_sum(a.z, b.w * c.z, b.x * c.y, b.y * c.x, b.z * c.w);
    // the x component
    lemma_sum_times(a.w * b.w, a.x * b.x, a.y * b.y, a.z * b.z, c.x);
    lemma_sum_times(a.w * b.x, a.x * b.w, a.y * b.z, a.z * b.y, c.w);
    lemma_sum_times(a.w * b.y, a.x * b.z, a.y * b.w, a.z * b.x, c.z);
    lemma_sum_times(a.w * b.z, a.x * b.y, a.y * b.x, a.z * b.w, c.y);
    lemma_times_sum(a.w, b.w * c.x, b.x * c.w, b.y * c.z, b.z * c.y);
    lemma_times_sum(a.x, b.w * c.w, b.x * c.x, b.y * c.y, b.z * c.z);
    lemma_times_sum(a.y, b.w * c.z, b.x * c.y, b.y * c.x, b.z * c.w);
    lemma_times_sum(a.z, b.w * c.y, b.x * c.z, b.y * c.w, b.z * c.x);
    // the y component
    lemma_sum_times(a.w * b.w, a.x * b.x, a.y * b.y, a.z * b.z, c.y);
    lemma_sum_times(a.w * b.x, a.x * b.w, a.y * b.z, a.z * b.y, c.z);
    lemma_sum_times(a.w * b.y, a.x * b.z, a.y * b.w, a.z * b.x, c.w);
    lemma_sum_times(a.w * b.z, a.x * b.y, a.y * b.x, a.z * b.w, c.x);
    lemma_times_sum(a.w, b.w * c.y, b.x * c.z, b.y * c.w, b.z * c.x);
    lemma_times_sum(a.x, b.w * c.z, b.x * c.y, b.y * c.x, b.z * c.w);
    lemma_times_sum(a.y, b.w * c.w, b.x * c.x, b.y * c.y, b.z * c.z);
    lemma_times_sum(a.z, b.w * c.x, b.x * c.w, b.y * c.z, b.z * c.y);
    // the z component
    lemma_sum_times(a.w * b.w, a.x * b.x, a.y * b.y, a.z * b.z, c.z);
    lemma_sum_times(a.w * b.x, a.x * b.w, a.y * b.z, a.z * b.y, c.y);
    lemma_sum_times(a.w * b.y, a.x * b.z, a.y * b.w, a.z * b.x, c.x);
    lemma_sum_times(a.w * b.z, a.x * b.y, a.y * b.x, a.z * b.w, c.w);
    lemma_times_sum(a.w, b.w * c.z, b.x * c.y, b.y * c.x, b.z * c.w);
    lemma_times_sum(a.x, b.w * c.y, b.x * c.z, b.y * c.w, b.z * c.x);
    lemma_times_sum(a.y, b.w * c.x, b.x * c.w, b.y * c.z, b.z * c.y);
    lemma_times_sum(a.z, b.w * c.w, b.x * c.x, b.y * c.y, b.z * c.z);
    assert forall|u: int, v: int, t: int| #[trigger] (u * (v * t)) == (u * v) * t by {
        vstd::arithmetic::mul::lemma_mul_is_associative(u, v, t);
    }
}

/// The product is not commutative: i times j is k, and j times i is its
/// negative.
pub proof fn lemma_product_is_not_commutative()
    ensures
        exists|a: Hamilton, b: Hamilton| a.product(b) != b.product(a),
{
    let i = Hamilton { w: 0, x: 1, y: 0, z: 0 };
    let j = Hamilton { w: 0, x: 0, y: 1, z: 0 };
    assert(i.product(j).z == 1);
    assert(j.product(i).z == -1);
    assert(i.product(j) != j.product(i));
}

/// Conjugating twice gives the quaternion back.
pub proof fn lemma_conjugate_is_an_involution(q: Hamilton)
    ensures
        q.conjugate().conjugate() == q,
{
}

/// The conjugate of a product is the product of the conjugates in reverse
/// order.
pub proof fn lemma_conjugate_reverses_products(a: Hamilton, b: Hamilton)
    ensures
        a.product(b).conjugate() == b.conjugate().product(a.conjugate()),
{
    let l = a.product(b).conjugate();
    let r = b.conjugate().product(a.conjugate());
    assert(l.w == r.w && l.x == r.x && l.y == r.y && l.z == r.z) by (nonlinear_arith)
        requires
            l == a.product(b).conjugate(),
            r == b.conjugate().product(a.conjugate()),
    ;
}

/// Negating either operand negates the product.
pub proof fn lemma_negation_passes_through_products(a: Hamilton, b: Hamilton)
    ensures
        a.negated().product(b) == a.product(b).negated(),
        a.product(b.negated()) == a.product(b).negated(),
{
    assert forall|u: int, v: int| #[trigger] ((-u) * v) == -(u * v) by {
        assert((-u) * v == -(u * v)) by (nonlinear_arith);
    }
    assert forall|u: int, v: int| #[trigger] (u * (-v)) == -(u * v) by {
        assert(u * (-v) == -(u * v)) by (nonlinear_arith);
    }
}

/// Conjugating a vector by a quaternion gives a vector again: q v q* has no
/// scalar part, whatever q is. This is why a rotation, which is such a
/// conjugation by a unit quaternion, maps vectors to vectors.
pub proof fn lemma_conjugation_keeps_vectors_pure(q: Hamilton, x: int, y: int, z: int)
    ensures
        q.product(Hamilton::pure(x, y, z)).product(q.conjugate()).w == 0,
{
    let v = Hamilton::pure(x, y, z);
    let r = q.product(v).product(q.conjugate());
    // The conjugate of r is its negative: r* = q v* q* = q (-v) q* = -r.
    lemma_conjugate_reverses_products(q.product(v), q.conjugate());
    lemma_conjugate_reverses_products(q, v);
    assert(v.conjugate() == v.negated());
    assert(r.conjugate() == q.product(v.negated().product(q.conjugate())));
    lemma_negation_passes_through_products(v, q.conjugate());
    lemma_negation_passes_through_products(q, v.product(q.conjugate()));
    lemma_product_is_associative(q, v, q.conjugate());
    assert(r.conjugate() == r.negated());
}

/// A quaternion times its conjugate is the square of its norm, as a scalar.
pub proof fn lemma_conjugate_gives_the_norm(q: Hamilton)
    ensures
        q.product(q.conjugate()) == Hamilton::scalar(q.norm_squared()),
{
    assert forall|u: int, v: int| #[trigger] (u * (-v)) == -(u * v) by {
        assert(u * (-v) == -(u * v)) by (nonlinear_arith);
    }
    assert forall|u: int, v: int| #[trigger] (u * v) == v * u by {
        vstd::arithmetic::mul::lemma_mul_is_commutative(u, v);
    }
}

/// Multiplying by a scalar, from the left, scales every component.
pub proof fn lemma_scalars_scale(s: int, q: Hamilton)
    ensures
        Hamilton::scalar(s).product(q) == q.scaled(s),
{
}

/// A scalar factor of the right operand can be taken out of a product.
pub proof fn lemma_scaling_passes_through_products(a: Hamilton, b: Hamilton, s: int)
    ensures
        a.product(b.scaled(s)) == a.product(b).scaled(s),
{
    lemma_times_sum(s, a.w * b.w, a.x * b.x, a.y * b.y, a.z * b.z);
    lemma_times_sum(s, a.w * b.x, a.x * b.w, a.y * b.z, a.z * b.y);
    lemma_times_sum(s, a.w * b.y, a.x * b.z, a.y * b.w, a.z * b.x);
    lemma_times_sum(s, a.w * b.z, a.x * b.y, a.y * b.x, a.z * b.w);
    assert forall|u: int, v: int| #[trigger] (u * (s * v)) == s * (u * v) by {
        assert(u * (s * v) == s * (u * v)) by (nonlinear_arith);
    }
}

/// The norm is multiplicative: the squared norm of a product is the product
/// of the squared norms. A product of unit quaternions is therefore a unit
/// quaternion, and conjugating a vector by a unit quaternion keeps its
/// length.
pub proof fn lemma_norm_is_multiplicative(a: Hamilton, b: Hamilton)
    ensures
        a.product(b).norm_squared() == a.norm_squared() * b.norm_squared(),
{
    // (ab)(ab)* = a (b b*) a* = |b|^2 (a a*) = |a|^2 |b|^2.
    let ab = a.product(b);
    lemma_conjugate_gives_the_norm(ab);
    lemma_conjugate_reverses_products(a, b);
    lemma_product_is_associative(a, b, b.conjugate().product(a.conjugate()));
    lemma_product_is_associative(b, b.conjugate(), a.conjugate());
    lemma_conjugate_gives_the_norm(b);
    lemma_scalars_scale(b.norm_squared(), a.conjugate());
    lemma_scaling_passes_through_products(a, a.conjugate(), b.norm_squared());
    lemma_conjugate_gives_the_norm(a);
    assert(ab.product(ab.conjugate()) == Hamilton::scalar(a.norm_squared()).scaled(
        b.norm_squared(),
    ));
    assert(b.norm_squared() * a.norm_squared() == a.norm_squared() * b.norm_squared())
        by (nonlinear_arith);
}

} // verus!
