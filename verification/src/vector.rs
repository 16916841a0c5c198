//! The 4-lane packed vector type and its five primitive operations.
//!
//! Every lane carries one single-precision value, represented by its
//! IEEE-754 bit pattern (see [`crate::scalar`]). The operations here are
//! pure value-level arithmetic over exactly four lanes: construction,
//! scalar multiply, lane-wise add, single-lane overwrite, and a 4-way dot
//! product with a pairwise (hardware-style horizontal) reduction order.

use vstd::prelude::*;
use crate::scalar::Scalar;
use crate::scalar::add_bits;
use crate::scalar::mul_bits;
use crate::scalar::s_add;
use crate::scalar::s_mul;

verus! {

/// A packed value of four single-precision lanes.
///
/// An immutable value type: every operation returns a new vector.
#[derive(Clone, Copy, PartialEq, Eq, Structural, Debug)]
pub struct Vec4 {
    pub l0: Scalar,
    pub l1: Scalar,
    pub l2: Scalar,
    pub l3: Scalar,
}

impl View for Vec4 {
    type V = Seq<u32>;

    open spec fn view(&self) -> Seq<u32> {
        seq![self.l0@, self.l1@, self.l2@, self.l3@]
    }
}

/// The all-zero vector: every lane is positive zero.
pub fn zero() -> (r: Vec4)
    ensures
        r@ == seq![0u32, 0u32, 0u32, 0u32],
{
    let z = Scalar::zero();
    let r = Vec4 { l0: z, l1: z, l2: z, l3: z };
    proof {
        assert(r@ =~= seq![0u32, 0u32, 0u32, 0u32]);
    }
    r
}

/// Construct a vector from four explicit lane values.
///
/// Despite the name, the lanes are independently assigned; this is not a
/// broadcast of one value.
pub fn splat(x0: Scalar, x1: Scalar, x2: Scalar, x3: Scalar) -> (r: Vec4)
    ensures
        r@ == seq![x0@, x1@, x2@, x3@],
{
    let r = Vec4 { l0: x0, l1: x1, l2: x2, l3: x3 };
    proof {
        assert(r@ =~= seq![x0@, x1@, x2@, x3@]);
    }
    r
}

impl Vec4 {
    /// Read one lane back.
    pub fn lane(self, n: u8) -> (r: Scalar)
        requires
            n < 4,
        ensures
            r@ == self@[n as int],
    {
        if n == 0 {
            self.l0
        } else if n == 1 {
            self.l1
        } else if n == 2 {
            self.l2
        } else {
            self.l3
        }
    }
}

/// Writing one lane and reading back: after replacing lane `n`, lane `n`
/// holds the written value and every other lane keeps its original value.
pub proof fn lemma_write_lane_reads_back(v: Vec4, c: u32, n: int)
    requires
        0 <= n < 4,
    ensures
        v@.update(n, c)[n] == c,
        forall|k: int| 0 <= k < 4 && k != n ==> v@.update(n, c)[k] == v@[k],
{
}

/// The lanes of the product of a vector by a scalar: every lane of `v`
/// multiplied by `c`.
pub open spec fn spec_cmul(c: u32, v: Seq<u32>) -> Seq<u32> {
    seq![mul_bits(c, v[0]), mul_bits(c, v[1]), mul_bits(c, v[2]), mul_bits(c, v[3])]
}

/// Multiply every lane of `v` by the scalar `c`.
pub fn cmul(c: Scalar, v: Vec4) -> (r: Vec4)
    ensures
        r@ == spec_cmul(c@, v@),
{
    let r = Vec4 {
        l0: s_mul(c, v.l0),
        l1: s_mul(c, v.l1),
        l2: s_mul(c, v.l2),
        l3: s_mul(c, v.l3),
    };
    proof {
        assert(r@ =~= spec_cmul(c@, v@));
    }
    r
}

/// The lanes of the lane-wise sum of two vectors.
pub open spec fn spec_add(a: Seq<u32>, b: Seq<u32>) -> Seq<u32> {
    seq![add_bits(a[0], b[0]), add_bits(a[1], b[1]), add_bits(a[2], b[2]), add_bits(a[3], b[3])]
}

/// Add two vectors lane by lane.
pub fn add(a: Vec4, b: Vec4) -> (r: Vec4)
    ensures
        r@ == spec_add(a@, b@),
{
    let r = Vec4 {
        l0: s_add(a.l0, b.l0),
        l1: s_add(a.l1, b.l1),
        l2: s_add(a.l2, b.l2),
        l3: s_add(a.l3, b.l3),
    };
    proof {
        assert(r@ =~= spec_add(a@, b@));
    }
    r
}

/// The 4-way dot product of two vectors, reduced pairwise:
/// `(a0*b0 + a1*b1) + (a2*b2 + a3*b3)`, the rounding order of a hardware
/// horizontal-add reduction, not a left-to-right fold.
pub open spec fn spec_dot(a: Seq<u32>, b: Seq<u32>) -> u32 {
    add_bits(
        add_bits(mul_bits(a[0], b[0]), mul_bits(a[1], b[1])),
        add_bits(mul_bits(a[2], b[2]), mul_bits(a[3], b[3])),
    )
}

/// Dot product of two vectors, with the pairwise reduction order.
pub fn dot(a: Vec4, b: Vec4) -> (r: Scalar)
    ensures
        r@ == spec_dot(a@, b@),
{
    let lo = s_add(s_mul(a.l0, b.l0), s_mul(a.l1, b.l1));
    let hi = s_add(s_mul(a.l2, b.l2), s_mul(a.l3, b.l3));
    s_add(lo, hi)
}

/// Return `v` with lane `n` replaced by `c`; all other lanes keep their
/// original values. The lane index must be in range: out-of-range indices
/// are rejected at the contract level rather than reaching any
/// unreachable-code path.
pub fn store1(v: Vec4, c: Scalar, n: u8) -> (r: Vec4)
    requires
        n < 4,
    ensures
        r@ == v@.update(n as int, c@),
{
    let r = match n {
        0 => Vec4 { l0: c, ..v },
        1 => Vec4 { l1: c, ..v },
        2 => Vec4 { l2: c, ..v },
        _ => Vec4 { l3: c, ..v },
    };
    proof {
        assert(r@ =~= v@.update(n as int, c@));
    }
    r
}

} // verus!
