//! A two-pole state-variable filter (SVF) over a 4-lane packed vector type.
//!
//! The filter computes, sample by sample, simultaneous highpass, bandpass
//! and lowpass outputs. Coefficients are derived from a normalized cutoff
//! frequency and a quality factor by a bilinear-transform pre-warp, and the
//! per-sample work is five 4-way dot products over a packed
//! coefficient-and-state layout.
//!
//! Every single-precision value is carried as its IEEE-754 binary32 bit
//! pattern (see [`scalar`]); the arithmetic itself is performed by outside
//! soft-float code behind trusted wrappers, and every contract here pins
//! the exact dataflow of the algorithm over those named operations.

use vstd::prelude::*;

pub mod scalar;
pub mod vector;

use crate::scalar::HALF_PI_BITS;
use crate::scalar::NEG_ONE_BITS;
use crate::scalar::ONE_BITS;
use crate::scalar::ZERO_BITS;
use crate::scalar::Scalar;
use crate::scalar::add_bits;
use crate::scalar::div_bits;
use crate::scalar::mul_bits;
use crate::scalar::neg_bits;
use crate::scalar::s_add;
use crate::scalar::s_div;
use crate::scalar::s_mul;
use crate::scalar::s_neg;
use crate::scalar::s_tan;
use crate::scalar::tan_bits;
use crate::vector::Vec4;
use crate::vector::spec_add;
use crate::vector::spec_cmul;
use crate::vector::spec_dot;

verus! {

/// The smallest bit pattern outside the documented quality-factor range
/// `[0.5, 10)`: the pattern of ten.
pub const Q_HIGH_BITS: u32 = 0x4120_0000;

/// The bit pattern of one half, the low end of the documented
/// quality-factor range.
pub const Q_LOW_BITS: u32 = 0x3F00_0000;

/// A two-pole state-variable filter.
///
/// `a0`, `a1` and `a2` are the highpass, bandpass and lowpass coefficient
/// rows; `b0` and `b1` are the feedback (state-update) rows; `s` holds the
/// two internal state values in lanes 1 and 2, with lanes 0 and 3 zero.
#[derive(Clone, Copy, PartialEq, Eq, Structural, Debug)]
pub struct SVF {
    pub a0: Vec4,
    pub a1: Vec4,
    pub a2: Vec4,
    pub b0: Vec4,
    pub b1: Vec4,
    pub s: Vec4,
}

/// The all-zero lane sequence.
pub open spec fn spec_zero_vec() -> Seq<u32> {
    seq![ZERO_BITS, ZERO_BITS, ZERO_BITS, ZERO_BITS]
}

/// The feedback amount: the reciprocal of the quality factor.
pub open spec fn spec_fb(q: u32) -> u32 {
    div_bits(ONE_BITS, q)
}

/// The pre-warped feedforward amount: the tangent of half pi times the
/// normalized frequency, which maps the digital cutoff to the equivalent
/// analog frequency required by the bilinear transform.
pub open spec fn spec_ff(f: u32) -> u32 {
    tan_bits(mul_bits(HALF_PI_BITS, f))
}

/// The loop gain `1 / (1 + fb*ff + ff*ff)`, the normalization term of the
/// resolved feedback loop.
pub open spec fn spec_gain(f: u32, q: u32) -> u32 {
    div_bits(
        ONE_BITS,
        add_bits(
            add_bits(ONE_BITS, mul_bits(spec_fb(q), spec_ff(f))),
            mul_bits(spec_ff(f), spec_ff(f)),
        ),
    )
}

/// The highpass coefficient row: `gain * (1, -(ff+fb), -1, 0)`.
pub open spec fn spec_row_hp(f: u32, q: u32) -> Seq<u32> {
    spec_cmul(
        spec_gain(f, q),
        seq![
            ONE_BITS,
            neg_bits(add_bits(spec_ff(f), spec_fb(q))),
            NEG_ONE_BITS,
            ZERO_BITS,
        ],
    )
}

/// The bandpass coefficient row: `gain * (ff, 1, -ff, 0)`.
pub open spec fn spec_row_bp(f: u32, q: u32) -> Seq<u32> {
    spec_cmul(spec_gain(f, q), seq![spec_ff(f), ONE_BITS, neg_bits(spec_ff(f)), ZERO_BITS])
}

/// The lowpass coefficient row: `gain * (ff*ff, ff, 1+fb, 0)`.
pub open spec fn spec_row_lp(f: u32, q: u32) -> Seq<u32> {
    spec_cmul(
        spec_gain(f, q),
        seq![
            mul_bits(spec_ff(f), spec_ff(f)),
            spec_ff(f),
            add_bits(ONE_BITS, spec_fb(q)),
            ZERO_BITS,
        ],
    )
}

/// The first feedback row: `ff * a0 + a1`.
pub open spec fn spec_row_b0(f: u32, q: u32) -> Seq<u32> {
    spec_add(spec_cmul(spec_ff(f), spec_row_hp(f, q)), spec_row_bp(f, q))
}

/// The second feedback row: `ff * a1 + a2`.
pub open spec fn spec_row_b1(f: u32, q: u32) -> Seq<u32> {
    spec_add(spec_cmul(spec_ff(f), spec_row_bp(f, q)), spec_row_lp(f, q))
}

/// A Vec4 whose lanes are the first four entries of `s`.
pub open spec fn vec4_of(s: Seq<u32>) -> Vec4 {
    Vec4 {
        l0: Scalar { bits: s[0] },
        l1: Scalar { bits: s[1] },
        l2: Scalar { bits: s[2] },
        l3: Scalar { bits: s[3] },
    }
}

/// The filter's three outputs for one input sample, in the canonical
/// order highpass, bandpass, lowpass: the dot products of the coefficient
/// rows with the state vector whose lane 0 carries the input.
pub open spec fn spec_outputs(filter: SVF, x: u32) -> Seq<u32> {
    let z = filter.s@.update(0, x);
    seq![spec_dot(filter.a0@, z), spec_dot(filter.a1@, z), spec_dot(filter.a2@, z)]
}

/// The state lanes after one input sample: zero, the two feedback dot
/// products, zero.
pub open spec fn spec_next_state(filter: SVF, x: u32) -> Seq<u32> {
    let z = filter.s@.update(0, x);
    seq![ZERO_BITS, spec_dot(filter.b0@, z), spec_dot(filter.b1@, z), ZERO_BITS]
}

/// The filter after one input sample: coefficients kept, state advanced.
pub open spec fn spec_step(filter: SVF, x: u32) -> SVF {
    SVF { s: vec4_of(spec_next_state(filter, x)), ..filter }
}

/// The output triples of a run over a whole input sequence.
pub open spec fn run_outputs(filter: SVF, xs: Seq<u32>) -> Seq<Seq<u32>>
    decreases xs.len(),
{
    if xs.len() == 0 {
        Seq::empty()
    } else {
        seq![spec_outputs(filter, xs[0])] + run_outputs(spec_step(filter, xs[0]), xs.skip(1))
    }
}

impl Default for SVF {
    /// The default filter is the new one: unconfigured and silent.
    fn default() -> (r: SVF)
        ensures
            r.a0@ == spec_zero_vec(),
            r.a1@ == spec_zero_vec(),
            r.a2@ == spec_zero_vec(),
            r.b0@ == spec_zero_vec(),
            r.b1@ == spec_zero_vec(),
            r.s@ == spec_zero_vec(),
            r.wf(),
    {
        SVF::new()
    }
}

/// Determinism: two filters with the same coefficient rows and the same
/// state, fed the same input sequence, produce bit-identical output
/// sequences. Every evaluation is a pure function of the coefficients,
/// the state and the input sample.
pub proof fn lemma_determinism(g: SVF, h: SVF, xs: Seq<u32>)
    requires
        g.a0@ == h.a0@,
        g.a1@ == h.a1@,
        g.a2@ == h.a2@,
        g.b0@ == h.b0@,
        g.b1@ == h.b1@,
        g.s@ == h.s@,
    ensures
        run_outputs(g, xs) == run_outputs(h, xs),
    decreases xs.len(),
{
    if xs.len() != 0 {
        let x = xs[0];
        assert(spec_outputs(g, x) =~= spec_outputs(h, x));
        assert(spec_next_state(g, x) =~= spec_next_state(h, x));
        let g1 = spec_step(g, x);
        let h1 = spec_step(h, x);
        lemma_determinism(g1, h1, xs.skip(1));
        assert(run_outputs(g, xs) =~= run_outputs(h, xs));
    }
}

/// Once configured, a filter stays configured: an evaluation step changes
/// only the state, never the coefficient rows.
pub proof fn lemma_step_keeps_configuration(g: SVF, x: u32, f: u32, q: u32)
    requires
        g.configured_for(f, q),
    ensures
        spec_step(g, x).configured_for(f, q),
{
}

/// A reset filter replays like a fresh one: a filter configured for
/// `(f, q)` whose state has been cleared produces, on any input sequence,
/// the same output sequence as a freshly constructed filter configured
/// identically.
pub proof fn lemma_reset_matches_fresh(g: SVF, h: SVF, f: u32, q: u32, xs: Seq<u32>)
    requires
        g.configured_for(f, q),
        h.configured_for(f, q),
        g.s@ == spec_zero_vec(),
        h.s@ == spec_zero_vec(),
    ensures
        run_outputs(g, xs) == run_outputs(h, xs),
{
    lemma_determinism(g, h, xs);
}

impl SVF {
    /// The state vector is well formed: lanes 0 and 3 are zero, so that the
    /// two internal memory values sit in lanes 1 and 2 and the input sample
    /// can be written into lane 0 at each evaluation.
    pub open spec fn wf(self) -> bool {
        self.s@[0] == ZERO_BITS && self.s@[3] == ZERO_BITS
    }

    /// The coefficient rows are exactly those derived from the normalized
    /// frequency `f` and quality factor `q`.
    pub open spec fn configured_for(self, f: u32, q: u32) -> bool {
        self.a0@ == spec_row_hp(f, q) && self.a1@ == spec_row_bp(f, q) && self.a2@ == spec_row_lp(
            f,
            q,
        ) && self.b0@ == spec_row_b0(f, q) && self.b1@ == spec_row_b1(f, q)
    }

    /// Create a new filter: unconfigured and silent, with all-zero
    /// coefficients and state.
    pub fn new() -> (r: SVF)
        ensures
            r.a0@ == spec_zero_vec(),
            r.a1@ == spec_zero_vec(),
            r.a2@ == spec_zero_vec(),
            r.b0@ == spec_zero_vec(),
            r.b1@ == spec_zero_vec(),
            r.s@ == spec_zero_vec(),
            r.wf(),
    {
        let z = vector::zero();
        let r = SVF { a0: z, a1: z, a2: z, b0: z, b1: z, s: z };
        proof {
            assert(r.s@ =~= spec_zero_vec());
        }
        r
    }

    /// Derive and install the coefficient rows for a normalized frequency
    /// and a quality factor; the state is untouched.
    ///
    /// The documented parameter ranges are `frequency in [0, 1)` and
    /// `q in [0.5, 10)`; for non-negative single-precision values the bit
    /// patterns order as the values do, so the ranges are required here as
    /// plain bounds on the patterns. Outside them the derivation has no
    /// defined numeric meaning, so the ranges are a hard precondition.
    pub fn set(&mut self, normalized_frequency: Scalar, q_factor: Scalar)
        requires
            normalized_frequency@ < ONE_BITS,
            Q_LOW_BITS <= q_factor@ < Q_HIGH_BITS,
        ensures
            final(self).configured_for(normalized_frequency@, q_factor@),
            final(self).s == old(self).s,
    {
        let fv = normalized_frequency;
        let qv = q_factor;
        let one = Scalar::from_bits(ONE_BITS);
        let fb = s_div(one, qv);
        let ff = s_tan(s_mul(Scalar::from_bits(HALF_PI_BITS), fv));
        let gain = s_div(one, s_add(s_add(one, s_mul(fb, ff)), s_mul(ff, ff)));
        let a0 = vector::cmul(
            gain,
            vector::splat(one, s_neg(s_add(ff, fb)), Scalar::from_bits(NEG_ONE_BITS), Scalar::zero()),
        );
        let a1 = vector::cmul(gain, vector::splat(ff, one, s_neg(ff), Scalar::zero()));
        let a2 = vector::cmul(gain, vector::splat(s_mul(ff, ff), ff, s_add(one, fb), Scalar::zero()));
        let b0 = vector::add(vector::cmul(ff, a0), a1);
        let b1 = vector::add(vector::cmul(ff, a1), a2);
        proof {
            let f = fv@;
            let q = qv@;
            assert(a0@ =~= spec_row_hp(f, q)) by {
                assert(seq![one@, neg_bits(add_bits(ff@, fb@)), NEG_ONE_BITS, ZERO_BITS] =~= (seq![
                    ONE_BITS,
                    neg_bits(add_bits(spec_ff(f), spec_fb(q))),
                    NEG_ONE_BITS,
                    ZERO_BITS,
                ]));
            }
            assert(a1@ =~= spec_row_bp(f, q)) by {
                assert(seq![ff@, one@, neg_bits(ff@), ZERO_BITS] =~= (seq![
                    spec_ff(f),
                    ONE_BITS,
                    neg_bits(spec_ff(f)),
                    ZERO_BITS,
                ]));
            }
            assert(a2@ =~= spec_row_lp(f, q)) by {
                assert(seq![mul_bits(ff@, ff@), ff@, add_bits(one@, fb@), ZERO_BITS] =~= (seq![
                    mul_bits(spec_ff(f), spec_ff(f)),
                    spec_ff(f),
                    add_bits(ONE_BITS, spec_fb(q)),
                    ZERO_BITS,
                ]));
            }
        }
        self.a0 = a0;
        self.a1 = a1;
        self.a2 = a2;
        self.b0 = b0;
        self.b1 = b1;
    }

    /// Clear the state back to silence; the coefficients are untouched.
    pub fn reset(&mut self)
        ensures
            final(self).s@ == spec_zero_vec(),
            final(self).a0 == old(self).a0,
            final(self).a1 == old(self).a1,
            final(self).a2 == old(self).a2,
            final(self).b0 == old(self).b0,
            final(self).b1 == old(self).b1,
            final(self).wf(),
    {
        self.s = vector::zero();
        proof {
            assert(self.s@ =~= spec_zero_vec());
        }
    }

    /// Evaluate one input sample. Returns the three outputs in the
    /// canonical order highpass, bandpass, lowpass, and advances the
    /// internal state.
    pub fn eval(&mut self, x: Scalar) -> (y: [Scalar; 3])
        ensures
            y[0]@ == spec_outputs(*old(self), x@)[0],
            y[1]@ == spec_outputs(*old(self), x@)[1],
            y[2]@ == spec_outputs(*old(self), x@)[2],
            *final(self) == spec_step(*old(self), x@),
            final(self).wf(),
    {
        let z = vector::store1(self.s, x, 0);
        let yhp = vector::dot(self.a0, z);
        let ybp = vector::dot(self.a1, z);
        let ylp = vector::dot(self.a2, z);
        let s1 = vector::dot(self.b0, z);
        let s2 = vector::dot(self.b1, z);
        self.s = vector::splat(Scalar::zero(), s1, s2, Scalar::zero());
        proof {
            assert(self.s == vec4_of(spec_next_state(*old(self), x@)));
        }
        [yhp, ybp, ylp]
    }
}

} // verus!
