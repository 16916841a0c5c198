use svf::scalar::Scalar;
use svf::vector;
use svf::vector::Vec4;

fn s(x: f32) -> Scalar {
    Scalar::from_bits(x.to_bits())
}

fn f(x: Scalar) -> f32 {
    f32::from_bits(x.bits())
}

fn v4(x0: f32, x1: f32, x2: f32, x3: f32) -> Vec4 {
    vector::splat(s(x0), s(x1), s(x2), s(x3))
}

#[test]
fn zero_has_all_zero_lanes() {
    let z = vector::zero();
    for n in 0..4u8 {
        assert_eq!(z.lane(n).bits(), 0u32);
        assert_eq!(f(z.lane(n)), 0.0f32);
    }
}

#[test]
fn splat_assigns_lanes_independently() {
    let v = v4(1.0, 2.0, 3.0, 4.0);
    assert_eq!(f(v.lane(0)), 1.0);
    assert_eq!(f(v.lane(1)), 2.0);
    assert_eq!(f(v.lane(2)), 3.0);
    assert_eq!(f(v.lane(3)), 4.0);
}

#[test]
fn store1_replaces_exactly_one_lane() {
    let v = v4(10.5, 20.25, 30.125, 40.0);
    let orig = [10.5f32, 20.25, 30.125, 40.0];
    for n in 0..4u8 {
        let w = vector::store1(v, s(7.75), n);
        for k in 0..4u8 {
            if k == n {
                assert_eq!(f(w.lane(k)), 7.75);
            } else {
                assert_eq!(f(w.lane(k)), orig[k as usize]);
            }
        }
    }
}

#[test]
fn cmul_scales_every_lane() {
    let v = v4(1.0, -2.0, 3.0, 4.5);
    let w = vector::cmul(s(2.0), v);
    assert_eq!(f(w.lane(0)), 2.0);
    assert_eq!(f(w.lane(1)), -4.0);
    assert_eq!(f(w.lane(2)), 6.0);
    assert_eq!(f(w.lane(3)), 9.0);
}

#[test]
fn add_is_lane_wise() {
    let a = v4(1.0, 2.0, 3.0, 4.0);
    let b = v4(10.0, 20.0, 30.0, 40.0);
    let c = vector::add(a, b);
    assert_eq!(f(c.lane(0)), 11.0);
    assert_eq!(f(c.lane(1)), 22.0);
    assert_eq!(f(c.lane(2)), 33.0);
    assert_eq!(f(c.lane(3)), 44.0);
}

#[test]
fn dot_matches_sum_of_squares() {
    let v = v4(1.0, 2.0, 3.0, 4.0);
    assert_eq!(f(vector::dot(v, v)), 30.0);
    let w = v4(1.5, 2.5, -3.25, 0.0);
    assert_eq!(f(vector::dot(w, w)), 1.5 * 1.5 + 2.5 * 2.5 + 3.25 * 3.25);
}

#[test]
fn dot_padding_lane_does_not_perturb() {
    // The fourth lane is the padding lane of the filter layout: with it
    // zero, the dot product equals the three-lane sum exactly.
    let a = v4(0.1, -0.2, 0.3, 0.0);
    let b = v4(0.7, 0.9, -1.1, 123.456);
    let expected = (0.1f32 * 0.7 + -0.2f32 * 0.9) + (0.3f32 * -1.1 + 0.0);
    assert_eq!(f(vector::dot(a, b)), expected);
}

#[test]
fn dot_reduces_pairwise_not_left_to_right() {
    // (1 + 1e8) + (-1e8 + 1) rounds to 0 under the pairwise reduction,
    // while a left-to-right fold would give 1; this pins the hardware
    // horizontal-add rounding order.
    let a = v4(1.0, 1e8, -1e8, 1.0);
    let b = v4(1.0, 1.0, 1.0, 1.0);
    assert_eq!(f(vector::dot(a, b)), 0.0);
}
