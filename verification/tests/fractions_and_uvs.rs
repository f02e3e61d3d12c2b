use tiled_ground::fraction::Fraction;
use tiled_ground::uv::{get_uv, uv_calculate, Uv2};

fn as_float(f: &Fraction) -> f32 {
    f.num as f32 / f.den as f32
}

#[test]
fn same_value_ignores_common_factors() {
    let a = Fraction { num: 5, den: 20 };
    let b = Fraction { num: 1, den: 4 };
    assert!(a.same_value(&b));
    assert!(b.same_value(&a));
    assert_ne!(a, b);
}

#[test]
fn same_value_tells_different_values_apart() {
    let a = Fraction { num: 1, den: 3 };
    let b = Fraction { num: 1, den: 4 };
    assert!(!a.same_value(&b));
    assert!(!(Fraction { num: 1, den: 4 }).same_value(&Fraction { num: -1, den: 4 }));
}

#[test]
fn same_value_handles_negative_denominators() {
    let a = Fraction { num: -3, den: -4 };
    let b = Fraction { num: 3, den: 4 };
    assert!(a.same_value(&b));
    assert!(!(Fraction { num: 3, den: -4 }).same_value(&b));
}

#[test]
fn same_value_does_not_overflow_at_the_limits() {
    let a = Fraction { num: i64::MIN, den: i64::MAX };
    let b = Fraction { num: i64::MAX, den: i64::MIN };
    assert!(a.same_value(&a));
    assert!(!a.same_value(&b));
    let c = Fraction { num: i64::MIN, den: i64::MIN };
    assert!(c.same_value(&Fraction { num: 1, den: 1 }));
}

#[test]
fn same_value_is_the_cross_product_test_for_zero_denominators() {
    let a = Fraction { num: 1, den: 0 };
    let b = Fraction { num: 2, den: 0 };
    assert!(a.same_value(&b));
    assert!(!a.same_value(&Fraction { num: 1, den: 1 }));
}

#[test]
fn uv_calculate_adds_the_magnitude_of_min_x() {
    assert_eq!(uv_calculate(-5, 20, -10), Fraction { num: 5, den: 20 });
    assert_eq!(uv_calculate(-5, 20, 10), Fraction { num: 5, den: 20 });
    assert_eq!(uv_calculate(7, 3, 0), Fraction { num: 7, den: 3 });
}

#[test]
fn uv_calculate_is_not_reduced() {
    let f = uv_calculate(0, 20, -10);
    assert_eq!(f.num, 10);
    assert_eq!(f.den, 20);
    assert!(f.same_value(&Fraction { num: 1, den: 2 }));
}

#[test]
fn uv_calculate_is_not_clamped() {
    let below = uv_calculate(-15, 20, -10);
    assert_eq!(below, Fraction { num: -5, den: 20 });
    assert!(as_float(&below) < 0.0);
    let above = uv_calculate(15, 20, -10);
    assert_eq!(above, Fraction { num: 25, den: 20 });
    assert!(as_float(&above) > 1.0);
}

#[test]
fn uv_calculate_spans_zero_to_one_across_the_map() {
    assert_eq!(as_float(&uv_calculate(-10, 20, -10)), 0.0);
    assert_eq!(as_float(&uv_calculate(0, 20, -10)), 0.5);
    assert_eq!(as_float(&uv_calculate(10, 20, -10)), 1.0);
}

#[test]
fn uv_calculate_fits_the_widest_inputs() {
    let f = uv_calculate(i32::MAX, i32::MIN, i32::MIN);
    assert_eq!(f.num, 2147483647i64 + 2147483648i64);
    assert_eq!(f.den, -2147483648i64);
    let g = uv_calculate(i32::MIN, 1, i32::MAX);
    assert_eq!(g.num, -1);
    assert_eq!(g.den, 1);
}

#[test]
fn uv_calculate_keeps_a_zero_side_as_denominator() {
    let f = uv_calculate(3, 0, -2);
    assert_eq!(f, Fraction { num: 5, den: 0 });
}

#[test]
fn uv_value_does_not_depend_on_the_grid_unit() {
    let coarse = uv_calculate(-5, 20, -10);
    let fine = uv_calculate(-25, 100, -50);
    assert!(coarse.same_value(&fine));
    assert_eq!(as_float(&coarse), as_float(&fine));
}

#[test]
fn get_uv_swaps_the_axes() {
    let uv: Uv2 = get_uv(5, -5, 20, -10);
    assert_eq!(uv.u, Fraction { num: 5, den: 20 });
    assert_eq!(uv.v, Fraction { num: 15, den: 20 });
    assert_eq!(as_float(&uv.u), 0.25);
    assert_eq!(as_float(&uv.v), 0.75);
}

#[test]
fn get_uv_matches_the_formula_in_floats() {
    let map_side_len: f32 = 10.0;
    let min_x: f32 = -5.0;
    let coordinates: [i32; 5] = [-15, -5, 0, 5, 15];
    for gx in coordinates {
        for gz in coordinates {
            let uv = get_uv(gx, gz, 20, -10);
            let x: f32 = gx as f32 / 2.0;
            let z: f32 = gz as f32 / 2.0;
            let u: f32 = (z + min_x.abs()) / map_side_len;
            let v: f32 = (x + min_x.abs()) / map_side_len;
            assert!((as_float(&uv.u) - u).abs() <= 1e-6);
            assert!((as_float(&uv.v) - v).abs() <= 1e-6);
        }
    }
}
