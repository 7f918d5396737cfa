use shooter_core::geometry::{dist_mm, impulse_milli, isqrt, within_mm, PosMm};

fn pos(x: i64, y: i64, z: i64) -> PosMm {
    PosMm { x, y, z }
}

#[test]
fn isqrt_exact_values() {
    assert_eq!(isqrt(0), 0);
    assert_eq!(isqrt(1), 1);
    assert_eq!(isqrt(3), 1);
    assert_eq!(isqrt(4), 2);
    assert_eq!(isqrt(15), 3);
    assert_eq!(isqrt(16), 4);
    assert_eq!(isqrt(1_000_000), 1000);
    assert_eq!(isqrt(u64::MAX), 4_294_967_295);
}

#[test]
fn dist_of_pythagorean_triangle() {
    assert_eq!(dist_mm(pos(0, 0, 0), pos(3000, 4000, 0)), 5000);
}

#[test]
fn dist_rounds_down() {
    // sqrt(2) thousand millimetres is a touch over 1414.
    assert_eq!(dist_mm(pos(0, 0, 0), pos(1000, 1000, 0)), 1414);
}

#[test]
fn within_is_exact_at_the_boundary() {
    assert!(within_mm(pos(0, 0, 0), pos(3000, 4000, 0), 5000));
    assert!(!within_mm(pos(0, 0, 0), pos(3000, 4001, 0), 5000));
}

#[test]
fn impulse_fades_linearly() {
    assert_eq!(impulse_milli(0, 10_000), 20_000);
    assert_eq!(impulse_milli(5_000, 10_000), 10_000);
    assert_eq!(impulse_milli(2_000, 10_000), 16_000);
    assert_eq!(impulse_milli(10_000, 10_000), 0);
    assert_eq!(impulse_milli(12_000, 10_000), 0);
}
