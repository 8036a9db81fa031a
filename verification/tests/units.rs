use firkin::units::{DistPx, DistPxFrac, PX, SUBPIXELS_PER_PX};

#[test]
fn create_integer_values() {
    let x = DistPx::of(42, PX);
    assert_eq!(x.per(PX), 42);

    let y = DistPx::new(42);
    assert_eq!(y.per(PX), 42);
}

#[test]
fn create_float_values() {
    let x = DistPxFrac::of(42, PX);
    assert_eq!(x.subpixels(PX), 42 * SUBPIXELS_PER_PX);
    assert_eq!(x.floor().per(PX), 42);
}

#[test]
fn ratio_represents_exact_fractions() {
    let quarter = DistPxFrac::ratio(1, 4, PX);
    assert_eq!(quarter.subpixels(PX), SUBPIXELS_PER_PX / 4);

    let three_halves = DistPxFrac::ratio(3, 2, PX);
    assert_eq!(three_halves.subpixels(PX), 3 * SUBPIXELS_PER_PX / 2);
}

#[test]
fn floor_rounds_toward_negative_infinity() {
    let pos = DistPxFrac::ratio(3, 2, PX);
    assert_eq!(pos.floor().per(PX), 1);

    let neg = DistPxFrac::ratio(-3, 2, PX);
    assert_eq!(neg.floor().per(PX), -2);

    let whole = DistPxFrac::of(-7, PX);
    assert_eq!(whole.floor().per(PX), -7);
}

#[test]
fn tagged_arithmetic_stays_tagged() {
    let a = DistPx::of(5, PX);
    let b = DistPx::of(3, PX);
    assert_eq!(a.plus(b).per(PX), 8);
    assert_eq!(a.minus(b).per(PX), 2);
    assert!(b.lt(a));
    assert!(b.le(b));

    let c = DistPxFrac::ratio(1, 2, PX);
    let d = DistPxFrac::ratio(1, 4, PX);
    assert_eq!(c.plus(d).subpixels(PX), 3 * SUBPIXELS_PER_PX / 4);
    assert_eq!(c.minus(d).subpixels(PX), SUBPIXELS_PER_PX / 4);
    assert!(d.lt(c));
    assert!(d.le(d));
}

#[test]
fn cast_and_floor_are_inverse_on_whole_pixels() {
    let d = DistPx::of(11, PX);
    assert_eq!(d.to_frac().floor(), d);
}
