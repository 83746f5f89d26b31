use nbody::body::{Body, Color, Motion, Vector2};
use nbody::scalar::{Scalar, INFINITY_BITS};

fn scalar(value: f32) -> Scalar {
    Scalar::from_bits(value.to_bits())
}

#[test]
fn bits_round_trip() {
    for bits in [0u32, 1, 0x3f80_0000, 0x7f80_0000, 0x7fc0_0000, 0x8000_0000, u32::MAX] {
        assert_eq!(Scalar::from_bits(bits).to_bits(), bits);
    }
    assert_eq!(scalar(1.0).to_bits(), 0x3f80_0000);
    assert_eq!(f32::from_bits(scalar(-2.5).to_bits()), -2.5);
}

#[test]
fn zero_is_positive_zero() {
    assert_eq!(Scalar::new_zero().to_bits(), 0.0f32.to_bits());
    assert_ne!(Scalar::new_zero(), scalar(-0.0));
    assert_eq!(Vector2::new_zero(), Vector2::new(scalar(0.0), scalar(0.0)));
}

#[test]
fn infinity_bits_are_those_of_infinity() {
    assert_eq!(INFINITY_BITS, f32::INFINITY.to_bits());
}

#[test]
fn exceeds_zero_agrees_with_comparison() {
    let samples = [
        0.0f32,
        -0.0,
        1.0,
        -1.0,
        0.5,
        250.0,
        1.0e-40,
        -1.0e-40,
        f32::MIN_POSITIVE,
        f32::MAX,
        f32::MIN,
        f32::EPSILON,
        f32::INFINITY,
        f32::NEG_INFINITY,
        f32::NAN,
        -f32::NAN,
    ];
    for value in samples {
        assert_eq!(scalar(value).exceeds_zero(), value > 0.0, "{value}");
    }
}

#[test]
fn exceeds_zero_at_the_edges_of_the_range() {
    assert!(!Scalar::from_bits(0).exceeds_zero());
    assert!(Scalar::from_bits(1).exceeds_zero());
    assert!(Scalar::from_bits(0x7f7f_ffff).exceeds_zero());
    assert!(Scalar::from_bits(0x7f80_0000).exceeds_zero());
    assert!(!Scalar::from_bits(0x7f80_0001).exceeds_zero());
    assert!(!Scalar::from_bits(0x7fff_ffff).exceeds_zero());
    assert!(!Scalar::from_bits(0x8000_0000).exceeds_zero());
    assert!(!Scalar::from_bits(0x8000_0001).exceeds_zero());
    assert!(!Scalar::from_bits(0xffff_ffff).exceeds_zero());
}

#[test]
fn new_body_has_no_acceleration() {
    let pos = Vector2::new(scalar(1.0), scalar(2.0));
    let vel = Vector2::new(scalar(-3.0), scalar(4.0));
    let color = Color { red: 10, green: 20, blue: 30 };
    let body = Body::new(pos, vel, scalar(5.0), color);
    assert_eq!(body.pos, pos);
    assert_eq!(body.vel, vel);
    assert_eq!(body.acc, Vector2::new_zero());
    assert_eq!(body.mass, scalar(5.0));
    assert_eq!(body.color, color);
}

#[test]
fn check_mass_rejects_what_is_not_above_zero() {
    let at = Vector2::new_zero();
    let color = Color { red: 0, green: 0, blue: 0 };
    assert!(Body::new(at, at, scalar(1.0), color).check_mass());
    assert!(Body::new(at, at, scalar(f32::INFINITY), color).check_mass());
    assert!(!Body::new(at, at, scalar(0.0), color).check_mass());
    assert!(!Body::new(at, at, scalar(-1.0), color).check_mass());
    assert!(!Body::new(at, at, scalar(f32::NAN), color).check_mass());
}

#[test]
fn settle_clears_only_the_acceleration() {
    let color = Color { red: 1, green: 2, blue: 3 };
    let body = Body {
        pos: Vector2::new(scalar(1.0), scalar(2.0)),
        vel: Vector2::new(scalar(3.0), scalar(4.0)),
        acc: Vector2::new(scalar(5.0), scalar(6.0)),
        mass: scalar(7.0),
        color,
    };
    let settled = body.settle();
    assert_eq!(settled, Body { acc: Vector2::new_zero(), ..body });
}

#[test]
fn hold_at_moves_and_stops() {
    let color = Color { red: 1, green: 2, blue: 3 };
    let body = Body::new(
        Vector2::new(scalar(1.0), scalar(2.0)),
        Vector2::new(scalar(3.0), scalar(4.0)),
        scalar(7.0),
        color,
    );
    let point = Vector2::new(scalar(-8.0), scalar(9.5));
    let held = body.hold_at(point);
    assert_eq!(held, Body { pos: point, vel: Vector2::new_zero(), ..body });
}

#[test]
fn advance_takes_the_motion_and_keeps_mass_and_color() {
    let color = Color { red: 1, green: 2, blue: 3 };
    let body = Body {
        pos: Vector2::new(scalar(1.0), scalar(2.0)),
        vel: Vector2::new(scalar(3.0), scalar(4.0)),
        acc: Vector2::new(scalar(5.0), scalar(6.0)),
        mass: scalar(7.0),
        color,
    };
    let motion = Motion {
        pos: Vector2::new(scalar(10.0), scalar(20.0)),
        vel: Vector2::new(scalar(30.0), scalar(40.0)),
    };
    let next = body.advance(motion);
    assert_eq!(
        next,
        Body { pos: motion.pos, vel: motion.vel, acc: Vector2::new_zero(), mass: scalar(7.0), color }
    );
}
