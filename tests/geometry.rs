use gear_geometry::{Gear, GeometryError, Rack, Ratio};

fn value(r: Ratio) -> f64 {
    r.num as f64 / r.den as f64
}

fn logo_gear() -> Gear {
    Gear::new(69, 3, 32).unwrap()
}

#[test]
fn logo_gear_addendum_circle_radius() {
    assert_eq!(logo_gear().addendum_circle_radius(), 72);
}

#[test]
fn logo_gear_circular_pitch() {
    let p = logo_gear().pitch();
    assert_eq!(p, Ratio { num: 138, den: 32 });
    let arc = std::f64::consts::PI * value(p);
    assert!((arc - 2.0 * std::f64::consts::PI * 69.0 / 32.0).abs() < 1e-12);
    assert!((arc - 13.5475).abs() < 1e-3);
}

#[test]
fn logo_rack_linear_pitch() {
    let rack = Rack::new(386, 27, 3, 32).unwrap();
    let p = rack.pitch();
    assert_eq!(p, Ratio { num: 386, den: 32 });
    assert_eq!(value(p), 12.0625);
}

#[test]
fn epicyclic_center_distance() {
    let logo = logo_gear();
    let epicyc = Gear::new(33, 3, 16).unwrap();
    assert_eq!(logo.center_distance(&epicyc, 0), 102);
    let dist = logo.center_distance(&epicyc, logo.addendum);
    assert_eq!(dist, 99);
    let angle = std::f64::consts::PI / 3.68;
    let (x, y) = (dist as f64 * angle.cos(), dist as f64 * angle.sin());
    assert!((x.hypot(y) - 99.0).abs() < 1e-9);
    assert!((x - 65.063).abs() < 1e-3);
    assert!((y - 74.618).abs() < 1e-3);
}

#[test]
fn zero_teeth_is_refused() {
    assert_eq!(Gear::new(69, 3, 0), Err(GeometryError::InvalidConfiguration));
    assert_eq!(Rack::new(386, 27, 3, 0), Err(GeometryError::InvalidConfiguration));
}

#[test]
fn negative_teeth_is_refused() {
    assert_eq!(Gear::new(69, 3, -4), Err(GeometryError::InvalidConfiguration));
    assert_eq!(Rack::new(386, 27, 3, -1), Err(GeometryError::InvalidConfiguration));
}

#[test]
fn non_positive_sizes_are_refused() {
    assert_eq!(Gear::new(0, 3, 32), Err(GeometryError::InvalidConfiguration));
    assert_eq!(Gear::new(69, -1, 32), Err(GeometryError::InvalidConfiguration));
    assert_eq!(Rack::new(0, 27, 3, 32), Err(GeometryError::InvalidConfiguration));
    assert_eq!(Rack::new(386, -27, 3, 32), Err(GeometryError::InvalidConfiguration));
}

#[test]
fn construction_keeps_fields() {
    let g = Gear::new(33, 0, 16).unwrap();
    assert_eq!(g, Gear { pitch_circle_radius: 33, addendum: 0, teeth_num: 16 });
    let r = Rack::new(386, 27, -2, 32).unwrap();
    assert_eq!(r, Rack { width: 386, height: 27, addendum: -2, teeth_num: 32 });
}

#[test]
fn addendum_circle_equals_pitch_circle_without_addendum() {
    let flat = Gear::new(33, 0, 16).unwrap();
    assert_eq!(flat.addendum_circle_radius(), 33);
    let toothed = Gear::new(33, 3, 16).unwrap();
    assert!(toothed.addendum_circle_radius() > 33);
}

#[test]
fn more_teeth_give_smaller_pitch() {
    let few = Gear::new(69, 3, 16).unwrap().pitch();
    let many = Gear::new(69, 3, 32).unwrap().pitch();
    assert!(value(many) < value(few));
    let few = Rack::new(386, 27, 3, 16).unwrap().pitch();
    let many = Rack::new(386, 27, 3, 32).unwrap().pitch();
    assert!(value(many) < value(few));
}

#[test]
fn scaling_size_scales_pitch() {
    let small = Gear::new(33, 3, 16).unwrap().pitch();
    let large = Gear::new(99, 3, 16).unwrap().pitch();
    assert_eq!(value(large), 3.0 * value(small));
    let small = Rack::new(100, 27, 3, 8).unwrap().pitch();
    let large = Rack::new(250, 27, 3, 8).unwrap().pitch();
    assert_eq!(value(large), 2.5 * value(small));
}

#[test]
fn extreme_sizes_do_not_overflow() {
    let g = Gear::new(i32::MAX, i32::MAX, 1).unwrap();
    assert_eq!(g.addendum_circle_radius(), 2 * i32::MAX as i64);
    assert_eq!(g.pitch(), Ratio { num: 2 * i32::MAX as i64, den: 1 });
    assert_eq!(g.center_distance(&g, i32::MIN), 2 * i32::MAX as i64 - i32::MIN as i64);
}
