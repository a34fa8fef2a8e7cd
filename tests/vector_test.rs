use math_vector::Scalar;
use math_vector::Vector;

use std::f64::consts::PI;

/// A double-precision scalar.
#[derive(Clone, Copy, Debug, PartialEq)]
struct R(f64);

/// A single-precision scalar.
#[derive(Clone, Copy, Debug, PartialEq)]
struct R32(f32);

impl Scalar for R {
    fn zero() -> Self {
        R(0.0)
    }
    fn one() -> Self {
        R(1.0)
    }
    fn epsilon() -> Self {
        R(f64::EPSILON)
    }
    fn add(self, rhs: Self) -> Self {
        R(self.0 + rhs.0)
    }
    fn sub(self, rhs: Self) -> Self {
        R(self.0 - rhs.0)
    }
    fn mul(self, rhs: Self) -> Self {
        R(self.0 * rhs.0)
    }
    fn div(self, rhs: Self) -> Self {
        R(self.0 / rhs.0)
    }
    fn neg(self) -> Self {
        R(-self.0)
    }
    fn sqrt(self) -> Self {
        R(self.0.sqrt())
    }
    fn recip(self) -> Self {
        R(self.0.recip())
    }
    fn sin(self) -> Self {
        R(self.0.sin())
    }
    fn cos(self) -> Self {
        R(self.0.cos())
    }
    fn sin_cos(self) -> (Self, Self) {
        let (s, c) = self.0.sin_cos();
        (R(s), R(c))
    }
    fn atan2(self, x: Self) -> Self {
        R(self.0.atan2(x.0))
    }
    fn asin(self) -> Self {
        R(self.0.asin())
    }
    fn equals(self, rhs: Self) -> bool {
        self.0 == rhs.0
    }
    fn less_than(self, rhs: Self) -> bool {
        self.0 < rhs.0
    }
    fn less_eq(self, rhs: Self) -> bool {
        self.0 <= rhs.0
    }
}

impl Scalar for R32 {
    fn zero() -> Self {
        R32(0.0)
    }
    fn one() -> Self {
        R32(1.0)
    }
    fn epsilon() -> Self {
        R32(f32::EPSILON)
    }
    fn add(self, rhs: Self) -> Self {
        R32(self.0 + rhs.0)
    }
    fn sub(self, rhs: Self) -> Self {
        R32(self.0 - rhs.0)
    }
    fn mul(self, rhs: Self) -> Self {
        R32(self.0 * rhs.0)
    }
    fn div(self, rhs: Self) -> Self {
        R32(self.0 / rhs.0)
    }
    fn neg(self) -> Self {
        R32(-self.0)
    }
    fn sqrt(self) -> Self {
        R32(self.0.sqrt())
    }
    fn recip(self) -> Self {
        R32(self.0.recip())
    }
    fn sin(self) -> Self {
        R32(self.0.sin())
    }
    fn cos(self) -> Self {
        R32(self.0.cos())
    }
    fn sin_cos(self) -> (Self, Self) {
        let (s, c) = self.0.sin_cos();
        (R32(s), R32(c))
    }
    fn atan2(self, x: Self) -> Self {
        R32(self.0.atan2(x.0))
    }
    fn asin(self) -> Self {
        R32(self.0.asin())
    }
    fn equals(self, rhs: Self) -> bool {
        self.0 == rhs.0
    }
    fn less_than(self, rhs: Self) -> bool {
        self.0 < rhs.0
    }
    fn less_eq(self, rhs: Self) -> bool {
        self.0 <= rhs.0
    }
}

impl From<R32> for R {
    fn from(v: R32) -> R {
        R(v.0 as f64)
    }
}

fn vr(x: f64, y: f64, z: f64) -> Vector<R> {
    Vector::new(R(x), R(y), R(z))
}

#[test]
fn new() {
    let v = Vector::new(R(1.0), R(2.0), R(3.0));
    assert_eq!(v.x, R(1.0));
    assert_eq!(v.y, R(2.0));
    assert_eq!(v.z, R(3.0));
}

#[test]
fn copy() {
    let v = Vector::new(R(1.0), R(2.0), R(3.0));
    let mut v_copy = v;
    assert_eq!(v, v_copy);

    v_copy.x = R(0.0);
    assert_ne!(v, v_copy);
}

#[test]
fn clone() {
    let v = Vector::new(R(1.0), R(2.0), R(3.0));
    let mut v_clone = v.clone();
    assert_eq!(v, v_clone);

    v_clone.x = R(0.0);
    assert_ne!(v, v_clone);
}

#[test]
fn add() {
    let x = Vector::new(R(1.0), R(0.0), R(0.0));
    let y = Vector::new(R(0.0), R(1.0), R(0.0));
    let z = Vector::new(R(0.0), R(0.0), R(1.0));

    let v = x + y + z;
    assert_eq!(v.x, R(1.0));
    assert_eq!(v.y, R(1.0));
    assert_eq!(v.z, R(1.0));

    let w = &(&x + &y) + &z;
    assert_eq!(v, w);
}

#[test]
fn add_assign() {
    let x = Vector::new(R(1.0), R(0.0), R(0.0));
    let y = Vector::new(R(0.0), R(1.0), R(0.0));
    let z = Vector::new(R(0.0), R(0.0), R(1.0));

    let mut v = Vector::default();
    v += x + y + z;
    assert_eq!(v.x, R(1.0));
    assert_eq!(v.y, R(1.0));
    assert_eq!(v.z, R(1.0));
}

#[test]
fn sub() {
    let x = Vector::new(R(1.0), R(0.0), R(0.0));
    let y = Vector::new(R(0.0), R(1.0), R(0.0));
    let z = Vector::new(R(0.0), R(0.0), R(1.0));

    let v = -x - y - z;
    assert_eq!(v.x, R(-1.0));
    assert_eq!(v.y, R(-1.0));
    assert_eq!(v.z, R(-1.0));

    let w = &(&-x - &y) - &z;
    assert_eq!(v, w);
}

#[test]
fn sub_assign() {
    let x = Vector::new(R(1.0), R(0.0), R(0.0));
    let y = Vector::new(R(0.0), R(1.0), R(0.0));
    let z = Vector::new(R(0.0), R(0.0), R(1.0));

    let mut v = Vector::default();
    v -= x + y + z;
    assert_eq!(v.x, R(-1.0));
    assert_eq!(v.y, R(-1.0));
    assert_eq!(v.z, R(-1.0));
}

#[test]
fn mul() {
    let x = Vector::new(R(1.0), R(2.0), R(3.0));
    let y = Vector::new(R(2.0), R(3.0), R(4.0));
    let z = Vector::new(R(4.0), R(5.0), R(6.0));

    let v = x * y * z;
    assert_eq!(v.x, R(8.0));
    assert_eq!(v.y, R(30.0));
    assert_eq!(v.z, R(72.0));

    let w = &(&x * &y) * &z;
    assert_eq!(v, w);
}

#[test]
fn mul_assign() {
    let x = Vector::new(R(1.0), R(2.0), R(3.0));
    let y = Vector::new(R(2.0), R(3.0), R(4.0));
    let z = Vector::new(R(4.0), R(5.0), R(6.0));

    let mut v = Vector::one();
    v *= x * y * z;
    assert_eq!(v.x, R(8.0));
    assert_eq!(v.y, R(30.0));
    assert_eq!(v.z, R(72.0));
}

#[test]
fn div() {
    let x = Vector::new(R(1.0), R(2.0), R(3.0));
    let y = Vector::new(R(2.0), R(3.0), R(4.0));
    let z = Vector::new(R(4.0), R(5.0), R(6.0));

    let v = x / y / z;
    assert_eq!(v.x, R(1.0 / 8.0));
    assert_eq!(v.y, R(2.0 / 15.0));
    assert_eq!(v.z, R(3.0 / 24.0));

    let w = &(&x / &y) / &z;
    assert_eq!(v, w);
}

#[test]
fn div_assign() {
    let x = Vector::new(R(1.0), R(2.0), R(3.0));
    let y = Vector::new(R(2.0), R(3.0), R(4.0));
    let z = Vector::new(R(4.0), R(5.0), R(6.0));

    let mut v = Vector::one();
    v /= (y * z) / x;
    assert_eq!(v.x, R(1.0 / 8.0));
    assert_eq!(v.y, R(2.0 / 15.0));
    assert_eq!(v.z, R(3.0 / 24.0));
}

#[test]
fn dot() {
    let x = Vector::new(R(1.0), R(0.0), R(0.0));
    let y = Vector::new(R(0.0), R(1.0), R(0.0));
    let z = Vector::new(R(0.0), R(0.0), R(1.0));

    assert_eq!(x.dot(y), R(0.0));
    assert_eq!(x.dot(z), R(0.0));
    assert_eq!(y.dot(z), R(0.0));
}

#[test]
fn cross() {
    let x = Vector::new(R(1.0), R(0.0), R(0.0));
    let y = Vector::new(R(0.0), R(1.0), R(0.0));
    let z = Vector::new(R(0.0), R(0.0), R(1.0));

    assert_eq!(x.cross(y), z);
}

#[test]
fn is_close() {
    let x = Vector::new(R(1.0), R(0.0), R(0.0));
    let y = Vector::new(R(1.0000000001), R(0.0), R(0.0));
    assert!(y.is_close(x));

    let x = Vector::new(R(1000000000.0), R(0.0), R(0.0));
    let y = Vector::new(R(1000000000.1), R(0.0), R(0.0));
    assert!(x.is_close(y));

    let x = Vector::new(R(1.0), R(0.0), R(0.0));
    let y = Vector::new(R(1.0001), R(0.0), R(0.0));
    assert!(!x.is_close(y));
}

#[test]
fn rotate() {
    let x = Vector::new(R(1.0), R(0.0), R(0.0));
    let y = Vector::new(R(0.0), R(1.0), R(0.0));
    let z = Vector::new(R(0.0), R(0.0), R(1.0));

    assert!(x.rotated(R(PI / 2f64), z).is_close(y));

    let mut v = x;
    v.rotate(R(PI / 2f64), z);
    assert!(v.is_close(y));
    assert!(!v.is_close(x));
}

#[test]
fn polars() {
    let reference: Vector<R32> = Vector::one().normalized();
    let (theta, phi) = reference.heading3d();
    let v = Vector::from_polar(theta, phi);
    assert!(v.is_close(reference));

    let reference: Vector<R32> = (Vector::one().abscissa() + Vector::one().ordinate()).normalized();
    let angle = reference.heading2d();
    let v = Vector::from_angle(angle);
    assert!(v.is_close(reference));
}

#[test]
fn spec_ops() {
    let v = Vector::new(R(1.0), R(2.0), R(3.0));
    let w = v + R(1.0);
    assert_eq!(w, Vector::new(R(2.0), R(3.0), R(4.0)));

    let w = v - R(1.0);
    assert_eq!(w, Vector::new(R(0.0), R(1.0), R(2.0)));

    let w = v * R(2.0);
    assert_eq!(w, Vector::new(R(2.0), R(4.0), R(6.0)));

    let w = v / R(2.0);
    assert_eq!(w, Vector::new(R(0.5), R(1.0), R(1.5)));
}

#[test]
fn length() {
    let v = Vector::new(R(1.0), R(2.0), R(3.0));
    assert_eq!(v.length(), R(3.7416573867739413));

    let w = v.with_length(R(4.0));
    assert_eq!(w.length(), R(4.0));

    let mut w = v.with_length(R(1.0));
    w *= v.length();
    assert!(w.is_close(v));
}

#[test]
fn sum_of_three_is_componentwise_and_grouping_is_close() {
    let a = vr(0.1, 2.5, -3.0);
    let b = vr(0.2, -1.25, 7.0);
    let c = vr(0.3, 4.0, 0.5);
    let v = a + b + c;
    assert_eq!(v, vr(0.1 + 0.2 + 0.3, 2.5 + -1.25 + 4.0, -3.0 + 7.0 + 0.5));
    assert!((a + b + c).is_close(a + (b + c)));
}

#[test]
fn scalar_product_scales_each_component() {
    let a = vr(1.5, -2.0, 0.25);
    assert_eq!(a * R(4.0), vr(6.0, -8.0, 1.0));
}

#[test]
fn operand_forms_agree() {
    let a = vr(1.5, -2.0, 0.25);
    let b = vr(3.0, 0.5, -7.0);
    let s = R(3.0);
    let mut ma = a;
    let mut mb = b;
    assert_eq!(&mut ma + &mut mb, a + b);
    assert_eq!(&mut ma - &mut mb, a - b);
    assert_eq!(&mut ma * &mut mb, a * b);
    assert_eq!(&mut ma / &mut mb, a / b);
    assert_eq!(&mut ma + s, a + s);
    assert_eq!(&ma - s, a - s);
    assert_eq!(&mut ma * s, &a * s);
    assert_eq!(&mut ma / s, &a / s);
    assert_eq!(-&mut ma, -&a);
    assert_eq!(-&a, -a);
    assert_eq!(ma, a);
    assert_eq!(mb, b);

    let mut c = a;
    c += &b;
    let mut d = a;
    d += &mut mb;
    assert_eq!(c, a + b);
    assert_eq!(d, a + b);
    assert_eq!(mb, b);
    let mut e = a;
    e -= s;
    assert_eq!(e, vr(-1.5, -5.0, -2.75));
    let mut f = a;
    f *= &b;
    assert_eq!(f, a * b);
    let mut g = a;
    g /= s;
    assert_eq!(g, vr(0.5, -2.0 / 3.0, 0.25 / 3.0));
    let mut h = a;
    h += s;
    assert_eq!(h, vr(4.5, 1.0, 3.25));
}

#[test]
fn division_by_zero_scalar_propagates() {
    let v = vr(1.0, 0.0, -1.0) / R(0.0);
    assert_eq!(v.x, R(f64::INFINITY));
    assert!(v.y.0.is_nan());
    assert_eq!(v.z, R(f64::NEG_INFINITY));
}

#[test]
fn basis_orthogonality_and_anticommuting_cross() {
    let x = vr(1.0, 0.0, 0.0);
    let y = vr(0.0, 1.0, 0.0);
    let z = vr(0.0, 0.0, 1.0);
    assert_eq!(y.cross(z), x);
    assert_eq!(z.cross(x), y);
    assert_eq!(y.cross(x), -z);
    let a = vr(1.0, 2.0, 3.0);
    let b = vr(4.0, 5.0, 6.0);
    assert_eq!(a.cross(b), vr(-3.0, 6.0, -3.0));
    assert_eq!(a.cross(b), -(b.cross(a)));
    assert_eq!(a.dot(b), R(32.0));
}

#[test]
fn is_close_tolerance_follows_reference() {
    let small = vr(1.0, 0.0, 0.0);
    assert!(small.is_close(small));
    assert!(!vr(1.0, 0.0, 0.0).is_close(vr(0.0, 0.0, 0.0)));
    assert!(vr(0.0, 0.0, 0.0).is_close(vr(0.0, 0.0, 0.0)));
}

#[test]
fn length_and_distance_values() {
    assert_eq!(vr(3.0, 4.0, 0.0).length(), R(5.0));
    assert_eq!(vr(3.0, 4.0, 0.0).length_squared(), R(25.0));
    assert_eq!(vr(1.0, 1.0, 1.0).distance(vr(4.0, 5.0, 1.0)), R(5.0));
    assert_eq!(vr(1.0, 1.0, 1.0).distance_squared(vr(4.0, 5.0, 1.0)), R(25.0));
}

#[test]
fn unit_copy_scaled_back_is_close() {
    let v = vr(-2.0, 7.5, 0.125);
    let mut w = v.normalized();
    assert!((w.length().0 - 1.0).abs() < 1e-12);
    w *= v.length();
    assert!(w.is_close(v));
}

#[test]
fn set_length_variants() {
    let mut v = vr(3.0, 4.0, 0.0);
    v.set_length(R(10.0));
    assert!(v.is_close(vr(6.0, 8.0, 0.0)));

    let mut v = vr(3.0, 4.0, 0.0);
    v.set_length_squared(R(100.0));
    assert_eq!(v, vr(12.0, 16.0, 0.0));
    assert_eq!(vr(3.0, 4.0, 0.0).with_length_squared(R(100.0)), vr(12.0, 16.0, 0.0));

    let mut v = vr(0.0, 0.0, 2.0);
    v.normalize();
    assert_eq!(v, vr(0.0, 0.0, 1.0));
}

#[test]
fn degenerate_zero_vector_is_kept() {
    let mut v: Vector<R> = Vector::zero();
    v.set_length(R(5.0));
    assert_eq!(v, Vector::zero());
    assert!(!v.x.0.is_nan());
    let mut v: Vector<R> = Vector::zero();
    v.set_length_squared(R(5.0));
    assert_eq!(v, Vector::zero());
    assert_eq!(Vector::<R>::zero().normalized(), Vector::zero());
    assert_eq!(Vector::<R>::zero().with_length(R(3.0)), Vector::zero());
}

#[test]
fn limit_shortens_only_long_vectors() {
    let short = vr(1.0, 2.0, 2.0);
    let mut v = short;
    v.limit(R(10.0));
    assert_eq!(v, short);
    assert_eq!(short.limited(R(3.0)), short);

    let long = vr(0.0, 30.0, 40.0);
    let mut v = long;
    v.limit(R(5.0));
    assert!(v.is_close(vr(0.0, 3.0, 4.0)));
    assert!(long.limited(R(5.0)).is_close(vr(0.0, 3.0, 4.0)));
}

#[test]
fn rotate_and_rotated_agree() {
    let v = vr(0.3, -1.2, 2.0);
    let axis = vr(1.0, 2.0, 2.0).normalized();
    let angle = R(0.7);
    let mut w = v;
    w.rotate(angle, axis);
    assert_eq!(w, v.rotated(angle, axis));
    assert!((w.length().0 - v.length().0).abs() < 1e-12);
}

#[test]
fn rotations_about_basis_axes() {
    let mut v = vr(0.0, 1.0, 0.0);
    v.rotate_x(R(PI / 2.0));
    assert!(v.is_close(vr(0.0, 0.0, 1.0)));

    let mut v = vr(0.0, 0.0, 1.0);
    v.rotate_y(R(PI / 2.0));
    assert!(v.is_close(vr(1.0, 0.0, 0.0)));

    let mut v = vr(1.0, 0.0, 0.0);
    v.rotate_z(R(PI / 2.0));
    assert!(v.is_close(vr(0.0, 1.0, 0.0)));
    assert!(!v.is_close(vr(1.0, 0.0, 0.0)));
}

#[test]
fn polar_round_trip_in_double_precision() {
    let v = vr(0.5, -2.0, 1.5).normalized();
    let (theta, phi) = v.heading3d();
    assert!(Vector::from_polar(theta, phi).is_close(v));
    let p = vr(-3.0, 4.0, 0.0).normalized();
    assert!(Vector::from_angle(p.heading2d()).is_close(p));
}

#[test]
fn headings_and_angles() {
    assert_eq!(vr(0.0, 1.0, 0.0).heading2d(), R(PI / 2.0));
    assert_eq!(vr(0.0, 0.0, 2.0).heading3d(), (R(0.0), R(PI / 2.0)));
    assert!(vr(0.0, 0.0, 0.0).heading3d().1 .0.is_nan());
    assert_eq!(vr(1.0, 0.0, 0.0).angle_between(vr(0.0, 1.0, 0.0)), R(PI / 2.0));
    assert_eq!(vr(1.0, 0.0, 0.0).angle_between(vr(-2.0, 0.0, 0.0)), R(PI));
    assert_eq!(Vector::from_angle(R(0.0)), vr(1.0, 0.0, 0.0));
    assert_eq!(Vector::from_polar(R(0.0), R(0.0)), vr(1.0, 0.0, 0.0));
}

#[test]
fn reflect_and_lerp() {
    let v = vr(1.0, -1.0, 0.0);
    assert_eq!(v.reflect(vr(0.0, 1.0, 0.0)), vr(1.0, 1.0, 0.0));
    let a = vr(1.0, 2.0, 3.0);
    let b = vr(2.0, 3.0, 4.0);
    assert_eq!(a.lerp(b, R(0.5)), vr(1.5, 2.5, 3.5));
    assert_eq!(a.lerp(b, R(2.0)), vr(3.0, 4.0, 5.0));
}

#[test]
fn constructors_and_projections() {
    assert_eq!(Vector::<R>::default(), vr(0.0, 0.0, 0.0));
    assert_eq!(Vector::<R>::zero(), vr(0.0, 0.0, 0.0));
    assert_eq!(Vector::<R>::one(), vr(1.0, 1.0, 1.0));
    let v = vr(10.0, 20.0, 30.0);
    assert_eq!(v.abscissa(), vr(10.0, 0.0, 0.0));
    assert_eq!(v.ordinate(), vr(0.0, 20.0, 0.0));
    assert_eq!(v.applicate(), vr(0.0, 0.0, 30.0));
    let mut w = v;
    w.reset();
    assert_eq!(w, Vector::zero());
}

#[test]
fn conversions_round_trip() {
    let v = vr(1.5, -2.0, 3.25);
    let t: (R, R, R) = v.into();
    assert_eq!(t, (R(1.5), R(-2.0), R(3.25)));
    assert_eq!(Vector::from(t), v);
    let a: [R; 3] = v.into();
    assert_eq!(a, [R(1.5), R(-2.0), R(3.25)]);
    assert_eq!(Vector::from(a), v);
    assert_eq!(Vector::<R>::from_vec(v), v);
    let s = Vector::new(R32(1.5), R32(-2.0), R32(0.1));
    let d: Vector<R> = s.into_vec();
    assert_eq!(d, vr(1.5, -2.0, 0.1f32 as f64));
}
