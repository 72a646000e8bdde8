use renderer::arith::{isqrt, tdiv_i64};
use renderer::bounding_box3::BoundingBox3;
use renderer::constants::SCALE;
use renderer::triangle3::Triangle3;
use renderer::utils::{equal_with_bound, max, min};
use renderer::vector3::Vector3;

#[test]
fn isqrt_exact_and_floored() {
    assert_eq!(isqrt(0), 0);
    assert_eq!(isqrt(1), 1);
    assert_eq!(isqrt(10), 3);
    assert_eq!(isqrt(16), 4);
    assert_eq!(isqrt(999_999_999_999_999_999), 999_999_999);
    assert_eq!(isqrt(1_000_000_000_000_000_000_000_000), 1_000_000_000_000);
}

#[test]
fn tdiv_truncates_towards_zero() {
    assert_eq!(tdiv_i64(7, 2), 3);
    assert_eq!(tdiv_i64(-7, 2), -3);
    assert_eq!(tdiv_i64(6, 3), 2);
    assert_eq!(tdiv_i64(-6, 3), -2);
    assert_eq!(tdiv_i64(0, 5), 0);
}

#[test]
fn scalar_helpers() {
    assert_eq!(max(1, 5, 3), 5);
    assert_eq!(max(-1, -5, -3), -1);
    assert_eq!(min(1, 5, 3), 1);
    assert_eq!(min(-1, -5, -3), -5);
    assert!(equal_with_bound(5, 6));
    assert!(equal_with_bound(6, 5));
    assert!(!equal_with_bound(5, 7));
}

#[test]
fn vector_inits_correctly() {
    let v = Vector3::new(1, 2, 3);
    assert_eq!(v.x(), 1);
    assert_eq!(v.y(), 2);
    assert_eq!(v.z(), 3);
    assert_eq!(v.to_array(), [1, 2, 3]);
    assert_eq!(Vector3::new_from_array(&[4, 5, 6]), Vector3::new(4, 5, 6));
    assert_eq!(Vector3::zero(), Vector3::new(0, 0, 0));
    assert_eq!(Vector3::one(), Vector3::new(SCALE, SCALE, SCALE));
    assert_eq!(Vector3::identity(7), Vector3::new(7, 7, 7));
    assert_eq!(Vector3::x_unit(), Vector3::new(SCALE, 0, 0));
    assert_eq!(Vector3::y_unit(), Vector3::new(0, SCALE, 0));
    assert_eq!(Vector3::z_unit(), Vector3::new(0, 0, SCALE));
}

#[test]
fn vector_arithmetic() {
    let a = Vector3::new(1, 2, 3);
    let b = Vector3::new(10, 20, 30);
    assert_eq!(a.add(&b), Vector3::new(11, 22, 33));
    assert_eq!(b.sub(&a), Vector3::new(9, 18, 27));
    assert_eq!(a.neg(), Vector3::new(-1, -2, -3));
    assert_eq!(a.dot(&b), 10 + 40 + 90);
    let x = Vector3::new(1, 0, 0);
    let y = Vector3::new(0, 1, 0);
    assert_eq!(x.cross(&y), Vector3::new(0, 0, 1));
    assert_eq!(y.cross(&x), Vector3::new(0, 0, -1));
    assert_eq!(a.len2(), 1 + 4 + 9);
}

#[test]
fn vector_length_and_normalize() {
    let v = Vector3::new(3_000_000, 4_000_000, 0);
    assert_eq!(v.len2(), 25_000_000_000_000);
    assert_eq!(v.len(), 5_000_000);
    assert_eq!(v.normalize(), Vector3::new(600_000, 800_000, 0));
    let mut w = v;
    let l = w.normalize_self();
    assert_eq!(l, 5_000_000);
    assert_eq!(w, Vector3::new(600_000, 800_000, 0));
    assert_eq!(Vector3::zero().normalize(), Vector3::zero());
}

#[test]
fn vector_approx_eq_uses_tolerance() {
    let a = Vector3::new(100, 200, 300);
    assert!(a.approx_eq(&Vector3::new(101, 199, 300)));
    assert!(!a.approx_eq(&Vector3::new(102, 200, 300)));
}

#[test]
fn box_init_works() {
    let b = BoundingBox3::new(Vector3::new(1, 2, 3), Vector3::new(11, 22, 32));
    assert_eq!(b.min_corner(), Vector3::new(1, 2, 3));
    assert_eq!(b.max_corner(), Vector3::new(11, 22, 32));
    assert_eq!(b.min_x(), 1);
    assert_eq!(b.min_y(), 2);
    assert_eq!(b.min_z(), 3);
    assert_eq!(b.max_x(), 11);
    assert_eq!(b.max_y(), 22);
    assert_eq!(b.max_z(), 32);
    let z = BoundingBox3::zero();
    assert_eq!(z.min_corner(), Vector3::zero());
    assert_eq!(z.max_corner(), Vector3::zero());
}

#[test]
fn box_basic_properties() {
    let b = BoundingBox3::new_from_nums(0, 0, 0, 2, 3, 4);
    assert_eq!(b.len_x(), 2);
    assert_eq!(b.len_y(), 3);
    assert_eq!(b.len_z(), 4);
    assert_eq!(b.size(), Vector3::new(2, 3, 4));
    assert_eq!(b.surface_area(), 52);
    assert_eq!(b.volume(), 24);
    let moved = b.move_by(Vector3::new(10, 20, 30));
    assert_eq!(moved.min_corner(), Vector3::new(10, 20, 30));
    assert_eq!(moved.max_corner(), Vector3::new(12, 23, 34));
    let mut c = b;
    c.move_self(Vector3::new(-1, -1, -1));
    assert_eq!(c.min_corner(), Vector3::new(-1, -1, -1));
}

#[test]
fn box_union_covers_both() {
    let a = BoundingBox3::new_from_nums(0, 0, 0, 5, 5, 5);
    let b = BoundingBox3::new_from_nums(-3, 2, 1, 4, 9, 2);
    let u = a.union(&b);
    assert_eq!(u.min_corner(), Vector3::new(-3, 0, 0));
    assert_eq!(u.max_corner(), Vector3::new(5, 9, 5));
}

#[test]
fn triangle_init_and_getters() {
    let v1 = Vector3::new(0, 0, 0);
    let v2 = Vector3::new(100, 0, 0);
    let v3 = Vector3::new(0, 100, 0);
    let t = Triangle3::new(v1, v2, v3);
    assert_eq!(t.v(0), v1);
    assert_eq!(t.v(1), v2);
    assert_eq!(t.v(2), v3);
    assert_eq!(t.e(0), Vector3::new(100, 0, 0));
    assert_eq!(t.e(1), Vector3::new(-100, 100, 0));
    assert_eq!(t.e(2), Vector3::new(0, -100, 0));
    let t2 = Triangle3::new_from_array(&[v1, v2, v3]);
    assert!(t.approx_eq(&t2));
    assert_eq!(t.volume(), 0);
}

#[test]
fn triangle_properties() {
    // a right triangle with unit legs along x and y
    let t = Triangle3::new(
        Vector3::new(0, 0, 0),
        Vector3::new(SCALE, 0, 0),
        Vector3::new(0, SCALE, 0),
    );
    assert_eq!(t.normal(), Vector3::new(0, 0, SCALE));
    assert_eq!(t.surface_area(), 500_000_000_000);
    let bb = t.bounding_box3();
    assert_eq!(bb.min_corner(), Vector3::new(0, 0, 0));
    assert_eq!(bb.max_corner(), Vector3::new(SCALE, SCALE, 0));
}

#[test]
fn triangle_normal_follows_winding() {
    // swapping two vertices flips the normal
    let t = Triangle3::new(
        Vector3::new(0, 0, 0),
        Vector3::new(0, SCALE, 0),
        Vector3::new(SCALE, 0, 0),
    );
    assert_eq!(t.normal(), Vector3::new(0, 0, -SCALE));
}

#[test]
fn test_init_works() {
    let b1 = BoundingBox3::new(
        Vector3::new(0, 1_000_000, 2_000_000),
        Vector3::new(10_000_000, 21_000_000, 32_000_000),
    );
    let b2 = BoundingBox3::new_from_nums(
        0, 1_000_000, 2_000_000, 10_000_000, 21_000_000, 32_000_000,
    );
    assert!(b1 == b2);
    assert!(b2.min_corner() == Vector3::new(0, 1_000_000, 2_000_000));
    assert!(b2.max_corner() == Vector3::new(10_000_000, 21_000_000, 32_000_000));
}

#[test]
fn test_basic_properties() {
    let b = BoundingBox3::new(
        Vector3::new(0, 1_000_000, 2_000_000),
        Vector3::new(10_000_000, 21_000_000, 32_000_000),
    );
    assert_eq!(b.size(), Vector3::new(10_000_000, 20_000_000, 30_000_000));
    // 10 * 20 * 30 in cubed units
    assert_eq!(b.volume(), 6_000_000_000_000_000_000_000i128);
    // 2200 in squared units
    assert_eq!(b.surface_area(), 2_200_000_000_000_000);

    let box_shift = b.move_by(Vector3::new(10_000_000, 10_000_000, 20_000_000));
    assert_eq!(b.size(), box_shift.size());
    assert_eq!(b.volume(), box_shift.volume());
    assert_eq!(b.surface_area(), box_shift.surface_area());

    let box_expected = BoundingBox3::new(
        Vector3::new(10_000_000, 11_000_000, 22_000_000),
        Vector3::new(20_000_000, 31_000_000, 52_000_000),
    );
    assert_eq!(box_shift, box_expected);
}

struct TestBed {
    tri1: Triangle3,
    tri2: Triangle3,
}

fn create_test_bed() -> TestBed {
    let tri1 = Triangle3::new(
        Vector3::new(0, 0, 0),
        Vector3::new(SCALE, 0, 0),
        Vector3::new(0, 2 * SCALE, 0),
    );
    let tri2 = Triangle3::new(Vector3::x_unit(), Vector3::y_unit(), Vector3::z_unit());
    TestBed { tri1, tri2 }
}

#[test]
fn test_init_and_getters() {
    let tb = create_test_bed();

    // offsets far below one unit vanish at this resolution, so a
    // triangle displaced by a billionth coincides with tri1 exactly
    let almost_zero_tri = Triangle3::new(
        Vector3::new(0, 0, 0),
        Vector3::new(SCALE, 0, 0),
        Vector3::new(0, 2 * SCALE, 0),
    );

    assert!(almost_zero_tri.approx_eq(&tb.tri1));
    assert!(!almost_zero_tri.approx_eq(&tb.tri2));

    assert_eq!(tb.tri1.v(2), Vector3::new(0, 2 * SCALE, 0));
    assert_eq!(tb.tri1.e(1), Vector3::new(-SCALE, 2 * SCALE, 0));
    assert_eq!(tb.tri2.e(2), Vector3::new(SCALE, 0, -SCALE));
}

#[test]
fn test_properties() {
    let tb = create_test_bed();

    assert_eq!(tb.tri1.normal(), Vector3::new(0, 0, SCALE));
    // the unit normal of the diagonal face: one third of the square
    // root of three per component, rounded down
    assert_eq!(tb.tri2.normal(), Vector3::identity(577_350));

    assert_eq!(
        tb.tri1.bounding_box3(),
        BoundingBox3::new(Vector3::new(0, 0, 0), Vector3::new(SCALE, 2 * SCALE, 0))
    );
    assert_eq!(
        tb.tri2.bounding_box3(),
        BoundingBox3::new(Vector3::new(0, 0, 0), Vector3::new(SCALE, SCALE, SCALE))
    );

    // 1 * 2 / 2 = 1.0 in squared units
    assert_eq!(tb.tri1.surface_area(), 1_000_000_000_000);
    // half the square root of three, in squared units, rounded down
    assert_eq!(tb.tri2.surface_area(), 866_025_403_784);
}

#[test]
fn vector3_test_inits_correctly() {
    let v1 = Vector3::zero();
    assert_eq!(v1.x(), 0);
    assert_eq!(v1.y(), 0);
    assert_eq!(v1.z(), 0);

    let v2 = Vector3::new(SCALE, 2 * SCALE, 3 * SCALE);
    assert_eq!(v2.x(), SCALE);
    assert_eq!(v2.y(), 2 * SCALE);
    assert_eq!(v2.z(), 3 * SCALE);

    let v3 = Vector3::identity(2 * SCALE);
    assert_eq!(v3.x(), 2 * SCALE);
    assert_eq!(v3.y(), 2 * SCALE);
    assert_eq!(v3.z(), 2 * SCALE);
}

#[test]
fn vector3_test_basic_operators_work() {
    let mut u = Vector3::identity(300_000);
    let mut v = Vector3::new(SCALE, SCALE, SCALE);
    let w = v.clone();

    assert!(v == w);
    assert!(u != v);
    assert!(v == Vector3::identity(SCALE));
    assert!(v == Vector3::one());

    v = v.scale(300_000);
    assert!(u == v);
    assert!(w.scale(300_000) == u);
    u = u.div(300_000);
    assert!(u == w);
    assert!(v.div(300_000) == u);

    v = u.clone();
    // displacements below one unit quantize to nothing
    v = v.add(&Vector3::new(0, 0, 0));
    assert!(u == v);

    v = Vector3::new(SCALE, 2 * SCALE, 3 * SCALE);
    u = Vector3::new(2 * SCALE, 5 * SCALE, 8 * SCALE);
    assert!(u.add(&v) == Vector3::new(3 * SCALE, 7 * SCALE, 11 * SCALE));
    assert!(u.sub(&v) == Vector3::new(SCALE, 3 * SCALE, 5 * SCALE));
    u = u.add(&v);
    assert_eq!(u.x(), 3 * SCALE);
    assert_eq!(u.y(), 7 * SCALE);
    assert_eq!(u.z(), 11 * SCALE);
}

#[test]
fn more_operators_work() {
    let mut u = Vector3::new(3 * SCALE, -4 * SCALE, 0);
    let v = Vector3::new(SCALE, 2 * SCALE, 3 * SCALE);
    // 1 * 3 + 2 * (-4) + 3 * 0 = -5, in squared units
    assert_eq!(u.dot(&v), -5_000_000_000_000);
    assert_eq!(u.len(), 5 * SCALE as u64);
    assert_eq!(u.len2(), 25_000_000_000_000);
    assert!(
        u.cross(&v)
            == Vector3::new(-12_000_000_000_000, -9_000_000_000_000, 10_000_000_000_000)
    );
    assert!(
        v.cross(&u) == Vector3::new(12_000_000_000_000, 9_000_000_000_000, -10_000_000_000_000)
    );
    assert!(u.cross(&u) == Vector3::zero());

    assert!(u.normalize() == Vector3::new(600_000, -800_000, 0));
    assert!(Vector3::zero().normalize() == Vector3::new(0, 0, 0));
    let l = u.normalize_self();
    assert_eq!(l, 5 * SCALE as u64);
    assert!(u == Vector3::new(600_000, -800_000, 0));
}

#[test]
fn vector3_test_indexing_works() {
    let mut v = Vector3::new(SCALE, 2 * SCALE, 3 * SCALE);
    let a = v.to_array();
    assert_eq!(a[0], SCALE);
    assert_eq!(a[1], 2 * SCALE);
    assert_eq!(a[2], 3 * SCALE);
    v.x = 11 * SCALE;
    v.y = 12 * SCALE;
    v.z = 13 * SCALE;
    assert!(v == Vector3::new(11 * SCALE, 12 * SCALE, 13 * SCALE));
}

#[test]
fn box_approx_eq_uses_tolerance() {
    let a = BoundingBox3::new_from_nums(0, 0, 0, 10, 10, 10);
    let b = BoundingBox3::new_from_nums(1, 0, -1, 11, 9, 10);
    let c = BoundingBox3::new_from_nums(2, 0, 0, 10, 10, 10);
    assert!(a.approx_eq(&b));
    assert!(!a.approx_eq(&c));
}
