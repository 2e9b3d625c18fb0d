use box_frame::math::{direction_between, direction_dot, floor_div, floor_sqrt};
use box_frame::ray::{closest_points_on_two_rays, vectors_are_parallel};
use box_frame::{Direction, Ray, RayId, RayMap, Vec3, UNIT};

fn v(x: i32, y: i32, z: i32) -> Vec3 {
    Vec3 { x, y, z }
}

fn d(x: i16, y: i16, z: i16) -> Direction {
    Direction { x, y, z }
}

fn ray(origin: Vec3, direction: Direction) -> Ray {
    Ray { origin, direction }
}

#[test]
fn identical_directions_have_no_closest_points() {
    let r1 = ray(v(0, 0, 0), d(UNIT, 0, 0));
    let r2 = ray(v(5, 1, 0), d(UNIT, 0, 0));
    assert_eq!(closest_points_on_two_rays(&r1, &r2), None);
    let r1 = ray(v(3, -4, 5), d(300, -700, 11));
    let r2 = ray(v(-9, 0, 2), d(300, -700, 11));
    assert_eq!(closest_points_on_two_rays(&r1, &r2), None);
    assert_eq!(closest_points_on_two_rays(&r1, &r1), None);
}

#[test]
fn opposite_and_stretched_directions_have_no_closest_points() {
    let r1 = ray(v(0, 0, 0), d(100, 200, -300));
    let r2 = ray(v(5, 1, 0), d(-100, -200, 300));
    assert_eq!(closest_points_on_two_rays(&r1, &r2), None);
    let r3 = ray(v(5, 1, 0), d(200, 400, -600));
    assert_eq!(closest_points_on_two_rays(&r1, &r3), None);
    let still = ray(v(5, 1, 0), d(0, 0, 0));
    assert_eq!(closest_points_on_two_rays(&r1, &still), None);
    assert_eq!(closest_points_on_two_rays(&still, &r1), None);
}

#[test]
fn perpendicular_rays_through_a_known_offset() {
    let r1 = ray(v(0, 0, 0), d(UNIT, 0, 0));
    let r2 = ray(v(5, 1, 0), d(0, UNIT, 0));
    assert_eq!(closest_points_on_two_rays(&r1, &r2), Some((5, -1)));
    assert_eq!(r1.point_at(5), v(5, 0, 0));
    assert_eq!(r2.point_at(-1), v(5, 0, 0));
}

#[test]
fn skew_rays_come_closest_at_their_offset() {
    // As before, with the second ray lifted by 7: the two lines no longer
    // meet, and the closest points are 7 apart.
    let r1 = ray(v(0, 0, 0), d(UNIT, 0, 0));
    let r2 = ray(v(5, 1, 7), d(0, UNIT, 0));
    let (t1, t2) = closest_points_on_two_rays(&r1, &r2).unwrap();
    assert_eq!((t1, t2), (5, -1));
    let p1 = r1.point_at(t1 as i64);
    let p2 = r2.point_at(t2 as i64);
    assert_eq!(p1, v(5, 0, 0));
    assert_eq!(p2, v(5, 0, 7));
}

#[test]
fn closest_points_swap_with_the_rays() {
    let r1 = ray(v(0, 0, 0), d(UNIT, 0, 0));
    let r2 = ray(v(5, 1, 7), d(0, UNIT, 0));
    assert_eq!(closest_points_on_two_rays(&r2, &r1), Some((-1, 5)));
}

#[test]
fn parameters_scale_with_the_length_of_the_direction() {
    // Directions of length 2 and 3 in place of UNIT: the same points, at
    // parameters UNIT / 2 and UNIT / 3 times as large, rounded down.
    let r1 = ray(v(0, 0, 0), d(2, 0, 0));
    let r2 = ray(v(5, 1, 0), d(0, 3, 0));
    assert_eq!(closest_points_on_two_rays(&r1, &r2), Some((40960, -5462)));
}

#[test]
fn parameters_of_far_origins_fit() {
    let r1 = ray(v(i32::MIN, i32::MIN, i32::MIN), d(1, 0, 0));
    let r2 = ray(v(i32::MAX, i32::MAX, i32::MAX), d(0, 1, 0));
    let far = (u32::MAX as i128) * (UNIT as i128);
    assert_eq!(closest_points_on_two_rays(&r1, &r2), Some((far, -far)));
}

#[test]
fn parallel_test_is_the_vanishing_vector_product() {
    assert!(vectors_are_parallel(d(1, 2, 3), d(2, 4, 6)));
    assert!(vectors_are_parallel(d(1, 2, 3), d(-1, -2, -3)));
    assert!(vectors_are_parallel(d(0, 0, 0), d(7, 8, 9)));
    assert!(!vectors_are_parallel(d(1, 2, 3), d(1, 2, 4)));
    assert!(!vectors_are_parallel(d(UNIT, 0, 0), d(UNIT, 1, 0)));
    assert!(vectors_are_parallel(d(i16::MIN, i16::MIN, i16::MIN), d(i16::MAX, i16::MAX, i16::MAX)));
}

#[test]
fn point_at_walks_along_the_direction() {
    let r = ray(v(1, 2, 3), d(UNIT, 0, -UNIT / 2));
    assert_eq!(r.point_at(0), v(1, 2, 3));
    assert_eq!(r.point_at(10), v(11, 2, -2));
    assert_eq!(r.point_at(-10), v(-9, 2, 8));
}

#[test]
fn point_at_rounds_down_and_stays_in_the_grid() {
    let r = ray(v(0, 0, 0), d(1, -1, 0));
    assert_eq!(r.point_at(5), v(0, -1, 0));
    assert_eq!(r.point_at(-5), v(-1, 0, 0));
    let edge = ray(v(i32::MAX, i32::MIN, 0), d(UNIT, -UNIT, i16::MIN));
    assert_eq!(edge.point_at(10), v(i32::MAX, i32::MIN, -20));
    assert_eq!(edge.point_at(i64::MAX), v(i32::MAX, i32::MIN, i32::MIN));
    assert_eq!(edge.point_at(i64::MIN), v(i32::MIN, i32::MAX, i32::MAX));
}

#[test]
fn ray_map_keeps_the_last_ray_of_an_id() {
    let a = RayId { camera: 1, pointer: 2 };
    let b = RayId { camera: 2, pointer: 1 };
    let mut map = RayMap::new();
    assert_eq!(map.get(a), None);
    map.insert(a, ray(v(1, 1, 1), d(UNIT, 0, 0)));
    assert_eq!(map.get(a), Some(ray(v(1, 1, 1), d(UNIT, 0, 0))));
    assert_eq!(map.get(b), None);
    map.insert(b, ray(v(2, 2, 2), d(0, UNIT, 0)));
    map.insert(a, ray(v(3, 3, 3), d(0, 0, UNIT)));
    assert_eq!(map.get(a), Some(ray(v(3, 3, 3), d(0, 0, UNIT))));
    assert_eq!(map.get(b), Some(ray(v(2, 2, 2), d(0, UNIT, 0))));
}

#[test]
fn floor_div_rounds_toward_negative_infinity() {
    assert_eq!(floor_div(7, 2), 3);
    assert_eq!(floor_div(-7, 2), -4);
    assert_eq!(floor_div(-8, 2), -4);
    assert_eq!(floor_div(0, 5), 0);
    assert_eq!(floor_div(-1, 1_000_000), -1);
    assert_eq!(floor_div(6, 7), 0);
}

#[test]
fn floor_sqrt_is_the_root_rounded_down() {
    assert_eq!(floor_sqrt(0), 0);
    assert_eq!(floor_sqrt(1), 1);
    assert_eq!(floor_sqrt(3), 1);
    assert_eq!(floor_sqrt(4), 2);
    assert_eq!(floor_sqrt(15), 3);
    assert_eq!(floor_sqrt(16), 4);
    assert_eq!(floor_sqrt(1_000_000_000_000), 1_000_000);
    assert_eq!(floor_sqrt(999_999_999_999), 999_999);
    assert_eq!(floor_sqrt(u128::MAX), u64::MAX);
}

#[test]
fn direction_between_points_is_a_unit_vector() {
    assert_eq!(direction_between(v(0, 0, 0), v(3, 4, 0)), Some(d(9830, 13107, 0)));
    assert_eq!(direction_between(v(0, 0, 0), v(-3, 4, 0)), Some(d(-9831, 13107, 0)));
    assert_eq!(direction_between(v(5, 5, 5), v(5, 5, -2)), Some(d(0, 0, -UNIT)));
    assert_eq!(direction_between(v(1, 1, 1), v(2, 2, 2)), Some(d(UNIT, UNIT, UNIT)));
    assert_eq!(
        direction_between(v(i32::MIN, 0, 0), v(i32::MAX, 0, 0)),
        Some(d(UNIT, 0, 0))
    );
    assert_eq!(
        direction_between(v(i32::MAX, i32::MAX, i32::MAX), v(i32::MIN, i32::MIN, i32::MIN)),
        Some(d(-9460, -9460, -9460))
    );
}

#[test]
fn direction_between_a_point_and_itself_is_none() {
    assert_eq!(direction_between(v(7, -7, 7), v(7, -7, 7)), None);
}

#[test]
fn direction_dot_is_the_scalar_product() {
    assert_eq!(direction_dot(d(1, 2, 3), d(4, -5, 6)), 12);
    assert_eq!(direction_dot(d(UNIT, 0, 0), d(UNIT, 0, 0)), 268_435_456);
    assert_eq!(
        direction_dot(d(i16::MIN, i16::MIN, i16::MIN), d(i16::MIN, i16::MIN, i16::MIN)),
        3 * 1_073_741_824
    );
}
