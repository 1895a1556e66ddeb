use bevy_pieces::primitives::{
    closest_on_segment, largest_side_choice, ClosestOnSegment, InvalidDirectionError,
    TriangleSide, BoxedPolyline3d, Cuboid, Dir3, InfinitePlane3d, Plane3d, Polyline3d, RadiusOrder, Segment3d,
    Tetrahedron, TorusKind, Triangle3d,
};
use glam::{Quat, Vec2, Vec3};

#[test]
fn cuboid_closest_point() {
    // A cuboid with full lengths 2.0 in each direction.
    let cuboid = Cuboid { half_size: Vec3::splat(1.0) };
    assert_eq!(cuboid.closest_point(Vec3::X * 10.0), Vec3::X);
    assert_eq!(cuboid.closest_point(Vec3::NEG_ONE * 10.0), Vec3::NEG_ONE);
    assert_eq!(
        cuboid.closest_point(Vec3::new(0.25, 0.1, 0.3)),
        Vec3::new(0.25, 0.1, 0.3)
    );
}

#[test]
fn cuboid_size_is_twice_the_half_size() {
    let cuboid = Cuboid { half_size: Vec3::new(1.5, 3.5, 1.0) };
    assert_eq!(cuboid.size(), Vec3::new(3.0, 7.0, 2.0));
}

#[test]
fn cuboid_closest_point_clamps_each_axis() {
    let cuboid = Cuboid { half_size: Vec3::new(1.0, 2.0, 3.0) };
    assert_eq!(
        cuboid.closest_point(Vec3::new(-5.0, 1.0, 9.0)),
        Vec3::new(-1.0, 1.0, 3.0)
    );
}

#[test]
fn segment_default_endpoints() {
    let s = Segment3d::default();
    assert_eq!(s.point1(), Vec3::ZERO);
    assert_eq!(s.point2(), Vec3::X);
}

#[test]
fn segment_accessors_and_arithmetic() {
    let s = Segment3d::new(Vec3::new(1.0, 2.0, 3.0), Vec3::new(3.0, 6.0, -1.0));
    assert_eq!(s.point1(), Vec3::new(1.0, 2.0, 3.0));
    assert_eq!(s.point2(), Vec3::new(3.0, 6.0, -1.0));
    assert_eq!(s.center(), Vec3::new(2.0, 4.0, 1.0));
    assert_eq!(s.scaled_direction(), Vec3::new(2.0, 4.0, -4.0));
    let t = s.translated(Vec3::new(1.0, 1.0, 1.0));
    assert_eq!(t.vertices, [Vec3::new(2.0, 3.0, 4.0), Vec3::new(4.0, 7.0, 0.0)]);
    let c = s.centered();
    assert_eq!(c.vertices, [Vec3::new(-1.0, -2.0, 2.0), Vec3::new(1.0, 2.0, -2.0)]);
}

#[test]
fn segment_reverse_twice_is_identity() {
    let s = Segment3d::new(Vec3::X, Vec3::Y);
    let r = s.reversed();
    assert_eq!(r.vertices, [Vec3::Y, Vec3::X]);
    assert_eq!(r.reversed(), s);
    let mut m = s;
    m.reverse();
    assert_eq!(m, r);
}

#[test]
fn triangle_reverse_swaps_first_and_last() {
    let a = Vec3::new(0.0, 0.5, 0.0);
    let b = Vec3::new(-0.5, -0.5, 0.0);
    let c = Vec3::new(0.5, -0.5, 0.0);
    let mut t = Triangle3d::new(a, b, c);
    t.reverse();
    assert_eq!(t, Triangle3d::new(c, b, a));
    assert_eq!(t.reversed(), Triangle3d::new(a, b, c));
}

#[test]
fn tetrahedron_faces_leave_out_one_vertex_each() {
    let [a, b, c, d] = [Vec3::X, Vec3::Y, Vec3::Z, Vec3::ONE];
    let t = Tetrahedron::new(a, b, c, d);
    let faces = t.faces();
    assert_eq!(faces[0], Triangle3d::new(b, c, d));
    assert_eq!(faces[1], Triangle3d::new(d, c, a));
    assert_eq!(faces[2], Triangle3d::new(a, b, d));
    assert_eq!(faces[3], Triangle3d::new(c, b, a));
}

#[test]
fn polyline_pads_with_origin_and_truncates() {
    let short: Polyline3d<3> = Polyline3d::new(vec![Vec3::X]);
    assert_eq!(short.vertices, [Vec3::X, Vec3::ZERO, Vec3::ZERO]);
    let long: Polyline3d<2> = Polyline3d::new(vec![Vec3::X, Vec3::Y, Vec3::Z]);
    assert_eq!(long.vertices, [Vec3::X, Vec3::Y]);
}

#[test]
fn boxed_polyline_keeps_all_vertices() {
    let p = BoxedPolyline3d::new(vec![Vec3::X, Vec3::Y, Vec3::Z]);
    assert_eq!(&*p.vertices, &[Vec3::X, Vec3::Y, Vec3::Z]);
}

#[test]
fn planes_keep_their_normal() {
    let n = Dir3::new_unchecked(Vec3::NEG_Y);
    let plane = Plane3d::new(n, Vec2::new(0.5, 0.5));
    assert_eq!(plane.normal.as_vec3(), Vec3::NEG_Y);
    assert_eq!(plane.half_size, Vec2::new(0.5, 0.5));
    assert_eq!(InfinitePlane3d::new(n).normal, n);
    assert_eq!(InfinitePlane3d::default().normal.as_vec3(), Vec3::Y);
}

#[test]
fn torus_kinds() {
    assert_eq!(TorusKind::classify(true, RadiusOrder::MajorLarger), TorusKind::Ring);
    assert_eq!(TorusKind::classify(true, RadiusOrder::Equal), TorusKind::Horn);
    assert_eq!(TorusKind::classify(true, RadiusOrder::MajorSmaller), TorusKind::Spindle);
    assert_eq!(TorusKind::classify(false, RadiusOrder::MajorLarger), TorusKind::Invalid);
}

#[test]
fn segment_rotations() {
    let quarter = Quat::from_rotation_z(core::f32::consts::FRAC_PI_2);
    let s = Segment3d::new(Vec3::X, Vec3::new(2.0, 0.0, 0.0));
    let r = s.rotated(quarter);
    assert!(r.point1().abs_diff_eq(Vec3::Y, 1e-6));
    assert!(r.point2().abs_diff_eq(Vec3::new(0.0, 2.0, 0.0), 1e-6));
    let around = s.rotated_around(quarter, Vec3::X);
    assert!(around.point1().abs_diff_eq(Vec3::X, 1e-6));
    assert!(around.point2().abs_diff_eq(Vec3::new(1.0, 1.0, 0.0), 1e-6));
    let centered = s.rotated_around_center(quarter);
    assert!(centered.point1().abs_diff_eq(Vec3::new(1.5, -0.5, 0.0), 1e-6));
    assert!(centered.point2().abs_diff_eq(Vec3::new(1.5, 0.5, 0.0), 1e-6));
}

#[test]
fn segments_from_pairs_and_arrays() {
    let a = Segment3d::from([Vec3::X, Vec3::Z]);
    let b = Segment3d::from((Vec3::X, Vec3::Z));
    assert_eq!(a, b);
    assert_eq!(a.point1(), Vec3::X);
    assert_eq!(a.point2(), Vec3::Z);
}

fn largest_side(t: &Triangle3d) -> (Vec3, Vec3) {
    let [a, b, c] = t.vertices;
    let ab = (b - a).length();
    let bc = (c - b).length();
    let ca = (a - c).length();
    t.side_points(largest_side_choice(bc > ab, ca > ab, ca > bc))
}

#[test]
fn largest_side_ties_go_to_the_earlier_side() {
    let default_triangle = Triangle3d::new(
        Vec3::new(0.0, 0.5, 0.0),
        Vec3::new(-0.5, -0.5, 0.0),
        Vec3::new(0.5, -0.5, 0.0),
    );
    assert_eq!(
        largest_side(&default_triangle),
        (Vec3::new(0.0, 0.5, 0.0), Vec3::new(-0.5, -0.5, 0.0))
    );
    let zero = Triangle3d::new(Vec3::ZERO, Vec3::ZERO, Vec3::ZERO);
    assert_eq!(largest_side(&zero), (Vec3::ZERO, Vec3::ZERO));
    let dup = Triangle3d::new(Vec3::ZERO, Vec3::X, Vec3::X);
    assert_eq!(largest_side(&dup), (Vec3::ZERO, Vec3::X));
    let collinear = Triangle3d::new(Vec3::NEG_X, Vec3::ZERO, Vec3::X);
    assert_eq!(largest_side(&collinear), (Vec3::NEG_X, Vec3::X));
}

#[test]
fn largest_side_choices() {
    assert_eq!(largest_side_choice(false, false, false), TriangleSide::AB);
    assert_eq!(largest_side_choice(true, false, false), TriangleSide::BC);
    assert_eq!(largest_side_choice(true, true, true), TriangleSide::CA);
    assert_eq!(largest_side_choice(false, true, false), TriangleSide::CA);
    assert_eq!(largest_side_choice(true, true, false), TriangleSide::BC);
    let t = Triangle3d::new(Vec3::X, Vec3::Y, Vec3::Z);
    assert_eq!(t.side_points(TriangleSide::AB), (Vec3::X, Vec3::Y));
    assert_eq!(t.side_points(TriangleSide::BC), (Vec3::Y, Vec3::Z));
    assert_eq!(t.side_points(TriangleSide::CA), (Vec3::X, Vec3::Z));
}

#[test]
fn closest_on_segment_choices() {
    assert_eq!(closest_on_segment(true, true), ClosestOnSegment::Start);
    assert_eq!(closest_on_segment(false, true), ClosestOnSegment::End);
    assert_eq!(closest_on_segment(false, false), ClosestOnSegment::Interior);
}

#[test]
fn direction_error_kinds() {
    assert_eq!(InvalidDirectionError::from_length_class(true, false), InvalidDirectionError::NaN);
    assert_eq!(InvalidDirectionError::from_length_class(false, false), InvalidDirectionError::Infinite);
    assert_eq!(InvalidDirectionError::from_length_class(false, true), InvalidDirectionError::Zero);
}
