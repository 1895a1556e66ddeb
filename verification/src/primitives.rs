//! Three-dimensional primitives whose coordinates are `glam` vectors.
//!
//! The coordinates are single-precision floats inside `glam` values. This module never
//! looks at them: it places, swaps and hands vectors to `glam`, whose results it names.
use vstd::prelude::*;

use glam::{BVec3, Quat, Vec2, Vec3};

verus! {

#[verifier::external_type_specification]
#[verifier::external_body]
pub struct ExVec3(glam::Vec3);

#[verifier::external_type_specification]
#[verifier::external_body]
pub struct ExVec2(glam::Vec2);

#[verifier::external_type_specification]
#[verifier::external_body]
pub struct ExQuat(glam::Quat);

/// `r` is a result `glam` may give for `q * v`, the vector `v` rotated by the quaternion
/// `q`. It is a relation: a `NaN` result may differ from call to call in its sign and
/// payload bits.
pub uninterp spec fn vec3_rotated(q: Quat, v: Vec3, r: Vec3) -> bool;

/// The vector `glam` builds from three flags, each coordinate being one for `true` and
/// zero for `false`.
pub uninterp spec fn vec3_from_flags(x: bool, y: bool, z: bool) -> Vec3;

/// `r` is a result `glam` may give for the component-wise sum `a + b`. It is a relation:
/// a `NaN` component may differ from call to call in its sign and payload bits.
pub uninterp spec fn vec3_sum(a: Vec3, b: Vec3, r: Vec3) -> bool;

/// `r` is a result `glam` may give for the component-wise difference `a - b`. It is a
/// relation: a `NaN` component may differ from call to call in its sign and payload bits.
pub uninterp spec fn vec3_difference(a: Vec3, b: Vec3, r: Vec3) -> bool;

/// The negation `-a` that `glam` computes.
pub uninterp spec fn vec3_negation(a: Vec3) -> Vec3;

/// `r` is a result `glam` may give for the midpoint of `a` and `b`. It is a relation: a
/// `NaN` component may differ from call to call in its sign and payload bits.
pub uninterp spec fn vec3_midpoint(a: Vec3, b: Vec3, r: Vec3) -> bool;

/// The vector `v` with each component clamped between those of `lo` and `hi`, as `glam`
/// computes it.
pub uninterp spec fn vec3_clamped(v: Vec3, lo: Vec3, hi: Vec3) -> Vec3;

/// The origin `(0, 0, 0)`.
pub open spec fn origin3() -> Vec3 {
    vec3_from_flags(false, false, false)
}

/// The unit vector along the x axis, `(1, 0, 0)`.
pub open spec fn unit_x3() -> Vec3 {
    vec3_from_flags(true, false, false)
}

/// `<glam::Vec3 as From<glam::BVec3>>::from`: claims the result is `vec3_from_flags` of
/// the three flags.
#[verifier::external_body]
fn flags_to_vec3(x: bool, y: bool, z: bool) -> (r: Vec3)
    ensures
        r == vec3_from_flags(x, y, z),
{
    Vec3::from(BVec3::new(x, y, z))
}

/// `<glam::Vec3 as Add>::add`: claims the result is one that `vec3_sum` relates to the
/// operands.
#[verifier::external_body]
fn add3(a: Vec3, b: Vec3) -> (r: Vec3)
    ensures
        vec3_sum(a, b, r),
{
    a + b
}

/// `<glam::Vec3 as Sub>::sub`: claims the result is one that `vec3_difference` relates to
/// the operands.
#[verifier::external_body]
fn sub3(a: Vec3, b: Vec3) -> (r: Vec3)
    ensures
        vec3_difference(a, b, r),
{
    a - b
}

/// `<glam::Vec3 as Neg>::neg`: claims the result is `vec3_negation(a)`.
#[verifier::external_body]
fn neg3(a: Vec3) -> (r: Vec3)
    ensures
        r == vec3_negation(a),
{
    -a
}

/// `<glam::Quat as Mul<glam::Vec3>>::mul`: claims the result is one that `vec3_rotated`
/// relates to the operands.
#[verifier::external_body]
fn rotate3(q: Quat, v: Vec3) -> (r: Vec3)
    ensures
        vec3_rotated(q, v, r),
{
    q * v
}

/// `glam::Vec3::midpoint`: claims the result is one that `vec3_midpoint` relates to the
/// operands.
#[verifier::external_body]
fn midpoint3(a: Vec3, b: Vec3) -> (r: Vec3)
    ensures
        vec3_midpoint(a, b, r),
{
    a.midpoint(b)
}

/// `glam::Vec3::clamp`: claims the result is `vec3_clamped(v, lo, hi)`. Without glam's
/// assertion features the call does not check `lo <= hi`, so it never panics.
#[verifier::external_body]
fn clamp3(v: Vec3, lo: Vec3, hi: Vec3) -> (r: Vec3)
    ensures
        r == vec3_clamped(v, lo, hi),
{
    v.clamp(lo, hi)
}

/// A normalized vector pointing in a direction in 3D space.
#[derive(Clone, Copy, Debug, PartialEq)]
pub struct Dir3(Vec3);

impl Dir3 {
    /// The vector this direction wraps.
    pub closed spec fn spec_vec(self) -> Vec3 {
        self.0
    }

    /// Wraps `value` as a direction without checking that it has unit length; the caller
    /// vouches for that.
    pub fn new_unchecked(value: Vec3) -> (r: Dir3)
        ensures
            r.spec_vec() == value,
    {
        Dir3(value)
    }

    /// The vector this direction wraps.
    pub fn as_vec3(&self) -> (r: Vec3)
        ensures
            r == self.spec_vec(),
    {
        self.0
    }
}

/// A bounded plane in 3D space. It forms a surface starting from the origin with a
/// defined height and width.
#[derive(Clone, Copy, Debug, PartialEq)]
pub struct Plane3d {
    /// The normal of the plane. The plane will be placed perpendicular to this direction
    pub normal: Dir3,
    /// Half of the width and height of the plane
    pub half_size: Vec2,
}

impl Plane3d {
    /// Create a new `Plane3d` from a normal direction and a half size.
    pub fn new(normal: Dir3, half_size: Vec2) -> (r: Self)
        ensures
            r.normal == normal,
            r.half_size == half_size,
    {
        Plane3d { normal, half_size }
    }
}

/// An unbounded plane in 3D space. It forms a separating surface through the origin,
/// stretching infinitely far
#[derive(Clone, Copy, Debug, PartialEq)]
pub struct InfinitePlane3d {
    /// The normal of the plane. The plane will be placed perpendicular to this direction
    pub normal: Dir3,
}

impl Default for InfinitePlane3d {
    /// Returns the default [`InfinitePlane3d`] with a normal pointing in the `+Y` direction.
    fn default() -> (r: Self)
        ensures
            r.normal.spec_vec() == vec3_from_flags(false, true, false),
    {
        InfinitePlane3d { normal: Dir3::new_unchecked(flags_to_vec3(false, true, false)) }
    }
}

impl InfinitePlane3d {
    /// Create a new `InfinitePlane3d` from a normal direction.
    pub fn new(normal: Dir3) -> (r: Self)
        ensures
            r.normal == normal,
    {
        InfinitePlane3d { normal }
    }
}

/// An infinite line going through the origin along a direction in 3D space.
#[derive(Clone, Copy, Debug, PartialEq)]
pub struct Line3d {
    /// The direction of the line
    pub direction: Dir3,
}

/// A line segment defined by two endpoints in 3D space.
#[derive(Clone, Copy, Debug, PartialEq)]
pub struct Segment3d {
    /// The endpoints of the line segment.
    pub vertices: [Vec3; 2],
}

/// `r` is `s` with its endpoints swapped.
pub open spec fn segment_reversal_of(r: Segment3d, s: Segment3d) -> bool {
    &&& r.vertices[0] == s.vertices[1]
    &&& r.vertices[1] == s.vertices[0]
}

/// Reversing a segment twice gives the segment back.
pub proof fn lemma_segment_reversal_involutive(s: Segment3d, r: Segment3d, rr: Segment3d)
    requires
        segment_reversal_of(r, s),
        segment_reversal_of(rr, r),
    ensures
        rr == s,
{
    assert(rr.vertices =~= s.vertices);
}

/// `r` is a result `glam` may give for `v` rotated by `q` around `point`: `v` moved by the
/// negated point, rotated, and moved back by the point.
pub open spec fn rotated_around_by(q: Quat, point: Vec3, v: Vec3, r: Vec3) -> bool {
    exists|moved: Vec3, turned: Vec3|
        #![trigger vec3_sum(v, vec3_negation(point), moved), vec3_rotated(q, moved, turned)]
        vec3_sum(v, vec3_negation(point), moved) && vec3_rotated(q, moved, turned) && vec3_sum(
            turned,
            point,
            r,
        )
}

impl Default for Segment3d {
    /// Returns the default [`Segment3d`] with endpoints at `(0.0, 0.0, 0.0)` and
    /// `(1.0, 0.0, 0.0)`.
    fn default() -> (r: Self)
        ensures
            r.vertices[0] == origin3(),
            r.vertices[1] == unit_x3(),
    {
        Segment3d::new(flags_to_vec3(false, false, false), flags_to_vec3(true, false, false))
    }
}

/// Which point of a segment is closest to a given point.
#[derive(Clone, Copy, Debug, PartialEq, Eq, Structural)]
pub enum ClosestOnSegment {
    /// The first endpoint: the point projects onto the segment's line at or before it.
    Start,
    /// The second endpoint: the point projects at or past it.
    End,
    /// A point strictly between the endpoints, found from the projection.
    Interior,
}

/// The part of a segment closest to a point, given how the point's projection onto the
/// segment vector (scaled by the segment's length) compares: at most zero gives the start;
/// otherwise at least the squared length gives the end; otherwise the interior.
pub fn closest_on_segment(
    projection_not_positive: bool,
    projection_reaches_end: bool,
) -> (r: ClosestOnSegment)
    ensures
        r == if projection_not_positive {
            ClosestOnSegment::Start
        } else if projection_reaches_end {
            ClosestOnSegment::End
        } else {
            ClosestOnSegment::Interior
        },
{
    if projection_not_positive {
        ClosestOnSegment::Start
    } else if projection_reaches_end {
        ClosestOnSegment::End
    } else {
        ClosestOnSegment::Interior
    }
}

/// Why a vector cannot be made a direction.
#[derive(Clone, Copy, Debug, PartialEq, Eq, Structural)]
pub enum InvalidDirectionError {
    /// The length is zero.
    Zero,
    /// The length is infinite.
    Infinite,
    /// The length is `NaN`.
    NaN,
}

impl InvalidDirectionError {
    /// The error for a vector whose length is not a positive finite number, given whether
    /// that length is `NaN` and whether it is finite: `NaN` first, then an infinite length,
    /// and otherwise a zero one.
    pub fn from_length_class(length_is_nan: bool, length_is_finite: bool) -> (r: Self)
        ensures
            r == if length_is_nan {
                InvalidDirectionError::NaN
            } else if !length_is_finite {
                InvalidDirectionError::Infinite
            } else {
                InvalidDirectionError::Zero
            },
    {
        if length_is_nan {
            InvalidDirectionError::NaN
        } else if !length_is_finite {
            InvalidDirectionError::Infinite
        } else {
            InvalidDirectionError::Zero
        }
    }
}

impl Segment3d {
    /// Create a new `Segment3d` from its endpoints.
    pub fn new(point1: Vec3, point2: Vec3) -> (r: Self)
        ensures
            r.vertices[0] == point1,
            r.vertices[1] == point2,
    {
        Segment3d { vertices: [point1, point2] }
    }

    /// Get the position of the first endpoint of the line segment.
    pub fn point1(&self) -> (r: Vec3)
        ensures
            r == self.vertices[0],
    {
        self.vertices[0]
    }

    /// Get the position of the second endpoint of the line segment.
    pub fn point2(&self) -> (r: Vec3)
        ensures
            r == self.vertices[1],
    {
        self.vertices[1]
    }

    /// Compute the midpoint between the two endpoints of the line segment.
    pub fn center(&self) -> (r: Vec3)
        ensures
            vec3_midpoint(self.vertices[0], self.vertices[1], r),
    {
        midpoint3(self.point1(), self.point2())
    }

    /// Compute the vector from the first endpoint to the second endpoint.
    pub fn scaled_direction(&self) -> (r: Vec3)
        ensures
            vec3_difference(self.vertices[1], self.vertices[0], r),
    {
        sub3(self.point2(), self.point1())
    }

    /// Compute the segment translated by the given vector.
    pub fn translated(&self, translation: Vec3) -> (r: Segment3d)
        ensures
            vec3_sum(self.vertices[0], translation, r.vertices[0]),
            vec3_sum(self.vertices[1], translation, r.vertices[1]),
    {
        Self::new(add3(self.point1(), translation), add3(self.point2(), translation))
    }

    /// Compute the segment rotated around the origin by the given rotation.
    pub fn rotated(&self, rotation: Quat) -> (r: Segment3d)
        ensures
            vec3_rotated(rotation, self.vertices[0], r.vertices[0]),
            vec3_rotated(rotation, self.vertices[1], r.vertices[1]),
    {
        Segment3d::new(rotate3(rotation, self.point1()), rotate3(rotation, self.point2()))
    }

    /// Compute the segment rotated around the given point by the given rotation: moved so
    /// that the point is at the origin, rotated there, and moved back.
    pub fn rotated_around(&self, rotation: Quat, point: Vec3) -> (r: Segment3d)
        ensures
            rotated_around_by(rotation, point, self.vertices[0], r.vertices[0]),
            rotated_around_by(rotation, point, self.vertices[1], r.vertices[1]),
    {
        let offset = self.translated(neg3(point));
        let rotated = offset.rotated(rotation);
        let r = rotated.translated(point);
        assert(rotated_around_by(rotation, point, self.vertices[0], r.vertices[0])) by {
            assert(vec3_sum(self.vertices[0], vec3_negation(point), offset.vertices[0]));
            assert(vec3_rotated(rotation, offset.vertices[0], rotated.vertices[0]));
        }
        assert(rotated_around_by(rotation, point, self.vertices[1], r.vertices[1])) by {
            assert(vec3_sum(self.vertices[1], vec3_negation(point), offset.vertices[1]));
            assert(vec3_rotated(rotation, offset.vertices[1], rotated.vertices[1]));
        }
        r
    }

    /// Compute the segment rotated around its own center.
    pub fn rotated_around_center(&self, rotation: Quat) -> (r: Segment3d)
        ensures
            exists|c: Vec3|
                #![trigger vec3_midpoint(self.vertices[0], self.vertices[1], c)]
                vec3_midpoint(self.vertices[0], self.vertices[1], c) && rotated_around_by(
                    rotation,
                    c,
                    self.vertices[0],
                    r.vertices[0],
                ) && rotated_around_by(rotation, c, self.vertices[1], r.vertices[1]),
    {
        let c = self.center();
        self.rotated_around(rotation, c)
    }

    /// Compute the segment with its center at the origin, keeping the same direction and
    /// length.
    pub fn centered(&self) -> (r: Segment3d)
        ensures
            exists|c: Vec3|
                #![trigger vec3_midpoint(self.vertices[0], self.vertices[1], c)]
                vec3_midpoint(self.vertices[0], self.vertices[1], c) && vec3_sum(
                    self.vertices[0],
                    vec3_negation(c),
                    r.vertices[0],
                ) && vec3_sum(self.vertices[1], vec3_negation(c), r.vertices[1]),
    {
        let center = self.center();
        self.translated(neg3(center))
    }

    /// Reverses the direction of the line segment by swapping the endpoints.
    pub fn reverse(&mut self)
        ensures
            segment_reversal_of(*final(self), *old(self)),
    {
        let first = self.vertices[0];
        self.vertices[0] = self.vertices[1];
        self.vertices[1] = first;
    }

    /// Returns the line segment with its direction reversed by swapping the endpoints.
    pub fn reversed(self) -> (r: Self)
        ensures
            segment_reversal_of(r, self),
    {
        let mut s = self;
        s.reverse();
        s
    }
}

impl From<[Vec3; 2]> for Segment3d {
    /// The segment with these endpoints, in order.
    fn from(vertices: [Vec3; 2]) -> (r: Self) {
        Segment3d { vertices }
    }
}

impl vstd::std_specs::convert::FromSpecImpl<[Vec3; 2]> for Segment3d {
    open spec fn obeys_from_spec() -> bool {
        true
    }

    open spec fn from_spec(v: [Vec3; 2]) -> Self {
        Segment3d { vertices: v }
    }
}

impl From<(Vec3, Vec3)> for Segment3d {
    /// The segment from the first point to the second.
    fn from(points: (Vec3, Vec3)) -> (r: Self) {
        let r = Segment3d::new(points.0, points.1);
        assert(r.vertices =~= [points.0, points.1]);
        r
    }
}

impl vstd::std_specs::convert::FromSpecImpl<(Vec3, Vec3)> for Segment3d {
    open spec fn obeys_from_spec() -> bool {
        true
    }

    open spec fn from_spec(v: (Vec3, Vec3)) -> Self {
        Segment3d { vertices: [v.0, v.1] }
    }
}

/// A series of connected line segments in 3D space, with a vertex count fixed by its type.
#[derive(Clone, Debug, PartialEq)]
pub struct Polyline3d<const N: usize> {
    /// The vertices of the polyline
    pub vertices: [Vec3; N],
}

impl<const N: usize> Polyline3d<N> {
    /// Create a new `Polyline3d` from its vertices: the first `N` of them are kept, and
    /// when fewer are given the remaining vertices are the origin.
    pub fn new(vertices: Vec<Vec3>) -> (r: Self)
        ensures
            forall|i: int|
                0 <= i < N ==> #[trigger] r.vertices[i] == if i < vertices@.len() {
                    vertices@[i]
                } else {
                    origin3()
                },
    {
        let zero = flags_to_vec3(false, false, false);
        let mut out: [Vec3; N] = [zero; N];
        let count = if vertices.len() < N {
            vertices.len()
        } else {
            N
        };
        let mut i: usize = 0;
        while i < count
            invariant
                count <= N,
                count <= vertices@.len(),
                i <= count,
                count == N || count == vertices@.len(),
                forall|j: int| 0 <= j < i ==> #[trigger] out[j] == vertices@[j],
                forall|j: int| i <= j < N ==> #[trigger] out[j] == zero,
                zero == origin3(),
            decreases count - i,
        {
            out[i] = vertices[i];
            i = i + 1;
        }
        Polyline3d { vertices: out }
    }
}

/// `Vec::into_boxed_slice` of std: claims the boxed slice holds the vector's elements in
/// order.
#[verifier::external_body]
fn boxed_vertices(v: Vec<Vec3>) -> (r: Box<[Vec3]>)
    ensures
        r@ == v@,
{
    v.into_boxed_slice()
}

/// A series of connected line segments in 3D space, allocated on the heap in a
/// `Box<[Vec3]>`.
#[derive(Debug, PartialEq)]
pub struct BoxedPolyline3d {
    /// The vertices of the polyline
    pub vertices: Box<[Vec3]>,
}

impl BoxedPolyline3d {
    /// Create a new `BoxedPolyline3d` from its vertices, all of them kept in order.
    pub fn new(vertices: Vec<Vec3>) -> (r: Self)
        ensures
            r.vertices@ == vertices@,
    {
        BoxedPolyline3d { vertices: boxed_vertices(vertices) }
    }
}

/// A cuboid primitive, which is like a cube, except that the x, y, and z dimensions are
/// not required to be the same.
#[derive(Clone, Copy, Debug, PartialEq)]
pub struct Cuboid {
    /// Half of the width, height and depth of the cuboid
    pub half_size: Vec3,
}

impl Cuboid {
    /// Get the size of the cuboid: twice its half size.
    pub fn size(&self) -> (r: Vec3)
        ensures
            vec3_sum(self.half_size, self.half_size, r),
    {
        add3(self.half_size, self.half_size)
    }

    /// Finds the point on the cuboid that is closest to the given `point`: each coordinate
    /// clamped between the negated half size and the half size.
    pub fn closest_point(&self, point: Vec3) -> (r: Vec3)
        ensures
            r == vec3_clamped(point, vec3_negation(self.half_size), self.half_size),
    {
        clamp3(point, neg3(self.half_size), self.half_size)
    }
}

/// A 3D triangle primitive.
#[derive(Clone, Copy, Debug, PartialEq)]
pub struct Triangle3d {
    /// The vertices of the triangle.
    pub vertices: [Vec3; 3],
}

/// `r` is `t` with its first and last vertices swapped.
pub open spec fn triangle_reversal_of(r: Triangle3d, t: Triangle3d) -> bool {
    &&& r.vertices[0] == t.vertices[2]
    &&& r.vertices[1] == t.vertices[1]
    &&& r.vertices[2] == t.vertices[0]
}

/// Reversing a triangle twice gives the triangle back.
pub proof fn lemma_triangle_reversal_involutive(t: Triangle3d, r: Triangle3d, rr: Triangle3d)
    requires
        triangle_reversal_of(r, t),
        triangle_reversal_of(rr, r),
    ensures
        rr == t,
{
    assert(rr.vertices =~= t.vertices);
}

/// A side of a triangle with vertices `a`, `b`, `c`.
#[derive(Clone, Copy, Debug, PartialEq, Eq, Structural)]
pub enum TriangleSide {
    /// The side from `a` to `b`.
    AB,
    /// The side from `b` to `c`.
    BC,
    /// The side from `c` back to `a`, reported as the pair `(a, c)`.
    CA,
}

/// The largest side of a triangle, given how the sides' lengths compare. Sides are
/// considered in the order `ab`, `bc`, `ca`, and a later side replaces the one chosen so
/// far only when it is strictly longer, so ties go to the earlier side.
pub fn largest_side_choice(
    bc_longer_than_ab: bool,
    ca_longer_than_ab: bool,
    ca_longer_than_bc: bool,
) -> (r: TriangleSide)
    ensures
        r == if bc_longer_than_ab {
            if ca_longer_than_bc {
                TriangleSide::CA
            } else {
                TriangleSide::BC
            }
        } else if ca_longer_than_ab {
            TriangleSide::CA
        } else {
            TriangleSide::AB
        },
{
    let mut side = TriangleSide::AB;
    if bc_longer_than_ab {
        side = TriangleSide::BC;
    }
    let ca_longer = match side {
        TriangleSide::BC => ca_longer_than_bc,
        _ => ca_longer_than_ab,
    };
    if ca_longer {
        side = TriangleSide::CA;
    }
    side
}

impl Triangle3d {
    /// The two endpoints of a side: `(a, b)`, `(b, c)`, or `(a, c)`.
    pub fn side_points(&self, side: TriangleSide) -> (r: (Vec3, Vec3))
        ensures
            side == TriangleSide::AB ==> r == (self.vertices[0], self.vertices[1]),
            side == TriangleSide::BC ==> r == (self.vertices[1], self.vertices[2]),
            side == TriangleSide::CA ==> r == (self.vertices[0], self.vertices[2]),
    {
        match side {
            TriangleSide::AB => (self.vertices[0], self.vertices[1]),
            TriangleSide::BC => (self.vertices[1], self.vertices[2]),
            TriangleSide::CA => (self.vertices[0], self.vertices[2]),
        }
    }

    /// Create a new [`Triangle3d`] from points `a`, `b`, and `c`.
    pub fn new(a: Vec3, b: Vec3, c: Vec3) -> (r: Self)
        ensures
            r.vertices[0] == a,
            r.vertices[1] == b,
            r.vertices[2] == c,
    {
        Triangle3d { vertices: [a, b, c] }
    }

    /// Reverse the triangle by swapping the first and last vertices.
    pub fn reverse(&mut self)
        ensures
            triangle_reversal_of(*final(self), *old(self)),
    {
        let first = self.vertices[0];
        self.vertices[0] = self.vertices[2];
        self.vertices[2] = first;
    }

    /// This triangle but reversed.
    pub fn reversed(self) -> (r: Triangle3d)
        ensures
            triangle_reversal_of(r, self),
    {
        let mut t = self;
        t.reverse();
        t
    }
}

/// A tetrahedron primitive.
#[derive(Clone, Copy, Debug, PartialEq)]
pub struct Tetrahedron {
    /// The vertices of the tetrahedron.
    pub vertices: [Vec3; 4],
}

/// The triangle with vertices `a`, `b`, `c` in that order.
pub open spec fn triangle_of(t: Triangle3d, a: Vec3, b: Vec3, c: Vec3) -> bool {
    &&& t.vertices[0] == a
    &&& t.vertices[1] == b
    &&& t.vertices[2] == c
}

impl Tetrahedron {
    /// Create a new [`Tetrahedron`] from points `a`, `b`, `c` and `d`.
    pub fn new(a: Vec3, b: Vec3, c: Vec3, d: Vec3) -> (r: Self)
        ensures
            r.vertices[0] == a,
            r.vertices[1] == b,
            r.vertices[2] == c,
            r.vertices[3] == d,
    {
        Tetrahedron { vertices: [a, b, c, d] }
    }

    /// Get the triangles that form the faces of this tetrahedron: `bcd`, `dca`, `abd` and
    /// `cba`, each face leaving out one vertex and wound consistently with the others.
    pub fn faces(&self) -> (r: [Triangle3d; 4])
        ensures
            ({
                let v = self.vertices;
                &&& triangle_of(r[0], v[1], v[2], v[3])
                &&& triangle_of(r[1], v[3], v[2], v[0])
                &&& triangle_of(r[2], v[0], v[1], v[3])
                &&& triangle_of(r[3], v[2], v[1], v[0])
            }),
    {
        let a = self.vertices[0];
        let b = self.vertices[1];
        let c = self.vertices[2];
        let d = self.vertices[3];
        [
            Triangle3d::new(b, c, d),
            Triangle3d::new(a, c, d).reversed(),
            Triangle3d::new(a, b, d),
            Triangle3d::new(a, b, c).reversed(),
        ]
    }
}

/// The type of torus determined by the minor and major radii
#[derive(Clone, Copy, Debug, PartialEq, Eq, Structural)]
pub enum TorusKind {
    /// A torus that has a ring.
    /// The major radius is greater than the minor radius
    Ring,
    /// A torus that has no hole but also doesn't intersect itself.
    /// The major radius is equal to the minor radius
    Horn,
    /// A self-intersecting torus.
    /// The major radius is less than the minor radius
    Spindle,
    /// A torus with non-geometric properties like
    /// a minor or major radius that is non-positive,
    /// infinite, or `NaN`
    Invalid,
}

/// How the major radius of a torus compares with its minor radius.
#[derive(Clone, Copy, Debug, PartialEq, Eq, Structural)]
pub enum RadiusOrder {
    /// The major radius is the smaller one.
    MajorSmaller,
    /// The two radii are equal.
    Equal,
    /// The major radius is the larger one.
    MajorLarger,
}

impl TorusKind {
    /// The kind of a torus, given whether both radii are positive and finite and how the
    /// major radius compares with the minor one.
    pub fn classify(radii_valid: bool, order: RadiusOrder) -> (r: TorusKind)
        ensures
            !radii_valid ==> r == TorusKind::Invalid,
            radii_valid ==> r == match order {
                RadiusOrder::MajorLarger => TorusKind::Ring,
                RadiusOrder::Equal => TorusKind::Horn,
                RadiusOrder::MajorSmaller => TorusKind::Spindle,
            },
    {
        if !radii_valid {
            return TorusKind::Invalid;
        }
        match order {
            RadiusOrder::MajorLarger => TorusKind::Ring,
            RadiusOrder::Equal => TorusKind::Horn,
            RadiusOrder::MajorSmaller => TorusKind::Spindle,
        }
    }
}

} // verus!
