use vstd::prelude::*;

verus! {

/// A point or offset with integer coordinates.
#[derive(Debug, Clone, Copy, PartialEq, Eq, Structural)]
pub struct Point {
    pub x: i64,
    pub y: i64,
    pub z: i64,
}

/// The six axis directions. Left and Right run along x, Down and Up along y,
/// Back and Forward along z, the first of each pair towards lower values.
#[derive(Debug, Clone, Copy, PartialEq, Eq, Structural)]
pub enum Direction {
    Left,
    Right,
    Up,
    Down,
    Forward,
    Back,
}

/// An RGB color with 8 bits per channel.
#[derive(Debug, Clone, Copy, PartialEq, Eq, Structural)]
pub struct Color {
    pub r: u8,
    pub g: u8,
    pub b: u8,
}

/// One exposed face of a voxel: four corners in half-voxel units, in winding
/// order, and the face's direction and color.
#[derive(Debug, Clone, Copy)]
pub struct Quad {
    pub corners: [Point; 4],
    pub color: Color,
    pub direction: Direction,
}

pub open spec fn pt(x: int, y: int, z: int) -> Point {
    Point { x: x as i64, y: y as i64, z: z as i64 }
}

/// The directions in the order in which a voxel's faces are visited.
pub open spec fn direction_at(k: int) -> Direction {
    if k == 0 {
        Direction::Left
    } else if k == 1 {
        Direction::Right
    } else if k == 2 {
        Direction::Down
    } else if k == 3 {
        Direction::Up
    } else if k == 4 {
        Direction::Back
    } else {
        Direction::Forward
    }
}

/// The unit step from a voxel to its neighbour in direction `d`; it is also
/// the outward normal of the voxel's face in that direction.
pub open spec fn normal_spec(d: Direction) -> (int, int, int) {
    match d {
        Direction::Left => (-1, 0, 0),
        Direction::Right => (1, 0, 0),
        Direction::Down => (0, -1, 0),
        Direction::Up => (0, 1, 0),
        Direction::Back => (0, 0, -1),
        Direction::Forward => (0, 0, 1),
    }
}

pub open spec fn opposite_spec(d: Direction) -> Direction {
    match d {
        Direction::Left => Direction::Right,
        Direction::Right => Direction::Left,
        Direction::Down => Direction::Up,
        Direction::Up => Direction::Down,
        Direction::Back => Direction::Forward,
        Direction::Forward => Direction::Back,
    }
}

/// Corner `k` of the face in direction `d`, relative to the voxel's centre in
/// half-voxel units.
pub open spec fn corner_offset_spec(d: Direction, k: int) -> (int, int, int) {
    match d {
        Direction::Left => pick4(k, (-1, -1, -1), (-1, -1, 1), (-1, 1, 1), (-1, 1, -1)),
        Direction::Right => pick4(k, (1, -1, -1), (1, 1, -1), (1, 1, 1), (1, -1, 1)),
        Direction::Down => pick4(k, (-1, -1, -1), (1, -1, -1), (1, -1, 1), (-1, -1, 1)),
        Direction::Up => pick4(k, (-1, 1, -1), (-1, 1, 1), (1, 1, 1), (1, 1, -1)),
        Direction::Back => pick4(k, (-1, -1, -1), (-1, 1, -1), (1, 1, -1), (1, -1, -1)),
        Direction::Forward => pick4(k, (-1, -1, 1), (1, -1, 1), (1, 1, 1), (-1, 1, 1)),
    }
}

/// Entry `k` of a table of four.
pub open spec fn pick4<A>(k: int, a0: A, a1: A, a2: A, a3: A) -> A {
    if k == 0 {
        a0
    } else if k == 1 {
        a1
    } else if k == 2 {
        a2
    } else {
        a3
    }
}

/// A grass green: red and blue at most 25 (under 0.1 of full scale), green at
/// least 153 (0.6 of full scale).
pub open spec fn grass_green(c: Color) -> bool {
    c.r <= 25 && c.b <= 25 && c.g >= 153
}

/// The color given to faces in direction `d`: one shade of green per
/// direction, so that adjacent faces of a block can be told apart.
pub open spec fn face_color_spec(d: Direction) -> Color {
    match d {
        Direction::Left => Color { r: 20, g: 170, b: 20 },
        Direction::Right => Color { r: 20, g: 180, b: 20 },
        Direction::Down => Color { r: 10, g: 160, b: 10 },
        Direction::Up => Color { r: 25, g: 230, b: 25 },
        Direction::Back => Color { r: 15, g: 155, b: 15 },
        Direction::Forward => Color { r: 20, g: 200, b: 20 },
    }
}

/// A centre whose coordinates can be moved by one in either direction.
pub open spec fn center_fits(c: Point) -> bool {
    i64::MIN < c.x < i64::MAX && i64::MIN < c.y < i64::MAX && i64::MIN < c.z < i64::MAX
}

pub open spec fn add_offset(c: Point, o: (int, int, int)) -> Point {
    pt(c.x + o.0, c.y + o.1, c.z + o.2)
}

/// The quad of the face in direction `d` of the voxel centred at `center`.
pub open spec fn quad_spec(d: Direction, center: Point) -> Quad {
    Quad {
        corners: [
            add_offset(center, corner_offset_spec(d, 0)),
            add_offset(center, corner_offset_spec(d, 1)),
            add_offset(center, corner_offset_spec(d, 2)),
            add_offset(center, corner_offset_spec(d, 3)),
        ],
        color: face_color_spec(d),
        direction: d,
    }
}

pub open spec fn sub3(a: (int, int, int), b: (int, int, int)) -> (int, int, int) {
    (a.0 - b.0, a.1 - b.1, a.2 - b.2)
}

pub open spec fn cross(a: (int, int, int), b: (int, int, int)) -> (int, int, int) {
    (a.1 * b.2 - a.2 * b.1, a.2 * b.0 - a.0 * b.2, a.0 * b.1 - a.1 * b.0)
}

pub open spec fn scale3(s: int, a: (int, int, int)) -> (int, int, int) {
    (s * a.0, s * a.1, s * a.2)
}

/// The triangle `(a, b, c)` is counter-clockwise seen from the side that `n`
/// points to, with the right-handed rule: its normal is a positive multiple
/// of `n`.
pub open spec fn ccw_towards(a: (int, int, int), b: (int, int, int), c: (int, int, int), n: (int, int, int)) -> bool {
    cross(sub3(b, a), sub3(c, a)) == scale3(4, n)
}

/// Corner `k` of the face in direction `d` lies on the voxel's side in that
/// direction: one half-voxel out along the normal.
pub open spec fn corner_on_face(d: Direction, k: int) -> bool {
    let c = corner_offset_spec(d, k);
    let n = normal_spec(d);
    c.0 * n.0 + c.1 * n.1 + c.2 * n.2 == 1
}

/// Each face's corner table is consistent with its direction: all four corners
/// lie on the voxel's side in that direction, and both triangles of the index
/// pattern `{0, 1, 3, 1, 2, 3}` wind counter-clockwise seen from outside.
pub proof fn lemma_face_winding(d: Direction)
    ensures
        forall|k: int| 0 <= k < 4 ==> #[trigger] corner_on_face(d, k),
        ccw_towards(
            corner_offset_spec(d, 0),
            corner_offset_spec(d, 1),
            corner_offset_spec(d, 3),
            normal_spec(d),
        ),
        ccw_towards(
            corner_offset_spec(d, 1),
            corner_offset_spec(d, 2),
            corner_offset_spec(d, 3),
            normal_spec(d),
        ),
{
    assert forall|k: int| 0 <= k < 4 implies #[trigger] corner_on_face(d, k) by {
        assert(corner_on_face(d, k)) by (nonlinear_arith)
            requires
                0 <= k < 4,
        ;
    }
    assert(ccw_towards(
        corner_offset_spec(d, 0),
        corner_offset_spec(d, 1),
        corner_offset_spec(d, 3),
        normal_spec(d),
    ) && ccw_towards(
        corner_offset_spec(d, 1),
        corner_offset_spec(d, 2),
        corner_offset_spec(d, 3),
        normal_spec(d),
    )) by (nonlinear_arith);
}

impl Direction {
    /// The `k`-th direction in the order in which a voxel's faces are visited.
    pub fn from_index(k: usize) -> (r: Direction)
        requires
            k < 6,
        ensures
            r == direction_at(k as int),
    {
        if k == 0 {
            Direction::Left
        } else if k == 1 {
            Direction::Right
        } else if k == 2 {
            Direction::Down
        } else if k == 3 {
            Direction::Up
        } else if k == 4 {
            Direction::Back
        } else {
            Direction::Forward
        }
    }

    /// The direction pointing the other way.
    pub fn opposite(&self) -> (r: Direction)
        ensures
            r == opposite_spec(*self),
            normal_spec(r) == scale3(-1, normal_spec(*self)),
    {
        match self {
            Direction::Left => Direction::Right,
            Direction::Right => Direction::Left,
            Direction::Down => Direction::Up,
            Direction::Up => Direction::Down,
            Direction::Back => Direction::Forward,
            Direction::Forward => Direction::Back,
        }
    }

    /// The unit step towards the neighbour in this direction.
    pub fn normal(&self) -> (r: (i64, i64, i64))
        ensures
            (r.0 as int, r.1 as int, r.2 as int) == normal_spec(*self),
    {
        match self {
            Direction::Left => (-1, 0, 0),
            Direction::Right => (1, 0, 0),
            Direction::Down => (0, -1, 0),
            Direction::Up => (0, 1, 0),
            Direction::Back => (0, 0, -1),
            Direction::Forward => (0, 0, 1),
        }
    }

    /// The offsets of the face's four corners from the voxel's centre, in
    /// half-voxel units and winding order.
    pub fn corner_offsets(&self) -> (r: [(i64, i64, i64); 4])
        ensures
            forall|k: int|
                0 <= k < 4 ==> (r[k].0 as int, r[k].1 as int, r[k].2 as int) == corner_offset_spec(*self, k),
    {
        match self {
            Direction::Left => [(-1, -1, -1), (-1, -1, 1), (-1, 1, 1), (-1, 1, -1)],
            Direction::Right => [(1, -1, -1), (1, 1, -1), (1, 1, 1), (1, -1, 1)],
            Direction::Down => [(-1, -1, -1), (1, -1, -1), (1, -1, 1), (-1, -1, 1)],
            Direction::Up => [(-1, 1, -1), (-1, 1, 1), (1, 1, 1), (1, 1, -1)],
            Direction::Back => [(-1, -1, -1), (-1, 1, -1), (1, 1, -1), (1, -1, -1)],
            Direction::Forward => [(-1, -1, 1), (1, -1, 1), (1, 1, 1), (-1, 1, 1)],
        }
    }

    pub fn face_color(&self) -> (r: Color)
        ensures
            r == face_color_spec(*self),
            grass_green(r),
    {
        match self {
            Direction::Left => Color { r: 20, g: 170, b: 20 },
            Direction::Right => Color { r: 20, g: 180, b: 20 },
            Direction::Down => Color { r: 10, g: 160, b: 10 },
            Direction::Up => Color { r: 25, g: 230, b: 25 },
            Direction::Back => Color { r: 15, g: 155, b: 15 },
            Direction::Forward => Color { r: 20, g: 200, b: 20 },
        }
    }
}

fn offset_point(c: Point, o: (i64, i64, i64)) -> (r: Point)
    requires
        center_fits(c),
        -1 <= o.0 <= 1,
        -1 <= o.1 <= 1,
        -1 <= o.2 <= 1,
    ensures
        r == add_offset(c, (o.0 as int, o.1 as int, o.2 as int)),
{
    Point { x: c.x + o.0, y: c.y + o.1, z: c.z + o.2 }
}

impl Quad {
    /// The quad of the face in `direction` of the voxel whose centre is
    /// `center`, in half-voxel units.
    pub fn new(direction: Direction, center: Point) -> (r: Quad)
        requires
            center_fits(center),
        ensures
            r == quad_spec(direction, center),
            grass_green(r.color),
    {
        let o = direction.corner_offsets();
        let corners = [
            offset_point(center, o[0]),
            offset_point(center, o[1]),
            offset_point(center, o[2]),
            offset_point(center, o[3]),
        ];
        let r = Quad { corners, color: direction.face_color(), direction };
        assert(r.corners@ =~= quad_spec(direction, center).corners@);
        r
    }
}

} // verus!
