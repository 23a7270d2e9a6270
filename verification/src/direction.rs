//! The six block faces, the three axes and the two signs along an axis.

use vstd::prelude::*;

verus! {

/// A face of a block, or a unit step in one of the six axis directions.
#[derive(Clone, Copy, PartialEq, Eq, Hash, Debug, Structural)]
pub enum Direction {
    Down,
    Up,
    North,
    South,
    West,
    East,
}

pub const DOWN: usize = 0;
pub const UP: usize = 1;
pub const NORTH: usize = 2;
pub const SOUTH: usize = 3;
pub const WEST: usize = 4;
pub const EAST: usize = 5;

/// All six directions, in face-index order (`DOWN` .. `EAST`).
pub const ALL_DIRECTIONS: [Direction; 6] = [
    Direction::Down,
    Direction::Up,
    Direction::North,
    Direction::South,
    Direction::West,
    Direction::East,
];

/// The face index of a direction, the position it has in `ALL_DIRECTIONS`.
pub open spec fn direction_index(d: Direction) -> nat {
    match d {
        Direction::Down => 0,
        Direction::Up => 1,
        Direction::North => 2,
        Direction::South => 3,
        Direction::West => 4,
        Direction::East => 5,
    }
}

/// The x component of the unit vector of a direction.
pub open spec fn spec_step_x(d: Direction) -> int {
    match d {
        Direction::East => 1,
        Direction::West => -1,
        _ => 0,
    }
}

/// The y component of the unit vector of a direction.
pub open spec fn spec_step_y(d: Direction) -> int {
    match d {
        Direction::Up => 1,
        Direction::Down => -1,
        _ => 0,
    }
}

/// The z component of the unit vector of a direction.
pub open spec fn spec_step_z(d: Direction) -> int {
    match d {
        Direction::South => 1,
        Direction::North => -1,
        _ => 0,
    }
}

pub open spec fn spec_opposite(d: Direction) -> Direction {
    match d {
        Direction::Down => Direction::Up,
        Direction::Up => Direction::Down,
        Direction::North => Direction::South,
        Direction::South => Direction::North,
        Direction::West => Direction::East,
        Direction::East => Direction::West,
    }
}

pub open spec fn spec_axis(d: Direction) -> Axis {
    match d {
        Direction::Down | Direction::Up => Axis::Y,
        Direction::North | Direction::South => Axis::Z,
        Direction::West | Direction::East => Axis::X,
    }
}

pub open spec fn spec_axis_direction(d: Direction) -> AxisDirection {
    match d {
        Direction::Down | Direction::North | Direction::West => AxisDirection::Negative,
        Direction::Up | Direction::South | Direction::East => AxisDirection::Positive,
    }
}

impl Direction {
    pub fn step_x(&self) -> (r: i32)
        ensures
            r == spec_step_x(*self),
    {
        match self {
            Direction::East => 1,
            Direction::West => -1,
            _ => 0,
        }
    }

    pub fn step_y(&self) -> (r: i32)
        ensures
            r == spec_step_y(*self),
    {
        match self {
            Direction::Up => 1,
            Direction::Down => -1,
            _ => 0,
        }
    }

    pub fn step_z(&self) -> (r: i32)
        ensures
            r == spec_step_z(*self),
    {
        match self {
            Direction::South => 1,
            Direction::North => -1,
            _ => 0,
        }
    }

    pub fn opposite(&self) -> (r: Direction)
        ensures
            r == spec_opposite(*self),
    {
        match self {
            Direction::Down => Direction::Up,
            Direction::Up => Direction::Down,
            Direction::North => Direction::South,
            Direction::South => Direction::North,
            Direction::West => Direction::East,
            Direction::East => Direction::West,
        }
    }

    pub fn axis(&self) -> (r: Axis)
        ensures
            r == spec_axis(*self),
    {
        match self {
            Direction::Down | Direction::Up => Axis::Y,
            Direction::North | Direction::South => Axis::Z,
            Direction::West | Direction::East => Axis::X,
        }
    }

    pub fn axis_direction(&self) -> (r: AxisDirection)
        ensures
            r == spec_axis_direction(*self),
    {
        match self {
            Direction::Down | Direction::North | Direction::West => AxisDirection::Negative,
            Direction::Up | Direction::South | Direction::East => AxisDirection::Positive,
        }
    }

    pub fn is_vertical(&self) -> (r: bool)
        ensures
            r == (spec_axis(*self) == Axis::Y),
    {
        self.axis().is_vertical()
    }

    pub fn is_horizontal(&self) -> (r: bool)
        ensures
            r == (spec_axis(*self) != Axis::Y),
    {
        self.axis().is_horizontal()
    }
}

/// One of the three coordinate axes.
#[derive(Clone, Copy, PartialEq, Eq, Hash, Debug, Structural)]
pub enum Axis {
    X,
    Y,
    Z,
}

pub open spec fn spec_choose(a: Axis, x: int, y: int, z: int) -> int {
    match a {
        Axis::X => x,
        Axis::Y => y,
        Axis::Z => z,
    }
}

pub open spec fn spec_positive_direction(a: Axis) -> Direction {
    match a {
        Axis::X => Direction::East,
        Axis::Y => Direction::Up,
        Axis::Z => Direction::South,
    }
}

pub open spec fn spec_negative_direction(a: Axis) -> Direction {
    match a {
        Axis::X => Direction::West,
        Axis::Y => Direction::Down,
        Axis::Z => Direction::North,
    }
}

impl Axis {
    pub const ALL: [Axis; 3] = [Axis::X, Axis::Y, Axis::Z];

    pub fn is_vertical(&self) -> (r: bool)
        ensures
            r == (*self == Axis::Y),
    {
        matches!(self, Axis::Y)
    }

    pub fn is_horizontal(&self) -> (r: bool)
        ensures
            r == (*self == Axis::X || *self == Axis::Z),
    {
        matches!(self, Axis::X | Axis::Z)
    }

    pub fn choose_coord(&self, x: i32, y: i32, z: i32) -> (r: i32)
        ensures
            r == spec_choose(*self, x as int, y as int, z as int),
    {
        match self {
            Axis::X => x,
            Axis::Y => y,
            Axis::Z => z,
        }
    }

    pub fn positive_direction(&self) -> (r: Direction)
        ensures
            r == spec_positive_direction(*self),
    {
        match self {
            Axis::X => Direction::East,
            Axis::Y => Direction::Up,
            Axis::Z => Direction::South,
        }
    }

    pub fn negative_direction(&self) -> (r: Direction)
        ensures
            r == spec_negative_direction(*self),
    {
        match self {
            Axis::X => Direction::West,
            Axis::Y => Direction::Down,
            Axis::Z => Direction::North,
        }
    }
}

/// The sign of a step along an axis.
#[derive(Clone, Copy, PartialEq, Eq, Hash, Debug, Structural)]
pub enum AxisDirection {
    Positive,
    Negative,
}

pub open spec fn spec_axis_step(a: AxisDirection) -> int {
    match a {
        AxisDirection::Positive => 1,
        AxisDirection::Negative => -1,
    }
}

pub open spec fn spec_axis_direction_opposite(a: AxisDirection) -> AxisDirection {
    match a {
        AxisDirection::Positive => AxisDirection::Negative,
        AxisDirection::Negative => AxisDirection::Positive,
    }
}

impl AxisDirection {
    pub fn step(&self) -> (r: i32)
        ensures
            r == spec_axis_step(*self),
    {
        match self {
            AxisDirection::Positive => 1,
            AxisDirection::Negative => -1,
        }
    }

    pub fn opposite(&self) -> (r: AxisDirection)
        ensures
            r == spec_axis_direction_opposite(*self),
    {
        match self {
            AxisDirection::Positive => AxisDirection::Negative,
            AxisDirection::Negative => AxisDirection::Positive,
        }
    }
}

/// The opposite of the opposite of a direction is the direction itself.
pub proof fn law_opposite_involution(d: Direction)
    ensures
        spec_opposite(spec_opposite(d)) == d,
{
}

/// A direction and its opposite lie on the same axis, point different ways, and
/// their unit vectors are negations of each other.
pub proof fn law_opposite_mirrors(d: Direction)
    ensures
        spec_axis(spec_opposite(d)) == spec_axis(d),
        spec_axis_direction(spec_opposite(d)) == spec_axis_direction_opposite(spec_axis_direction(d)),
        spec_step_x(spec_opposite(d)) == -spec_step_x(d),
        spec_step_y(spec_opposite(d)) == -spec_step_y(d),
        spec_step_z(spec_opposite(d)) == -spec_step_z(d),
{
}

/// The unit vector of a direction is the sign of its axis direction placed on its axis:
/// exactly one component is nonzero, the one its axis chooses.
pub proof fn law_step_matches_axis(d: Direction)
    ensures
        spec_choose(spec_axis(d), spec_step_x(d), spec_step_y(d), spec_step_z(d))
            == spec_axis_step(spec_axis_direction(d)),
        spec_step_x(d) * spec_step_x(d) + spec_step_y(d) * spec_step_y(d) + spec_step_z(d)
            * spec_step_z(d) == 1,
{
}

/// The positive and negative direction of an axis lie on that axis, carry the matching
/// sign, and are each other's opposite.
pub proof fn law_axis_directions(a: Axis)
    ensures
        spec_axis(spec_positive_direction(a)) == a,
        spec_axis(spec_negative_direction(a)) == a,
        spec_axis_direction(spec_positive_direction(a)) == AxisDirection::Positive,
        spec_axis_direction(spec_negative_direction(a)) == AxisDirection::Negative,
        spec_opposite(spec_positive_direction(a)) == spec_negative_direction(a),
{
}

/// A direction is determined by its axis and its axis direction.
pub proof fn law_direction_from_axis(d: Direction)
    ensures
        d == (if spec_axis_direction(d) == AxisDirection::Positive {
            spec_positive_direction(spec_axis(d))
        } else {
            spec_negative_direction(spec_axis(d))
        }),
{
}

/// `ALL_DIRECTIONS` lists each direction at its face index.
pub proof fn law_all_directions_indexed(d: Direction)
    ensures
        ALL_DIRECTIONS@[direction_index(d) as int] == d,
        direction_index(d) < 6,
{
}

} // verus!
