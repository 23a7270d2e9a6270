//! Integer 3-vectors: the coordinate operations shared by block positions.

use vstd::prelude::*;
use crate::block_pos::BlockPos;
use crate::direction::{
    Axis,
    Direction,
    spec_choose,
    spec_step_x,
    spec_step_y,
    spec_step_z,
};

verus! {

pub open spec fn abs(v: int) -> int {
    if v < 0 {
        -v
    } else {
        v
    }
}

pub open spec fn max3(a: int, b: int, c: int) -> int {
    let ab = if a >= b { a } else { b };
    if ab >= c {
        ab
    } else {
        c
    }
}

/// An integer vector with three coordinates, and the moves and distances on it.
pub trait Vec3i: Sized + Copy {
    spec fn spec_x(&self) -> i32;

    spec fn spec_y(&self) -> i32;

    spec fn spec_z(&self) -> i32;

    fn x(&self) -> (r: i32)
        ensures
            r == self.spec_x(),
    ;

    fn y(&self) -> (r: i32)
        ensures
            r == self.spec_y(),
    ;

    fn z(&self) -> (r: i32)
        ensures
            r == self.spec_z(),
    ;

    fn with_x(&self, x: i32) -> (r: Self)
        ensures
            r.spec_x() == x,
            r.spec_y() == self.spec_y(),
            r.spec_z() == self.spec_z(),
    ;

    fn with_y(&self, y: i32) -> (r: Self)
        ensures
            r.spec_x() == self.spec_x(),
            r.spec_y() == y,
            r.spec_z() == self.spec_z(),
    ;

    fn with_z(&self, z: i32) -> (r: Self)
        ensures
            r.spec_x() == self.spec_x(),
            r.spec_y() == self.spec_y(),
            r.spec_z() == z,
    ;

    fn offset(&self, dx: i32, dy: i32, dz: i32) -> (r: Self)
        requires
            i32::MIN <= self.spec_x() + dx <= i32::MAX,
            i32::MIN <= self.spec_y() + dy <= i32::MAX,
            i32::MIN <= self.spec_z() + dz <= i32::MAX,
        ensures
            r.spec_x() == self.spec_x() + dx,
            r.spec_y() == self.spec_y() + dy,
            r.spec_z() == self.spec_z() + dz,
    {
        if dx == 0 && dy == 0 && dz == 0 {
            return *self;
        }
        self.with_x(self.x() + dx).with_y(self.y() + dy).with_z(self.z() + dz)
    }

    fn relative(&self, direction: Direction, steps: i32) -> (r: Self)
        requires
            steps != i32::MIN,
            i32::MIN <= self.spec_x() + spec_step_x(direction) * steps <= i32::MAX,
            i32::MIN <= self.spec_y() + spec_step_y(direction) * steps <= i32::MAX,
            i32::MIN <= self.spec_z() + spec_step_z(direction) * steps <= i32::MAX,
        ensures
            r.spec_x() == self.spec_x() + spec_step_x(direction) * steps,
            r.spec_y() == self.spec_y() + spec_step_y(direction) * steps,
            r.spec_z() == self.spec_z() + spec_step_z(direction) * steps,
    {
        if steps == 0 {
            return *self;
        }
        let sx = direction.step_x();
        let sy = direction.step_y();
        let sz = direction.step_z();
        assert(-1 <= sx <= 1 && -1 <= sy <= 1 && -1 <= sz <= 1);
        assert(sx * steps == spec_step_x(direction) * steps);
        assert(-i32::MAX <= sx * steps <= i32::MAX) by (nonlinear_arith)
            requires
                -1 <= sx <= 1,
                steps != i32::MIN,
        ;
        assert(-i32::MAX <= sy * steps <= i32::MAX) by (nonlinear_arith)
            requires
                -1 <= sy <= 1,
                steps != i32::MIN,
        ;
        assert(-i32::MAX <= sz * steps <= i32::MAX) by (nonlinear_arith)
            requires
                -1 <= sz <= 1,
                steps != i32::MIN,
        ;
        self.offset(sx * steps, sy * steps, sz * steps)
    }

    fn relative_axis(&self, axis: Axis, steps: i32) -> (r: Self)
        requires
            i32::MIN <= self.spec_x() + (if axis == Axis::X { steps as int } else { 0 })
                <= i32::MAX,
            i32::MIN <= self.spec_y() + (if axis == Axis::Y { steps as int } else { 0 })
                <= i32::MAX,
            i32::MIN <= self.spec_z() + (if axis == Axis::Z { steps as int } else { 0 })
                <= i32::MAX,
        ensures
            r.spec_x() == self.spec_x() + (if axis == Axis::X { steps as int } else { 0 }),
            r.spec_y() == self.spec_y() + (if axis == Axis::Y { steps as int } else { 0 }),
            r.spec_z() == self.spec_z() + (if axis == Axis::Z { steps as int } else { 0 }),
    {
        if steps == 0 {
            return *self;
        }
        let x = if axis == Axis::X { steps } else { 0 };
        let y = if axis == Axis::Y { steps } else { 0 };
        let z = if axis == Axis::Z { steps } else { 0 };
        self.offset(x, y, z)
    }

    fn above(&self) -> (r: Self)
        requires
            self.spec_y() < i32::MAX,
        ensures
            r.spec_x() == self.spec_x(),
            r.spec_y() == self.spec_y() + 1,
            r.spec_z() == self.spec_z(),
    {
        self.above_by(1)
    }

    fn above_by(&self, steps: i32) -> (r: Self)
        requires
            steps != i32::MIN,
            i32::MIN <= self.spec_y() + steps <= i32::MAX,
        ensures
            r.spec_x() == self.spec_x(),
            r.spec_y() == self.spec_y() + steps,
            r.spec_z() == self.spec_z(),
    {
        self.relative(Direction::Up, steps)
    }

    fn below(&self) -> (r: Self)
        requires
            self.spec_y() > i32::MIN,
        ensures
            r.spec_x() == self.spec_x(),
            r.spec_y() == self.spec_y() - 1,
            r.spec_z() == self.spec_z(),
    {
        self.below_by(1)
    }

    fn below_by(&self, steps: i32) -> (r: Self)
        requires
            steps != i32::MIN,
            i32::MIN <= self.spec_y() - steps <= i32::MAX,
        ensures
            r.spec_x() == self.spec_x(),
            r.spec_y() == self.spec_y() - steps,
            r.spec_z() == self.spec_z(),
    {
        self.relative(Direction::Down, steps)
    }

    fn north(&self) -> (r: Self)
        requires
            self.spec_z() > i32::MIN,
        ensures
            r.spec_x() == self.spec_x(),
            r.spec_y() == self.spec_y(),
            r.spec_z() == self.spec_z() - 1,
    {
        self.north_by(1)
    }

    fn north_by(&self, steps: i32) -> (r: Self)
        requires
            steps != i32::MIN,
            i32::MIN <= self.spec_z() - steps <= i32::MAX,
        ensures
            r.spec_x() == self.spec_x(),
            r.spec_y() == self.spec_y(),
            r.spec_z() == self.spec_z() - steps,
    {
        self.relative(Direction::North, steps)
    }

    fn south(&self) -> (r: Self)
        requires
            self.spec_z() < i32::MAX,
        ensures
            r.spec_x() == self.spec_x(),
            r.spec_y() == self.spec_y(),
            r.spec_z() == self.spec_z() + 1,
    {
        self.south_by(1)
    }

    fn south_by(&self, steps: i32) -> (r: Self)
        requires
            steps != i32::MIN,
            i32::MIN <= self.spec_z() + steps <= i32::MAX,
        ensures
            r.spec_x() == self.spec_x(),
            r.spec_y() == self.spec_y(),
            r.spec_z() == self.spec_z() + steps,
    {
        self.relative(Direction::South, steps)
    }

    fn west(&self) -> (r: Self)
        requires
            self.spec_x() > i32::MIN,
        ensures
            r.spec_x() == self.spec_x() - 1,
            r.spec_y() == self.spec_y(),
            r.spec_z() == self.spec_z(),
    {
        self.west_by(1)
    }

    fn west_by(&self, steps: i32) -> (r: Self)
        requires
            steps != i32::MIN,
            i32::MIN <= self.spec_x() - steps <= i32::MAX,
        ensures
            r.spec_x() == self.spec_x() - steps,
            r.spec_y() == self.spec_y(),
            r.spec_z() == self.spec_z(),
    {
        self.relative(Direction::West, steps)
    }

    fn east(&self) -> (r: Self)
        requires
            self.spec_x() < i32::MAX,
        ensures
            r.spec_x() == self.spec_x() + 1,
            r.spec_y() == self.spec_y(),
            r.spec_z() == self.spec_z(),
    {
        self.east_by(1)
    }

    fn east_by(&self, steps: i32) -> (r: Self)
        requires
            steps != i32::MIN,
            i32::MIN <= self.spec_x() + steps <= i32::MAX,
        ensures
            r.spec_x() == self.spec_x() + steps,
            r.spec_y() == self.spec_y(),
            r.spec_z() == self.spec_z(),
    {
        self.relative(Direction::East, steps)
    }

    fn dist_manhattan(&self, pos: &Self) -> (r: i32)
        requires
            abs(pos.spec_x() - self.spec_x()) + abs(pos.spec_y() - self.spec_y()) + abs(
                pos.spec_z() - self.spec_z(),
            ) <= i32::MAX,
        ensures
            r == abs(pos.spec_x() - self.spec_x()) + abs(pos.spec_y() - self.spec_y()) + abs(
                pos.spec_z() - self.spec_z(),
            ),
    {
        let dx = pos.x() - self.x();
        let dy = pos.y() - self.y();
        let dz = pos.z() - self.z();
        let ax = if dx < 0 { -dx } else { dx };
        let ay = if dy < 0 { -dy } else { dy };
        let az = if dz < 0 { -dz } else { dz };
        ax + ay + az
    }

    fn dist_chessboard(&self, pos: &Self) -> (r: i32)
        requires
            abs(self.spec_x() - pos.spec_x()) <= i32::MAX,
            abs(self.spec_y() - pos.spec_y()) <= i32::MAX,
            abs(self.spec_z() - pos.spec_z()) <= i32::MAX,
        ensures
            r == max3(
                abs(self.spec_x() - pos.spec_x()),
                abs(self.spec_y() - pos.spec_y()),
                abs(self.spec_z() - pos.spec_z()),
            ),
    {
        let dx = self.x() - pos.x();
        let dy = self.y() - pos.y();
        let dz = self.z() - pos.z();
        let ax = if dx < 0 { -dx } else { dx };
        let ay = if dy < 0 { -dy } else { dy };
        let az = if dz < 0 { -dz } else { dz };
        let m = if ax >= ay { ax } else { ay };
        if m >= az {
            m
        } else {
            az
        }
    }

    fn get_axis(&self, axis: Axis) -> (r: i32)
        ensures
            r == spec_choose(axis, self.spec_x() as int, self.spec_y() as int, self.spec_z() as int),
    {
        axis.choose_coord(self.x(), self.y(), self.z())
    }
}

impl Vec3i for BlockPos {
    open spec fn spec_x(&self) -> i32 {
        self.0
    }

    open spec fn spec_y(&self) -> i32 {
        self.1
    }

    open spec fn spec_z(&self) -> i32 {
        self.2
    }

    fn x(&self) -> (r: i32) {
        self.0
    }

    fn y(&self) -> (r: i32) {
        self.1
    }

    fn z(&self) -> (r: i32) {
        self.2
    }

    fn with_x(&self, x: i32) -> (r: Self) {
        Self(x, self.1, self.2)
    }

    fn with_y(&self, y: i32) -> (r: Self) {
        Self(self.0, y, self.2)
    }

    fn with_z(&self, z: i32) -> (r: Self) {
        Self(self.0, self.1, z)
    }
}

/// Moving a position a number of steps in a direction and then the same number of
/// steps in the opposite direction returns to the start.
pub proof fn law_relative_opposite_returns(p: BlockPos, d: Direction, steps: int)
    ensures
        p.spec_x() + spec_step_x(d) * steps + spec_step_x(crate::direction::spec_opposite(d))
            * steps == p.spec_x(),
        p.spec_y() + spec_step_y(d) * steps + spec_step_y(crate::direction::spec_opposite(d))
            * steps == p.spec_y(),
        p.spec_z() + spec_step_z(d) * steps + spec_step_z(crate::direction::spec_opposite(d))
            * steps == p.spec_z(),
{
}

/// Chessboard distance never exceeds Manhattan distance, and both are symmetric.
pub proof fn law_distances(a: BlockPos, b: BlockPos)
    ensures
        max3(abs(a.0 - b.0), abs(a.1 - b.1), abs(a.2 - b.2)) <= abs(b.0 - a.0) + abs(b.1 - a.1)
            + abs(b.2 - a.2),
        max3(abs(a.0 - b.0), abs(a.1 - b.1), abs(a.2 - b.2)) == max3(
            abs(b.0 - a.0),
            abs(b.1 - a.1),
            abs(b.2 - a.2),
        ),
{
}

} // verus!
