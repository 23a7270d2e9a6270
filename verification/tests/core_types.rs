use ferrite::block::BlockState;
use ferrite::block_pos::BlockPos;
use ferrite::direction::{Axis, AxisDirection, Direction, ALL_DIRECTIONS, DOWN, EAST, NORTH, SOUTH, UP, WEST};
use ferrite::vec3i::Vec3i;

#[test]
fn direction_steps_and_opposites() {
    for d in ALL_DIRECTIONS.iter() {
        let o = d.opposite();
        assert_eq!(o.opposite(), *d);
        assert_eq!(o.step_x(), -d.step_x());
        assert_eq!(o.step_y(), -d.step_y());
        assert_eq!(o.step_z(), -d.step_z());
        assert_eq!(o.axis(), d.axis());
        assert_eq!(o.axis_direction(), d.axis_direction().opposite());
    }
    assert_eq!(Direction::East.step_x(), 1);
    assert_eq!(Direction::West.step_x(), -1);
    assert_eq!(Direction::Up.step_y(), 1);
    assert_eq!(Direction::South.step_z(), 1);
    assert_eq!(Direction::North.step_z(), -1);
    assert!(Direction::Up.is_vertical());
    assert!(!Direction::Up.is_horizontal());
    assert!(Direction::West.is_horizontal());
    assert_eq!(ALL_DIRECTIONS[DOWN], Direction::Down);
    assert_eq!(ALL_DIRECTIONS[UP], Direction::Up);
    assert_eq!(ALL_DIRECTIONS[NORTH], Direction::North);
    assert_eq!(ALL_DIRECTIONS[SOUTH], Direction::South);
    assert_eq!(ALL_DIRECTIONS[WEST], Direction::West);
    assert_eq!(ALL_DIRECTIONS[EAST], Direction::East);
}

#[test]
fn axis_helpers() {
    assert_eq!(Axis::ALL.len(), 3);
    assert_eq!(Axis::X.choose_coord(1, 2, 3), 1);
    assert_eq!(Axis::Y.choose_coord(1, 2, 3), 2);
    assert_eq!(Axis::Z.choose_coord(1, 2, 3), 3);
    assert_eq!(Axis::X.positive_direction(), Direction::East);
    assert_eq!(Axis::Y.negative_direction(), Direction::Down);
    assert_eq!(Axis::Z.negative_direction(), Direction::North);
    assert!(Axis::Y.is_vertical());
    assert!(Axis::Z.is_horizontal());
    assert_eq!(AxisDirection::Positive.step(), 1);
    assert_eq!(AxisDirection::Negative.step(), -1);
    for a in Axis::ALL.iter() {
        assert_eq!(a.positive_direction().axis(), *a);
        assert_eq!(a.positive_direction().opposite(), a.negative_direction());
    }
}

#[test]
fn block_state_raw() {
    let b = BlockState::from_raw(42);
    assert_eq!(b.raw(), 42);
    assert!(!b.is_air());
    assert!(BlockState::air().is_air());
    assert_eq!(BlockState::air().raw(), 0);
}

#[test]
fn block_pos_pack_round_trip() {
    let cases = [
        (0, 0, 0),
        (1, 2, 3),
        (-1, -1, -1),
        (33554431, 2047, -33554432),
        (-33554432, -2048, 33554431),
        (123456, -64, -987654),
    ];
    for &(x, y, z) in cases.iter() {
        let p = BlockPos::pack_long(x, y, z);
        assert_eq!(BlockPos::from_packed(p), BlockPos(x, y, z));
        assert_eq!(BlockPos(x, y, z).as_long(), p);
        assert_eq!(BlockPos::x_from_packed(p), x);
        assert_eq!(BlockPos::y_from_packed(p), y);
        assert_eq!(BlockPos::z_from_packed(p), z);
    }
    // layout: x in the top 26 bits, z in the next 26, y in the low 12
    assert_eq!(BlockPos::pack_long(1, 0, 0), 1i64 << 38);
    assert_eq!(BlockPos::pack_long(0, 1, 0), 1);
    assert_eq!(BlockPos::pack_long(0, 0, 1), 1i64 << 12);
    assert_eq!(BlockPos::pack_long(-1, -1, -1), -1);
    // coordinates beyond the fields wrap
    assert_eq!(BlockPos::from_packed(BlockPos::pack_long(33554432, 2048, 0)), BlockPos(-33554432, -2048, 0));
    assert_eq!(BlockPos::MAX_HORIZONTAL_COORDINATE, 33554431);
}

#[test]
fn block_pos_unpack_pack_every_value() {
    for &p in [0i64, -1, i64::MIN, i64::MAX, 0x1234_5678_9abc_def0, -0x0fed_cba9_8765_4321].iter() {
        let b = BlockPos::from_packed(p);
        assert_eq!(BlockPos::pack_long(b.0, b.1, b.2), p);
    }
}

#[test]
fn block_pos_offset_packed() {
    let p = BlockPos(10, 20, 30).as_long();
    assert_eq!(BlockPos::from_packed(BlockPos::offset_packed(p, Direction::East)), BlockPos(11, 20, 30));
    assert_eq!(BlockPos::from_packed(BlockPos::offset_packed(p, Direction::Down)), BlockPos(10, 19, 30));
    assert_eq!(BlockPos::from_packed(BlockPos::offset_packed(p, Direction::North)), BlockPos(10, 20, 29));
    // wraps around at the edge of the y field
    let top = BlockPos(0, 2047, 0).as_long();
    assert_eq!(BlockPos::from_packed(BlockPos::offset_packed(top, Direction::Up)), BlockPos(0, -2048, 0));
}

#[test]
fn block_pos_min_max_at_y() {
    let a = BlockPos(1, 5, -3);
    let b = BlockPos(2, -5, -4);
    assert_eq!(BlockPos::min(a, b), BlockPos(1, -5, -4));
    assert_eq!(BlockPos::max(a, b), BlockPos(2, 5, -3));
    assert_eq!(a.at_y(9), BlockPos(1, 9, -3));
    assert_eq!(BlockPos::zero(), BlockPos(0, 0, 0));
}

#[test]
fn vec3i_moves_and_distances() {
    let p = BlockPos(1, 2, 3);
    assert_eq!(p.above(), BlockPos(1, 3, 3));
    assert_eq!(p.below_by(2), BlockPos(1, 0, 3));
    assert_eq!(p.north(), BlockPos(1, 2, 2));
    assert_eq!(p.south_by(3), BlockPos(1, 2, 6));
    assert_eq!(p.west(), BlockPos(0, 2, 3));
    assert_eq!(p.east_by(4), BlockPos(5, 2, 3));
    assert_eq!(p.offset(-1, -2, -3), BlockPos(0, 0, 0));
    assert_eq!(p.relative(Direction::Up, 5), BlockPos(1, 7, 3));
    assert_eq!(p.relative(Direction::Up, 5).relative(Direction::Down, 5), p);
    assert_eq!(p.relative_axis(Axis::Z, -3), BlockPos(1, 2, 0));
    assert_eq!(p.with_x(9).with_y(8).with_z(7), BlockPos(9, 8, 7));
    let q = BlockPos(-2, 6, 3);
    assert_eq!(p.dist_manhattan(&q), 7);
    assert_eq!(p.dist_chessboard(&q), 4);
    assert_eq!(q.dist_chessboard(&p), 4);
    assert_eq!(p.get_axis(Axis::Y), 2);
    assert_eq!((p.x(), p.y(), p.z()), (1, 2, 3));
}
