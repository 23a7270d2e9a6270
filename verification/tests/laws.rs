use ferrite::block_pos::BlockPos;
use ferrite::block_registry::BlockRegistry;
use ferrite::codec::var_int_encoded_len;
use ferrite::direction::Direction;

#[test]
fn offset_packed_and_back_restores_the_value() {
    let dirs = [
        Direction::Down,
        Direction::Up,
        Direction::North,
        Direction::South,
        Direction::West,
        Direction::East,
    ];
    let values = [
        BlockPos::pack_long(10, 20, 30),
        BlockPos::pack_long(0, 2047, 0),
        BlockPos::pack_long(-33554432, -2048, 33554431),
        -1i64,
        i64::MIN,
        i64::MAX,
    ];
    for p in values {
        for d in dirs {
            let q = BlockPos::offset_packed(p, d);
            assert_eq!(BlockPos::offset_packed(q, d.opposite()), p);
        }
    }
}

#[test]
fn var_int_length_is_least_group_count() {
    assert_eq!(var_int_encoded_len(0), 1);
    assert_eq!(var_int_encoded_len(127), 1);
    assert_eq!(var_int_encoded_len(128), 2);
    assert_eq!(var_int_encoded_len(16383), 2);
    assert_eq!(var_int_encoded_len(16384), 3);
    assert_eq!(var_int_encoded_len(2097151), 3);
    assert_eq!(var_int_encoded_len(2097152), 4);
    assert_eq!(var_int_encoded_len(268435455), 4);
    assert_eq!(var_int_encoded_len(268435456), 5);
    assert_eq!(var_int_encoded_len(-1), 5);
    assert_eq!(var_int_encoded_len(i32::MIN), 5);
}

#[test]
fn registry_index_is_a_bijection() {
    let r = BlockRegistry::new();
    assert_eq!(r.models.len(), 126);
    assert_eq!(r.id_to_index.len(), 126);
    let mut seen = vec![false; 126];
    for (_, &i) in r.id_to_index.iter() {
        assert!(i < 126);
        assert!(!seen[i]);
        seen[i] = true;
    }
    assert!(seen.iter().all(|&b| b));
}

#[test]
fn offset_from_a_wrapped_start_moves_into_range() {
    let p = BlockPos::pack_long(33554432, 2048, -33554433);
    assert_eq!(BlockPos::from_packed(BlockPos::offset_packed(p, Direction::West)).0, 33554431);
    assert_eq!(BlockPos::from_packed(BlockPos::offset_packed(p, Direction::Down)).1, 2047);
    assert_eq!(BlockPos::from_packed(BlockPos::offset_packed(p, Direction::South)).2, -33554432);
}
