use ferrite::block::BlockState;
use ferrite::block_model_set::{BlockModel, BlockModelSet, BlockStateModelWrapper};
use ferrite::block_registry::{BlockRegistry, DOWN, EAST, NORTH, SOUTH, UP, WEST};
use ferrite::block_state_model::{build_default_block_state_model_set, BlockStateModel};

#[test]
fn registry_has_textures_and_models() {
    let r = BlockRegistry::new();
    assert_eq!(r.textures.len(), 156);
    assert_eq!(r.textures[0], "");
    assert_eq!(r.textures[1], "block/stone");
    assert_eq!(r.models.len(), 126);
    assert_eq!(r.id_to_index.len(), 126);
    assert!(r.get(0).is_none());
    assert!(r.get(65535).is_none());
}

#[test]
fn registry_stone_grass_log_leaves() {
    let r = BlockRegistry::new();
    let stone = r.get(1).expect("stone");
    for f in 0..6 {
        assert_eq!(r.textures[stone.faces[f].texture], "block/stone");
    }
    assert!(!stone.transparent);
    assert!(stone.overlay.is_none());

    let grass = r.get(9).expect("grass");
    assert_eq!(r.textures[grass.faces[DOWN].texture], "block/dirt");
    assert_eq!(r.textures[grass.faces[UP].texture], "block/grass_block_top");
    for f in [NORTH, SOUTH, WEST, EAST] {
        assert_eq!(r.textures[grass.faces[f].texture], "block/grass_block_side");
    }
    let ov = grass.overlay.expect("overlay");
    assert_eq!(r.textures[ov.texture], "block/grass_block_side_overlay");
    assert!(ov.side_only);

    let log = r.get(137).expect("oak log");
    assert_eq!(r.textures[log.faces[UP].texture], "block/oak_log_top");
    assert_eq!(r.textures[log.faces[DOWN].texture], "block/oak_log_top");
    assert_eq!(r.textures[log.faces[WEST].texture], "block/oak_log");

    let leaves = r.get(278).expect("oak leaves");
    assert!(leaves.transparent);
    assert_eq!(leaves.faces[UP].texture, 0);

    let table = r.get(4341).expect("crafting table");
    assert_eq!(r.textures[table.faces[NORTH].texture], "block/crafting_table_front");
    assert_eq!(r.textures[table.faces[SOUTH].texture], "block/crafting_table_side");
    assert_eq!(r.textures[table.faces[EAST].texture], "block/crafting_table_front");
}

#[test]
fn state_model_set_agrees_with_registry_on_every_id() {
    let reg = BlockRegistry::new();
    let set = build_default_block_state_model_set();
    assert_eq!(set.textures, reg.textures);
    for id in 0..=u16::MAX {
        let a = reg.get(id);
        let b = set.model_by_state.get(&id);
        assert_eq!(a.is_some(), b.is_some(), "id {id}");
        if let (Some(a), Some(BlockStateModel::SingleVariant(c))) = (a, b) {
            for f in 0..6 {
                assert_eq!(a.faces[f].texture, c.faces[f].texture);
                assert_eq!(c.face_texture_names[f], c.faces[f].texture);
            }
            assert_eq!(a.transparent, c.transparent);
            assert_eq!(a.overlay.map(|o| (o.texture, o.side_only)), c.overlay.map(|o| (o.texture, o.side_only)));
            assert_eq!(c.texture_names.len(), 156);
        }
    }
}

#[test]
fn state_model_lookups() {
    let set = build_default_block_state_model_set();
    let stone = set.get(BlockState(1));
    let BlockStateModel::SingleVariant(c) = stone;
    assert_eq!(c.face_texture_name(1), "block/stone");
    assert_eq!(stone.material_flags(), 0);
    let p = set.get_particle_material(BlockState(9));
    assert_eq!(p.sprite, "block/grass_block_top");
    assert!(!p.force_translucent);
    // Leaves: transparent, placeholder texture, empty particle name.
    assert_eq!(set.get(BlockState(278)).material_flags(), 1);
    assert_eq!(set.get_particle_material(BlockState(278)).sprite, "");
    // Unknown states fall back to the missing model.
    let missing = set.get(BlockState(7777));
    let BlockStateModel::SingleVariant(m) = missing;
    assert_eq!(m.faces.map(|f| f.texture), [0; 6]);
    assert_eq!(set.missing_model().material_flags(), 0);
    let mut parts = Vec::new();
    set.get(BlockState(2)).collect_parts(&mut parts);
    set.get(BlockState(3)).collect_parts(&mut parts);
    assert_eq!(parts.len(), 2);
    assert_eq!(parts[1].face_texture_name(0), "block/polished_granite");
    assert_eq!(parts[0].particle_material().sprite, "block/granite");
}

#[test]
fn block_model_set_wraps_every_default_model() {
    let set = BlockModelSet::new();
    assert_eq!(set.textures().len(), 156);
    match set.get(BlockState(10)) {
        BlockModel::StateWrapper(w) => {
            let BlockStateModel::SingleVariant(c) = &w.model;
            assert_eq!(c.face_texture_name(3), "block/dirt");
        }
        BlockModel::Empty => panic!("dirt has a model"),
    }
    assert!(set.get(BlockState(562)).as_state_wrapper().is_some());
    assert!(BlockModel::Empty.as_state_wrapper().is_none());
    let w = BlockStateModelWrapper::new(build_default_block_state_model_set().missing_model);
    assert_eq!(w.model.material_flags(), 0);
}
