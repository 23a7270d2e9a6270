use ferrite::block::BlockState;
use ferrite::block_pos::BlockPos;
use ferrite::chunk::ChunkSection;
use ferrite::demo_world::generate_demo_chunk;
use ferrite::render_section_region::{BlockAndTintGetter, RenderSectionRegion};
use ferrite::direction::Direction;
use ferrite::model_block_renderer::{should_render_face, ModelBlockRenderer};

fn at(c: &ferrite::chunk::Chunk, si: usize, x: usize, y: usize, z: usize) -> u16 {
    c.sections[si].blocks[y * 256 + z * 16 + x].raw()
}

#[test]
fn demo_chunk_outside_area_is_none() {
    assert!(generate_demo_chunk(2, 0).is_none());
    assert!(generate_demo_chunk(0, -2).is_none());
    assert!(generate_demo_chunk(-1, 1).is_some());
}

#[test]
fn demo_chunk_layers() {
    let c = generate_demo_chunk(1, -1).expect("chunk");
    assert_eq!(c.sections.len(), 6);
    for s in c.sections.iter() {
        assert_eq!(s.blocks.len(), 4096);
    }
    assert_eq!(at(&c, 0, 3, 3, 3), 1);
    assert_eq!(at(&c, 4, 5, 0, 5), 85);
    assert_eq!(at(&c, 4, 5, 2, 5), 1);
    assert_eq!(at(&c, 4, 5, 5, 5), 10);
    assert_eq!(at(&c, 4, 5, 6, 5), 9);
    assert_eq!(at(&c, 4, 0, 7, 0), 0);
    assert_eq!(at(&c, 5, 0, 0, 0), 0);
}

#[test]
fn demo_chunk_center_features() {
    let c = generate_demo_chunk(0, 0).expect("chunk");
    // cobblestone cross
    assert_eq!(at(&c, 4, 0, 7, 9), 14);
    assert_eq!(at(&c, 4, 9, 7, 0), 14);
    assert_eq!(at(&c, 4, 1, 7, 1), 0);
    // pillars are three blocks tall
    assert_eq!(at(&c, 4, 5, 7, 2), 4340);
    assert_eq!(at(&c, 4, 5, 9, 2), 4340);
    assert_eq!(at(&c, 4, 5, 10, 2), 0);
    assert_eq!(at(&c, 4, 11, 8, 11), 23970);
    assert_eq!(at(&c, 4, 14, 7, 11), 2093);
    // terracotta patch
    assert_eq!(at(&c, 4, 14, 7, 14), 10165);
    assert_eq!(at(&c, 4, 15, 7, 15), 10165);
    assert_eq!(at(&c, 4, 14, 8, 14), 0);
}

#[test]
fn region_lookup() {
    let c = generate_demo_chunk(0, 0).expect("chunk");
    let sections: Vec<ChunkSection> = c.sections.clone();
    let region = RenderSectionRegion::new(&sections, 4, BlockPos(0, 64, 0));
    assert_eq!(region.get_state_at(BlockPos(5, 4 * 16 + 7, 2)).raw(), 4340);
    assert_eq!(region.get_state_at(BlockPos(5, 0, 2)).raw(), 1);
    assert_eq!(region.get_state_at(BlockPos(-1, 0, 0)), BlockState::air());
    assert_eq!(region.get_state_at(BlockPos(0, 96, 0)), BlockState::air());
    assert_eq!(region.get_state_at(BlockPos(0, -1, 0)), BlockState::air());
    assert_eq!(region.get_block_state(BlockPos(0, 70, 0)).raw(), 9);
    assert!(region.is_block_air(BlockPos(3, 72, 3)));
    assert_eq!(region.get_light_emission(BlockPos(0, 0, 0)), 0);
    let shifted = RenderSectionRegion::new(&sections, 0, BlockPos(16, 0, 0));
    assert_eq!(shifted.get_state_at(BlockPos(16 + 5, 4 * 16 + 7, 2)).raw(), 4340);
}

#[test]
fn face_culling() {
    let c = generate_demo_chunk(0, 0).expect("chunk");
    let region = RenderSectionRegion::new(&c.sections, 4, BlockPos(0, 64, 0));
    let grass = BlockPos(3, 70, 3);
    let state = region.get_block_state(grass);
    assert!(should_render_face(&region, state, Direction::Up, grass));
    assert!(!should_render_face(&region, state, Direction::Down, grass));
    assert!(!should_render_face(&region, state, Direction::North, grass));
    let _r = ModelBlockRenderer::new(true);
}
