use ferrite::atlas::{pack_atlas_pixels, texture_tile};
use ferrite::block::BlockState;
use ferrite::block_model_set::BlockModelSet;
use ferrite::block_pos::BlockPos;
use ferrite::chunk::ChunkSection;
use ferrite::direction::Direction;
use ferrite::model_block_renderer::ModelBlockRenderer;
use ferrite::position::{chunk_of_block, region_of_chunk, BlockPos as PlainPos, ChunkPos};
use ferrite::render_section_region::RenderSectionRegion;
use ferrite::section_compiler::{SectionCompiler, SectionFace};

fn section_with(cells: &[(usize, usize, usize, u16)]) -> ChunkSection {
    let mut s = ChunkSection::new();
    for &(x, y, z, id) in cells {
        s.blocks[y * 256 + z * 16 + x] = BlockState(id);
    }
    s
}

#[test]
fn single_block_shows_all_faces() {
    let set = BlockModelSet::new();
    let sections = vec![section_with(&[(4, 5, 6, 1)])];
    let compiler = SectionCompiler::new(&set);
    let faces = compiler.compile(&sections, 0, BlockPos(0, 0, 0));
    let dirs: Vec<Direction> = faces.iter().map(|f| f.direction).collect();
    assert_eq!(
        dirs,
        vec![Direction::Down, Direction::Up, Direction::North, Direction::South, Direction::West, Direction::East]
    );
    assert!(faces.iter().all(|f| (f.x, f.y, f.z) == (4, 5, 6)));
}

#[test]
fn covered_faces_are_culled() {
    let set = BlockModelSet::new();
    // Dirt with stone on top: the dirt's up face and the stone's down face are hidden.
    let sections = vec![section_with(&[(0, 0, 0, 10), (0, 1, 0, 1)])];
    let faces = SectionCompiler::new(&set).compile(&sections, 0, BlockPos(0, 0, 0));
    assert_eq!(faces.len(), 10);
    assert!(!faces.contains(&SectionFace { x: 0, y: 0, z: 0, direction: Direction::Up }));
    assert!(!faces.contains(&SectionFace { x: 0, y: 1, z: 0, direction: Direction::Down }));
    assert_eq!(faces[0], SectionFace { x: 0, y: 0, z: 0, direction: Direction::Down });
    assert_eq!(faces[5], SectionFace { x: 0, y: 1, z: 0, direction: Direction::Up });
}

#[test]
fn placeholder_textured_blocks_draw_nothing() {
    let set = BlockModelSet::new();
    // Leaves use the empty placeholder texture on every face.
    let sections = vec![section_with(&[(1, 1, 1, 278)])];
    let faces = SectionCompiler::new(&set).compile(&sections, 0, BlockPos(0, 0, 0));
    assert!(faces.is_empty());
}

#[test]
fn tesselate_without_culling_keeps_hidden_faces() {
    let set = BlockModelSet::new();
    let sections = vec![section_with(&[(0, 0, 0, 10), (0, 1, 0, 1)])];
    let region = RenderSectionRegion::new(&sections, 0, BlockPos(0, 0, 0));
    let model = set.get(BlockState(10));
    let mut culled = Vec::new();
    ModelBlockRenderer::new(true).tesselate_block(&mut culled, &region, BlockPos(0, 0, 0), BlockState(10), model);
    assert_eq!(culled.len(), 5);
    assert!(!culled.contains(&Direction::Up));
    let mut all = Vec::new();
    ModelBlockRenderer::new(false).tesselate_block(&mut all, &region, BlockPos(0, 0, 0), BlockState(10), model);
    assert_eq!(all.len(), 6);
}

#[test]
fn atlas_places_tiles_row_by_row() {
    let tiles: Vec<Vec<u8>> = (0..3u8).map(|i| (0..1024).map(|j| (j % 251) as u8 ^ i).collect()).collect();
    let atlas = pack_atlas_pixels(&tiles, 2);
    assert_eq!(atlas.width, 32);
    assert_eq!(atlas.height, 32);
    assert_eq!(atlas.data.len(), 32 * 32 * 4);
    // Pixel (x, y) channel c of the atlas.
    let at = |x: usize, y: usize, c: usize| atlas.data[(y * 32 + x) * 4 + c];
    assert_eq!(at(0, 0, 0), tiles[0][0]);
    assert_eq!(at(17, 3, 2), tiles[1][(3 * 16 + 1) * 4 + 2]);
    assert_eq!(at(5, 20, 1), tiles[2][(4 * 16 + 5) * 4 + 1]);
    // The fourth tile slot is empty.
    assert_eq!(at(20, 20, 0), 0);
    assert_eq!(at(31, 31, 3), 0);
}

#[test]
fn atlas_of_nothing_is_empty() {
    let atlas = pack_atlas_pixels(&Vec::new(), 16);
    assert_eq!((atlas.width, atlas.height, atlas.data.len()), (256, 0, 0));
}

#[test]
fn texture_tiles_fall_back() {
    assert_eq!(texture_tile("", Some(vec![7u8; 1024])), vec![0u8; 1024]);
    assert_eq!(texture_tile("block/stone", None), vec![255u8; 1024]);
    assert_eq!(texture_tile("block/stone", Some(vec![7u8; 1024])), vec![7u8; 1024]);
}

#[test]
fn positions_convert_through_ivec3() {
    let v: glam::IVec3 = PlainPos(1, -2, 3).into();
    assert_eq!((v.x, v.y, v.z), (1, -2, 3));
    let p: PlainPos = glam::IVec3::new(-7, 8, 9).into();
    assert_eq!(p, PlainPos(-7, 8, 9));
    let q: BlockPos = glam::IVec3::new(4, 5, 6).into();
    assert_eq!(q, BlockPos(4, 5, 6));
    let w: glam::IVec3 = BlockPos(4, 5, 6).into();
    assert_eq!(w, glam::IVec3::new(4, 5, 6));
    assert_ne!(ChunkPos(1, 2), ChunkPos(2, 1));
}

#[test]
fn chunk_and_region_coordinates_round_down() {
    assert_eq!(chunk_of_block(0), 0);
    assert_eq!(chunk_of_block(15), 0);
    assert_eq!(chunk_of_block(16), 1);
    assert_eq!(chunk_of_block(-1), -1);
    assert_eq!(chunk_of_block(-16), -1);
    assert_eq!(chunk_of_block(-17), -2);
    assert_eq!(region_of_chunk(31), 0);
    assert_eq!(region_of_chunk(32), 1);
    assert_eq!(region_of_chunk(-1), -1);
    assert_eq!(region_of_chunk(-32), -1);
    assert_eq!(region_of_chunk(-33), -2);
    assert_eq!(region_of_chunk(i32::MIN), i32::MIN / 32);
}

#[test]
fn region_reads_its_target_section_and_neighbours() {
    let low = section_with(&[(0, 0, 0, 1), (0, 15, 0, 14)]);
    let high = section_with(&[(0, 0, 0, 10)]);
    let sections = vec![low, high];
    let region = RenderSectionRegion::new(&sections, 1, BlockPos(0, 16, 0));
    assert_eq!(region.get_state_at(BlockPos(0, 16, 0)), BlockState(10));
    assert_eq!(region.get_state_at(BlockPos(0, 15, 0)), BlockState(14));
    assert_eq!(region.get_state_at(BlockPos(0, 0, 0)), BlockState(1));
    assert_eq!(region.get_state_at(BlockPos(0, 32, 0)), BlockState(0));
    assert_eq!(region.get_state_at(BlockPos(0, -1, 0)), BlockState(0));
    assert_eq!(region.get_state_at(BlockPos(16, 16, 0)), BlockState(0));
    // Compiling the upper section: the dirt's down face rests on the cobblestone at the
    // top of the lower section, so it is culled.
    let set = BlockModelSet::new();
    let faces = SectionCompiler::new(&set).compile(&sections, 1, BlockPos(0, 16, 0));
    assert_eq!(faces.len(), 5);
    assert!(!faces.contains(&SectionFace { x: 0, y: 0, z: 0, direction: Direction::Down }));
}

#[test]
fn states_without_a_model_use_the_missing_model() {
    let set = BlockModelSet::new();
    let m = set.get(BlockState(563));
    let w = m.as_state_wrapper().expect("missing model");
    assert_eq!(w.model.material_flags(), 0);
    let ferrite::block_state_model::BlockStateModel::SingleVariant(c) = &w.model;
    assert_eq!(c.faces.map(|f| f.texture), [0; 6]);
    assert_eq!(c.face_texture_name(1), "");
    let sections = vec![section_with(&[(2, 2, 2, 563)])];
    let faces = SectionCompiler::new(&set).compile(&sections, 0, BlockPos(0, 0, 0));
    assert!(faces.is_empty());
}
