//! Compiling a section into the quads of its visible block faces.

use vstd::prelude::*;
use crate::block::BlockState;
use crate::block_model_set::{BlockModel, BlockModelSet};
use crate::block_pos::BlockPos;
use crate::chunk::{ChunkSection, CHUNK_WIDTH, SECTION_HEIGHT};
use crate::chunk_mesh::sections_complete;
use crate::direction::Direction;
use crate::model_block_renderer::{
    block_faces, face_direction, law_block_draws_textured_faces, law_block_faces_are_textured_and_seen, neighbor, neighbor_fits, neighbors_readable,
    ModelBlockRenderer,
};
use crate::block_state_model::cube_of;
use crate::render_section_region::{
    BlockAndTintGetter, RenderSectionRegion, region_cell, region_contains, stack_y,
};

verus! {

/// One quad of a compiled section: the face toward `direction` of the block at
/// section-relative position (x, y, z).
#[derive(Clone, Copy, Debug, PartialEq, Eq, Structural)]
pub struct SectionFace {
    pub x: usize,
    pub y: usize,
    pub z: usize,
    pub direction: Direction,
}

/// Compiles sections with a block model set, culling hidden faces.
pub struct SectionCompiler<'a> {
    pub registry: &'a BlockModelSet,
    renderer: ModelBlockRenderer,
}

/// The section-relative cell (y, z, x) of block number `n` in y-major, then z, then x
/// order.
pub open spec fn cell_of(n: int) -> (int, int, int) {
    (n / 256, (n / 16) % 16, n % 16)
}

/// The world position of block number `n` of the section at `origin`.
pub open spec fn cell_pos(origin: BlockPos, n: int) -> BlockPos {
    let (ly, lz, lx) = cell_of(n);
    BlockPos((origin.0 + lx) as i32, (origin.1 + ly) as i32, (origin.2 + lz) as i32)
}

/// The quads of block number `n`: none for air, else those its model draws (culling
/// hidden faces when `cull` is set), at the block's section-relative position.
pub open spec fn block_quads<'a>(
    models: BlockModelSet,
    region: &RenderSectionRegion<'a>,
    cull: bool,
    n: int,
) -> Seq<SectionFace> {
    let pos = cell_pos(region.section_origin, n);
    let state = region.spec_block_state(pos);
    let (ly, lz, lx) = cell_of(n);
    if state.0 == 0 {
        Seq::empty()
    } else {
        block_faces(models.model_of(state.0), region, pos, cull).map_values(
            |d: Direction| SectionFace { x: lx as usize, y: ly as usize, z: lz as usize, direction: d },
        )
    }
}

/// The quads of the first `n` blocks of the section, block after block.
pub open spec fn section_quads<'a>(
    models: BlockModelSet,
    region: &RenderSectionRegion<'a>,
    cull: bool,
    n: int,
) -> Seq<SectionFace>
    decreases n,
{
    if n <= 0 {
        Seq::empty()
    } else {
        section_quads(models, region, cull, n - 1) + block_quads(models, region, cull, n - 1)
    }
}

/// Whether the target section at `origin` can be compiled: its blocks and their
/// neighbors have `i32` coordinates, the stack's height is a `usize`, and every section
/// holds its blocks.
pub open spec fn compilable(sections: Seq<ChunkSection>, origin: BlockPos) -> bool {
    &&& 16 * sections.len() <= usize::MAX
    &&& i32::MIN < origin.0 && origin.0 + 16 <= i32::MAX
    &&& i32::MIN < origin.1 && origin.1 + 16 <= i32::MAX
    &&& i32::MIN < origin.2 && origin.2 + 16 <= i32::MAX
    &&& sections_complete(sections)
}

proof fn lemma_cell_of(ly: int, lz: int, lx: int)
    requires
        0 <= ly < 16,
        0 <= lz < 16,
        0 <= lx < 16,
    ensures
        cell_of(ly * 256 + lz * 16 + lx) == (ly, lz, lx),
        0 <= ly * 256 + lz * 16 + lx < 4096,
{
    assert(cell_of(ly * 256 + lz * 16 + lx) == (ly, lz, lx)) by (nonlinear_arith)
        requires
            0 <= ly < 16,
            0 <= lz < 16,
            0 <= lx < 16,
    ;
}

/// A position 0 <= dx, dz < 16 from the origin reads within its section's blocks.
proof fn lemma_cell_in_blocks<'a>(region: &RenderSectionRegion<'a>, pos: BlockPos)
    requires
        sections_complete(region.sections@),
    ensures
        region_contains(region.sections@, region.section_index as int, region.section_origin, pos) ==> {
            let (si, idx) = region_cell(region.section_index as int, region.section_origin, pos);
            0 <= si < region.sections@.len() && 0 <= idx < region.sections@[si].blocks@.len()
        },
{
    let secs = region.sections@;
    let k = region.section_index as int;
    if region_contains(secs, k, region.section_origin, pos) {
        let gy = stack_y(k, region.section_origin, pos);
        let (si, idx) = region_cell(k, region.section_origin, pos);
        assert(0 <= si < secs.len() && 0 <= gy % 16 < 16) by (nonlinear_arith)
            requires
                0 <= gy < 16 * secs.len(),
                si == gy / 16,
        ;
        assert(secs[si].blocks@.len() >= 4096);
    }
}

/// Every neighbor of a block of a compilable section can be read from its region.
proof fn lemma_neighbors_readable<'a>(region: &RenderSectionRegion<'a>, pos: BlockPos)
    requires
        compilable(region.sections@, region.section_origin),
        0 <= pos.0 - region.section_origin.0 < 16,
        0 <= pos.1 - region.section_origin.1 < 16,
        0 <= pos.2 - region.section_origin.2 < 16,
    ensures
        neighbors_readable(region, pos),
{
    assert forall|d: Direction| neighbor_fits(pos, d) && #[trigger] region.spec_readable(neighbor(pos, d)) by {
        lemma_cell_in_blocks(region, neighbor(pos, d));
    }
}

/// A quad of block `n` is among the quads of the first `m > n` blocks.
proof fn lemma_section_quads_keep<'a>(
    models: BlockModelSet,
    region: &RenderSectionRegion<'a>,
    cull: bool,
    n: int,
    m: int,
    j: int,
)
    requires
        0 <= n < m,
        0 <= j < block_quads(models, region, cull, n).len(),
    ensures
        exists|t: int|
            0 <= t < section_quads(models, region, cull, m).len() && #[trigger] section_quads(models, region, cull, m)[t]
                == block_quads(models, region, cull, n)[j],
    decreases m,
{
    let prev = section_quads(models, region, cull, m - 1);
    if n == m - 1 {
        assert(section_quads(models, region, cull, m)[prev.len() + j] == block_quads(models, region, cull, n)[j]);
    } else {
        lemma_section_quads_keep(models, region, cull, n, m - 1, j);
        let t = choose|t: int| 0 <= t < prev.len() && #[trigger] prev[t] == block_quads(models, region, cull, n)[j];
        assert(section_quads(models, region, cull, m)[t] == prev[t]);
    }
}

/// Compiling a section draws every face that can be seen: for each block of the section
/// that is not air, at every local x, y and z from 0 to 15, each face of its model that
/// names a texture is among the compiled quads, at the block's local position, unless
/// culling is on and the neighbor on that side is not air.
pub proof fn law_compile_draws_every_visible_face<'a>(
    models: BlockModelSet,
    region: &RenderSectionRegion<'a>,
    cull: bool,
    lx: int,
    ly: int,
    lz: int,
    i: int,
)
    requires
        0 <= lx < 16,
        0 <= ly < 16,
        0 <= lz < 16,
        0 <= i < 6,
        ({
            let pos = BlockPos(
                (region.section_origin.0 + lx) as i32,
                (region.section_origin.1 + ly) as i32,
                (region.section_origin.2 + lz) as i32,
            );
            let state = region.spec_block_state(pos);
            &&& state.0 != 0
            &&& models.model_of(state.0) matches BlockModel::StateWrapper(w)
                && cube_of(w.model).spec_face_texture_name(i).len() > 0
            &&& cull ==> region.spec_block_state(neighbor(pos, face_direction(i))).0 == 0
        }),
    ensures
        section_quads(models, region, cull, 4096).contains(
            SectionFace { x: lx as usize, y: ly as usize, z: lz as usize, direction: face_direction(i) },
        ),
{
    let n = ly * 256 + lz * 16 + lx;
    lemma_cell_of(ly, lz, lx);
    let pos = cell_pos(region.section_origin, n);
    let state = region.spec_block_state(pos);
    let model = models.model_of(state.0);
    law_block_draws_textured_faces(model, region, pos, cull, i);
    let faces = block_faces(model, region, pos, cull);
    let k = choose|k: int| 0 <= k < faces.len() && #[trigger] faces[k] == face_direction(i);
    let f = SectionFace { x: lx as usize, y: ly as usize, z: lz as usize, direction: face_direction(i) };
    assert(block_quads(models, region, cull, n)[k] == f);
    lemma_section_quads_keep(models, region, cull, n, 4096, k);
    let all = section_quads(models, region, cull, 4096);
    let t = choose|t: int| 0 <= t < all.len() && #[trigger] all[t] == block_quads(models, region, cull, n)[k];
    assert(all[t] == f);
}

/// Whether `q` is a face that a compiled section may hold: its position lies within the
/// section, the block there is not air, the block's model names a texture for that face,
/// and, with culling, the neighbor on that side is air.
pub open spec fn drawable_face<'a>(
    models: BlockModelSet,
    region: &RenderSectionRegion<'a>,
    cull: bool,
    q: SectionFace,
) -> bool {
    let pos = BlockPos(
        (region.section_origin.0 + q.x) as i32,
        (region.section_origin.1 + q.y) as i32,
        (region.section_origin.2 + q.z) as i32,
    );
    let state = region.spec_block_state(pos);
    &&& q.x < 16 && q.y < 16 && q.z < 16
    &&& state.0 != 0
    &&& models.model_of(state.0) matches BlockModel::StateWrapper(w) && exists|i: int|
        0 <= i < 6 && cube_of(w.model).spec_face_texture_name(i).len() > 0 && #[trigger] face_direction(i)
            == q.direction
    &&& cull ==> region.spec_block_state(neighbor(pos, q.direction)).0 == 0
}

proof fn lemma_section_quads_drawable<'a>(
    models: BlockModelSet,
    region: &RenderSectionRegion<'a>,
    cull: bool,
    n: int,
)
    requires
        n <= 4096,
    ensures
        forall|t: int|
            0 <= t < section_quads(models, region, cull, n).len() ==> drawable_face(
                models,
                region,
                cull,
                #[trigger] section_quads(models, region, cull, n)[t],
            ),
    decreases n,
{
    if n > 0 {
        lemma_section_quads_drawable(models, region, cull, n - 1);
        let b = n - 1;
        let (ly, lz, lx) = cell_of(b);
        assert(0 <= ly < 16 && 0 <= lz < 16 && 0 <= lx < 16) by (nonlinear_arith)
            requires
                0 <= b < 4096,
                ly == b / 256,
                lz == (b / 16) % 16,
                lx == b % 16,
        ;
        let pos = cell_pos(region.section_origin, b);
        let state = region.spec_block_state(pos);
        let model = models.model_of(state.0);
        law_block_faces_are_textured_and_seen(model, region, pos, cull);
        let prev = section_quads(models, region, cull, n - 1);
        let bq = block_quads(models, region, cull, b);
        let all = section_quads(models, region, cull, n);
        assert forall|t: int| 0 <= t < all.len() implies drawable_face(models, region, cull, #[trigger] all[t]) by {
            if t < prev.len() {
                assert(all[t] == prev[t]);
            } else {
                let j = t - prev.len();
                assert(all[t] == bq[j]);
                let faces = block_faces(model, region, pos, cull);
                assert(bq[j] == SectionFace { x: lx as usize, y: ly as usize, z: lz as usize, direction: faces[j] });
                if let BlockModel::StateWrapper(w) = model {
                    let i = choose|i: int|
                        0 <= i < 6 && cube_of(w.model).spec_face_texture_name(i).len() > 0
                            && #[trigger] faces[j] == face_direction(i);
                    assert(face_direction(i) == all[t].direction);
                }
            }
        }
    }
}

/// Compiling a section draws nothing but visible faces: every compiled quad lies within
/// the section, belongs to a block that is not air, is a face its model names a texture
/// for, and, with culling, looks onto an air neighbor.
pub proof fn law_compiled_faces_are_drawable<'a>(
    models: BlockModelSet,
    region: &RenderSectionRegion<'a>,
    cull: bool,
)
    ensures
        forall|t: int|
            0 <= t < section_quads(models, region, cull, 4096).len() ==> drawable_face(
                models,
                region,
                cull,
                #[trigger] section_quads(models, region, cull, 4096)[t],
            ),
{
    lemma_section_quads_drawable(models, region, cull, 4096);
}

impl<'a> SectionCompiler<'a> {
    /// The model set the compiler looks blocks up in.
    pub closed spec fn models(&self) -> BlockModelSet {
        *self.registry
    }

    /// Whether the compiler culls hidden faces.
    pub closed spec fn culls(&self) -> bool {
        self.renderer.cull
    }

    /// A compiler over `registry` that culls hidden faces.
    pub fn new(registry: &'a BlockModelSet) -> (r: Self)
        ensures
            r.models() == *registry,
            r.culls(),
    {
        Self { registry, renderer: ModelBlockRenderer::new(true) }
    }

    /// Compiles section `section_index` of `sections`, whose lowest corner is
    /// `section_origin`, reading blocks (and neighbors above and below it) through a
    /// region over the sections: for each block in y, then z, then
    /// x order, the quads its model draws (faces with a texture whose neighbor is air),
    /// at the block's position within the section.
    pub fn compile(
        &self,
        sections: &[ChunkSection],
        section_index: usize,
        section_origin: BlockPos,
    ) -> (r: Vec<SectionFace>)
        requires
            compilable(sections@, section_origin),
        ensures
            r@ == section_quads(
                self.models(),
                &RenderSectionRegion { sections, section_index, section_origin },
                self.culls(),
                4096,
            ),
    {
        let region = RenderSectionRegion::new(sections, section_index, section_origin);
        let ghost models = self.models();
        let ghost cull = self.culls();
        let mut output: Vec<SectionFace> = Vec::new();

        let min_x = section_origin.0;
        let min_y = section_origin.1;
        let min_z = section_origin.2;

        let mut ly: usize = 0;
        while ly < SECTION_HEIGHT
            invariant
                ly <= 16,
                region == (RenderSectionRegion { sections, section_index, section_origin }),
                models == self.models(),
                compilable(sections@, section_origin),
                min_x == section_origin.0,
                min_y == section_origin.1,
                min_z == section_origin.2,
                cull == self.culls(),
                output@ == section_quads(models, &region, cull, ly * 256),
            decreases 16 - ly,
        {
            let mut lz: usize = 0;
            while lz < CHUNK_WIDTH
                invariant
                    ly < 16,
                    lz <= 16,
                    region == (RenderSectionRegion { sections, section_index, section_origin }),
                    models == self.models(),
                    compilable(sections@, section_origin),
                    min_x == section_origin.0,
                    min_y == section_origin.1,
                    min_z == section_origin.2,
                    cull == self.culls(),
                    output@ == section_quads(models, &region, cull, ly * 256 + lz * 16),
                decreases 16 - lz,
            {
                let mut lx: usize = 0;
                while lx < CHUNK_WIDTH
                    invariant
                        ly < 16,
                        lz < 16,
                        lx <= 16,
                        region == (RenderSectionRegion { sections, section_index, section_origin }),
                        models == self.models(),
                        compilable(sections@, section_origin),
                        min_x == section_origin.0,
                        min_y == section_origin.1,
                        min_z == section_origin.2,
                        cull == self.culls(),
                        output@ == section_quads(models, &region, cull, ly * 256 + lz * 16 + lx),
                    decreases 16 - lx,
                {
                    let ghost n = ly * 256 + lz * 16 + lx;
                    proof {
                        lemma_cell_of(ly as int, lz as int, lx as int);
                    }
                    let world_pos = BlockPos(min_x + lx as i32, min_y + ly as i32, min_z + lz as i32);
                    assert(world_pos == cell_pos(section_origin, n));
                    proof {
                        lemma_neighbors_readable(&region, world_pos);
                        lemma_cell_in_blocks(&region, world_pos);
                    }
                    let block_state = region.get_block_state(world_pos);
                    let ghost before = output@;

                    if !block_state.is_air() {
                        let block_model = self.registry.get(block_state);
                        match block_model {
                            BlockModel::Empty => {
                                assert(block_quads(models, &region, cull, n) =~= Seq::<SectionFace>::empty());
                            },
                            BlockModel::StateWrapper(_) => {
                                let mut dirs: Vec<Direction> = Vec::new();
                                self.renderer.tesselate_block(&mut dirs, &region, world_pos, block_state, block_model);
                                let mut q: usize = 0;
                                while q < dirs.len()
                                    invariant
                                        q <= dirs@.len(),
                                        output@ == before + dirs@.take(q as int).map_values(
                                            |d: Direction| SectionFace { x: lx, y: ly, z: lz, direction: d },
                                        ),
                                    decreases dirs@.len() - q,
                                {
                                    output.push(SectionFace { x: lx, y: ly, z: lz, direction: dirs[q] });
                                    assert(dirs@.take(q + 1).map_values(
                                        |d: Direction| SectionFace { x: lx, y: ly, z: lz, direction: d },
                                    ) =~= dirs@.take(q as int).map_values(
                                        |d: Direction| SectionFace { x: lx, y: ly, z: lz, direction: d },
                                    ).push(SectionFace { x: lx, y: ly, z: lz, direction: dirs@[q as int] }));
                                    q += 1;
                                }
                                assert(dirs@.take(dirs@.len() as int) =~= dirs@);
                                assert(block_quads(models, &region, cull, n) =~= dirs@.map_values(
                                    |d: Direction| SectionFace { x: lx, y: ly, z: lz, direction: d },
                                ));
                            },
                        }
                    } else {
                        assert(block_quads(models, &region, cull, n) =~= Seq::<SectionFace>::empty());
                    }
                    assert(output@ =~= section_quads(models, &region, cull, n + 1));
                    lx += 1;
                }
                lz += 1;
            }
            ly += 1;
        }
        output
    }
}

} // verus!
