//! Block-state access for rendering: the getter interface and the view of a section with
//! the sections above it.

use vstd::prelude::*;
use crate::block::BlockState;
use crate::block_pos::BlockPos;
use crate::chunk::{ChunkSection, SECTION_HEIGHT, CHUNK_WIDTH};
use crate::direction::{Direction, spec_step_x, spec_step_y, spec_step_z};
use crate::vec3i::Vec3i;

verus! {

/// Reads block states (and light emission) from a world.
pub trait BlockAndTintGetter {
    /// Whether reading the block state at `pos` stays within what the getter holds.
    spec fn spec_readable(&self, pos: BlockPos) -> bool;

    /// The block state at `pos`.
    spec fn spec_block_state(&self, pos: BlockPos) -> BlockState;

    /// The light emission at `pos`.
    spec fn spec_light_emission(&self, pos: BlockPos) -> i32;

    fn get_block_state(&self, pos: BlockPos) -> (r: BlockState)
        requires
            self.spec_readable(pos),
        ensures
            r == self.spec_block_state(pos),
    ;

    fn get_light_emission(&self, pos: BlockPos) -> (r: i32)
        ensures
            r == self.spec_light_emission(pos),
    ;

    fn is_block_air(&self, pos: BlockPos) -> (r: bool)
        requires
            self.spec_readable(pos),
        ensures
            r == (self.spec_block_state(pos).0 == 0),
    {
        self.get_block_state(pos).is_air()
    }
}

/// Provides block state access for a section and its neighbors.
pub struct RenderSectionRegion<'a> {
    /// Sections indexed [section_y], each 16x16x16.
    /// The target section is at index `section_index`.
    pub sections: &'a [ChunkSection],
    /// Index of the target section in the sections slice.
    pub section_index: usize,
    /// World origin of the target section (min block x, y, z).
    pub section_origin: BlockPos,
}

/// The offset of `pos` from `origin`, and whether it is computed without overflow.
pub open spec fn offset_fits(pos: BlockPos, origin: BlockPos) -> bool {
    &&& i32::MIN <= pos.0 - origin.0 <= i32::MAX
    &&& i32::MIN <= pos.1 - origin.1 <= i32::MAX
    &&& i32::MIN <= pos.2 - origin.2 <= i32::MAX
}

/// The height of `pos` within the stacked sections, counted from the bottom of the
/// first: the target section `section_index` starts at the origin's height, so a
/// position below the origin reaches into the sections under the target.
pub open spec fn stack_y(section_index: int, origin: BlockPos, pos: BlockPos) -> int {
    16 * section_index + (pos.1 - origin.1)
}

/// Whether `pos` lies in the region: 0 <= dx, dz < 16 from the origin, and its height in
/// the stack is within the sections.
pub open spec fn region_contains(sections: Seq<ChunkSection>, section_index: int, origin: BlockPos, pos: BlockPos) -> bool {
    let dx = pos.0 - origin.0;
    let dz = pos.2 - origin.2;
    &&& 0 <= dx < 16
    &&& 0 <= dz < 16
    &&& 0 <= stack_y(section_index, origin, pos) < 16 * sections.len()
}

/// The section that holds `pos` and the index of `pos` within it.
pub open spec fn region_cell(section_index: int, origin: BlockPos, pos: BlockPos) -> (int, int) {
    let dx = pos.0 - origin.0;
    let dz = pos.2 - origin.2;
    let gy = stack_y(section_index, origin, pos);
    (gy / 16, (gy % 16) * 256 + dz * 16 + dx)
}

/// Whether looking up `pos` stays within the region's data: the offset fits an `i32`,
/// the height of the stack is a `usize`, and a contained position's section holds that
/// index.
pub open spec fn region_readable(sections: Seq<ChunkSection>, section_index: int, origin: BlockPos, pos: BlockPos) -> bool {
    &&& offset_fits(pos, origin)
    &&& 16 * sections.len() <= usize::MAX
    &&& region_contains(sections, section_index, origin, pos) ==> {
        let (si, idx) = region_cell(section_index, origin, pos);
        idx < sections[si].blocks@.len()
    }
}

/// The block state at `pos`: air outside the region, else the block at its cell.
pub open spec fn region_state(sections: Seq<ChunkSection>, section_index: int, origin: BlockPos, pos: BlockPos) -> BlockState {
    if region_contains(sections, section_index, origin, pos) {
        let (si, idx) = region_cell(section_index, origin, pos);
        sections[si].blocks@[idx]
    } else {
        BlockState(0)
    }
}

impl<'a> RenderSectionRegion<'a> {
    pub fn new(sections: &'a [ChunkSection], section_index: usize, section_origin: BlockPos) -> (r:
        Self)
        ensures
            r.sections == sections,
            r.section_index == section_index,
            r.section_origin == section_origin,
    {
        Self { sections, section_index, section_origin }
    }

    /// The block state at a world position: the target section's block where `pos` is
    /// inside it, a neighbouring section's block where `pos` lies above or below it
    /// within the stack, and air elsewhere.
    pub fn get_state_at(&self, pos: BlockPos) -> (r: BlockState)
        requires
            region_readable(self.sections@, self.section_index as int, self.section_origin, pos),
        ensures
            r == region_state(self.sections@, self.section_index as int, self.section_origin, pos),
    {
        let dx = pos.0 - self.section_origin.0;
        let dy = pos.1 - self.section_origin.1;
        let dz = pos.2 - self.section_origin.2;

        if dx < 0 || dx >= CHUNK_WIDTH as i32 || dz < 0 || dz >= CHUNK_WIDTH as i32 {
            return BlockState::air();
        }
        let gy: i128 = (self.section_index as i128) * 16 + (dy as i128);
        if gy < 0 || gy >= (self.sections.len() as i128) * 16 {
            return BlockState::air();
        }
        let g = gy as usize;
        assert(g as int == stack_y(self.section_index as int, self.section_origin, pos));
        let si = g / SECTION_HEIGHT;
        let local_y = g % SECTION_HEIGHT;
        let idx = local_y * CHUNK_WIDTH * CHUNK_WIDTH + (dz as usize) * CHUNK_WIDTH + (dx as usize);
        assert(si < self.sections@.len()) by (nonlinear_arith)
            requires
                0 <= g < 16 * self.sections@.len(),
                si == g / 16,
        ;
        self.sections[si].blocks[idx]
    }
}

impl<'a> BlockAndTintGetter for RenderSectionRegion<'a> {
    open spec fn spec_readable(&self, pos: BlockPos) -> bool {
        region_readable(self.sections@, self.section_index as int, self.section_origin, pos)
    }

    open spec fn spec_block_state(&self, pos: BlockPos) -> BlockState {
        region_state(self.sections@, self.section_index as int, self.section_origin, pos)
    }

    open spec fn spec_light_emission(&self, pos: BlockPos) -> i32 {
        0
    }

    fn get_block_state(&self, pos: BlockPos) -> (r: BlockState) {
        self.get_state_at(pos)
    }

    fn get_light_emission(&self, _pos: BlockPos) -> (r: i32) {
        0
    }
}

/// A region reads its target section at the origin and the sections next to it: a
/// position 0 <= dx, dz < 16 from the origin reads section `section_index` at height dy
/// for 0 <= dy < 16, the section below at dy + 16 for -16 <= dy < 0, and the section above
/// at dy - 16 for 16 <= dy < 32, where those sections exist; a position outside the 16 by
/// 16 columns reads air.
pub proof fn law_region_reads_target_and_neighbours(
    sections: Seq<ChunkSection>,
    section_index: int,
    origin: BlockPos,
    pos: BlockPos,
)
    requires
        0 <= section_index < sections.len(),
    ensures
        ({
            let dx = pos.0 - origin.0;
            let dy = pos.1 - origin.1;
            let dz = pos.2 - origin.2;
            let st = region_state(sections, section_index, origin, pos);
            &&& (0 <= dx < 16 && 0 <= dz < 16 && 0 <= dy < 16) ==> st == sections[section_index].blocks@[dy
                * 256 + dz * 16 + dx]
            &&& (0 <= dx < 16 && 0 <= dz < 16 && -16 <= dy < 0 && section_index >= 1) ==> st
                == sections[section_index - 1].blocks@[(dy + 16) * 256 + dz * 16 + dx]
            &&& (0 <= dx < 16 && 0 <= dz < 16 && 16 <= dy < 32 && section_index + 1 < sections.len()) ==> st
                == sections[section_index + 1].blocks@[(dy - 16) * 256 + dz * 16 + dx]
            &&& !(0 <= dx < 16 && 0 <= dz < 16) ==> st == BlockState(0)
        }),
{
    let dy = pos.1 - origin.1;
    let k = section_index;
    let g = 16 * k + dy;
    if 0 <= dy < 16 {
        assert(g / 16 == k && g % 16 == dy) by (nonlinear_arith)
            requires
                g == 16 * k + dy,
                0 <= dy < 16,
        ;
    }
    if -16 <= dy < 0 && k >= 1 {
        assert(g / 16 == k - 1 && g % 16 == dy + 16) by (nonlinear_arith)
            requires
                g == 16 * k + dy,
                -16 <= dy < 0,
        ;
    }
    if 16 <= dy < 32 && k + 1 < sections.len() {
        assert(g / 16 == k + 1 && g % 16 == dy - 16) by (nonlinear_arith)
            requires
                g == 16 * k + dy,
                16 <= dy < 32,
        ;
    }
}

} // verus!
