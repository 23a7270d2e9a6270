//! The built-in demo world: a 3×3 area of chunks with layered ground and, in the center
//! chunk, a cobblestone cross and a grid of sample block pillars.

use vstd::prelude::*;
use crate::block::BlockState;
use crate::chunk::{CHUNK_WIDTH, Chunk, ChunkSection, SECTION_HEIGHT, BLOCKS_PER_SECTION};

verus! {

const W: usize = CHUNK_WIDTH;

/// The index of local block (x, y, z) in a section: `y * 256 + z * 16 + x`.
pub open spec fn block_index(y: int, z: int, x: int) -> int {
    y * 256 + z * 16 + x
}

/// Whether index `i` is one of the cells `block_index(y, z, x)` with `z0 <= z <= z1` and
/// `x0 <= x <= x1`.
pub open spec fn in_rect(i: int, x0: int, x1: int, z0: int, z1: int, y: int) -> bool {
    exists|z: int, x: int| z0 <= z <= z1 && x0 <= x <= x1 && i == #[trigger] block_index(y, z, x)
}

/// Whether index `i` is one of the cells `block_index(y, z, x)` with `y0 <= y <= y1`.
pub open spec fn in_column(i: int, x: int, z: int, y0: int, y1: int) -> bool {
    exists|y: int| y0 <= y <= y1 && i == #[trigger] block_index(y, z, x)
}

/// Local coordinates within a section.
pub open spec fn local(v: int) -> bool {
    0 <= v < 16
}

proof fn lemma_index_unique(y: int, z: int, x: int, y2: int, z2: int, x2: int)
    requires
        local(y),
        local(z),
        local(x),
        local(y2),
        local(z2),
        local(x2),
        block_index(y, z, x) == block_index(y2, z2, x2),
    ensures
        y == y2 && z == z2 && x == x2,
{
}

proof fn lemma_index_range(y: int, z: int, x: int)
    requires
        local(y),
        local(z),
        local(x),
    ensures
        0 <= block_index(y, z, x) < 4096,
{
}

/// Inside a section, a rectangle of one layer holds exactly the cells it names.
proof fn lemma_rect_local(y2: int, z2: int, x2: int, x0: int, x1: int, z0: int, z1: int, y: int)
    requires
        local(y2),
        local(z2),
        local(x2),
        0 <= x0,
        x1 < 16,
        0 <= z0,
        z1 < 16,
        local(y),
    ensures
        in_rect(block_index(y2, z2, x2), x0, x1, z0, z1, y) <==> (y2 == y && z0 <= z2 <= z1 && x0
            <= x2 <= x1),
{
    if in_rect(block_index(y2, z2, x2), x0, x1, z0, z1, y) {
        let (z, x) = choose|z: int, x: int|
            z0 <= z <= z1 && x0 <= x <= x1 && block_index(y2, z2, x2) == #[trigger] block_index(
                y,
                z,
                x,
            );
        lemma_index_unique(y2, z2, x2, y, z, x);
    }
    if y2 == y && z0 <= z2 <= z1 && x0 <= x2 <= x1 {
        assert(block_index(y2, z2, x2) == block_index(y, z2, x2));
    }
}

/// Inside a section, a column holds exactly the cells it names.
proof fn lemma_column_local(y2: int, z2: int, x2: int, x: int, z: int, y0: int, y1: int)
    requires
        local(y2),
        local(z2),
        local(x2),
        local(x),
        local(z),
        0 <= y0,
        y1 < 16,
    ensures
        in_column(block_index(y2, z2, x2), x, z, y0, y1) <==> (x2 == x && z2 == z && y0 <= y2
            <= y1),
{
    if in_column(block_index(y2, z2, x2), x, z, y0, y1) {
        let y = choose|y: int| y0 <= y <= y1 && block_index(y2, z2, x2) == #[trigger] block_index(y, z, x);
        lemma_index_unique(y2, z2, x2, y, z, x);
    }
    if x2 == x && z2 == z && y0 <= y2 <= y1 {
        assert(block_index(y2, z2, x2) == block_index(y2, z, x));
    }
}

/// Extending a row of a rectangle by one cell.
proof fn lemma_rect_row_step(i: int, x0: int, x: int, z: int, y: int)
    requires
        x0 <= x,
    ensures
        in_rect(i, x0, x, z, z, y) <==> (in_rect(i, x0, x - 1, z, z, y) || i == block_index(y, z, x)),
{
    if in_rect(i, x0, x, z, z, y) {
        let (zz, xx) = choose|zz: int, xx: int|
            z <= zz <= z && x0 <= xx <= x && i == #[trigger] block_index(y, zz, xx);
        if xx < x {
            assert(in_rect(i, x0, x - 1, z, z, y));
        }
    }
    if in_rect(i, x0, x - 1, z, z, y) {
        let (zz, xx) = choose|zz: int, xx: int|
            z <= zz <= z && x0 <= xx <= x - 1 && i == #[trigger] block_index(y, zz, xx);
        assert(in_rect(i, x0, x, z, z, y));
    }
    if i == block_index(y, z, x) {
        assert(in_rect(i, x0, x, z, z, y));
    }
}

/// Adding a full row to a rectangle.
proof fn lemma_rect_rows_step(i: int, x0: int, x1: int, z0: int, z: int, y: int)
    requires
        z0 <= z,
    ensures
        in_rect(i, x0, x1, z0, z, y) <==> (in_rect(i, x0, x1, z0, z - 1, y) || in_rect(
            i,
            x0,
            x1,
            z,
            z,
            y,
        )),
{
    if in_rect(i, x0, x1, z0, z, y) {
        let (zz, xx) = choose|zz: int, xx: int|
            z0 <= zz <= z && x0 <= xx <= x1 && i == #[trigger] block_index(y, zz, xx);
        if zz < z {
            assert(in_rect(i, x0, x1, z0, z - 1, y));
        } else {
            assert(in_rect(i, x0, x1, z, z, y));
        }
    }
    if in_rect(i, x0, x1, z0, z - 1, y) {
        let (zz, xx) = choose|zz: int, xx: int|
            z0 <= zz <= z - 1 && x0 <= xx <= x1 && i == #[trigger] block_index(y, zz, xx);
        assert(in_rect(i, x0, x1, z0, z, y));
    }
    if in_rect(i, x0, x1, z, z, y) {
        let (zz, xx) = choose|zz: int, xx: int|
            z <= zz <= z && x0 <= xx <= x1 && i == #[trigger] block_index(y, zz, xx);
        assert(in_rect(i, x0, x1, z0, z, y));
    }
}

/// Extending a column by one cell.
proof fn lemma_column_step(i: int, x: int, z: int, y0: int, y: int)
    requires
        y0 <= y,
    ensures
        in_column(i, x, z, y0, y) <==> (in_column(i, x, z, y0, y - 1) || i == block_index(y, z, x)),
{
    if in_column(i, x, z, y0, y) {
        let yy = choose|yy: int| y0 <= yy <= y && i == #[trigger] block_index(yy, z, x);
        if yy < y {
            assert(in_column(i, x, z, y0, y - 1));
        }
    }
    if in_column(i, x, z, y0, y - 1) {
        let yy = choose|yy: int| y0 <= yy <= y - 1 && i == #[trigger] block_index(yy, z, x);
        assert(in_column(i, x, z, y0, y));
    }
    if i == block_index(y, z, x) {
        assert(in_column(i, x, z, y0, y));
    }
}

/// A section filled with one block.
fn solid_plane(_y: usize, id: u16) -> (r: ChunkSection)
    ensures
        r.blocks@.len() == BLOCKS_PER_SECTION,
        forall|i: int| 0 <= i < BLOCKS_PER_SECTION ==> #[trigger] r.blocks@[i] == BlockState(id),
{
    let b = vec![BlockState::from_raw(id); SECTION_HEIGHT * W * W];
    ChunkSection { blocks: b }
}

/// A section of air.
fn air_section() -> (r: ChunkSection)
    ensures
        r.blocks@.len() == BLOCKS_PER_SECTION,
        forall|i: int| 0 <= i < BLOCKS_PER_SECTION ==> #[trigger] r.blocks@[i] == BlockState(0),
{
    solid_plane(0, 0)
}

/// Fill a contiguous rectangle at (x0,z0)-(x1,z1) within a section with a block.
fn fill_rect(s: &mut [BlockState], x0: usize, x1: usize, z0: usize, z1: usize, y: usize, id: u16)
    requires
        z0 <= z1 && x0 <= x1 ==> block_index(y as int, z1 as int, x1 as int) < old(s)@.len(),
    ensures
        final(s)@.len() == old(s)@.len(),
        forall|i: int|
            0 <= i < old(s)@.len() ==> #[trigger] final(s)@[i] == if in_rect(
                i,
                x0 as int,
                x1 as int,
                z0 as int,
                z1 as int,
                y as int,
            ) {
                BlockState(id)
            } else {
                old(s)@[i]
            },
{
    if z0 > z1 || x0 > x1 {
        assert forall|i: int| 0 <= i < s@.len() implies !in_rect(
            i,
            x0 as int,
            x1 as int,
            z0 as int,
            z1 as int,
            y as int,
        ) by {
            if in_rect(i, x0 as int, x1 as int, z0 as int, z1 as int, y as int) {
                let (zz, xx) = choose|zz: int, xx: int|
                    z0 <= zz <= z1 && x0 <= xx <= x1 && i == #[trigger] block_index(y as int, zz, xx);
            }
        }
        return;
    }
    let ghost orig = s@;
    let n = s.len();
    let mut z = z0;
    while z <= z1
        invariant
            z0 <= z <= z1 + 1,
            x0 <= x1,
            z0 <= z1,
            block_index(y as int, z1 as int, x1 as int) < orig.len(),
            s@.len() == orig.len(),
            orig.len() == n,
            orig == old(s)@,
            forall|i: int|
                0 <= i < orig.len() ==> #[trigger] s@[i] == if in_rect(
                    i,
                    x0 as int,
                    x1 as int,
                    z0 as int,
                    z - 1,
                    y as int,
                ) {
                    BlockState(id)
                } else {
                    orig[i]
                },
        decreases z1 + 1 - z,
    {
        let mut x = x0;
        while x <= x1
            invariant
                x0 <= x <= x1 + 1,
                z0 <= z <= z1,
                block_index(y as int, z1 as int, x1 as int) < orig.len(),
                s@.len() == orig.len(),
                orig.len() == n,
                forall|i: int|
                    0 <= i < orig.len() ==> #[trigger] s@[i] == if in_rect(
                        i,
                        x0 as int,
                        x1 as int,
                        z0 as int,
                        z - 1,
                        y as int,
                    ) || in_rect(i, x0 as int, x - 1, z as int, z as int, y as int) {
                        BlockState(id)
                    } else {
                        orig[i]
                    },
            decreases x1 + 1 - x,
        {
            assert(block_index(y as int, z as int, x as int) <= block_index(
                y as int,
                z1 as int,
                x1 as int,
            )) by (nonlinear_arith)
                requires
                    z <= z1,
                    x <= x1,
            ;
            let idx = y * W * W + z * W + x;
            s[idx] = BlockState::from_raw(id);
            proof {
                assert forall|i: int| 0 <= i < orig.len() implies #[trigger] s@[i] == if in_rect(
                    i,
                    x0 as int,
                    x1 as int,
                    z0 as int,
                    z - 1,
                    y as int,
                ) || in_rect(i, x0 as int, x as int, z as int, z as int, y as int) {
                    BlockState(id)
                } else {
                    orig[i]
                } by {
                    lemma_rect_row_step(i, x0 as int, x as int, z as int, y as int);
                }
            }
            x += 1;
        }
        proof {
            assert forall|i: int| 0 <= i < orig.len() implies #[trigger] s@[i] == if in_rect(
                i,
                x0 as int,
                x1 as int,
                z0 as int,
                z as int,
                y as int,
            ) {
                BlockState(id)
            } else {
                orig[i]
            } by {
                lemma_rect_rows_step(i, x0 as int, x1 as int, z0 as int, z as int, y as int);
            }
        }
        z += 1;
    }
}

/// Fill a 2D rectangle at a given Y layer within a section.
fn fill_rect_y(
    section: &mut ChunkSection,
    y: usize,
    x0: usize,
    z0: usize,
    x1: usize,
    z1: usize,
    id: u16,
)
    requires
        y < SECTION_HEIGHT,
        z0 <= z1 && x0 <= x1 ==> block_index(y as int, z1 as int, x1 as int) < old(
            section,
        ).blocks@.len(),
    ensures
        final(section).blocks@.len() == old(section).blocks@.len(),
        forall|i: int|
            0 <= i < old(section).blocks@.len() ==> #[trigger] final(section).blocks@[i] == if in_rect(
                i,
                x0 as int,
                x1 as int,
                z0 as int,
                z1 as int,
                y as int,
            ) {
                BlockState(id)
            } else {
                old(section).blocks@[i]
            },
{
    fill_rect(section.blocks.as_mut_slice(), x0, x1, z0, z1, y, id);
}

/// Fill the cells (x, y, z) for `y0 <= y <= y1` of a section with a block.
fn fill_column(section: &mut ChunkSection, x: usize, z: usize, y0: usize, y1: usize, id: u16)
    requires
        y0 <= y1 ==> block_index(y1 as int, z as int, x as int) < old(section).blocks@.len(),
    ensures
        final(section).blocks@.len() == old(section).blocks@.len(),
        forall|i: int|
            0 <= i < old(section).blocks@.len() ==> #[trigger] final(section).blocks@[i] == if in_column(
                i,
                x as int,
                z as int,
                y0 as int,
                y1 as int,
            ) {
                BlockState(id)
            } else {
                old(section).blocks@[i]
            },
{
    if y0 > y1 {
        assert forall|i: int| 0 <= i < section.blocks@.len() implies !in_column(
            i,
            x as int,
            z as int,
            y0 as int,
            y1 as int,
        ) by {
            if in_column(i, x as int, z as int, y0 as int, y1 as int) {
                let yy = choose|yy: int|
                    y0 <= yy <= y1 && i == #[trigger] block_index(yy, z as int, x as int);
            }
        }
        return;
    }
    let ghost orig = section.blocks@;
    let n = section.blocks.len();
    let mut y = y0;
    while y <= y1
        invariant
            y0 <= y <= y1 + 1,
            y0 <= y1,
            block_index(y1 as int, z as int, x as int) < orig.len(),
            section.blocks@.len() == orig.len(),
            orig.len() == n,
            orig == old(section).blocks@,
            forall|i: int|
                0 <= i < orig.len() ==> #[trigger] section.blocks@[i] == if in_column(
                    i,
                    x as int,
                    z as int,
                    y0 as int,
                    y - 1,
                ) {
                    BlockState(id)
                } else {
                    orig[i]
                },
        decreases y1 + 1 - y,
    {
        let idx = y * W * W + z * W + x;
        section.blocks[idx] = BlockState::from_raw(id);
        proof {
            assert forall|i: int| 0 <= i < orig.len() implies #[trigger] section.blocks@[i]
                == if in_column(i, x as int, z as int, y0 as int, y as int) {
                BlockState(id)
            } else {
                orig[i]
            } by {
                lemma_column_step(i, x as int, z as int, y0 as int, y as int);
            }
        }
        y += 1;
    }
}

/// Fill the layers `y0 <= y < y1` of a 16×16×16 section with a block.
fn fill_layers(s: &mut ChunkSection, y0: usize, y1: usize, id: u16)
    requires
        y0 <= y1 <= 16,
        old(s).blocks@.len() == BLOCKS_PER_SECTION,
    ensures
        final(s).blocks@.len() == BLOCKS_PER_SECTION,
        forall|y: int, z: int, x: int|
            local(y) && local(z) && local(x) ==> #[trigger] final(s).blocks@[block_index(y, z, x)]
                == if y0 <= y < y1 {
                BlockState(id)
            } else {
                old(s).blocks@[block_index(y, z, x)]
            },
{
    let ghost orig = s.blocks@;
    let mut y = y0;
    while y < y1
        invariant
            y0 <= y <= y1 <= 16,
            s.blocks@.len() == BLOCKS_PER_SECTION,
            orig == old(s).blocks@,
            forall|yy: int, zz: int, xx: int|
                local(yy) && local(zz) && local(xx) ==> #[trigger] s.blocks@[block_index(yy, zz, xx)]
                    == if y0 <= yy < y {
                    BlockState(id)
                } else {
                    orig[block_index(yy, zz, xx)]
                },
        decreases y1 - y,
    {
        let mut z: usize = 0;
        while z < W
            invariant
                y0 <= y < y1 <= 16,
                z <= 16,
                s.blocks@.len() == BLOCKS_PER_SECTION,
                forall|yy: int, zz: int, xx: int|
                    local(yy) && local(zz) && local(xx) ==> #[trigger] s.blocks@[block_index(
                        yy,
                        zz,
                        xx,
                    )] == if y0 <= yy < y || (yy == y && zz < z) {
                        BlockState(id)
                    } else {
                        orig[block_index(yy, zz, xx)]
                    },
            decreases 16 - z,
        {
            let mut x: usize = 0;
            while x < W
                invariant
                    y0 <= y < y1 <= 16,
                    z < 16,
                    x <= 16,
                    s.blocks@.len() == BLOCKS_PER_SECTION,
                    forall|yy: int, zz: int, xx: int|
                        local(yy) && local(zz) && local(xx) ==> #[trigger] s.blocks@[block_index(
                            yy,
                            zz,
                            xx,
                        )] == if y0 <= yy < y || (yy == y && zz < z) || (yy == y && zz == z && xx
                            < x) {
                            BlockState(id)
                        } else {
                            orig[block_index(yy, zz, xx)]
                        },
                decreases 16 - x,
            {
                let idx = y * W * W + z * W + x;
                assert(idx == block_index(y as int, z as int, x as int));
                s.blocks[idx] = BlockState::from_raw(id);
                proof {
                    assert forall|yy: int, zz: int, xx: int|
                        local(yy) && local(zz) && local(xx) implies #[trigger] s.blocks@[block_index(
                            yy,
                            zz,
                            xx,
                        )] == if y0 <= yy < y || (yy == y && zz < z) || (yy == y && zz == z && xx
                            <= x) {
                            BlockState(id)
                        } else {
                            orig[block_index(yy, zz, xx)]
                        } by {
                        if block_index(yy, zz, xx) == idx {
                            lemma_index_unique(yy, zz, xx, y as int, z as int, x as int);
                        }
                        lemma_index_range(yy, zz, xx);
                    }
                }
                x += 1;
            }
            z += 1;
        }
        y += 1;
    }
}

/// The sample pillars of the center chunk: local (x, z) and block id, in placement
/// order.
pub open spec fn demo_pillars() -> Seq<(int, int, u16)> {
    seq![
        (2, 2, 1u16),
        (2, 5, 2139u16),
        (2, 8, 15u16),
        (2, 11, 16u16),
        (2, 14, 2137u16),
        (5, 2, 4340u16),
        (5, 5, 2107u16),
        (5, 8, 2104u16),
        (5, 11, 2100u16),
        (5, 14, 562u16),
        (8, 2, 136u16),
        (8, 5, 139u16),
        (8, 8, 148u16),
        (8, 11, 151u16),
        (8, 14, 160u16),
        (11, 2, 129u16),
        (11, 5, 131u16),
        (11, 8, 133u16),
        (11, 11, 23970u16),
        (11, 14, 563u16),
        (14, 2, 6780u16),
        (14, 5, 5958u16),
        (14, 8, 6028u16),
        (14, 11, 2093u16)
    ]
}

/// The block id of the last pillar in `t` placed at (x, z), if any.
pub open spec fn pillar_at(t: Seq<(int, int, u16)>, x: int, z: int) -> Option<u16>
    decreases t.len(),
{
    if t.len() == 0 {
        None
    } else if t.last().0 == x && t.last().1 == z {
        Some(t.last().2)
    } else {
        pillar_at(t.drop_last(), x, z)
    }
}

/// The ground layers of the surface section: bedrock, three layers of stone, two of
/// dirt, grass on top, air above.
pub open spec fn demo_ground(y: int) -> u16 {
    if y == 0 {
        85
    } else if y < 4 {
        1
    } else if y < 6 {
        10
    } else if y == 6 {
        9
    } else {
        0
    }
}

/// The cobblestone cross one layer above the grass along local x = 0 and z = 0.
pub open spec fn demo_path(y: int, z: int, x: int) -> u16 {
    if y == 7 && (x == 0 || z == 0) {
        14
    } else {
        demo_ground(y)
    }
}

/// The path with the first `k` pillars (three blocks tall, from y = 7) placed over it.
pub open spec fn demo_pillared(k: int, y: int, z: int, x: int) -> u16 {
    if 7 <= y <= 9 && pillar_at(demo_pillars().take(k), x, z) is Some {
        pillar_at(demo_pillars().take(k), x, z).unwrap()
    } else {
        demo_path(y, z, x)
    }
}

/// The surface section of the center chunk: pillars over the path, and a 2×2 patch of
/// white terracotta at local (14..15, 14..15) one layer above the grass.
pub open spec fn demo_center_surface(y: int, z: int, x: int) -> u16 {
    if y == 7 && 14 <= x <= 15 && 14 <= z <= 15 {
        10165
    } else {
        demo_pillared(24, y, z, x)
    }
}

/// The block at local (x, y, z) of section `si` of demo chunk (cx, cz): stone in the four
/// lowest sections, the surface in section 4, air in section 5.
pub open spec fn demo_block(cx: int, cz: int, si: int, y: int, z: int, x: int) -> u16 {
    if si < 4 {
        1
    } else if si == 4 {
        if cx == 0 && cz == 0 {
            demo_center_surface(y, z, x)
        } else {
            demo_ground(y)
        }
    } else {
        0
    }
}

/// Whether (cx, cz) is one of the nine demo chunks.
pub open spec fn demo_chunk_exists(cx: int, cz: int) -> bool {
    -1 <= cx <= 1 && -1 <= cz <= 1
}

/// The demo world differs only in its center chunk: any two of the other eight chunks
/// hold the same blocks, and every chunk, the center too, is stone below section 4 and
/// air above it.
pub proof fn law_demo_chunks_differ_only_at_center(
    cx: int,
    cz: int,
    cx2: int,
    cz2: int,
    si: int,
    y: int,
    z: int,
    x: int,
)
    requires
        !(cx == 0 && cz == 0),
        !(cx2 == 0 && cz2 == 0),
    ensures
        demo_block(cx, cz, si, y, z, x) == demo_block(cx2, cz2, si, y, z, x),
        si < 4 ==> demo_block(0, 0, si, y, z, x) == 1 && demo_block(cx, cz, si, y, z, x) == 1,
        si > 4 ==> demo_block(0, 0, si, y, z, x) == 0 && demo_block(cx, cz, si, y, z, x) == 0,
{
}

/// Generates a demo chunk for the given chunk coordinates.
pub fn generate_demo_chunk(cx: i32, cz: i32) -> (r: Option<Chunk>)
    ensures
        r is None <==> !demo_chunk_exists(cx as int, cz as int),
        r matches Some(c) ==> {
            &&& c.sections@.len() == 6
            &&& forall|si: int| 0 <= si < 6 ==> #[trigger] c.sections@[si].blocks@.len()
                == BLOCKS_PER_SECTION
            &&& forall|si: int, y: int, z: int, x: int|
                0 <= si < 6 && local(y) && local(z) && local(x) ==> #[trigger] c.sections@[si].blocks@[block_index(y, z, x)]
                    == BlockState(demo_block(cx as int, cz as int, si, y, z, x))
        },
{
    if cx < -1 || cx > 1 || cz < -1 || cz > 1 {
        return None;
    }

    let mut sections: Vec<ChunkSection> = Vec::new();

    // Sections 0-3: y=0..64 — all stone (for depth)
    let mut k: usize = 0;
    while k < 4
        invariant
            k <= 4,
            sections@.len() == k,
            forall|si: int| 0 <= si < k ==> #[trigger] sections@[si].blocks@.len() == BLOCKS_PER_SECTION,
            forall|si: int, i: int|
                0 <= si < k && 0 <= i < BLOCKS_PER_SECTION ==> #[trigger] sections@[si].blocks@[i]
                    == BlockState(1),
        decreases 4 - k,
    {
        sections.push(solid_plane(0, 1));
        k += 1;
    }

    // Section 4: y=64..80 — surface level
    let mut s = air_section();
    fill_layers(&mut s, 0, 1, 85);
    fill_layers(&mut s, 1, 4, 1);
    fill_layers(&mut s, 4, 6, 10);
    fill_layers(&mut s, 6, 7, 9);
    assert forall|y: int, z: int, x: int| local(y) && local(z) && local(x) implies #[trigger] s.blocks@[block_index(y, z, x)]
        == BlockState(demo_ground(y)) by {
        lemma_index_range(y, z, x);
    }

    let center = cx == 0 && cz == 0;
    if center {
        // Path at x=0 and z=0 lines, one layer above the grass
        let mut z: usize = 0;
        while z < W
            invariant
                z <= 16,
                s.blocks@.len() == BLOCKS_PER_SECTION,
                forall|yy: int, zz: int, xx: int|
                    local(yy) && local(zz) && local(xx) ==> #[trigger] s.blocks@[block_index(
                        yy,
                        zz,
                        xx,
                    )] == BlockState(
                        if yy == 7 && xx == 0 && zz < z {
                            14
                        } else {
                            demo_ground(yy)
                        },
                    ),
            decreases 16 - z,
        {
            let ghost before = s.blocks@;
            fill_rect_y(&mut s, 7, 0, z, 0, z, 14);
            proof {
                assert forall|yy: int, zz: int, xx: int|
                    local(yy) && local(zz) && local(xx) implies #[trigger] s.blocks@[block_index(
                        yy,
                        zz,
                        xx,
                    )] == BlockState(
                        if yy == 7 && xx == 0 && zz <= z {
                            14
                        } else {
                            demo_ground(yy)
                        },
                    ) by {
                    lemma_index_range(yy, zz, xx);
                    lemma_rect_local(yy, zz, xx, 0, 0, z as int, z as int, 7);
                    assert(before[block_index(yy, zz, xx)] == BlockState(
                        if yy == 7 && xx == 0 && zz < z {
                            14
                        } else {
                            demo_ground(yy)
                        },
                    ));
                }
            }
            z += 1;
        }
        let mut x: usize = 0;
        while x < W
            invariant
                x <= 16,
                s.blocks@.len() == BLOCKS_PER_SECTION,
                forall|yy: int, zz: int, xx: int|
                    local(yy) && local(zz) && local(xx) ==> #[trigger] s.blocks@[block_index(
                        yy,
                        zz,
                        xx,
                    )] == BlockState(
                        if yy == 7 && (xx == 0 || (zz == 0 && xx < x)) {
                            14
                        } else {
                            demo_ground(yy)
                        },
                    ),
            decreases 16 - x,
        {
            let ghost before = s.blocks@;
            fill_rect_y(&mut s, 7, x, 0, x, 0, 14);
            proof {
                assert forall|yy: int, zz: int, xx: int|
                    local(yy) && local(zz) && local(xx) implies #[trigger] s.blocks@[block_index(
                        yy,
                        zz,
                        xx,
                    )] == BlockState(
                        if yy == 7 && (xx == 0 || (zz == 0 && xx <= x)) {
                            14
                        } else {
                            demo_ground(yy)
                        },
                    ) by {
                    lemma_index_range(yy, zz, xx);
                    lemma_rect_local(yy, zz, xx, x as int, x as int, 0, 0, 7);
                    assert(before[block_index(yy, zz, xx)] == BlockState(
                        if yy == 7 && (xx == 0 || (zz == 0 && xx < x)) {
                            14
                        } else {
                            demo_ground(yy)
                        },
                    ));
                }
            }
            x += 1;
        }
        assert forall|yy: int, zz: int, xx: int| local(yy) && local(zz) && local(xx) implies #[trigger] s.blocks@[block_index(yy, zz, xx)]
            == BlockState(demo_pillared(0, yy, zz, xx)) by {
            assert(demo_pillars().take(0) =~= Seq::<(int, int, u16)>::empty());
        }

        // Demo blocks: columns of different types at specific positions
        let pillar_positions: [(usize, usize, u16, &str); 24] = [
        (2, 2, 1, "stone"),
        (2, 5, 2139, "bricks"),
        (2, 8, 15, "oak_planks"),
        (2, 11, 16, "spruce_planks"),
        (2, 14, 2137, "gold_block"),
        (5, 2, 4340, "diamond_block"),
        (5, 5, 2107, "red_wool"),
        (5, 8, 2104, "blue_wool"),
        (5, 11, 2100, "gray_wool"),
        (5, 14, 562, "glass"),
        (8, 2, 136, "oak_log"),
        (8, 5, 139, "spruce_log"),
        (8, 8, 148, "acacia_log"),
        (8, 11, 151, "cherry_log"),
        (8, 14, 160, "mangrove_log"),
        (11, 2, 129, "gold_ore"),
        (11, 5, 131, "iron_ore"),
        (11, 8, 133, "coal_ore"),
        (11, 11, 23970, "copper_ore"),
        (11, 14, 563, "lapis_ore"),
        (14, 2, 6780, "stone_bricks"),
        (14, 5, 5958, "ice"),
        (14, 8, 6028, "netherrack"),
        (14, 11, 2093, "white_wool"),
        ];
        assert(pillar_positions@.len() == 24);
        assert(forall|j: int| 0 <= j < 24 ==> {
            &&& #[trigger] pillar_positions@[j].0 as int == demo_pillars()[j].0
            &&& pillar_positions@[j].1 as int == demo_pillars()[j].1
            &&& pillar_positions@[j].2 == demo_pillars()[j].2
            &&& pillar_positions@[j].0 < 16
            &&& pillar_positions@[j].1 < 16
        });
        let mut j: usize = 0;
        while j < 24
            invariant
                j <= 24,
                s.blocks@.len() == BLOCKS_PER_SECTION,
                pillar_positions@.len() == 24,
                forall|jj: int| 0 <= jj < 24 ==> {
                    &&& #[trigger] pillar_positions@[jj].0 as int == demo_pillars()[jj].0
                    &&& pillar_positions@[jj].1 as int == demo_pillars()[jj].1
                    &&& pillar_positions@[jj].2 == demo_pillars()[jj].2
                    &&& pillar_positions@[jj].0 < 16
                    &&& pillar_positions@[jj].1 < 16
                },
                forall|yy: int, zz: int, xx: int|
                    local(yy) && local(zz) && local(xx) ==> #[trigger] s.blocks@[block_index(
                        yy,
                        zz,
                        xx,
                    )] == BlockState(demo_pillared(j as int, yy, zz, xx)),
            decreases 24 - j,
        {
            let (x, z, id, _name) = pillar_positions[j];
            let ghost before = s.blocks@;
            fill_column(&mut s, x, z, 7, 9, id); // 3 blocks tall
            proof {
                let t = demo_pillars().take(j as int + 1);
                assert(t.drop_last() =~= demo_pillars().take(j as int));
                assert(t.last() == demo_pillars()[j as int]);
                assert forall|yy: int, zz: int, xx: int|
                    local(yy) && local(zz) && local(xx) implies #[trigger] s.blocks@[block_index(
                        yy,
                        zz,
                        xx,
                    )] == BlockState(demo_pillared(j as int + 1, yy, zz, xx)) by {
                    lemma_index_range(yy, zz, xx);
                    lemma_column_local(yy, zz, xx, x as int, z as int, 7, 9);
                    assert(before[block_index(yy, zz, xx)] == BlockState(
                        demo_pillared(j as int, yy, zz, xx),
                    ));
                }
            }
            j += 1;
        }

        // Some terracotta colors on the surface
        let color_positions: [(usize, usize, u16); 1] = [
            (14, 14, 10165), // white terracotta
        ];
        let (x, z, id) = color_positions[0];
        let ghost before = s.blocks@;
        fill_rect_y(&mut s, 7, x, z, x + 1, z + 1, id);
        assert forall|yy: int, zz: int, xx: int| local(yy) && local(zz) && local(xx) implies #[trigger] s.blocks@[block_index(yy, zz, xx)]
            == BlockState(demo_center_surface(yy, zz, xx)) by {
            lemma_index_range(yy, zz, xx);
            lemma_rect_local(yy, zz, xx, 14, 15, 14, 15, 7);
            assert(before[block_index(yy, zz, xx)] == BlockState(demo_pillared(24, yy, zz, xx)));
        }
    }

    sections.push(s);

    // Section 5: y=80..96 — air
    sections.push(air_section());

    assert forall|si: int, y: int, z: int, x: int|
        0 <= si < 6 && local(y) && local(z) && local(x) implies #[trigger] sections@[si].blocks@[block_index(y, z, x)]
            == BlockState(demo_block(cx as int, cz as int, si, y, z, x)) by {
        lemma_index_range(y, z, x);
    }
    Some(Chunk { sections })
}

} // verus!
