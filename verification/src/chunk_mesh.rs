//! Greedy meshing of a chunk: the faces between air and solid blocks, merged into
//! maximal rectangles slice by slice.

use vstd::prelude::*;
use crate::chunk::{
    Chunk, ChunkParse, ChunkSection, Step, parse_section, parse_sections, section_raws, sections_raws,
    SECTION_HEIGHT, CHUNK_WIDTH,
};

verus! {

/// One merged face rectangle. On slice `w` of axis `axis` it covers `width` cells along
/// u from `u` and `height` cells along v from `v`; `id` is the block whose face it is, and
/// `pos_face` tells whether that block lies on the lower side of the slice (the face
/// looks toward +axis).
///
/// Axis 0 is x (u = z, v = y), axis 1 is y (u = x, v = z), axis 2 is z (u = x, v = y).
#[derive(Clone, Copy, Debug, PartialEq, Eq, Structural)]
pub struct MeshQuad {
    pub axis: usize,
    pub w: usize,
    pub u: usize,
    pub v: usize,
    pub width: usize,
    pub height: usize,
    pub id: u16,
    pub pos_face: bool,
}

/// The raw id at (x, y, z) of a column of sections given by their raw ids; air outside.
pub open spec fn chunk_raw(raws: Seq<Seq<u16>>, x: int, y: int, z: int) -> u16 {
    if x < 0 || x >= 16 || y < 0 || y >= 16 * raws.len() || z < 0 || z >= 16 {
        0
    } else {
        raws[y / 16][(y % 16) * 256 + z * 16 + x]
    }
}

/// The block coordinates (x, y, z) of cell (u, v) of slice `w` of an axis.
pub open spec fn axis_cell(axis: int, w: int, u: int, v: int) -> (int, int, int) {
    if axis == 0 {
        (w, v, u)
    } else if axis == 1 {
        (u, w, v)
    } else {
        (u, v, w)
    }
}

/// The extent (u, v, w) of the slices of an axis in a column `size_y` blocks tall.
pub open spec fn axis_extent(axis: int, size_y: int) -> (int, int, int) {
    if axis == 0 {
        (16, size_y, 16)
    } else if axis == 1 {
        (16, 16, size_y)
    } else {
        (16, size_y, 16)
    }
}

/// The face at cell (u, v) of slice `w` of an axis, between the block just below the
/// slice and the block just above it: a face of the lower block when only it is solid,
/// of the upper block when only it is solid, none otherwise.
pub open spec fn face_at(raws: Seq<Seq<u16>>, axis: int, w: int, u: int, v: int) -> Option<(u16, bool)> {
    let (cx, cy, cz) = axis_cell(axis, w - 1, u, v);
    let (nx, ny, nz) = axis_cell(axis, w, u, v);
    let cur = chunk_raw(raws, nx, ny, nz);
    let prev = chunk_raw(raws, cx, cy, cz);
    if prev != 0 && cur == 0 {
        Some((prev, true))
    } else if prev == 0 && cur != 0 {
        Some((cur, false))
    } else {
        None
    }
}

/// A face mask: the face at each cell (u, v) of a slice.
pub type FaceMask = spec_fn(int, int) -> Option<(u16, bool)>;

/// The width of the run of cells labelled `l` on row `v` from column `u + w` on.
pub open spec fn width_from(m: FaceMask, us: int, u: int, v: int, l: (u16, bool), w: int) -> int
    decreases us - (u + w),
{
    if u + w < us && m(u + w, v) == Some(l) {
        width_from(m, us, u, v, l, w + 1)
    } else {
        w
    }
}

/// Whether cells `u .. u + wd` of row `row` are all labelled `l`.
#[verifier::opaque]
pub open spec fn row_ok(m: FaceMask, u: int, row: int, wd: int, l: (u16, bool)) -> bool {
    forall|c: int| u <= c < u + wd ==> #[trigger] m(c, row) == Some(l)
}

/// The height of the stack of full rows (width `wd`) labelled `l` from row `v + h` on.
pub open spec fn height_from(m: FaceMask, vs: int, u: int, v: int, wd: int, l: (u16, bool), h: int) -> int
    decreases vs - (v + h),
{
    if v + h < vs && row_ok(m, u, v + h, wd, l) {
        height_from(m, vs, u, v, wd, l, h + 1)
    } else {
        h
    }
}

/// The mask with the rectangle at (u0, v0) of size wd × ht emptied.
pub open spec fn clear_rect(m: FaceMask, u0: int, v0: int, wd: int, ht: int) -> FaceMask {
    |u: int, v: int| if u0 <= u < u0 + wd && v0 <= v < v0 + ht {
        None
    } else {
        m(u, v)
    }
}

/// Greedy merging of a face mask, scanning columns u in order and, within a column, rows
/// v in order from (u, v): each labelled cell found starts a rectangle as wide as the run
/// of equal cells on its row, then as tall as the stack of equal full rows above it; the
/// rectangle is emptied and the scan goes on.
pub open spec fn greedy_scan(m: FaceMask, us: int, vs: int, axis: int, w: int, u: int, v: int) -> Seq<MeshQuad>
    decreases us - u, vs - v,
{
    if u >= us || us < 0 || vs < 0 {
        Seq::empty()
    } else if v >= vs {
        greedy_scan(m, us, vs, axis, w, u + 1, 0)
    } else {
        match m(u, v) {
            None => greedy_scan(m, us, vs, axis, w, u, v + 1),
            Some(l) => {
                let wd = width_from(m, us, u, v, l, 1);
                let ht = height_from(m, vs, u, v, wd, l, 1);
                let q = MeshQuad {
                    axis: axis as usize,
                    w: w as usize,
                    u: u as usize,
                    v: v as usize,
                    width: wd as usize,
                    height: ht as usize,
                    id: l.0,
                    pos_face: l.1,
                };
                seq![q] + greedy_scan(clear_rect(m, u, v, wd, ht), us, vs, axis, w, u, v + 1)
            },
        }
    }
}

/// The faces of slice `w` of an axis.
pub open spec fn slice_mask(raws: Seq<Seq<u16>>, axis: int, w: int) -> FaceMask {
    |u: int, v: int| face_at(raws, axis, w, u, v)
}

/// The merged faces of slices `w ..= w_size` of an axis, then of the following axes.
pub open spec fn quads_from(raws: Seq<Seq<u16>>, axis: int, w: int) -> Seq<MeshQuad>
    decreases 3 - axis, 16 * raws.len() + 17 - w,
{
    if axis >= 3 || axis < 0 {
        Seq::empty()
    } else {
        let (us, vs, ws) = axis_extent(axis, 16 * raws.len() as int);
        if w > ws || w < 0 {
            quads_from(raws, axis + 1, 0)
        } else {
            greedy_scan(slice_mask(raws, axis, w), us, vs, axis, w, 0, 0) + quads_from(
                raws,
                axis,
                w + 1,
            )
        }
    }
}

/// The merged faces of a whole column of sections.
pub open spec fn chunk_quads(raws: Seq<Seq<u16>>) -> Seq<MeshQuad> {
    quads_from(raws, 0, 0)
}

/// A flat mask cell index `v * us + u` lies within the mask.
proof fn lemma_flat_index(us: int, vs: int, u: int, v: int)
    requires
        0 <= u < us,
        0 <= v < vs,
    ensures
        0 <= v * us + u < us * vs,
{
    assert(v * us + u < (v + 1) * us) by (nonlinear_arith)
        requires
            u < us,
    ;
    assert((v + 1) * us <= vs * us) by (nonlinear_arith)
        requires
            v + 1 <= vs,
            0 < us,
    ;
    assert(0 <= v * us) by (nonlinear_arith)
        requires
            0 <= v,
            0 < us,
    ;
    assert(vs * us == us * vs) by (nonlinear_arith);
}

/// Distinct cells have distinct flat indices.
proof fn lemma_flat_inj(us: int, u1: int, v1: int, u2: int, v2: int)
    requires
        0 <= u1 < us,
        0 <= u2 < us,
        0 <= v1,
        0 <= v2,
        v1 * us + u1 == v2 * us + u2,
    ensures
        u1 == u2,
        v1 == v2,
{
    if v1 < v2 {
        assert(v1 * us + u1 < (v1 + 1) * us) by (nonlinear_arith)
            requires
                u1 < us,
        ;
        assert((v1 + 1) * us <= v2 * us) by (nonlinear_arith)
            requires
                v1 + 1 <= v2,
                0 < us,
        ;
    } else if v2 < v1 {
        assert(v2 * us + u2 < (v2 + 1) * us) by (nonlinear_arith)
            requires
                u2 < us,
        ;
        assert((v2 + 1) * us <= v1 * us) by (nonlinear_arith)
            requires
                v2 + 1 <= v1,
                0 < us,
        ;
    }
}

/// Whether every section of a column holds at least a full section of blocks.
pub open spec fn sections_complete(secs: Seq<ChunkSection>) -> bool {
    forall|i: int| 0 <= i < secs.len() ==> #[trigger] secs[i].blocks@.len() >= 4096
}

/// The raw id at (x, y, z) of the chunk; air outside.
fn raw_at(chunk: &Chunk, size_y: usize, x: isize, y: isize, z: isize) -> (r: u16)
    requires
        sections_complete(chunk.sections@),
        size_y == 16 * chunk.sections@.len(),
    ensures
        r == chunk_raw(sections_raws(chunk.sections@), x as int, y as int, z as int),
{
    let size_x = CHUNK_WIDTH;
    let size_z = CHUNK_WIDTH;
    if x < 0 || x >= size_x as isize || y < 0 || y as usize >= size_y || z < 0 || z >= size_z as isize {
        return 0;
    }
    let si = (y as usize) / SECTION_HEIGHT;
    let local_y = (y as usize) % SECTION_HEIGHT;
    let idx = local_y * size_z * size_x + (z as usize) * size_x + (x as usize);
    assert(si < chunk.sections@.len());
    assert(chunk.sections@[si as int].blocks@.len() >= 4096);
    chunk.sections[si].blocks[idx].raw()
}

/// The face mask of slice `w` of an axis, flattened row by row (`v * u_size + u`).
fn build_mask(
    chunk: &Chunk,
    size_y: usize,
    axis: usize,
    w: usize,
    u_size: usize,
    v_size: usize,
) -> (r: Vec<Option<(u16, bool)>>)
    requires
        sections_complete(chunk.sections@),
        size_y == 16 * chunk.sections@.len(),
        256 * chunk.sections@.len() <= isize::MAX,
        axis < 3,
        (u_size as int, v_size as int, w as int + 0) == (axis_extent(axis as int, size_y as int).0, axis_extent(axis as int, size_y as int).1, w as int),
        w <= axis_extent(axis as int, size_y as int).2,
    ensures
        r@.len() == u_size * v_size,
        forall|u: int, v: int|
            0 <= u < u_size && 0 <= v < v_size ==> #[trigger] r@[v * u_size + u] == face_at(
                sections_raws(chunk.sections@),
                axis as int,
                w as int,
                u,
                v,
            ),
{
    let ghost raws = sections_raws(chunk.sections@);
    let n = u_size * v_size;
    let mut mask: Vec<Option<(u16, bool)>> = Vec::with_capacity(n);
    let mut i: usize = 0;
    while i < n
        invariant
            i <= n,
            mask@.len() == i,
            forall|j: int| 0 <= j < i ==> #[trigger] mask@[j] == None::<(u16, bool)>,
        decreases n - i,
    {
        mask.push(None);
        i += 1;
    }
    let mut v: usize = 0;
    while v < v_size
        invariant
            v <= v_size,
            mask@.len() == n,
            n == u_size * v_size,
            sections_complete(chunk.sections@),
            size_y == 16 * chunk.sections@.len(),
            256 * chunk.sections@.len() <= isize::MAX,
            axis < 3,
            u_size as int == axis_extent(axis as int, size_y as int).0,
            v_size as int == axis_extent(axis as int, size_y as int).1,
            w <= axis_extent(axis as int, size_y as int).2,
            raws == sections_raws(chunk.sections@),
            forall|uu: int, vv: int|
                0 <= uu < u_size && 0 <= vv < v_size ==> #[trigger] mask@[vv * u_size + uu] == if vv < v {
                    face_at(raws, axis as int, w as int, uu, vv)
                } else {
                    None
                },
        decreases v_size - v,
    {
        let mut u: usize = 0;
        while u < u_size
            invariant
                u <= u_size,
                v < v_size,
                mask@.len() == n,
                n == u_size * v_size,
                sections_complete(chunk.sections@),
                size_y == 16 * chunk.sections@.len(),
                256 * chunk.sections@.len() <= isize::MAX,
                axis < 3,
                u_size as int == axis_extent(axis as int, size_y as int).0,
                v_size as int == axis_extent(axis as int, size_y as int).1,
                w <= axis_extent(axis as int, size_y as int).2,
                raws == sections_raws(chunk.sections@),
                forall|uu: int, vv: int|
                    0 <= uu < u_size && 0 <= vv < v_size ==> #[trigger] mask@[vv * u_size + uu]
                        == if vv < v || (vv == v && uu < u) {
                        face_at(raws, axis as int, w as int, uu, vv)
                    } else {
                        None
                    },
            decreases u_size - u,
        {
            let (cx, cy, cz): (isize, isize, isize) = match axis {
                0 => (w as isize - 1, v as isize, u as isize),
                1 => (u as isize, w as isize - 1, v as isize),
                _ => (u as isize, v as isize, w as isize - 1),
            };
            let (nx, ny, nz): (isize, isize, isize) = match axis {
                0 => (w as isize, v as isize, u as isize),
                1 => (u as isize, w as isize, v as isize),
                _ => (u as isize, v as isize, w as isize),
            };

            let cur = raw_at(chunk, size_y, nx, ny, nz);
            let prev = raw_at(chunk, size_y, cx, cy, cz);
            proof {
                lemma_flat_index(u_size as int, v_size as int, u as int, v as int);
            }
            let idx = v * u_size + u;
            let ghost before = mask@;
            if prev != 0 && cur == 0 {
                mask[idx] = Some((prev, true));
            } else if prev == 0 && cur != 0 {
                mask[idx] = Some((cur, false));
            }
            proof {
                assert(mask@[idx as int] == face_at(raws, axis as int, w as int, u as int, v as int));
                assert forall|uu: int, vv: int|
                    0 <= uu < u_size && 0 <= vv < v_size implies #[trigger] mask@[vv * u_size + uu]
                        == if vv < v || (vv == v && uu <= u) {
                        face_at(raws, axis as int, w as int, uu, vv)
                    } else {
                        None
                    } by {
                    lemma_flat_index(u_size as int, v_size as int, uu, vv);
                    if vv * u_size + uu == idx {
                        lemma_flat_inj(u_size as int, uu, vv, u as int, v as int);
                    }
                }
            }
            u += 1;
        }
        v += 1;
    }
    mask
}

/// Whether the exec mask agrees with `m` on the whole slice.
pub open spec fn mask_matches(mask: Seq<Option<(u16, bool)>>, m: FaceMask, us: int, vs: int) -> bool {
    &&& mask.len() == us * vs
    &&& forall|u: int, v: int| 0 <= u < us && 0 <= v < vs ==> #[trigger] mask[v * us + u] == m(u, v)
}

fn cell_is(c: Option<(u16, bool)>, id: u16, pos_face: bool) -> (r: bool)
    ensures
        r == (c == Some((id, pos_face))),
{
    match c {
        Some((a, b)) => a == id && b == pos_face,
        None => false,
    }
}

/// Whether cells `u .. u + width` of row `row` all hold the face (id, pos_face).
fn row_matches(
    mask: &Vec<Option<(u16, bool)>>,
    u_size: usize,
    v_size: usize,
    u: usize,
    row: usize,
    width: usize,
    id: u16,
    pos_face: bool,
    Ghost(m): Ghost<FaceMask>,
) -> (r: bool)
    requires
        mask_matches(mask@, m, u_size as int, v_size as int),
        u_size * v_size <= usize::MAX,
        u + width <= u_size,
        row < v_size,
    ensures
        r == row_ok(m, u as int, row as int, width as int, (id, pos_face)),
{
    let mut k: usize = 0;
    while k < width
        invariant
            k <= width,
            u + width <= u_size,
            row < v_size,
            u_size * v_size <= usize::MAX,
            mask_matches(mask@, m, u_size as int, v_size as int),
            forall|c: int| u <= c < u + k ==> #[trigger] m(c, row as int) == Some((id, pos_face)),
        decreases width - k,
    {
        proof {
            lemma_flat_index(u_size as int, v_size as int, (u + k) as int, row as int);
            let gi = row as int * u_size as int + (u + k) as int;
            assert(mask@[gi] == m((u + k) as int, row as int));
        }
        if !cell_is(mask[row * u_size + (u + k)], id, pos_face) {
            assert(!row_ok(m, u as int, row as int, width as int, (id, pos_face))) by {
                reveal(row_ok);
                assert(m((u + k) as int, row as int) != Some((id, pos_face)));
            }
            return false;
        }
        k += 1;
    }
    proof {
        reveal(row_ok);
    }
    true
}

/// Greedily merges the face mask of slice `w` of an axis into rectangles, appending them
/// to `quads`; the mask is emptied in the process.
fn greedy_slice(
    mask: &mut Vec<Option<(u16, bool)>>,
    u_size: usize,
    v_size: usize,
    axis: usize,
    w: usize,
    quads: &mut Vec<MeshQuad>,
    Ghost(m0): Ghost<FaceMask>,
)
    requires
        mask_matches(old(mask)@, m0, u_size as int, v_size as int),
        u_size * v_size <= usize::MAX,
    ensures
        final(quads)@ == old(quads)@ + greedy_scan(m0, u_size as int, v_size as int, axis as int, w as int, 0, 0),
{
    let ghost start = quads@;
    let ghost mut m = m0;
    let ghost us = u_size as int;
    let ghost vs = v_size as int;
    let mut u: usize = 0;
    while u < u_size
        invariant
            u <= u_size,
            us == u_size,
            vs == v_size,
            u_size * v_size <= usize::MAX,
            mask_matches(mask@, m, us, vs),
            start == old(quads)@,
            start + greedy_scan(m0, us, vs, axis as int, w as int, 0, 0) == quads@ + greedy_scan(
                m,
                us,
                vs,
                axis as int,
                w as int,
                u as int,
                0,
            ),
        decreases u_size - u,
    {
        let mut v: usize = 0;
        while v < v_size
            invariant
                u < u_size,
                v <= v_size,
                us == u_size,
                vs == v_size,
                u_size * v_size <= usize::MAX,
                mask_matches(mask@, m, us, vs),
                start == old(quads)@,
                start + greedy_scan(m0, us, vs, axis as int, w as int, 0, 0) == quads@ + greedy_scan(
                    m,
                    us,
                    vs,
                    axis as int,
                    w as int,
                    u as int,
                    v as int,
                ),
            decreases v_size - v,
        {
            proof {
                lemma_flat_index(us, vs, u as int, v as int);
            }
            let idx = v * u_size + u;
            let (id, pos_face) = match mask[idx] {
                None => {
                    v += 1;
                    continue;
                },
                Some(c) => c,
            };
            let ghost l = (id, pos_face);

            let mut width: usize = 1;
            loop
                invariant
                    u < u_size,
                    v < v_size,
                    1 <= width,
                    u + width <= u_size,
                    u_size * v_size <= usize::MAX,
                    l == (id, pos_face),
                    mask_matches(mask@, m, us, vs),
                    us == u_size,
                    vs == v_size,
                    width_from(m, us, u as int, v as int, l, width as int) == width_from(
                        m,
                        us,
                        u as int,
                        v as int,
                        l,
                        1,
                    ),
                ensures
                    1 <= width,
                    u + width <= u_size,
                    width as int == width_from(m, us, u as int, v as int, l, 1),
                decreases u_size - width,
            {
                if u + width >= u_size {
                    assert(width_from(m, us, u as int, v as int, l, width as int) == width as int);
                    break;
                }
                proof {
                    lemma_flat_index(us, vs, (u + width) as int, v as int);
                    let gi = v as int * us + (u + width) as int;
                    assert(mask@[gi] == m((u + width) as int, v as int));
                }
                if !cell_is(mask[v * u_size + (u + width)], id, pos_face) {
                    assert(width_from(m, us, u as int, v as int, l, width as int) == width as int);
                    break;
                }
                assert(width_from(m, us, u as int, v as int, l, width as int) == width_from(
                    m,
                    us,
                    u as int,
                    v as int,
                    l,
                    width as int + 1,
                ));
                width += 1;
            }
            let ghost wd = width as int;
            assert(wd == width_from(m, us, u as int, v as int, l, 1));

            let mut height: usize = 1;
            loop
                invariant
                    u < u_size,
                    v < v_size,
                    1 <= height,
                    v + height <= v_size,
                    u + width <= u_size,
                    u_size * v_size <= usize::MAX,
                    l == (id, pos_face),
                    wd == width,
                    mask_matches(mask@, m, us, vs),
                    us == u_size,
                    vs == v_size,
                    height_from(m, vs, u as int, v as int, wd, l, height as int) == height_from(
                        m,
                        vs,
                        u as int,
                        v as int,
                        wd,
                        l,
                        1,
                    ),
                ensures
                    1 <= height,
                    v + height <= v_size,
                    height as int == height_from(m, vs, u as int, v as int, wd, l, 1),
                decreases v_size - height,
            {
                if v + height >= v_size {
                    assert(height_from(m, vs, u as int, v as int, wd, l, height as int) == height as int);
                    break;
                }
                if !row_matches(mask, u_size, v_size, u, v + height, width, id, pos_face, Ghost(m)) {
                    assert(height_from(m, vs, u as int, v as int, wd, l, height as int) == height as int);
                    break;
                }
                assert(height_from(m, vs, u as int, v as int, wd, l, height as int) == height_from(
                    m,
                    vs,
                    u as int,
                    v as int,
                    wd,
                    l,
                    height as int + 1,
                ));
                height += 1;
            }
            let ghost ht = height as int;

            // Empty the rectangle
            let ghost mc = clear_rect(m, u as int, v as int, wd, ht);
            let mut hv: usize = 0;
            while hv < height
                invariant
                    hv <= height,
                    u < u_size,
                    v < v_size,
                    v + height <= v_size,
                    u + width <= u_size,
                    wd == width,
                    ht == height,
                    us == u_size,
                    vs == v_size,
                    mask@.len() == us * vs,
                    u_size * v_size <= usize::MAX,
                    mc == clear_rect(m, u as int, v as int, wd, ht),
                    forall|uu: int, vv: int|
                        0 <= uu < us && 0 <= vv < vs ==> #[trigger] mask@[vv * us + uu] == if v <= vv
                            < v + hv {
                            mc(uu, vv)
                        } else {
                            m(uu, vv)
                        },
                decreases height - hv,
            {
                let mut hu: usize = 0;
                while hu < width
                    invariant
                        hv < height,
                        hu <= width,
                        u < u_size,
                        v < v_size,
                        v + height <= v_size,
                        u + width <= u_size,
                        wd == width,
                        ht == height,
                        us == u_size,
                        vs == v_size,
                        mask@.len() == us * vs,
                        u_size * v_size <= usize::MAX,
                        mc == clear_rect(m, u as int, v as int, wd, ht),
                        forall|uu: int, vv: int|
                            0 <= uu < us && 0 <= vv < vs ==> #[trigger] mask@[vv * us + uu] == if v
                                <= vv < v + hv || (vv == v + hv && u <= uu < u + hu) {
                                mc(uu, vv)
                            } else {
                                m(uu, vv)
                            },
                    decreases width - hu,
                {
                    proof {
                        lemma_flat_index(us, vs, (u + hu) as int, (v + hv) as int);
                    }
                    let j = (v + hv) * u_size + (u + hu);
                    mask[j] = None;
                    proof {
                        assert forall|uu: int, vv: int|
                            0 <= uu < us && 0 <= vv < vs implies #[trigger] mask@[vv * us + uu] == if v
                                <= vv < v + hv || (vv == v + hv && u <= uu < u + hu + 1) {
                                mc(uu, vv)
                            } else {
                                m(uu, vv)
                            } by {
                            lemma_flat_index(us, vs, uu, vv);
                            if vv * us + uu == j {
                                lemma_flat_inj(us, uu, vv, (u + hu) as int, (v + hv) as int);
                            }
                        }
                    }
                    hu += 1;
                }
                hv += 1;
            }

            quads.push(MeshQuad { axis, w, u, v, width, height, id, pos_face });
            proof {
                let q = MeshQuad {
                    axis: axis as usize,
                    w: w as usize,
                    u: u as usize,
                    v: v as usize,
                    width: wd as usize,
                    height: ht as usize,
                    id: l.0,
                    pos_face: l.1,
                };
                assert(greedy_scan(m, us, vs, axis as int, w as int, u as int, v as int) == seq![q]
                    + greedy_scan(mc, us, vs, axis as int, w as int, u as int, v + 1));
                m = mc;
                assert(mask_matches(mask@, m, us, vs));
            }
            v += 1;
        }
        u += 1;
    }
    assert(quads@ + greedy_scan(m, us, vs, axis as int, w as int, u as int, 0) =~= quads@);
}

/// The merged faces of a chunk (the logic of its mesh): for each axis x, y, z in turn
/// and each slice of it from the lowest to the highest, the faces between a solid block
/// and air (outside the chunk counts as air), merged greedily into rectangles.
pub fn chunk_to_quads(chunk: &Chunk) -> (r: Vec<MeshQuad>)
    requires
        sections_complete(chunk.sections@),
        256 * chunk.sections@.len() <= isize::MAX,
    ensures
        r@ == chunk_quads(sections_raws(chunk.sections@)),
{
    let ghost raws = sections_raws(chunk.sections@);
    let size_y = chunk.sections.len() * SECTION_HEIGHT;
    let mut quads: Vec<MeshQuad> = Vec::new();
    let mut axis: usize = 0;
    while axis < 3
        invariant
            axis <= 3,
            raws == sections_raws(chunk.sections@),
            raws.len() == chunk.sections@.len(),
            sections_complete(chunk.sections@),
            256 * chunk.sections@.len() <= isize::MAX,
            size_y == 16 * chunk.sections@.len(),
            quads@ + quads_from(raws, axis as int, 0) == chunk_quads(raws),
        decreases 3 - axis,
    {
        let (u_size, v_size, w_size): (usize, usize, usize) = if axis == 0 {
            (CHUNK_WIDTH, size_y, CHUNK_WIDTH)
        } else if axis == 1 {
            (CHUNK_WIDTH, CHUNK_WIDTH, size_y)
        } else {
            (CHUNK_WIDTH, size_y, CHUNK_WIDTH)
        };
        proof {
            assert(u_size * v_size <= usize::MAX) by (nonlinear_arith)
                requires
                    u_size == 16,
                    v_size == 16 || v_size == size_y,
                    size_y == 16 * chunk.sections@.len(),
                    256 * chunk.sections@.len() <= isize::MAX,
                    isize::MAX <= usize::MAX,
            ;
        }
        let mut w: usize = 0;
        while w <= w_size
            invariant
                axis < 3,
                w <= w_size + 1,
                raws == sections_raws(chunk.sections@),
                raws.len() == chunk.sections@.len(),
                sections_complete(chunk.sections@),
                256 * chunk.sections@.len() <= isize::MAX,
                size_y == 16 * chunk.sections@.len(),
                (u_size as int, v_size as int, w_size as int) == axis_extent(axis as int, size_y as int),
                u_size * v_size <= usize::MAX,
                w_size < usize::MAX,
                quads@ + quads_from(raws, axis as int, w as int) == chunk_quads(raws),
            decreases w_size + 1 - w,
        {
            let mut mask = build_mask(chunk, size_y, axis, w, u_size, v_size);
            let ghost m = slice_mask(raws, axis as int, w as int);
            assert(mask_matches(mask@, m, u_size as int, v_size as int));
            let ghost before = quads@;
            greedy_slice(&mut mask, u_size, v_size, axis, w, &mut quads, Ghost(m));
            proof {
                assert(quads_from(raws, axis as int, w as int) == greedy_scan(
                    m,
                    u_size as int,
                    v_size as int,
                    axis as int,
                    w as int,
                    0,
                    0,
                ) + quads_from(raws, axis as int, w as int + 1));
                vstd::seq_lib::lemma_concat_associative(
                    before,
                    greedy_scan(m, u_size as int, v_size as int, axis as int, w as int, 0, 0),
                    quads_from(raws, axis as int, w as int + 1),
                );
            }
            w += 1;
        }
        proof {
            assert(quads_from(raws, axis as int, w as int) == quads_from(raws, axis as int + 1, 0));
        }
        axis += 1;
    }
    proof {
        assert(quads_from(raws, 3, 0) == Seq::<MeshQuad>::empty());
        assert(quads@ + Seq::<MeshQuad>::empty() == quads@);
    }
    quads
}

/// Whether a quad covers cell (a, b) of its slice.
pub open spec fn quad_covers(q: MeshQuad, a: int, b: int) -> bool {
    q.u <= a < q.u + q.width && q.v <= b < q.v + q.height
}

/// Whether cell (a, b) is still ahead of a column-major scan standing at (u, v).
pub open spec fn ahead_of(u: int, v: int, a: int, b: int) -> bool {
    a > u || (a == u && b >= v)
}

/// What the merged quads of a scan from (u, v) are: each covers only cells ahead of the
/// scan inside the slice, all labelled with the quad's own face; every labelled cell
/// ahead of the scan is covered; no cell is covered twice.
pub open spec fn tiles_from(m: FaceMask, us: int, vs: int, u: int, v: int, qs: Seq<MeshQuad>) -> bool {
    &&& forall|i: int, a: int, b: int|
        0 <= i < qs.len() && #[trigger] quad_covers(qs[i], a, b) ==> {
            &&& 0 <= a < us
            &&& 0 <= b < vs
            &&& ahead_of(u, v, a, b)
            &&& m(a, b) == Some((qs[i].id, qs[i].pos_face))
        }
    &&& forall|a: int, b: int|
        0 <= a < us && 0 <= b < vs && ahead_of(u, v, a, b) && #[trigger] m(a, b) is Some ==> exists|
            i: int,
        |
            0 <= i < qs.len() && #[trigger] quad_covers(qs[i], a, b)
    &&& forall|i: int, j: int, a: int, b: int|
        0 <= i < j < qs.len() ==> !(#[trigger] quad_covers(qs[i], a, b) && #[trigger] quad_covers(
            qs[j],
            a,
            b,
        ))
}

proof fn lemma_width(m: FaceMask, us: int, u: int, v: int, l: (u16, bool), w: int)
    requires
        1 <= w,
        u + w <= us,
        forall|c: int| u <= c < u + w ==> #[trigger] m(c, v) == Some(l),
    ensures
        w <= width_from(m, us, u, v, l, w),
        u + width_from(m, us, u, v, l, w) <= us,
        forall|c: int| u <= c < u + width_from(m, us, u, v, l, w) ==> #[trigger] m(c, v) == Some(l),
    decreases us - (u + w),
{
    if u + w < us && m(u + w, v) == Some(l) {
        lemma_width(m, us, u, v, l, w + 1);
    }
}

proof fn lemma_height(m: FaceMask, vs: int, u: int, v: int, wd: int, l: (u16, bool), h: int)
    requires
        1 <= h,
        v + h <= vs,
        forall|r: int| v <= r < v + h ==> #[trigger] row_ok(m, u, r, wd, l),
    ensures
        h <= height_from(m, vs, u, v, wd, l, h),
        v + height_from(m, vs, u, v, wd, l, h) <= vs,
        forall|r: int| v <= r < v + height_from(m, vs, u, v, wd, l, h) ==> #[trigger] row_ok(m, u, r, wd, l),
    decreases vs - (v + h),
{
    if v + h < vs && row_ok(m, u, v + h, wd, l) {
        lemma_height(m, vs, u, v, wd, l, h + 1);
    }
}

proof fn lemma_tiles_from(m: FaceMask, us: int, vs: int, axis: int, w: int, u: int, v: int)
    requires
        0 <= us <= usize::MAX,
        0 <= vs <= usize::MAX,
        0 <= u,
        0 <= v,
        0 <= w <= usize::MAX,
        0 <= axis <= usize::MAX,
    ensures
        tiles_from(m, us, vs, u, v, greedy_scan(m, us, vs, axis, w, u, v)),
    decreases us - u, vs - v,
{
    let qs = greedy_scan(m, us, vs, axis, w, u, v);
    if u >= us {
        assert(qs.len() == 0);
    } else if v >= vs {
        lemma_tiles_from(m, us, vs, axis, w, u + 1, 0);
    } else {
        match m(u, v) {
            None => {
                lemma_tiles_from(m, us, vs, axis, w, u, v + 1);
            },
            Some(l) => {
                lemma_width(m, us, u, v, l, 1);
                let wd = width_from(m, us, u, v, l, 1);
                assert(row_ok(m, u, v, wd, l)) by {
                    reveal(row_ok);
                }
                lemma_height(m, vs, u, v, wd, l, 1);
                let ht = height_from(m, vs, u, v, wd, l, 1);
                let mc = clear_rect(m, u, v, wd, ht);
                lemma_tiles_from(mc, us, vs, axis, w, u, v + 1);
                let rest = greedy_scan(mc, us, vs, axis, w, u, v + 1);
                let q = MeshQuad {
                    axis: axis as usize,
                    w: w as usize,
                    u: u as usize,
                    v: v as usize,
                    width: wd as usize,
                    height: ht as usize,
                    id: l.0,
                    pos_face: l.1,
                };
                assert(qs == seq![q] + rest);
                assert forall|i: int, a: int, b: int|
                    0 <= i < qs.len() && #[trigger] quad_covers(qs[i], a, b) implies {
                        &&& 0 <= a < us
                        &&& 0 <= b < vs
                        &&& ahead_of(u, v, a, b)
                        &&& m(a, b) == Some((qs[i].id, qs[i].pos_face))
                    } by {
                    if i == 0 {
                        assert(row_ok(m, u, b, wd, l));
                        reveal(row_ok);
                        assert(m(a, b) == Some(l));
                    } else {
                        assert(qs[i] == rest[i - 1]);
                        assert(quad_covers(rest[i - 1], a, b));
                    }
                }
                assert forall|a: int, b: int|
                    0 <= a < us && 0 <= b < vs && ahead_of(u, v, a, b) && #[trigger] m(a, b) is Some implies exists|
                        i: int,
                    |
                        0 <= i < qs.len() && #[trigger] quad_covers(qs[i], a, b) by {
                    if u <= a < u + wd && v <= b < v + ht {
                        assert(quad_covers(qs[0], a, b));
                    } else {
                        assert(mc(a, b) is Some);
                        assert(ahead_of(u, v + 1, a, b));
                        let k = choose|k: int| 0 <= k < rest.len() && #[trigger] quad_covers(rest[k], a, b);
                        assert(qs[k + 1] == rest[k]);
                        assert(quad_covers(qs[k + 1], a, b));
                    }
                }
                assert forall|i: int, j: int, a: int, b: int|
                    0 <= i < j < qs.len() implies !(#[trigger] quad_covers(qs[i], a, b) && #[trigger] quad_covers(
                        qs[j],
                        a,
                        b,
                    )) by {
                    assert(qs[j] == rest[j - 1]);
                    if i == 0 {
                        if quad_covers(qs[j], a, b) {
                            assert(quad_covers(rest[j - 1], a, b));
                            assert(mc(a, b) is Some);
                        }
                    } else {
                        assert(qs[i] == rest[i - 1]);
                    }
                }
            },
        }
    }
}

/// The greedy merge of a slice's faces tiles them exactly: every merged quad lies inside
/// the slice and covers only faces of its own block and side, every face of the slice is
/// covered by a quad, and no two quads overlap.
pub proof fn law_greedy_tiles_faces(m: FaceMask, us: int, vs: int, axis: int, w: int)
    requires
        0 <= us <= usize::MAX,
        0 <= vs <= usize::MAX,
        0 <= w <= usize::MAX,
        0 <= axis <= usize::MAX,
    ensures
        tiles_from(m, us, vs, 0, 0, greedy_scan(m, us, vs, axis, w, 0, 0)),
{
    lemma_tiles_from(m, us, vs, axis, w, 0, 0);
}

proof fn lemma_parsed_sections_full(s: Seq<u8>, pos: nat)
    ensures
        parse_sections(s, pos) matches ChunkParse::Finished(secs, _e) ==> forall|i: int|
            0 <= i < secs.len() ==> #[trigger] secs[i].len() == 4096,
    decreases s.len() - pos,
{
    if pos + 2 <= s.len() {
        if let Step::Done(blocks, q) = parse_section(s, pos) {
            crate::chunk::lemma_section_bounds(s, pos);
            lemma_parsed_sections_full(s, q);
            if let ChunkParse::Finished(rest, _e) = parse_sections(s, q) {
                let secs = seq![blocks] + rest;
                assert forall|i: int| 0 <= i < secs.len() implies #[trigger] secs[i].len() == 4096 by {
                    if i > 0 {
                        assert(secs[i] == rest[i - 1]);
                    }
                }
            }
        }
    }
}

/// Every chunk decoded from a play payload holds full sections, so it can be meshed: a
/// column of sections whose raw ids are what decoding finished with has 4096 blocks in
/// each section.
pub proof fn law_decoded_chunks_are_complete(payload: Seq<u8>, secs: Seq<ChunkSection>)
    requires
        parse_sections(payload, 0) matches ChunkParse::Finished(raws, _e) && sections_raws(secs) == raws,
    ensures
        sections_complete(secs),
{
    lemma_parsed_sections_full(payload, 0);
    assert forall|i: int| 0 <= i < secs.len() implies #[trigger] secs[i].blocks@.len() >= 4096 by {
        assert(sections_raws(secs)[i] == section_raws(secs[i]));
    }
}

} // verus!
