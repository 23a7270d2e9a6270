//! Block tesselation decisions: which faces of a block model are drawn.

use vstd::prelude::*;
use crate::block::BlockState;
use crate::block_pos::BlockPos;
use crate::direction::{Direction, spec_step_x, spec_step_y, spec_step_z};
use crate::render_section_region::BlockAndTintGetter;
use crate::vec3i::Vec3i;
use crate::block_model_set::BlockModel;
use crate::block_state_model::{cube_of, BlockStateModel, CubeBlockModel};

verus! {

/// Tesselates block models into mesh data, with or without face culling.
pub struct ModelBlockRenderer {
    pub cull: bool,
}

impl ModelBlockRenderer {
    pub fn new(cull: bool) -> (r: Self)
        ensures
            r.cull == cull,
    {
        Self { cull }
    }
}

/// The block position one step from `pos` in `direction`.
pub open spec fn neighbor(pos: BlockPos, direction: Direction) -> BlockPos {
    BlockPos(
        (pos.0 + spec_step_x(direction)) as i32,
        (pos.1 + spec_step_y(direction)) as i32,
        (pos.2 + spec_step_z(direction)) as i32,
    )
}

/// Whether the neighbor of `pos` in `direction` exists within `i32` coordinates.
pub open spec fn neighbor_fits(pos: BlockPos, direction: Direction) -> bool {
    &&& i32::MIN <= pos.0 + spec_step_x(direction) <= i32::MAX
    &&& i32::MIN <= pos.1 + spec_step_y(direction) <= i32::MAX
    &&& i32::MIN <= pos.2 + spec_step_z(direction) <= i32::MAX
}

/// A face is drawn when the neighboring block on that side is air.
pub fn should_render_face<L: BlockAndTintGetter>(
    level: &L,
    _state: BlockState,
    direction: Direction,
    pos: BlockPos,
) -> (r: bool)
    requires
        neighbor_fits(pos, direction),
        level.spec_readable(neighbor(pos, direction)),
    ensures
        r == (level.spec_block_state(neighbor(pos, direction)).0 == 0),
{
    let n = pos.relative(direction, 1);
    assert(n == neighbor(pos, direction));
    let neighbor_state = level.get_block_state(n);
    neighbor_state.is_air()
}

/// The direction of face `i` in model face order (down, up, north, south, west, east).
pub open spec fn face_direction(i: int) -> Direction {
    if i == 0 {
        Direction::Down
    } else if i == 1 {
        Direction::Up
    } else if i == 2 {
        Direction::North
    } else if i == 3 {
        Direction::South
    } else if i == 4 {
        Direction::West
    } else {
        Direction::East
    }
}

fn face_direction_exec(i: usize) -> (r: Direction)
    requires
        i < 6,
    ensures
        r == face_direction(i as int),
{
    if i == 0 {
        Direction::Down
    } else if i == 1 {
        Direction::Up
    } else if i == 2 {
        Direction::North
    } else if i == 3 {
        Direction::South
    } else if i == 4 {
        Direction::West
    } else {
        Direction::East
    }
}

/// The directions of the first `n` faces of a cube model that name a texture, in face
/// order; each such face carries one quad.
pub open spec fn textured_faces(c: CubeBlockModel, n: int) -> Seq<Direction>
    decreases n,
{
    if n <= 0 {
        Seq::empty()
    } else {
        textured_faces(c, n - 1) + if c.spec_face_texture_name(n - 1).len() > 0 {
            seq![face_direction(n - 1)]
        } else {
            Seq::empty()
        }
    }
}

/// The quads of one part of a model, as the directions of their faces.
struct PartData {
    face_directions: Vec<Direction>,
}

/// The parts of a block state model: its one cube variant, with a quad for each face
/// that names a texture.
fn collect_parts(model: &BlockStateModel) -> (r: Vec<PartData>)
    ensures
        r@.len() == 1,
        r@[0].face_directions@ == textured_faces(cube_of(*model), 6),
{
    match model {
        BlockStateModel::SingleVariant(sv) => {
            let mut dirs: Vec<Direction> = Vec::new();
            let mut i: usize = 0;
            while i < 6
                invariant
                    i <= 6,
                    dirs@ == textured_faces(*sv, i as int),
                decreases 6 - i,
            {
                let tex_name = sv.face_texture_name(i);
                if !tex_name.is_empty() {
                    dirs.push(face_direction_exec(i));
                }
                i += 1;
            }
            let mut parts: Vec<PartData> = Vec::new();
            parts.push(PartData { face_directions: dirs });
            parts
        },
    }
}

/// The entries of `s` among its first `j` that equal `d`.
pub open spec fn matching(s: Seq<Direction>, d: Direction, j: int) -> Seq<Direction>
    decreases j,
{
    if j <= 0 {
        Seq::empty()
    } else {
        matching(s, d, j - 1) + if s[j - 1] == d {
            seq![d]
        } else {
            Seq::empty()
        }
    }
}

/// Whether the face of the block at `pos` toward `d` is seen: its neighbor there is air.
pub open spec fn face_visible<L: BlockAndTintGetter>(level: &L, pos: BlockPos, d: Direction) -> bool {
    level.spec_block_state(neighbor(pos, d)).0 == 0
}

/// The quads drawn for a part with quad directions `dirs`, going through the first `n`
/// directions in face order: the part's quads toward each direction, unless culling is
/// on and that face is not seen.
pub open spec fn flat_faces<L: BlockAndTintGetter>(
    dirs: Seq<Direction>,
    level: &L,
    pos: BlockPos,
    cull: bool,
    n: int,
) -> Seq<Direction>
    decreases n,
{
    if n <= 0 {
        Seq::empty()
    } else {
        let d = face_direction(n - 1);
        flat_faces(dirs, level, pos, cull, n - 1) + if cull && !face_visible(level, pos, d) {
            Seq::empty()
        } else {
            matching(dirs, d, dirs.len() as int)
        }
    }
}

/// Whether every neighbor of `pos` can be read from `level`.
pub open spec fn neighbors_readable<L: BlockAndTintGetter>(level: &L, pos: BlockPos) -> bool {
    forall|d: Direction| neighbor_fits(pos, d) && #[trigger] level.spec_readable(neighbor(pos, d))
}

/// Draws the quads of one part, face direction by face direction, skipping faces that
/// culling hides.
fn tesselate_part<L: BlockAndTintGetter>(
    out: &mut Vec<Direction>,
    part: &PartData,
    level: &L,
    state: BlockState,
    pos: BlockPos,
    cull: bool,
)
    requires
        cull ==> neighbors_readable(level, pos),
    ensures
        final(out)@ == old(out)@ + flat_faces(part.face_directions@, level, pos, cull, 6),
{
    let ghost dirs = part.face_directions@;
    let mut k: usize = 0;
    while k < 6
        invariant
            k <= 6,
            dirs == part.face_directions@,
            cull ==> neighbors_readable(level, pos),
            out@ == old(out)@ + flat_faces(dirs, level, pos, cull, k as int),
        decreases 6 - k,
    {
        let direction = face_direction_exec(k);
        let mut quads: Vec<Direction> = Vec::new();
        let mut j: usize = 0;
        while j < part.face_directions.len()
            invariant
                j <= dirs.len(),
                dirs == part.face_directions@,
                direction == face_direction(k as int),
                quads@ == matching(dirs, direction, j as int),
            decreases dirs.len() - j,
        {
            if part.face_directions[j] == direction {
                quads.push(direction);
            }
            j += 1;
        }
        let ghost before = out@;
        if quads.len() == 0 {
            assert(flat_faces(dirs, level, pos, cull, k + 1) =~= flat_faces(dirs, level, pos, cull, k as int));
        } else if cull && {
            proof {
                assert(level.spec_readable(neighbor(pos, direction)));
            }
            !should_render_face(level, state, direction, pos)
        } {
            assert(flat_faces(dirs, level, pos, cull, k + 1) =~= flat_faces(dirs, level, pos, cull, k as int));
        } else {
            let mut q: usize = 0;
            while q < quads.len()
                invariant
                    q <= quads@.len(),
                    out@ == before + quads@.take(q as int),
                decreases quads@.len() - q,
            {
                out.push(quads[q]);
                assert(out@ =~= before + quads@.take(q + 1));
                q += 1;
            }
            assert(quads@.take(quads@.len() as int) =~= quads@);
            assert(out@ =~= old(out)@ + flat_faces(dirs, level, pos, cull, k + 1));
        }
        k += 1;
    }
}

/// The quads drawn for the first `n` parts, one part after the other.
spec fn parts_faces<L: BlockAndTintGetter>(
    parts: Seq<PartData>,
    level: &L,
    pos: BlockPos,
    cull: bool,
    n: int,
) -> Seq<Direction>
    decreases n,
{
    if n <= 0 {
        Seq::empty()
    } else {
        parts_faces(parts, level, pos, cull, n - 1) + flat_faces(parts[n - 1].face_directions@, level, pos, cull, 6)
    }
}

/// Draws the quads of each part in turn.
fn tesselate_flat<L: BlockAndTintGetter>(
    out: &mut Vec<Direction>,
    parts: &[PartData],
    level: &L,
    state: BlockState,
    pos: BlockPos,
    cull: bool,
)
    requires
        cull ==> neighbors_readable(level, pos),
    ensures
        final(out)@ == old(out)@ + parts_faces(parts@, level, pos, cull, parts@.len() as int),
{
    let mut p: usize = 0;
    while p < parts.len()
        invariant
            p <= parts@.len(),
            cull ==> neighbors_readable(level, pos),
            out@ == old(out)@ + parts_faces(parts@, level, pos, cull, p as int),
        decreases parts@.len() - p,
    {
        tesselate_part(out, &parts[p], level, state, pos, cull);
        assert(out@ =~= old(out)@ + parts_faces(parts@, level, pos, cull, p + 1));
        p += 1;
    }
}

/// The quads drawn for a block with model `model` at `pos`, as face directions: none for
/// an empty model; for a state model, its textured faces in face order, each unless
/// culling is on and the neighbor on that side is not air.
pub open spec fn block_faces<L: BlockAndTintGetter>(
    model: BlockModel,
    level: &L,
    pos: BlockPos,
    cull: bool,
) -> Seq<Direction> {
    match model {
        BlockModel::Empty => Seq::empty(),
        BlockModel::StateWrapper(w) => flat_faces(
            textured_faces(cube_of(w.model), 6),
            level,
            pos,
            cull,
            6,
        ),
    }
}

impl ModelBlockRenderer {
    /// Tesselates the block at `pos`: appends to `out` the face direction of each quad
    /// drawn, in drawing order.
    pub fn tesselate_block<L: BlockAndTintGetter>(
        &self,
        out: &mut Vec<Direction>,
        level: &L,
        pos: BlockPos,
        block_state: BlockState,
        model: &BlockModel,
    )
        requires
            self.cull ==> neighbors_readable(level, pos),
        ensures
            final(out)@ == old(out)@ + block_faces(*model, level, pos, self.cull),
    {
        let block_state_model = match model {
            BlockModel::StateWrapper(wrapper) => &wrapper.model,
            BlockModel::Empty => {
                assert(old(out)@ + block_faces(*model, level, pos, self.cull) =~= old(out)@);
                return;
            },
        };
        let parts = collect_parts(block_state_model);
        if parts.len() == 0 {
            return;
        }
        tesselate_flat(out, parts.as_slice(), level, block_state, pos, self.cull);
        assert(parts_faces(parts@, level, pos, self.cull, 0) =~= Seq::<Direction>::empty());
        assert(parts_faces(parts@, level, pos, self.cull, 1) =~= flat_faces(
            parts@[0].face_directions@,
            level,
            pos,
            self.cull,
            6,
        ));
    }
}

proof fn lemma_matching_all(s: Seq<Direction>, d: Direction, j: int)
    ensures
        forall|i: int| 0 <= i < matching(s, d, j).len() ==> #[trigger] matching(s, d, j)[i] == d,
    decreases j,
{
    if j > 0 {
        lemma_matching_all(s, d, j - 1);
        let prev = matching(s, d, j - 1);
        let tail = if s[j - 1] == d { seq![d] } else { Seq::<Direction>::empty() };
        assert forall|i: int| 0 <= i < matching(s, d, j).len() implies #[trigger] matching(s, d, j)[i] == d by {
            if i < prev.len() {
                assert(matching(s, d, j)[i] == prev[i]);
            } else {
                assert(matching(s, d, j)[i] == tail[i - prev.len()]);
            }
        }
    }
}

proof fn lemma_flat_faces_visible<L: BlockAndTintGetter>(dirs: Seq<Direction>, level: &L, pos: BlockPos, n: int)
    ensures
        forall|i: int|
            0 <= i < flat_faces(dirs, level, pos, true, n).len() ==> face_visible(
                level,
                pos,
                #[trigger] flat_faces(dirs, level, pos, true, n)[i],
            ),
    decreases n,
{
    if n > 0 {
        lemma_flat_faces_visible(dirs, level, pos, n - 1);
        let d = face_direction(n - 1);
        lemma_matching_all(dirs, d, dirs.len() as int);
        let prev = flat_faces(dirs, level, pos, true, n - 1);
        let tail = if !face_visible(level, pos, d) {
            Seq::<Direction>::empty()
        } else {
            matching(dirs, d, dirs.len() as int)
        };
        assert forall|i: int|
            0 <= i < flat_faces(dirs, level, pos, true, n).len() implies face_visible(
                level,
                pos,
                #[trigger] flat_faces(dirs, level, pos, true, n)[i],
            ) by {
            if i < prev.len() {
                assert(flat_faces(dirs, level, pos, true, n)[i] == prev[i]);
            } else {
                assert(flat_faces(dirs, level, pos, true, n)[i] == tail[i - prev.len()]);
            }
        }
    }
}

/// With culling, every face a block draws looks onto air: its neighbor on that side is
/// an air block.
pub proof fn law_culled_faces_border_air<L: BlockAndTintGetter>(model: BlockModel, level: &L, pos: BlockPos)
    ensures
        forall|i: int|
            0 <= i < block_faces(model, level, pos, true).len() ==> level.spec_block_state(
                neighbor(pos, #[trigger] block_faces(model, level, pos, true)[i]),
            ).0 == 0,
{
    match model {
        BlockModel::Empty => {},
        BlockModel::StateWrapper(w) => {
            lemma_flat_faces_visible(textured_faces(cube_of(w.model), 6), level, pos, 6);
        },
    }
}

proof fn lemma_textured_faces_contain(c: CubeBlockModel, n: int, i: int)
    requires
        0 <= i < n,
        c.spec_face_texture_name(i).len() > 0,
    ensures
        exists|k: int| 0 <= k < textured_faces(c, n).len() && #[trigger] textured_faces(c, n)[k] == face_direction(i),
    decreases n,
{
    let prev = textured_faces(c, n - 1);
    if i == n - 1 {
        assert(textured_faces(c, n)[prev.len() as int] == face_direction(i));
    } else {
        lemma_textured_faces_contain(c, n - 1, i);
        let k = choose|k: int| 0 <= k < prev.len() && #[trigger] prev[k] == face_direction(i);
        assert(textured_faces(c, n)[k] == prev[k]);
    }
}

proof fn lemma_matching_contains(s: Seq<Direction>, d: Direction, j: int, k: int)
    requires
        0 <= k < j <= s.len(),
        s[k] == d,
    ensures
        matching(s, d, j).len() > 0,
        forall|m: int| 0 <= m < matching(s, d, j).len() ==> #[trigger] matching(s, d, j)[m] == d,
    decreases j,
{
    lemma_matching_all(s, d, j);
    if k < j - 1 {
        lemma_matching_contains(s, d, j - 1, k);
    }
}

proof fn lemma_flat_faces_contain<L: BlockAndTintGetter>(
    dirs: Seq<Direction>,
    level: &L,
    pos: BlockPos,
    cull: bool,
    n: int,
    i: int,
    k: int,
)
    requires
        0 <= i < n,
        0 <= k < dirs.len(),
        dirs[k] == face_direction(i),
        cull ==> face_visible(level, pos, face_direction(i)),
    ensures
        exists|m: int|
            0 <= m < flat_faces(dirs, level, pos, cull, n).len() && #[trigger] flat_faces(dirs, level, pos, cull, n)[m]
                == face_direction(i),
    decreases n,
{
    let prev = flat_faces(dirs, level, pos, cull, n - 1);
    if i == n - 1 {
        lemma_matching_contains(dirs, face_direction(i), dirs.len() as int, k);
        assert(flat_faces(dirs, level, pos, cull, n)[prev.len() as int] == face_direction(i));
    } else {
        lemma_flat_faces_contain(dirs, level, pos, cull, n - 1, i, k);
        let m = choose|m: int| 0 <= m < prev.len() && #[trigger] prev[m] == face_direction(i);
        assert(flat_faces(dirs, level, pos, cull, n)[m] == prev[m]);
    }
}

/// A block draws every face of its model that names a texture, unless culling is on and
/// the neighbor on that side is not air.
pub proof fn law_block_draws_textured_faces<L: BlockAndTintGetter>(
    model: BlockModel,
    level: &L,
    pos: BlockPos,
    cull: bool,
    i: int,
)
    requires
        0 <= i < 6,
        model matches BlockModel::StateWrapper(w) && cube_of(w.model).spec_face_texture_name(i).len() > 0,
        cull ==> level.spec_block_state(neighbor(pos, face_direction(i))).0 == 0,
    ensures
        exists|m: int|
            0 <= m < block_faces(model, level, pos, cull).len() && #[trigger] block_faces(model, level, pos, cull)[m]
                == face_direction(i),
{
    if let BlockModel::StateWrapper(w) = model {
        let c = cube_of(w.model);
        lemma_textured_faces_contain(c, 6, i);
        let dirs = textured_faces(c, 6);
        let k = choose|k: int| 0 <= k < dirs.len() && #[trigger] dirs[k] == face_direction(i);
        lemma_flat_faces_contain(dirs, level, pos, cull, 6, i, k);
        let faces = flat_faces(dirs, level, pos, cull, 6);
        let m = choose|m: int| 0 <= m < faces.len() && #[trigger] faces[m] == face_direction(i);
        assert(block_faces(model, level, pos, cull) == faces);
        assert(block_faces(model, level, pos, cull)[m] == face_direction(i));
    }
}

proof fn lemma_textured_faces_from(c: CubeBlockModel, n: int)
    requires
        n <= 6,
    ensures
        forall|m: int|
            0 <= m < textured_faces(c, n).len() ==> exists|i: int|
                0 <= i < n && 0 <= i < 6 && c.spec_face_texture_name(i).len() > 0 && #[trigger] textured_faces(c, n)[m]
                    == face_direction(i),
    decreases n,
{
    if n > 0 {
        lemma_textured_faces_from(c, n - 1);
        let prev = textured_faces(c, n - 1);
        assert forall|m: int| 0 <= m < textured_faces(c, n).len() implies exists|i: int|
            0 <= i < n && 0 <= i < 6 && c.spec_face_texture_name(i).len() > 0 && #[trigger] textured_faces(c, n)[m]
                == face_direction(i) by {
            if m < prev.len() {
                assert(textured_faces(c, n)[m] == prev[m]);
            } else {
                assert(c.spec_face_texture_name(n - 1).len() > 0);
                assert(textured_faces(c, n)[m] == face_direction(n - 1));
            }
        }
    }
}

proof fn lemma_flat_faces_from<L: BlockAndTintGetter>(
    dirs: Seq<Direction>,
    level: &L,
    pos: BlockPos,
    cull: bool,
    n: int,
)
    ensures
        forall|m: int|
            0 <= m < flat_faces(dirs, level, pos, cull, n).len() ==> exists|k: int|
                0 <= k < dirs.len() && #[trigger] flat_faces(dirs, level, pos, cull, n)[m] == dirs[k],
        forall|m: int|
            0 <= m < flat_faces(dirs, level, pos, cull, n).len() ==> (cull ==> face_visible(
                level,
                pos,
                #[trigger] flat_faces(dirs, level, pos, cull, n)[m],
            )),
    decreases n,
{
    if n > 0 {
        lemma_flat_faces_from(dirs, level, pos, cull, n - 1);
        let d = face_direction(n - 1);
        lemma_matching_all(dirs, d, dirs.len() as int);
        lemma_matching_from(dirs, d, dirs.len() as int);
        let prev = flat_faces(dirs, level, pos, cull, n - 1);
        let tail = if cull && !face_visible(level, pos, d) {
            Seq::<Direction>::empty()
        } else {
            matching(dirs, d, dirs.len() as int)
        };
        let all = flat_faces(dirs, level, pos, cull, n);
        assert forall|m: int| 0 <= m < all.len() implies (exists|k: int| 0 <= k < dirs.len() && #[trigger] all[m]
            == dirs[k]) && (cull ==> face_visible(level, pos, all[m])) by {
            if m < prev.len() {
                assert(all[m] == prev[m]);
            } else {
                assert(all[m] == tail[m - prev.len()]);
            }
        }
    }
}

proof fn lemma_matching_from(s: Seq<Direction>, d: Direction, j: int)
    requires
        j <= s.len(),
    ensures
        matching(s, d, j).len() > 0 ==> exists|k: int| 0 <= k < j && #[trigger] s[k] == d,
    decreases j,
{
    if j > 0 {
        lemma_matching_from(s, d, j - 1);
    }
}

/// Every face a block draws names a texture in its model, and, with culling, looks onto
/// an air neighbor; an empty model draws nothing.
pub proof fn law_block_faces_are_textured_and_seen<L: BlockAndTintGetter>(
    model: BlockModel,
    level: &L,
    pos: BlockPos,
    cull: bool,
)
    ensures
        forall|m: int|
            0 <= m < block_faces(model, level, pos, cull).len() ==> {
                &&& model matches BlockModel::StateWrapper(w) && exists|i: int|
                    0 <= i < 6 && cube_of(w.model).spec_face_texture_name(i).len() > 0
                        && #[trigger] block_faces(model, level, pos, cull)[m] == face_direction(i)
                &&& cull ==> level.spec_block_state(neighbor(pos, block_faces(model, level, pos, cull)[m])).0 == 0
            },
{
    if let BlockModel::StateWrapper(w) = model {
        let c = cube_of(w.model);
        let dirs = textured_faces(c, 6);
        lemma_textured_faces_from(c, 6);
        lemma_flat_faces_from(dirs, level, pos, cull, 6);
        let faces = flat_faces(dirs, level, pos, cull, 6);
        assert forall|m: int| 0 <= m < faces.len() implies exists|i: int|
            0 <= i < 6 && c.spec_face_texture_name(i).len() > 0 && #[trigger] faces[m] == face_direction(i) by {
            let k = choose|k: int| 0 <= k < dirs.len() && #[trigger] faces[m] == dirs[k];
            assert(dirs[k] == faces[m]);
        }
    }
}

} // verus!
