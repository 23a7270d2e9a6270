//! Block state models: the cube model of each block state, with the names of the
//! textures of its faces, and the set of them that the renderer looks states up in.

use vstd::prelude::*;
use std::collections::HashMap;
use crate::block::BlockState;
use crate::block_registry::{default_block_models, default_textures, BlockModel as RegistryModel, BlockRegistry};
use crate::material::Baked;

verus! {

broadcast use {vstd::std_specs::hash::group_hash_axioms, vstd::string::group_string_axioms};

#[derive(Clone, Copy, Debug, PartialEq, Eq, Structural)]
pub struct BlockFace {
    pub texture: usize,
}

#[derive(Clone, Copy, Debug, PartialEq, Eq, Structural)]
pub struct OverlayFace {
    pub texture: usize,
    pub side_only: bool,
}

/// A cube model: the texture index of each face (down, up, north, south, west, east),
/// an optional overlay, transparency, and the texture names the indices refer to.
#[derive(Clone)]
pub struct CubeBlockModel {
    pub faces: [BlockFace; 6],
    pub overlay: Option<OverlayFace>,
    pub transparent: bool,
    pub texture_names: Vec<String>,
    pub face_texture_names: [usize; 6],
}

/// A single-variant block state model is a cube model.
pub type SingleVariant = CubeBlockModel;

/// Whether `names` holds the texture names `textures`, one for one.
pub open spec fn names_are(names: Seq<String>, textures: Seq<&'static str>) -> bool {
    &&& names.len() == textures.len()
    &&& forall|j: int| 0 <= j < names.len() ==> #[trigger] names[j]@ == textures[j]@
}

/// The face textures, overlay and transparency of a cube model, as a registry model.
pub open spec fn registry_model_of(c: CubeBlockModel) -> RegistryModel {
    RegistryModel {
        faces: [
            crate::block_registry::BlockFace { texture: c.faces[0].texture },
            crate::block_registry::BlockFace { texture: c.faces[1].texture },
            crate::block_registry::BlockFace { texture: c.faces[2].texture },
            crate::block_registry::BlockFace { texture: c.faces[3].texture },
            crate::block_registry::BlockFace { texture: c.faces[4].texture },
            crate::block_registry::BlockFace { texture: c.faces[5].texture },
        ],
        overlay: match c.overlay {
            Some(o) => Some(crate::block_registry::OverlayFace { texture: o.texture, side_only: o.side_only }),
            None => None,
        },
        transparent: c.transparent,
    }
}

/// A cube model is well formed over `textures` when its names are those textures and
/// its face texture indices are recorded again in `face_texture_names`.
#[verifier::opaque]
pub open spec fn cube_wf(c: CubeBlockModel, textures: Seq<&'static str>) -> bool {
    &&& names_are(c.texture_names@, textures)
    &&& forall|i: int| 0 <= i < 6 ==> #[trigger] c.face_texture_names[i] == c.faces[i].texture
}

impl CubeBlockModel {
    /// The name of the texture of face `face_idx`, empty when its index is past the names.
    pub open spec fn spec_face_texture_name(&self, face_idx: int) -> Seq<char> {
        let t = self.faces[face_idx].texture;
        if t < self.texture_names@.len() {
            self.texture_names@[t as int]@
        } else {
            Seq::empty()
        }
    }

    pub fn face_texture_name(&self, face_idx: usize) -> (r: &str)
        requires
            face_idx < 6,
        ensures
            r@ == self.spec_face_texture_name(face_idx as int),
    {
        let t = self.faces[face_idx].texture;
        if t < self.texture_names.len() {
            self.texture_names[t].as_str()
        } else {
            proof {
                reveal_strlit("");
            }
            ""
        }
    }

    /// The particle material is the texture of the up face, not forced translucent.
    pub fn particle_material(&self) -> (r: Baked)
        ensures
            r.sprite@ == self.spec_face_texture_name(1),
            !r.force_translucent,
    {
        Baked::new(self.face_texture_name(1).to_string(), false)
    }

    /// Material flags: 1 for a transparent model, 0 otherwise.
    pub fn material_flags(&self) -> (r: u32)
        ensures
            r == (if self.transparent { 1u32 } else { 0u32 }),
    {
        if self.transparent {
            1
        } else {
            0
        }
    }

    /// Wraps the cube model as a single-variant block state model.
    pub fn into_model(self) -> (r: BlockStateModel)
        ensures
            r == BlockStateModel::SingleVariant(self),
    {
        BlockStateModel::SingleVariant(self)
    }

    /// A copy of the model with the same faces, overlay, transparency and names.
    fn duplicate(&self) -> (r: Self)
        ensures
            r.faces == self.faces,
            r.overlay == self.overlay,
            r.transparent == self.transparent,
            r.texture_names@ == self.texture_names@,
            r.face_texture_names == self.face_texture_names,
    {
        let mut names: Vec<String> = Vec::with_capacity(self.texture_names.len());
        let mut i: usize = 0;
        while i < self.texture_names.len()
            invariant
                i <= self.texture_names@.len(),
                names@ == self.texture_names@.take(i as int),
            decreases self.texture_names@.len() - i,
        {
            names.push(self.texture_names[i].clone());
            assert(names@ =~= self.texture_names@.take(i + 1));
            i += 1;
        }
        assert(names@ =~= self.texture_names@);
        CubeBlockModel {
            faces: self.faces,
            overlay: self.overlay,
            transparent: self.transparent,
            texture_names: names,
            face_texture_names: self.face_texture_names,
        }
    }
}

/// A block state's model; a single cube variant for now.
pub enum BlockStateModel {
    SingleVariant(SingleVariant),
}

/// The cube model inside a block state model.
pub open spec fn cube_of(m: BlockStateModel) -> CubeBlockModel {
    match m {
        BlockStateModel::SingleVariant(c) => c,
    }
}

/// Two cube models agree on everything but the identity of their name strings.
pub open spec fn same_cube(a: CubeBlockModel, b: CubeBlockModel) -> bool {
    &&& a.faces == b.faces
    &&& a.overlay == b.overlay
    &&& a.transparent == b.transparent
    &&& a.texture_names@ == b.texture_names@
    &&& a.face_texture_names == b.face_texture_names
}

impl BlockStateModel {
    /// A copy of the model that agrees with it on everything but string identity.
    pub(crate) fn duplicate(&self) -> (r: Self)
        ensures
            same_cube(cube_of(r), cube_of(*self)),
    {
        match self {
            BlockStateModel::SingleVariant(model) => BlockStateModel::SingleVariant(model.duplicate()),
        }
    }

    /// Appends the model's parts to `parts`: its one cube variant.
    pub fn collect_parts(&self, parts: &mut Vec<SingleVariant>)
        ensures
            final(parts)@.len() == old(parts)@.len() + 1,
            final(parts)@.take(old(parts)@.len() as int) == old(parts)@,
            same_cube(final(parts)@.last(), cube_of(*self)),
    {
        match self {
            BlockStateModel::SingleVariant(model) => parts.push(model.duplicate()),
        }
        assert(parts@.take(old(parts)@.len() as int) =~= old(parts)@);
    }

    pub fn particle_material(&self) -> (r: Baked)
        ensures
            r.sprite@ == cube_of(*self).spec_face_texture_name(1),
            !r.force_translucent,
    {
        match self {
            BlockStateModel::SingleVariant(model) => model.particle_material(),
        }
    }

    pub fn material_flags(&self) -> (r: u32)
        ensures
            r == (if cube_of(*self).transparent { 1u32 } else { 0u32 }),
    {
        match self {
            BlockStateModel::SingleVariant(model) => model.material_flags(),
        }
    }
}

/// The models of block states, keyed by raw state id, with the model of states that have
/// none and the texture names.
pub struct BlockStateModelSet {
    pub model_by_state: HashMap<u16, BlockStateModel>,
    pub missing_model: BlockStateModel,
    pub textures: Vec<&'static str>,
}

impl BlockStateModelSet {
    pub fn new(
        model_by_state: HashMap<u16, BlockStateModel>,
        missing_model: BlockStateModel,
        textures: Vec<&'static str>,
    ) -> (r: Self)
        ensures
            r.model_by_state@ == model_by_state@,
            r.missing_model == missing_model,
            r.textures@ == textures@,
    {
        Self { model_by_state, missing_model, textures }
    }

    /// The model of `state`, or the missing model when it has none.
    pub open spec fn spec_get(&self, state: BlockState) -> BlockStateModel {
        if self.model_by_state@.contains_key(state.0) {
            self.model_by_state@[state.0]
        } else {
            self.missing_model
        }
    }

    pub fn get(&self, state: BlockState) -> (r: &BlockStateModel)
        ensures
            *r == self.spec_get(state),
    {
        match self.model_by_state.get(&state.0) {
            Some(m) => m,
            None => &self.missing_model,
        }
    }

    pub fn missing_model(&self) -> (r: &BlockStateModel)
        ensures
            *r == self.missing_model,
    {
        &self.missing_model
    }

    /// The particle material of the model of `state`.
    pub fn get_particle_material(&self, state: BlockState) -> (r: Baked)
        ensures
            r.sprite@ == cube_of(self.spec_get(state)).spec_face_texture_name(1),
            !r.force_translucent,
    {
        self.get(state).particle_material()
    }
}

/// The registry view of a map of block state models.
pub open spec fn state_models_view(m: Map<u16, BlockStateModel>) -> Map<u16, RegistryModel> {
    m.map_values(|s: BlockStateModel| registry_model_of(cube_of(s)))
}

/// Every model of the map is well formed over `textures`.
#[verifier::opaque]
pub open spec fn all_cubes_wf(m: Map<u16, BlockStateModel>, textures: Seq<&'static str>) -> bool {
    forall|k: u16| #[trigger] m.contains_key(k) ==> cube_wf(cube_of(m[k]), textures)
}

/// The registry model given by face texture indices, transparency and overlay.
pub open spec fn model_from(face_tex: [usize; 6], transparent: bool, overlay: Option<[usize; 2]>) -> RegistryModel {
    RegistryModel {
        faces: [
            crate::block_registry::BlockFace { texture: face_tex[0] },
            crate::block_registry::BlockFace { texture: face_tex[1] },
            crate::block_registry::BlockFace { texture: face_tex[2] },
            crate::block_registry::BlockFace { texture: face_tex[3] },
            crate::block_registry::BlockFace { texture: face_tex[4] },
            crate::block_registry::BlockFace { texture: face_tex[5] },
        ],
        overlay: match overlay {
            Some(o) => Some(crate::block_registry::OverlayFace { texture: o[0], side_only: o[1] != 0 }),
            None => None,
        },
        transparent,
    }
}

/// The names of `textures` as owned strings.
fn texture_name_strings(tex_names: &Vec<&'static str>) -> (r: Vec<String>)
    ensures
        names_are(r@, tex_names@),
{
    let mut names: Vec<String> = Vec::with_capacity(tex_names.len());
    let mut i: usize = 0;
    while i < tex_names.len()
        invariant
            i <= tex_names@.len(),
            names@.len() == i,
            forall|j: int| 0 <= j < i ==> #[trigger] names@[j]@ == tex_names@[j]@,
        decreases tex_names@.len() - i,
    {
        let s: String = tex_names[i].to_string();
        names.push(s);
        i += 1;
    }
    names
}

/// A cube model with the given face textures, transparency and overlay (texture and a
/// side-only flag, nonzero for true), over the names `tex_names`.
fn cube(tex_names: &Vec<&'static str>, face_tex: [usize; 6], transparent: bool, overlay: Option<[usize; 2]>) -> (r: CubeBlockModel)
    ensures
        registry_model_of(r) == model_from(face_tex, transparent, overlay),
        cube_wf(r, tex_names@),
{
    reveal(cube_wf);
    let ov = match overlay {
        Some(o) => Some(OverlayFace { texture: o[0], side_only: o[1] != 0 }),
        None => None,
    };
    CubeBlockModel {
        faces: [
            BlockFace { texture: face_tex[0] },
            BlockFace { texture: face_tex[1] },
            BlockFace { texture: face_tex[2] },
            BlockFace { texture: face_tex[3] },
            BlockFace { texture: face_tex[4] },
            BlockFace { texture: face_tex[5] },
        ],
        overlay: ov,
        transparent,
        texture_names: texture_name_strings(tex_names),
        face_texture_names: face_tex,
    }
}

/// Sets the model of `id`.
fn put(
    map: &mut HashMap<u16, BlockStateModel>,
    id: u16,
    model: BlockStateModel,
    Ghost(textures): Ghost<Seq<&'static str>>,
)
    requires
        all_cubes_wf(old(map)@, textures),
        cube_wf(cube_of(model), textures),
    ensures
        all_cubes_wf(final(map)@, textures),
        state_models_view(final(map)@) == state_models_view(old(map)@).insert(
            id,
            registry_model_of(cube_of(model)),
        ),
{
    reveal(all_cubes_wf);
    map.insert(id, model);
    assert(state_models_view(map@) =~= state_models_view(old(map)@).insert(
        id,
        registry_model_of(cube_of(model)),
    ));
}

/// How each kind of registry model reads as face textures, transparency and overlay.
proof fn lemma_model_all(t: usize)
    ensures
        model_from([t, t, t, t, t, t], false, None) == crate::block_registry::spec_cube_all(t),
{
}

proof fn lemma_model_bottom_top(b: usize, t: usize, side: usize)
    ensures
        model_from([b, t, side, side, side, side], false, None) == crate::block_registry::spec_cube_bottom_top(b, t, side),
{
}

proof fn lemma_model_glass()
    ensures
        model_from([0, 0, 0, 0, 0, 0], true, None) == crate::block_registry::spec_glass(),
{
}

/// Adds the models of states 1, 2, 3, 4, 5, 6, 7, 14, 85, 6780, 2139, 2400, 2399, 9, 10, 11.
fn add_default_models_1(map: &mut HashMap<u16, BlockStateModel>, textures: &Vec<&'static str>)
    requires
        all_cubes_wf(old(map)@, textures@),
    ensures
        all_cubes_wf(final(map)@, textures@),
        state_models_view(final(map)@) == state_models_view(old(map)@)
            .insert(1u16, crate::block_registry::spec_cube_all(1))
            .insert(2u16, crate::block_registry::spec_cube_all(2))
            .insert(3u16, crate::block_registry::spec_cube_all(3))
            .insert(4u16, crate::block_registry::spec_cube_all(4))
            .insert(5u16, crate::block_registry::spec_cube_all(5))
            .insert(6u16, crate::block_registry::spec_cube_all(6))
            .insert(7u16, crate::block_registry::spec_cube_all(7))
            .insert(14u16, crate::block_registry::spec_cube_all(8))
            .insert(85u16, crate::block_registry::spec_cube_all(9))
            .insert(6780u16, crate::block_registry::spec_cube_all(10))
            .insert(2139u16, crate::block_registry::spec_cube_all(11))
            .insert(2400u16, crate::block_registry::spec_cube_all(12))
            .insert(2399u16, crate::block_registry::spec_cube_all(96))
            .insert(9u16, RegistryModel {
                faces: [
                    crate::block_registry::BlockFace { texture: 13 },
                    crate::block_registry::BlockFace { texture: 15 },
                    crate::block_registry::BlockFace { texture: 16 },
                    crate::block_registry::BlockFace { texture: 16 },
                    crate::block_registry::BlockFace { texture: 16 },
                    crate::block_registry::BlockFace { texture: 16 },
                ],
                overlay: Some(crate::block_registry::OverlayFace { texture: 17, side_only: true }),
                transparent: false,
            })
            .insert(10u16, crate::block_registry::spec_cube_all(13))
            .insert(11u16, crate::block_registry::spec_cube_all(14)),
{
    let ghost tex = textures@;
    put(map, 1, cube(textures, [1, 1, 1, 1, 1, 1], false, None).into_model(), Ghost(tex));  // block/stone
    proof {
        lemma_model_all(1);
    }
    put(map, 2, cube(textures, [2, 2, 2, 2, 2, 2], false, None).into_model(), Ghost(tex));  // block/granite
    proof {
        lemma_model_all(2);
    }
    put(map, 3, cube(textures, [3, 3, 3, 3, 3, 3], false, None).into_model(), Ghost(tex));  // block/polished_granite
    proof {
        lemma_model_all(3);
    }
    put(map, 4, cube(textures, [4, 4, 4, 4, 4, 4], false, None).into_model(), Ghost(tex));  // block/diorite
    proof {
        lemma_model_all(4);
    }
    put(map, 5, cube(textures, [5, 5, 5, 5, 5, 5], false, None).into_model(), Ghost(tex));  // block/polished_diorite
    proof {
        lemma_model_all(5);
    }
    put(map, 6, cube(textures, [6, 6, 6, 6, 6, 6], false, None).into_model(), Ghost(tex));  // block/andesite
    proof {
        lemma_model_all(6);
    }
    put(map, 7, cube(textures, [7, 7, 7, 7, 7, 7], false, None).into_model(), Ghost(tex));  // block/polished_andesite
    proof {
        lemma_model_all(7);
    }
    put(map, 14, cube(textures, [8, 8, 8, 8, 8, 8], false, None).into_model(), Ghost(tex));  // block/cobblestone
    proof {
        lemma_model_all(8);
    }
    put(map, 85, cube(textures, [9, 9, 9, 9, 9, 9], false, None).into_model(), Ghost(tex));  // block/bedrock
    proof {
        lemma_model_all(9);
    }
    put(map, 6780, cube(textures, [10, 10, 10, 10, 10, 10], false, None).into_model(), Ghost(tex));  // block/stone_bricks
    proof {
        lemma_model_all(10);
    }
    put(map, 2139, cube(textures, [11, 11, 11, 11, 11, 11], false, None).into_model(), Ghost(tex));  // block/bricks
    proof {
        lemma_model_all(11);
    }
    put(map, 2400, cube(textures, [12, 12, 12, 12, 12, 12], false, None).into_model(), Ghost(tex));  // block/obsidian
    proof {
        lemma_model_all(12);
    }
    put(map, 2399, cube(textures, [96, 96, 96, 96, 96, 96], false, None).into_model(), Ghost(tex));  // block/mossy_cobblestone
    proof {
        lemma_model_all(96);
    }
    put(map, 9, cube(textures, [13, 15, 16, 16, 16, 16], false, Some([17, 1])).into_model(), Ghost(tex));  // block/dirt, block/grass_block_top, block/grass_block_side, block/grass_block_side_overlay
    put(map, 10, cube(textures, [13, 13, 13, 13, 13, 13], false, None).into_model(), Ghost(tex));  // block/dirt
    proof {
        lemma_model_all(13);
    }
    put(map, 11, cube(textures, [14, 14, 14, 14, 14, 14], false, None).into_model(), Ghost(tex));  // block/coarse_dirt
    proof {
        lemma_model_all(14);
    }
}

/// Adds the models of states 12, 13, 118, 123, 124, 5977, 25903, 11633, 10165, 5958, 11635, 13964, 5959, 15, 16, 17.
fn add_default_models_2(map: &mut HashMap<u16, BlockStateModel>, textures: &Vec<&'static str>)
    requires
        all_cubes_wf(old(map)@, textures@),
    ensures
        all_cubes_wf(final(map)@, textures@),
        state_models_view(final(map)@) == state_models_view(old(map)@)
            .insert(12u16, crate::block_registry::spec_cube_bottom_top(13, 18, 19))
            .insert(13u16, crate::block_registry::spec_cube_bottom_top(13, 18, 19))
            .insert(118u16, crate::block_registry::spec_cube_all(20))
            .insert(123u16, crate::block_registry::spec_cube_all(21))
            .insert(124u16, crate::block_registry::spec_cube_all(22))
            .insert(5977u16, crate::block_registry::spec_cube_all(23))
            .insert(25903u16, crate::block_registry::spec_cube_all(24))
            .insert(11633u16, crate::block_registry::spec_cube_all(116))
            .insert(10165u16, crate::block_registry::spec_cube_all(117))
            .insert(5958u16, crate::block_registry::spec_cube_all(106))
            .insert(11635u16, crate::block_registry::spec_cube_all(107))
            .insert(13964u16, crate::block_registry::spec_cube_all(108))
            .insert(5959u16, crate::block_registry::spec_cube_all(25))
            .insert(15u16, crate::block_registry::spec_cube_all(28))
            .insert(16u16, crate::block_registry::spec_cube_all(29))
            .insert(17u16, crate::block_registry::spec_cube_all(30)),
{
    let ghost tex = textures@;
    put(map, 12, cube(textures, [13, 18, 19, 19, 19, 19], false, None).into_model(), Ghost(tex));  // block/dirt, block/podzol_top, block/podzol_side
    proof {
        lemma_model_bottom_top(13, 18, 19);
    }
    put(map, 13, cube(textures, [13, 18, 19, 19, 19, 19], false, None).into_model(), Ghost(tex));  // block/dirt, block/podzol_top, block/podzol_side
    proof {
        lemma_model_bottom_top(13, 18, 19);
    }
    put(map, 118, cube(textures, [20, 20, 20, 20, 20, 20], false, None).into_model(), Ghost(tex));  // block/sand
    proof {
        lemma_model_all(20);
    }
    put(map, 123, cube(textures, [21, 21, 21, 21, 21, 21], false, None).into_model(), Ghost(tex));  // block/red_sand
    proof {
        lemma_model_all(21);
    }
    put(map, 124, cube(textures, [22, 22, 22, 22, 22, 22], false, None).into_model(), Ghost(tex));  // block/gravel
    proof {
        lemma_model_all(22);
    }
    put(map, 5977, cube(textures, [23, 23, 23, 23, 23, 23], false, None).into_model(), Ghost(tex));  // block/clay
    proof {
        lemma_model_all(23);
    }
    put(map, 25903, cube(textures, [24, 24, 24, 24, 24, 24], false, None).into_model(), Ghost(tex));  // block/moss_block
    proof {
        lemma_model_all(24);
    }
    put(map, 11633, cube(textures, [116, 116, 116, 116, 116, 116], false, None).into_model(), Ghost(tex));  // block/terracotta
    proof {
        lemma_model_all(116);
    }
    put(map, 10165, cube(textures, [117, 117, 117, 117, 117, 117], false, None).into_model(), Ghost(tex));  // block/white_terracotta
    proof {
        lemma_model_all(117);
    }
    put(map, 5958, cube(textures, [106, 106, 106, 106, 106, 106], false, None).into_model(), Ghost(tex));  // block/ice
    proof {
        lemma_model_all(106);
    }
    put(map, 11635, cube(textures, [107, 107, 107, 107, 107, 107], false, None).into_model(), Ghost(tex));  // block/packed_ice
    proof {
        lemma_model_all(107);
    }
    put(map, 13964, cube(textures, [108, 108, 108, 108, 108, 108], false, None).into_model(), Ghost(tex));  // block/blue_ice
    proof {
        lemma_model_all(108);
    }
    put(map, 5959, cube(textures, [25, 25, 25, 25, 25, 25], false, None).into_model(), Ghost(tex));  // block/snow
    proof {
        lemma_model_all(25);
    }
    put(map, 15, cube(textures, [28, 28, 28, 28, 28, 28], false, None).into_model(), Ghost(tex));  // block/oak_planks
    proof {
        lemma_model_all(28);
    }
    put(map, 16, cube(textures, [29, 29, 29, 29, 29, 29], false, None).into_model(), Ghost(tex));  // block/spruce_planks
    proof {
        lemma_model_all(29);
    }
    put(map, 17, cube(textures, [30, 30, 30, 30, 30, 30], false, None).into_model(), Ghost(tex));  // block/birch_planks
    proof {
        lemma_model_all(30);
    }
}

/// Adds the models of states 18, 19, 20, 21, 25, 26, 27, 28, 136, 137, 138, 139, 140, 141, 142, 143.
fn add_default_models_3(map: &mut HashMap<u16, BlockStateModel>, textures: &Vec<&'static str>)
    requires
        all_cubes_wf(old(map)@, textures@),
    ensures
        all_cubes_wf(final(map)@, textures@),
        state_models_view(final(map)@) == state_models_view(old(map)@)
            .insert(18u16, crate::block_registry::spec_cube_all(31))
            .insert(19u16, crate::block_registry::spec_cube_all(32))
            .insert(20u16, crate::block_registry::spec_cube_all(33))
            .insert(21u16, crate::block_registry::spec_cube_all(34))
            .insert(25u16, crate::block_registry::spec_cube_all(35))
            .insert(26u16, crate::block_registry::spec_cube_all(36))
            .insert(27u16, crate::block_registry::spec_cube_all(37))
            .insert(28u16, crate::block_registry::spec_cube_all(38))
            .insert(136u16, crate::block_registry::spec_cube_column(39, 40))
            .insert(137u16, crate::block_registry::spec_cube_column(39, 40))
            .insert(138u16, crate::block_registry::spec_cube_column(39, 40))
            .insert(139u16, crate::block_registry::spec_cube_column(41, 42))
            .insert(140u16, crate::block_registry::spec_cube_column(41, 42))
            .insert(141u16, crate::block_registry::spec_cube_column(41, 42))
            .insert(142u16, crate::block_registry::spec_cube_column(43, 44))
            .insert(143u16, crate::block_registry::spec_cube_column(43, 44)),
{
    let ghost tex = textures@;
    put(map, 18, cube(textures, [31, 31, 31, 31, 31, 31], false, None).into_model(), Ghost(tex));  // block/jungle_planks
    proof {
        lemma_model_all(31);
    }
    put(map, 19, cube(textures, [32, 32, 32, 32, 32, 32], false, None).into_model(), Ghost(tex));  // block/acacia_planks
    proof {
        lemma_model_all(32);
    }
    put(map, 20, cube(textures, [33, 33, 33, 33, 33, 33], false, None).into_model(), Ghost(tex));  // block/cherry_planks
    proof {
        lemma_model_all(33);
    }
    put(map, 21, cube(textures, [34, 34, 34, 34, 34, 34], false, None).into_model(), Ghost(tex));  // block/dark_oak_planks
    proof {
        lemma_model_all(34);
    }
    put(map, 25, cube(textures, [35, 35, 35, 35, 35, 35], false, None).into_model(), Ghost(tex));  // block/pale_oak_planks
    proof {
        lemma_model_all(35);
    }
    put(map, 26, cube(textures, [36, 36, 36, 36, 36, 36], false, None).into_model(), Ghost(tex));  // block/mangrove_planks
    proof {
        lemma_model_all(36);
    }
    put(map, 27, cube(textures, [37, 37, 37, 37, 37, 37], false, None).into_model(), Ghost(tex));  // block/bamboo_planks
    proof {
        lemma_model_all(37);
    }
    put(map, 28, cube(textures, [38, 38, 38, 38, 38, 38], false, None).into_model(), Ghost(tex));  // block/bamboo_mosaic
    proof {
        lemma_model_all(38);
    }
    put(map, 136, cube(textures, [39, 39, 40, 40, 40, 40], false, None).into_model(), Ghost(tex));  // block/oak_log_top, block/oak_log
    proof {
        lemma_model_bottom_top(39, 39, 40);
    }
    put(map, 137, cube(textures, [39, 39, 40, 40, 40, 40], false, None).into_model(), Ghost(tex));  // block/oak_log_top, block/oak_log
    proof {
        lemma_model_bottom_top(39, 39, 40);
    }
    put(map, 138, cube(textures, [39, 39, 40, 40, 40, 40], false, None).into_model(), Ghost(tex));  // block/oak_log_top, block/oak_log
    proof {
        lemma_model_bottom_top(39, 39, 40);
    }
    put(map, 139, cube(textures, [41, 41, 42, 42, 42, 42], false, None).into_model(), Ghost(tex));  // block/spruce_log_top, block/spruce_log
    proof {
        lemma_model_bottom_top(41, 41, 42);
    }
    put(map, 140, cube(textures, [41, 41, 42, 42, 42, 42], false, None).into_model(), Ghost(tex));  // block/spruce_log_top, block/spruce_log
    proof {
        lemma_model_bottom_top(41, 41, 42);
    }
    put(map, 141, cube(textures, [41, 41, 42, 42, 42, 42], false, None).into_model(), Ghost(tex));  // block/spruce_log_top, block/spruce_log
    proof {
        lemma_model_bottom_top(41, 41, 42);
    }
    put(map, 142, cube(textures, [43, 43, 44, 44, 44, 44], false, None).into_model(), Ghost(tex));  // block/birch_log_top, block/birch_log
    proof {
        lemma_model_bottom_top(43, 43, 44);
    }
    put(map, 143, cube(textures, [43, 43, 44, 44, 44, 44], false, None).into_model(), Ghost(tex));  // block/birch_log_top, block/birch_log
    proof {
        lemma_model_bottom_top(43, 43, 44);
    }
}

/// Adds the models of states 144, 145, 146, 147, 148, 149, 150, 151, 152, 153, 154, 155, 156, 157, 158, 159.
fn add_default_models_4(map: &mut HashMap<u16, BlockStateModel>, textures: &Vec<&'static str>)
    requires
        all_cubes_wf(old(map)@, textures@),
    ensures
        all_cubes_wf(final(map)@, textures@),
        state_models_view(final(map)@) == state_models_view(old(map)@)
            .insert(144u16, crate::block_registry::spec_cube_column(43, 44))
            .insert(145u16, crate::block_registry::spec_cube_column(45, 46))
            .insert(146u16, crate::block_registry::spec_cube_column(45, 46))
            .insert(147u16, crate::block_registry::spec_cube_column(45, 46))
            .insert(148u16, crate::block_registry::spec_cube_column(47, 48))
            .insert(149u16, crate::block_registry::spec_cube_column(47, 48))
            .insert(150u16, crate::block_registry::spec_cube_column(47, 48))
            .insert(151u16, crate::block_registry::spec_cube_column(49, 50))
            .insert(152u16, crate::block_registry::spec_cube_column(49, 50))
            .insert(153u16, crate::block_registry::spec_cube_column(49, 50))
            .insert(154u16, crate::block_registry::spec_cube_column(51, 52))
            .insert(155u16, crate::block_registry::spec_cube_column(51, 52))
            .insert(156u16, crate::block_registry::spec_cube_column(51, 52))
            .insert(157u16, crate::block_registry::spec_cube_column(55, 56))
            .insert(158u16, crate::block_registry::spec_cube_column(55, 56))
            .insert(159u16, crate::block_registry::spec_cube_column(55, 56)),
{
    let ghost tex = textures@;
    put(map, 144, cube(textures, [43, 43, 44, 44, 44, 44], false, None).into_model(), Ghost(tex));  // block/birch_log_top, block/birch_log
    proof {
        lemma_model_bottom_top(43, 43, 44);
    }
    put(map, 145, cube(textures, [45, 45, 46, 46, 46, 46], false, None).into_model(), Ghost(tex));  // block/jungle_log_top, block/jungle_log
    proof {
        lemma_model_bottom_top(45, 45, 46);
    }
    put(map, 146, cube(textures, [45, 45, 46, 46, 46, 46], false, None).into_model(), Ghost(tex));  // block/jungle_log_top, block/jungle_log
    proof {
        lemma_model_bottom_top(45, 45, 46);
    }
    put(map, 147, cube(textures, [45, 45, 46, 46, 46, 46], false, None).into_model(), Ghost(tex));  // block/jungle_log_top, block/jungle_log
    proof {
        lemma_model_bottom_top(45, 45, 46);
    }
    put(map, 148, cube(textures, [47, 47, 48, 48, 48, 48], false, None).into_model(), Ghost(tex));  // block/acacia_log_top, block/acacia_log
    proof {
        lemma_model_bottom_top(47, 47, 48);
    }
    put(map, 149, cube(textures, [47, 47, 48, 48, 48, 48], false, None).into_model(), Ghost(tex));  // block/acacia_log_top, block/acacia_log
    proof {
        lemma_model_bottom_top(47, 47, 48);
    }
    put(map, 150, cube(textures, [47, 47, 48, 48, 48, 48], false, None).into_model(), Ghost(tex));  // block/acacia_log_top, block/acacia_log
    proof {
        lemma_model_bottom_top(47, 47, 48);
    }
    put(map, 151, cube(textures, [49, 49, 50, 50, 50, 50], false, None).into_model(), Ghost(tex));  // block/cherry_log_top, block/cherry_log
    proof {
        lemma_model_bottom_top(49, 49, 50);
    }
    put(map, 152, cube(textures, [49, 49, 50, 50, 50, 50], false, None).into_model(), Ghost(tex));  // block/cherry_log_top, block/cherry_log
    proof {
        lemma_model_bottom_top(49, 49, 50);
    }
    put(map, 153, cube(textures, [49, 49, 50, 50, 50, 50], false, None).into_model(), Ghost(tex));  // block/cherry_log_top, block/cherry_log
    proof {
        lemma_model_bottom_top(49, 49, 50);
    }
    put(map, 154, cube(textures, [51, 51, 52, 52, 52, 52], false, None).into_model(), Ghost(tex));  // block/dark_oak_log_top, block/dark_oak_log
    proof {
        lemma_model_bottom_top(51, 51, 52);
    }
    put(map, 155, cube(textures, [51, 51, 52, 52, 52, 52], false, None).into_model(), Ghost(tex));  // block/dark_oak_log_top, block/dark_oak_log
    proof {
        lemma_model_bottom_top(51, 51, 52);
    }
    put(map, 156, cube(textures, [51, 51, 52, 52, 52, 52], false, None).into_model(), Ghost(tex));  // block/dark_oak_log_top, block/dark_oak_log
    proof {
        lemma_model_bottom_top(51, 51, 52);
    }
    put(map, 157, cube(textures, [55, 55, 56, 56, 56, 56], false, None).into_model(), Ghost(tex));  // block/pale_oak_log_top, block/pale_oak_log
    proof {
        lemma_model_bottom_top(55, 55, 56);
    }
    put(map, 158, cube(textures, [55, 55, 56, 56, 56, 56], false, None).into_model(), Ghost(tex));  // block/pale_oak_log_top, block/pale_oak_log
    proof {
        lemma_model_bottom_top(55, 55, 56);
    }
    put(map, 159, cube(textures, [55, 55, 56, 56, 56, 56], false, None).into_model(), Ghost(tex));  // block/pale_oak_log_top, block/pale_oak_log
    proof {
        lemma_model_bottom_top(55, 55, 56);
    }
}

/// Adds the models of states 160, 161, 162, 192, 193, 194, 171, 172, 173, 278, 306, 334, 362, 390, 418, 446.
fn add_default_models_5(map: &mut HashMap<u16, BlockStateModel>, textures: &Vec<&'static str>)
    requires
        all_cubes_wf(old(map)@, textures@),
    ensures
        all_cubes_wf(final(map)@, textures@),
        state_models_view(final(map)@) == state_models_view(old(map)@)
            .insert(160u16, crate::block_registry::spec_cube_column(53, 54))
            .insert(161u16, crate::block_registry::spec_cube_column(53, 54))
            .insert(162u16, crate::block_registry::spec_cube_column(53, 54))
            .insert(192u16, crate::block_registry::spec_cube_column(57, 58))
            .insert(193u16, crate::block_registry::spec_cube_column(57, 58))
            .insert(194u16, crate::block_registry::spec_cube_column(57, 58))
            .insert(171u16, crate::block_registry::spec_cube_column(59, 60))
            .insert(172u16, crate::block_registry::spec_cube_column(59, 60))
            .insert(173u16, crate::block_registry::spec_cube_column(59, 60))
            .insert(278u16, crate::block_registry::spec_glass())
            .insert(306u16, crate::block_registry::spec_glass())
            .insert(334u16, crate::block_registry::spec_glass())
            .insert(362u16, crate::block_registry::spec_glass())
            .insert(390u16, crate::block_registry::spec_glass())
            .insert(418u16, crate::block_registry::spec_glass())
            .insert(446u16, crate::block_registry::spec_glass()),
{
    let ghost tex = textures@;
    put(map, 160, cube(textures, [53, 53, 54, 54, 54, 54], false, None).into_model(), Ghost(tex));  // block/mangrove_log_top, block/mangrove_log
    proof {
        lemma_model_bottom_top(53, 53, 54);
    }
    put(map, 161, cube(textures, [53, 53, 54, 54, 54, 54], false, None).into_model(), Ghost(tex));  // block/mangrove_log_top, block/mangrove_log
    proof {
        lemma_model_bottom_top(53, 53, 54);
    }
    put(map, 162, cube(textures, [53, 53, 54, 54, 54, 54], false, None).into_model(), Ghost(tex));  // block/mangrove_log_top, block/mangrove_log
    proof {
        lemma_model_bottom_top(53, 53, 54);
    }
    put(map, 192, cube(textures, [57, 57, 58, 58, 58, 58], false, None).into_model(), Ghost(tex));  // block/stripped_oak_log_top, block/stripped_oak_log
    proof {
        lemma_model_bottom_top(57, 57, 58);
    }
    put(map, 193, cube(textures, [57, 57, 58, 58, 58, 58], false, None).into_model(), Ghost(tex));  // block/stripped_oak_log_top, block/stripped_oak_log
    proof {
        lemma_model_bottom_top(57, 57, 58);
    }
    put(map, 194, cube(textures, [57, 57, 58, 58, 58, 58], false, None).into_model(), Ghost(tex));  // block/stripped_oak_log_top, block/stripped_oak_log
    proof {
        lemma_model_bottom_top(57, 57, 58);
    }
    put(map, 171, cube(textures, [59, 59, 60, 60, 60, 60], false, None).into_model(), Ghost(tex));  // block/stripped_spruce_log_top, block/stripped_spruce_log
    proof {
        lemma_model_bottom_top(59, 59, 60);
    }
    put(map, 172, cube(textures, [59, 59, 60, 60, 60, 60], false, None).into_model(), Ghost(tex));  // block/stripped_spruce_log_top, block/stripped_spruce_log
    proof {
        lemma_model_bottom_top(59, 59, 60);
    }
    put(map, 173, cube(textures, [59, 59, 60, 60, 60, 60], false, None).into_model(), Ghost(tex));  // block/stripped_spruce_log_top, block/stripped_spruce_log
    proof {
        lemma_model_bottom_top(59, 59, 60);
    }
    put(map, 278, cube(textures, [0, 0, 0, 0, 0, 0], true, None).into_model(), Ghost(tex));  // placeholder
    proof {
        lemma_model_glass();
    }
    put(map, 306, cube(textures, [0, 0, 0, 0, 0, 0], true, None).into_model(), Ghost(tex));  // placeholder
    proof {
        lemma_model_glass();
    }
    put(map, 334, cube(textures, [0, 0, 0, 0, 0, 0], true, None).into_model(), Ghost(tex));  // placeholder
    proof {
        lemma_model_glass();
    }
    put(map, 362, cube(textures, [0, 0, 0, 0, 0, 0], true, None).into_model(), Ghost(tex));  // placeholder
    proof {
        lemma_model_glass();
    }
    put(map, 390, cube(textures, [0, 0, 0, 0, 0, 0], true, None).into_model(), Ghost(tex));  // placeholder
    proof {
        lemma_model_glass();
    }
    put(map, 418, cube(textures, [0, 0, 0, 0, 0, 0], true, None).into_model(), Ghost(tex));  // placeholder
    proof {
        lemma_model_glass();
    }
    put(map, 446, cube(textures, [0, 0, 0, 0, 0, 0], true, None).into_model(), Ghost(tex));  // placeholder
    proof {
        lemma_model_glass();
    }
}

/// Adds the models of states 502, 129, 130, 131, 132, 133, 134, 135, 23970, 22109, 23344, 25796, 25967, 6028, 6029, 13566.
fn add_default_models_6(map: &mut HashMap<u16, BlockStateModel>, textures: &Vec<&'static str>)
    requires
        all_cubes_wf(old(map)@, textures@),
    ensures
        all_cubes_wf(final(map)@, textures@),
        state_models_view(final(map)@) == state_models_view(old(map)@)
            .insert(502u16, crate::block_registry::spec_glass())
            .insert(129u16, crate::block_registry::spec_cube_all(66))
            .insert(130u16, crate::block_registry::spec_cube_bottom_top(82, 82, 88))
            .insert(131u16, crate::block_registry::spec_cube_all(65))
            .insert(132u16, crate::block_registry::spec_cube_bottom_top(82, 82, 86))
            .insert(133u16, crate::block_registry::spec_cube_all(64))
            .insert(134u16, crate::block_registry::spec_cube_bottom_top(82, 82, 85))
            .insert(135u16, crate::block_registry::spec_cube_all(67))
            .insert(23970u16, crate::block_registry::spec_cube_all(68))
            .insert(22109u16, crate::block_registry::spec_cube_all(93))
            .insert(23344u16, crate::block_registry::spec_cube_all(94))
            .insert(25796u16, crate::block_registry::spec_cube_all(95))
            .insert(25967u16, crate::block_registry::spec_cube_all(84))
            .insert(6028u16, crate::block_registry::spec_cube_all(97))
            .insert(6029u16, crate::block_registry::spec_cube_all(98))
            .insert(13566u16, crate::block_registry::spec_cube_all(99)),
{
    let ghost tex = textures@;
    put(map, 502, cube(textures, [0, 0, 0, 0, 0, 0], true, None).into_model(), Ghost(tex));  // placeholder
    proof {
        lemma_model_glass();
    }
    put(map, 129, cube(textures, [66, 66, 66, 66, 66, 66], false, None).into_model(), Ghost(tex));  // block/gold_ore
    proof {
        lemma_model_all(66);
    }
    put(map, 130, cube(textures, [82, 82, 88, 88, 88, 88], false, None).into_model(), Ghost(tex));  // block/deepslate_top, block/deepslate_gold_ore
    proof {
        lemma_model_bottom_top(82, 82, 88);
    }
    put(map, 131, cube(textures, [65, 65, 65, 65, 65, 65], false, None).into_model(), Ghost(tex));  // block/iron_ore
    proof {
        lemma_model_all(65);
    }
    put(map, 132, cube(textures, [82, 82, 86, 86, 86, 86], false, None).into_model(), Ghost(tex));  // block/deepslate_top, block/deepslate_iron_ore
    proof {
        lemma_model_bottom_top(82, 82, 86);
    }
    put(map, 133, cube(textures, [64, 64, 64, 64, 64, 64], false, None).into_model(), Ghost(tex));  // block/coal_ore
    proof {
        lemma_model_all(64);
    }
    put(map, 134, cube(textures, [82, 82, 85, 85, 85, 85], false, None).into_model(), Ghost(tex));  // block/deepslate_top, block/deepslate_coal_ore
    proof {
        lemma_model_bottom_top(82, 82, 85);
    }
    put(map, 135, cube(textures, [67, 67, 67, 67, 67, 67], false, None).into_model(), Ghost(tex));  // block/nether_gold_ore
    proof {
        lemma_model_all(67);
    }
    put(map, 23970, cube(textures, [68, 68, 68, 68, 68, 68], false, None).into_model(), Ghost(tex));  // block/copper_ore
    proof {
        lemma_model_all(68);
    }
    put(map, 22109, cube(textures, [93, 93, 93, 93, 93, 93], false, None).into_model(), Ghost(tex));  // block/tuff
    proof {
        lemma_model_all(93);
    }
    put(map, 23344, cube(textures, [94, 94, 94, 94, 94, 94], false, None).into_model(), Ghost(tex));  // block/calcite
    proof {
        lemma_model_all(94);
    }
    put(map, 25796, cube(textures, [95, 95, 95, 95, 95, 95], false, None).into_model(), Ghost(tex));  // block/dripstone_block
    proof {
        lemma_model_all(95);
    }
    put(map, 25967, cube(textures, [84, 84, 84, 84, 84, 84], false, None).into_model(), Ghost(tex));  // block/cobbled_deepslate
    proof {
        lemma_model_all(84);
    }
    put(map, 6028, cube(textures, [97, 97, 97, 97, 97, 97], false, None).into_model(), Ghost(tex));  // block/netherrack
    proof {
        lemma_model_all(97);
    }
    put(map, 6029, cube(textures, [98, 98, 98, 98, 98, 98], false, None).into_model(), Ghost(tex));  // block/soul_sand
    proof {
        lemma_model_all(98);
    }
    put(map, 13566, cube(textures, [99, 99, 99, 99, 99, 99], false, None).into_model(), Ghost(tex));  // block/magma
    proof {
        lemma_model_all(99);
    }
}

/// Adds the models of states 2137, 2138, 4340, 8449, 565, 11634, 20475, 578, 579, 580, 2093, 2094, 2095, 2096, 2097, 2098.
fn add_default_models_7(map: &mut HashMap<u16, BlockStateModel>, textures: &Vec<&'static str>)
    requires
        all_cubes_wf(old(map)@, textures@),
    ensures
        all_cubes_wf(final(map)@, textures@),
        state_models_view(final(map)@) == state_models_view(old(map)@)
            .insert(2137u16, crate::block_registry::spec_cube_all(75))
            .insert(2138u16, crate::block_registry::spec_cube_all(74))
            .insert(4340u16, crate::block_registry::spec_cube_all(76))
            .insert(8449u16, crate::block_registry::spec_cube_all(77))
            .insert(565u16, crate::block_registry::spec_cube_all(78))
            .insert(11634u16, crate::block_registry::spec_cube_all(73))
            .insert(20475u16, crate::block_registry::spec_cube_all(80))
            .insert(578u16, crate::block_registry::spec_cube_bottom_top(101, 100, 102))
            .insert(579u16, crate::block_registry::spec_cube_bottom_top(101, 100, 102))
            .insert(580u16, crate::block_registry::spec_cube_bottom_top(101, 100, 102))
            .insert(2093u16, crate::block_registry::spec_cube_all(124))
            .insert(2094u16, crate::block_registry::spec_cube_all(125))
            .insert(2095u16, crate::block_registry::spec_cube_all(126))
            .insert(2096u16, crate::block_registry::spec_cube_all(127))
            .insert(2097u16, crate::block_registry::spec_cube_all(128))
            .insert(2098u16, crate::block_registry::spec_cube_all(129)),
{
    let ghost tex = textures@;
    put(map, 2137, cube(textures, [75, 75, 75, 75, 75, 75], false, None).into_model(), Ghost(tex));  // block/gold_block
    proof {
        lemma_model_all(75);
    }
    put(map, 2138, cube(textures, [74, 74, 74, 74, 74, 74], false, None).into_model(), Ghost(tex));  // block/iron_block
    proof {
        lemma_model_all(74);
    }
    put(map, 4340, cube(textures, [76, 76, 76, 76, 76, 76], false, None).into_model(), Ghost(tex));  // block/diamond_block
    proof {
        lemma_model_all(76);
    }
    put(map, 8449, cube(textures, [77, 77, 77, 77, 77, 77], false, None).into_model(), Ghost(tex));  // block/emerald_block
    proof {
        lemma_model_all(77);
    }
    put(map, 565, cube(textures, [78, 78, 78, 78, 78, 78], false, None).into_model(), Ghost(tex));  // block/lapis_block
    proof {
        lemma_model_all(78);
    }
    put(map, 11634, cube(textures, [73, 73, 73, 73, 73, 73], false, None).into_model(), Ghost(tex));  // block/coal_block
    proof {
        lemma_model_all(73);
    }
    put(map, 20475, cube(textures, [80, 80, 80, 80, 80, 80], false, None).into_model(), Ghost(tex));  // block/netherite_block
    proof {
        lemma_model_all(80);
    }
    put(map, 578, cube(textures, [101, 100, 102, 102, 102, 102], false, None).into_model(), Ghost(tex));  // block/sandstone_bottom, block/sandstone_top, block/sandstone
    proof {
        lemma_model_bottom_top(101, 100, 102);
    }
    put(map, 579, cube(textures, [101, 100, 102, 102, 102, 102], false, None).into_model(), Ghost(tex));  // block/sandstone_bottom, block/sandstone_top, block/sandstone
    proof {
        lemma_model_bottom_top(101, 100, 102);
    }
    put(map, 580, cube(textures, [101, 100, 102, 102, 102, 102], false, None).into_model(), Ghost(tex));  // block/sandstone_bottom, block/sandstone_top, block/sandstone
    proof {
        lemma_model_bottom_top(101, 100, 102);
    }
    put(map, 2093, cube(textures, [124, 124, 124, 124, 124, 124], false, None).into_model(), Ghost(tex));  // block/white_wool
    proof {
        lemma_model_all(124);
    }
    put(map, 2094, cube(textures, [125, 125, 125, 125, 125, 125], false, None).into_model(), Ghost(tex));  // block/orange_wool
    proof {
        lemma_model_all(125);
    }
    put(map, 2095, cube(textures, [126, 126, 126, 126, 126, 126], false, None).into_model(), Ghost(tex));  // block/magenta_wool
    proof {
        lemma_model_all(126);
    }
    put(map, 2096, cube(textures, [127, 127, 127, 127, 127, 127], false, None).into_model(), Ghost(tex));  // block/light_blue_wool
    proof {
        lemma_model_all(127);
    }
    put(map, 2097, cube(textures, [128, 128, 128, 128, 128, 128], false, None).into_model(), Ghost(tex));  // block/yellow_wool
    proof {
        lemma_model_all(128);
    }
    put(map, 2098, cube(textures, [129, 129, 129, 129, 129, 129], false, None).into_model(), Ghost(tex));  // block/lime_wool
    proof {
        lemma_model_all(129);
    }
}

/// Adds the models of states 2099, 2100, 2101, 2102, 2103, 2104, 2105, 2106, 2107, 2108, 560, 562, 2142, 4341.
fn add_default_models_8(map: &mut HashMap<u16, BlockStateModel>, textures: &Vec<&'static str>)
    requires
        all_cubes_wf(old(map)@, textures@),
    ensures
        all_cubes_wf(final(map)@, textures@),
        state_models_view(final(map)@) == state_models_view(old(map)@)
            .insert(2099u16, crate::block_registry::spec_cube_all(130))
            .insert(2100u16, crate::block_registry::spec_cube_all(131))
            .insert(2101u16, crate::block_registry::spec_cube_all(132))
            .insert(2102u16, crate::block_registry::spec_cube_all(133))
            .insert(2103u16, crate::block_registry::spec_cube_all(134))
            .insert(2104u16, crate::block_registry::spec_cube_all(135))
            .insert(2105u16, crate::block_registry::spec_cube_all(136))
            .insert(2106u16, crate::block_registry::spec_cube_all(137))
            .insert(2107u16, crate::block_registry::spec_cube_all(138))
            .insert(2108u16, crate::block_registry::spec_cube_all(139))
            .insert(560u16, crate::block_registry::spec_cube_all(118))
            .insert(562u16, crate::block_registry::spec_cube_all(119))
            .insert(2142u16, crate::block_registry::spec_cube_bottom_top(28, 28, 109))
            .insert(4341u16, RegistryModel {
                faces: [
                    crate::block_registry::BlockFace { texture: 28 },
                    crate::block_registry::BlockFace { texture: 110 },
                    crate::block_registry::BlockFace { texture: 111 },
                    crate::block_registry::BlockFace { texture: 112 },
                    crate::block_registry::BlockFace { texture: 112 },
                    crate::block_registry::BlockFace { texture: 111 },
                ],
                overlay: None,
                transparent: false,
            }),
{
    let ghost tex = textures@;
    put(map, 2099, cube(textures, [130, 130, 130, 130, 130, 130], false, None).into_model(), Ghost(tex));  // block/pink_wool
    proof {
        lemma_model_all(130);
    }
    put(map, 2100, cube(textures, [131, 131, 131, 131, 131, 131], false, None).into_model(), Ghost(tex));  // block/gray_wool
    proof {
        lemma_model_all(131);
    }
    put(map, 2101, cube(textures, [132, 132, 132, 132, 132, 132], false, None).into_model(), Ghost(tex));  // block/light_gray_wool
    proof {
        lemma_model_all(132);
    }
    put(map, 2102, cube(textures, [133, 133, 133, 133, 133, 133], false, None).into_model(), Ghost(tex));  // block/cyan_wool
    proof {
        lemma_model_all(133);
    }
    put(map, 2103, cube(textures, [134, 134, 134, 134, 134, 134], false, None).into_model(), Ghost(tex));  // block/purple_wool
    proof {
        lemma_model_all(134);
    }
    put(map, 2104, cube(textures, [135, 135, 135, 135, 135, 135], false, None).into_model(), Ghost(tex));  // block/blue_wool
    proof {
        lemma_model_all(135);
    }
    put(map, 2105, cube(textures, [136, 136, 136, 136, 136, 136], false, None).into_model(), Ghost(tex));  // block/brown_wool
    proof {
        lemma_model_all(136);
    }
    put(map, 2106, cube(textures, [137, 137, 137, 137, 137, 137], false, None).into_model(), Ghost(tex));  // block/green_wool
    proof {
        lemma_model_all(137);
    }
    put(map, 2107, cube(textures, [138, 138, 138, 138, 138, 138], false, None).into_model(), Ghost(tex));  // block/red_wool
    proof {
        lemma_model_all(138);
    }
    put(map, 2108, cube(textures, [139, 139, 139, 139, 139, 139], false, None).into_model(), Ghost(tex));  // block/black_wool
    proof {
        lemma_model_all(139);
    }
    put(map, 560, cube(textures, [118, 118, 118, 118, 118, 118], false, None).into_model(), Ghost(tex));  // block/sponge
    proof {
        lemma_model_all(118);
    }
    put(map, 562, cube(textures, [119, 119, 119, 119, 119, 119], false, None).into_model(), Ghost(tex));  // block/glass
    proof {
        lemma_model_all(119);
    }
    put(map, 2142, cube(textures, [28, 28, 109, 109, 109, 109], false, None).into_model(), Ghost(tex));  // block/oak_planks, block/bookshelf
    proof {
        lemma_model_bottom_top(28, 28, 109);
    }
    put(map, 4341, cube(textures, [28, 110, 111, 112, 112, 111], false, None).into_model(), Ghost(tex));  // block/oak_planks, block/crafting_table_top, block/crafting_table_front, block/crafting_table_side
}

/// Builds the default block state model set: the texture list `default_textures()`, and
/// for each state id of `default_block_models()` a cube model with that model's faces,
/// overlay and transparency over those texture names; states without a model get the
/// opaque placeholder cube.
pub fn build_default_block_state_model_set() -> (r: BlockStateModelSet)
    ensures
        r.textures@ == default_textures(),
        state_models_view(r.model_by_state@) == default_block_models(),
        all_cubes_wf(r.model_by_state@, default_textures()),
        registry_model_of(cube_of(r.missing_model)) == model_from([0, 0, 0, 0, 0, 0], false, None),
        cube_wf(cube_of(r.missing_model), default_textures()),
{
    let textures: Vec<&'static str> = vec![
        "",
        "block/stone",
        "block/granite",
        "block/polished_granite",
        "block/diorite",
        "block/polished_diorite",
        "block/andesite",
        "block/polished_andesite",
        "block/cobblestone",
        "block/bedrock",
        "block/stone_bricks",
        "block/bricks",
        "block/obsidian",
        "block/dirt",
        "block/coarse_dirt",
        "block/grass_block_top",
        "block/grass_block_side",
        "block/grass_block_side_overlay",
        "block/podzol_top",
        "block/podzol_side",
        "block/sand",
        "block/red_sand",
        "block/gravel",
        "block/clay",
        "block/moss_block",
        "block/snow",
        "block/mycelium_top",
        "block/mycelium_side",
        "block/oak_planks",
        "block/spruce_planks",
        "block/birch_planks",
        "block/jungle_planks",
        "block/acacia_planks",
        "block/cherry_planks",
        "block/dark_oak_planks",
        "block/pale_oak_planks",
        "block/mangrove_planks",
        "block/bamboo_planks",
        "block/bamboo_mosaic",
        "block/oak_log_top",
        "block/oak_log",
        "block/spruce_log_top",
        "block/spruce_log",
        "block/birch_log_top",
        "block/birch_log",
        "block/jungle_log_top",
        "block/jungle_log",
        "block/acacia_log_top",
        "block/acacia_log",
        "block/cherry_log_top",
        "block/cherry_log",
        "block/dark_oak_log_top",
        "block/dark_oak_log",
        "block/mangrove_log_top",
        "block/mangrove_log",
        "block/pale_oak_log_top",
        "block/pale_oak_log",
        "block/stripped_oak_log_top",
        "block/stripped_oak_log",
        "block/stripped_spruce_log_top",
        "block/stripped_spruce_log",
        "block/oak_leaves",
        "block/spruce_leaves",
        "block/birch_leaves",
        "block/coal_ore",
        "block/iron_ore",
        "block/gold_ore",
        "block/nether_gold_ore",
        "block/copper_ore",
        "block/lapis_ore",
        "block/redstone_ore",
        "block/diamond_ore",
        "block/emerald_ore",
        "block/coal_block",
        "block/iron_block",
        "block/gold_block",
        "block/diamond_block",
        "block/emerald_block",
        "block/lapis_block",
        "block/redstone_block",
        "block/netherite_block",
        "block/copper_block",
        "block/deepslate_top",
        "block/deepslate",
        "block/cobbled_deepslate",
        "block/deepslate_coal_ore",
        "block/deepslate_iron_ore",
        "block/deepslate_copper_ore",
        "block/deepslate_gold_ore",
        "block/deepslate_diamond_ore",
        "block/deepslate_emerald_ore",
        "block/deepslate_redstone_ore",
        "block/deepslate_lapis_ore",
        "block/tuff",
        "block/calcite",
        "block/dripstone_block",
        "block/mossy_cobblestone",
        "block/netherrack",
        "block/soul_sand",
        "block/magma",
        "block/sandstone_top",
        "block/sandstone_bottom",
        "block/sandstone",
        "block/red_sandstone_top",
        "block/red_sandstone_bottom",
        "block/red_sandstone",
        "block/ice",
        "block/packed_ice",
        "block/blue_ice",
        "block/bookshelf",
        "block/crafting_table_top",
        "block/crafting_table_front",
        "block/crafting_table_side",
        "block/furnace_top",
        "block/furnace_front",
        "block/furnace_side",
        "block/terracotta",
        "block/white_terracotta",
        "block/sponge",
        "block/glass",
        "block/water_still",
        "block/lava_still",
        "block/bone_block_side",
        "block/bone_block_top",
        "block/white_wool",
        "block/orange_wool",
        "block/magenta_wool",
        "block/light_blue_wool",
        "block/yellow_wool",
        "block/lime_wool",
        "block/pink_wool",
        "block/gray_wool",
        "block/light_gray_wool",
        "block/cyan_wool",
        "block/purple_wool",
        "block/blue_wool",
        "block/brown_wool",
        "block/green_wool",
        "block/red_wool",
        "block/black_wool",
        "block/orange_terracotta",
        "block/magenta_terracotta",
        "block/light_blue_terracotta",
        "block/yellow_terracotta",
        "block/lime_terracotta",
        "block/pink_terracotta",
        "block/gray_terracotta",
        "block/light_gray_terracotta",
        "block/cyan_terracotta",
        "block/purple_terracotta",
        "block/blue_terracotta",
        "block/brown_terracotta",
        "block/green_terracotta",
        "block/red_terracotta",
        "block/black_terracotta",
        "block/mud",
    ];

    let mut model_by_state: HashMap<u16, BlockStateModel> = HashMap::new();
    assert(state_models_view(model_by_state@) =~= Map::<u16, RegistryModel>::empty());
    assert(all_cubes_wf(model_by_state@, textures@)) by {
        reveal(all_cubes_wf);
    }
    add_default_models_1(&mut model_by_state, &textures);
    add_default_models_2(&mut model_by_state, &textures);
    add_default_models_3(&mut model_by_state, &textures);
    add_default_models_4(&mut model_by_state, &textures);
    add_default_models_5(&mut model_by_state, &textures);
    add_default_models_6(&mut model_by_state, &textures);
    add_default_models_7(&mut model_by_state, &textures);
    add_default_models_8(&mut model_by_state, &textures);

    let missing_model = cube(&textures, [0, 0, 0, 0, 0, 0], false, None).into_model();

    BlockStateModelSet::new(model_by_state, missing_model, textures)
}

/// The default block registry and the default block state model set agree: they know
/// the same state ids, give each the same face textures, overlay and transparency, and
/// name the textures alike.
pub proof fn law_registry_agrees_with_state_models(r: BlockRegistry, s: BlockStateModelSet)
    requires
        r.wf(),
        r.view_models() == default_block_models(),
        r.textures@ == default_textures(),
        state_models_view(s.model_by_state@) == default_block_models(),
        s.textures@ == default_textures(),
    ensures
        forall|id: u16| #[trigger] r.view_models().contains_key(id) <==> s.model_by_state@.contains_key(id),
        forall|id: u16|
            #[trigger] s.model_by_state@.contains_key(id) ==> r.view_models()[id] == registry_model_of(
                cube_of(s.model_by_state@[id]),
            ),
        r.textures@ == s.textures@,
{
    assert forall|id: u16| #[trigger] s.model_by_state@.contains_key(id) implies r.view_models()[id]
        == registry_model_of(cube_of(s.model_by_state@[id])) by {
        assert(state_models_view(s.model_by_state@).contains_key(id));
    }
    assert forall|id: u16| #[trigger] r.view_models().contains_key(id) implies s.model_by_state@.contains_key(id) by {
        assert(state_models_view(s.model_by_state@).contains_key(id));
    }
}

} // verus!
