//! Block models as the renderer looks them up: a model for each block state, built
//! once from the default block state model set.

use vstd::prelude::*;
use std::collections::HashMap;
use crate::block::BlockState;
use crate::block_registry::{default_block_models, default_textures};
use crate::block_state_model::{
    build_default_block_state_model_set, same_cube, cube_of, cube_wf, model_from, registry_model_of,
    state_models_view, BlockStateModel, BlockStateModelSet,
};

verus! {

broadcast use vstd::std_specs::hash::group_hash_axioms;

/// A block model; either nothing to draw, or a block state model to draw.
pub enum BlockModel {
    Empty,
    StateWrapper(BlockStateModelWrapper),
}

/// Wraps a block state model.
pub struct BlockStateModelWrapper {
    pub model: BlockStateModel,
}

impl BlockStateModelWrapper {
    pub fn new(model: BlockStateModel) -> (r: Self)
        ensures
            r.model == model,
    {
        Self { model }
    }
}

impl BlockModel {
    /// The wrapped block state model, for a state wrapper; `None` otherwise.
    pub fn as_state_wrapper(&self) -> (r: Option<&BlockStateModelWrapper>)
        ensures
            r == (match *self {
                BlockModel::StateWrapper(w) => Some(&w),
                BlockModel::Empty => None,
            }),
    {
        match self {
            BlockModel::StateWrapper(w) => Some(w),
            _ => None,
        }
    }
}

/// Whether `b` wraps a copy of the block state model `m`.
pub open spec fn wraps_copy_of(b: BlockModel, m: BlockStateModel) -> bool {
    match b {
        BlockModel::StateWrapper(w) => same_cube(cube_of(w.model), cube_of(m)),
        BlockModel::Empty => false,
    }
}

/// The block models of all states that have one, and the default set they come from.
pub struct BlockModelSet {
    pub fallback: BlockStateModelSet,
    pub block_model_by_state_cache: HashMap<u16, BlockModel>,
    pub missing: BlockModel,
}

impl BlockModelSet {
    /// The block model of each state that has one.
    pub open spec fn cache(&self) -> Map<u16, BlockModel> {
        self.block_model_by_state_cache@
    }

    /// The block model of states without one of their own: the fallback's missing model.
    pub open spec fn missing_block_model(&self) -> BlockModel {
        self.missing
    }

    /// The block model looked up for raw state `k`: its own, or the missing one.
    pub open spec fn model_of(&self, k: u16) -> BlockModel {
        if self.cache().contains_key(k) {
            self.cache()[k]
        } else {
            self.missing_block_model()
        }
    }

    /// The set over the default block state models: each state with a model in the
    /// fallback set has a block model that wraps a copy of it, and no other state has one;
    /// the others fall back to a copy of the fallback's missing model, the opaque cube
    /// whose six faces all use texture 0, the empty name.
    pub fn new() -> (r: Self)
        ensures
            r.fallback.textures@ == default_textures(),
            state_models_view(r.fallback.model_by_state@) == default_block_models(),
            r.cache().dom() == r.fallback.model_by_state@.dom(),
            forall|k: u16| #[trigger]
                r.cache().contains_key(k) ==> wraps_copy_of(r.cache()[k], r.fallback.model_by_state@[k]),
            wraps_copy_of(r.missing_block_model(), r.fallback.missing_model),
            registry_model_of(cube_of(r.fallback.missing_model)) == model_from([0, 0, 0, 0, 0, 0], false, None),
            cube_wf(cube_of(r.fallback.missing_model), default_textures()),
            forall|i: int| 0 <= i < 6 ==> #[trigger] cube_of(r.fallback.missing_model).spec_face_texture_name(i)
                == Seq::<char>::empty(),
    {
        let fallback = build_default_block_state_model_set();
        let mut cache: HashMap<u16, BlockModel> = HashMap::new();
        let ghost m = fallback.model_by_state@;
        for entry in it: fallback.model_by_state.iter()
            invariant
                m == fallback.model_by_state@,
                forall|k: u16| #[trigger]
                    cache@.contains_key(k) ==> m.contains_key(k) && wraps_copy_of(cache@[k], m[k]),
                forall|k: u16| #[trigger]
                    m.contains_key(k) ==> cache@.contains_key(k) || exists|i: int|
                        it.index() <= i < it.seq().len() && *(#[trigger] it.seq()[i]).0 == k,
        {
            let (state, model) = entry;
            cache.insert(*state, BlockModel::StateWrapper(BlockStateModelWrapper::new(model.duplicate())));
        }
        assert(cache@.dom() =~= m.dom());
        let missing = BlockModel::StateWrapper(BlockStateModelWrapper::new(fallback.missing_model.duplicate()));
        proof {
            reveal(cube_wf);
            let c = cube_of(fallback.missing_model);
            reveal_strlit("");
            assert(default_textures()[0]@ =~= Seq::<char>::empty());
            assert forall|i: int| 0 <= i < 6 implies #[trigger] c.spec_face_texture_name(i) == Seq::<char>::empty() by {
                assert(c.faces[i].texture == 0);
                assert(c.texture_names@[0]@ == default_textures()[0]@);
            }
        }
        Self { fallback, block_model_by_state_cache: cache, missing }
    }

    /// The block model of `state`; a state without one gets the missing model.
    pub fn get(&self, state: BlockState) -> (r: &BlockModel)
        ensures
            *r == self.model_of(state.0),
    {
        match self.block_model_by_state_cache.get(&state.0) {
            Some(m) => m,
            None => &self.missing,
        }
    }

    /// The texture names of the models.
    pub fn textures(&self) -> (r: &[&'static str])
        ensures
            r@ == self.fallback.textures@,
    {
        self.fallback.textures.as_slice()
    }
}

} // verus!
