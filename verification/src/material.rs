//! Sprite materials of block models: a sprite id and whether it is forced translucent.

use vstd::prelude::*;

verus! {

/// A sprite reference of a model, before baking.
#[derive(Clone, Debug, PartialEq, Eq)]
pub struct Material {
    pub sprite: String,
    pub force_translucent: bool,
}

impl Material {
    /// A material for `sprite` that is not forced translucent.
    pub fn new(sprite: String) -> (r: Self)
        ensures
            r.sprite == sprite,
            !r.force_translucent,
    {
        Self { sprite, force_translucent: false }
    }

    /// The same material with the translucency flag set to `force`.
    pub fn with_force_translucent(self, force: bool) -> (r: Self)
        ensures
            r.sprite == self.sprite,
            r.force_translucent == force,
    {
        let mut m = self;
        m.force_translucent = force;
        m
    }
}

/// Baked material produced by a model baker.
#[derive(Clone, Debug, PartialEq, Eq)]
pub struct Baked {
    /// Resolved sprite id (atlas lookup happens elsewhere).
    pub sprite: String,
    pub force_translucent: bool,
}

impl Baked {
    pub fn new(sprite: String, force_translucent: bool) -> (r: Self)
        ensures
            r.sprite == sprite,
            r.force_translucent == force_translucent,
    {
        Self { sprite, force_translucent }
    }
}

impl From<Material> for Baked {
    /// Baking keeps the sprite id and the translucency flag.
    fn from(m: Material) -> (r: Self) {
        Baked::new(m.sprite, m.force_translucent)
    }
}

impl vstd::std_specs::convert::FromSpecImpl<Material> for Baked {
    open spec fn obeys_from_spec() -> bool {
        true
    }

    open spec fn from_spec(m: Material) -> Baked {
        Baked { sprite: m.sprite, force_translucent: m.force_translucent }
    }
}

} // verus!
