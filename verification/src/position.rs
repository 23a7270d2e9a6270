//! Plain block and chunk coordinates, and their conversion to and from glam's `IVec3`.

use vstd::prelude::*;
use glam::IVec3;

verus! {

#[verifier::external_type_specification]
#[verifier::external_body]
pub struct ExIVec3(IVec3);

/// The components (x, y, z) that an `IVec3` holds.
pub uninterp spec fn ivec3_components(v: IVec3) -> (i32, i32, i32);

/// `IVec3::new`: the vector whose components are `x`, `y` and `z`, as glam's source
/// shows (`Self { x, y, z }`).
#[verifier::external_body]
pub(crate) fn ivec3_new(x: i32, y: i32, z: i32) -> (r: IVec3)
    ensures
        ivec3_components(r) == (x, y, z),
{
    IVec3::new(x, y, z)
}

/// Reads the public fields `x`, `y`, `z` of an `IVec3`.
#[verifier::external_body]
pub(crate) fn ivec3_fields(v: &IVec3) -> (r: (i32, i32, i32))
    ensures
        r == ivec3_components(*v),
{
    (v.x, v.y, v.z)
}

/// Block coordinate (integer)
#[derive(Clone, Copy, PartialEq, Eq, Hash, Debug, Structural)]
pub struct BlockPos(pub i32, pub i32, pub i32);

/// Chunk coordinate
#[derive(Clone, Copy, PartialEq, Eq, Hash, Debug, Structural)]
pub struct ChunkPos(pub i32, pub i32);

impl From<BlockPos> for IVec3 {
    fn from(pos: BlockPos) -> (r: Self)
        ensures
            ivec3_components(r) == (pos.0, pos.1, pos.2),
    {
        ivec3_new(pos.0, pos.1, pos.2)
    }
}

/// An `IVec3` is opaque here, so no spec value stands for the result; the `ensures` of
/// `from` says what its components are.
impl vstd::std_specs::convert::FromSpecImpl<BlockPos> for IVec3 {
    open spec fn obeys_from_spec() -> bool {
        false
    }

    open spec fn from_spec(pos: BlockPos) -> IVec3 {
        arbitrary()
    }
}

impl From<IVec3> for BlockPos {
    fn from(v: IVec3) -> (r: Self)
        ensures
            (r.0, r.1, r.2) == ivec3_components(v),
    {
        let (x, y, z) = ivec3_fields(&v);
        Self(x, y, z)
    }
}

impl vstd::std_specs::convert::FromSpecImpl<IVec3> for BlockPos {
    open spec fn obeys_from_spec() -> bool {
        true
    }

    open spec fn from_spec(v: IVec3) -> BlockPos {
        BlockPos(ivec3_components(v).0, ivec3_components(v).1, ivec3_components(v).2)
    }
}

/// The coordinate of the chunk holding block coordinate `b`: `b` divided by 16, rounded
/// down (an arithmetic shift).
pub fn chunk_of_block(b: i32) -> (r: i32)
    ensures
        r as int == (b as int) / 16,
{
    assert((b >> 4i32) as int == (b as int) / 16) by (bit_vector);
    b >> 4
}

/// The coordinate of the region file holding chunk coordinate `c`: `c` divided by 32,
/// rounded down.
pub fn region_of_chunk(c: i32) -> (r: i32)
    ensures
        r as int == (c as int) / 32,
{
    assert((c >> 5i32) as int == (c as int) / 32) by (bit_vector);
    c >> 5
}

} // verus!
