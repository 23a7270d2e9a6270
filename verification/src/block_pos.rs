//! Integer block coordinates and their packed 64-bit form.
//!
//! The packed layout stores x in the top 26 bits, z in the next 26 bits and y in the
//! low 12 bits, each as a two's-complement field.

use vstd::prelude::*;
use crate::direction::{Direction, spec_opposite, spec_step_x, spec_step_y, spec_step_z};
use crate::position::{ivec3_components, ivec3_fields, ivec3_new};
use glam::IVec3;

verus! {

/// Block coordinate (integer).
#[derive(Clone, Copy, PartialEq, Eq, Hash, Debug, Structural)]
pub struct BlockPos(pub i32, pub i32, pub i32);

/// Width in bits of the packed x and z fields.
pub const PACKED_HORIZONTAL_LENGTH: u64 = 26;
/// Width in bits of the packed y field.
pub const PACKED_Y_LENGTH: u64 = 12;
/// Bit offset of the packed x field.
pub const BLOCK_X_OFFSET: u64 = 38;
/// Bit offset of the packed z field.
pub const BLOCK_Z_OFFSET: u64 = 12;
/// Bit offset of the packed y field.
pub const BLOCK_Y_OFFSET: u64 = 0;

/// The value of a `2 * half`-wide two's-complement field whose raw bits read `v`
/// (`0 <= v < 2 * half`).
pub open spec fn wrap_signed(v: int, half: int) -> int {
    if v >= half {
        v - 2 * half
    } else {
        v
    }
}

/// The unsigned 64-bit pattern of a packed position.
pub open spec fn packed_bits(p: i64) -> int {
    (p as u64) as int
}

/// The x coordinate stored in a packed position: its top 26 bits, signed.
pub open spec fn spec_x_from_packed(p: i64) -> int {
    wrap_signed(packed_bits(p) / 0x40_0000_0000, 0x200_0000)
}

/// The y coordinate stored in a packed position: its low 12 bits, signed.
pub open spec fn spec_y_from_packed(p: i64) -> int {
    wrap_signed(packed_bits(p) % 0x1000, 0x800)
}

/// The z coordinate stored in a packed position: bits 12 to 37, signed.
pub open spec fn spec_z_from_packed(p: i64) -> int {
    wrap_signed((packed_bits(p) / 0x1000) % 0x400_0000, 0x200_0000)
}

/// The packed form of (x, y, z): the low 26 bits of x above the low 26 bits of z above
/// the low 12 bits of y, read as a two's-complement 64-bit integer.
pub open spec fn spec_pack_long(x: int, y: int, z: int) -> i64 {
    ((x % 0x400_0000) * 0x40_0000_0000 + (z % 0x400_0000) * 0x1000 + (y % 0x1000)) as i64
}

/// Whether a coordinate triple fits the packed fields without loss.
pub open spec fn packable(x: int, y: int, z: int) -> bool {
    &&& -0x200_0000 <= x < 0x200_0000
    &&& -0x800 <= y < 0x800
    &&& -0x200_0000 <= z < 0x200_0000
}

impl BlockPos {
    /// The origin.
    pub fn zero() -> (r: BlockPos)
        ensures
            r == BlockPos(0, 0, 0),
    {
        BlockPos(0, 0, 0)
    }

    /// The largest x or z that the packed form holds.
    pub const MAX_HORIZONTAL_COORDINATE: i32 = 0x1ff_ffff;

    pub fn min(a: BlockPos, b: BlockPos) -> (r: BlockPos)
        ensures
            r.0 == (if a.0 <= b.0 { a.0 } else { b.0 }),
            r.1 == (if a.1 <= b.1 { a.1 } else { b.1 }),
            r.2 == (if a.2 <= b.2 { a.2 } else { b.2 }),
    {
        Self(
            if a.0 <= b.0 { a.0 } else { b.0 },
            if a.1 <= b.1 { a.1 } else { b.1 },
            if a.2 <= b.2 { a.2 } else { b.2 },
        )
    }

    pub fn max(a: BlockPos, b: BlockPos) -> (r: BlockPos)
        ensures
            r.0 == (if a.0 >= b.0 { a.0 } else { b.0 }),
            r.1 == (if a.1 >= b.1 { a.1 } else { b.1 }),
            r.2 == (if a.2 >= b.2 { a.2 } else { b.2 }),
    {
        Self(
            if a.0 >= b.0 { a.0 } else { b.0 },
            if a.1 >= b.1 { a.1 } else { b.1 },
            if a.2 >= b.2 { a.2 } else { b.2 },
        )
    }

    pub fn as_long(&self) -> (r: i64)
        ensures
            r == spec_pack_long(self.0 as int, self.1 as int, self.2 as int),
    {
        Self::pack_long(self.0, self.1, self.2)
    }

    pub fn pack_long(x: i32, y: i32, z: i32) -> (r: i64)
        ensures
            r == spec_pack_long(x as int, y as int, z as int),
    {
        let r = ((x as i64 & 0x3ff_ffff) << BLOCK_X_OFFSET) | ((y as i64 & 0xfff) << BLOCK_Y_OFFSET)
            | ((z as i64 & 0x3ff_ffff) << BLOCK_Z_OFFSET);
        assert(r == spec_pack_long(x as int, y as int, z as int)) by (bit_vector)
            requires
                r == ((x as i64 & 0x3ff_ffff) << 38u64) | ((y as i64 & 0xfff) << 0u64) | ((z as i64
                    & 0x3ff_ffff) << 12u64),
        ;
        r
    }

    pub fn x_from_packed(packed: i64) -> (r: i32)
        ensures
            r == spec_x_from_packed(packed),
    {
        let r = ((packed << (64 - BLOCK_X_OFFSET - PACKED_HORIZONTAL_LENGTH)) >> (64
            - PACKED_HORIZONTAL_LENGTH)) as i32;
        assert(r == spec_x_from_packed(packed)) by (bit_vector)
            requires
                r == ((packed << 0u64) >> 38u64) as i32,
        ;
        r
    }

    pub fn y_from_packed(packed: i64) -> (r: i32)
        ensures
            r == spec_y_from_packed(packed),
    {
        let r = ((packed << (64 - PACKED_Y_LENGTH)) >> (64 - PACKED_Y_LENGTH)) as i32;
        assert(r == spec_y_from_packed(packed)) by (bit_vector)
            requires
                r == ((packed << 52u64) >> 52u64) as i32,
        ;
        r
    }

    pub fn z_from_packed(packed: i64) -> (r: i32)
        ensures
            r == spec_z_from_packed(packed),
    {
        let r = ((packed << (64 - BLOCK_Z_OFFSET - PACKED_HORIZONTAL_LENGTH)) >> (64
            - PACKED_HORIZONTAL_LENGTH)) as i32;
        assert(r == spec_z_from_packed(packed)) by (bit_vector)
            requires
                r == ((packed << 26u64) >> 38u64) as i32,
        ;
        r
    }

    pub fn from_packed(packed: i64) -> (r: Self)
        ensures
            r.0 == spec_x_from_packed(packed),
            r.1 == spec_y_from_packed(packed),
            r.2 == spec_z_from_packed(packed),
    {
        Self(Self::x_from_packed(packed), Self::y_from_packed(packed), Self::z_from_packed(packed))
    }

    pub fn offset_packed(packed: i64, direction: Direction) -> (r: i64)
        ensures
            r == spec_pack_long(
                spec_x_from_packed(packed) + spec_step_x(direction),
                spec_y_from_packed(packed) + spec_step_y(direction),
                spec_z_from_packed(packed) + spec_step_z(direction),
            ),
    {
        let x = Self::x_from_packed(packed);
        let y = Self::y_from_packed(packed);
        let z = Self::z_from_packed(packed);
        proof {
            lemma_unpacked_ranges(packed);
        }
        Self::pack_long(x + direction.step_x(), y + direction.step_y(), z + direction.step_z())
    }

    pub fn at_y(&self, y: i32) -> (r: Self)
        ensures
            r == BlockPos(self.0, y, self.2),
    {
        Self(self.0, y, self.2)
    }
}

/// The coordinates read out of any packed position lie within the packable ranges.
pub proof fn lemma_unpacked_ranges(p: i64)
    ensures
        packable(spec_x_from_packed(p), spec_y_from_packed(p), spec_z_from_packed(p)),
{
    assert(packable(spec_x_from_packed(p), spec_y_from_packed(p), spec_z_from_packed(p)))
        by (bit_vector);
}

/// Unpacking a packed position gives back the coordinates that were packed, for every
/// position whose coordinates fit the packed fields.
pub proof fn law_unpack_pack(x: i32, y: i32, z: i32)
    requires
        packable(x as int, y as int, z as int),
    ensures
        spec_x_from_packed(spec_pack_long(x as int, y as int, z as int)) == x,
        spec_y_from_packed(spec_pack_long(x as int, y as int, z as int)) == y,
        spec_z_from_packed(spec_pack_long(x as int, y as int, z as int)) == z,
{
    assert(spec_x_from_packed(spec_pack_long(x as int, y as int, z as int)) == x) by (bit_vector)
        requires
            -0x200_0000 <= x < 0x200_0000,
    ;
    assert(spec_y_from_packed(spec_pack_long(x as int, y as int, z as int)) == y) by (bit_vector)
        requires
            -0x800 <= y < 0x800,
    ;
    assert(spec_z_from_packed(spec_pack_long(x as int, y as int, z as int)) == z) by (bit_vector)
        requires
            -0x200_0000 <= z < 0x200_0000,
    ;
}

/// Every 64-bit value is the packed form of the coordinates read out of it: packing
/// loses nothing and every packed value is reachable.
pub proof fn law_pack_unpack(p: i64)
    ensures
        spec_pack_long(spec_x_from_packed(p), spec_y_from_packed(p), spec_z_from_packed(p)) == p,
{
    assert(spec_pack_long(spec_x_from_packed(p), spec_y_from_packed(p), spec_z_from_packed(p)) == p)
        by (bit_vector);
}

/// Offsetting a packed position moves the unpacked position one step in the direction,
/// as long as the moved position still fits the packed fields.
pub proof fn law_offset_packed_moves(p: i64, d: Direction)
    requires
        packable(
            spec_x_from_packed(p) + spec_step_x(d),
            spec_y_from_packed(p) + spec_step_y(d),
            spec_z_from_packed(p) + spec_step_z(d),
        ),
    ensures
        ({
            let q = spec_pack_long(
                spec_x_from_packed(p) + spec_step_x(d),
                spec_y_from_packed(p) + spec_step_y(d),
                spec_z_from_packed(p) + spec_step_z(d),
            );
            &&& spec_x_from_packed(q) == spec_x_from_packed(p) + spec_step_x(d)
            &&& spec_y_from_packed(q) == spec_y_from_packed(p) + spec_step_y(d)
            &&& spec_z_from_packed(q) == spec_z_from_packed(p) + spec_step_z(d)
        }),
{
    lemma_unpacked_ranges(p);
    let x = (spec_x_from_packed(p) + spec_step_x(d)) as i32;
    let y = (spec_y_from_packed(p) + spec_step_y(d)) as i32;
    let z = (spec_z_from_packed(p) + spec_step_z(d)) as i32;
    law_unpack_pack(x, y, z);
}

/// Offsetting a packed position in a direction and then in the opposite direction gives
/// back the packed position, for every packed value: the fields wrap on both moves.
pub proof fn law_offset_packed_back(p: i64, d: Direction)
    ensures
        ({
            let q = spec_pack_long(
                spec_x_from_packed(p) + spec_step_x(d),
                spec_y_from_packed(p) + spec_step_y(d),
                spec_z_from_packed(p) + spec_step_z(d),
            );
            spec_pack_long(
                spec_x_from_packed(q) + spec_step_x(spec_opposite(d)),
                spec_y_from_packed(q) + spec_step_y(spec_opposite(d)),
                spec_z_from_packed(q) + spec_step_z(spec_opposite(d)),
            ) == p
        }),
{
    let sx = spec_step_x(d) as i64;
    let sy = spec_step_y(d) as i64;
    let sz = spec_step_z(d) as i64;
    assert(spec_step_x(spec_opposite(d)) == -spec_step_x(d));
    assert(spec_step_y(spec_opposite(d)) == -spec_step_y(d));
    assert(spec_step_z(spec_opposite(d)) == -spec_step_z(d));
    assert({
        let q = spec_pack_long(
            spec_x_from_packed(p) + sx,
            spec_y_from_packed(p) + sy,
            spec_z_from_packed(p) + sz,
        );
        spec_pack_long(spec_x_from_packed(q) - sx, spec_y_from_packed(q) - sy, spec_z_from_packed(q) - sz)
            == p
    }) by (bit_vector)
        requires
            -1 <= sx <= 1,
            -1 <= sy <= 1,
            -1 <= sz <= 1,
    ;
}

/// Offsetting the packed form of any coordinates (x, y, z) moves them one step in the
/// direction, wherever the moved coordinates fit the packed fields, also when (x, y, z)
/// themselves do not and their packed fields have wrapped.
pub proof fn law_offset_pack_moves(x: i32, y: i32, z: i32, d: Direction)
    requires
        packable(x + spec_step_x(d), y + spec_step_y(d), z + spec_step_z(d)),
    ensures
        ({
            let p = spec_pack_long(x as int, y as int, z as int);
            let q = spec_pack_long(
                spec_x_from_packed(p) + spec_step_x(d),
                spec_y_from_packed(p) + spec_step_y(d),
                spec_z_from_packed(p) + spec_step_z(d),
            );
            &&& spec_x_from_packed(q) == x + spec_step_x(d)
            &&& spec_y_from_packed(q) == y + spec_step_y(d)
            &&& spec_z_from_packed(q) == z + spec_step_z(d)
        }),
{
    let sx = spec_step_x(d) as i64;
    let sy = spec_step_y(d) as i64;
    let sz = spec_step_z(d) as i64;
    assert({
        let p = spec_pack_long(x as int, y as int, z as int);
        let q = spec_pack_long(
            spec_x_from_packed(p) + sx,
            spec_y_from_packed(p) + sy,
            spec_z_from_packed(p) + sz,
        );
        &&& spec_x_from_packed(q) == x + sx
        &&& spec_y_from_packed(q) == y + sy
        &&& spec_z_from_packed(q) == z + sz
    }) by (bit_vector)
        requires
            -1 <= sx <= 1,
            -1 <= sy <= 1,
            -1 <= sz <= 1,
            -0x200_0000 <= x + sx < 0x200_0000,
            -0x800 <= y + sy < 0x800,
            -0x200_0000 <= z + sz < 0x200_0000,
    ;
}

impl From<BlockPos> for IVec3 {
    fn from(pos: BlockPos) -> (r: Self)
        ensures
            ivec3_components(r) == (pos.0, pos.1, pos.2),
    {
        ivec3_new(pos.0, pos.1, pos.2)
    }
}

/// An `IVec3` is opaque here, so no spec value stands for the result; the `ensures` of
/// `from` says what its components are.
impl vstd::std_specs::convert::FromSpecImpl<BlockPos> for IVec3 {
    open spec fn obeys_from_spec() -> bool {
        false
    }

    open spec fn from_spec(pos: BlockPos) -> IVec3 {
        arbitrary()
    }
}

impl From<IVec3> for BlockPos {
    fn from(v: IVec3) -> (r: Self)
        ensures
            (r.0, r.1, r.2) == ivec3_components(v),
    {
        let (x, y, z) = ivec3_fields(&v);
        Self(x, y, z)
    }
}

impl vstd::std_specs::convert::FromSpecImpl<IVec3> for BlockPos {
    open spec fn obeys_from_spec() -> bool {
        true
    }

    open spec fn from_spec(v: IVec3) -> BlockPos {
        BlockPos(ivec3_components(v).0, ivec3_components(v).1, ivec3_components(v).2)
    }
}

} // verus!
