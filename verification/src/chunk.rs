//! Chunk columns of 16×16×16 block sections, and their decoding from the play-state
//! chunk payload (paletted, bit-packed block states).

use vstd::prelude::*;
use bytes::BytesMut;
use crate::block::BlockState;
use crate::buffer::{
    bytes_view,
    bytes_clone,
    bytes_len,
    bytes_has_remaining,
    bytes_get_u8,
    bytes_get_u16,
    bytes_split_to,
    bytes_as_slice,
    le_u64,
};
use crate::codec::{read_var_int, spec_read_var_int, lemma_var_int_end_bounds};

verus! {

pub const SECTION_HEIGHT: usize = 16;
pub const CHUNK_WIDTH: usize = 16;
/// Number of blocks in a section (16 × 16 × 16).
pub const BLOCKS_PER_SECTION: usize = 4096;

/// A column of sections, lowest first.
#[derive(Debug, Clone)]
pub struct Chunk {
    pub sections: Vec<ChunkSection>,
}

/// 16×16×16 block states, indexed `y * 256 + z * 16 + x`.
#[derive(Debug, Clone)]
pub struct ChunkSection {
    pub blocks: Vec<BlockState>,
}

/// The raw ids of the blocks of a section.
pub open spec fn section_raws(s: ChunkSection) -> Seq<u16> {
    s.blocks@.map_values(|b: BlockState| b.0)
}

impl ChunkSection {
    /// A section of air.
    pub fn new() -> (r: Self)
        ensures
            r.blocks@.len() == BLOCKS_PER_SECTION,
            forall|i: int| 0 <= i < BLOCKS_PER_SECTION ==> #[trigger] r.blocks@[i] == BlockState(0),
    {
        Self { blocks: vec![BlockState::air(); SECTION_HEIGHT * CHUNK_WIDTH * CHUNK_WIDTH] }
    }
}

/// The word at index `k` of a packed array, 0 past its end.
pub open spec fn word_at(data: Seq<u64>, k: int) -> u64 {
    if 0 <= k < data.len() {
        data[k]
    } else {
        0
    }
}

/// Entry `i` of an array of `bits`-bit entries packed into 64-bit words: bits
/// `i * bits` to `i * bits + bits - 1` of the little-endian bit stream of the words,
/// with zero bits past the end. (`1 <= bits <= 64`, so an entry touches at most two
/// words.)
pub open spec fn packed_entry(data: Seq<u64>, bits: u64, i: int) -> u64 {
    let p = i * bits;
    let k = p / 64;
    let o = p % 64;
    let pair = ((word_at(data, k + 1) as u128) << 64u128) | (word_at(data, k) as u128);
    ((pair >> (o as u128)) & (((1u128 << (bits as u128)) - 1) as u128)) as u64
}

/// The raw block id an unpacked entry stands for: the entry itself (its low 16 bits) in
/// a global palette, else the palette entry it indexes (the entry taken as a `usize`),
/// 0 when out of the palette or when there is no palette.
pub open spec fn entry_raw(value: u64, palette: Option<Seq<u16>>, is_global: bool) -> u16 {
    if is_global {
        value as u16
    } else {
        match palette {
            Some(p) => if (value as usize) < p.len() {
                p[(value as usize) as int]
            } else {
                0
            },
            None => 0,
        }
    }
}

/// The raw id that fills a section stored with zero bits per entry: the first palette
/// entry, or 0.
pub open spec fn single_value_raw(palette: Option<Seq<u16>>) -> u16 {
    match palette {
        Some(p) => if p.len() > 0 {
            p[0]
        } else {
            0
        },
        None => 0,
    }
}

/// The raw ids of `entry_count` entries unpacked from `data`.
pub open spec fn spec_unpack(
    data: Seq<u64>,
    bits: u8,
    entry_count: nat,
    palette: Option<Seq<u16>>,
    is_global: bool,
) -> Seq<u16> {
    if bits == 0 {
        Seq::new(entry_count, |i: int| single_value_raw(palette))
    } else {
        Seq::new(
            entry_count,
            |i: int| entry_raw(packed_entry(data, bits as u64, i), palette, is_global),
        )
    }
}

/// When unpacking panics: an entry wider than 64 bits read out of existing words.
pub open spec fn unpack_panics(data: Seq<u64>, bits: u8, entry_count: nat) -> bool {
    bits > 64 && data.len() > 0 && entry_count > 0
}

/// Entries `o .. o + bits` of the 128-bit pair (w1, w0), for an entry within w0.
proof fn lemma_entry_in_one_word(w0: u64, w1: u64, o: u64, bits: u64)
    requires
        1 <= bits <= 64,
        o + bits <= 64,
    ensures
        ((w0 >> o) & (if bits < 64 { ((1u64 << bits) - 1) as u64 } else { 0xffff_ffff_ffff_ffffu64 }))
            == (((((w1 as u128) << 64u128) | (w0 as u128)) >> (o as u128)) & (((1u128 << (
        bits as u128)) - 1) as u128)) as u64,
{
    assert(((w0 >> o) & (if bits < 64 { ((1u64 << bits) - 1) as u64 } else { 0xffff_ffff_ffff_ffffu64 }))
        == (((((w1 as u128) << 64u128) | (w0 as u128)) >> (o as u128)) & (((1u128 << (
    bits as u128)) - 1) as u128)) as u64) by (bit_vector)
        requires
            1 <= bits <= 64,
            o + bits <= 64,
    ;
}

/// An entry that straddles w0 and w1: its low part is the top of w0, its high part the
/// bottom of w1.
proof fn lemma_entry_across_words(w0: u64, w1: u64, o: u64, bits: u64)
    requires
        1 <= bits <= 64,
        o < 64,
        o + bits > 64,
    ensures
        (((w1 & (((1u64 << ((bits - (64 - o)) as u64)) - 1) as u64)) << ((64 - o) as u64)) | (w0
            >> o)) == (((((w1 as u128) << 64u128) | (w0 as u128)) >> (o as u128)) & (((1u128 << (
        bits as u128)) - 1) as u128)) as u64,
{
    assert((((w1 & (((1u64 << ((bits - (64 - o)) as u64)) - 1) as u64)) << ((64 - o) as u64)) | (w0
        >> o)) == (((((w1 as u128) << 64u128) | (w0 as u128)) >> (o as u128)) & (((1u128 << (
    bits as u128)) - 1) as u128)) as u64) by (bit_vector)
        requires
            1 <= bits <= 64,
            o < 64,
            o + bits > 64,
    ;
}

proof fn lemma_push_raws(v: Seq<BlockState>, b: BlockState)
    ensures
        v.push(b).map_values(|x: BlockState| x.0) =~= v.map_values(|x: BlockState| x.0).push(b.0),
{
}

/// Unpacks `entry_count` block states from `data`, where each entry takes
/// `bits_per_entry` bits. With zero bits every entry is the first palette entry (or air);
/// otherwise entries are raw ids (`is_global`) or indices into `palette`.
pub fn unpack_blocks(
    data: &[u64],
    bits_per_entry: u8,
    entry_count: usize,
    palette: Option<&[u16]>,
    is_global: bool,
) -> (r: Vec<BlockState>)
    requires
        !unpack_panics(data@, bits_per_entry, entry_count as nat),
        entry_count * bits_per_entry <= usize::MAX,
    ensures
        r@.map_values(|b: BlockState| b.0) == spec_unpack(
            data@,
            bits_per_entry,
            entry_count as nat,
            match palette {
                Some(p) => Some(p@),
                None => None,
            },
            is_global,
        ),
{
    let ghost pal = match palette {
        Some(p) => Some(p@),
        None => None,
    };
    let ghost target = spec_unpack(data@, bits_per_entry, entry_count as nat, pal, is_global);
    let mut blocks: Vec<BlockState> = Vec::with_capacity(entry_count);
    if bits_per_entry == 0 {
        let raw = match palette {
            Some(p) => if p.len() > 0 {
                p[0]
            } else {
                0
            },
            None => 0,
        };
        let mut n: usize = 0;
        while n < entry_count
            invariant
                n <= entry_count,
                raw == single_value_raw(pal),
                target == Seq::new(entry_count as nat, |i: int| single_value_raw(pal)),
                blocks@.map_values(|b: BlockState| b.0) =~= target.take(n as int),
            decreases entry_count - n,
        {
            let ghost before = blocks@;
            blocks.push(BlockState::from_raw(raw));
            proof {
                lemma_push_raws(before, BlockState(raw));
            }
            n += 1;
        }
        assert(target.take(entry_count as int) =~= target);
        return blocks;
    }
    let bits = bits_per_entry as usize;
    let mask: u64 = if bits < 64 {
        assert(1u64 << (bits as u64) >= 1) by (bit_vector)
            requires
                bits < 64,
        ;
        (1u64 << bits as u64) - 1
    } else {
        0xffff_ffff_ffff_ffffu64
    };
    let mut entry_idx: usize = 0;
    while entry_idx < entry_count
        invariant
            entry_idx <= entry_count,
            entry_count * bits_per_entry <= usize::MAX,
            bits == bits_per_entry,
            1 <= bits,
            entry_count == 0 || bits <= 64 || data@.len() == 0,
            mask == (if bits < 64 { ((1u64 << bits as u64) - 1) as u64 } else { 0xffff_ffff_ffff_ffffu64 }),
            pal == match palette {
                Some(p) => Some(p@),
                None => None,
            },
            target == Seq::new(
                entry_count as nat,
                |i: int| entry_raw(packed_entry(data@, bits_per_entry as u64, i), pal, is_global),
            ),
            blocks@.map_values(|b: BlockState| b.0) =~= target.take(entry_idx as int),
        decreases entry_count - entry_idx,
    {
        assert(entry_idx * bits <= entry_count * bits) by (nonlinear_arith)
            requires
                entry_idx <= entry_count,
        ;
        let bit_index = entry_idx * bits;
        let start_long = bit_index / 64;
        let start_offset = bit_index % 64;
        let ghost w0 = word_at(data@, start_long as int);
        let ghost w1 = word_at(data@, start_long as int + 1);
        let value: u64 = if start_long >= data.len() {
            proof {
                assert(w0 == 0 && w1 == 0);
                let o = start_offset as u128;
                let b = bits as u128;
                assert((((((0u64 as u128) << 64u128) | (0u64 as u128)) >> o) & (((1u128 << b) - 1)
                    as u128)) as u64 == 0) by (bit_vector);
            }
            0
        } else if start_offset + bits <= 64 {
            proof {
                lemma_entry_in_one_word(w0, w1, start_offset as u64, bits as u64);
            }
            (data[start_long] >> start_offset as u64) & mask
        } else {
            let low = data[start_long] >> start_offset as u64;
            let remaining = bits - (64 - start_offset);
            assert(1u64 << (remaining as u64) >= 1) by (bit_vector)
                requires
                    remaining < 64,
            ;
            let high = if start_long + 1 < data.len() {
                data[start_long + 1] & ((1u64 << remaining as u64) - 1)
            } else {
                proof {
                    assert((0u64 & (((1u64 << ((bits - (64 - start_offset)) as u64)) - 1) as u64))
                        == 0) by (bit_vector);
                }
                0
            };
            proof {
                lemma_entry_across_words(w0, w1, start_offset as u64, bits as u64);
            }
            (high << (64 - start_offset) as u64) | low
        };
        assert(value == packed_entry(data@, bits_per_entry as u64, entry_idx as int));
        let raw: u16 = if is_global {
            value as u16
        } else {
            match palette {
                Some(pal_slice) => {
                    let idx = value as usize;
                    if idx < pal_slice.len() {
                        pal_slice[idx]
                    } else {
                        0
                    }
                },
                None => 0,
            }
        };
        let ghost before = blocks@;
        blocks.push(BlockState::from_raw(raw));
        proof {
            lemma_push_raws(before, BlockState(raw));
        }
        entry_idx += 1;
    }
    assert(target.take(entry_count as int) =~= target);
    blocks
}

/// The outcome of one step of decoding a buffer `s` from a position: a value and the
/// position after it, a rejection (the decoder returns None) at a position, or a panic.
pub enum Step<T> {
    Done(T, nat),
    Rejected(nat),
    Panics,
}

/// The outcome of decoding all sections of a payload.
pub enum ChunkParse {
    /// The raw ids of each decoded section, and the position where decoding stopped.
    Finished(Seq<Seq<u16>>, nat),
    /// Decoding gave up at a position.
    Rejected(nat),
    Panics,
}

/// The VarInt at position `pos` of `s` and the position after it.
pub open spec fn var_int_at(s: Seq<u8>, pos: nat) -> Option<(i32, nat)> {
    match spec_read_var_int(s.skip(pos as int)) {
        Some((v, n)) => Some((v, pos + n)),
        None => None,
    }
}

/// `count` VarInts from position `pos` of `s`, each kept as its low 16 bits.
pub open spec fn palette_entries(s: Seq<u8>, pos: nat, count: nat) -> Step<Seq<u16>>
    decreases count,
{
    if count == 0 {
        Step::Done(Seq::empty(), pos)
    } else {
        match palette_entries(s, pos, (count - 1) as nat) {
            Step::Done(p, q) => match var_int_at(s, q) {
                Some((v, q2)) => Step::Done(p.push(v as u16), q2),
                None => Step::Rejected(q),
            },
            Step::Rejected(q) => Step::Rejected(q),
            Step::Panics => Step::Panics,
        }
    }
}

/// The block palette of a section with `bits` bits per entry, from position `pos`:
/// a single value for 0 bits, a list of at most 4096 entries for 1 to 8 bits, and no
/// palette (raw ids) above.
pub open spec fn spec_block_palette(s: Seq<u8>, pos: nat, bits: u8) -> Step<Option<Seq<u16>>> {
    if bits == 0 {
        match var_int_at(s, pos) {
            Some((v, q)) => Step::Done(Some(seq![v as u16]), q),
            None => Step::Rejected(pos),
        }
    } else if bits <= 8 {
        match var_int_at(s, pos) {
            None => Step::Rejected(pos),
            Some((len, q)) => if len < 0 || len > 4096 {
                Step::Rejected(q)
            } else {
                match palette_entries(s, q, len as nat) {
                    Step::Done(p, q2) => Step::Done(Some(p), q2),
                    Step::Rejected(q2) => Step::Rejected(q2),
                    Step::Panics => Step::Panics,
                }
            },
        }
    } else {
        Step::Done(None, pos)
    }
}

/// The biome palette of a section, which the decoder reads past: one value for 0 bits,
/// a list of at most 64 entries for 1 to 15 bits, nothing above.
pub open spec fn biome_palette(s: Seq<u8>, pos: nat, bits: u8) -> Step<()> {
    if bits == 0 {
        match var_int_at(s, pos) {
            Some((_v, q)) => Step::Done((), q),
            None => Step::Rejected(pos),
        }
    } else if bits <= 15 {
        match var_int_at(s, pos) {
            None => Step::Rejected(pos),
            Some((len, q)) => if len < 0 || len > 64 {
                Step::Rejected(q)
            } else {
                match palette_entries(s, q, len as nat) {
                    Step::Done(_p, q2) => Step::Done((), q2),
                    Step::Rejected(q2) => Step::Rejected(q2),
                    Step::Panics => Step::Panics,
                }
            },
        }
    } else {
        Step::Done((), pos)
    }
}

/// The number of 64-bit words that hold `entry_count` entries of `bits` bits.
pub open spec fn spec_long_count(bits: u8, entry_count: nat) -> nat {
    ((entry_count * bits + 63) / 64) as nat
}

/// The packed words of a paletted container from position `pos`: none for 0 bits, else
/// `long_count` little-endian words; rejected, after the whole words that are there,
/// when fewer are there.
pub open spec fn paletted_data(s: Seq<u8>, pos: nat, bits: u8, entry_count: nat) -> Step<Seq<u64>> {
    if bits == 0 {
        Step::Done(Seq::empty(), pos)
    } else {
        let avail = ((s.len() - pos) / 8) as nat;
        let n = spec_long_count(bits, entry_count);
        if avail < n {
            Step::Rejected(pos + 8 * avail)
        } else {
            Step::Done(Seq::new(n, |i: int| le_u64(s.skip(pos + 8 * i))), pos + 8 * n)
        }
    }
}

/// One section from position `pos` (which has at least two bytes after it): a 16-bit
/// block count, the block container (bits, palette, packed data), the biome container.
pub open spec fn parse_section(s: Seq<u8>, pos: nat) -> Step<Seq<u16>> {
    let p1 = pos + 2;
    if p1 >= s.len() {
        Step::Panics
    } else {
        let bits = s[p1 as int];
        match spec_block_palette(s, p1 + 1, bits) {
            Step::Rejected(q) => Step::Rejected(q),
            Step::Panics => Step::Panics,
            Step::Done(palette, p3) => match paletted_data(s, p3, bits, BLOCKS_PER_SECTION as nat) {
                Step::Rejected(q) => Step::Rejected(q),
                Step::Panics => Step::Panics,
                Step::Done(data, p4) => if unpack_panics(data, bits, BLOCKS_PER_SECTION as nat) {
                    Step::Panics
                } else if p4 >= s.len() {
                    Step::Panics
                } else {
                    let blocks = spec_unpack(
                        data,
                        bits,
                        BLOCKS_PER_SECTION as nat,
                        palette,
                        palette is None,
                    );
                    let biome_bits = s[p4 as int];
                    match biome_palette(s, p4 + 1, biome_bits) {
                        Step::Rejected(q) => Step::Rejected(q),
                        Step::Panics => Step::Panics,
                        Step::Done(_u, p6) => match paletted_data(s, p6, biome_bits, 64) {
                            Step::Rejected(q) => Step::Rejected(q),
                            Step::Panics => Step::Panics,
                            Step::Done(_d, p7) => Step::Done(blocks, p7),
                        },
                    }
                },
            },
        }
    }
}

/// A VarInt read from inside `s` ends inside `s`, after where it starts.
pub proof fn lemma_var_int_at_bounds(s: Seq<u8>, pos: nat)
    requires
        pos <= s.len(),
    ensures
        var_int_at(s, pos) matches Some((_v, q)) ==> pos < q <= s.len(),
{
    lemma_var_int_end_bounds(s.skip(pos as int), 0);
}

pub proof fn lemma_palette_entries_bounds(s: Seq<u8>, pos: nat, count: nat)
    requires
        pos <= s.len(),
    ensures
        palette_entries(s, pos, count) matches Step::Done(_p, q) ==> pos <= q <= s.len(),
        palette_entries(s, pos, count) matches Step::Done(p, _q) ==> p.len() == count,
        palette_entries(s, pos, count) matches Step::Rejected(q) ==> pos <= q <= s.len(),
        !(palette_entries(s, pos, count) is Panics),
    decreases count,
{
    if count > 0 {
        lemma_palette_entries_bounds(s, pos, (count - 1) as nat);
        if let Step::Done(_p, q) = palette_entries(s, pos, (count - 1) as nat) {
            lemma_var_int_at_bounds(s, q);
        }
    }
}

pub proof fn lemma_paletted_data_bounds(s: Seq<u8>, pos: nat, bits: u8, entry_count: nat)
    requires
        pos <= s.len(),
    ensures
        paletted_data(s, pos, bits, entry_count) matches Step::Done(_d, q) ==> pos <= q <= s.len(),
        paletted_data(s, pos, bits, entry_count) matches Step::Rejected(q) ==> pos <= q <= s.len(),
        !(paletted_data(s, pos, bits, entry_count) is Panics),
{
}

pub proof fn lemma_section_bounds(s: Seq<u8>, pos: nat)
    requires
        pos + 2 <= s.len(),
    ensures
        parse_section(s, pos) matches Step::Done(_b, q) ==> pos < q <= s.len(),
        parse_section(s, pos) matches Step::Rejected(q) ==> pos < q <= s.len(),
{
    let p1 = pos + 2;
    if p1 < s.len() {
        let bits = s[p1 as int];
        lemma_var_int_at_bounds(s, p1 + 1);
        if let Some((len, q)) = var_int_at(s, p1 + 1) {
            if len >= 0 {
                lemma_palette_entries_bounds(s, q, len as nat);
            }
        }
        if let Step::Done(_pal, p3) = spec_block_palette(s, p1 + 1, bits) {
            lemma_paletted_data_bounds(s, p3, bits, BLOCKS_PER_SECTION as nat);
            if let Step::Done(_d, p4) = paletted_data(s, p3, bits, BLOCKS_PER_SECTION as nat) {
                if p4 < s.len() {
                    let bb = s[p4 as int];
                    lemma_var_int_at_bounds(s, p4 + 1);
                    if let Some((len, q)) = var_int_at(s, p4 + 1) {
                        if len >= 0 {
                            lemma_palette_entries_bounds(s, q, len as nat);
                        }
                    }
                    if let Step::Done(_u, p6) = biome_palette(s, p4 + 1, bb) {
                        lemma_paletted_data_bounds(s, p6, bb, 64);
                    }
                }
            }
        }
    }
}

/// An entry of at most 8 bits is below 256.
proof fn lemma_small_entry(data: Seq<u64>, bits: u64, i: int)
    requires
        1 <= bits <= 8,
    ensures
        packed_entry(data, bits, i) < 256,
{
    let p = i * bits;
    let k = p / 64;
    let o = (p % 64) as u128;
    let pair = ((word_at(data, k + 1) as u128) << 64u128) | (word_at(data, k) as u128);
    let b = bits as u128;
    assert((((pair >> o) & (((1u128 << b) - 1) as u128)) as u64) < 256) by (bit_vector)
        requires
            1 <= b <= 8,
    ;
}

/// A section stored with 1 to 8 bits per entry is read through its palette: every one of
/// its 4096 blocks is the palette entry at the index packed for it, or 0 when that index
/// is past the end of the palette.
pub proof fn law_indirect_sections_use_palette(s: Seq<u8>, pos: nat)
    requires
        pos + 3 <= s.len(),
        1 <= s[pos + 2int] <= 8,
        parse_section(s, pos) is Done,
    ensures
        spec_block_palette(s, pos + 3, s[pos + 2int]) matches Step::Done(Some(palette), p3)
            && paletted_data(s, p3, s[pos + 2int], 4096) matches Step::Done(data, _p4)
            && parse_section(s, pos) matches Step::Done(blocks, _q) && blocks.len() == 4096
            && forall|i: int|
            0 <= i < 4096 ==> #[trigger] blocks[i] == (if packed_entry(data, s[pos + 2int] as u64, i)
                < palette.len() {
                palette[packed_entry(data, s[pos + 2int] as u64, i) as int]
            } else {
                0u16
            }),
{
    let bits = s[pos + 2int];
    if let Step::Done(Some(palette), p3) = spec_block_palette(s, pos + 3, bits) {
        if let Step::Done(data, _p4) = paletted_data(s, p3, bits, 4096) {
            if let Step::Done(blocks, _q) = parse_section(s, pos) {
                assert forall|i: int| 0 <= i < 4096 implies #[trigger] blocks[i] == (if packed_entry(
                    data,
                    bits as u64,
                    i,
                ) < palette.len() {
                    palette[packed_entry(data, bits as u64, i) as int]
                } else {
                    0u16
                }) by {
                    lemma_small_entry(data, bits as u64, i);
                }
            }
        }
    }
}

/// A section stored with more than 8 bits per entry holds raw block ids: every one of
/// its 4096 blocks is the low 16 bits of the entry packed for it, with no palette read.
pub proof fn law_direct_sections_hold_raw_ids(s: Seq<u8>, pos: nat)
    requires
        pos + 3 <= s.len(),
        s[pos + 2int] > 8,
        parse_section(s, pos) is Done,
    ensures
        paletted_data(s, pos + 3, s[pos + 2int], 4096) matches Step::Done(data, _p4)
            && parse_section(s, pos) matches Step::Done(blocks, _q) && blocks.len() == 4096
            && forall|i: int|
            0 <= i < 4096 ==> #[trigger] blocks[i] == packed_entry(data, s[pos + 2int] as u64, i) as u16,
{
}

/// A section stored with 0 bits per entry is filled with one block: the single value
/// written after the bits byte, cut to 16 bits.
pub proof fn law_single_value_sections_are_uniform(s: Seq<u8>, pos: nat)
    requires
        pos + 3 <= s.len(),
        s[pos + 2int] == 0,
        parse_section(s, pos) is Done,
    ensures
        var_int_at(s, pos + 3) matches Some((v, _q)) && parse_section(s, pos) matches Step::Done(
            blocks,
            _e,
        ) && blocks.len() == 4096 && forall|i: int| 0 <= i < 4096 ==> #[trigger] blocks[i] == v as u16,
{
}

/// All sections from position `pos` on, while at least two bytes remain.
pub open spec fn parse_sections(s: Seq<u8>, pos: nat) -> ChunkParse
    decreases s.len() - pos,
{
    if pos + 2 > s.len() {
        ChunkParse::Finished(Seq::empty(), pos)
    } else {
        match parse_section(s, pos) {
            Step::Panics => ChunkParse::Panics,
            Step::Rejected(q) => ChunkParse::Rejected(q),
            Step::Done(blocks, q) => {
                proof {
                    lemma_section_bounds(s, pos);
                }
                match parse_sections(s, q) {
                    ChunkParse::Finished(secs, e) => ChunkParse::Finished(seq![blocks] + secs, e),
                    ChunkParse::Rejected(e) => ChunkParse::Rejected(e),
                    ChunkParse::Panics => ChunkParse::Panics,
                }
            },
        }
    }
}

/// Sections already decoded, put in front of the outcome of decoding the rest.
pub open spec fn after_sections(done: Seq<Seq<u16>>, rest: ChunkParse) -> ChunkParse {
    match rest {
        ChunkParse::Finished(secs, e) => ChunkParse::Finished(done + secs, e),
        ChunkParse::Rejected(e) => ChunkParse::Rejected(e),
        ChunkParse::Panics => ChunkParse::Panics,
    }
}

/// The raw ids of each section of a list.
pub open spec fn sections_raws(secs: Seq<ChunkSection>) -> Seq<Seq<u16>> {
    secs.map_values(|c: ChunkSection| section_raws(c))
}

proof fn lemma_skip_skip(s: Seq<u8>, a: int, b: int)
    requires
        0 <= a,
        0 <= b,
        a + b <= s.len(),
    ensures
        s.skip(a).skip(b) =~= s.skip(a + b),
{
}

/// The first eight bytes of `s`, read little-endian (`u64::from_le_bytes`).
fn u64_from_le(s: &[u8]) -> (r: u64)
    requires
        s@.len() >= 8,
    ensures
        r == le_u64(s@),
{
    ((s[7] as u64) << 56u64) | ((s[6] as u64) << 48u64) | ((s[5] as u64) << 40u64) | ((s[4] as u64)
        << 32u64) | ((s[3] as u64) << 24u64) | ((s[2] as u64) << 16u64) | ((s[1] as u64) << 8u64) | (
    s[0] as u64)
}

/// Once reading palette entries is rejected, reading more entries is rejected at the
/// same position.
proof fn lemma_palette_rejected_stays(s: Seq<u8>, pos: nat, n: nat, m: nat)
    requires
        n <= m,
        palette_entries(s, pos, n) is Rejected,
    ensures
        palette_entries(s, pos, m) == palette_entries(s, pos, n),
    decreases m - n,
{
    if n < m {
        lemma_palette_rejected_stays(s, pos, n, (m - 1) as nat);
    }
}

/// Reads `count` VarInts off the front of `buf`, keeping the low 16 bits of each.
fn read_palette_entries(
    buf: &mut BytesMut,
    count: usize,
    Ghost(s): Ghost<Seq<u8>>,
    Ghost(pos): Ghost<nat>,
) -> (r: Option<Vec<u16>>)
    requires
        pos <= s.len(),
        bytes_view(*old(buf)) == s.skip(pos as int),
    ensures
        match palette_entries(s, pos, count as nat) {
            Step::Done(p, q) => r matches Some(v) && v@ == p && bytes_view(*final(buf)) == s.skip(
                q as int,
            ),
            Step::Rejected(q) => r is None && bytes_view(*final(buf)) == s.skip(q as int),
            Step::Panics => false,
        },
{
    let mut pal: Vec<u16> = Vec::with_capacity(count);
    let mut i: usize = 0;
    let ghost mut q: nat = pos;
    proof {
        lemma_palette_entries_bounds(s, pos, count as nat);
    }
    while i < count
        invariant
            i <= count,
            pos <= q <= s.len(),
            palette_entries(s, pos, i as nat) == Step::Done(pal@, q),
            bytes_view(*buf) == s.skip(q as int),
        decreases count - i,
    {
        proof {
            lemma_var_int_at_bounds(s, q);
        }
        match read_var_int(buf) {
            Some(v) => {
                proof {
                    let q2 = var_int_at(s, q).unwrap().1;
                    lemma_skip_skip(s, q as int, q2 - q);
                    q = q2;
                }
                pal.push(v as u16);
            },
            None => {
                proof {
                    assert(palette_entries(s, pos, (i + 1) as nat) == Step::<Seq<u16>>::Rejected(q));
                    lemma_palette_rejected_stays(s, pos, (i + 1) as nat, count as nat);
                }
                return None;
            },
        }
        i += 1;
    }
    Some(pal)
}

/// Reads the packed words of a paletted container with `entry_count` entries of
/// `bits_per_entry` bits off the front of `buf`: none for 0 bits, else
/// `(entry_count * bits_per_entry + 63) / 64` little-endian words, or None when fewer
/// are there (the whole words that are there are consumed).
fn read_paletted_container_u64s(
    buf: &mut BytesMut,
    bits_per_entry: u8,
    entry_count: usize,
    Ghost(s): Ghost<Seq<u8>>,
    Ghost(pos): Ghost<nat>,
) -> (r: Option<Vec<u64>>)
    requires
        pos <= s.len(),
        bytes_view(*old(buf)) == s.skip(pos as int),
        entry_count * bits_per_entry + 63 <= usize::MAX,
    ensures
        match paletted_data(s, pos, bits_per_entry, entry_count as nat) {
            Step::Done(d, q) => r matches Some(v) && v@ == d && bytes_view(*final(buf)) == s.skip(
                q as int,
            ),
            Step::Rejected(q) => r is None && bytes_view(*final(buf)) == s.skip(q as int),
            Step::Panics => false,
        },
{
    if bits_per_entry == 0 {
        return Some(Vec::new());
    }
    let long_count = (entry_count * bits_per_entry as usize + 63) / 64;
    let mut data: Vec<u64> = Vec::with_capacity(long_count);
    let mut i: usize = 0;
    while i < long_count
        invariant
            i <= long_count,
            long_count == spec_long_count(bits_per_entry, entry_count as nat),
            pos + 8 * i <= s.len(),
            bytes_view(*buf) == s.skip(pos + 8 * i),
            data@ =~= Seq::new(i as nat, |j: int| le_u64(s.skip(pos + 8 * j))),
        decreases long_count - i,
    {
        if bytes_len(buf) < 8 {
            assert(((s.len() - pos) / 8) as nat == i) by (nonlinear_arith)
                requires
                    pos + 8 * i <= s.len(),
                    s.len() - (pos + 8 * i) < 8,
            ;
            return None;
        }
        let chunk = bytes_split_to(buf, 8);
        let le = u64_from_le(bytes_as_slice(&chunk));
        proof {
            let rest = s.skip(pos + 8 * i);
            assert(bytes_view(chunk) == rest.take(8));
            assert(le_u64(rest.take(8)) == le_u64(rest));
            lemma_skip_skip(s, pos + 8 * i, 8int);
        }
        data.push(le);
        i += 1;
    }
    assert(((s.len() - pos) / 8) as nat >= long_count) by (nonlinear_arith)
        requires
            pos + 8 * long_count <= s.len(),
    ;
    Some(data)
}

/// Reads the block palette of a section with `bits` bits per entry off the front of
/// `buf`: `Some(Some(palette))`, `Some(None)` for raw ids, None when rejected.
fn read_block_palette(
    buf: &mut BytesMut,
    bits: u8,
    Ghost(s): Ghost<Seq<u8>>,
    Ghost(pos): Ghost<nat>,
) -> (r: Option<Option<Vec<u16>>>)
    requires
        pos <= s.len(),
        bytes_view(*old(buf)) == s.skip(pos as int),
    ensures
        match spec_block_palette(s, pos, bits) {
            Step::Done(p, q) => r matches Some(v) && bytes_view(*final(buf)) == s.skip(q as int)
                && match v {
                Some(vp) => p == Some(vp@),
                None => p is None,
            },
            Step::Rejected(q) => r is None && bytes_view(*final(buf)) == s.skip(q as int),
            Step::Panics => false,
        },
{
    proof {
        lemma_var_int_at_bounds(s, pos);
    }
    if bits == 0 {
        match read_var_int(buf) {
            Some(v) => {
                proof {
                    let q = var_int_at(s, pos).unwrap().1;
                    lemma_skip_skip(s, pos as int, q - pos);
                }
                Some(Some(vec![v as u16]))
            },
            None => None,
        }
    } else if bits <= 8 {
        let len = match read_var_int(buf) {
            Some(l) => l,
            None => {
                return None;
            },
        };
        let ghost q: nat = var_int_at(s, pos).unwrap().1;
        proof {
            lemma_skip_skip(s, pos as int, q - pos);
        }
        if len < 0 || len > 4096 {
            return None;
        }
        match read_palette_entries(buf, len as usize, Ghost(s), Ghost(q)) {
            Some(p) => Some(Some(p)),
            None => None,
        }
    } else {
        Some(None)
    }
}

/// Reads past the biome palette of a section with `bits` bits per entry; false when
/// rejected.
fn skip_biome_palette(
    buf: &mut BytesMut,
    bits: u8,
    Ghost(s): Ghost<Seq<u8>>,
    Ghost(pos): Ghost<nat>,
) -> (r: bool)
    requires
        pos <= s.len(),
        bytes_view(*old(buf)) == s.skip(pos as int),
    ensures
        match biome_palette(s, pos, bits) {
            Step::Done(_u, q) => r && bytes_view(*final(buf)) == s.skip(q as int),
            Step::Rejected(q) => !r && bytes_view(*final(buf)) == s.skip(q as int),
            Step::Panics => false,
        },
{
    proof {
        lemma_var_int_at_bounds(s, pos);
    }
    if bits == 0 {
        match read_var_int(buf) {
            Some(_v) => {
                proof {
                    let q = var_int_at(s, pos).unwrap().1;
                    lemma_skip_skip(s, pos as int, q - pos);
                }
                true
            },
            None => false,
        }
    } else if bits <= 15 {
        let len = match read_var_int(buf) {
            Some(l) => l,
            None => {
                return false;
            },
        };
        let ghost q: nat = var_int_at(s, pos).unwrap().1;
        proof {
            lemma_skip_skip(s, pos as int, q - pos);
        }
        if len < 0 || len > 64 {
            return false;
        }
        match read_palette_entries(buf, len as usize, Ghost(s), Ghost(q)) {
            Some(_p) => true,
            None => false,
        }
    } else {
        true
    }
}

/// Decodes one section off the front of `buf`.
fn decode_section(buf: &mut BytesMut, Ghost(s): Ghost<Seq<u8>>, Ghost(pos): Ghost<nat>) -> (r:
    Option<ChunkSection>)
    requires
        pos + 2 <= s.len(),
        bytes_view(*old(buf)) == s.skip(pos as int),
        !(parse_section(s, pos) is Panics),
    ensures
        match parse_section(s, pos) {
            Step::Done(b, q) => r matches Some(c) && section_raws(c) == b && bytes_view(*final(buf))
                == s.skip(q as int),
            Step::Rejected(q) => r is None && bytes_view(*final(buf)) == s.skip(q as int),
            Step::Panics => false,
        },
{
    proof {
        lemma_section_bounds(s, pos);
    }
    let _block_count = bytes_get_u16(buf);
    proof {
        lemma_skip_skip(s, pos as int, 2);
    }
    let block_bits = bytes_get_u8(buf);
    let ghost p2: nat = pos + 3;
    proof {
        lemma_skip_skip(s, pos + 2int, 1);
        assert(block_bits == s[pos + 2int]);
        lemma_var_int_at_bounds(s, p2);
        if let Some((len, q)) = var_int_at(s, p2) {
            if len >= 0 {
                lemma_palette_entries_bounds(s, q, len as nat);
            }
        }
    }
    let (block_palette, is_global) = match read_block_palette(buf, block_bits, Ghost(s), Ghost(p2)) {
        Some(Some(p)) => (Some(p), false),
        Some(None) => (None, true),
        None => {
            return None;
        },
    };
    let ghost pal = match &block_palette {
        Some(p) => Some(p@),
        None => None,
    };
    let ghost p3: nat = spec_block_palette(s, p2, block_bits)->Done_1;
    let block_data = match read_paletted_container_u64s(
        buf,
        block_bits,
        BLOCKS_PER_SECTION,
        Ghost(s),
        Ghost(p3),
    ) {
        Some(d) => d,
        None => {
            return None;
        },
    };
    proof {
        lemma_paletted_data_bounds(s, p3, block_bits, BLOCKS_PER_SECTION as nat);
    }
    let ghost p4: nat = paletted_data(s, p3, block_bits, BLOCKS_PER_SECTION as nat)->Done_1;
    let blocks = unpack_blocks(
        block_data.as_slice(),
        block_bits,
        BLOCKS_PER_SECTION,
        match &block_palette {
            Some(p) => Some(p.as_slice()),
            None => None,
        },
        is_global,
    );
    let biome_bits = bytes_get_u8(buf);
    let ghost p5: nat = p4 + 1;
    proof {
        lemma_skip_skip(s, p4 as int, 1);
        lemma_var_int_at_bounds(s, p5);
        if let Some((len, q)) = var_int_at(s, p5) {
            if len >= 0 {
                lemma_palette_entries_bounds(s, q, len as nat);
            }
        }
    }
    if !skip_biome_palette(buf, biome_bits, Ghost(s), Ghost(p5)) {
        return None;
    }
    let ghost p6: nat = biome_palette(s, p5, biome_bits)->Done_1;
    let _biome_data = match read_paletted_container_u64s(buf, biome_bits, 64, Ghost(s), Ghost(p6)) {
        Some(d) => d,
        None => {
            return None;
        },
    };
    let mut sec = ChunkSection::new();
    sec.blocks = blocks;
    Some(sec)
}

/// How reading one section goes, without keeping it.
enum SectionScan {
    Next,
    Stop,
    Panic,
}

/// Reads past the section at `pos`, checking each point where decoding it would panic:
/// the bits byte of the block container missing, more than 64 bits per entry, the bits
/// byte of the biome container missing.
fn scan_section(buf: &mut BytesMut, Ghost(s): Ghost<Seq<u8>>, Ghost(pos): Ghost<nat>) -> (r: SectionScan)
    requires
        pos + 2 <= s.len(),
        bytes_view(*old(buf)) == s.skip(pos as int),
    ensures
        match parse_section(s, pos) {
            Step::Done(_b, q) => r is Next && bytes_view(*final(buf)) == s.skip(q as int),
            Step::Rejected(_q) => r is Stop,
            Step::Panics => r is Panic,
        },
{
    proof {
        lemma_section_bounds(s, pos);
    }
    if bytes_len(buf) < 3 {
        return SectionScan::Panic;
    }
    let _block_count = bytes_get_u16(buf);
    proof {
        lemma_skip_skip(s, pos as int, 2);
    }
    let block_bits = bytes_get_u8(buf);
    let ghost p2: nat = pos + 3;
    proof {
        lemma_skip_skip(s, pos + 2int, 1);
        assert(block_bits == s[pos + 2int]);
        lemma_var_int_at_bounds(s, p2);
        if let Some((len, q)) = var_int_at(s, p2) {
            if len >= 0 {
                lemma_palette_entries_bounds(s, q, len as nat);
            }
        }
    }
    match read_block_palette(buf, block_bits, Ghost(s), Ghost(p2)) {
        Some(_) => {},
        None => {
            return SectionScan::Stop;
        },
    }
    let ghost p3: nat = spec_block_palette(s, p2, block_bits)->Done_1;
    match read_paletted_container_u64s(buf, block_bits, BLOCKS_PER_SECTION, Ghost(s), Ghost(p3)) {
        Some(_) => {},
        None => {
            return SectionScan::Stop;
        },
    }
    proof {
        lemma_paletted_data_bounds(s, p3, block_bits, BLOCKS_PER_SECTION as nat);
    }
    let ghost p4: nat = paletted_data(s, p3, block_bits, BLOCKS_PER_SECTION as nat)->Done_1;
    if block_bits > 64 {
        assert(spec_long_count(block_bits, BLOCKS_PER_SECTION as nat) > 0) by (nonlinear_arith)
            requires
                block_bits > 64,
        ;
        return SectionScan::Panic;
    }
    if !bytes_has_remaining(buf) {
        return SectionScan::Panic;
    }
    let biome_bits = bytes_get_u8(buf);
    let ghost p5: nat = p4 + 1;
    proof {
        lemma_skip_skip(s, p4 as int, 1);
        lemma_var_int_at_bounds(s, p5);
        if let Some((len, q)) = var_int_at(s, p5) {
            if len >= 0 {
                lemma_palette_entries_bounds(s, q, len as nat);
            }
        }
    }
    if !skip_biome_palette(buf, biome_bits, Ghost(s), Ghost(p5)) {
        return SectionScan::Stop;
    }
    let ghost p6: nat = biome_palette(s, p5, biome_bits)->Done_1;
    match read_paletted_container_u64s(buf, biome_bits, 64, Ghost(s), Ghost(p6)) {
        Some(_) => SectionScan::Next,
        None => SectionScan::Stop,
    }
}

impl Chunk {
    /// Whether decoding the play-state chunk payload in `buf` would panic: some section
    /// lacks the bits byte of its block or biome container, or uses more than 64 bits per
    /// entry.
    pub fn play_payload_panics(buf: &BytesMut) -> (r: bool)
        ensures
            r == (parse_sections(bytes_view(*buf), 0) is Panics),
    {
        let ghost s = bytes_view(*buf);
        let mut tmp = bytes_clone(buf);
        let ghost mut pos: nat = 0;
        assert(s.skip(0) =~= s);
        loop
            invariant
                s == bytes_view(*buf),
                pos <= s.len(),
                bytes_view(tmp) == s.skip(pos as int),
                (parse_sections(s, 0) is Panics) == (parse_sections(s, pos) is Panics),
            decreases s.len() - pos,
        {
            if bytes_len(&tmp) < 2 {
                assert(parse_sections(s, pos) is Finished);
                return false;
            }
            proof {
                lemma_section_bounds(s, pos);
            }
            match scan_section(&mut tmp, Ghost(s), Ghost(pos)) {
                SectionScan::Panic => {
                    assert(parse_sections(s, pos) is Panics);
                    return true;
                },
                SectionScan::Stop => {
                    assert(parse_sections(s, pos) is Rejected);
                    return false;
                },
                SectionScan::Next => {
                    proof {
                        pos = parse_section(s, pos)->Done_1;
                    }
                },
            }
        }
    }

    /// Decodes the sections of a play-state chunk payload off the front of `buf`: sections
    /// are read while at least two bytes remain. None when a section is malformed or when no
    /// section was read.
    pub fn decode_from_play_payload(buf: &mut BytesMut) -> (r: Option<Chunk>)
        requires
            !(parse_sections(bytes_view(*old(buf)), 0) is Panics),
        ensures
            match parse_sections(bytes_view(*old(buf)), 0) {
                ChunkParse::Finished(secs, e) => {
                    &&& bytes_view(*final(buf)) == bytes_view(*old(buf)).skip(e as int)
                    &&& secs.len() == 0 ==> r is None
                    &&& secs.len() > 0 ==> (r matches Some(c) && sections_raws(c.sections@) == secs)
                },
                ChunkParse::Rejected(e) => r is None && bytes_view(*final(buf)) == bytes_view(
                    *old(buf),
                ).skip(e as int),
                ChunkParse::Panics => false,
            },
    {
        let ghost s = bytes_view(*buf);
        let ghost mut pos: nat = 0;
        let mut sections: Vec<ChunkSection> = Vec::new();
        assert(s.skip(0) =~= s);
        loop
            invariant
                s == bytes_view(*old(buf)),
                pos <= s.len(),
                bytes_view(*buf) == s.skip(pos as int),
                parse_sections(s, 0) == after_sections(sections_raws(sections@), parse_sections(s, pos)),
                !(parse_sections(s, pos) is Panics),
            ensures
                pos <= s.len(),
                bytes_view(*buf) == s.skip(pos as int),
                parse_sections(s, 0) == after_sections(sections_raws(sections@), parse_sections(s, pos)),
                pos + 2 > s.len(),
            decreases s.len() - pos,
        {
            if !bytes_has_remaining(buf) {
                break;
            }
            if bytes_len(buf) < 2 {
                break;
            }
            proof {
                lemma_section_bounds(s, pos);
            }
            match decode_section(buf, Ghost(s), Ghost(pos)) {
                Some(sec) => {
                    let ghost q = parse_section(s, pos)->Done_1;
                    let ghost b = parse_section(s, pos)->Done_0;
                    proof {
                        let done = sections_raws(sections@);
                        assert(sections_raws(sections@.push(sec)) =~= done.push(b));
                        match parse_sections(s, q) {
                            ChunkParse::Finished(secs, e) => {
                                assert(done + (seq![b] + secs) =~= done.push(b) + secs);
                            },
                            _ => {},
                        }
                        pos = q;
                    }
                    sections.push(sec);
                },
                None => {
                    return None;
                },
            }
        }
        if sections.len() == 0 {
            None
        } else {
            Some(Chunk { sections })
        }
    }
}

} // verus!
