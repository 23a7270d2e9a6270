use bytes::{BufMut, BytesMut};
use ferrite::chunk::{unpack_blocks, Chunk, CHUNK_WIDTH, SECTION_HEIGHT};
use ferrite::codec::write_var_int;

fn encode_section(
    buf: &mut BytesMut,
    block_count: u16,
    block_bits: u8,
    block_palette: &[u16],
    block_data: &[u64],
    biome_bits: u8,
    biome_palette: &[u16],
    biome_data: &[u64],
) {
    buf.put_u16(block_count);

    buf.put_u8(block_bits);
    match block_bits {
        0 => {
            write_var_int(buf, block_palette[0] as i32);
        }
        1..=15 => {
            write_var_int(buf, block_palette.len() as i32);
            for &p in block_palette {
                write_var_int(buf, p as i32);
            }
        }
        _ => {}
    }
    for &v in block_data {
        buf.put_u64_le(v);
    }

    buf.put_u8(biome_bits);
    match biome_bits {
        0 => {
            write_var_int(buf, biome_palette[0] as i32);
        }
        1..=15 => {
            write_var_int(buf, biome_palette.len() as i32);
            for &p in biome_palette {
                write_var_int(buf, p as i32);
            }
        }
        _ => {}
    }
    for &v in biome_data {
        buf.put_u64_le(v);
    }
}

#[test]
fn decode_single_section_uniform() {
    let mut payload = BytesMut::new();

    // One section: uniform blocks of value 7, uniform biome of value 1
    let block_palette = vec![7u16];
    let biome_palette = vec![1u16];
    encode_section(
        &mut payload,
        4096, // block_count
        0,    // block bits (uniform)
        &block_palette,
        &[], // no block data for uniform
        0,   // biome bits (uniform)
        &biome_palette,
        &[], // no biome data for uniform
    );

    let chunk = Chunk::decode_from_play_payload(&mut payload).expect("decode");
    assert_eq!(chunk.sections.len(), 1);
    for &b in chunk.sections[0].blocks.iter() {
        assert_eq!(b.raw(), 7u16);
    }
}

#[test]
fn decode_two_sections_uniform() {
    let mut payload = BytesMut::new();

    encode_section(&mut payload, 4096, 0, &[7u16], &[], 0, &[1u16], &[]);
    encode_section(&mut payload, 4096, 0, &[42u16], &[], 0, &[1u16], &[]);

    let chunk = Chunk::decode_from_play_payload(&mut payload).expect("decode");
    assert_eq!(chunk.sections.len(), 2);
    assert_eq!(chunk.sections[0].blocks[0].raw(), 7u16);
    assert_eq!(chunk.sections[1].blocks[0].raw(), 42u16);
}

#[test]
fn decode_palette_bitpacked() {
    let blocks_per_section = SECTION_HEIGHT * CHUNK_WIDTH * CHUNK_WIDTH;
    let bits_per_block = 4usize;
    let palette = vec![7u16, 42u16];

    // pack block indices: alternate 0, 1
    let mut indices = Vec::with_capacity(blocks_per_section);
    for i in 0..blocks_per_section {
        indices.push((i % 2) as u64);
    }
    let total_bits = blocks_per_section * bits_per_block;
    let long_count = (total_bits + 63) / 64;
    let mut data = vec![0u64; long_count];
    for (i, &idx) in indices.iter().enumerate() {
        let bit_pos = i * bits_per_block;
        let long_idx = bit_pos / 64;
        let offset = bit_pos % 64;
        data[long_idx] |= (idx as u64) << offset;
        if offset + bits_per_block > 64 {
            let overflow = offset + bits_per_block - 64;
            if long_idx + 1 < data.len() {
                data[long_idx + 1] |= (idx as u64) >> (bits_per_block - overflow);
            }
        }
    }

    let mut payload = BytesMut::new();
    encode_section(
        &mut payload,
        2048, // ~half non-air
        bits_per_block as u8,
        &palette,
        &data,
        0, // uniform biome
        &[1u16],
        &[],
    );

    let chunk = Chunk::decode_from_play_payload(&mut payload).expect("decode");
    assert_eq!(chunk.sections.len(), 1);
    for (i, &b) in chunk.sections[0].blocks.iter().enumerate() {
        let expected_raw = palette[(i % 2) as usize];
        assert_eq!(b.raw(), expected_raw);
    }
}

#[test]
fn decode_empty_payload_is_none() {
    let mut payload = BytesMut::new();
    assert!(Chunk::decode_from_play_payload(&mut payload).is_none());
    let mut one = BytesMut::from(&[5u8][..]);
    assert!(Chunk::decode_from_play_payload(&mut one).is_none());
    assert_eq!(one.len(), 1);
}

#[test]
fn decode_rejects_oversized_palette() {
    let mut payload = BytesMut::new();
    payload.put_u16(0);
    payload.put_u8(4);
    write_var_int(&mut payload, 5000);
    assert!(Chunk::decode_from_play_payload(&mut payload).is_none());
}

#[test]
fn decode_rejects_truncated_block_data() {
    let mut payload = BytesMut::new();
    payload.put_u16(0);
    payload.put_u8(4);
    write_var_int(&mut payload, 1);
    write_var_int(&mut payload, 3);
    // 256 words are needed, give 2 and 3 stray bytes
    payload.put_u64_le(1);
    payload.put_u64_le(2);
    payload.put_u8(1);
    payload.put_u8(2);
    payload.put_u8(3);
    assert!(Chunk::decode_from_play_payload(&mut payload).is_none());
    // the two whole words were consumed, the stray bytes remain
    assert_eq!(payload.len(), 3);
}

#[test]
fn decode_global_palette_entries() {
    // 20 bits per entry: raw ids (their low 16 bits) straight from the packed data
    let mut data = vec![0u64; 4096 * 20 / 64];
    // entry 0 = 1234; entry 3 straddles words 0 and 1 (bits 60..79) = 0xabcde
    data[0] |= 1234;
    let v: u64 = 0xabcde;
    data[0] |= v << 60;
    data[1] |= v >> 4;
    let mut payload = BytesMut::new();
    encode_section(&mut payload, 1, 20, &[], &data, 16, &[], &vec![0u64; 16]);
    let chunk = Chunk::decode_from_play_payload(&mut payload).expect("decode");
    assert_eq!(chunk.sections[0].blocks[0].raw(), 1234);
    assert_eq!(chunk.sections[0].blocks[3].raw(), 0xbcde);
    assert_eq!(chunk.sections[0].blocks[4].raw(), 0);
    assert!(payload.is_empty());
}

#[test]
fn unpack_blocks_direct() {
    // 4-bit entries through a palette; index 3 is outside the palette
    let data = [0x3210u64];
    let out = unpack_blocks(&data, 4, 5, Some(&[10, 11, 12]), false);
    let raws: Vec<u16> = out.iter().map(|b| b.raw()).collect();
    assert_eq!(raws, vec![10, 11, 12, 0, 10]);
    // no palette and not global: everything air
    let out = unpack_blocks(&data, 4, 2, None, false);
    assert!(out.iter().all(|b| b.is_air()));
    // zero bits: the first palette entry everywhere
    let out = unpack_blocks(&[], 0, 3, Some(&[9]), false);
    assert!(out.iter().all(|b| b.raw() == 9));
    // entries past the data are zero
    let out = unpack_blocks(&[u64::MAX], 32, 3, None, true);
    let raws: Vec<u16> = out.iter().map(|b| b.raw()).collect();
    assert_eq!(raws, vec![0xffff, 0xffff, 0]);
}

#[test]
fn payload_panics_are_detected() {
    assert!(!Chunk::play_payload_panics(&BytesMut::new()));
    assert!(!Chunk::play_payload_panics(&BytesMut::from(&[0u8][..])));
    // a section with no bits byte
    assert!(Chunk::play_payload_panics(&BytesMut::from(&[0u8, 0][..])));
    // a whole section, then one cut after its block data
    let mut payload = BytesMut::new();
    encode_section(&mut payload, 4096, 0, &[7u16], &[], 0, &[1u16], &[]);
    assert!(!Chunk::play_payload_panics(&payload));
    let mut cut = BytesMut::new();
    cut.put_u16(4096);
    cut.put_u8(0);
    write_var_int(&mut cut, 7);
    let mut two = payload.clone();
    two.extend_from_slice(&cut);
    assert!(Chunk::play_payload_panics(&two));
    // more than 64 bits per entry, with all its words present
    let mut wide = BytesMut::new();
    wide.put_u16(4096);
    wide.put_u8(65);
    wide.extend_from_slice(&vec![0u8; 4160 * 8]);
    assert!(Chunk::play_payload_panics(&wide));
    // the same with its words cut short is rejected, not a panic
    let mut short = BytesMut::new();
    short.put_u16(4096);
    short.put_u8(65);
    short.extend_from_slice(&[0u8; 16]);
    assert!(!Chunk::play_payload_panics(&short));
    // a rejected palette length is no panic
    let mut bad = BytesMut::new();
    bad.put_u16(4096);
    bad.put_u8(4);
    write_var_int(&mut bad, 5000);
    assert!(!Chunk::play_payload_panics(&bad));
}
