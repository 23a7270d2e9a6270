use ferrite::block::BlockState;
use ferrite::chunk::{Chunk, ChunkSection};
use ferrite::chunk_mesh::{chunk_to_quads, MeshQuad};

fn quad(axis: usize, w: usize, u: usize, v: usize, width: usize, height: usize, id: u16, pos_face: bool) -> MeshQuad {
    MeshQuad { axis, w, u, v, width, height, id, pos_face }
}

fn section_with(cells: &[(usize, usize, usize, u16)]) -> ChunkSection {
    let mut s = ChunkSection::new();
    for &(x, y, z, id) in cells {
        s.blocks[y * 256 + z * 16 + x] = BlockState(id);
    }
    s
}

#[test]
fn empty_chunk_has_no_faces() {
    let c = Chunk { sections: vec![ChunkSection::new(), ChunkSection::new()] };
    assert!(chunk_to_quads(&c).is_empty());
    let none = Chunk { sections: vec![] };
    assert!(chunk_to_quads(&none).is_empty());
}

#[test]
fn single_block_has_six_faces() {
    let c = Chunk { sections: vec![section_with(&[(3, 5, 7, 1)])] };
    let q = chunk_to_quads(&c);
    assert_eq!(
        q,
        vec![
            quad(0, 3, 7, 5, 1, 1, 1, false),
            quad(0, 4, 7, 5, 1, 1, 1, true),
            quad(1, 5, 3, 7, 1, 1, 1, false),
            quad(1, 6, 3, 7, 1, 1, 1, true),
            quad(2, 7, 3, 5, 1, 1, 1, false),
            quad(2, 8, 3, 5, 1, 1, 1, true),
        ]
    );
}

#[test]
fn full_section_merges_into_six_squares() {
    let mut s = ChunkSection::new();
    for b in s.blocks.iter_mut() {
        *b = BlockState(1);
    }
    let c = Chunk { sections: vec![s] };
    let q = chunk_to_quads(&c);
    assert_eq!(
        q,
        vec![
            quad(0, 0, 0, 0, 16, 16, 1, false),
            quad(0, 16, 0, 0, 16, 16, 1, true),
            quad(1, 0, 0, 0, 16, 16, 1, false),
            quad(1, 16, 0, 0, 16, 16, 1, true),
            quad(2, 0, 0, 0, 16, 16, 1, false),
            quad(2, 16, 0, 0, 16, 16, 1, true),
        ]
    );
}

#[test]
fn different_blocks_are_not_merged_and_share_no_face() {
    // Two blocks side by side along x: stone at x = 0, dirt at x = 1.
    let c = Chunk { sections: vec![section_with(&[(0, 0, 0, 1), (1, 0, 0, 10)])] };
    let q = chunk_to_quads(&c);
    // Along x: the left face of the stone and the right face of the dirt only.
    let along_x: Vec<&MeshQuad> = q.iter().filter(|m| m.axis == 0).collect();
    assert_eq!(along_x, vec![&quad(0, 0, 0, 0, 1, 1, 1, false), &quad(0, 2, 0, 0, 1, 1, 10, true)]);
    // Along y: bottom and top faces, one per block, never merged across ids.
    let along_y: Vec<&MeshQuad> = q.iter().filter(|m| m.axis == 1).collect();
    assert_eq!(
        along_y,
        vec![
            &quad(1, 0, 0, 0, 1, 1, 1, false),
            &quad(1, 0, 1, 0, 1, 1, 10, false),
            &quad(1, 1, 0, 0, 1, 1, 1, true),
            &quad(1, 1, 1, 0, 1, 1, 10, true),
        ]
    );
    assert_eq!(q.len(), 10);
}

#[test]
fn row_of_equal_blocks_merges() {
    // Three stone blocks along z at x = 2, y = 0: their -x faces merge into one 3-wide quad.
    let c = Chunk { sections: vec![section_with(&[(2, 0, 4, 1), (2, 0, 5, 1), (2, 0, 6, 1)])] };
    let q = chunk_to_quads(&c);
    assert!(q.contains(&quad(0, 2, 4, 0, 3, 1, 1, false)));
    assert!(q.contains(&quad(0, 3, 4, 0, 3, 1, 1, true)));
    // Top faces along y: u = x, v = z, so the merge is along v.
    assert!(q.contains(&quad(1, 1, 2, 4, 1, 3, 1, true)));
    assert_eq!(q.len(), 6);
}

#[test]
fn faces_tile_the_two_section_column() {
    // A stone pillar crossing the section boundary: y = 14 .. 18 at x = z = 0.
    let low = section_with(&[(0, 14, 0, 1), (0, 15, 0, 1)]);
    let high = section_with(&[(0, 0, 0, 1), (0, 1, 0, 1)]);
    let c = Chunk { sections: vec![low, high] };
    let q = chunk_to_quads(&c);
    assert!(q.contains(&quad(0, 0, 0, 14, 1, 4, 1, false)));
    assert!(q.contains(&quad(1, 14, 0, 0, 1, 1, 1, false)));
    assert!(q.contains(&quad(1, 18, 0, 0, 1, 1, 1, true)));
    assert_eq!(q.len(), 6);
}

/// The faces of slice `w` of an axis, computed directly from the blocks.
fn face(c: &Chunk, axis: usize, w: usize, u: usize, v: usize) -> Option<(u16, bool)> {
    let size_y = 16 * c.sections.len() as i64;
    let raw = |x: i64, y: i64, z: i64| -> u16 {
        if x < 0 || x >= 16 || y < 0 || y >= size_y || z < 0 || z >= 16 {
            0
        } else {
            c.sections[(y / 16) as usize].blocks[((y % 16) * 256 + z * 16 + x) as usize].0
        }
    };
    let (w, u, v) = (w as i64, u as i64, v as i64);
    let (prev, cur) = match axis {
        0 => (raw(w - 1, v, u), raw(w, v, u)),
        1 => (raw(u, w - 1, v), raw(u, w, v)),
        _ => (raw(u, v, w - 1), raw(u, v, w)),
    };
    if prev != 0 && cur == 0 {
        Some((prev, true))
    } else if prev == 0 && cur != 0 {
        Some((cur, false))
    } else {
        None
    }
}

#[test]
fn quads_tile_every_face_exactly_once() {
    // A pseudo-random two-section column of three block kinds and air.
    let mut seed: u32 = 12345;
    let mut sections = Vec::new();
    for _ in 0..2 {
        let mut s = ChunkSection::new();
        for b in s.blocks.iter_mut() {
            seed = seed.wrapping_mul(1103515245).wrapping_add(12345);
            let k = (seed >> 16) % 7;
            *b = BlockState(if k < 3 { 0 } else if k < 5 { 1 } else if k < 6 { 10 } else { 14 });
        }
        sections.push(s);
    }
    let c = Chunk { sections };
    let quads = chunk_to_quads(&c);
    for axis in 0..3usize {
        let (us, vs, ws) = match axis {
            0 => (16, 32, 16),
            1 => (16, 16, 32),
            _ => (16, 32, 16),
        };
        for w in 0..=ws {
            let mut covered = vec![0u32; us * vs];
            for q in quads.iter().filter(|q| q.axis == axis && q.w == w) {
                for v in q.v..q.v + q.height {
                    for u in q.u..q.u + q.width {
                        assert_eq!(face(&c, axis, w, u, v), Some((q.id, q.pos_face)));
                        covered[v * us + u] += 1;
                    }
                }
            }
            for v in 0..vs {
                for u in 0..us {
                    let expect = if face(&c, axis, w, u, v).is_some() { 1 } else { 0 };
                    assert_eq!(covered[v * us + u], expect, "axis {axis} w {w} u {u} v {v}");
                }
            }
        }
    }
}
