//! Packing 16×16 RGBA block textures into one atlas image, row by row.

use vstd::prelude::*;

verus! {

/// The width and height of a block texture, in pixels.
pub const TEX_SIZE: usize = 16;

/// The bytes of one RGBA block texture.
pub const TEX_BYTES: usize = 1024;

/// The number of rows of an atlas of `count` textures, `per_row` to a row.
pub open spec fn atlas_rows(count: int, per_row: int) -> int {
    (count + per_row - 1) / per_row
}

/// Channel `c` of pixel (px, py) of the atlas: the matching pixel of the texture whose
/// tile holds it, texture `i` taking tile (i % per_row, i / per_row); 0 where no
/// texture is.
pub open spec fn atlas_pixel(loaded: Seq<Seq<u8>>, per_row: int, py: int, px: int, c: int) -> u8 {
    let i = (py / 16) * per_row + px / 16;
    if i < loaded.len() {
        loaded[i][(py % 16) * 64 + (px % 16) * 4 + c]
    } else {
        0
    }
}

/// The index of channel `c` of pixel (px, py) in an atlas `width` pixels wide.
pub open spec fn byte_index(width: int, py: int, px: int, c: int) -> int {
    (py * width + px) * 4 + c
}

/// Whether every texture holds at least a full 16×16 RGBA image.
pub open spec fn textures_complete(loaded: Seq<Vec<u8>>) -> bool {
    forall|i: int| 0 <= i < loaded.len() ==> #[trigger] loaded[i]@.len() >= 1024
}

/// A packed atlas: its RGBA bytes, row by row, and its size in pixels.
pub struct PackedAtlas {
    pub data: Vec<u8>,
    pub width: usize,
    pub height: usize,
}

proof fn lemma_byte_index_bounds(width: int, height: int, py: int, px: int, c: int)
    requires
        0 <= py < height,
        0 <= px < width,
        0 <= c < 4,
    ensures
        0 <= byte_index(width, py, px, c) < width * height * 4,
{
    assert(0 <= byte_index(width, py, px, c) < width * height * 4) by (nonlinear_arith)
        requires
            0 <= py < height,
            0 <= px < width,
            0 <= c < 4,
    ;
}

proof fn lemma_byte_index_inj(width: int, py1: int, px1: int, c1: int, py2: int, px2: int, c2: int)
    requires
        0 <= py1,
        0 <= py2,
        0 <= px1 < width,
        0 <= px2 < width,
        0 <= c1 < 4,
        0 <= c2 < 4,
        byte_index(width, py1, px1, c1) == byte_index(width, py2, px2, c2),
    ensures
        py1 == py2,
        px1 == px2,
        c1 == c2,
{
    assert(c1 == c2 && py1 * width + px1 == py2 * width + px2) by (nonlinear_arith)
        requires
            0 <= c1 < 4,
            0 <= c2 < 4,
            (py1 * width + px1) * 4 + c1 == (py2 * width + px2) * 4 + c2,
    ;
    assert(py1 == py2 && px1 == px2) by (nonlinear_arith)
        requires
            0 <= py1,
            0 <= py2,
            0 <= px1 < width,
            0 <= px2 < width,
            py1 * width + px1 == py2 * width + px2,
    ;
}

/// The pixel written for byte `k` of row `ty` of texture `i` lies in tile `i`, at the
/// texture's own pixel.
proof fn lemma_tile_pixel(per_row: int, i: int, ty: int, k: int)
    requires
        per_row > 0,
        0 <= i,
        0 <= ty < 16,
        0 <= k < 64,
    ensures
        ({
            let py = (i / per_row) * 16 + ty;
            let px = (i % per_row) * 16 + k / 4;
            &&& (py / 16) * per_row + px / 16 == i
            &&& py % 16 == ty
            &&& (px % 16) * 4 + k % 4 == k
            &&& (py % 16) * 64 + (px % 16) * 4 + k % 4 == ty * 64 + k
            &&& 0 <= px < 16 * per_row
            &&& (py * (16 * per_row) + (i % per_row) * 16) * 4 + k == byte_index(16 * per_row, py, px, k % 4)
        }),
{
    let row = i / per_row;
    let col = i % per_row;
    let py = row * 16 + ty;
    let px = col * 16 + k / 4;
    assert(0 <= col < per_row && i == row * per_row + col) by (nonlinear_arith)
        requires
            per_row > 0,
            0 <= i,
            row == i / per_row,
            col == i % per_row,
    ;
    assert(py / 16 == row && py % 16 == ty) by (nonlinear_arith)
        requires
            py == row * 16 + ty,
            0 <= ty < 16,
    ;
    assert(px / 16 == col && px % 16 == k / 4) by (nonlinear_arith)
        requires
            px == col * 16 + k / 4,
            0 <= k < 64,
    ;
    assert(0 <= px < 16 * per_row) by (nonlinear_arith)
        requires
            px == col * 16 + k / 4,
            0 <= col < per_row,
            0 <= k < 64,
    ;
    assert((k / 4) * 4 + k % 4 == k) by (nonlinear_arith)
        requires
            0 <= k,
    ;
    assert((py * (16 * per_row) + col * 16) * 4 + k == (py * (16 * per_row) + px) * 4 + k % 4) by (nonlinear_arith)
        requires
            px == col * 16 + k / 4,
            (k / 4) * 4 + k % 4 == k,
    ;
}

/// Every texture lands in its own tile: channel `c` of pixel (tx, ty) of texture `i` is
/// channel `c` of atlas pixel ((i % per_row) * 16 + tx, (i / per_row) * 16 + ty).
pub proof fn law_texture_lands_in_its_tile(loaded: Seq<Seq<u8>>, per_row: int, i: int, ty: int, tx: int, c: int)
    requires
        per_row > 0,
        0 <= i < loaded.len(),
        0 <= ty < 16,
        0 <= tx < 16,
        0 <= c < 4,
    ensures
        atlas_pixel(loaded, per_row, (i / per_row) * 16 + ty, (i % per_row) * 16 + tx, c)
            == loaded[i][(ty * 16 + tx) * 4 + c],
{
    let k = tx * 4 + c;
    assert(k / 4 == tx && k % 4 == c && 0 <= k < 64) by (nonlinear_arith)
        requires
            k == tx * 4 + c,
            0 <= tx < 16,
            0 <= c < 4,
    ;
    lemma_tile_pixel(per_row, i, ty, k);
    assert(ty * 64 + k == (ty * 16 + tx) * 4 + c) by (nonlinear_arith)
        requires
            k == tx * 4 + c,
    ;
}

/// `len` bytes, each `value`.
fn filled_bytes(value: u8, len: usize) -> (r: Vec<u8>)
    ensures
        r@.len() == len,
        forall|j: int| 0 <= j < len ==> #[trigger] r@[j] == value,
{
    let mut v: Vec<u8> = Vec::with_capacity(len);
    let mut b: usize = 0;
    while b < len
        invariant
            b <= len,
            v@.len() == b,
            forall|j: int| 0 <= j < b ==> #[trigger] v@[j] == value,
        decreases len - b,
    {
        v.push(value);
        b += 1;
    }
    v
}

/// The image of a texture in the atlas: transparent black for the empty placeholder
/// name, the loaded image when there is one, and opaque white when loading failed.
pub fn texture_tile(texture_path: &str, loaded: Option<Vec<u8>>) -> (r: Vec<u8>)
    ensures
        texture_path@.len() == 0 ==> r@ == Seq::new(1024, |j: int| 0u8),
        texture_path@.len() > 0 ==> match loaded {
            Some(d) => r@ == d@,
            None => r@ == Seq::new(1024, |j: int| 255u8),
        },
{
    if texture_path.is_empty() {
        let r = filled_bytes(0u8, TEX_BYTES);
        assert(r@ =~= Seq::new(1024, |j: int| 0u8));
        return r;
    }
    match loaded {
        Some(data) => data,
        None => {
            let r = filled_bytes(255u8, TEX_BYTES);
            assert(r@ =~= Seq::new(1024, |j: int| 255u8));
            r
        },
    }
}

/// A pixel channel of tile `i`, row `ty`, at byte `k` of that row, is the one that
/// byte `k` of row `ty` of texture `i` is copied to.
proof fn lemma_same_cell(per_row: int, py: int, px: int, c: int, i: int, ty: int, k: int)
    requires
        per_row > 0,
        0 <= i,
        0 <= py,
        0 <= px < 16 * per_row,
        0 <= c < 4,
        (py / 16) * per_row + px / 16 == i,
        py % 16 == ty,
        (px % 16) * 4 + c == k,
    ensures
        py == (i / per_row) * 16 + ty,
        px == (i % per_row) * 16 + k / 4,
        c == k % 4,
{
    assert(px / 16 < per_row) by (nonlinear_arith)
        requires
            0 <= px < 16 * per_row,
    ;
    assert(i / per_row == py / 16 && i % per_row == px / 16) by (nonlinear_arith)
        requires
            per_row > 0,
            0 <= py,
            0 <= px / 16 < per_row,
            (py / 16) * per_row + px / 16 == i,
    ;
    assert(k / 4 == px % 16 && k % 4 == c) by (nonlinear_arith)
        requires
            0 <= c < 4,
            0 <= px,
            (px % 16) * 4 + c == k,
    ;
    assert(py == (py / 16) * 16 + py % 16 && px == (px / 16) * 16 + px % 16) by (nonlinear_arith)
        requires
            0 <= py,
            0 <= px,
    ;
}

/// Packs textures into an atlas `16 * per_row` pixels wide: texture `i` goes to the
/// tile in column `i % per_row` and row `i / per_row`, each tile 16×16 pixels; pixels
/// that no texture covers stay 0. Every texture must hold a full 16×16 RGBA image.
pub fn pack_atlas_pixels(loaded: &Vec<Vec<u8>>, per_row: usize) -> (r: PackedAtlas)
    requires
        per_row > 0,
        textures_complete(loaded@),
        loaded@.len() + per_row <= usize::MAX,
        64 * per_row <= usize::MAX,
        (16 * per_row) * (16 * atlas_rows(loaded@.len() as int, per_row as int)) * 4 <= usize::MAX,
    ensures
        r.width == 16 * per_row,
        r.height == 16 * atlas_rows(loaded@.len() as int, per_row as int),
        r.data@.len() == r.width * r.height * 4,
        forall|py: int, px: int, c: int|
            0 <= py < r.height && 0 <= px < r.width && 0 <= c < 4 ==> #[trigger] r.data@[byte_index(
                r.width as int,
                py,
                px,
                c,
            )] == atlas_pixel(loaded@.map_values(|t: Vec<u8>| t@), per_row as int, py, px, c),
{
    let tex_count = loaded.len();
    let tex_size: usize = TEX_SIZE;
    let atlas_width = tex_size * per_row;
    let row_count = (tex_count + per_row - 1) / per_row;
    proof {
        assert(16 * row_count <= usize::MAX) by (nonlinear_arith)
            requires
                per_row > 0,
                (16 * per_row) * (16 * row_count) * 4 <= usize::MAX,
        ;
    }
    let atlas_height = tex_size * row_count;
    let atlas_data_len = atlas_width * atlas_height * 4;
    let ghost textures = loaded@.map_values(|t: Vec<u8>| t@);
    let ghost w = atlas_width as int;
    let ghost h = atlas_height as int;
    let ghost pr = per_row as int;

    let mut atlas_data = filled_bytes(0u8, atlas_data_len);

    // Pixel (px, py) shows texture `i` once that texture is copied: rows before `ty` of
    // the current texture and, on row `ty`, bytes before `k`.
    proof {
        assert forall|py: int, px: int, c: int|
            0 <= py < h && 0 <= px < w && 0 <= c < 4 implies #[trigger] atlas_data@[byte_index(w, py, px, c)] == 0u8 by {
            lemma_byte_index_bounds(w, h, py, px, c);
        }
    }
    let mut i: usize = 0;
    while i < tex_count
        invariant
            i <= tex_count,
            tex_size == 16,
            64 * per_row <= usize::MAX,
            tex_count == loaded@.len(),
            textures == loaded@.map_values(|t: Vec<u8>| t@),
            textures_complete(loaded@),
            per_row > 0,
            pr == per_row,
            w == atlas_width,
            h == atlas_height,
            atlas_width == 16 * per_row,
            atlas_height == 16 * row_count,
            row_count == atlas_rows(tex_count as int, per_row as int),
            atlas_data_len == atlas_width * atlas_height * 4,
            atlas_data@.len() == atlas_data_len,
            forall|py: int, px: int, c: int|
                0 <= py < h && 0 <= px < w && 0 <= c < 4 ==> #[trigger] atlas_data@[byte_index(w, py, px, c)]
                    == if (py / 16) * pr + px / 16 < i {
                    atlas_pixel(textures, pr, py, px, c)
                } else {
                    0u8
                },
        decreases tex_count - i,
    {
        let pixels = &loaded[i];
        let row = i / per_row;
        let col = i % per_row;
        proof {
            assert(row < row_count && col < per_row) by (nonlinear_arith)
                requires
                    per_row > 0,
                    i < tex_count,
                    row == i / per_row,
                    col == i % per_row,
                    row_count as int == (tex_count + per_row - 1) as int / per_row as int,
            ;
            assert(pixels@.len() >= 1024);
        }
        let x = col * tex_size;
        let y = row * tex_size;
        let mut ty: usize = 0;
        while ty < tex_size
            invariant
                ty <= 16,
                tex_size == 16,
                64 * per_row <= usize::MAX,
                i < tex_count,
                tex_count == loaded@.len(),
                textures == loaded@.map_values(|t: Vec<u8>| t@),
                pixels@ == textures[i as int],
                pixels@.len() >= 1024,
                per_row > 0,
                pr == per_row,
                w == atlas_width,
                h == atlas_height,
                atlas_width == 16 * per_row,
                atlas_height == 16 * row_count,
                row == i / per_row,
                col == i % per_row,
                row < row_count,
                col < per_row,
                x == col * 16,
                y == row * 16,
                atlas_data_len == atlas_width * atlas_height * 4,
                atlas_data@.len() == atlas_data_len,
                forall|py: int, px: int, c: int|
                    0 <= py < h && 0 <= px < w && 0 <= c < 4 ==> #[trigger] atlas_data@[byte_index(w, py, px, c)]
                        == if (py / 16) * pr + px / 16 < i || ((py / 16) * pr + px / 16 == i && py % 16 < ty) {
                        atlas_pixel(textures, pr, py, px, c)
                    } else {
                        0u8
                    },
            decreases 16 - ty,
        {
            proof {
                assert((y + ty) * atlas_width * 4 + x * 4 + 64 <= atlas_data_len) by (nonlinear_arith)
                    requires
                        y == row * 16,
                        ty < 16,
                        row < row_count,
                        x == col * 16,
                        col < per_row,
                        atlas_width == 16 * per_row,
                        atlas_height == 16 * row_count,
                        atlas_data_len == atlas_width * atlas_height * 4,
                ;
            }
            let src_start = ty * tex_size * 4;
            let dst_start = (y + ty) * atlas_width * 4 + x * 4;
            let mut k: usize = 0;
            while k < tex_size * 4
                invariant
                    ty < 16,
                    tex_size == 16,
                    64 * per_row <= usize::MAX,
                    k <= 64,
                    i < tex_count,
                    tex_count == loaded@.len(),
                    textures == loaded@.map_values(|t: Vec<u8>| t@),
                    pixels@ == textures[i as int],
                    pixels@.len() >= 1024,
                    per_row > 0,
                    pr == per_row,
                    w == atlas_width,
                    h == atlas_height,
                    atlas_width == 16 * per_row,
                    atlas_height == 16 * row_count,
                    row == i / per_row,
                    col == i % per_row,
                    row < row_count,
                    col < per_row,
                    x == col * 16,
                    y == row * 16,
                    src_start == ty * 64,
                    dst_start == (y + ty) * atlas_width * 4 + x * 4,
                    dst_start + 64 <= atlas_data_len,
                    atlas_data_len == atlas_width * atlas_height * 4,
                    atlas_data@.len() == atlas_data_len,
                    forall|py: int, px: int, c: int|
                        0 <= py < h && 0 <= px < w && 0 <= c < 4 ==> #[trigger] atlas_data@[byte_index(w, py, px, c)]
                            == if (py / 16) * pr + px / 16 < i || ((py / 16) * pr + px / 16 == i && (py % 16 < ty
                            || (py % 16 == ty && (px % 16) * 4 + c < k))) {
                            atlas_pixel(textures, pr, py, px, c)
                        } else {
                            0u8
                        },
                decreases 64 - k,
            {
                let ghost py0: int = y + ty;
                let ghost px0: int = x + k as int / 4;
                let ghost c0: int = k as int % 4;
                proof {
                    lemma_tile_pixel(pr, i as int, ty as int, k as int);
                    lemma_byte_index_bounds(w, h, py0, px0, c0);
                    assert(dst_start + k == byte_index(w, py0, px0, c0)) by (nonlinear_arith)
                        requires
                            dst_start == (y + ty) * atlas_width * 4 + x * 4,
                            (py0 * (16 * per_row) + col * 16) * 4 + k == byte_index(16 * per_row, py0, px0, c0),
                            py0 == y + ty,
                            x == col * 16,
                            atlas_width == 16 * per_row,
                            w == atlas_width,
                    ;
                    assert(py0 < h) by (nonlinear_arith)
                        requires
                            py0 == row * 16 + ty,
                            ty < 16,
                            row < row_count,
                            h == 16 * row_count,
                    ;
                }
                let ghost old_data = atlas_data@;
                atlas_data.set(dst_start + k, pixels[src_start + k]);
                proof {
                    assert forall|py: int, px: int, c: int|
                        0 <= py < h && 0 <= px < w && 0 <= c < 4 implies #[trigger] atlas_data@[byte_index(w, py, px, c)]
                            == if (py / 16) * pr + px / 16 < i || ((py / 16) * pr + px / 16 == i && (py % 16 < ty
                            || (py % 16 == ty && (px % 16) * 4 + c < k + 1))) {
                            atlas_pixel(textures, pr, py, px, c)
                        } else {
                            0u8
                        } by {
                        if byte_index(w, py, px, c) == byte_index(w, py0, px0, c0) {
                            lemma_byte_index_inj(w, py, px, c, py0, px0, c0);
                            assert(atlas_data@[byte_index(w, py, px, c)] == textures[i as int][ty * 64 + k]);
                            assert(atlas_pixel(textures, pr, py, px, c) == textures[i as int][ty * 64 + k]);
                        } else if (py / 16) * pr + px / 16 == i && py % 16 == ty && (px % 16) * 4 + c == k {
                            lemma_same_cell(pr, py, px, c, i as int, ty as int, k as int);
                        } else {
                            lemma_byte_index_bounds(w, h, py, px, c);
                        }
                    }
                }
                k += 1;
            }
            ty += 1;
        }
        i += 1;
    }
    PackedAtlas { data: atlas_data, width: atlas_width, height: atlas_height }
}

} // verus!
