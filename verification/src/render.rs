//! The renderer: called once per frame at the VBlank edge, it walks the
//! nametables for the background, honoring scroll, then draws the 8x8
//! sprites from OAM in back-to-front order.

use vstd::prelude::*;
use crate::frame::{frame_wf, set_pixel_spec, Frame};
use crate::ppu::{ppu_wf, Mirroring, NesPPU, PpuView};
use crate::registers::{ctrl_background_bank, ctrl_nametable_addr, ctrl_sprite_bank};

verus! {

/// The fixed 64-entry system palette, as RGB; the index is taken
/// modulo 64, matching the 6-bit palette registers.
pub open spec fn system_palette_spec(idx: u8) -> (u8, u8, u8) {
    match idx % 64 {
        0 => (0x80, 0x80, 0x80),
        1 => (0x0, 0x3d, 0xa6),
        2 => (0x0, 0x12, 0xb0),
        3 => (0x44, 0x0, 0x96),
        4 => (0xa1, 0x0, 0x5e),
        5 => (0xc7, 0x0, 0x28),
        6 => (0xba, 0x6, 0x0),
        7 => (0x8c, 0x17, 0x0),
        8 => (0x5c, 0x2f, 0x0),
        9 => (0x10, 0x45, 0x0),
        10 => (0x5, 0x4a, 0x0),
        11 => (0x0, 0x47, 0x2e),
        12 => (0x0, 0x41, 0x66),
        13 => (0x0, 0x0, 0x0),
        14 => (0x5, 0x5, 0x5),
        15 => (0x5, 0x5, 0x5),
        16 => (0xc7, 0xc7, 0xc7),
        17 => (0x0, 0x77, 0xff),
        18 => (0x21, 0x55, 0xff),
        19 => (0x82, 0x37, 0xfa),
        20 => (0xeb, 0x2f, 0xb5),
        21 => (0xff, 0x29, 0x50),
        22 => (0xff, 0x22, 0x0),
        23 => (0xd6, 0x32, 0x0),
        24 => (0xc4, 0x62, 0x0),
        25 => (0x35, 0x80, 0x0),
        26 => (0x5, 0x8f, 0x0),
        27 => (0x0, 0x8a, 0x55),
        28 => (0x0, 0x99, 0xcc),
        29 => (0x21, 0x21, 0x21),
        30 => (0x9, 0x9, 0x9),
        31 => (0x9, 0x9, 0x9),
        32 => (0xff, 0xff, 0xff),
        33 => (0xf, 0xd7, 0xff),
        34 => (0x69, 0xa2, 0xff),
        35 => (0xd4, 0x80, 0xff),
        36 => (0xff, 0x45, 0xf3),
        37 => (0xff, 0x61, 0x8b),
        38 => (0xff, 0x88, 0x33),
        39 => (0xff, 0x9c, 0x12),
        40 => (0xfa, 0xbc, 0x20),
        41 => (0x9f, 0xe3, 0xe),
        42 => (0x2b, 0xf0, 0x35),
        43 => (0xc, 0xf0, 0xa4),
        44 => (0x5, 0xfb, 0xff),
        45 => (0x5e, 0x5e, 0x5e),
        46 => (0xd, 0xd, 0xd),
        47 => (0xd, 0xd, 0xd),
        48 => (0xff, 0xff, 0xff),
        49 => (0xa6, 0xfc, 0xff),
        50 => (0xb3, 0xec, 0xff),
        51 => (0xda, 0xab, 0xeb),
        52 => (0xff, 0xa8, 0xf9),
        53 => (0xff, 0xab, 0xb3),
        54 => (0xff, 0xd2, 0xb0),
        55 => (0xff, 0xef, 0xa6),
        56 => (0xff, 0xf7, 0x9c),
        57 => (0xd7, 0xe8, 0x95),
        58 => (0xa6, 0xed, 0xaf),
        59 => (0xa2, 0xf2, 0xda),
        60 => (0x99, 0xff, 0xfc),
        61 => (0xdd, 0xdd, 0xdd),
        62 => (0x11, 0x11, 0x11),
        63 => (0x11, 0x11, 0x11),
        _ => (0, 0, 0),
    }
}

/// The RGB color of one system-palette entry.
#[verifier::rlimit(60)]
pub fn system_palette_color(idx: u8) -> (r: (u8, u8, u8))
    ensures
        r == system_palette_spec(idx),
{
    match idx % 64 {
        0 => (0x80, 0x80, 0x80),
        1 => (0x0, 0x3d, 0xa6),
        2 => (0x0, 0x12, 0xb0),
        3 => (0x44, 0x0, 0x96),
        4 => (0xa1, 0x0, 0x5e),
        5 => (0xc7, 0x0, 0x28),
        6 => (0xba, 0x6, 0x0),
        7 => (0x8c, 0x17, 0x0),
        8 => (0x5c, 0x2f, 0x0),
        9 => (0x10, 0x45, 0x0),
        10 => (0x5, 0x4a, 0x0),
        11 => (0x0, 0x47, 0x2e),
        12 => (0x0, 0x41, 0x66),
        13 => (0x0, 0x0, 0x0),
        14 => (0x5, 0x5, 0x5),
        15 => (0x5, 0x5, 0x5),
        16 => (0xc7, 0xc7, 0xc7),
        17 => (0x0, 0x77, 0xff),
        18 => (0x21, 0x55, 0xff),
        19 => (0x82, 0x37, 0xfa),
        20 => (0xeb, 0x2f, 0xb5),
        21 => (0xff, 0x29, 0x50),
        22 => (0xff, 0x22, 0x0),
        23 => (0xd6, 0x32, 0x0),
        24 => (0xc4, 0x62, 0x0),
        25 => (0x35, 0x80, 0x0),
        26 => (0x5, 0x8f, 0x0),
        27 => (0x0, 0x8a, 0x55),
        28 => (0x0, 0x99, 0xcc),
        29 => (0x21, 0x21, 0x21),
        30 => (0x9, 0x9, 0x9),
        31 => (0x9, 0x9, 0x9),
        32 => (0xff, 0xff, 0xff),
        33 => (0xf, 0xd7, 0xff),
        34 => (0x69, 0xa2, 0xff),
        35 => (0xd4, 0x80, 0xff),
        36 => (0xff, 0x45, 0xf3),
        37 => (0xff, 0x61, 0x8b),
        38 => (0xff, 0x88, 0x33),
        39 => (0xff, 0x9c, 0x12),
        40 => (0xfa, 0xbc, 0x20),
        41 => (0x9f, 0xe3, 0xe),
        42 => (0x2b, 0xf0, 0x35),
        43 => (0xc, 0xf0, 0xa4),
        44 => (0x5, 0xfb, 0xff),
        45 => (0x5e, 0x5e, 0x5e),
        46 => (0xd, 0xd, 0xd),
        47 => (0xd, 0xd, 0xd),
        48 => (0xff, 0xff, 0xff),
        49 => (0xa6, 0xfc, 0xff),
        50 => (0xb3, 0xec, 0xff),
        51 => (0xda, 0xab, 0xeb),
        52 => (0xff, 0xa8, 0xf9),
        53 => (0xff, 0xab, 0xb3),
        54 => (0xff, 0xd2, 0xb0),
        55 => (0xff, 0xef, 0xa6),
        56 => (0xff, 0xf7, 0x9c),
        57 => (0xd7, 0xe8, 0x95),
        58 => (0xa6, 0xed, 0xaf),
        59 => (0xa2, 0xf2, 0xda),
        60 => (0x99, 0xff, 0xfc),
        61 => (0xdd, 0xdd, 0xdd),
        62 => (0x11, 0x11, 0x11),
        63 => (0x11, 0x11, 0x11),
        _ => (0, 0, 0),
    }
}


/// A clipping rectangle in frame coordinates.
pub struct Rect {
    pub x1: usize,
    pub y1: usize,
    pub x2: usize,
    pub y2: usize,
}

impl Rect {
    /// Assemble a rectangle from its corners.
    pub fn new(x1: usize, y1: usize, x2: usize, y2: usize) -> (r: Rect)
        ensures
            r.x1 == x1 && r.y1 == y1 && r.x2 == x2 && r.y2 == y2,
    {
        Rect { x1, y1, x2, y2 }
    }
}

/// The 2-bit palette selector an attribute byte yields for a tile: the
/// tile's 2x2-tile quadrant picks one of the byte's four bit pairs.
pub open spec fn attr_palette_idx(attr_byte: u8, tile_column: int, tile_row: int) -> u8 {
    if tile_column % 4 / 2 == 0 && tile_row % 4 / 2 == 0 {
        attr_byte & 0b11
    } else if tile_column % 4 / 2 == 1 && tile_row % 4 / 2 == 0 {
        (attr_byte >> 2) & 0b11
    } else if tile_column % 4 / 2 == 0 && tile_row % 4 / 2 == 1 {
        (attr_byte >> 4) & 0b11
    } else {
        (attr_byte >> 6) & 0b11
    }
}

/// The four palette-RAM entries for a background tile: the universal
/// background color and the three colors of the selected palette.
pub open spec fn bg_palette_spec(p: PpuView, attribute_table: Seq<u8>, tile_column: int, tile_row: int) -> (
    u8,
    u8,
    u8,
    u8,
) {
    let attr_byte = attribute_table[tile_row / 4 * 8 + tile_column / 4];
    let start = 1 + attr_palette_idx(attr_byte, tile_column, tile_row) * 4;
    (p.palette_table[0], p.palette_table[start as int], p.palette_table[start + 1], p.palette_table[
        start + 2
    ])
}

/// Background palette for a tile of the nametable whose attribute table
/// starts at `attr_table` in VRAM.
pub fn bg_pallette(ppu: &NesPPU, tile_column: usize, tile_row: usize, attr_table: usize) -> (r: (
    u8,
    u8,
    u8,
    u8,
))
    requires
        ppu_wf(ppu@),
        tile_column < 32,
        tile_row < 30,
        attr_table + 64 <= 0x800,
    ensures
        r == bg_palette_spec(
            ppu@,
            ppu@.vram.subrange(attr_table as int, attr_table + 64),
            tile_column as int,
            tile_row as int,
        ),
{
    let attr_table_idx: usize = tile_row / 4 * 8 + tile_column / 4;
    let attr_byte = ppu.vram[attr_table + attr_table_idx];
    let pallet_idx: u8 = if tile_column % 4 / 2 == 0 && tile_row % 4 / 2 == 0 {
        attr_byte & 0b11
    } else if tile_column % 4 / 2 == 1 && tile_row % 4 / 2 == 0 {
        (attr_byte >> 2) & 0b11
    } else if tile_column % 4 / 2 == 0 && tile_row % 4 / 2 == 1 {
        (attr_byte >> 4) & 0b11
    } else {
        (attr_byte >> 6) & 0b11
    };
    proof {
        assert(attr_byte & 0b11 < 4 && (attr_byte >> 2) & 0b11 < 4 && (attr_byte >> 4) & 0b11 < 4
            && (attr_byte >> 6) & 0b11 < 4) by (bit_vector);
    }
    let pallete_start: usize = 1 + (pallet_idx as usize) * 4;
    (
        ppu.palette_table[0],
        ppu.palette_table[pallete_start],
        ppu.palette_table[pallete_start + 1],
        ppu.palette_table[pallete_start + 2],
    )
}

/// Background palette for a tile, with the attribute table passed in.
pub fn bg_pallette2(ppu: &NesPPU, attribute_table: &Vec<u8>, tile_column: usize, tile_row: usize) -> (r: (
    u8,
    u8,
    u8,
    u8,
))
    requires
        ppu_wf(ppu@),
        attribute_table@.len() == 64,
        tile_column < 32,
        tile_row < 30,
    ensures
        r == bg_palette_spec(ppu@, attribute_table@, tile_column as int, tile_row as int),
{
    let attr_table_idx: usize = tile_row / 4 * 8 + tile_column / 4;
    let attr_byte = attribute_table[attr_table_idx];
    let pallet_idx: u8 = if tile_column % 4 / 2 == 0 && tile_row % 4 / 2 == 0 {
        attr_byte & 0b11
    } else if tile_column % 4 / 2 == 1 && tile_row % 4 / 2 == 0 {
        (attr_byte >> 2) & 0b11
    } else if tile_column % 4 / 2 == 0 && tile_row % 4 / 2 == 1 {
        (attr_byte >> 4) & 0b11
    } else {
        (attr_byte >> 6) & 0b11
    };
    proof {
        assert(attr_byte & 0b11 < 4 && (attr_byte >> 2) & 0b11 < 4 && (attr_byte >> 4) & 0b11 < 4
            && (attr_byte >> 6) & 0b11 < 4) by (bit_vector);
    }
    let pallete_start: usize = 1 + (pallet_idx as usize) * 4;
    (
        ppu.palette_table[0],
        ppu.palette_table[pallete_start],
        ppu.palette_table[pallete_start + 1],
        ppu.palette_table[pallete_start + 2],
    )
}

/// The four palette-RAM entries for a sprite palette: transparent plus
/// the three colors at 0x11 + 4 * idx.
pub open spec fn sprite_palette_spec(p: PpuView, pallete_idx: u8) -> (u8, u8, u8, u8) {
    let start = 0x11 + pallete_idx * 4;
    (0, p.palette_table[start as int], p.palette_table[start + 1], p.palette_table[start + 2])
}

/// Sprite palette `pallete_idx` (0..=3).
pub fn sprite_palette(ppu: &NesPPU, pallete_idx: u8) -> (r: (u8, u8, u8, u8))
    requires
        ppu_wf(ppu@),
        pallete_idx < 4,
    ensures
        r == sprite_palette_spec(ppu@, pallete_idx),
{
    let start: usize = 0x11 + (pallete_idx as usize) * 4;
    (0, ppu.palette_table[start], ppu.palette_table[start + 1], ppu.palette_table[start + 2])
}

/// The 16 pattern-table bytes of one background tile.
pub fn bg_tile(ppu: &NesPPU, tile_idx: u16) -> (r: Vec<u8>)
    requires
        ppu_wf(ppu@),
        tile_idx < 256,
    ensures
        r@ == ppu@.chr_rom.subrange(
            ctrl_background_bank(ppu@.ctrl) + tile_idx * 16,
            ctrl_background_bank(ppu@.ctrl) + tile_idx * 16 + 16,
        ),
{
    let bank = ppu.ctrl.bknd_pattern_addr();
    let base: usize = bank as usize + tile_idx as usize * 16;
    let mut tile: Vec<u8> = Vec::new();
    let mut k: usize = 0;
    while k < 16
        invariant
            k <= 16,
            ppu_wf(ppu@),
            base == ctrl_background_bank(ppu@.ctrl) + tile_idx * 16,
            base + 16 <= 0x2000,
            tile@ == ppu@.chr_rom.subrange(base as int, base + k),
        decreases 16 - k,
    {
        let b = ppu.chr_rom[base + k];
        tile.push(b);
        k += 1;
        proof {
            assert(tile@ =~= ppu@.chr_rom.subrange(base as int, base + k));
        }
    }
    tile
}

/// The visible nametable's VRAM base and its scrolling partner's,
/// classified from the mirroring mode and PPUCTRL's nametable select.
pub open spec fn nametable_bases(p: PpuView) -> (int, int) {
    let nt = ctrl_nametable_addr(p.ctrl);
    if p.mirroring == Mirroring::Vertical {
        if nt == 0x2000 || nt == 0x2800 {
            (0, 0x400)
        } else {
            (0x400, 0)
        }
    } else {
        if nt == 0x2000 || nt == 0x2400 {
            (0, 0x400)
        } else {
            (0x400, 0)
        }
    }
}

/// The color a background pattern value selects from a tile's palette.
pub open spec fn bg_pixel_rgb(pal: (u8, u8, u8, u8), value: u8) -> (u8, u8, u8) {
    if value == 0 {
        system_palette_spec(pal.0)
    } else if value == 1 {
        system_palette_spec(pal.1)
    } else if value == 2 {
        system_palette_spec(pal.2)
    } else {
        system_palette_spec(pal.3)
    }
}

/// One background pixel of tile `i` (row `y`, bit `xi` counted from the
/// right): its pattern value is the high plane's bit over the low
/// plane's, its color comes from the attribute-selected palette, and it
/// lands at the tile's position, clipped to the viewport and shifted to
/// its place in the composed frame.
pub open spec fn nt_pixel_step(
    p: PpuView,
    data: Seq<u8>,
    base: int,
    vp: Rect,
    shift_x: int,
    shift_y: int,
    i: int,
    y: int,
    xi: int,
) -> Seq<u8> {
    let tbase = ctrl_background_bank(p.ctrl) + p.vram[base + i] * 16;
    let low = p.chr_rom[tbase + y];
    let high = p.chr_rom[tbase + y + 8];
    let value = ((1u8 & (high >> (xi as u32))) << 1) | (1u8 & (low >> (xi as u32)));
    let pal = bg_palette_spec(p, p.vram.subrange(base + 0x3c0, base + 0x400), i % 32, i / 32);
    let px = (i % 32) * 8 + 7 - xi;
    let py = (i / 32) * 8 + y;
    if vp.x1 <= px < vp.x2 && vp.y1 <= py < vp.y2 {
        set_pixel_spec(data, shift_x + px, shift_y + py, bg_pixel_rgb(pal, value))
    } else {
        data
    }
}

/// The first `n` pixels (from bit 7 leftwards) of one tile row.
pub open spec fn nt_pixels(
    p: PpuView,
    data: Seq<u8>,
    base: int,
    vp: Rect,
    shift_x: int,
    shift_y: int,
    i: int,
    y: int,
    n: nat,
) -> Seq<u8>
    decreases n,
{
    if n == 0 {
        data
    } else {
        nt_pixel_step(
            p,
            nt_pixels(p, data, base, vp, shift_x, shift_y, i, y, (n - 1) as nat),
            base,
            vp,
            shift_x,
            shift_y,
            i,
            y,
            n - 1,
        )
    }
}

/// The first `n` rows of one tile.
pub open spec fn nt_rows(
    p: PpuView,
    data: Seq<u8>,
    base: int,
    vp: Rect,
    shift_x: int,
    shift_y: int,
    i: int,
    n: nat,
) -> Seq<u8>
    decreases n,
{
    if n == 0 {
        data
    } else {
        nt_pixels(
            p,
            nt_rows(p, data, base, vp, shift_x, shift_y, i, (n - 1) as nat),
            base,
            vp,
            shift_x,
            shift_y,
            i,
            n - 1,
            8,
        )
    }
}

/// The first `n` tiles of one nametable, drawn through the viewport.
pub open spec fn nt_tiles(
    p: PpuView,
    data: Seq<u8>,
    base: int,
    vp: Rect,
    shift_x: int,
    shift_y: int,
    n: nat,
) -> Seq<u8>
    decreases n,
{
    if n == 0 {
        data
    } else {
        nt_rows(p, nt_tiles(p, data, base, vp, shift_x, shift_y, (n - 1) as nat), base, vp, shift_x, shift_y, n - 1, 8)
    }
}

/// A write to one pixel leaves every byte of every other pixel alone.
pub proof fn lemma_set_pixel_other(data: Seq<u8>, x: int, y: int, rgb: (u8, u8, u8), k: int)
    requires
        0 <= k < data.len(),
        !((k / 3) % 256 == x && (k / 3) / 256 == y),
    ensures
        set_pixel_spec(data, x, y, rgb).len() == data.len(),
        set_pixel_spec(data, x, y, rgb)[k] == data[k],
{
    if 0 <= x < 256 && 0 <= y < 240 {
        let base = y * 3 * 256 + x * 3;
        if base + 2 < data.len() {
            if base <= k <= base + 2 {
                let j = k - base;
                assert(k / 3 == y * 256 + x) by (nonlinear_arith)
                    requires
                        k == y * 3 * 256 + x * 3 + j,
                        0 <= j < 3,
                ;
                assert((y * 256 + x) % 256 == x && (y * 256 + x) / 256 == y) by (nonlinear_arith)
                    requires
                        0 <= x < 256,
                        0 <= y,
                ;
                assert(false);
            }
        }
    }
}

/// Bytes of pixels outside the shifted viewport are untouched by the
/// pixels of one tile row.
proof fn lemma_nt_pixels_outside(
    p: PpuView,
    data: Seq<u8>,
    base: int,
    vp: Rect,
    shift_x: int,
    shift_y: int,
    i: int,
    y: int,
    n: nat,
    k: int,
)
    requires
        0 <= k < data.len(),
        ({
            let xk = (k / 3) % 256;
            let yk = (k / 3) / 256;
            !(vp.x1 + shift_x <= xk < vp.x2 + shift_x && vp.y1 + shift_y <= yk < vp.y2
                + shift_y)
        }),
    ensures
        nt_pixels(p, data, base, vp, shift_x, shift_y, i, y, n).len() == data.len(),
        nt_pixels(p, data, base, vp, shift_x, shift_y, i, y, n)[k] == data[k],
    decreases n,
{
    if n > 0 {
        lemma_nt_pixels_outside(p, data, base, vp, shift_x, shift_y, i, y, (n - 1) as nat, k);
        let d = nt_pixels(p, data, base, vp, shift_x, shift_y, i, y, (n - 1) as nat);
        let xi = n - 1;
        let px = (i % 32) * 8 + 7 - xi;
        let py = (i / 32) * 8 + y;
        if vp.x1 <= px < vp.x2 && vp.y1 <= py < vp.y2 {
            lemma_set_pixel_other(d, shift_x + px, shift_y + py, bg_pixel_rgb(bg_palette_spec(p, p.vram.subrange(base + 0x3c0, base + 0x400), i % 32, i / 32), ((1u8 & (p.chr_rom[ctrl_background_bank(p.ctrl) + p.vram[base + i] * 16 + y + 8] >> (xi as u32))) << 1) | (1u8 & (p.chr_rom[ctrl_background_bank(p.ctrl) + p.vram[base + i] * 16 + y] >> (xi as u32)))), k);
        }
    }
}

/// Bytes of pixels outside the shifted viewport are untouched by the
/// rows of one tile.
proof fn lemma_nt_rows_outside(
    p: PpuView,
    data: Seq<u8>,
    base: int,
    vp: Rect,
    shift_x: int,
    shift_y: int,
    i: int,
    n: nat,
    k: int,
)
    requires
        0 <= k < data.len(),
        ({
            let xk = (k / 3) % 256;
            let yk = (k / 3) / 256;
            !(vp.x1 + shift_x <= xk < vp.x2 + shift_x && vp.y1 + shift_y <= yk < vp.y2
                + shift_y)
        }),
    ensures
        nt_rows(p, data, base, vp, shift_x, shift_y, i, n).len() == data.len(),
        nt_rows(p, data, base, vp, shift_x, shift_y, i, n)[k] == data[k],
    decreases n,
{
    if n > 0 {
        lemma_nt_rows_outside(p, data, base, vp, shift_x, shift_y, i, (n - 1) as nat, k);
        let d = nt_rows(p, data, base, vp, shift_x, shift_y, i, (n - 1) as nat);
        lemma_nt_pixels_outside(p, d, base, vp, shift_x, shift_y, i, n - 1, 8, k);
    }
}

/// Drawing a nametable through a viewport leaves every frame byte whose
/// pixel lies outside the shifted viewport exactly as it was.
pub proof fn lemma_nt_tiles_outside_viewport(
    p: PpuView,
    data: Seq<u8>,
    base: int,
    vp: Rect,
    shift_x: int,
    shift_y: int,
    n: nat,
    k: int,
)
    requires
        0 <= k < data.len(),
        ({
            let xk = (k / 3) % 256;
            let yk = (k / 3) / 256;
            !(vp.x1 + shift_x <= xk < vp.x2 + shift_x && vp.y1 + shift_y <= yk < vp.y2
                + shift_y)
        }),
    ensures
        nt_tiles(p, data, base, vp, shift_x, shift_y, n).len() == data.len(),
        nt_tiles(p, data, base, vp, shift_x, shift_y, n)[k] == data[k],
    decreases n,
{
    if n > 0 {
        lemma_nt_tiles_outside_viewport(p, data, base, vp, shift_x, shift_y, (n - 1) as nat, k);
        let d = nt_tiles(p, data, base, vp, shift_x, shift_y, (n - 1) as nat);
        lemma_nt_rows_outside(p, d, base, vp, shift_x, shift_y, n - 1, 8, k);
    }
}

/// One sprite pixel: pattern value 0 is transparent; the flip attribute
/// bits rewrite the deposit coordinates; colors come from the sprite
/// palette the attribute bits select.
pub open spec fn sprite_pixel_step(p: PpuView, data: Seq<u8>, i: int, y: int, xi: int) -> Seq<u8> {
    let attrs = p.oam_data[i + 2];
    let sbase = ctrl_sprite_bank(p.ctrl) + p.oam_data[i + 1] * 16;
    let low = p.chr_rom[sbase + y];
    let high = p.chr_rom[sbase + y + 8];
    let value = ((1u8 & (high >> (xi as u32))) << 1) | (1u8 & (low >> (xi as u32)));
    if value == 0 {
        data
    } else {
        let pal = sprite_palette_spec(p, attrs & 0b11);
        let rgb = if value == 1 {
            system_palette_spec(pal.1)
        } else if value == 2 {
            system_palette_spec(pal.2)
        } else {
            system_palette_spec(pal.3)
        };
        let flip_v = (attrs >> 7) & 1 == 1;
        let flip_h = (attrs >> 6) & 1 == 1;
        let tx = p.oam_data[i + 3] as int;
        let ty = p.oam_data[i] as int;
        let x = 7 - xi;
        if !flip_h && !flip_v {
            set_pixel_spec(data, tx + x, ty + y, rgb)
        } else if flip_h && !flip_v {
            set_pixel_spec(data, tx + 7 - x, ty + y, rgb)
        } else if !flip_h && flip_v {
            set_pixel_spec(data, tx + x, ty + 7 - y, rgb)
        } else {
            set_pixel_spec(data, tx + 7 - x, ty + 7 - y, rgb)
        }
    }
}

/// The first `n` pixels of one sprite row.
pub open spec fn sprite_pixels(p: PpuView, data: Seq<u8>, i: int, y: int, n: nat) -> Seq<u8>
    decreases n,
{
    if n == 0 {
        data
    } else {
        sprite_pixel_step(p, sprite_pixels(p, data, i, y, (n - 1) as nat), i, y, n - 1)
    }
}

/// The first `n` rows of the sprite whose OAM entry starts at `i`.
pub open spec fn sprite_rows(p: PpuView, data: Seq<u8>, i: int, n: nat) -> Seq<u8>
    decreases n,
{
    if n == 0 {
        data
    } else {
        sprite_pixels(p, sprite_rows(p, data, i, (n - 1) as nat), i, n - 1, 8)
    }
}

/// The first `k` sprites drawn, walking OAM from entry 63 down so lower
/// entries overdraw higher ones.
pub open spec fn draw_sprites(p: PpuView, data: Seq<u8>, k: nat) -> Seq<u8>
    decreases k,
{
    if k == 0 {
        data
    } else {
        sprite_rows(p, draw_sprites(p, data, (k - 1) as nat), 256 - 4 * k, 8)
    }
}

/// A whole frame: the visible nametable through the scrolled viewport,
/// its partner filling the remaining band, then the 64 sprites.
pub open spec fn render_spec(p: PpuView, data: Seq<u8>) -> Seq<u8> {
    let sx = p.scroll.scroll_x as int;
    let sy = p.scroll.scroll_y as int;
    let bases = nametable_bases(p);
    let vp_main = Rect {
        x1: p.scroll.scroll_x as usize,
        y1: p.scroll.scroll_y as usize,
        x2: 256,
        y2: 240,
    };
    let d1 = nt_tiles(p, data, bases.0, vp_main, -sx, -sy, 0x3c0);
    let d2 = if sx > 0 {
        let vp = Rect { x1: 0, y1: 0, x2: p.scroll.scroll_x as usize, y2: 240 };
        nt_tiles(p, d1, bases.1, vp, 256 - sx, 0, 0x3c0)
    } else if sy > 0 {
        let vp = Rect { x1: 0, y1: 0, x2: 256, y2: p.scroll.scroll_y as usize };
        nt_tiles(p, d1, bases.1, vp, 0, 240 - sy, 0x3c0)
    } else {
        d1
    };
    draw_sprites(p, d2, 64)
}

/// Draw one nametable through a viewport, shifted to its place in the
/// composed frame: every pixel of the result is fixed by `nt_tiles`.
#[verifier::rlimit(100)]
#[verifier::spinoff_prover]
pub fn render_name_table(
    ppu: &NesPPU,
    frame: &mut Frame,
    name_table_base: usize,
    view_port: Rect,
    shift_x: isize,
    shift_y: isize,
)
    requires
        ppu_wf(ppu@),
        frame_wf(*old(frame)),
        name_table_base == 0 || name_table_base == 0x400,
        -512 <= shift_x <= 512,
        -512 <= shift_y <= 512,
    ensures
        final(frame).data@ == nt_tiles(
            ppu@,
            old(frame).data@,
            name_table_base as int,
            view_port,
            shift_x as int,
            shift_y as int,
            0x3c0,
        ),
        frame_wf(*final(frame)),
{
    let ghost d0 = frame.data@;
    let bank = ppu.ctrl.bknd_pattern_addr();
    let mut i: usize = 0;
    while i < 0x3c0
        invariant
            ppu_wf(ppu@),
            frame_wf(*frame),
            name_table_base == 0 || name_table_base == 0x400,
            -512 <= shift_x <= 512,
            -512 <= shift_y <= 512,
            bank == ctrl_background_bank(ppu@.ctrl),
            i <= 0x3c0,
            frame.data@ == nt_tiles(
                ppu@,
                d0,
                name_table_base as int,
                view_port,
                shift_x as int,
                shift_y as int,
                i as nat,
            ),
        decreases 0x3c0 - i,
    {
        let ghost di = frame.data@;
        let tile_column = i % 32;
        let tile_row = i / 32;
        let tile_idx = ppu.vram[name_table_base + i] as usize;
        let palette = bg_pallette(ppu, tile_column, tile_row, name_table_base + 0x3c0);
        let tbase: usize = bank as usize + tile_idx * 16;
        let mut y: usize = 0;
        while y < 8
            invariant
                ppu_wf(ppu@),
                frame_wf(*frame),
                -512 <= shift_x <= 512,
                -512 <= shift_y <= 512,
                i < 0x3c0,
                name_table_base == 0 || name_table_base == 0x400,
                tile_column == i % 32,
                tile_row == i / 32,
                tbase == ctrl_background_bank(ppu@.ctrl) + ppu@.vram[name_table_base + i] * 16,
                tbase + 16 <= 0x2000,
                palette == bg_palette_spec(
                    ppu@,
                    ppu@.vram.subrange(name_table_base + 0x3c0, name_table_base + 0x400),
                    i as int % 32,
                    i as int / 32,
                ),
                y <= 8,
                frame.data@ == nt_rows(
                    ppu@,
                    di,
                    name_table_base as int,
                    view_port,
                    shift_x as int,
                    shift_y as int,
                    i as int,
                    y as nat,
                ),
            decreases 8 - y,
        {
            let low = ppu.chr_rom[tbase + y];
            let high = ppu.chr_rom[tbase + y + 8];
            let ghost diy = frame.data@;
            let mut xi: usize = 0;
            while xi < 8
                invariant
                    ppu_wf(ppu@),
                    frame_wf(*frame),
                    -512 <= shift_x <= 512,
                    -512 <= shift_y <= 512,
                    i < 0x3c0,
                    y < 8,
                    name_table_base == 0 || name_table_base == 0x400,
                    tile_column == i % 32,
                    tile_row == i / 32,
                    tbase == ctrl_background_bank(ppu@.ctrl) + ppu@.vram[name_table_base + i]
                        * 16,
                    tbase + 16 <= 0x2000,
                    low == ppu@.chr_rom[tbase + y],
                    high == ppu@.chr_rom[tbase + y + 8],
                    palette == bg_palette_spec(
                        ppu@,
                        ppu@.vram.subrange(name_table_base + 0x3c0, name_table_base + 0x400),
                        i as int % 32,
                        i as int / 32,
                    ),
                    xi <= 8,
                    frame.data@ == nt_pixels(
                        ppu@,
                        diy,
                        name_table_base as int,
                        view_port,
                        shift_x as int,
                        shift_y as int,
                        i as int,
                        y as int,
                        xi as nat,
                    ),
                decreases 8 - xi,
            {
                let value = ((1u8 & (high >> (xi as u32))) << 1) | (1u8 & (low >> (xi as u32)));
                let rgb = if value == 0 {
                    system_palette_color(palette.0)
                } else if value == 1 {
                    system_palette_color(palette.1)
                } else if value == 2 {
                    system_palette_color(palette.2)
                } else {
                    system_palette_color(palette.3)
                };
                let pixel_x = tile_column * 8 + 7 - xi;
                let pixel_y = tile_row * 8 + y;
                if pixel_x >= view_port.x1 && pixel_x < view_port.x2 && pixel_y >= view_port.y1
                    && pixel_y < view_port.y2 {
                    let dx: isize = shift_x + pixel_x as isize;
                    let dy: isize = shift_y + pixel_y as isize;
                    if dx >= 0 && dy >= 0 {
                        frame.set_pixel(dx as usize, dy as usize, rgb);
                    }
                }
                xi += 1;
                proof {
                    assert(frame.data@ == nt_pixels(
                        ppu@,
                        diy,
                        name_table_base as int,
                        view_port,
                        shift_x as int,
                        shift_y as int,
                        i as int,
                        y as int,
                        xi as nat,
                    ));
                }
            }
            y += 1;
            proof {
                assert(frame.data@ == nt_rows(
                    ppu@,
                    di,
                    name_table_base as int,
                    view_port,
                    shift_x as int,
                    shift_y as int,
                    i as int,
                    y as nat,
                ));
            }
        }
        i += 1;
        proof {
            assert(frame.data@ == nt_tiles(
                ppu@,
                d0,
                name_table_base as int,
                view_port,
                shift_x as int,
                shift_y as int,
                i as nat,
            ));
        }
    }
}

/// Render a full frame per the scrolling compose: the visible nametable
/// shifted by the scroll, its partner filling the uncovered band, then
/// the OAM sprites from back to front. Every pixel of the result is
/// fixed by `render_spec`.
#[verifier::rlimit(100)]
#[verifier::spinoff_prover]
pub fn render(ppu: &NesPPU, frame: &mut Frame)
    requires
        ppu_wf(ppu@),
        frame_wf(*old(frame)),
    ensures
        final(frame).data@ == render_spec(ppu@, old(frame).data@),
        frame_wf(*final(frame)),
{
    let ghost d0 = frame.data@;
    let scroll_x = ppu.scroll.scroll_x as usize;
    let scroll_y = ppu.scroll.scroll_y as usize;
    let nt = ppu.ctrl.nametable_addr();
    let (main_base, second_base): (usize, usize) = if ppu.mirroring == Mirroring::Vertical {
        if nt == 0x2000 || nt == 0x2800 {
            (0, 0x400)
        } else {
            (0x400, 0)
        }
    } else {
        if nt == 0x2000 || nt == 0x2400 {
            (0, 0x400)
        } else {
            (0x400, 0)
        }
    };
    proof {
        assert(main_base as int == nametable_bases(ppu@).0);
        assert(second_base as int == nametable_bases(ppu@).1);
    }
    render_name_table(
        ppu,
        frame,
        main_base,
        Rect::new(scroll_x, scroll_y, 256, 240),
        -(scroll_x as isize),
        -(scroll_y as isize),
    );
    if scroll_x > 0 {
        render_name_table(
            ppu,
            frame,
            second_base,
            Rect::new(0, 0, scroll_x, 240),
            (256 - scroll_x) as isize,
            0,
        );
    } else if scroll_y > 0 {
        render_name_table(
            ppu,
            frame,
            second_base,
            Rect::new(0, 0, 256, scroll_y),
            0,
            240 - (scroll_y as isize),
        );
    }
    let ghost d2 = frame.data@;

    let mut i: usize = 256;
    while i >= 4
        invariant
            ppu_wf(ppu@),
            frame_wf(*frame),
            i <= 256,
            i % 4 == 0,
            frame.data@ == draw_sprites(ppu@, d2, ((256 - i) / 4) as nat),
        decreases i,
    {
        i -= 4;
        let ghost ds = frame.data@;
        let tile_idx = ppu.oam_data[i + 1] as usize;
        let tile_x = ppu.oam_data[i + 3] as usize;
        let tile_y = ppu.oam_data[i] as usize;
        let attrs = ppu.oam_data[i + 2];
        let flip_vertical = (attrs >> 7) & 1 == 1;
        let flip_horizontal = (attrs >> 6) & 1 == 1;
        let pallette_idx = attrs & 0b11;
        proof {
            assert(attrs & 0b11 < 4) by (bit_vector);
        }
        let palette = sprite_palette(ppu, pallette_idx);
        let sbank = ppu.ctrl.sprt_pattern_addr();
        let sbase: usize = sbank as usize + tile_idx * 16;
        let mut y: usize = 0;
        while y < 8
            invariant
                ppu_wf(ppu@),
                frame_wf(*frame),
                i + 4 <= 256,
                i % 4 == 0,
                tile_x < 0x100,
                tile_y < 0x100,
                attrs == ppu@.oam_data[i + 2],
                flip_vertical == ((attrs >> 7) & 1 == 1),
                flip_horizontal == ((attrs >> 6) & 1 == 1),
                palette == sprite_palette_spec(ppu@, attrs & 0b11),
                sbase == ctrl_sprite_bank(ppu@.ctrl) + ppu@.oam_data[i + 1] * 16,
                sbase + 16 <= 0x2000,
                tile_x == ppu@.oam_data[i + 3] as int,
                tile_y == ppu@.oam_data[i as int] as int,
                y <= 8,
                frame.data@ == sprite_rows(ppu@, ds, i as int, y as nat),
            decreases 8 - y,
        {
            let low = ppu.chr_rom[sbase + y];
            let high = ppu.chr_rom[sbase + y + 8];
            let ghost dsy = frame.data@;
            let mut xi: usize = 0;
            while xi < 8
                invariant
                    ppu_wf(ppu@),
                    frame_wf(*frame),
                    i + 4 <= 256,
                    y < 8,
                    tile_x < 0x100,
                    tile_y < 0x100,
                    attrs == ppu@.oam_data[i + 2],
                    flip_vertical == ((attrs >> 7) & 1 == 1),
                    flip_horizontal == ((attrs >> 6) & 1 == 1),
                    palette == sprite_palette_spec(ppu@, attrs & 0b11),
                    sbase == ctrl_sprite_bank(ppu@.ctrl) + ppu@.oam_data[i + 1] * 16,
                    sbase + 16 <= 0x2000,
                    low == ppu@.chr_rom[sbase + y],
                    high == ppu@.chr_rom[sbase + y + 8],
                    tile_x == ppu@.oam_data[i + 3] as int,
                    tile_y == ppu@.oam_data[i as int] as int,
                    xi <= 8,
                    frame.data@ == sprite_pixels(ppu@, dsy, i as int, y as int, xi as nat),
                decreases 8 - xi,
            {
                let value = ((1u8 & (high >> (xi as u32))) << 1) | (1u8 & (low >> (xi as u32)));
                if value != 0 {
                    let rgb = if value == 1 {
                        system_palette_color(palette.1)
                    } else if value == 2 {
                        system_palette_color(palette.2)
                    } else {
                        system_palette_color(palette.3)
                    };
                    let x = 7 - xi;
                    if !flip_horizontal && !flip_vertical {
                        frame.set_pixel(tile_x + x, tile_y + y, rgb);
                    } else if flip_horizontal && !flip_vertical {
                        frame.set_pixel(tile_x + 7 - x, tile_y + y, rgb);
                    } else if !flip_horizontal && flip_vertical {
                        frame.set_pixel(tile_x + x, tile_y + 7 - y, rgb);
                    } else {
                        frame.set_pixel(tile_x + 7 - x, tile_y + 7 - y, rgb);
                    }
                }
                xi += 1;
                proof {
                    assert(frame.data@ == sprite_pixels(ppu@, dsy, i as int, y as int, xi as nat));
                }
            }
            y += 1;
            proof {
                assert(frame.data@ == sprite_rows(ppu@, ds, i as int, y as nat));
            }
        }
        proof {
            assert(frame.data@ == draw_sprites(ppu@, d2, ((256 - i) / 4) as nat));
        }
    }
    proof {
        assert(frame.data@ == draw_sprites(ppu@, d2, 64));
    }
}

/// The fixed four-color preview palette of the tile viewer.
pub open spec fn preview_rgb(value: u8) -> (u8, u8, u8) {
    if value == 0 {
        system_palette_spec(0x01)
    } else if value == 1 {
        system_palette_spec(0x23)
    } else if value == 2 {
        system_palette_spec(0x27)
    } else {
        system_palette_spec(0x30)
    }
}

/// One preview pixel of a pattern-table tile, deposited at the grid
/// offset `(ox, oy)`.
pub open spec fn preview_pixel_step(
    chr: Seq<u8>,
    data: Seq<u8>,
    base: int,
    ox: int,
    oy: int,
    y: int,
    xi: int,
) -> Seq<u8> {
    let low = chr[base + y];
    let high = chr[base + y + 8];
    let value = ((1u8 & (high >> (xi as u32))) << 1) | (1u8 & (low >> (xi as u32)));
    set_pixel_spec(data, ox + 7 - xi, oy + y, preview_rgb(value))
}

/// The first `n` preview pixels of one tile row.
pub open spec fn preview_pixels(
    chr: Seq<u8>,
    data: Seq<u8>,
    base: int,
    ox: int,
    oy: int,
    y: int,
    n: nat,
) -> Seq<u8>
    decreases n,
{
    if n == 0 {
        data
    } else {
        preview_pixel_step(
            chr,
            preview_pixels(chr, data, base, ox, oy, y, (n - 1) as nat),
            base,
            ox,
            oy,
            y,
            n - 1,
        )
    }
}

/// The first `n` preview rows of one tile.
pub open spec fn preview_rows(chr: Seq<u8>, data: Seq<u8>, base: int, ox: int, oy: int, n: nat) -> Seq<u8>
    decreases n,
{
    if n == 0 {
        data
    } else {
        preview_pixels(chr, preview_rows(chr, data, base, ox, oy, (n - 1) as nat), base, ox, oy, n - 1, 8)
    }
}

/// The first `n` tiles of a bank preview, on a 20-tiles-per-row grid
/// with 10-pixel strides.
pub open spec fn preview_bank(chr: Seq<u8>, data: Seq<u8>, bank_base: int, n: nat) -> Seq<u8>
    decreases n,
{
    if n == 0 {
        data
    } else {
        let t = n - 1;
        preview_rows(
            chr,
            preview_bank(chr, data, bank_base, (n - 1) as nat),
            bank_base + t * 16,
            (t % 20) * 10,
            (t / 20) * 10,
            8,
        )
    }
}

/// An all-black frame, as `Frame::new` yields it.
pub open spec fn blank_frame_data() -> Seq<u8> {
    Seq::new(256 * 240 * 3, |i: int| 0u8)
}

/// Draw one pattern-table tile into the frame's top-left corner, with
/// the fixed preview palette; the rest of the frame stays black.
pub fn show_tile(chr_rom: &Vec<u8>, bank: usize, tile_n: usize) -> (r: Frame)
    requires
        chr_rom@.len() == 0x2000,
        bank <= 1,
        tile_n < 256,
    ensures
        r.data@ == preview_rows(chr_rom@, blank_frame_data(), bank * 0x1000 + tile_n * 16, 0, 0, 8),
        frame_wf(r),
{
    let mut frame = Frame::new();
    proof {
        assert(frame.data@ =~= blank_frame_data());
    }
    let base: usize = bank * 0x1000 + tile_n * 16;
    let mut y: usize = 0;
    while y < 8
        invariant
            chr_rom@.len() == 0x2000,
            frame_wf(frame),
            base == bank * 0x1000 + tile_n * 16,
            base + 16 <= 0x2000,
            y <= 8,
            frame.data@ == preview_rows(chr_rom@, blank_frame_data(), base as int, 0, 0, y as nat),
        decreases 8 - y,
    {
        let low = chr_rom[base + y];
        let high = chr_rom[base + y + 8];
        let ghost dy = frame.data@;
        let mut xi: usize = 0;
        while xi < 8
            invariant
                chr_rom@.len() == 0x2000,
                frame_wf(frame),
                base + 16 <= 0x2000,
                y < 8,
                low == chr_rom@[base + y],
                high == chr_rom@[base + y + 8],
                xi <= 8,
                frame.data@ == preview_pixels(chr_rom@, dy, base as int, 0, 0, y as int, xi as nat),
            decreases 8 - xi,
        {
            let value = ((1u8 & (high >> (xi as u32))) << 1) | (1u8 & (low >> (xi as u32)));
            let rgb = if value == 0 {
                system_palette_color(0x01)
            } else if value == 1 {
                system_palette_color(0x23)
            } else if value == 2 {
                system_palette_color(0x27)
            } else {
                system_palette_color(0x30)
            };
            frame.set_pixel(7 - xi, y, rgb);
            xi += 1;
            proof {
                assert(frame.data@ == preview_pixels(
                    chr_rom@,
                    dy,
                    base as int,
                    0,
                    0,
                    y as int,
                    xi as nat,
                ));
            }
        }
        y += 1;
        proof {
            assert(frame.data@ == preview_rows(
                chr_rom@,
                blank_frame_data(),
                base as int,
                0,
                0,
                y as nat,
            ));
        }
    }
    frame
}

/// Draw pattern-table tiles 0..=254 of a bank as a grid, with the
/// preview palette.
pub fn show_tile_bank(chr_rom: &Vec<u8>, bank: usize) -> (r: Frame)
    requires
        chr_rom@.len() == 0x2000,
        bank <= 1,
    ensures
        r.data@ == preview_bank(chr_rom@, blank_frame_data(), bank * 0x1000, 255),
        frame_wf(r),
{
    let mut frame = Frame::new();
    proof {
        assert(frame.data@ =~= blank_frame_data());
    }
    let bank_base: usize = bank * 0x1000;
    let mut tile_n: usize = 0;
    while tile_n < 255
        invariant
            chr_rom@.len() == 0x2000,
            frame_wf(frame),
            bank_base == bank * 0x1000,
            bank_base <= 0x1000,
            tile_n <= 255,
            frame.data@ == preview_bank(chr_rom@, blank_frame_data(), bank_base as int, tile_n as nat),
        decreases 255 - tile_n,
    {
        let ghost dt = frame.data@;
        let tile_x: usize = (tile_n % 20) * 10;
        let tile_y: usize = (tile_n / 20) * 10;
        let base: usize = bank_base + tile_n * 16;
        let mut y: usize = 0;
        while y < 8
            invariant
                chr_rom@.len() == 0x2000,
                frame_wf(frame),
                base == bank_base + tile_n * 16,
                base + 16 <= 0x2000,
                tile_x == (tile_n % 20) * 10,
                tile_y == (tile_n / 20) * 10,
                tile_n < 255,
                y <= 8,
                frame.data@ == preview_rows(
                    chr_rom@,
                    dt,
                    base as int,
                    tile_x as int,
                    tile_y as int,
                    y as nat,
                ),
            decreases 8 - y,
        {
            let low = chr_rom[base + y];
            let high = chr_rom[base + y + 8];
            let ghost dy = frame.data@;
            let mut xi: usize = 0;
            while xi < 8
                invariant
                    chr_rom@.len() == 0x2000,
                    frame_wf(frame),
                    base + 16 <= 0x2000,
                    tile_x <= 190,
                    tile_y <= 130,
                    y < 8,
                    low == chr_rom@[base + y],
                    high == chr_rom@[base + y + 8],
                    xi <= 8,
                    frame.data@ == preview_pixels(
                        chr_rom@,
                        dy,
                        base as int,
                        tile_x as int,
                        tile_y as int,
                        y as int,
                        xi as nat,
                    ),
                decreases 8 - xi,
            {
                let value = ((1u8 & (high >> (xi as u32))) << 1) | (1u8 & (low >> (xi as u32)));
                let rgb = if value == 0 {
                    system_palette_color(0x01)
                } else if value == 1 {
                    system_palette_color(0x23)
                } else if value == 2 {
                    system_palette_color(0x27)
                } else {
                    system_palette_color(0x30)
                };
                frame.set_pixel(tile_x + 7 - xi, tile_y + y, rgb);
                xi += 1;
                proof {
                    assert(frame.data@ == preview_pixels(
                        chr_rom@,
                        dy,
                        base as int,
                        tile_x as int,
                        tile_y as int,
                        y as int,
                        xi as nat,
                    ));
                }
            }
            y += 1;
            proof {
                assert(frame.data@ == preview_rows(
                    chr_rom@,
                    dt,
                    base as int,
                    tile_x as int,
                    tile_y as int,
                    y as nat,
                ));
            }
        }
        tile_n += 1;
        proof {
            assert(frame.data@ == preview_bank(
                chr_rom@,
                blank_frame_data(),
                bank_base as int,
                tile_n as nat,
            ));
        }
    }
    frame
}

} // verus!
