use vstd::prelude::*;

use crate::ppu::{Ppu, PpuView, CTRL_BG_BANK, CTRL_SPRITE_BANK, MASK_SHOW_SPRITES};

verus! {

/// Width of a frame in pixels.
pub const FRAME_WIDTH: usize = 256;

/// Height of a frame in pixels.
pub const FRAME_HEIGHT: usize = 240;

/// Attribute-table bit: flip the sprite horizontally.
pub const SPRITE_FLIP_H: u8 = 0x40;

/// Attribute-table bit: flip the sprite vertically.
pub const SPRITE_FLIP_V: u8 = 0x80;

/// A rendered frame: one system-palette index per pixel, row by row.
pub struct Frame {
    pub pixels: Vec<u8>,
}

/// The 2-bit colour of pixel `bit` (bit 7 is the leftmost) on row `row` of
/// the tile whose 16 bytes start at `base`; 0 where the pattern table ends.
pub open spec fn tile_color(chr: Seq<u8>, base: int, row: int, bit: int) -> u8 {
    if 0 <= base && base + 16 <= chr.len() {
        let lo = if chr[base + row] & (1u8 << bit as u8) != 0 { 1int } else { 0int };
        let hi = if chr[base + row + 8] & (1u8 << bit as u8) != 0 { 2int } else { 0int };
        (lo + hi) as u8
    } else {
        0
    }
}

/// Palette entry where the background palette of the tile at `row`,
/// `column` starts: two bits of its attribute byte pick one of four.
pub open spec fn palette_start(row: int, column: int, attribute: u8) -> int {
    let shift = ((row % 4) / 2) * 4 + ((column % 4) / 2) * 2;
    1 + ((attribute >> shift as u8) & 0b11) * 4
}

/// The colour of pixel (`px`, `py`) of the nametable at VRAM offset `nt`.
pub open spec fn nametable_color(s: PpuView, nt: int, px: int, py: int) -> u8 {
    let row = py / 8;
    let col = px / 8;
    let tile = s.vram[nt + row * 32 + col];
    let bank = if s.ctrl & CTRL_BG_BANK != 0 { 0x1000int } else { 0int };
    let c = tile_color(s.chr_rom, bank + tile * 16, py % 8, 7 - px % 8);
    let attr = s.vram[nt + 0x3c0 + (row / 4) * 8 + col / 4];
    if c == 0 {
        s.palette[0]
    } else {
        s.palette[palette_start(row, col, attr) + c - 1]
    }
}

/// The background at frame pixel (`fx`, `fy`): the selected nametable
/// scrolled by (x, y), the other one filling the gap that a horizontal
/// scroll (or, failing that, a vertical one) opens, and the backdrop
/// colour elsewhere.
pub open spec fn background_pixel(s: PpuView, fx: int, fy: int) -> u8 {
    let (main, other) = s.background_offsets();
    let sx = s.scroll_x as int;
    let sy = s.scroll_y as int;
    if fx + sx < 256 && fy + sy < 240 {
        nametable_color(s, main, fx + sx, fy + sy)
    } else if sx > 0 {
        if fx + sx >= 256 {
            nametable_color(s, other, fx + sx - 256, fy)
        } else {
            s.palette[0]
        }
    } else if sy > 0 {
        nametable_color(s, other, fx, fy + sy - 240)
    } else {
        s.palette[0]
    }
}

/// The colour that sprite `i` gives frame pixel (`fx`, `fy`), if it covers
/// it with a pixel that is not transparent. Positions wrap at 256.
pub open spec fn sprite_hit(s: PpuView, i: int, fx: int, fy: int) -> Option<u8> {
    let y = s.oam[4 * i];
    let tile = s.oam[4 * i + 1];
    let attr = s.oam[4 * i + 2];
    let x = s.oam[4 * i + 3];
    let dx = (fx - x + 256) % 256;
    let dy = (fy - y + 256) % 256;
    if dx < 8 && dy < 8 {
        let bit = if attr & SPRITE_FLIP_H != 0 { dx } else { 7 - dx };
        let row = if attr & SPRITE_FLIP_V != 0 { 7 - dy } else { dy };
        let bank = if s.ctrl & CTRL_SPRITE_BANK != 0 { 0x1000int } else { 0int };
        let c = tile_color(s.chr_rom, bank + tile * 16, row, bit);
        if c == 0 {
            None
        } else {
            Some(s.palette[0x11 + (attr % 4) * 4 + c - 1])
        }
    } else {
        None
    }
}

/// Among the first `n` sprites, the colour of the highest-numbered one
/// that shows at frame pixel (`fx`, `fy`): later sprites are drawn over
/// earlier ones.
pub open spec fn sprite_pixel(s: PpuView, fx: int, fy: int, n: int) -> Option<u8>
    decreases n,
{
    if n <= 0 {
        None
    } else {
        match sprite_hit(s, n - 1, fx, fy) {
            Some(c) => Some(c),
            None => sprite_pixel(s, fx, fy, n - 1),
        }
    }
}

/// Frame pixel (`fx`, `fy`): a visible sprite over the background.
pub open spec fn frame_pixel(s: PpuView, fx: int, fy: int) -> u8 {
    if s.mask & MASK_SHOW_SPRITES != 0 && sprite_pixel(s, fx, fy, 64) is Some {
        sprite_pixel(s, fx, fy, 64)->Some_0
    } else {
        background_pixel(s, fx, fy)
    }
}

/// The 2-bit colour of one tile pixel.
pub fn tile_color_at(chr: &Vec<u8>, base: usize, row: usize, bit: u8) -> (r: u8)
    requires
        row < 8,
        bit < 8,
    ensures
        r == tile_color(chr@, base as int, row as int, bit as int),
        r < 4,
{
    if base <= chr.len() && chr.len() - base >= 16 {
        let lo: u8 = if chr[base + row] & (1u8 << bit) != 0 {
            1
        } else {
            0
        };
        let hi: u8 = if chr[base + row + 8] & (1u8 << bit) != 0 {
            2
        } else {
            0
        };
        lo + hi
    } else {
        0
    }
}

/// Where the background palette of the tile at `row`, `column` starts.
pub fn palette_start_at(row: usize, column: usize, attribute: u8) -> (r: usize)
    ensures
        r == palette_start(row as int, column as int, attribute),
        1 <= r <= 13,
{
    let shift: u8 = (((row % 4) / 2) * 4 + ((column % 4) / 2) * 2) as u8;
    let sel: u8 = (attribute >> shift) & 0b11;
    assert(sel <= 3) by (bit_vector)
        requires
            sel == (attribute >> shift) & 0b11,
    ;
    1 + sel as usize * 4
}

/// The colour of pixel (`px`, `py`) of the nametable at VRAM offset `nt`.
pub fn background_color(ppu: &Ppu, nt: usize, px: usize, py: usize) -> (r: u8)
    requires
        ppu.wf(),
        nt == 0 || nt == 0x400,
        px < 256,
        py < 256,
    ensures
        r == nametable_color(ppu@, nt as int, px as int, py as int),
{
    let row = py / 8;
    let col = px / 8;
    let tile = ppu.vram[nt + row * 32 + col];
    let bank: usize = if ppu.ctrl_register.bits & CTRL_BG_BANK != 0 {
        0x1000
    } else {
        0
    };
    let c = tile_color_at(&ppu.chr_rom, bank + tile as usize * 16, py % 8, (7 - px % 8) as u8);
    let attr = ppu.vram[nt + 0x3c0 + (row / 4) * 8 + col / 4];
    if c == 0 {
        ppu.palette[0]
    } else {
        ppu.palette[palette_start_at(row, col, attr) + c as usize - 1]
    }
}

/// The background at frame pixel (`fx`, `fy`).
pub fn background_pixel_at(ppu: &Ppu, fx: usize, fy: usize) -> (r: u8)
    requires
        ppu.wf(),
        fx < FRAME_WIDTH,
        fy < FRAME_HEIGHT,
    ensures
        r == background_pixel(ppu@, fx as int, fy as int),
{
    let n: u8 = ppu.ctrl_register.bits % 4;
    let first = if ppu.mirroring {
        n % 2 == 0
    } else {
        n < 2
    };
    let (main, other): (usize, usize) = if first {
        (0, 0x400)
    } else {
        (0x400, 0)
    };
    let sx = ppu.scroll_register.x as usize;
    let sy = ppu.scroll_register.y as usize;
    if fx + sx < 256 && fy + sy < 240 {
        background_color(ppu, main, fx + sx, fy + sy)
    } else if sx > 0 {
        if fx + sx >= 256 {
            background_color(ppu, other, fx + sx - 256, fy)
        } else {
            ppu.palette[0]
        }
    } else if sy > 0 {
        background_color(ppu, other, fx, fy + sy - 240)
    } else {
        ppu.palette[0]
    }
}

/// The colour that sprite `i` gives frame pixel (`fx`, `fy`), if any.
pub fn sprite_hit_at(ppu: &Ppu, i: usize, fx: usize, fy: usize) -> (r: Option<u8>)
    requires
        ppu.wf(),
        i < 64,
        fx < FRAME_WIDTH,
        fy < FRAME_HEIGHT,
    ensures
        r == sprite_hit(ppu@, i as int, fx as int, fy as int),
{
    let y = ppu.oam[4 * i];
    let tile = ppu.oam[4 * i + 1];
    let attr = ppu.oam[4 * i + 2];
    let x = ppu.oam[4 * i + 3];
    let dx: usize = (fx + 256 - x as usize) % 256;
    let dy: usize = (fy + 256 - y as usize) % 256;
    if dx < 8 && dy < 8 {
        let bit: u8 = if attr & SPRITE_FLIP_H != 0 {
            dx as u8
        } else {
            (7 - dx) as u8
        };
        let row: usize = if attr & SPRITE_FLIP_V != 0 {
            7 - dy
        } else {
            dy
        };
        let bank: usize = if ppu.ctrl_register.bits & CTRL_SPRITE_BANK != 0 {
            0x1000
        } else {
            0
        };
        let c = tile_color_at(&ppu.chr_rom, bank + tile as usize * 16, row, bit);
        if c == 0 {
            None
        } else {
            Some(ppu.palette[0x11 + (attr % 4) as usize * 4 + c as usize - 1])
        }
    } else {
        None
    }
}

/// Frame pixel (`fx`, `fy`).
pub fn frame_pixel_at(ppu: &Ppu, fx: usize, fy: usize) -> (r: u8)
    requires
        ppu.wf(),
        fx < FRAME_WIDTH,
        fy < FRAME_HEIGHT,
    ensures
        r == frame_pixel(ppu@, fx as int, fy as int),
{
    if ppu.mask_register.bits & MASK_SHOW_SPRITES != 0 {
        let mut found: Option<u8> = None;
        let mut i: usize = 0;
        while i < 64
            invariant
                ppu.wf(),
                fx < FRAME_WIDTH,
                fy < FRAME_HEIGHT,
                i <= 64,
                found == sprite_pixel(ppu@, fx as int, fy as int, i as int),
            decreases 64 - i,
        {
            match sprite_hit_at(ppu, i, fx, fy) {
                Some(c) => {
                    found = Some(c);
                },
                None => {},
            }
            i = i + 1;
        }
        match found {
            Some(c) => {
                return c;
            },
            None => {},
        }
    }
    background_pixel_at(ppu, fx, fy)
}

/// Renders the frame that the PPU's memories describe.
pub fn draw(ppu: &Ppu) -> (r: Frame)
    requires
        ppu.wf(),
    ensures
        r.pixels@.len() == FRAME_WIDTH * FRAME_HEIGHT,
        forall|i: int|
            0 <= i < FRAME_WIDTH * FRAME_HEIGHT ==> #[trigger] r.pixels@[i] == frame_pixel(
                ppu@,
                i % 256,
                i / 256,
            ),
{
    let mut pixels: Vec<u8> = Vec::new();
    let mut i: usize = 0;
    while i < FRAME_WIDTH * FRAME_HEIGHT
        invariant
            ppu.wf(),
            i <= FRAME_WIDTH * FRAME_HEIGHT,
            pixels@.len() == i,
            forall|j: int| 0 <= j < i ==> #[trigger] pixels@[j] == frame_pixel(ppu@, j % 256, j / 256),
        decreases FRAME_WIDTH * FRAME_HEIGHT - i,
    {
        pixels.push(frame_pixel_at(ppu, i % 256, i / 256));
        i = i + 1;
    }
    Frame { pixels }
}

} // verus!
