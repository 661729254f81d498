use vstd::prelude::*;
use crate::mmu::Memory;

verus! {

/// Current scanline (LY), read-only.
pub const CURR_SCANLINE_LOC: u16 = 0xFF44;
/// Scanline compared against LY (LYC).
pub const COMPARE_LOC: u16 = 0xFF45;
/// LCD status (STAT); bits 0 to 2 are read-only.
pub const LCD_STATUS_LOC: u16 = 0xFF41;
/// LCD control (LCDC).
pub const LCD_CONTROL_LOC: u16 = 0xFF40;
pub const SCROLL_Y_LOC: u16 = 0xFF42;
pub const SCROLL_X_LOC: u16 = 0xFF43;
pub const WINDOW_Y_LOC: u16 = 0xFF4A;
pub const WINDOW_X_LOC: u16 = 0xFF4B;
/// Background palette.
pub const BGP_LOC: u16 = 0xFF47;
/// Object palette 0.
pub const OBP1_LOC: u16 = 0xFF48;
/// Object palette 1.
pub const OBP2_LOC: u16 = 0xFF49;
/// Source high byte of an OAM DMA transfer.
pub const DMA_TRANSFER_LOC: u16 = 0xFF46;

pub const VRAM_START: u16 = 0x8000;
pub const VRAM_END: u16 = 0x9FFF;
pub const OAM_START: u16 = 0xFE00;
pub const OAM_END: u16 = 0xFE9F;

pub const SPRITE_TABLE_SIZE: usize = 0xA0;
pub const VRAM_SIZE: usize = 0x2000;
pub const SCREEN_WIDTH: usize = 160;
pub const SCREEN_HEIGHT: usize = 144;
/// T-states per scanline.
pub const LINE_DOTS: u32 = 456;
/// Scanlines per frame, VBlank included.
pub const LINES: u8 = 154;
/// T-states per frame.
pub const FRAME_DOTS: u32 = 70224;
/// Dot at which OAM scan ends and drawing starts.
pub const OAM_PERIOD: u32 = 80;
/// Dot at which drawing ends and HBlank starts.
pub const DRAW_PERIOD: u32 = 252;

/// One RGBA output pixel.
#[derive(Clone, Copy, PartialEq, Eq, Structural, Debug)]
pub struct ColorPixel {
    pub r: u8,
    pub g: u8,
    pub b: u8,
    pub a: u8,
}

impl Default for ColorPixel {
    fn default() -> (r: Self)
        ensures
            r == (ColorPixel { r: 0, g: 0, b: 0, a: 0 }),
    {
        ColorPixel { r: 0, g: 0, b: 0, a: 0 }
    }
}

/// The four shades of the display, lightest first.
pub open spec fn shade_color(shade: u8) -> ColorPixel {
    if shade == 0 {
        ColorPixel { r: 0xD0, g: 0xD0, b: 0x58, a: 0xFF }
    } else if shade == 1 {
        ColorPixel { r: 0xA0, g: 0xA8, b: 0x40, a: 0xFF }
    } else if shade == 2 {
        ColorPixel { r: 0x70, g: 0x80, b: 0x28, a: 0xFF }
    } else {
        ColorPixel { r: 0x40, g: 0x50, b: 0x10, a: 0xFF }
    }
}

fn shade_color_exec(shade: u8) -> (r: ColorPixel)
    ensures
        r == shade_color(shade),
{
    if shade == 0 {
        ColorPixel { r: 0xD0, g: 0xD0, b: 0x58, a: 0xFF }
    } else if shade == 1 {
        ColorPixel { r: 0xA0, g: 0xA8, b: 0x40, a: 0xFF }
    } else if shade == 2 {
        ColorPixel { r: 0x70, g: 0x80, b: 0x28, a: 0xFF }
    } else {
        ColorPixel { r: 0x40, g: 0x50, b: 0x10, a: 0xFF }
    }
}

/// The 2-bit colour index of column `col` (0 is leftmost) in a tile row
/// given by its two planes.
pub open spec fn tile_pixel(lo: u8, hi: u8, col: u8) -> u8 {
    (((hi >> ((7 - col) as u8)) & 1) << 1u8) | ((lo >> ((7 - col) as u8)) & 1)
}

/// The shade a palette maps a colour index to.
pub open spec fn palette_shade(palette: u8, index: u8) -> u8 {
    (palette >> ((2 * index) as u8)) & 3
}

proof fn lemma_tile_pixel_small(lo: u8, hi: u8, s: u8)
    by (bit_vector)
    ensures
        ((((hi >> s) & 1) << 1u8) | ((lo >> s) & 1)) <= 3,
{
}

/// The picture unit's modes.
#[derive(Clone, Copy, PartialEq, Eq, Structural, Debug)]
pub enum Mode {
    HBlank,
    VBlank,
    OAMScan,
    Draw,
}

/// The mode at dot `d` of scanline `ly`.
pub open spec fn mode_at(ly: u8, d: u32) -> Mode {
    if ly >= 144 {
        Mode::VBlank
    } else if d < OAM_PERIOD {
        Mode::OAMScan
    } else if d < DRAW_PERIOD {
        Mode::Draw
    } else {
        Mode::HBlank
    }
}

/// The mode's number in STAT bits 0 and 1.
pub open spec fn mode_bits(m: Mode) -> u8 {
    match m {
        Mode::HBlank => 0,
        Mode::VBlank => 1,
        Mode::OAMScan => 2,
        Mode::Draw => 3,
    }
}

/// Whether STAT enables the LCD interrupt on entering the mode.
pub open spec fn stat_source(stat: u8, m: Mode) -> bool {
    match m {
        Mode::HBlank => stat & 0x08 != 0,
        Mode::VBlank => stat & 0x10 != 0,
        Mode::OAMScan => stat & 0x20 != 0,
        Mode::Draw => false,
    }
}

/// The picture unit: video RAM, sprite table, registers, the scanline
/// state machine and the frame it draws.
pub struct GPU {
    pub vram: Vec<u8>,
    pub sprite_ram: Vec<u8>,
    /// LY.
    pub current_scanline: u8,
    /// LYC.
    pub compare: u8,
    pub lcd_status: u8,
    pub lcd_control: u8,
    pub scroll_y: u8,
    pub scroll_x: u8,
    pub window_y: u8,
    pub window_x: u8,
    pub bg_palatte: u8,
    pub obj_palette0: u8,
    pub obj_palette1: u8,
    /// Source high byte of the last OAM DMA transfer.
    pub dma_transfer: u8,
    pub mode: Mode,
    /// Dot counter within the current scanline.
    pub ticks_on_line: u32,
    /// The frame, row after row, 160 pixels each.
    pub inner_ray: Vec<ColorPixel>,
}

impl GPU {
    /// Position within the frame, in T-states.
    pub open spec fn frame_pos(&self) -> int {
        self.current_scanline as int * LINE_DOTS as int + self.ticks_on_line as int
    }

    pub open spec fn lcd_on(&self) -> bool {
        self.lcd_control & 0x80 != 0
    }

    /// The background or window colour index at column `x` of scanline
    /// `ly`; 0 while the background is off.
    pub open spec fn bg_index_spec(&self, ly: int, x: int) -> u8 {
        let lcdc = self.lcd_control;
        if lcdc & 1 == 0 {
            0
        } else {
            let win = lcdc & 0x20 != 0 && ly >= self.window_y && x + 7 >= self.window_x;
            let map: int = if win {
                if lcdc & 0x40 != 0 {
                    0x1C00
                } else {
                    0x1800
                }
            } else if lcdc & 0x08 != 0 {
                0x1C00
            } else {
                0x1800
            };
            let px: int = if win {
                x + 7 - self.window_x
            } else {
                (x + self.scroll_x) % 256
            };
            let py: int = if win {
                ly - self.window_y
            } else {
                (ly + self.scroll_y) % 256
            };
            let id = self.vram@[map + (py / 8) * 32 + px / 8];
            let tile: int = if lcdc & 0x10 != 0 {
                id as int * 16
            } else {
                0x800 + ((id as int + 128) % 256) * 16
            };
            let lo = self.vram@[tile + (py % 8) * 2];
            let hi = self.vram@[tile + (py % 8) * 2 + 1];
            tile_pixel(lo, hi, (px % 8) as u8)
        }
    }

    /// The background or window colour at column `x` of scanline `ly`: the
    /// lightest shade while the background is off.
    pub open spec fn bg_color_spec(&self, ly: int, x: int) -> ColorPixel {
        if self.lcd_control & 1 == 0 {
            shade_color(0)
        } else {
            shade_color(palette_shade(self.bg_palatte, self.bg_index_spec(ly, x)))
        }
    }

    /// Byte `k` of sprite `i` in the sprite table: Y, X, tile, attributes.
    pub open spec fn oam(&self, i: int, k: int) -> u8 {
        self.sprite_ram@[4 * i + k]
    }

    /// Sprite height: 16 when LCDC bit 2 is set, else 8.
    pub open spec fn sprite_height(&self) -> int {
        if self.lcd_control & 4 != 0 {
            16
        } else {
            8
        }
    }

    /// Whether sprite `i` covers scanline `ly`: `ly` in `[Y-16, Y-16+H)`.
    pub open spec fn on_line(&self, i: int, ly: int) -> bool {
        self.oam(i, 0) <= ly + 16 < self.oam(i, 0) + self.sprite_height()
    }

    /// The first ten sprites among the first `n` of the table that cover
    /// scanline `ly`, in table order.
    pub open spec fn sel(&self, ly: int, n: nat) -> Seq<u8>
        decreases n,
    {
        if n == 0 {
            Seq::empty()
        } else {
            let s = self.sel(ly, (n - 1) as nat);
            if self.on_line(n - 1, ly) && s.len() < 10 {
                s.push((n - 1) as u8)
            } else {
                s
            }
        }
    }

    /// The colour index of sprite `i` at column `x` of scanline `ly`, with
    /// its flips applied; 0 (transparent) where it does not cover `x`.
    pub open spec fn sprite_index(&self, i: int, ly: int, x: int) -> u8 {
        let sx = self.oam(i, 1);
        if !(sx <= x + 8 < sx + 8) {
            0
        } else {
            let attrs = self.oam(i, 3);
            let h = self.sprite_height();
            let row0 = ly + 16 - self.oam(i, 0);
            let row = if attrs & 0x40 != 0 {
                h - 1 - row0
            } else {
                row0
            };
            let tile: int = if h == 16 {
                (self.oam(i, 2) & 0xFE) as int
            } else {
                self.oam(i, 2) as int
            };
            let col0 = x + 8 - sx;
            let col = if attrs & 0x20 != 0 {
                7 - col0
            } else {
                col0
            };
            let base = tile * 16 + row * 2;
            tile_pixel(self.vram@[base], self.vram@[base + 1], col as u8)
        }
    }

    /// Among the sprites `s`, the one that shows at column `x`: the lowest X
    /// among those with a non-transparent pixel there, the earlier in `s` on
    /// ties; -1 when there is none.
    pub open spec fn winner(&self, s: Seq<u8>, ly: int, x: int) -> int
        decreases s.len(),
    {
        if s.len() == 0 {
            -1
        } else {
            let w = self.winner(s.drop_last(), ly, x);
            let i = s.last() as int;
            if self.sprite_index(i, ly, x) != 0 && (w < 0 || self.oam(i, 1) < self.oam(w, 1)) {
                i
            } else {
                w
            }
        }
    }

    /// The pixel at column `x` of scanline `ly`: the winning sprite's colour
    /// through its palette (OBP1 when attribute bit 4 is set, else OBP0),
    /// unless there is none, sprites are off, or it sits behind a background
    /// colour other than 0 (attribute bit 7); the background otherwise.
    pub open spec fn pixel_spec(&self, ly: int, x: int) -> ColorPixel {
        let bg = self.bg_color_spec(ly, x);
        if self.lcd_control & 2 == 0 {
            bg
        } else {
            let w = self.winner(self.sel(ly, 40), ly, x);
            if w < 0 {
                bg
            } else {
                let attrs = self.oam(w, 3);
                if attrs & 0x80 != 0 && self.bg_index_spec(ly, x) != 0 {
                    bg
                } else {
                    let pal = if attrs & 0x10 != 0 {
                        self.obj_palette1
                    } else {
                        self.obj_palette0
                    };
                    shade_color(palette_shade(pal, self.sprite_index(w, ly, x)))
                }
            }
        }
    }

    /// Scanline `ly` as rendered from the current registers and video RAM.
    pub open spec fn row_spec(&self, ly: int) -> Seq<ColorPixel> {
        Seq::new(SCREEN_WIDTH as nat, |x: int| self.pixel_spec(ly, x))
    }

    /// The frame with row `ly` replaced by `row`.
    pub open spec fn with_row(frame: Seq<ColorPixel>, ly: int, row: Seq<ColorPixel>) -> Seq<
        ColorPixel,
    > {
        Seq::new(
            frame.len(),
            |i: int|
                if ly * 160 <= i < ly * 160 + 160 {
                    row[i - ly * 160]
                } else {
                    frame[i]
                },
        )
    }

    fn bg_index(&self, ly: u8, x: u8) -> (r: u8)
        requires
            self.inv(),
            ly < 144,
            x < 160,
        ensures
            r == self.bg_index_spec(ly as int, x as int),
            r <= 3,
    {
        let lcdc = self.lcd_control;
        if lcdc & 1 == 0 {
            return 0;
        }
        let win = lcdc & 0x20 != 0 && ly >= self.window_y && x as u32 + 7 >= self.window_x as u32;
        let map: usize = if win {
            if lcdc & 0x40 != 0 {
                0x1C00
            } else {
                0x1800
            }
        } else if lcdc & 0x08 != 0 {
            0x1C00
        } else {
            0x1800
        };
        let px: usize = if win {
            x as usize + 7 - self.window_x as usize
        } else {
            (x as usize + self.scroll_x as usize) % 256
        };
        let py: usize = if win {
            (ly - self.window_y) as usize
        } else {
            (ly as usize + self.scroll_y as usize) % 256
        };
        let id = self.vram[map + (py / 8) * 32 + px / 8];
        let tile: usize = if lcdc & 0x10 != 0 {
            id as usize * 16
        } else {
            0x800 + ((id as usize + 128) % 256) * 16
        };
        let lo = self.vram[tile + (py % 8) * 2];
        let hi = self.vram[tile + (py % 8) * 2 + 1];
        let col = (px % 8) as u8;
        let s = 7 - col;
        proof {
            lemma_tile_pixel_small(lo, hi, s);
        }
        (((hi >> s) & 1) << 1u8) | ((lo >> s) & 1)
    }

    /// The first ten sprites that cover scanline `ly`, in table order.
    fn select_sprites(&self, ly: u8) -> (r: Vec<u8>)
        requires
            self.inv(),
        ensures
            r@ == self.sel(ly as int, 40),
            r@.len() <= 10,
            forall|k: int| 0 <= k < r@.len() ==> r@[k] < 40,
    {
        let mut out: Vec<u8> = Vec::new();
        let h: u32 = if self.lcd_control & 4 != 0 {
            16
        } else {
            8
        };
        let mut i: u8 = 0;
        while i < 40
            invariant
                i <= 40,
                self.inv(),
                h == self.sprite_height(),
                out@ == self.sel(ly as int, i as nat),
                out@.len() <= 10,
                forall|k: int| 0 <= k < out@.len() ==> out@[k] < i,
            decreases 40 - i,
        {
            let y = self.sprite_ram[4 * i as usize] as u32;
            if y <= ly as u32 + 16 && (ly as u32) + 16 < y + h && out.len() < 10 {
                out.push(i);
            }
            i = i + 1;
        }
        out
    }

    /// The colour index of sprite `i` at column `x` of scanline `ly`.
    fn sprite_pixel_index(&self, i: u8, ly: u8, x: u8) -> (r: u8)
        requires
            self.inv(),
            i < 40,
            self.on_line(i as int, ly as int),
        ensures
            r == self.sprite_index(i as int, ly as int, x as int),
            r <= 3,
    {
        let b = 4 * i as usize;
        let sx = self.sprite_ram[b + 1] as u32;
        if !(sx <= x as u32 + 8 && (x as u32) + 8 < sx + 8) {
            return 0;
        }
        let attrs = self.sprite_ram[b + 3];
        let h: u32 = if self.lcd_control & 4 != 0 {
            16
        } else {
            8
        };
        let row0: u32 = ly as u32 + 16 - self.sprite_ram[b] as u32;
        let row: u32 = if attrs & 0x40 != 0 {
            h - 1 - row0
        } else {
            row0
        };
        let tile: u32 = if h == 16 {
            (self.sprite_ram[b + 2] & 0xFE) as u32
        } else {
            self.sprite_ram[b + 2] as u32
        };
        let col0: u32 = x as u32 + 8 - sx;
        let col: u32 = if attrs & 0x20 != 0 {
            7 - col0
        } else {
            col0
        };
        let base = (tile * 16 + row * 2) as usize;
        let lo = self.vram[base];
        let hi = self.vram[base + 1];
        let s = 7 - col as u8;
        proof {
            lemma_tile_pixel_small(lo, hi, s);
        }
        (((hi >> s) & 1) << 1u8) | ((lo >> s) & 1)
    }

    fn pixel(&self, ly: u8, x: u8, sel: &Vec<u8>) -> (r: ColorPixel)
        requires
            self.inv(),
            ly < 144,
            x < 160,
            sel@ == self.sel(ly as int, 40),
            forall|k: int| 0 <= k < sel@.len() ==> sel@[k] < 40,
        ensures
            r == self.pixel_spec(ly as int, x as int),
    {
        let bgi = self.bg_index(ly, x);
        let bg = if self.lcd_control & 1 == 0 {
            shade_color_exec(0)
        } else {
            shade_color_exec((self.bg_palatte >> (2 * bgi)) & 3)
        };
        if self.lcd_control & 2 == 0 {
            return bg;
        }
        proof {
            self.lemma_sel_on_line(ly as int, 40);
        }
        let mut best: i32 = -1;
        let mut k: usize = 0;
        while k < sel.len()
            invariant
                k <= sel@.len(),
                self.inv(),
                sel@ == self.sel(ly as int, 40),
                forall|j: int| 0 <= j < sel@.len() ==> sel@[j] < 40,
                forall|j: int| 0 <= j < sel@.len() ==> self.on_line(sel@[j] as int, ly as int),
                best == self.winner(sel@.subrange(0, k as int), ly as int, x as int),
                -1 <= best < 40,
                best >= 0 ==> self.on_line(best as int, ly as int),
            decreases sel@.len() - k,
        {
            let i = sel[k];
            let v = self.sprite_pixel_index(i, ly, x);
            assert(sel@.subrange(0, k + 1).drop_last() =~= sel@.subrange(0, k as int));
            if v != 0 && (best < 0 || self.sprite_ram[4 * i as usize + 1] < self.sprite_ram[4 * best as usize + 1]) {
                best = i as i32;
            }
            k = k + 1;
        }
        assert(sel@.subrange(0, sel@.len() as int) =~= sel@);
        if best < 0 {
            return bg;
        }
        let b = best as u8;
        let attrs = self.sprite_ram[4 * b as usize + 3];
        if attrs & 0x80 != 0 && bgi != 0 {
            return bg;
        }
        let pal = if attrs & 0x10 != 0 {
            self.obj_palette1
        } else {
            self.obj_palette0
        };
        let v = self.sprite_pixel_index(b, ly, x);
        shade_color_exec((pal >> (2 * v)) & 3)
    }

    /// Every sprite selected for a scanline covers it.
    proof fn lemma_sel_on_line(&self, ly: int, n: nat)
        requires
            n <= 40,
        ensures
            forall|j: int| 0 <= j < self.sel(ly, n).len() ==> self.on_line(self.sel(ly, n)[j] as int, ly),
            forall|j: int| 0 <= j < self.sel(ly, n).len() ==> self.sel(ly, n)[j] < n,
        decreases n,
    {
        if n > 0 {
            let m = (n - 1) as nat;
            self.lemma_sel_on_line(ly, m);
            let s = self.sel(ly, m);
            if self.on_line(m as int, ly) && s.len() < 10 {
                let t = s.push(m as u8);
                assert(t == self.sel(ly, n));
                assert(t[s.len() as int] as int == m);
                assert forall|j: int| 0 <= j < t.len() implies self.on_line(t[j] as int, ly) && t[j] < n by {
                    if j < s.len() {
                        assert(t[j] == s[j]);
                    }
                }
            } else {
                assert(s == self.sel(ly, n));
            }
        }
    }

    /// Renders scanline `ly`: background, window and sprites.
    fn render_tiles(&self, ly: u8) -> (r: Vec<ColorPixel>)
        requires
            self.inv(),
            ly < 144,
        ensures
            r@ == self.row_spec(ly as int),
    {
        let sel = self.select_sprites(ly);
        let mut row: Vec<ColorPixel> = Vec::with_capacity(SCREEN_WIDTH);
        let mut x: u8 = 0;
        while x < 160
            invariant
                x <= 160,
                self.inv(),
                ly < 144,
                sel@ == self.sel(ly as int, 40),
                forall|k: int| 0 <= k < sel@.len() ==> sel@[k] < 40,
                row@ == self.row_spec(ly as int).subrange(0, x as int),
            decreases 160 - x,
        {
            let p = self.pixel(ly, x, &sel);
            row.push(p);
            proof {
                assert(row@ =~= self.row_spec(ly as int).subrange(0, x + 1));
            }
            x = x + 1;
        }
        assert(row@ =~= self.row_spec(ly as int));
        row
    }

    /// Draws scanline `ly` into the frame.
    fn draw_scan_line(&mut self, ly: u8)
        requires
            old(self).inv(),
            ly < 144,
        ensures
            final(self).inv(),
            final(self).inner_ray@ == GPU::with_row(
                old(self).inner_ray@,
                ly as int,
                old(self).row_spec(ly as int),
            ),
            final(self).vram == old(self).vram,
            final(self).sprite_ram == old(self).sprite_ram,
            final(self).regs_equal(old(self)),
    {
        let row = self.render_tiles(ly);
        let base: usize = ly as usize * SCREEN_WIDTH;
        let ghost frame0 = self.inner_ray@;
        let mut x: usize = 0;
        while x < SCREEN_WIDTH
            invariant
                x <= 160,
                base == ly * 160,
                ly < 144,
                row@.len() == 160,
                self.inner_ray@.len() == frame0.len(),
                frame0.len() == 160 * 144,
                frame0 == old(self).inner_ray@,
                self.vram == old(self).vram,
                self.sprite_ram == old(self).sprite_ram,
                self.regs_equal(old(self)),
                old(self).inv(),
                forall|i: int|
                    0 <= i < frame0.len() ==> #[trigger] self.inner_ray@[i] == if base <= i < base
                        + x {
                        row@[i - base]
                    } else {
                        frame0[i]
                    },
            decreases 160 - x,
        {
            self.inner_ray[base + x] = row[x];
            x = x + 1;
        }
        assert(self.inner_ray@ =~= GPU::with_row(frame0, ly as int, old(self).row_spec(ly as int)));
    }

    /// Every register and the mode are those of `o`.
    pub open spec fn regs_equal(&self, o: &GPU) -> bool {
        &&& self.current_scanline == o.current_scanline
        &&& self.compare == o.compare
        &&& self.lcd_status == o.lcd_status
        &&& self.lcd_control == o.lcd_control
        &&& self.scroll_y == o.scroll_y
        &&& self.scroll_x == o.scroll_x
        &&& self.window_y == o.window_y
        &&& self.window_x == o.window_x
        &&& self.bg_palatte == o.bg_palatte
        &&& self.obj_palette0 == o.obj_palette0
        &&& self.obj_palette1 == o.obj_palette1
        &&& self.dma_transfer == o.dma_transfer
        &&& self.mode == o.mode
        &&& self.ticks_on_line == o.ticks_on_line
    }
}

/// Fills a frame of 160 x 144 pixels with `p`.
fn blank_frame(p: ColorPixel) -> (r: Vec<ColorPixel>)
    ensures
        r@ == Seq::new(160 * 144, |i: int| p),
{
    let mut v: Vec<ColorPixel> = Vec::with_capacity(SCREEN_WIDTH * SCREEN_HEIGHT);
    let mut i: usize = 0;
    while i < SCREEN_WIDTH * SCREEN_HEIGHT
        invariant
            i <= 160 * 144,
            v@ == Seq::new(i as nat, |j: int| p),
        decreases 160 * 144 - i,
    {
        v.push(p);
        i = i + 1;
    }
    v
}

impl Default for GPU {
    /// A switched-off picture unit with cleared memories.
    fn default() -> (r: Self)
        ensures
            r.inv(),
            r.current_scanline == 0,
            r.ticks_on_line == 0,
            r.mode == Mode::HBlank,
            r.lcd_control == 0,
            r.compare == 0 && r.scroll_x == 0 && r.scroll_y == 0,
            r.window_x == 0 && r.window_y == 0,
            r.vram@ == Seq::new(0x2000, |i: int| 0u8),
            r.sprite_ram@ == Seq::new(0xA0, |i: int| 0u8),
    {
        GPU {
            vram: crate::util::zeros(VRAM_SIZE),
            sprite_ram: crate::util::zeros(SPRITE_TABLE_SIZE),
            current_scanline: 0,
            compare: 0,
            lcd_status: 0,
            lcd_control: 0,
            scroll_y: 0,
            scroll_x: 0,
            window_y: 0,
            window_x: 0,
            bg_palatte: 0,
            obj_palette0: 0,
            obj_palette1: 0,
            dma_transfer: 0,
            mode: Mode::HBlank,
            ticks_on_line: 0,
            inner_ray: blank_frame(ColorPixel { r: 0, g: 0, b: 0, a: 0 }),
        }
    }
}

/// Whether the picture unit answers at `index`.
pub open spec fn gpu_owns(index: u16) -> bool {
    (VRAM_START <= index <= VRAM_END) || (OAM_START <= index <= OAM_END) || (0xFF40 <= index
        <= 0xFF4B)
}

impl Memory for GPU {
    open spec fn inv(&self) -> bool {
        &&& self.vram@.len() == VRAM_SIZE
        &&& self.sprite_ram@.len() == SPRITE_TABLE_SIZE
        &&& self.inner_ray@.len() == SCREEN_WIDTH * SCREEN_HEIGHT
        &&& self.current_scanline < LINES
        &&& self.ticks_on_line < LINE_DOTS
    }

    open spec fn owns(index: u16) -> bool {
        gpu_owns(index)
    }

    /// Video RAM reads 0xFF while drawing; the sprite table reads 0xFF during
    /// OAM scan and drawing.
    open spec fn read_at(&self, index: u16) -> u8 {
        if VRAM_START <= index <= VRAM_END {
            if self.mode == Mode::Draw {
                0xFF
            } else {
                self.vram@[index - VRAM_START]
            }
        } else if OAM_START <= index <= OAM_END {
            if self.mode == Mode::OAMScan || self.mode == Mode::Draw {
                0xFF
            } else {
                self.sprite_ram@[index - OAM_START]
            }
        } else if index == LCD_CONTROL_LOC {
            self.lcd_control
        } else if index == LCD_STATUS_LOC {
            self.lcd_status
        } else if index == SCROLL_Y_LOC {
            self.scroll_y
        } else if index == SCROLL_X_LOC {
            self.scroll_x
        } else if index == CURR_SCANLINE_LOC {
            self.current_scanline
        } else if index == COMPARE_LOC {
            self.compare
        } else if index == DMA_TRANSFER_LOC {
            self.dma_transfer
        } else if index == BGP_LOC {
            self.bg_palatte
        } else if index == OBP1_LOC {
            self.obj_palette0
        } else if index == OBP2_LOC {
            self.obj_palette1
        } else if index == WINDOW_Y_LOC {
            self.window_y
        } else {
            self.window_x
        }
    }

    /// Locked memories drop writes; STAT keeps its read-only bits; a write
    /// to LY resets it.
    open spec fn written(&self, after: &Self, index: u16, val: u8) -> bool {
        if VRAM_START <= index <= VRAM_END {
            &&& after.regs_equal(self)
            &&& after.sprite_ram == self.sprite_ram
            &&& after.inner_ray == self.inner_ray
            &&& after.vram@ == (if self.mode == Mode::Draw {
                self.vram@
            } else {
                self.vram@.update(index - VRAM_START, val)
            })
        } else if OAM_START <= index <= OAM_END {
            &&& after.regs_equal(self)
            &&& after.vram == self.vram
            &&& after.inner_ray == self.inner_ray
            &&& after.sprite_ram@ == (if self.mode == Mode::OAMScan || self.mode == Mode::Draw {
                self.sprite_ram@
            } else {
                self.sprite_ram@.update(index - OAM_START, val)
            })
        } else if index == LCD_CONTROL_LOC {
            *after == GPU { lcd_control: val, ..*self }
        } else if index == LCD_STATUS_LOC {
            *after == GPU { lcd_status: (val & 0xF8) | (self.lcd_status & 0x07), ..*self }
        } else if index == SCROLL_Y_LOC {
            *after == GPU { scroll_y: val, ..*self }
        } else if index == SCROLL_X_LOC {
            *after == GPU { scroll_x: val, ..*self }
        } else if index == CURR_SCANLINE_LOC {
            *after == GPU { current_scanline: 0, ..*self }
        } else if index == COMPARE_LOC {
            *after == GPU { compare: val, ..*self }
        } else if index == DMA_TRANSFER_LOC {
            *after == GPU { dma_transfer: val, ..*self }
        } else if index == BGP_LOC {
            *after == GPU { bg_palatte: val, ..*self }
        } else if index == OBP1_LOC {
            *after == GPU { obj_palette0: val, ..*self }
        } else if index == OBP2_LOC {
            *after == GPU { obj_palette1: val, ..*self }
        } else if index == WINDOW_Y_LOC {
            *after == GPU { window_y: val, ..*self }
        } else {
            *after == GPU { window_x: val, ..*self }
        }
    }

    fn handle_read(&self, index: u16) -> (r: u8) {
        if VRAM_START <= index && index <= VRAM_END {
            if self.mode == Mode::Draw {
                0xFF
            } else {
                self.vram[(index - VRAM_START) as usize]
            }
        } else if OAM_START <= index && index <= OAM_END {
            if self.mode == Mode::OAMScan || self.mode == Mode::Draw {
                0xFF
            } else {
                self.sprite_ram[(index - OAM_START) as usize]
            }
        } else if index == LCD_CONTROL_LOC {
            self.lcd_control
        } else if index == LCD_STATUS_LOC {
            self.lcd_status
        } else if index == SCROLL_Y_LOC {
            self.scroll_y
        } else if index == SCROLL_X_LOC {
            self.scroll_x
        } else if index == CURR_SCANLINE_LOC {
            self.current_scanline
        } else if index == COMPARE_LOC {
            self.compare
        } else if index == DMA_TRANSFER_LOC {
            self.dma_transfer
        } else if index == BGP_LOC {
            self.bg_palatte
        } else if index == OBP1_LOC {
            self.obj_palette0
        } else if index == OBP2_LOC {
            self.obj_palette1
        } else if index == WINDOW_Y_LOC {
            self.window_y
        } else {
            self.window_x
        }
    }

    fn handle_write(&mut self, index: u16, val: u8) {
        if VRAM_START <= index && index <= VRAM_END {
            if self.mode != Mode::Draw {
                self.vram[(index - VRAM_START) as usize] = val;
            }
        } else if OAM_START <= index && index <= OAM_END {
            if !(self.mode == Mode::OAMScan || self.mode == Mode::Draw) {
                self.sprite_ram[(index - OAM_START) as usize] = val;
            }
        } else if index == LCD_CONTROL_LOC {
            self.lcd_control = val;
        } else if index == LCD_STATUS_LOC {
            self.lcd_status = (val & 0xF8) | (self.lcd_status & 0x07);
        } else if index == SCROLL_Y_LOC {
            self.scroll_y = val;
        } else if index == SCROLL_X_LOC {
            self.scroll_x = val;
        } else if index == CURR_SCANLINE_LOC {
            self.current_scanline = 0;
        } else if index == COMPARE_LOC {
            self.compare = val;
        } else if index == DMA_TRANSFER_LOC {
            self.dma_transfer = val;
        } else if index == BGP_LOC {
            self.bg_palatte = val;
        } else if index == OBP1_LOC {
            self.obj_palette0 = val;
        } else if index == OBP2_LOC {
            self.obj_palette1 = val;
        } else if index == WINDOW_Y_LOC {
            self.window_y = val;
        } else {
            self.window_x = val;
        }
    }
}

impl GPU {
    /// Whether the advance by `ticks` starts a new scanline.
    pub open spec fn crosses_line(&self, ticks: u8) -> bool {
        self.ticks_on_line + ticks >= LINE_DOTS
    }

    /// The dot counter after advancing by `ticks`.
    pub open spec fn next_dot(&self, ticks: u8) -> u32 {
        if self.crosses_line(ticks) {
            (self.ticks_on_line + ticks - LINE_DOTS) as u32
        } else {
            (self.ticks_on_line + ticks) as u32
        }
    }

    /// The scanline after advancing by `ticks`.
    pub open spec fn next_line(&self, ticks: u8) -> u8 {
        if self.crosses_line(ticks) {
            if self.current_scanline + 1 == LINES {
                0
            } else {
                (self.current_scanline + 1) as u8
            }
        } else {
            self.current_scanline
        }
    }

    /// STAT after the advance: the new mode in bits 0-1, the LY == LYC
    /// coincidence in bit 2.
    pub open spec fn next_status(&self, ticks: u8) -> u8 {
        let ly = self.next_line(ticks);
        let m = mode_at(ly, self.next_dot(ticks));
        let s = (self.lcd_status & 0xFC) | mode_bits(m);
        if ly == self.compare {
            s | 4
        } else {
            s & 0xFB
        }
    }

    /// Whether the advance enters the drawing of a visible scanline, which
    /// is when that scanline is rendered.
    pub open spec fn renders(&self, ticks: u8) -> bool {
        &&& self.next_line(ticks) < 144
        &&& self.next_dot(ticks) >= OAM_PERIOD
        &&& (self.crosses_line(ticks) || self.ticks_on_line < OAM_PERIOD)
    }

    /// The interrupt request bits the advance raises: VBlank (bit 0) on
    /// reaching scanline 144, LCD (bit 1) on entering a mode whose STAT source
    /// is enabled or on reaching LY == LYC with bit 6 set.
    pub open spec fn raised(&self, ticks: u8) -> u8 {
        let ly = self.next_line(ticks);
        let m = mode_at(ly, self.next_dot(ticks));
        let stat = self.next_status(ticks);
        let vblank: u8 = if self.crosses_line(ticks) && ly == 144 {
            1
        } else {
            0
        };
        let lcd: u8 = if (m != self.mode && stat_source(stat, m)) || (self.crosses_line(ticks) && ly
            == self.compare && stat & 0x40 != 0) {
            2
        } else {
            0
        };
        vblank | lcd
    }

    /// The interrupt request bits an advance by `ticks` raises; none while
    /// the LCD is off.
    pub open spec fn irq(&self, ticks: u8) -> u8 {
        if self.lcd_on() {
            self.raised(ticks)
        } else {
            0
        }
    }

    /// Whether `after` is this picture unit advanced by `ticks` T-states.
    /// With the LCD off, LY, the dot counter and the mode are reset. With it
    /// on, the dot counter advances, a full line moves LY on (154 wraps to
    /// 0), mode and STAT follow, and entering the drawing of a visible line
    /// renders it.
    pub open spec fn stepped(&self, after: &GPU, ticks: u8) -> bool {
        &&& after.vram == self.vram
        &&& after.sprite_ram == self.sprite_ram
        &&& after.compare == self.compare
        &&& after.lcd_control == self.lcd_control
        &&& after.scroll_y == self.scroll_y
        &&& after.scroll_x == self.scroll_x
        &&& after.window_y == self.window_y
        &&& after.window_x == self.window_x
        &&& after.bg_palatte == self.bg_palatte
        &&& after.obj_palette0 == self.obj_palette0
        &&& after.obj_palette1 == self.obj_palette1
        &&& after.dma_transfer == self.dma_transfer
        &&& !self.lcd_on() ==> {
            &&& after.current_scanline == 0
            &&& after.ticks_on_line == 0
            &&& after.mode == Mode::HBlank
            &&& after.lcd_status == self.lcd_status & 0xFC
            &&& after.inner_ray == self.inner_ray
        }
        &&& self.lcd_on() ==> {
            &&& after.ticks_on_line == self.next_dot(ticks)
            &&& after.current_scanline == self.next_line(ticks)
            &&& after.mode == mode_at(self.next_line(ticks), self.next_dot(ticks))
            &&& after.lcd_status == self.next_status(ticks)
            &&& after.inner_ray@ == if self.renders(ticks) {
                GPU::with_row(
                    self.inner_ray@,
                    self.next_line(ticks) as int,
                    self.row_spec(self.next_line(ticks) as int),
                )
            } else {
                self.inner_ray@
            }
            &&& after.frame_pos() == (self.frame_pos() + ticks) % (FRAME_DOTS as int)
        }
    }

    /// Advances the scanline state machine by `ticks` T-states and returns
    /// the interrupt request bits raised. With the LCD off, LY, the dot
    /// counter and the mode are reset instead.
    pub fn update_graphics(&mut self, ticks: u8) -> (r: u8)
        requires
            old(self).inv(),
        ensures
            final(self).inv(),
            old(self).stepped(final(self), ticks),
            r == old(self).irq(ticks),
    {
        if self.lcd_control & 0x80 == 0 {
            self.current_scanline = 0;
            self.ticks_on_line = 0;
            self.mode = Mode::HBlank;
            self.lcd_status = self.lcd_status & 0xFC;
            return 0;
        }
        let old_mode = self.mode;
        let old_dot = self.ticks_on_line;
        let mut dot: u32 = self.ticks_on_line + ticks as u32;
        let mut ly: u8 = self.current_scanline;
        let crossed = dot >= LINE_DOTS;
        if crossed {
            dot = dot - LINE_DOTS;
            ly = if ly + 1 == LINES {
                0
            } else {
                ly + 1
            };
        }
        if ly < 144 && dot >= OAM_PERIOD && (crossed || old_dot < OAM_PERIOD) {
            self.draw_scan_line(ly);
        }
        let m = if ly >= 144 {
            Mode::VBlank
        } else if dot < OAM_PERIOD {
            Mode::OAMScan
        } else if dot < DRAW_PERIOD {
            Mode::Draw
        } else {
            Mode::HBlank
        };
        let bits: u8 = match m {
            Mode::HBlank => 0,
            Mode::VBlank => 1,
            Mode::OAMScan => 2,
            Mode::Draw => 3,
        };
        let s = (self.lcd_status & 0xFC) | bits;
        let stat = if ly == self.compare {
            s | 4
        } else {
            s & 0xFB
        };
        let source = match m {
            Mode::HBlank => stat & 0x08 != 0,
            Mode::VBlank => stat & 0x10 != 0,
            Mode::OAMScan => stat & 0x20 != 0,
            Mode::Draw => false,
        };
        let vblank: u8 = if crossed && ly == 144 {
            1
        } else {
            0
        };
        let lcd: u8 = if (m != old_mode && source) || (crossed && ly == self.compare && stat & 0x40
            != 0) {
            2
        } else {
            0
        };
        self.ticks_on_line = dot;
        self.current_scanline = ly;
        self.mode = m;
        self.lcd_status = stat;
        vblank | lcd
    }

    /// Stores a byte of an OAM DMA transfer: the transfer reaches the sprite
    /// table whatever the mode.
    pub fn oam_dma_write(&mut self, i: usize, val: u8)
        requires
            old(self).inv(),
            i < SPRITE_TABLE_SIZE,
        ensures
            final(self).inv(),
            final(self).sprite_ram@ == old(self).sprite_ram@.update(i as int, val),
            final(self).vram == old(self).vram,
            final(self).inner_ray == old(self).inner_ray,
            final(self).regs_equal(old(self)),
    {
        self.sprite_ram[i] = val;
    }
}

/// Position in the frame after advancing by each of `ts` in turn, from
/// position `p`, with the LCD on.
pub open spec fn pos_after(p: int, ts: Seq<u8>) -> int
    decreases ts.len(),
{
    if ts.len() == 0 {
        p
    } else {
        pos_after((p + ts[0]) % (FRAME_DOTS as int), ts.drop_first())
    }
}

/// How many of the advances in `ts`, from position `p`, bring LY back to 0.
pub open spec fn wraps(p: int, ts: Seq<u8>) -> int
    decreases ts.len(),
{
    if ts.len() == 0 {
        0
    } else {
        (if p + ts[0] >= FRAME_DOTS { 1int } else { 0int }) + wraps(
            (p + ts[0]) % (FRAME_DOTS as int),
            ts.drop_first(),
        )
    }
}

/// Sum of a sequence of advances.
pub open spec fn total(ts: Seq<u8>) -> int
    decreases ts.len(),
{
    if ts.len() == 0 {
        0
    } else {
        ts[0] + total(ts.drop_first())
    }
}

/// An advance that moves the frame position past its end is exactly one
/// that brings LY back to 0.
pub proof fn lemma_wrap_is_line_zero(g: GPU, ticks: u8)
    requires
        g.inv(),
        g.lcd_on(),
    ensures
        (g.next_line(ticks) == 0 && g.current_scanline != 0) <==> g.frame_pos() + ticks
            >= FRAME_DOTS,
        g.frame_pos() + ticks >= FRAME_DOTS ==> g.crosses_line(ticks),
{
}

/// Whatever the advances, the frame position ends at the start plus their
/// sum, modulo 70224, and LY returns to 0 once per 70224 T-states crossed:
/// over advances adding up to exactly one frame, the position comes back and
/// LY returns to 0 exactly once.
pub proof fn lemma_frame_cycle(p: int, ts: Seq<u8>)
    requires
        0 <= p < FRAME_DOTS,
    ensures
        pos_after(p, ts) == (p + total(ts)) % (FRAME_DOTS as int),
        wraps(p, ts) == (p + total(ts)) / (FRAME_DOTS as int),
        total(ts) == FRAME_DOTS ==> pos_after(p, ts) == p && wraps(p, ts) == 1,
    decreases ts.len(),
{
    if ts.len() > 0 {
        let q = (p + ts[0]) % (FRAME_DOTS as int);
        lemma_frame_cycle(q, ts.drop_first());
        let rest = total(ts.drop_first());
        let w = if p + ts[0] >= FRAME_DOTS { 1int } else { 0int };
        assert(p + ts[0] == w * 70224 + q);
        assert(rest >= 0) by {
            lemma_total_nonneg(ts.drop_first());
        }
        vstd::arithmetic::div_mod::lemma_fundamental_div_mod(q + rest, 70224);
        let k = (q + rest) / 70224;
        let m = (q + rest) % 70224;
        assert(p + total(ts) == (w + k) * 70224 + m) by (nonlinear_arith)
            requires
                p + ts[0] == w * 70224 + q,
                q + rest == k * 70224 + m,
                total(ts) == ts[0] + rest,
        ;
        vstd::arithmetic::div_mod::lemma_fundamental_div_mod_converse(
            p + total(ts),
            70224,
            w + k,
            m,
        );
    }
}

proof fn lemma_total_nonneg(ts: Seq<u8>)
    ensures
        total(ts) >= 0,
    decreases ts.len(),
{
    if ts.len() > 0 {
        lemma_total_nonneg(ts.drop_first());
    }
}

/// A run of the picture unit with the LCD on: `gs[i+1]` is `gs[i]`
/// advanced by `ts[i]` T-states.
pub open spec fn gpu_run(gs: Seq<GPU>, ts: Seq<u8>) -> bool
    decreases ts.len(),
{
    &&& gs.len() == ts.len() + 1
    &&& ts.len() > 0 ==> {
        &&& gs[0].inv()
        &&& gs[0].lcd_on()
        &&& gs[0].stepped(&gs[1], ts[0])
        &&& gpu_run(gs.drop_first(), ts.drop_first())
    }
}

/// How many advances of a run brought LY back to 0 from another line.
pub open spec fn line_wraps(gs: Seq<GPU>) -> int
    decreases gs.len(),
{
    if gs.len() < 2 {
        0
    } else {
        (if gs[1].current_scanline == 0 && gs[0].current_scanline != 0 {
            1int
        } else {
            0
        }) + line_wraps(gs.drop_first())
    }
}

/// Over any run with the LCD on, the frame position moves by the T-states
/// run, modulo 70224, and LY returns to 0 once per 70224 T-states crossed.
/// A run of exactly 70224 T-states from LY = 0 at dot 0 ends at LY = 0, dot
/// 0, with LY having returned to 0 exactly once.
pub proof fn lemma_frame_run(gs: Seq<GPU>, ts: Seq<u8>)
    requires
        gpu_run(gs, ts),
        gs[0].inv(),
    ensures
        gs.last().frame_pos() == (gs[0].frame_pos() + total(ts)) % (FRAME_DOTS as int),
        line_wraps(gs) == (gs[0].frame_pos() + total(ts)) / (FRAME_DOTS as int),
        total(ts) == FRAME_DOTS && gs[0].current_scanline == 0 && gs[0].ticks_on_line == 0 ==> {
            &&& gs.last().current_scanline == 0
            &&& gs.last().ticks_on_line == 0
            &&& line_wraps(gs) == 1
        },
    decreases ts.len(),
{
    lemma_frame_cycle(gs[0].frame_pos(), ts);
    lemma_run_positions(gs, ts);
    if total(ts) == FRAME_DOTS && gs[0].current_scanline == 0 && gs[0].ticks_on_line == 0 {
        assert(gs.last().frame_pos() == 0);
        lemma_run_inv(gs, ts);
    }
}

/// An advance with the LCD on keeps the picture unit well formed.
proof fn lemma_stepped_inv(g: GPU, a: GPU, ticks: u8)
    requires
        g.inv(),
        g.lcd_on(),
        g.stepped(&a, ticks),
    ensures
        a.inv(),
{
    if g.renders(ticks) {
        assert(a.inner_ray@.len() == g.inner_ray@.len());
    }
}

/// Every state of a run is well formed.
proof fn lemma_run_inv(gs: Seq<GPU>, ts: Seq<u8>)
    requires
        gpu_run(gs, ts),
        gs[0].inv(),
    ensures
        gs.last().inv(),
    decreases ts.len(),
{
    if ts.len() > 0 {
        assert(gs[0].stepped(&gs[1], ts[0]));
        lemma_stepped_inv(gs[0], gs[1], ts[0]);
        let gs2 = gs.drop_first();
        let ts2 = ts.drop_first();
        assert(gs2[0] == gs[1]);
        lemma_run_inv(gs2, ts2);
        assert(gs2.last() == gs.last());
    }
}

/// The positions of a run follow `pos_after`, and its returns of LY to 0
/// are the wraps of `wraps`.
proof fn lemma_run_positions(gs: Seq<GPU>, ts: Seq<u8>)
    requires
        gpu_run(gs, ts),
        gs[0].inv(),
    ensures
        gs.last().frame_pos() == pos_after(gs[0].frame_pos(), ts),
        line_wraps(gs) == wraps(gs[0].frame_pos(), ts),
    decreases ts.len(),
{
    if ts.len() > 0 {
        let g0 = gs[0];
        assert(g0.stepped(&gs[1], ts[0]));
        lemma_wrap_is_line_zero(g0, ts[0]);
        let gs2 = gs.drop_first();
        let ts2 = ts.drop_first();
        lemma_stepped_inv(g0, gs[1], ts[0]);
        assert(gs2[0] == gs[1]);
        lemma_run_positions(gs2, ts2);
        assert(gs2.last() == gs.last());
    }
}

} // verus!
