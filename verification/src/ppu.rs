use vstd::prelude::*;
use crate::render::rows_outside_unchanged;
use crate::render::spec_bg_pixel_of;
use crate::render::spec_color_byte;
use crate::render::spec_line_start_window_line;
use crate::render::spec_rendered_row_of;
use crate::render::spec_sprite_size;
use crate::render::lemma_selected_sprites_depends;

verus! {

/// LCDC bit: LCD display enable.
pub const LCDC_LCD_ENABLE: u8 = 0x80;

/// LCDC bit: window tile map select.
pub const LCDC_WINDOW_SELECT: u8 = 0x40;

/// LCDC bit: window display enable.
pub const LCDC_WINDOW_ENABLE: u8 = 0x20;

/// LCDC bit: background and window tile data select.
pub const LCDC_TILE_DATA: u8 = 0x10;

/// LCDC bit: background tile map select.
pub const LCDC_BG_SELECT: u8 = 0x08;

/// LCDC bit: sprite size (8x16 when set).
pub const LCDC_SPRITE_SIZE: u8 = 0x04;

/// LCDC bit: sprite display enable.
pub const LCDC_SPRITE_ENABLE: u8 = 0x02;

/// LCDC bit: background and window enable.
pub const LCDC_BG_WIN_ENABLE: u8 = 0x01;

/// STAT bit: LYC = LY coincidence interrupt select.
pub const STAT_COINCIDENCE_INT: u8 = 0x40;

/// STAT bit: OAM search interrupt select.
pub const STAT_OAM_INT: u8 = 0x20;

/// STAT bit: VBlank interrupt select.
pub const STAT_VBLANK_INT: u8 = 0x10;

/// STAT bit: HBlank interrupt select.
pub const STAT_HBLANK_INT: u8 = 0x08;

/// STAT bit: LY = LYC coincidence flag.
pub const STAT_COINCIDENCE_FLAG: u8 = 0x04;

/// The four modes the PPU steps through on every scanline and frame.
#[derive(Clone, Copy, PartialEq, Eq, Structural, Debug)]
pub enum PpuModes {
    HBlank,
    VBlank,
    OamSearch,
    Drawing,
}

/// The mode tag as it appears in STAT's low two bits.
pub open spec fn spec_mode_bits(mode: PpuModes) -> u8 {
    match mode {
        PpuModes::HBlank => 0,
        PpuModes::VBlank => 1,
        PpuModes::OamSearch => 2,
        PpuModes::Drawing => 3,
    }
}

/// How many T-cycles the PPU spends in a mode before moving on.
pub open spec fn spec_mode_threshold(mode: PpuModes) -> u32 {
    match mode {
        PpuModes::HBlank => 204,
        PpuModes::VBlank => 456,
        PpuModes::OamSearch => 80,
        PpuModes::Drawing => 172,
    }
}

/// The Game Boy pixel processing unit.
pub struct Ppu {
    /// 8 KiB video RAM, mapped at 0x8000..0x9FFF.
    pub vram: Vec<u8>,
    /// 160-byte object attribute memory, mapped at 0xFE00..0xFE9F.
    pub oam: Vec<u8>,
    /// Current scanline, 0..153.
    pub ly: u8,
    /// LY compare register.
    pub lyc: u8,
    /// LCD control register.
    pub lcdc: u8,
    /// STAT interrupt-select and coincidence bits (bits 6..2 only; the
    /// mode lives in `current_mode` and is merged in on read).
    pub stat: u8,
    /// Scroll Y.
    pub scy: u8,
    /// Scroll X.
    pub scx: u8,
    /// Background palette.
    pub bgp: u8,
    /// Object palette 0.
    pub obp0: u8,
    /// Object palette 1.
    pub obp1: u8,
    /// Window X coordinate plus 7.
    pub wx: u8,
    /// Window Y coordinate.
    pub wy: u8,
    /// Internal window line counter; advances only on lines where the
    /// window was active, resets when LY returns to 0.
    pub window_line: u8,
    /// The mode the PPU is currently in.
    pub current_mode: PpuModes,
    /// T-cycles accumulated in the current mode.
    pub total_cycles: u32,
    /// RGBA back framebuffer, 160x144 pixels, written during rendering.
    pub back_framebuffer: Vec<u8>,
    /// RGBA front framebuffer, presented once per frame.
    pub front_framebuffer: Vec<u8>,
}

/// Interrupt-flag bits a mode transition requests: entering VBlank raises
/// the VBlank interrupt, and each mode with its STAT select bit set also
/// raises the LCD-STAT interrupt.
pub open spec fn spec_mode_irq(stat: u8, mode: PpuModes) -> u8 {
    match mode {
        PpuModes::HBlank => if stat & STAT_HBLANK_INT != 0 {
            2
        } else {
            0
        },
        PpuModes::VBlank => if stat & STAT_VBLANK_INT != 0 {
            3
        } else {
            1
        },
        PpuModes::OamSearch => if stat & STAT_OAM_INT != 0 {
            2
        } else {
            0
        },
        PpuModes::Drawing => 0,
    }
}

/// STAT after an LY/LYC comparison: the coincidence flag is set exactly
/// when the two are equal.
pub open spec fn spec_coincidence_stat(stat: u8, ly: u8, lyc: u8) -> u8 {
    if ly == lyc {
        stat | STAT_COINCIDENCE_FLAG
    } else {
        stat & 0xFB
    }
}

/// Interrupt-flag bits an LY/LYC comparison requests.
pub open spec fn spec_coincidence_irq(stat: u8, ly: u8, lyc: u8) -> u8 {
    if ly == lyc && stat & STAT_COINCIDENCE_INT != 0 {
        2
    } else {
        0
    }
}

/// The window overlaps some column of the current line, so rendering the
/// line advances the internal window line counter.
pub open spec fn spec_win_active(p: Ppu) -> bool {
    p.lcdc & LCDC_WINDOW_ENABLE != 0 && p.wy <= p.ly && p.wx <= 166
}

/// The window line counter after the current line has been rendered.
pub open spec fn spec_window_line_after(p: Ppu) -> u8 {
    if p.lcdc & LCDC_BG_WIN_ENABLE == 0 {
        p.window_line
    } else {
        let base: u8 = if p.ly == 0 {
            0
        } else {
            p.window_line
        };
        if spec_win_active(p) {
            base.wrapping_add(1)
        } else {
            base
        }
    }
}

/// This tick completes the frame: the PPU is in its last VBlank line and
/// the line's T-cycles run out, so LY rolls over to 0 and the back
/// framebuffer is presented.
pub open spec fn spec_rollover(p: Ppu) -> bool {
    &&& p.lcdc & LCDC_LCD_ENABLE != 0
    &&& p.current_mode is VBlank
    &&& p.ly == 153
    &&& p.total_cycles + 4 >= 456
}

/// One PPU machine-cycle step (4 T-cycles): how `post` and the interrupt
/// flags `if1` follow from `pre` and `if0`.
pub open spec fn spec_tick(pre: Ppu, post: Ppu, if0: u8, if1: u8) -> bool {
    if pre.lcdc & LCDC_LCD_ENABLE == 0 {
        post == pre && if1 == if0
    } else {
        let c = (pre.total_cycles + 4) as u32;
        match pre.current_mode {
            PpuModes::OamSearch => if c >= 80 {
                post == (Ppu {
                    total_cycles: (c - 80) as u32,
                    current_mode: PpuModes::Drawing,
                    ..pre
                }) && if1 == if0
            } else {
                post == (Ppu { total_cycles: c, ..pre }) && if1 == if0
            },
            PpuModes::Drawing => if c >= 172 {
                post == (Ppu {
                    total_cycles: (c - 172) as u32,
                    current_mode: PpuModes::HBlank,
                    back_framebuffer: post.back_framebuffer,
                    window_line: post.window_line,
                    ..pre
                }) && rows_outside_unchanged(
                    pre.back_framebuffer@,
                    post.back_framebuffer@,
                    pre.ly as int,
                ) && post.window_line == spec_window_line_after(pre) && if1 == if0 | spec_mode_irq(
                    pre.stat,
                    PpuModes::HBlank,
                ) && post.back_framebuffer@ == spec_rendered_row_of(pre.back_framebuffer@, pre)
                    && (pre.lcdc & LCDC_SPRITE_ENABLE == 0 && pre.lcdc & LCDC_BG_WIN_ENABLE != 0
                    ==> forall|x: int, j: int|
                    0 <= x < 160 && 0 <= j < 4 ==> post.back_framebuffer@[pre.ly * 640 + x * 4 + j]
                        == #[trigger] spec_color_byte(
                        spec_bg_pixel_of(pre, spec_line_start_window_line(pre), x as u8),
                        j,
                    ))
            } else {
                post == (Ppu { total_cycles: c, ..pre }) && if1 == if0
            },
            PpuModes::HBlank => if c >= 204 {
                let ly2 = (pre.ly + 1) as u8;
                let target = if ly2 == 144 {
                    PpuModes::VBlank
                } else {
                    PpuModes::OamSearch
                };
                post == (Ppu {
                    total_cycles: (c - 204) as u32,
                    ly: ly2,
                    current_mode: target,
                    stat: spec_coincidence_stat(pre.stat, ly2, pre.lyc),
                    ..pre
                }) && if1 == (if0 | spec_mode_irq(pre.stat, target)) | spec_coincidence_irq(
                    pre.stat,
                    ly2,
                    pre.lyc,
                )
            } else {
                post == (Ppu { total_cycles: c, ..pre }) && if1 == if0
            },
            PpuModes::VBlank => if c >= 456 {
                let ly2 = (pre.ly + 1) as u8;
                if ly2 == 154 {
                    post == (Ppu {
                        total_cycles: (c - 456) as u32,
                        ly: 0,
                        current_mode: PpuModes::OamSearch,
                        stat: spec_coincidence_stat(pre.stat, 0, pre.lyc),
                        front_framebuffer: post.front_framebuffer,
                        ..pre
                    }) && post.front_framebuffer@ == pre.back_framebuffer@ && if1 == (if0
                        | spec_mode_irq(pre.stat, PpuModes::OamSearch)) | spec_coincidence_irq(
                        pre.stat,
                        0,
                        pre.lyc,
                    )
                } else {
                    post == (Ppu {
                        total_cycles: (c - 456) as u32,
                        ly: ly2,
                        stat: spec_coincidence_stat(pre.stat, ly2, pre.lyc),
                        ..pre
                    }) && if1 == if0 | spec_coincidence_irq(pre.stat, ly2, pre.lyc)
                }
            } else {
                post == (Ppu { total_cycles: c, ..pre }) && if1 == if0
            },
        }
    }
}

/// Facts about the STAT bit masks used below, needed because bitwise
/// operators are otherwise opaque to the solver.
proof fn lemma_stat_mask_facts()
    by (bit_vector)
    ensures
        forall|s: u8| #[trigger] ((s & 0x7C) & 0x83) == 0,
        forall|s: u8| s & 0x83 == 0 ==> ((s | 0x04) & 0x83) == 0,
        forall|s: u8| s & 0x83 == 0 ==> ((s & 0xFB) & 0x83) == 0,
{
}

/// Or interrupt-request bits into the interrupt-flag register.
fn or_into(if_reg: &mut u8, bits: u8)
    ensures
        *final(if_reg) == *old(if_reg) | bits,
{
    *if_reg = *if_reg | bits;
}

impl Ppu {
    /// The memory part of the PPU invariant: region sizes, the LY range,
    /// and STAT holding only its writable bits.
    pub open spec fn wf_mem(self) -> bool {
        &&& self.vram@.len() == 0x2000
        &&& self.oam@.len() == 0xA0
        &&& self.back_framebuffer@.len() == 92160
        &&& self.front_framebuffer@.len() == 92160
        &&& self.stat & 0x83 == 0
        &&& self.ly <= 153
    }

    /// The PPU's structural invariant: the memory part, LY agreeing with
    /// the mode (VBlank covers lines 144..153), and the mode cycle
    /// counter below the current mode's threshold.
    pub open spec fn wf(self) -> bool {
        &&& self.wf_mem()
        &&& (self.current_mode is VBlank ==> 144 <= self.ly)
        &&& (!(self.current_mode is VBlank) ==> self.ly < 144)
        &&& self.total_cycles < spec_mode_threshold(self.current_mode)
    }

    /// The address ranges the bus routes to the PPU: VRAM, OAM and the
    /// LCD register file.
    pub open spec fn spec_owns_addr(addr: u16) -> bool {
        (0x8000 <= addr && addr < 0xA000) || (0xFE00 <= addr && addr < 0xFEA0) || (0xFF40 <= addr
            && addr <= 0xFF4B)
    }

    /// What a read of a PPU-owned address returns.  STAT reads merge the
    /// current mode into the low bits and bit 7 reads as one; the one
    /// register in the range this core does not model reads as 0xFF.
    pub open spec fn spec_read(self, addr: u16) -> u8 {
        if 0x8000 <= addr && addr < 0xA000 {
            self.vram@[addr - 0x8000]
        } else if 0xFE00 <= addr && addr < 0xFEA0 {
            self.oam@[addr - 0xFE00]
        } else if addr == 0xFF40 {
            self.lcdc
        } else if addr == 0xFF41 {
            (self.stat | spec_mode_bits(self.current_mode)) | 0x80
        } else if addr == 0xFF42 {
            self.scy
        } else if addr == 0xFF43 {
            self.scx
        } else if addr == 0xFF44 {
            self.ly
        } else if addr == 0xFF45 {
            self.lyc
        } else if addr == 0xFF47 {
            self.bgp
        } else if addr == 0xFF48 {
            self.obp0
        } else if addr == 0xFF49 {
            self.obp1
        } else if addr == 0xFF4A {
            self.wy
        } else if addr == 0xFF4B {
            self.wx
        } else {
            0xFF
        }
    }

    /// What a write to a PPU-owned address does.  VRAM and OAM take the
    /// byte; LCD registers take it with their write masks; LY and the
    /// register this core does not model ignore it.
    pub open spec fn spec_write(pre: Ppu, post: Ppu, addr: u16, value: u8) -> bool {
        if 0x8000 <= addr && addr < 0xA000 {
            post == (Ppu { vram: post.vram, ..pre }) && post.vram@ == pre.vram@.update(
                addr - 0x8000,
                value,
            )
        } else if 0xFE00 <= addr && addr < 0xFEA0 {
            post == (Ppu { oam: post.oam, ..pre }) && post.oam@ == pre.oam@.update(
                addr - 0xFE00,
                value,
            )
        } else if addr == 0xFF40 {
            post == (Ppu { lcdc: value, ..pre })
        } else if addr == 0xFF41 {
            post == (Ppu { stat: value & 0x7C, ..pre })
        } else if addr == 0xFF42 {
            post == (Ppu { scy: value, ..pre })
        } else if addr == 0xFF43 {
            post == (Ppu { scx: value, ..pre })
        } else if addr == 0xFF45 {
            post == (Ppu { lyc: value, ..pre })
        } else if addr == 0xFF47 {
            post == (Ppu { bgp: value, ..pre })
        } else if addr == 0xFF48 {
            post == (Ppu { obp0: value, ..pre })
        } else if addr == 0xFF49 {
            post == (Ppu { obp1: value, ..pre })
        } else if addr == 0xFF4A {
            post == (Ppu { wy: value, ..pre })
        } else if addr == 0xFF4B {
            post == (Ppu { wx: value, ..pre })
        } else {
            post == pre
        }
    }

    /// The mode tag for STAT's low two bits.
    pub fn mode_bits(mode: PpuModes) -> (r: u8)
        ensures
            r == spec_mode_bits(mode),
    {
        match mode {
            PpuModes::HBlank => 0,
            PpuModes::VBlank => 1,
            PpuModes::OamSearch => 2,
            PpuModes::Drawing => 3,
        }
    }

    /// Read a byte from a PPU-owned address.
    pub fn read_byte(&self, addr: u16) -> (r: u8)
        requires
            self.wf(),
            Ppu::spec_owns_addr(addr),
        ensures
            r == self.spec_read(addr),
    {
        if 0x8000 <= addr && addr < 0xA000 {
            self.vram[(addr - 0x8000) as usize]
        } else if 0xFE00 <= addr && addr < 0xFEA0 {
            self.oam[(addr - 0xFE00) as usize]
        } else if addr == 0xFF40 {
            self.lcdc
        } else if addr == 0xFF41 {
            (self.stat | Self::mode_bits(self.current_mode)) | 0x80
        } else if addr == 0xFF42 {
            self.scy
        } else if addr == 0xFF43 {
            self.scx
        } else if addr == 0xFF44 {
            self.ly
        } else if addr == 0xFF45 {
            self.lyc
        } else if addr == 0xFF47 {
            self.bgp
        } else if addr == 0xFF48 {
            self.obp0
        } else if addr == 0xFF49 {
            self.obp1
        } else if addr == 0xFF4A {
            self.wy
        } else if addr == 0xFF4B {
            self.wx
        } else {
            0xFF
        }
    }

    /// Write a byte to a PPU-owned address.  CPU writes to LY are
    /// ignored: LY never changes through this function.
    pub fn write_byte(&mut self, addr: u16, value: u8)
        requires
            old(self).wf(),
            Ppu::spec_owns_addr(addr),
        ensures
            final(self).wf(),
            Ppu::spec_write(*old(self), *final(self), addr, value),
            final(self).ly == old(self).ly,
    {
        proof {
            lemma_stat_mask_facts();
        }
        if 0x8000 <= addr && addr < 0xA000 {
            self.vram[(addr - 0x8000) as usize] = value;
        } else if 0xFE00 <= addr && addr < 0xFEA0 {
            self.oam[(addr - 0xFE00) as usize] = value;
        } else if addr == 0xFF40 {
            self.lcdc = value;
        } else if addr == 0xFF41 {
            self.stat = value & 0x7C;
        } else if addr == 0xFF42 {
            self.scy = value;
        } else if addr == 0xFF43 {
            self.scx = value;
        } else if addr == 0xFF45 {
            self.lyc = value;
        } else if addr == 0xFF47 {
            self.bgp = value;
        } else if addr == 0xFF48 {
            self.obp0 = value;
        } else if addr == 0xFF49 {
            self.obp1 = value;
        } else if addr == 0xFF4A {
            self.wy = value;
        } else if addr == 0xFF4B {
            self.wx = value;
        }
    }

    /// Create a PPU in its initial state: OAM search at line 0, LCD
    /// enabled, both framebuffers filled with shade 0.
    pub fn new() -> (r: Ppu)
        ensures
            r.wf(),
            r == (Ppu {
                vram: r.vram,
                oam: r.oam,
                ly: 0u8,
                lyc: 0u8,
                lcdc: 0x91u8,
                stat: 0u8,
                scy: 0u8,
                scx: 0u8,
                bgp: 0xFCu8,
                obp0: 0xFFu8,
                obp1: 0xFFu8,
                wx: 0u8,
                wy: 0u8,
                window_line: 0u8,
                current_mode: PpuModes::OamSearch,
                total_cycles: 0u32,
                back_framebuffer: r.back_framebuffer,
                front_framebuffer: r.front_framebuffer,
            }),
            forall|i: int| 0 <= i < 0x2000 ==> r.vram@[i] == 0,
            forall|i: int| 0 <= i < 0xA0 ==> r.oam@[i] == 0,
            forall|i: int|
                0 <= i < 92160 ==> r.back_framebuffer@[i] == crate::render::spec_color_byte(
                    crate::render::SHADE_COLOR_0,
                    i % 4,
                ),
            r.front_framebuffer@ == r.back_framebuffer@,
    {
        let vram: Vec<u8> = vec![0u8; 0x2000];
        let oam: Vec<u8> = vec![0u8; 0xA0];
        let mut back: Vec<u8> = Vec::new();
        for i in 0..23040usize
            invariant
                back@.len() == 4 * i,
                forall|k: int|
                    0 <= k < back@.len() ==> back@[k] == crate::render::spec_color_byte(
                        crate::render::SHADE_COLOR_0,
                        k % 4,
                    ),
        {
            back.push(0xFE);
            back.push(0xD0);
            back.push(0x18);
            back.push(0xFF);
            proof {
                assert((0xFED018FFu32 >> 24) & 0xFF == 0xFE && (0xFED018FFu32 >> 16) & 0xFF == 0xD0
                    && (0xFED018FFu32 >> 8) & 0xFF == 0x18 && 0xFED018FFu32 & 0xFF == 0xFF)
                    by (bit_vector);
                let l0 = 4 * (i as int);
                assert(l0 % 4 == 0 && (l0 + 1) % 4 == 1 && (l0 + 2) % 4 == 2 && (l0 + 3) % 4 == 3)
                    by (nonlinear_arith)
                    requires
                        l0 == 4 * (i as int) && i >= 0,
                ;
            }
        }
        let front: Vec<u8> = back.clone();
        proof {
            assert(front@ =~= back@);
            assert(0u8 & 0x83 == 0) by (bit_vector);
        }
        Ppu {
            vram,
            oam,
            ly: 0,
            lyc: 0,
            lcdc: 0x91,
            stat: 0,
            scy: 0,
            scx: 0,
            bgp: 0xFC,
            obp0: 0xFF,
            obp1: 0xFF,
            wx: 0,
            wy: 0,
            window_line: 0,
            current_mode: PpuModes::OamSearch,
            total_cycles: 0,
            back_framebuffer: back,
            front_framebuffer: front,
        }
    }

    /// Compare LY against LYC: maintain the STAT coincidence flag and
    /// request the STAT interrupt when selected.
    fn compare_lyc(&mut self, if_reg: &mut u8)
        requires
            old(self).wf_mem(),
        ensures
            final(self).wf_mem(),
            *final(self) == (Ppu {
                stat: spec_coincidence_stat(old(self).stat, old(self).ly, old(self).lyc),
                ..*old(self)
            }),
            *final(if_reg) == *old(if_reg) | spec_coincidence_irq(
                old(self).stat,
                old(self).ly,
                old(self).lyc,
            ),
    {
        proof {
            lemma_stat_mask_facts();
        }
        if self.ly == self.lyc {
            let bits: u8 = if self.stat & STAT_COINCIDENCE_INT != 0 {
                2
            } else {
                0
            };
            self.stat = self.stat | STAT_COINCIDENCE_FLAG;
            or_into(if_reg, bits);
        } else {
            self.stat = self.stat & 0xFB;
            or_into(if_reg, 0);
        }
    }

    /// Enter a new mode, performing the entry work: HBlank renders the
    /// scanline, VBlank requests its interrupt, and each mode with its
    /// STAT select bit set requests the STAT interrupt.
    fn change_mode(&mut self, mode: PpuModes, if_reg: &mut u8)
        requires
            old(self).wf_mem(),
            old(self).total_cycles < spec_mode_threshold(mode),
            mode is VBlank ==> 144 <= old(self).ly,
            !(mode is VBlank) ==> old(self).ly < 144,
        ensures
            final(self).wf(),
            *final(if_reg) == *old(if_reg) | spec_mode_irq(old(self).stat, mode),
            !(mode is HBlank) ==> *final(self) == (Ppu { current_mode: mode, ..*old(self) }),
            mode is HBlank ==> *final(self) == (Ppu {
                current_mode: mode,
                back_framebuffer: final(self).back_framebuffer,
                window_line: final(self).window_line,
                ..*old(self)
            }) && rows_outside_unchanged(
                old(self).back_framebuffer@,
                final(self).back_framebuffer@,
                old(self).ly as int,
            ) && final(self).window_line == spec_window_line_after(*old(self)) && final(self).back_framebuffer@ == spec_rendered_row_of(old(self).back_framebuffer@, *old(self))
                && (old(self).lcdc & LCDC_SPRITE_ENABLE == 0 && old(self).lcdc
                & LCDC_BG_WIN_ENABLE != 0 ==> forall|x: int, j: int|
                0 <= x < 160 && 0 <= j < 4 ==> final(self).back_framebuffer@[old(self).ly * 640 + x
                    * 4 + j] == #[trigger] spec_color_byte(
                    spec_bg_pixel_of(
                        *old(self),
                        spec_line_start_window_line(*old(self)),
                        x as u8,
                    ),
                    j,
                )),
    {
        match mode {
            PpuModes::HBlank => {
                self.current_mode = mode;
                let ghost mid = *self;
                self.render_scanline();
                proof {
                    if old(self).lcdc & LCDC_SPRITE_ENABLE != 0 {
                        lemma_selected_sprites_depends(
                            mid,
                            *old(self),
                            spec_sprite_size(old(self).lcdc),
                            40,
                        );
                    }
                    if old(self).lcdc & LCDC_SPRITE_ENABLE == 0 && old(self).lcdc
                        & LCDC_BG_WIN_ENABLE != 0 {
                        assert forall|x: int, j: int| 0 <= x < 160 && 0 <= j < 4 implies
                            self.back_framebuffer@[old(self).ly * 640 + x * 4 + j]
                            == #[trigger] spec_color_byte(
                            spec_bg_pixel_of(
                                *old(self),
                                spec_line_start_window_line(*old(self)),
                                x as u8,
                            ),
                            j,
                        ) by {
                            assert(self.back_framebuffer@[mid.ly * 640 + x * 4 + j]
                                == spec_color_byte(
                                spec_bg_pixel_of(mid, spec_line_start_window_line(mid), x as u8),
                                j,
                            ));
                            assert(spec_bg_pixel_of(mid, spec_line_start_window_line(mid), x as u8)
                                == spec_bg_pixel_of(
                                *old(self),
                                spec_line_start_window_line(*old(self)),
                                x as u8,
                            ));
                        }
                    }
                }
                let bits: u8 = if self.stat & STAT_HBLANK_INT != 0 {
                    2
                } else {
                    0
                };
                or_into(if_reg, bits);
            },
            PpuModes::VBlank => {
                self.current_mode = mode;
                let bits: u8 = if self.stat & STAT_VBLANK_INT != 0 {
                    3
                } else {
                    1
                };
                or_into(if_reg, bits);
            },
            PpuModes::OamSearch => {
                self.current_mode = mode;
                let bits: u8 = if self.stat & STAT_OAM_INT != 0 {
                    2
                } else {
                    0
                };
                or_into(if_reg, bits);
            },
            PpuModes::Drawing => {
                self.current_mode = mode;
                or_into(if_reg, 0);
            },
        }
    }

    /// Advance the PPU by one machine cycle (4 T-cycles), requesting
    /// interrupts through `if_reg`.  While the LCD is disabled the PPU is
    /// frozen: nothing changes at all.
    pub fn tick(&mut self, if_reg: &mut u8)
        requires
            old(self).wf(),
        ensures
            final(self).wf(),
            spec_tick(*old(self), *final(self), *old(if_reg), *final(if_reg)),
            old(self).lcdc & LCDC_LCD_ENABLE == 0 ==> *final(self) == *old(self) && *final(if_reg)
                == *old(if_reg),
            !spec_rollover(*old(self)) ==> final(self).front_framebuffer@ == old(self).front_framebuffer@,
            spec_rollover(*old(self)) ==> final(self).front_framebuffer@ == old(self).back_framebuffer@
                && final(self).back_framebuffer@ == old(self).back_framebuffer@
                && final(self).ly == 0,
            final(self).vram@ == old(self).vram@,
            final(self).oam@ == old(self).oam@,
            final(self).lcdc == old(self).lcdc && final(self).scy == old(self).scy
                && final(self).scx == old(self).scx && final(self).bgp == old(self).bgp
                && final(self).obp0 == old(self).obp0 && final(self).obp1 == old(self).obp1
                && final(self).wx == old(self).wx && final(self).wy == old(self).wy
                && final(self).lyc == old(self).lyc,
            *final(if_reg) & *old(if_reg) == *old(if_reg),
    {
        proof {
            assert(forall|a: u8| #[trigger] (a & a) == a) by (bit_vector);
            assert(forall|a: u8| #[trigger] (a | 0) == a) by (bit_vector);
            assert(forall|a: u8, b: u8| ((#[trigger] (a | b)) & a) == a) by (bit_vector);
            assert(forall|a: u8, b: u8, c: u8| ((#[trigger] ((a | b) | c)) & a) == a)
                by (bit_vector);
        }
        if self.lcdc & LCDC_LCD_ENABLE == 0 {
            return ;
        }
        self.total_cycles = self.total_cycles + 4;
        match self.current_mode {
            PpuModes::OamSearch => {
                if self.total_cycles >= 80 {
                    self.total_cycles = self.total_cycles - 80;
                    self.change_mode(PpuModes::Drawing, if_reg);
                }
            },
            PpuModes::Drawing => {
                if self.total_cycles >= 172 {
                    self.total_cycles = self.total_cycles - 172;
                    let ghost mid = *self;
                    self.change_mode(PpuModes::HBlank, if_reg);
                    proof {
                        if old(self).lcdc & LCDC_SPRITE_ENABLE != 0 {
                            lemma_selected_sprites_depends(
                                mid,
                                *old(self),
                                spec_sprite_size(old(self).lcdc),
                                40,
                            );
                        }
                        if old(self).lcdc & LCDC_SPRITE_ENABLE == 0 && old(self).lcdc
                            & LCDC_BG_WIN_ENABLE != 0 {
                            assert forall|x: int, j: int| 0 <= x < 160 && 0 <= j < 4 implies
                                self.back_framebuffer@[old(self).ly * 640 + x * 4 + j]
                                == #[trigger] spec_color_byte(
                                spec_bg_pixel_of(
                                    *old(self),
                                    spec_line_start_window_line(*old(self)),
                                    x as u8,
                                ),
                                j,
                            ) by {
                                assert(self.back_framebuffer@[mid.ly * 640 + x * 4 + j]
                                    == spec_color_byte(
                                    spec_bg_pixel_of(
                                        mid,
                                        spec_line_start_window_line(mid),
                                        x as u8,
                                    ),
                                    j,
                                ));
                                assert(spec_bg_pixel_of(
                                    mid,
                                    spec_line_start_window_line(mid),
                                    x as u8,
                                ) == spec_bg_pixel_of(
                                    *old(self),
                                    spec_line_start_window_line(*old(self)),
                                    x as u8,
                                ));
                            }
                        }
                    }
                }
            },
            PpuModes::HBlank => {
                if self.total_cycles >= 204 {
                    self.total_cycles = self.total_cycles - 204;
                    self.ly = self.ly + 1;
                    if self.ly == 144 {
                        self.change_mode(PpuModes::VBlank, if_reg);
                    } else {
                        self.change_mode(PpuModes::OamSearch, if_reg);
                    }
                    self.compare_lyc(if_reg);
                }
            },
            PpuModes::VBlank => {
                if self.total_cycles >= 456 {
                    self.total_cycles = self.total_cycles - 456;
                    self.ly = self.ly + 1;
                    if self.ly == 154 {
                        let copied: Vec<u8> = self.back_framebuffer.clone();
                        proof {
                            assert(copied@ =~= old(self).back_framebuffer@);
                        }
                        self.front_framebuffer = copied;
                        self.ly = 0;
                        self.change_mode(PpuModes::OamSearch, if_reg);
                    }
                    self.compare_lyc(if_reg);
                }
            },
        }
    }
}

} // verus!
