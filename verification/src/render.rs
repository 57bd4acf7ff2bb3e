use vstd::prelude::*;
use crate::ppu::Ppu;
use crate::ppu::LCDC_WINDOW_SELECT;
use crate::ppu::LCDC_WINDOW_ENABLE;
use crate::ppu::LCDC_TILE_DATA;
use crate::ppu::LCDC_BG_SELECT;
use crate::ppu::LCDC_SPRITE_SIZE;
use crate::ppu::LCDC_SPRITE_ENABLE;
use crate::ppu::LCDC_BG_WIN_ENABLE;
use crate::ppu::spec_window_line_after;

verus! {

/// RGBA value of shade 0 (lightest).
pub const SHADE_COLOR_0: u32 = 0xFED018FF;

/// RGBA value of shade 1.
pub const SHADE_COLOR_1: u32 = 0xD35600FF;

/// RGBA value of shade 2.
pub const SHADE_COLOR_2: u32 = 0x5E1210FF;

/// RGBA value of shade 3 (darkest).
pub const SHADE_COLOR_3: u32 = 0x0D0405FF;

/// The fixed RGBA palette, indexed by shade 0..3.
pub open spec fn spec_shade_rgba(shade: u8) -> u32 {
    if shade == 0 {
        SHADE_COLOR_0
    } else if shade == 1 {
        SHADE_COLOR_1
    } else if shade == 2 {
        SHADE_COLOR_2
    } else {
        SHADE_COLOR_3
    }
}

/// Byte `j` (0 = red, 3 = alpha) of an RGBA color, big-endian.
pub open spec fn spec_color_byte(color: u32, j: int) -> u8 {
    if j == 0 {
        ((color >> 24) & 0xFF) as u8
    } else if j == 1 {
        ((color >> 16) & 0xFF) as u8
    } else if j == 2 {
        ((color >> 8) & 0xFF) as u8
    } else {
        (color & 0xFF) as u8
    }
}

/// Outside the 640-byte row `row`, `post` agrees with `pre`.
pub open spec fn rows_outside_unchanged(pre: Seq<u8>, post: Seq<u8>, row: int) -> bool {
    &&& post.len() == pre.len()
    &&& forall|i: int|
        0 <= i < pre.len() && !(row * 640 <= i < row * 640 + 640) ==> post[i] == pre[i]
}

/// A sprite fetched from OAM, tagged with its OAM slot.
#[derive(Clone, Copy, PartialEq, Eq, Structural, Debug)]
pub struct SpriteEntry {
    /// The OAM slot (0..39) the sprite came from.
    pub oam_index: u8,
    /// Screen Y of the top row (OAM byte 0 minus 16).
    pub y: u8,
    /// Screen X of the left column (OAM byte 1 minus 8).
    pub x: u8,
    /// Tile number (bit 0 forced clear in 8x16 mode).
    pub tile: u8,
    /// Attribute flags: priority, Y-flip, X-flip, palette.
    pub flags: u8,
}

/// True when `a` must be painted before `b`: `a` has the larger X, or the
/// same X and the larger OAM slot.  Painting `b` afterwards lets `b`'s
/// opaque pixels cover `a`'s, so the lower X (and on ties the lower OAM
/// slot) wins on screen.
pub open spec fn paints_before(a: SpriteEntry, b: SpriteEntry) -> bool {
    a.x > b.x || (a.x == b.x && a.oam_index > b.oam_index)
}

/// The sequence is in painting order: larger X first, ties broken by
/// larger OAM slot first.
pub open spec fn draw_ordered(s: Seq<SpriteEntry>) -> bool {
    forall|i: int, j: int|
        0 <= i < j < s.len() ==> (#[trigger] s[j]).x <= (#[trigger] s[i]).x && (s[j].x == s[i].x
            ==> s[j].oam_index <= s[i].oam_index)
}

/// Among draw-ordered sprites, the one with the smaller X stands later in
/// the sequence, so it is painted later and its opaque pixels cover any
/// sprite with a larger X.
pub proof fn lemma_lower_x_painted_later(s: Seq<SpriteEntry>, i: int, j: int)
    requires
        draw_ordered(s),
        0 <= i < s.len(),
        0 <= j < s.len(),
        s[i].x < s[j].x,
    ensures
        j < i,
{
    if i < j {
        assert(s[j].x <= s[i].x);
    }
}

/// Among draw-ordered sprites with equal X, the one with the lower OAM
/// slot stands later in the sequence, so it is painted later and wins.
pub proof fn lemma_equal_x_lower_slot_painted_later(s: Seq<SpriteEntry>, i: int, j: int)
    requires
        draw_ordered(s),
        0 <= i < s.len(),
        0 <= j < s.len(),
        s[i].x == s[j].x,
        s[i].oam_index < s[j].oam_index,
    ensures
        j < i,
{
    if i < j {
        assert(s[j].oam_index <= s[i].oam_index);
    }
}

/// The sprite height selected by LCDC: 16 when SPRITE_SIZE is set,
/// else 8.
pub open spec fn spec_sprite_size(lcdc: u8) -> u8 {
    if lcdc & LCDC_SPRITE_SIZE != 0 {
        16
    } else {
        8
    }
}

/// The RGBA color stored at pixel (x, y) of a framebuffer.
pub open spec fn spec_row_pixel(buf: Seq<u8>, x: u8, y: u8) -> u32 {
    ((buf[y * 640 + x * 4] as u32) << 24) | ((buf[y * 640 + x * 4 + 1] as u32) << 16) | ((buf[y
        * 640 + x * 4 + 2] as u32) << 8) | (buf[y * 640 + x * 4 + 3] as u32)
}

/// The VRAM offset of the two bitplanes of the sprite's row on line
/// `ly`, honouring the Y-flip flag.
pub open spec fn spec_sprite_row_addr(e: SpriteEntry, size: u8, ly: u8) -> int {
    let dy = ly - e.y;
    let ty = if e.flags & 0x40 != 0 {
        size - (dy + 1)
    } else {
        dy
    };
    e.tile * 16 + ty * 2
}

/// Paint one column of a sprite onto the framebuffer: clip at the right
/// edge, honour X-flip, keep color index 0 transparent, pick the
/// palette from flag bit 4, and let a background-priority sprite draw
/// only over the shade-0 color.
pub open spec fn spec_paint_col(
    buf: Seq<u8>,
    vram: Seq<u8>,
    obp0: u8,
    obp1: u8,
    size: u8,
    ly: u8,
    e: SpriteEntry,
    xo: int,
) -> Seq<u8> {
    let ax = e.x.wrapping_add(xo as u8);
    if ax >= 160 {
        buf
    } else {
        let addr = spec_sprite_row_addr(e, size, ly);
        let lsb: u8 = if 0 <= addr && addr + 1 < vram.len() {
            vram[addr]
        } else {
            0
        };
        let msb: u8 = if 0 <= addr && addr + 1 < vram.len() {
            vram[addr + 1]
        } else {
            0
        };
        let bit: u8 = if e.flags & 0x20 != 0 {
            xo as u8
        } else {
            (7 - xo) as u8
        };
        let ci = spec_tile_pixel(lsb, msb, bit);
        if ci == 0 {
            buf
        } else {
            let pal = if e.flags & 0x10 != 0 {
                obp1
            } else {
                obp0
            };
            let colour = spec_shade_rgba(spec_palette_shade(pal, ci));
            if e.flags & 0x80 == 0 || spec_row_pixel(buf, ax, ly) == SHADE_COLOR_0 {
                let o = ly * 640 + ax * 4;
                buf.update(o, spec_color_byte(colour, 0)).update(
                    o + 1,
                    spec_color_byte(colour, 1),
                ).update(o + 2, spec_color_byte(colour, 2)).update(o + 3, spec_color_byte(colour, 3))
            } else {
                buf
            }
        }
    }
}

/// Paint the columns of a sprite from `xo` to the end.
pub open spec fn spec_paint_cols(
    buf: Seq<u8>,
    vram: Seq<u8>,
    obp0: u8,
    obp1: u8,
    size: u8,
    ly: u8,
    e: SpriteEntry,
    xo: int,
) -> Seq<u8>
    decreases 8 - xo,
{
    if xo < 0 || xo >= 8 {
        buf
    } else {
        spec_paint_cols(
            spec_paint_col(buf, vram, obp0, obp1, size, ly, e, xo),
            vram,
            obp0,
            obp1,
            size,
            ly,
            e,
            xo + 1,
        )
    }
}

/// Paint a sequence of sprites in order, each over the previous ones.
pub open spec fn spec_paint_sprites(
    buf: Seq<u8>,
    vram: Seq<u8>,
    obp0: u8,
    obp1: u8,
    size: u8,
    ly: u8,
    s: Seq<SpriteEntry>,
) -> Seq<u8>
    decreases s.len(),
{
    if s.len() == 0 {
        buf
    } else {
        spec_paint_sprites(
            spec_paint_cols(buf, vram, obp0, obp1, size, ly, s.first(), 0),
            vram,
            obp0,
            obp1,
            size,
            ly,
            s.drop_first(),
        )
    }
}

/// Insert a sprite into a painting-ordered sequence, after every sprite
/// that must be painted before it.
pub open spec fn spec_insert_painting(s: Seq<SpriteEntry>, e: SpriteEntry) -> Seq<SpriteEntry>
    decreases s.len(),
{
    if s.len() == 0 {
        seq![e]
    } else if paints_before(s.first(), e) {
        seq![s.first()] + spec_insert_painting(s.drop_first(), e)
    } else {
        seq![e] + s
    }
}

/// The painting order of a sequence of sprites: higher X first, ties
/// broken by higher OAM slot first.
pub open spec fn spec_painting_order(s: Seq<SpriteEntry>) -> Seq<SpriteEntry>
    decreases s.len(),
{
    if s.len() == 0 {
        Seq::empty()
    } else {
        spec_insert_painting(spec_painting_order(s.drop_last()), s.last())
    }
}

/// Inserting after exactly the leading sprites that paint before `e`
/// is insertion at that position.
proof fn lemma_insert_painting_at(s: Seq<SpriteEntry>, e: SpriteEntry, p: int)
    requires
        0 <= p <= s.len(),
        forall|i: int| 0 <= i < p ==> paints_before(#[trigger] s[i], e),
        p < s.len() ==> !paints_before(s[p], e),
    ensures
        spec_insert_painting(s, e) == s.insert(p, e),
    decreases s.len(),
{
    if s.len() == 0 {
        assert(s.insert(0, e) =~= seq![e]);
    } else if p == 0 {
        assert(!paints_before(s.first(), e));
        assert(s.insert(0, e) =~= seq![e] + s);
    } else {
        assert(paints_before(s[0], e));
        assert forall|i: int| 0 <= i < p - 1 implies paints_before(
            #[trigger] s.drop_first()[i],
            e,
        ) by {
            assert(s.drop_first()[i] == s[i + 1]);
        }
        assert(p - 1 < s.drop_first().len() ==> !paints_before(s.drop_first()[p - 1], e));
        lemma_insert_painting_at(s.drop_first(), e, p - 1);
        s.insert_ensures(p, e);
        s.drop_first().insert_ensures(p - 1, e);
        assert(seq![s[0]] + s.drop_first().insert(p - 1, e) =~= s.insert(p, e));
    }
}

/// Inserting into a sequence adds exactly one occurrence to its multiset.
proof fn lemma_seq_insert_multiset(s: Seq<SpriteEntry>, i: int, a: SpriteEntry)
    requires
        0 <= i <= s.len(),
    ensures
        s.insert(i, a).to_multiset() == s.to_multiset().insert(a),
{
    broadcast use vstd::seq_lib::group_to_multiset_ensures;

    let s0 = s.subrange(0, i);
    let s1 = s.subrange(i, s.len() as int);
    assert(s.insert(i, a) == s0.push(a) + s1);
    vstd::seq_lib::lemma_multiset_commutative(s0.push(a), s1);
    assert(s =~= s0 + s1);
    vstd::seq_lib::lemma_multiset_commutative(s0, s1);
    assert(s.insert(i, a).to_multiset() =~= s.to_multiset().insert(a));
}

/// Sort the visible sprites into painting order: descending X, with ties
/// broken by descending OAM slot.  The result holds exactly the sprites
/// given.
pub fn sort_by_draw_order(entries: Vec<SpriteEntry>) -> (out: Vec<SpriteEntry>)
    ensures
        draw_ordered(out@),
        out@.to_multiset() == entries@.to_multiset(),
        out@.len() == entries@.len(),
        out@ == spec_painting_order(entries@),
{
    let mut out: Vec<SpriteEntry> = Vec::new();
    proof {
        broadcast use vstd::seq_lib::group_to_multiset_ensures;

        assert(entries@.subrange(0, 0) =~= out@);
        assert(entries@.subrange(0, 0).to_multiset() =~= out@.to_multiset());
    }
    let n: usize = entries.len();
    for k in 0..n
        invariant
            n == entries@.len(),
            out@.len() == k,
            draw_ordered(out@),
            out@.to_multiset() == entries@.subrange(0, k as int).to_multiset(),
            out@ == spec_painting_order(entries@.subrange(0, k as int)),
    {
        let e: SpriteEntry = entries[k];
        let mut p: usize = 0;
        while p < out.len() && (out[p].x > e.x || (out[p].x == e.x && out[p].oam_index
            > e.oam_index))
            invariant
                p <= out@.len(),
                forall|i: int| 0 <= i < p ==> paints_before(#[trigger] out@[i], e),
            decreases out@.len() - p,
        {
            p = p + 1;
        }
        proof {
            broadcast use vstd::seq_lib::group_to_multiset_ensures;

            lemma_seq_insert_multiset(out@, p as int, e);
            out@.insert_ensures(p as int, e);
            assert(entries@.subrange(0, k as int).push(e) =~= entries@.subrange(0, k + 1));
            lemma_insert_painting_at(out@, e, p as int);
            assert(entries@.subrange(0, k + 1).drop_last() =~= entries@.subrange(0, k as int));
            assert(entries@.subrange(0, k + 1).last() == entries@[k as int]);
            let s2 = out@.insert(p as int, e);
            assert forall|i: int, j: int| 0 <= i < j < s2.len() implies (#[trigger] s2[j]).x <= (
            #[trigger] s2[i]).x && (s2[j].x == s2[i].x ==> s2[j].oam_index <= s2[i].oam_index) by {
                if j < p {
                    assert(s2[i] == out@[i] && s2[j] == out@[j]);
                } else if i > p {
                    assert(s2[i] == out@[i - 1] && s2[j] == out@[j - 1]);
                } else if i == p && j > p {
                    assert(s2[i] == e && s2[j] == out@[j - 1]);
                    assert(!paints_before(out@[j - 1], e));
                } else if j == p && i < p {
                    assert(s2[j] == e && s2[i] == out@[i]);
                    assert(paints_before(out@[i], e));
                } else if i < p && j > p {
                    assert(s2[i] == out@[i] && s2[j] == out@[j - 1]);
                    if (p as int) < out@.len() {
                        assert(!paints_before(out@[p as int], e));
                    }
                    assert(paints_before(out@[i], e));
                }
            }
        }
        out.insert(p, e);
    }
    proof {
        assert(entries@.subrange(0, n as int) =~= entries@);
        assert(spec_painting_order(entries@.subrange(0, n as int)) == spec_painting_order(
            entries@,
        ));
    }
    out
}

/// The two tile bitplanes combined into the 2-bit color index at `bit`.
pub open spec fn spec_tile_pixel(lsb: u8, msb: u8, bit: u8) -> u8 {
    (((msb >> bit) & 1) * 2 + ((lsb >> bit) & 1)) as u8
}

/// Extract the 2-bit color index of one pixel from a tile row.
pub fn tile_pixel(lsb: u8, msb: u8, bit: u8) -> (r: u8)
    requires
        bit < 8,
    ensures
        r == spec_tile_pixel(lsb, msb, bit),
        r < 4,
{
    proof {
        assert(((msb >> bit) & 1) * 2 + ((lsb >> bit) & 1) < 4) by (bit_vector);
    }
    ((msb >> bit) & 1) * 2 + ((lsb >> bit) & 1)
}

/// The shade (0..3) that palette byte `pal` assigns to color index `idx`.
pub open spec fn spec_palette_shade(pal: u8, idx: u8) -> u8 {
    (pal >> (idx * 2)) & 3
}

/// Look a color index up in a palette register.
pub fn palette_shade(pal: u8, idx: u8) -> (r: u8)
    requires
        idx < 4,
    ensures
        r == spec_palette_shade(pal, idx),
        r < 4,
{
    proof {
        assert((pal >> (idx * 2)) & 3 < 4) by (bit_vector);
    }
    (pal >> (idx * 2)) & 3
}

/// Map a shade to its fixed RGBA color.
pub fn shade_rgba(shade: u8) -> (r: u32)
    requires
        shade < 4,
    ensures
        r == spec_shade_rgba(shade),
{
    if shade == 0 {
        SHADE_COLOR_0
    } else if shade == 1 {
        SHADE_COLOR_1
    } else if shade == 2 {
        SHADE_COLOR_2
    } else {
        SHADE_COLOR_3
    }
}

/// The window line the current scanline starts from: the counter resets
/// when a new frame begins at LY 0.
pub open spec fn spec_line_start_window_line(p: Ppu) -> u8 {
    if p.ly == 0 {
        0
    } else {
        p.window_line
    }
}

/// The RGBA color the background/window pass writes at column `x` of
/// the line `ly`, following the tile-map walk of the hardware: map
/// coordinates from scroll (or from the window position and the window
/// line `wl`), the tile index from the selected 32x32 map, the row's
/// two bitplanes from the selected tile-data region, and the 2-bit
/// color pushed through the background palette.
#[verifier::opaque]
pub open spec fn spec_bg_pixel_color(
    vram: Seq<u8>,
    lcdc: u8,
    scx: u8,
    scy: u8,
    wx: u8,
    wy: u8,
    bgp: u8,
    ly: u8,
    wl: u8,
    x: u8,
) -> u32 {
    let in_win = lcdc & LCDC_WINDOW_ENABLE != 0 && wy <= ly && wx <= x + 7;
    let map_x: u8 = if in_win {
        (x + 7 - wx) as u8
    } else {
        x.wrapping_add(scx)
    };
    let map_y: u8 = if in_win {
        wl
    } else {
        ly.wrapping_add(scy)
    };
    let tile_map: u16 = if in_win {
        if lcdc & LCDC_WINDOW_SELECT != 0 {
            0x1C00
        } else {
            0x1800
        }
    } else {
        if lcdc & LCDC_BG_SELECT != 0 {
            0x1C00
        } else {
            0x1800
        }
    };
    let index_addr: int = tile_map + (map_y / 8) * 32 + (map_x / 8);
    let tile_number: u8 = vram[index_addr];
    let data_addr: int = if lcdc & LCDC_TILE_DATA != 0 {
        tile_number * 16 + (map_y % 8) * 2
    } else if tile_number >= 128 {
        tile_number * 16 + (map_y % 8) * 2
    } else {
        0x1000 + tile_number * 16 + (map_y % 8) * 2
    };
    let lsb: u8 = vram[data_addr];
    let msb: u8 = vram[data_addr + 1];
    let ci: u8 = spec_tile_pixel(lsb, msb, (7 - map_x % 8) as u8);
    spec_shade_rgba(spec_palette_shade(bgp, ci))
}

/// `spec_bg_pixel_color` applied to a PPU state's own registers.
pub open spec fn spec_bg_pixel_of(p: Ppu, wl: u8, x: u8) -> u32 {
    spec_bg_pixel_color(p.vram@, p.lcdc, p.scx, p.scy, p.wx, p.wy, p.bgp, p.ly, wl, x)
}

/// Paint the background/window colors of row `ly` from column `x` on.
pub open spec fn spec_paint_bg_cols(
    buf: Seq<u8>,
    vram: Seq<u8>,
    lcdc: u8,
    scx: u8,
    scy: u8,
    wx: u8,
    wy: u8,
    bgp: u8,
    ly: u8,
    wl: u8,
    x: int,
) -> Seq<u8>
    decreases 160 - x,
{
    if x < 0 || x >= 160 {
        buf
    } else {
        let colour = spec_bg_pixel_color(vram, lcdc, scx, scy, wx, wy, bgp, ly, wl, x as u8);
        let o = ly * 640 + x * 4;
        spec_paint_bg_cols(
            buf.update(o, spec_color_byte(colour, 0)).update(o + 1, spec_color_byte(colour, 1)).update(
                o + 2,
                spec_color_byte(colour, 2),
            ).update(o + 3, spec_color_byte(colour, 3)),
            vram,
            lcdc,
            scx,
            scy,
            wx,
            wy,
            bgp,
            ly,
            wl,
            x + 1,
        )
    }
}

/// The background/window pass of a PPU state: its registers applied to
/// the whole row, starting from the line's window line.
pub open spec fn spec_bg_row_of(buf: Seq<u8>, p: Ppu) -> Seq<u8> {
    if p.lcdc & LCDC_BG_WIN_ENABLE == 0 {
        buf
    } else {
        spec_paint_bg_cols(
            buf,
            p.vram@,
            p.lcdc,
            p.scx,
            p.scy,
            p.wx,
            p.wy,
            p.bgp,
            p.ly,
            spec_line_start_window_line(p),
            0,
        )
    }
}

/// The whole rendered scanline of a PPU state: the background/window
/// pass, then the selected sprites painted over it in painting order.
pub open spec fn spec_rendered_row_of(buf: Seq<u8>, p: Ppu) -> Seq<u8> {
    let mid = spec_bg_row_of(buf, p);
    if p.lcdc & LCDC_SPRITE_ENABLE == 0 {
        mid
    } else {
        spec_paint_sprites(
            mid,
            p.vram@,
            p.obp0,
            p.obp1,
            spec_sprite_size(p.lcdc),
            p.ly,
            spec_painting_order(p.spec_selected_sprites(spec_sprite_size(p.lcdc), 40)),
        )
    }
}

/// The OAM search depends only on OAM and the current line.
pub proof fn lemma_selected_sprites_depends(p1: Ppu, p2: Ppu, size: u8, i: int)
    requires
        p1.oam@ == p2.oam@,
        p1.ly == p2.ly,
    ensures
        p1.spec_selected_sprites(size, i) == p2.spec_selected_sprites(size, i),
    decreases i,
{
    if i > 0 {
        lemma_selected_sprites_depends(p1, p2, size, i - 1);
    }
}

impl Ppu {
    /// Write one RGBA pixel into the back framebuffer.
    pub fn draw_pixel(&mut self, x: u8, y: u8, colour: u32)
        requires
            old(self).wf(),
            x < 160,
            y < 144,
        ensures
            final(self).wf(),
            *final(self) == (Ppu {
                back_framebuffer: final(self).back_framebuffer,
                ..*old(self)
            }),
            final(self).back_framebuffer@.len() == old(self).back_framebuffer@.len(),
            forall|i: int|
                0 <= i < old(self).back_framebuffer@.len() && !(y * 640 + x * 4 <= i < y * 640 + x
                    * 4 + 4) ==> final(self).back_framebuffer@[i] == old(
                self,
            ).back_framebuffer@[i],
            forall|j: int|
                0 <= j < 4 ==> final(self).back_framebuffer@[y * 640 + x * 4 + j]
                    == spec_color_byte(colour, j),
    {
        let offset: usize = (y as usize) * 640 + (x as usize) * 4;
        proof {
            assert((colour >> 24) & 0xFF < 256 && (colour >> 16) & 0xFF < 256 && (colour >> 8)
                & 0xFF < 256 && colour & 0xFF < 256) by (bit_vector);
        }
        self.back_framebuffer[offset] = ((colour >> 24) & 0xFF) as u8;
        self.back_framebuffer[offset + 1] = ((colour >> 16) & 0xFF) as u8;
        self.back_framebuffer[offset + 2] = ((colour >> 8) & 0xFF) as u8;
        self.back_framebuffer[offset + 3] = (colour & 0xFF) as u8;
    }

    /// The RGBA color currently stored at a back-framebuffer pixel.
    pub open spec fn spec_pixel_at(self, x: u8, y: u8) -> u32 {
        spec_row_pixel(self.back_framebuffer@, x, y)
    }

    /// Render the background map (or the window map where it overlaps)
    /// into row `ly` of the back framebuffer, and advance the window
    /// line counter when the window was active on this line.
    #[verifier::rlimit(100)]
    pub fn render_background(&mut self)
        requires
            old(self).wf(),
            old(self).ly < 144,
        ensures
            final(self).wf(),
            *final(self) == (Ppu {
                back_framebuffer: final(self).back_framebuffer,
                window_line: final(self).window_line,
                ..*old(self)
            }),
            rows_outside_unchanged(
                old(self).back_framebuffer@,
                final(self).back_framebuffer@,
                old(self).ly as int,
            ),
            final(self).window_line == spec_window_line_after(*old(self)),
            old(self).lcdc & LCDC_BG_WIN_ENABLE == 0 ==> final(self).back_framebuffer@ == old(
                self,
            ).back_framebuffer@,
            old(self).lcdc & LCDC_BG_WIN_ENABLE != 0 ==> forall|x: int, j: int|
                0 <= x < 160 && 0 <= j < 4 ==> final(self).back_framebuffer@[old(self).ly * 640 + x
                    * 4 + j] == #[trigger] spec_color_byte(
                    spec_bg_pixel_of(
                        *old(self),
                        spec_line_start_window_line(*old(self)),
                        x as u8,
                    ),
                    j,
                ),
            final(self).back_framebuffer@ == spec_bg_row_of(old(self).back_framebuffer@, *old(self)),
    {
        if self.lcdc & LCDC_BG_WIN_ENABLE == 0 {
            return ;
        }
        if self.ly == 0 {
            self.window_line = 0;
        }
        let win_map: u16 = if self.lcdc & LCDC_WINDOW_SELECT != 0 {
            0x1C00
        } else {
            0x1800
        };
        let bgd_map: u16 = if self.lcdc & LCDC_BG_SELECT != 0 {
            0x1C00
        } else {
            0x1800
        };
        let unsigned_data: bool = self.lcdc & LCDC_TILE_DATA != 0;
        let ly: u8 = self.ly;
        let mut window_used: bool = false;
        proof {
            assert(self.back_framebuffer@ == old(self).back_framebuffer@);
        }
        for x in 0..160u8
            invariant
                self.wf(),
                ly == old(self).ly,
                ly < 144,
                *self == (Ppu {
                    back_framebuffer: self.back_framebuffer,
                    window_line: self.window_line,
                    ..*old(self)
                }),
                self.window_line == (if old(self).ly == 0 {
                    0u8
                } else {
                    old(self).window_line
                }),
                rows_outside_unchanged(
                    old(self).back_framebuffer@,
                    self.back_framebuffer@,
                    ly as int,
                ),
                win_map == (if old(self).lcdc & LCDC_WINDOW_SELECT != 0 {
                    0x1C00u16
                } else {
                    0x1800u16
                }),
                bgd_map == (if old(self).lcdc & LCDC_BG_SELECT != 0 {
                    0x1C00u16
                } else {
                    0x1800u16
                }),
                unsigned_data == (old(self).lcdc & LCDC_TILE_DATA != 0),
                window_used == (old(self).lcdc & LCDC_WINDOW_ENABLE != 0 && old(self).wy <= ly && x
                    > 0 && old(self).wx <= x + 6),
                forall|x0: int, j: int|
                    0 <= x0 < x && 0 <= j < 4 ==> self.back_framebuffer@[ly * 640 + x0 * 4 + j]
                        == #[trigger] spec_color_byte(
                        spec_bg_pixel_of(
                            *old(self),
                            spec_line_start_window_line(*old(self)),
                            x0 as u8,
                        ),
                        j,
                    ),
                spec_paint_bg_cols(
                    old(self).back_framebuffer@,
                    old(self).vram@,
                    old(self).lcdc,
                    old(self).scx,
                    old(self).scy,
                    old(self).wx,
                    old(self).wy,
                    old(self).bgp,
                    ly,
                    spec_line_start_window_line(*old(self)),
                    0,
                ) == spec_paint_bg_cols(
                    self.back_framebuffer@,
                    old(self).vram@,
                    old(self).lcdc,
                    old(self).scx,
                    old(self).scy,
                    old(self).wx,
                    old(self).wy,
                    old(self).bgp,
                    ly,
                    spec_line_start_window_line(*old(self)),
                    x as int,
                ),
        {
            let in_window: bool = self.lcdc & LCDC_WINDOW_ENABLE != 0 && self.wy <= ly && self.wx
                <= x + 7;
            if in_window {
                window_used = true;
            }
            let map_x: u8 = if in_window {
                x + 7 - self.wx
            } else {
                x.wrapping_add(self.scx)
            };
            let map_y: u8 = if in_window {
                self.window_line
            } else {
                ly.wrapping_add(self.scy)
            };
            let tile_map: u16 = if in_window {
                win_map
            } else {
                bgd_map
            };
            let tile_x: u8 = map_x % 8;
            let tile_y: u8 = map_y % 8;
            let tile_index_addr: usize = (tile_map as usize) + (map_y as usize / 8) * 32 + (
            map_x as usize / 8);
            let tile_number: u8 = self.vram[tile_index_addr];
            let data_addr: usize = if unsigned_data {
                (tile_number as usize) * 16 + (tile_y as usize) * 2
            } else if tile_number >= 128 {
                (tile_number as usize) * 16 + (tile_y as usize) * 2
            } else {
                0x1000 + (tile_number as usize) * 16 + (tile_y as usize) * 2
            };
            let lsb: u8 = self.vram[data_addr];
            let msb: u8 = self.vram[data_addr + 1];
            let colour_index: u8 = tile_pixel(lsb, msb, 7 - tile_x);
            let shade: u8 = palette_shade(self.bgp, colour_index);
            let colour: u32 = shade_rgba(shade);
            proof {
                assert(colour == spec_bg_pixel_of(
                    *old(self),
                    spec_line_start_window_line(*old(self)),
                    x,
                )) by {
                    reveal(spec_bg_pixel_color);
                }
            }
            let ghost bufc = self.back_framebuffer@;
            self.draw_pixel(x, ly, colour);
            proof {
                assert(self.back_framebuffer@ =~= bufc.update(
                    ly * 640 + x * 4,
                    spec_color_byte(colour, 0),
                ).update(ly * 640 + x * 4 + 1, spec_color_byte(colour, 1)).update(
                    ly * 640 + x * 4 + 2,
                    spec_color_byte(colour, 2),
                ).update(ly * 640 + x * 4 + 3, spec_color_byte(colour, 3)));
            }
        }
        if window_used {
            self.window_line = self.window_line.wrapping_add(1);
        }
    }

    /// True of a sprite selected for the current line: the line cuts
    /// through its rows.
    pub open spec fn spec_sprite_on_line(e: SpriteEntry, ly: u8, size: u8) -> bool {
        e.y <= ly && ly < e.y + size
    }

    /// The sprite described by OAM slot `i`: screen coordinates are the
    /// stored bytes minus 16 and 8, and in 8x16 mode the tile number's
    /// low bit is forced clear.
    pub open spec fn spec_oam_sprite(self, size: u8, i: int) -> SpriteEntry {
        SpriteEntry {
            oam_index: i as u8,
            y: self.oam@[4 * i].wrapping_sub(16),
            x: self.oam@[4 * i + 1].wrapping_sub(8),
            tile: if size == 16 {
                self.oam@[4 * i + 2] & 0xFE
            } else {
                self.oam@[4 * i + 2]
            },
            flags: self.oam@[4 * i + 3],
        }
    }

    /// Whether OAM slot `i` is visible on the current line.
    pub open spec fn spec_oam_visible(self, size: u8, i: int) -> bool {
        let y = self.oam@[4 * i].wrapping_sub(16);
        y <= self.ly && self.ly < y + size
    }

    /// Whether some selected entry came from OAM slot `i`.
    pub open spec fn spec_slot_selected(s: Seq<SpriteEntry>, i: int) -> bool {
        exists|k: int| 0 <= k < s.len() && (#[trigger] s[k]).oam_index == i
    }

    /// The OAM search over the first `i` slots: the visible sprites in
    /// OAM order, stopping once ten are found.
    pub open spec fn spec_selected_sprites(self, size: u8, i: int) -> Seq<SpriteEntry>
        decreases i,
    {
        if i <= 0 {
            Seq::empty()
        } else {
            let prev = self.spec_selected_sprites(size, i - 1);
            if self.spec_oam_visible(size, i - 1) && prev.len() < 10 {
                prev.push(self.spec_oam_sprite(size, i - 1))
            } else {
                prev
            }
        }
    }

    /// Scan OAM and collect the sprites visible on the current line, in
    /// OAM order, stopping after ten: exactly what the hardware's OAM
    /// search selects.  Every visible slot is selected unless ten
    /// earlier slots already were.
    pub fn visible_sprites(&self, size: u8) -> (r: Vec<SpriteEntry>)
        requires
            self.wf(),
            self.ly < 144,
            size == 8 || size == 16,
        ensures
            r@.len() <= 10,
            forall|k: int|
                0 <= k < r@.len() ==> (#[trigger] r@[k]).oam_index < 40 && r@[k]
                    == self.spec_oam_sprite(size, r@[k].oam_index as int)
                    && self.spec_oam_visible(size, r@[k].oam_index as int),
            forall|k1: int, k2: int|
                0 <= k1 < k2 < r@.len() ==> (#[trigger] r@[k1]).oam_index < (
                #[trigger] r@[k2]).oam_index,
            forall|i: int|
                0 <= i < 40 && self.spec_oam_visible(size, i) && !Ppu::spec_slot_selected(r@, i)
                    ==> r@.len() == 10 && r@[9].oam_index < i,
            r@ == self.spec_selected_sprites(size, 40),
    {
        let ly: u8 = self.ly;
        let mut visible: Vec<SpriteEntry> = Vec::new();
        for i in 0..40usize
            invariant
                self.wf(),
                ly == self.ly,
                ly < 144,
                size == 8 || size == 16,
                visible@.len() <= 10,
                visible@ == self.spec_selected_sprites(size, i as int),
                forall|k: int|
                    0 <= k < visible@.len() ==> (#[trigger] visible@[k]).oam_index < i
                        && visible@[k] == self.spec_oam_sprite(size, visible@[k].oam_index as int)
                        && self.spec_oam_visible(size, visible@[k].oam_index as int),
                forall|k1: int, k2: int|
                    0 <= k1 < k2 < visible@.len() ==> (#[trigger] visible@[k1]).oam_index < (
                    #[trigger] visible@[k2]).oam_index,
                forall|i0: int|
                    0 <= i0 < i && self.spec_oam_visible(size, i0) && !Ppu::spec_slot_selected(
                        visible@,
                        i0,
                    ) ==> visible@.len() == 10 && visible@[9].oam_index < i0,
        {
            let oy: u8 = self.oam[4 * i];
            let ox: u8 = self.oam[4 * i + 1];
            let mut tile: u8 = self.oam[4 * i + 2];
            let fl: u8 = self.oam[4 * i + 3];
            let sy: u8 = oy.wrapping_sub(16);
            let sx: u8 = ox.wrapping_sub(8);
            if size == 16 {
                tile = tile & 0xFE;
            }
            let ghost s0 = visible@;
            if visible.len() < 10 && sy <= ly && ly < sy.wrapping_add(size) {
                let entry = SpriteEntry { oam_index: i as u8, y: sy, x: sx, tile, flags: fl };
                proof {
                    assert(entry == self.spec_oam_sprite(size, i as int));
                }
                visible.push(entry);
            }
            proof {
                let s = visible@;
                assert forall|i0: int|
                    0 <= i0 < i + 1 && self.spec_oam_visible(size, i0) && !Ppu::spec_slot_selected(
                        s,
                        i0,
                    ) implies s.len() == 10 && s[9].oam_index < i0 by {
                    if i0 < i {
                        if Ppu::spec_slot_selected(s0, i0) {
                            let k = choose|k: int|
                                0 <= k < s0.len() && (#[trigger] s0[k]).oam_index == i0;
                            assert(s[k].oam_index == i0);
                        } else {
                            assert(s0.len() == 10);
                            assert(s == s0);
                        }
                    } else {
                        if s0.len() < 10 {
                            assert(s[s.len() - 1].oam_index == i0);
                        } else {
                            assert(s == s0);
                        }
                    }
                }
            }
        }
        visible
    }

    /// Render the sprites that fall on row `ly` of the back framebuffer,
    /// painting them so that lower X (and on ties lower OAM slot) wins.
    pub fn render_sprites(&mut self)
        requires
            old(self).wf(),
            old(self).ly < 144,
        ensures
            final(self).wf(),
            *final(self) == (Ppu { back_framebuffer: final(self).back_framebuffer, ..*old(self) }),
            rows_outside_unchanged(
                old(self).back_framebuffer@,
                final(self).back_framebuffer@,
                old(self).ly as int,
            ),
            old(self).lcdc & LCDC_SPRITE_ENABLE == 0 ==> final(self).back_framebuffer@ == old(
                self,
            ).back_framebuffer@,
            old(self).lcdc & LCDC_SPRITE_ENABLE != 0 ==> final(self).back_framebuffer@
                == spec_paint_sprites(
                old(self).back_framebuffer@,
                old(self).vram@,
                old(self).obp0,
                old(self).obp1,
                spec_sprite_size(old(self).lcdc),
                old(self).ly,
                spec_painting_order(
                    old(self).spec_selected_sprites(spec_sprite_size(old(self).lcdc), 40),
                ),
            ),
    {
        if self.lcdc & LCDC_SPRITE_ENABLE == 0 {
            return ;
        }
        let size: u8 = if self.lcdc & LCDC_SPRITE_SIZE != 0 {
            16
        } else {
            8
        };
        let ly: u8 = self.ly;
        let visible: Vec<SpriteEntry> = self.visible_sprites(size);
        proof {
            assert forall|k: int| 0 <= k < visible@.len() implies Ppu::spec_sprite_on_line(
                #[trigger] visible@[k],
                ly,
                size,
            ) by {
                assert(self.spec_oam_visible(size, visible@[k].oam_index as int));
            }
        }
        let sorted: Vec<SpriteEntry> = sort_by_draw_order(visible);
        proof {
            broadcast use vstd::seq_lib::group_to_multiset_ensures;

            assert forall|k: int| 0 <= k < sorted@.len() implies Ppu::spec_sprite_on_line(
                #[trigger] sorted@[k],
                ly,
                size,
            ) by {
                assert(sorted@.contains(sorted@[k]));
                assert(sorted@.to_multiset().count(sorted@[k]) > 0);
                assert(visible@.contains(sorted@[k]));
            }
        }
        proof {
            assert(size == spec_sprite_size(old(self).lcdc));
            assert(sorted@ == spec_painting_order(
                old(self).spec_selected_sprites(spec_sprite_size(old(self).lcdc), 40),
            ));
            assert(sorted@.skip(0) =~= sorted@);
        }
        let n: usize = sorted.len();
        for k in 0..n
            invariant
                n == sorted@.len(),
                size == 8 || size == 16,
                ly == old(self).ly,
                ly < 144,
                self.wf(),
                *self == (Ppu { back_framebuffer: self.back_framebuffer, ..*old(self) }),
                rows_outside_unchanged(
                    old(self).back_framebuffer@,
                    self.back_framebuffer@,
                    ly as int,
                ),
                forall|q: int|
                    0 <= q < sorted@.len() ==> Ppu::spec_sprite_on_line(
                        #[trigger] sorted@[q],
                        ly,
                        size,
                    ),
                spec_paint_sprites(
                    old(self).back_framebuffer@,
                    old(self).vram@,
                    old(self).obp0,
                    old(self).obp1,
                    size,
                    ly,
                    sorted@,
                ) == spec_paint_sprites(
                    self.back_framebuffer@,
                    old(self).vram@,
                    old(self).obp0,
                    old(self).obp1,
                    size,
                    ly,
                    sorted@.skip(k as int),
                ),
        {
            let sp: SpriteEntry = sorted[k];
            let y_flip: bool = sp.flags & 0x40 != 0;
            let x_flip: bool = sp.flags & 0x20 != 0;
            let pal: u8 = if sp.flags & 0x10 != 0 {
                self.obp1
            } else {
                self.obp0
            };
            let over_bg: bool = sp.flags & 0x80 == 0;
            let dy: u8 = ly - sp.y;
            let tile_y: u8 = if y_flip {
                size - (dy + 1)
            } else {
                dy
            };
            let addr: usize = (sp.tile as usize) * 16 + (tile_y as usize) * 2;
            let lsb: u8 = self.vram[addr];
            let msb: u8 = self.vram[addr + 1];
            proof {
                assert(Ppu::spec_sprite_on_line(sorted@[k as int], ly, size));
                assert(addr == spec_sprite_row_addr(sp, size, ly));
            }
            let ghost bufk = self.back_framebuffer@;
            for xo in 0..8u8
                invariant
                    ly == old(self).ly,
                    ly < 144,
                    size == 8 || size == 16,
                    self.wf(),
                    *self == (Ppu { back_framebuffer: self.back_framebuffer, ..*old(self) }),
                    rows_outside_unchanged(
                        old(self).back_framebuffer@,
                        self.back_framebuffer@,
                        ly as int,
                    ),
                    Ppu::spec_sprite_on_line(sp, ly, size),
                    addr == spec_sprite_row_addr(sp, size, ly),
                    addr + 1 < 0x2000,
                    lsb == old(self).vram@[addr as int] && msb == old(self).vram@[addr + 1],
                    x_flip == (sp.flags & 0x20 != 0),
                    over_bg == (sp.flags & 0x80 == 0),
                    pal == (if sp.flags & 0x10 != 0 {
                        old(self).obp1
                    } else {
                        old(self).obp0
                    }),
                    spec_paint_cols(bufk, old(self).vram@, old(self).obp0, old(self).obp1, size, ly, sp, 0)
                        == spec_paint_cols(
                        self.back_framebuffer@,
                        old(self).vram@,
                        old(self).obp0,
                        old(self).obp1,
                        size,
                        ly,
                        sp,
                        xo as int,
                    ),
            {
                let ghost bufc = self.back_framebuffer@;
                let actual_x: u8 = sp.x.wrapping_add(xo);
                if actual_x < 160 {
                    let bit: u8 = if x_flip {
                        xo
                    } else {
                        7 - xo
                    };
                    let ci: u8 = tile_pixel(lsb, msb, bit);
                    if ci != 0 {
                        let shade: u8 = palette_shade(pal, ci);
                        let colour: u32 = shade_rgba(shade);
                        if over_bg {
                            self.draw_pixel(actual_x, ly, colour);
                        } else if self.get_pixel(actual_x, ly) == SHADE_COLOR_0 {
                            self.draw_pixel(actual_x, ly, colour);
                        }
                        proof {
                            if over_bg || spec_row_pixel(bufc, actual_x, ly) == SHADE_COLOR_0 {
                                assert(self.back_framebuffer@ =~= bufc.update(
                                    ly * 640 + actual_x * 4,
                                    spec_color_byte(colour, 0),
                                ).update(ly * 640 + actual_x * 4 + 1, spec_color_byte(colour, 1)).update(
                                    ly * 640 + actual_x * 4 + 2,
                                    spec_color_byte(colour, 2),
                                ).update(ly * 640 + actual_x * 4 + 3, spec_color_byte(colour, 3)));
                            }
                        }
                    }
                }
                proof {
                    assert(self.back_framebuffer@ == spec_paint_col(
                        bufc,
                        old(self).vram@,
                        old(self).obp0,
                        old(self).obp1,
                        size,
                        ly,
                        sp,
                        xo as int,
                    ));
                }
            }
            proof {
                assert(spec_paint_cols(
                    self.back_framebuffer@,
                    old(self).vram@,
                    old(self).obp0,
                    old(self).obp1,
                    size,
                    ly,
                    sp,
                    8,
                ) == self.back_framebuffer@);
                assert(sorted@.skip(k as int).first() == sp);
                assert(sorted@.skip(k as int).drop_first() =~= sorted@.skip(k + 1));
            }
        }
        proof {
            assert(sorted@.skip(n as int) =~= Seq::<SpriteEntry>::empty());
        }
    }

    /// Render one full scanline: background and window first, then the
    /// sprites on top.
    pub fn render_scanline(&mut self)
        requires
            old(self).wf(),
            old(self).ly < 144,
        ensures
            final(self).wf(),
            *final(self) == (Ppu {
                back_framebuffer: final(self).back_framebuffer,
                window_line: final(self).window_line,
                ..*old(self)
            }),
            rows_outside_unchanged(
                old(self).back_framebuffer@,
                final(self).back_framebuffer@,
                old(self).ly as int,
            ),
            final(self).window_line == spec_window_line_after(*old(self)),
            old(self).lcdc & LCDC_SPRITE_ENABLE == 0 && old(self).lcdc & LCDC_BG_WIN_ENABLE != 0
                ==> forall|x: int, j: int|
                0 <= x < 160 && 0 <= j < 4 ==> final(self).back_framebuffer@[old(self).ly * 640 + x
                    * 4 + j] == #[trigger] spec_color_byte(
                    spec_bg_pixel_of(
                        *old(self),
                        spec_line_start_window_line(*old(self)),
                        x as u8,
                    ),
                    j,
                ),
            final(self).back_framebuffer@ == spec_rendered_row_of(
                old(self).back_framebuffer@,
                *old(self),
            ),
    {
        self.render_background();
        let ghost m = *self;
        self.render_sprites();
        proof {
            if old(self).lcdc & LCDC_SPRITE_ENABLE != 0 {
                lemma_selected_sprites_depends(
                    m,
                    *old(self),
                    spec_sprite_size(old(self).lcdc),
                    40,
                );
            }
        }
    }

    /// Read one RGBA pixel back out of the back framebuffer.
    pub fn get_pixel(&self, x: u8, y: u8) -> (r: u32)
        requires
            self.wf(),
            x < 160,
            y < 144,
        ensures
            r == self.spec_pixel_at(x, y),
    {
        let offset: usize = (y as usize) * 640 + (x as usize) * 4;
        let r0: u8 = self.back_framebuffer[offset];
        let g0: u8 = self.back_framebuffer[offset + 1];
        let b0: u8 = self.back_framebuffer[offset + 2];
        let a0: u8 = self.back_framebuffer[offset + 3];
        ((r0 as u32) << 24) | ((g0 as u32) << 16) | ((b0 as u32) << 8) | (a0 as u32)
    }
}

} // verus!
