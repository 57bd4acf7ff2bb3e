use argentum_core::bus::{Bus, GbKey};
use argentum_core::ppu::Ppu;
use argentum_core::render::{sort_by_draw_order, SpriteEntry};

#[test]
fn ram_round_trips() {
    // Every byte written to WRAM, HRAM, VRAM and OAM reads back
    // identically at the same address.
    let mut bus = Bus::new(&[0u8; 4]);
    let cases: [(u16, u8); 8] = [
        (0xC000, 0x11),
        (0xDFFF, 0x22),
        (0x8000, 0x33),
        (0x9FFF, 0x44),
        (0xFE00, 0x55),
        (0xFE9F, 0x66),
        (0xFF80, 0x77),
        (0xFFFE, 0x88),
    ];
    for (addr, value) in cases {
        bus.write_byte(addr, value);
        assert_eq!(bus.read_byte(addr), value, "address {addr:#06X}");
    }
}

#[test]
fn wram_echo_mirrors_both_ways() {
    let mut bus = Bus::new(&[0u8; 4]);
    bus.write_byte(0xC123, 0xAB);
    assert_eq!(bus.read_byte(0xE123), 0xAB);
    bus.write_byte(0xF000, 0xCD);
    assert_eq!(bus.read_byte(0xD000), 0xCD);
}

#[test]
fn rom_is_read_only_and_clamped() {
    let mut bus = Bus::new(&[0x12, 0x34]);
    assert_eq!(bus.read_byte(0x0000), 0x12);
    assert_eq!(bus.read_byte(0x0001), 0x34);
    // Past the image the bus reads 0xFF.
    assert_eq!(bus.read_byte(0x0002), 0xFF);
    // Writes into the ROM region are dropped.
    bus.write_byte(0x0000, 0x99);
    assert_eq!(bus.read_byte(0x0000), 0x12);
}

#[test]
fn unmapped_addresses_read_ff() {
    let mut bus = Bus::new(&[0u8; 4]);
    assert_eq!(bus.read_byte(0xA123), 0xFF);
    assert_eq!(bus.read_byte(0xFEA0), 0xFF);
    assert_eq!(bus.read_byte(0xFF01), 0xFF);
    bus.write_byte(0xFEA0, 0x55);
    assert_eq!(bus.read_byte(0xFEA0), 0xFF);
}

#[test]
fn interrupt_flag_upper_bits_read_high() {
    let mut bus = Bus::new(&[0u8; 4]);
    bus.write_byte(0xFF0F, 0x05);
    assert_eq!(bus.read_byte(0xFF0F), 0xE5);
}

#[test]
fn joypad_selected_column_reports_pressed_keys() {
    let mut bus = Bus::new(&[0u8; 4]);
    // Select the direction pad (bit 4 low, bit 5 high).
    bus.write_byte(0xFF00, 0x20);
    bus.press_key(GbKey::Right);
    // Falling edge on a selected line requests the joypad interrupt.
    assert_eq!(bus.if_flag & 0x10, 0x10);
    // Bits 7/6 high, select bits as written, Right pulls bit 0 low.
    assert_eq!(bus.read_byte(0xFF00), 0xEE);
    bus.release_key(GbKey::Right);
    assert_eq!(bus.read_byte(0xFF00), 0xEF);
}

#[test]
fn joypad_unselected_column_requests_nothing() {
    let mut bus = Bus::new(&[0u8; 4]);
    // Select the action column only; a direction key press must not
    // raise the interrupt nor show in the register.
    bus.write_byte(0xFF00, 0x10);
    bus.press_key(GbKey::Up);
    assert_eq!(bus.if_flag & 0x10, 0x00);
    assert_eq!(bus.read_byte(0xFF00), 0xDF);
    bus.press_key(GbKey::A);
    assert_eq!(bus.if_flag & 0x10, 0x10);
    assert_eq!(bus.read_byte(0xFF00), 0xDE);
}

fn put_sprite(ppu: &mut Ppu, slot: u16, y: u8, x: u8, tile: u8, flags: u8) {
    let base = 0xFE00 + slot * 4;
    ppu.write_byte(base, y);
    ppu.write_byte(base + 1, x);
    ppu.write_byte(base + 2, tile);
    ppu.write_byte(base + 3, flags);
}

fn put_solid_tile(ppu: &mut Ppu, tile: u16, color: u8) {
    // Fill all eight rows of `tile` with the 2-bit color index.
    let lsb = if color & 1 != 0 { 0xFF } else { 0x00 };
    let msb = if color & 2 != 0 { 0xFF } else { 0x00 };
    for row in 0..8 {
        ppu.write_byte(0x8000 + tile * 16 + row * 2, lsb);
        ppu.write_byte(0x8000 + tile * 16 + row * 2 + 1, msb);
    }
}

#[test]
fn sprite_with_lower_x_wins_overlap() {
    let mut ppu = Ppu::new();
    ppu.write_byte(0xFF40, 0x93); // LCD on, BG on, sprites on
    ppu.write_byte(0xFF48, 0xE4); // OBP0: identity palette
    put_solid_tile(&mut ppu, 1, 1);
    put_solid_tile(&mut ppu, 2, 2);
    // Slot 0 at screen X 10 (tile 1), slot 1 at screen X 8 (tile 2):
    // they overlap on columns 10..15, where the lower X must show.
    put_sprite(&mut ppu, 0, 16, 10 + 8, 1, 0);
    put_sprite(&mut ppu, 1, 16, 8 + 8, 2, 0);
    ppu.render_scanline();
    let pixel = |x: usize| {
        let o = x * 4;
        (
            ppu.back_framebuffer[o],
            ppu.back_framebuffer[o + 1],
            ppu.back_framebuffer[o + 2],
        )
    };
    // Shade 1 (0xD35600) for tile 1, shade 2 (0x5E1210) for tile 2.
    assert_eq!(pixel(8), (0x5E, 0x12, 0x10)); // only the low-X sprite
    assert_eq!(pixel(12), (0x5E, 0x12, 0x10)); // overlap: lower X wins
    assert_eq!(pixel(16), (0xD3, 0x56, 0x00)); // past it: the other shows
}

#[test]
fn equal_x_lower_oam_slot_wins() {
    let mut ppu = Ppu::new();
    ppu.write_byte(0xFF40, 0x93);
    ppu.write_byte(0xFF48, 0xE4);
    put_solid_tile(&mut ppu, 1, 1);
    put_solid_tile(&mut ppu, 2, 2);
    put_sprite(&mut ppu, 0, 16, 40 + 8, 1, 0);
    put_sprite(&mut ppu, 1, 16, 40 + 8, 2, 0);
    ppu.render_scanline();
    let o = 40 * 4;
    assert_eq!(ppu.back_framebuffer[o], 0xD3); // slot 0's tile shows
}

#[test]
fn sort_puts_lower_x_later() {
    let entries = vec![
        SpriteEntry { oam_index: 0, y: 0, x: 10, tile: 0, flags: 0 },
        SpriteEntry { oam_index: 1, y: 0, x: 8, tile: 0, flags: 0 },
        SpriteEntry { oam_index: 2, y: 0, x: 8, tile: 0, flags: 0 },
    ];
    let sorted = sort_by_draw_order(entries);
    // Painting order: highest X first; on ties the higher OAM slot
    // first, so the lower slot paints later and wins.
    assert_eq!(sorted[0].x, 10);
    assert_eq!(sorted[1].oam_index, 2);
    assert_eq!(sorted[2].oam_index, 1);
}

#[test]
fn window_overlays_background() {
    // Window enabled from column 0 with its own map: the whole row
    // comes from the window map, and the window line counter advances.
    let mut ppu = Ppu::new();
    ppu.write_byte(0xFF40, 0xF1); // LCD, window map 0x9C00, window on, BG on
    ppu.write_byte(0xFF47, 0xE4);
    ppu.write_byte(0xFF4A, 0); // WY = 0
    ppu.write_byte(0xFF4B, 7); // WX = 7: window starts at column 0
    put_solid_tile(&mut ppu, 1, 3);
    ppu.write_byte(0x9C00, 1); // window map (0,0) -> dark tile
    assert_eq!(ppu.window_line, 0);
    ppu.render_scanline();
    assert_eq!(ppu.back_framebuffer[0], 0x0D); // window's dark pixel
    assert_eq!(ppu.window_line, 1);
}

#[test]
fn tall_sprites_ignore_tile_low_bit() {
    // In 8x16 mode a sprite with tile 3 uses tile 2 for its top half.
    let mut ppu = Ppu::new();
    ppu.write_byte(0xFF40, 0x97); // LCD, BG, sprites, 8x16
    ppu.write_byte(0xFF48, 0xE4);
    put_solid_tile(&mut ppu, 2, 1);
    put_sprite(&mut ppu, 0, 16, 0 + 8, 3, 0);
    ppu.render_scanline();
    assert_eq!(ppu.back_framebuffer[0], 0xD3); // shade 1 from tile 2
}

#[test]
fn behind_background_sprite_hides_over_nonzero_shade() {
    // With the whole background rendered at shade 3, a sprite carrying
    // the priority flag draws nowhere.
    let mut ppu = Ppu::new();
    ppu.write_byte(0xFF40, 0x93);
    ppu.write_byte(0xFF47, 0x03); // BGP: color 0 -> shade 3
    ppu.write_byte(0xFF48, 0xE4);
    put_solid_tile(&mut ppu, 1, 1);
    put_sprite(&mut ppu, 0, 16, 0 + 8, 1, 0x80);
    ppu.render_scanline();
    assert_eq!(ppu.back_framebuffer[0], 0x0D); // background kept
}

#[test]
fn behind_background_sprite_blocked_by_painted_sprite() {
    // A normal sprite at X 10 paints first (higher X); the
    // background-priority sprite at X 8 may then draw only over
    // shade-0 pixels, so it loses the overlap despite its lower X.
    let mut ppu = Ppu::new();
    ppu.write_byte(0xFF40, 0x93);
    ppu.write_byte(0xFF48, 0xE4);
    put_solid_tile(&mut ppu, 1, 1);
    put_solid_tile(&mut ppu, 2, 2);
    put_sprite(&mut ppu, 0, 16, 10 + 8, 1, 0);
    put_sprite(&mut ppu, 1, 16, 8 + 8, 2, 0x80);
    ppu.render_scanline();
    assert_eq!(ppu.back_framebuffer[8 * 4], 0x5E); // behind-BG sprite on free ground
    assert_eq!(ppu.back_framebuffer[12 * 4], 0xD3); // overlap: the painted sprite stays
}

#[test]
fn x_flip_mirrors_sprite_row() {
    // Tile 1's row 0 has color 1 only in its leftmost pixel; with
    // X-flip it lands in the rightmost column instead.
    let mut ppu = Ppu::new();
    ppu.write_byte(0xFF40, 0x93);
    ppu.write_byte(0xFF48, 0xE4);
    ppu.write_byte(0x8010, 0x80); // tile 1, row 0, low bitplane
    put_sprite(&mut ppu, 0, 16, 0 + 8, 1, 0x20);
    ppu.render_scanline();
    assert_eq!(ppu.back_framebuffer[0], 0xFE); // left: transparent, BG shows
    assert_eq!(ppu.back_framebuffer[7 * 4], 0xD3); // right: the pixel
}

#[test]
fn background_scroll_picks_tile_row() {
    // Tile map entry (0,0) points at tile 1, which is solid color 3;
    // with BGP identity the first row renders dark.
    let mut ppu = Ppu::new();
    ppu.write_byte(0xFF47, 0xE4);
    put_solid_tile(&mut ppu, 1, 3);
    ppu.write_byte(0x9800, 1); // background map (0,0) -> tile 1
    ppu.render_scanline();
    assert_eq!(ppu.back_framebuffer[0], 0x0D); // shade 3
    assert_eq!(ppu.back_framebuffer[8 * 4], 0xFE); // next tile: shade 0
}
