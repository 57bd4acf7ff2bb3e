use argentum_core::ppu::{Ppu, PpuModes};
use argentum_core::bus::Bus;
use argentum_core::gameboy::GameBoy;
use argentum_core::cpu::Cpu;

#[test]
fn mode_cadence_first_scanline() {
    // 114 machine cycles (456 T-cycles) from power-on: one visit each
    // to Drawing and HBlank, LY advances by one, and the PPU is back in
    // OAM search.
    let mut ppu = Ppu::new();
    let mut if_reg = 0u8;
    let mut drawing_visits = 0u32;
    let mut hblank_visits = 0u32;
    let mut prev = ppu.current_mode;
    for _ in 0..114 {
        ppu.tick(&mut if_reg);
        if ppu.current_mode != prev {
            match ppu.current_mode {
                PpuModes::Drawing => drawing_visits += 1,
                PpuModes::HBlank => hblank_visits += 1,
                _ => {}
            }
            prev = ppu.current_mode;
        }
    }
    assert_eq!(drawing_visits, 1);
    assert_eq!(hblank_visits, 1);
    assert_eq!(ppu.ly, 1);
    assert!(ppu.current_mode == PpuModes::OamSearch);
}

#[test]
fn lcd_disabled_freezes_ppu() {
    // With LCD_ENABLE clear the mode, LY and the cycle counter hold
    // still across any number of ticks.
    let mut ppu = Ppu::new();
    let mut if_reg = 0u8;
    for _ in 0..50 {
        ppu.tick(&mut if_reg);
    }
    let ly = ppu.ly;
    let cycles = ppu.total_cycles;
    let mode = ppu.current_mode;
    ppu.write_byte(0xFF40, 0x11); // LCD off
    for _ in 0..2000 {
        ppu.tick(&mut if_reg);
    }
    assert_eq!(ppu.ly, ly);
    assert_eq!(ppu.total_cycles, cycles);
    assert!(ppu.current_mode == mode);
    assert_eq!(if_reg, 0);
}

#[test]
fn ly_write_is_ignored() {
    let mut bus = Bus::new(&[0u8; 4]);
    bus.ppu.ly = 77;
    bus.write_byte(0xFF44, 12);
    assert_eq!(bus.read_byte(0xFF44), 77);
}

#[test]
fn stat_reads_mode_in_low_bits() {
    let mut ppu = Ppu::new();
    ppu.write_byte(0xFF41, 0xFF); // only bits 6..2 stick
    // Fresh PPU sits in OAM search (mode 2), bit 7 reads as one.
    assert_eq!(ppu.read_byte(0xFF41), 0x80 | 0x7C | 0x02);
}

#[test]
fn front_buffer_flips_exactly_once_per_frame() {
    // Make rendered rows visibly dark, then run one frame of ticks:
    // the front buffer must change exactly at the LY 153 -> 0 rollover
    // and then equal the back buffer byte for byte.
    let mut ppu = Ppu::new();
    ppu.write_byte(0xFF47, 0x03); // BGP: color 0 -> shade 3
    let mut if_reg = 0u8;
    let mut rollovers = 0u32;
    let mut prev_ly = ppu.ly;
    for _ in 0..17556 {
        ppu.tick(&mut if_reg);
        if prev_ly == 153 && ppu.ly == 0 {
            rollovers += 1;
            assert_eq!(ppu.front_framebuffer, ppu.back_framebuffer);
        }
        prev_ly = ppu.ly;
    }
    assert_eq!(rollovers, 1);
    // The presented frame is the dark one, not the power-on fill.
    assert_eq!(ppu.front_framebuffer[0], 0x0D);
}

#[test]
fn vblank_interrupt_requested_at_line_144() {
    let mut ppu = Ppu::new();
    let mut if_reg = 0u8;
    while ppu.ly < 144 {
        ppu.tick(&mut if_reg);
    }
    assert_eq!(if_reg & 0x01, 0x01);
    assert!(ppu.current_mode == PpuModes::VBlank);
}

#[test]
fn lyc_coincidence_sets_stat_and_requests_interrupt() {
    let mut ppu = Ppu::new();
    ppu.write_byte(0xFF45, 2); // LYC = 2
    ppu.write_byte(0xFF41, 0x40); // coincidence interrupt select
    let mut if_reg = 0u8;
    while ppu.ly < 2 {
        ppu.tick(&mut if_reg);
    }
    assert_eq!(ppu.read_byte(0xFF41) & 0x04, 0x04);
    assert_eq!(if_reg & 0x02, 0x02);
}

#[test]
fn frame_cadence_cycle_window() {
    // A frame of NOPs accumulates at least a frame's worth of machine
    // cycles and overshoots by less than one instruction.
    let mut cpu = Cpu::new();
    let mut bus = Bus::new(&[0u8; 0x100]);
    let mut total = 0u32;
    while total < 17556 {
        total += cpu.execute_next(&mut bus).unwrap();
    }
    assert!(total >= 17556);
    assert!(total < 17556 + 11);
}

#[test]
fn execute_frame_runs_and_framebuffer_has_frame_size() {
    let mut gb = GameBoy::new(&[0u8; 0x100]);
    gb.skip_bootrom();
    gb.execute_frame().unwrap();
    assert_eq!(gb.get_framebuffer().len(), 160 * 144 * 4);
}

#[test]
fn frame_executes_small_program() {
    // LD A, 7; LD HL, 0xC000; LD (HL), A; then spin in place.
    let rom = [0x3E, 0x07, 0x21, 0x00, 0xC0, 0x77, 0x18, 0xFE];
    let mut gb = GameBoy::new(&rom);
    gb.execute_frame().unwrap();
    assert_eq!(gb.bus.read_byte(0xC000), 0x07);
    assert_eq!(gb.cpu.reg.a, 0x07);
}

#[test]
fn execute_frame_surfaces_illegal_opcode() {
    let mut gb = GameBoy::new(&[0xD3]);
    assert_eq!(gb.execute_frame(), Err(0xD3));
}

#[test]
fn skip_bootrom_sets_documented_values() {
    let mut gb = GameBoy::new(&[0u8; 4]);
    gb.skip_bootrom();
    assert_eq!(gb.cpu.reg.a, 0x01);
    assert_eq!(gb.cpu.reg.f.bits(), 0xB0);
    assert_eq!(gb.cpu.reg.get_bc(), 0x0013);
    assert_eq!(gb.cpu.reg.get_de(), 0x00D8);
    assert_eq!(gb.cpu.reg.get_hl(), 0x014D);
    assert_eq!(gb.cpu.reg.sp, 0xFFFE);
    assert_eq!(gb.cpu.reg.pc, 0x0100);
    assert_eq!(gb.bus.read_byte(0xFF40), 0x91);
    assert_eq!(gb.bus.read_byte(0xFF47), 0xFC);
    assert_eq!(gb.bus.read_byte(0xFF48), 0xFF);
    assert_eq!(gb.bus.read_byte(0xFF49), 0xFF);
}
