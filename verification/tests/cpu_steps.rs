use argentum_core::bus::Bus;
use argentum_core::cpu::{Cpu, CpuState};
use argentum_core::registers::Flags;

fn machine(rom: &[u8]) -> (Cpu, Bus) {
    (Cpu::new(), Bus::new(rom))
}

#[test]
fn add_immediate_sets_all_flags() {
    // ADD A, 0xC6 with A = 0x3A: wraps to zero with half-carry and carry.
    let (mut cpu, mut bus) = machine(&[0xC6, 0xC6]);
    cpu.reg.a = 0x3A;
    let cycles = cpu.execute_next(&mut bus).unwrap();
    assert_eq!(cpu.reg.a, 0x00);
    assert_eq!(cpu.reg.f.bits(), 0xB0);
    assert_eq!(cpu.reg.pc, 0x0002);
    assert_eq!(cycles, 2);
}

#[test]
fn inc_a_half_carry_keeps_carry() {
    // INC A with A = 0x0F: half-carry sets, carry is untouched.
    let (mut cpu, mut bus) = machine(&[0x3C]);
    cpu.reg.a = 0x0F;
    cpu.reg.f = Flags { z: true, n: true, h: false, c: true };
    let cycles = cpu.execute_next(&mut bus).unwrap();
    assert_eq!(cpu.reg.a, 0x10);
    assert!(!cpu.reg.f.z);
    assert!(!cpu.reg.f.n);
    assert!(cpu.reg.f.h);
    assert!(cpu.reg.f.c);
    assert_eq!(cycles, 1);
}

#[test]
fn ld_a_hl_reads_memory_and_ticks_ppu() {
    // LD A, (HL) with HL = 0xC000 holding 0x42: two machine cycles, so
    // the PPU advances 8 T-cycles.
    let (mut cpu, mut bus) = machine(&[0x7E]);
    cpu.reg.set_hl(0xC000);
    bus.write_byte(0xC000, 0x42);
    let cycles = cpu.execute_next(&mut bus).unwrap();
    assert_eq!(cpu.reg.a, 0x42);
    assert_eq!(cycles, 2);
    assert_eq!(bus.ppu.total_cycles, 8);
}

#[test]
fn interrupt_dispatch_pushes_pc_and_jumps() {
    // VBlank pending with IME set: the request bit is consumed, IME
    // drops, PC is pushed and control moves to vector 0x40 in five
    // machine cycles.
    let (mut cpu, mut bus) = machine(&[0x00; 0x200]);
    cpu.ime = true;
    bus.ie_flag = 0x01;
    bus.if_flag = 0x01;
    cpu.reg.sp = 0xFFFE;
    cpu.reg.pc = 0x0150;
    cpu.cycles = 0;
    cpu.handle_interrupts(&mut bus);
    assert_eq!(bus.if_flag & 0x01, 0);
    assert!(!cpu.ime);
    assert_eq!(cpu.reg.sp, 0xFFFC);
    assert_eq!(bus.read_byte(0xFFFD), 0x01);
    assert_eq!(bus.read_byte(0xFFFC), 0x50);
    assert_eq!(cpu.reg.pc, 0x0040);
    assert_eq!(cpu.cycles, 5);
}

#[test]
fn interrupt_dispatched_within_step() {
    // A full step services the interrupt (5 cycles) and then runs the
    // NOP at the vector (1 cycle).
    let (mut cpu, mut bus) = machine(&[0x00; 0x200]);
    cpu.ime = true;
    bus.ie_flag = 0x01;
    bus.if_flag = 0x01;
    cpu.reg.sp = 0xFFFE;
    cpu.reg.pc = 0x0150;
    let cycles = cpu.execute_next(&mut bus).unwrap();
    assert_eq!(cycles, 6);
    assert_eq!(cpu.reg.pc, 0x0041);
}

#[test]
fn halt_wakes_without_service_when_ime_clear() {
    // A halted CPU burns one cycle per step until the PPU raises the
    // VBlank request; the pending bit then wakes it without being
    // serviced, and execution resumes at the old PC.
    let (mut cpu, mut bus) = machine(&[0x00; 0x10]);
    cpu.ime = false;
    cpu.state = CpuState::Halted;
    bus.ie_flag = 0x01;
    bus.if_flag = 0x00;
    let mut guard = 0u32;
    while bus.if_flag & 0x01 == 0 {
        let cycles = cpu.execute_next(&mut bus).unwrap();
        assert_eq!(cycles, 1);
        assert_eq!(cpu.reg.pc, 0x0000);
        guard += 1;
        assert!(guard < 20000, "PPU never reached VBlank");
    }
    // The request is up; the next step wakes the CPU and runs the NOP
    // at PC without touching the request bit.
    let cycles = cpu.execute_next(&mut bus).unwrap();
    assert!(cpu.state == CpuState::Running);
    assert_eq!(bus.if_flag & 0x01, 0x01);
    assert_eq!(cpu.reg.pc, 0x0001);
    assert_eq!(cycles, 1);
}

#[test]
fn illegal_opcode_is_surfaced() {
    let (mut cpu, mut bus) = machine(&[0xD3]);
    assert_eq!(cpu.execute_next(&mut bus), Err(0xD3));
}

#[test]
fn call_and_ret_round_trip_through_stack() {
    // CALL 0x0005 then RET at 0x0005.
    let rom = [0xCD, 0x05, 0x00, 0x00, 0x00, 0xC9];
    let (mut cpu, mut bus) = machine(&rom);
    cpu.reg.sp = 0xC100;
    let cycles = cpu.execute_next(&mut bus).unwrap();
    assert_eq!(cycles, 6);
    assert_eq!(cpu.reg.pc, 0x0005);
    assert_eq!(cpu.reg.sp, 0xC0FE);
    assert_eq!(bus.read_byte(0xC0FF), 0x00);
    assert_eq!(bus.read_byte(0xC0FE), 0x03);
    let cycles = cpu.execute_next(&mut bus).unwrap();
    assert_eq!(cycles, 4);
    assert_eq!(cpu.reg.pc, 0x0003);
    assert_eq!(cpu.reg.sp, 0xC100);
}

#[test]
fn ld_a_hl_plus_post_increments() {
    // LD A, (HL+) reads through HL and then bumps it.
    let (mut cpu, mut bus) = machine(&[0x2A]);
    cpu.reg.set_hl(0xC020);
    bus.write_byte(0xC020, 0x77);
    cpu.execute_next(&mut bus).unwrap();
    assert_eq!(cpu.reg.a, 0x77);
    assert_eq!(cpu.reg.get_hl(), 0xC021);
}

#[test]
fn daa_adjusts_low_digit() {
    // DAA with A = 0x0A and clear flags: the low digit overflowed, so
    // six is added.
    let (mut cpu, mut bus) = machine(&[0x27]);
    cpu.reg.a = 0x0A;
    cpu.reg.f = Flags { z: false, n: false, h: false, c: false };
    cpu.execute_next(&mut bus).unwrap();
    assert_eq!(cpu.reg.a, 0x10);
    assert!(!cpu.reg.f.c);
}

#[test]
fn flag_byte_low_nibble_always_zero() {
    // Whatever is written to F, its low nibble reads back zero.
    let (mut cpu, mut bus) = machine(&[0xF1]);  // POP AF
    cpu.reg.sp = 0xC000;
    bus.write_byte(0xC000, 0xFF);  // would-be F value with junk bits
    bus.write_byte(0xC001, 0x12);
    cpu.execute_next(&mut bus).unwrap();
    assert_eq!(cpu.reg.a, 0x12);
    assert_eq!(cpu.reg.f.bits() & 0x0F, 0);
    assert_eq!(cpu.reg.get_af(), 0x12F0);
}

#[test]
fn cb_swap_then_bit_test() {
    // SWAP A with A = 0xF1 gives 0x1F; BIT 7, A then finds bit 7 clear.
    let (mut cpu, mut bus) = machine(&[0xCB, 0x37, 0xCB, 0x7F]);
    cpu.reg.a = 0xF1;
    let cycles = cpu.execute_next(&mut bus).unwrap();
    assert_eq!(cycles, 2);
    assert_eq!(cpu.reg.a, 0x1F);
    assert!(!cpu.reg.f.z);
    assert!(!cpu.reg.f.c);
    cpu.execute_next(&mut bus).unwrap();
    assert!(cpu.reg.f.z);
    assert!(cpu.reg.f.h);
}

#[test]
fn jr_backward_offset() {
    // A NOP, then JR -3 back to the start.
    let (mut cpu, mut bus) = machine(&[0x00, 0x18, 0xFD]);
    cpu.execute_next(&mut bus).unwrap();
    assert_eq!(cpu.reg.pc, 0x0001);
    let cycles = cpu.execute_next(&mut bus).unwrap();
    assert_eq!(cycles, 3);
    assert_eq!(cpu.reg.pc, 0x0000);
}

#[test]
fn jr_not_taken_costs_two_cycles() {
    // JR NZ with Z set falls through.
    let (mut cpu, mut bus) = machine(&[0x20, 0x10]);
    cpu.reg.f = Flags { z: true, n: false, h: false, c: false };
    let cycles = cpu.execute_next(&mut bus).unwrap();
    assert_eq!(cycles, 2);
    assert_eq!(cpu.reg.pc, 0x0002);
}

#[test]
fn add_hl_sets_half_carry_from_bit_11() {
    // ADD HL, BC with HL = 0x0FFF and BC = 0x0001.
    let (mut cpu, mut bus) = machine(&[0x09]);
    cpu.reg.set_hl(0x0FFF);
    cpu.reg.set_bc(0x0001);
    cpu.reg.f = Flags { z: true, n: true, h: false, c: false };
    let cycles = cpu.execute_next(&mut bus).unwrap();
    assert_eq!(cycles, 2);
    assert_eq!(cpu.reg.get_hl(), 0x1000);
    assert!(cpu.reg.f.z); // Z is preserved by ADD HL
    assert!(!cpu.reg.f.n);
    assert!(cpu.reg.f.h);
    assert!(!cpu.reg.f.c);
}

#[test]
fn sbc_uses_carry_in() {
    // SBC A, 0x00 with A = 0x00 and carry set: wraps to 0xFF.
    let (mut cpu, mut bus) = machine(&[0xDE, 0x00]);
    cpu.reg.a = 0x00;
    cpu.reg.f = Flags { z: false, n: false, h: false, c: true };
    cpu.execute_next(&mut bus).unwrap();
    assert_eq!(cpu.reg.a, 0xFF);
    assert!(cpu.reg.f.n);
    assert!(cpu.reg.f.h);
    assert!(cpu.reg.f.c);
}

#[test]
fn vblank_serviced_before_stat() {
    // Both VBlank and LCD-STAT pending: the lower bit wins the vector.
    let (mut cpu, mut bus) = machine(&[0x00; 0x80]);
    cpu.ime = true;
    bus.ie_flag = 0x03;
    bus.if_flag = 0x03;
    cpu.reg.sp = 0xFFFE;
    cpu.cycles = 0;
    cpu.handle_interrupts(&mut bus);
    assert_eq!(cpu.reg.pc, 0x0040);
    assert_eq!(bus.if_flag & 0x03, 0x02); // STAT still pending
}

#[test]
fn ldh_reaches_high_ram_register_page() {
    // LDH (0x80), A writes high RAM through the 0xFF00 page.
    let (mut cpu, mut bus) = machine(&[0xE0, 0x80, 0xF0, 0x80]);
    cpu.reg.a = 0x5A;
    let cycles = cpu.execute_next(&mut bus).unwrap();
    assert_eq!(cycles, 3);
    assert_eq!(bus.read_byte(0xFF80), 0x5A);
    cpu.reg.a = 0;
    cpu.execute_next(&mut bus).unwrap();
    assert_eq!(cpu.reg.a, 0x5A);
}

#[test]
fn cycles_match_bus_ticks_over_mixed_instructions() {
    // The per-step cycle count is exactly the number of bus ticks, so
    // the PPU's T-cycle counter moves in lockstep (4 T per M cycle).
    let rom = [
        0x00, // NOP
        0x21, 0x00, 0xC0, // LD HL, 0xC000
        0x36, 0x5A, // LD (HL), 0x5A
        0x7E, // LD A, (HL)
        0xC3, 0x00, 0xC0, // JP 0xC000 (runs into RAM NOPs... stop before)
    ];
    let (mut cpu, mut bus) = machine(&rom);
    let mut total = 0u32;
    for _ in 0..4 {
        total += cpu.execute_next(&mut bus).unwrap();
    }
    // NOP 1 + LD HL 3 + LD (HL) 3 + LD A,(HL) 2 = 9 machine cycles,
    // which is 36 T-cycles, still within the first OAM search.
    assert_eq!(total, 9);
    assert_eq!(bus.ppu.total_cycles, 36);
}
