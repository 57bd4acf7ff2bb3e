use vstd::prelude::*;
use crate::bus::Bus;
use crate::bus::bus_mem_unchanged;
use crate::registers::Flags;
use crate::registers::Registers;

verus! {

/// The states the CPU can be in: executing instructions, or halted and
/// waiting for an interrupt request.
#[derive(Clone, Copy, PartialEq, Eq, Structural, Debug)]
pub enum CpuState {
    Halted,
    Running,
}

/// The opcodes with no defined behavior; fetching one is a fatal
/// condition surfaced to the host.
pub open spec fn spec_illegal_opcode(op: u8) -> bool {
    op == 0xD3 || op == 0xDB || op == 0xDD || op == 0xE3 || op == 0xE4 || op == 0xEB || op == 0xEC
        || op == 0xED || op == 0xF4 || op == 0xFC || op == 0xFD
}

/// The pending interrupt set: sources both requested and enabled, in the
/// five meaningful bits.
pub open spec fn spec_pending(b: Bus) -> u8 {
    (b.ie_flag & b.if_flag) & 0x1F
}

/// A step that fetches straight from the caller's state: no interrupt is
/// dispatched first, and the CPU is (or wakes) running.  Under this
/// condition the opcode executed is exactly the byte at PC.
pub open spec fn spec_plain_fetch(cpu: Cpu, b: Bus) -> bool {
    (cpu.state is Running || spec_pending(b) != 0) && !(cpu.ime && spec_pending(b) != 0)
}

/// The mask that clears the interrupt-flag bit of source `i` when a
/// dispatch consumes its request.
pub open spec fn spec_if_clear_mask(i: u8) -> u8 {
    if i == 0 {
        0xFE
    } else if i == 1 {
        0xFD
    } else if i == 2 {
        0xFB
    } else if i == 3 {
        0xF7
    } else {
        0xEF
    }
}

/// The index of the highest-priority pending source (the lowest set
/// bit): VBlank, LCD-STAT, timer, serial, joypad in that order.
pub open spec fn spec_lowest_bit(pend: u8) -> u8 {
    if pend & 1 != 0 {
        0
    } else if pend & 2 != 0 {
        1
    } else if pend & 4 != 0 {
        2
    } else if pend & 8 != 0 {
        3
    } else {
        4
    }
}

/// The 8-bit register selected by a 3-bit opcode field (index 6, the
/// memory operand, is handled separately).
pub open spec fn spec_r8(reg: Registers, i: u8) -> u8 {
    if i == 0 {
        reg.b
    } else if i == 1 {
        reg.c
    } else if i == 2 {
        reg.d
    } else if i == 3 {
        reg.e
    } else if i == 4 {
        reg.h
    } else if i == 5 {
        reg.l
    } else {
        reg.a
    }
}

/// The register file with the 8-bit register `i` replaced (index 6
/// excluded).
pub open spec fn spec_set_r8(reg: Registers, i: u8, v: u8) -> Registers {
    if i == 0 {
        Registers { b: v, ..reg }
    } else if i == 1 {
        Registers { c: v, ..reg }
    } else if i == 2 {
        Registers { d: v, ..reg }
    } else if i == 3 {
        Registers { e: v, ..reg }
    } else if i == 4 {
        Registers { h: v, ..reg }
    } else if i == 5 {
        Registers { l: v, ..reg }
    } else {
        Registers { a: v, ..reg }
    }
}

/// Reading or replacing an 8-bit register commutes with moving PC: the
/// selection never touches PC.
pub proof fn lemma_r8_ignores_pc(reg: Registers, p2: u16, i: u8, v: u8)
    ensures
        spec_r8(Registers { pc: p2, ..reg }, i) == spec_r8(reg, i),
        spec_set_r8(Registers { pc: p2, ..reg }, i, v) == (Registers {
            pc: p2,
            ..spec_set_r8(reg, i, v)
        }),
{
}

/// The register file with the BC pair replaced.
pub open spec fn spec_with_bc(reg: Registers, v: u16) -> Registers {
    Registers { b: (v / 256) as u8, c: (v % 256) as u8, ..reg }
}

/// The register file with the DE pair replaced.
pub open spec fn spec_with_de(reg: Registers, v: u16) -> Registers {
    Registers { d: (v / 256) as u8, e: (v % 256) as u8, ..reg }
}

/// The register file with the HL pair replaced.
pub open spec fn spec_with_hl(reg: Registers, v: u16) -> Registers {
    Registers { h: (v / 256) as u8, l: (v % 256) as u8, ..reg }
}

/// The register file with the AF pair replaced; only the top nibble of
/// the flag byte survives.
pub open spec fn spec_with_af(reg: Registers, v: u16) -> Registers {
    Registers { a: (v / 256) as u8, f: Flags::spec_of_bits((v % 256) as u8), ..reg }
}

/// The 16-bit register selected by a 2-bit opcode field.  Group 1 maps
/// index 3 to SP, group 3 maps it to AF; group 2's indices 2 and 3 both
/// read HL (the post-increment and post-decrement are described by
/// `spec_read_r16_reg`).
pub open spec fn spec_read_r16(reg: Registers, group: u8, i: u8) -> u16 {
    if i == 0 {
        reg.spec_bc()
    } else if i == 1 {
        reg.spec_de()
    } else if i == 3 && group == 1 {
        reg.sp
    } else if i == 3 && group == 3 {
        reg.spec_af()
    } else {
        reg.spec_hl()
    }
}

/// The register file after a group-2 read: index 2 post-increments HL,
/// index 3 post-decrements it; everything else is left alone.
pub open spec fn spec_read_r16_reg(reg: Registers, group: u8, i: u8) -> Registers {
    if group == 2 && i == 2 {
        spec_with_hl(reg, reg.spec_hl().wrapping_add(1))
    } else if group == 2 && i == 3 {
        spec_with_hl(reg, reg.spec_hl().wrapping_sub(1))
    } else {
        reg
    }
}

/// The register file after writing a 16-bit register of a group.
pub open spec fn spec_write_r16(reg: Registers, group: u8, i: u8, v: u16) -> Registers {
    if i == 0 {
        spec_with_bc(reg, v)
    } else if i == 1 {
        spec_with_de(reg, v)
    } else if i == 2 {
        spec_with_hl(reg, v)
    } else if group == 1 {
        Registers { sp: v, ..reg }
    } else if group == 3 {
        spec_with_af(reg, v)
    } else {
        spec_with_hl(reg, v)
    }
}

/// The Sharp SM83 CPU: the register file, the interrupt master enable,
/// the running/halted state, and the machine cycles spent on the current
/// instruction.
pub struct Cpu {
    /// All the registers associated with the CPU.
    pub reg: Registers,
    /// The interrupt master enable flag; interrupts are serviced iff it
    /// is set.
    pub ime: bool,
    /// The state the CPU is in.
    pub state: CpuState,
    /// Machine cycles spent executing the current instruction.
    pub cycles: u32,
}

impl Cpu {
    /// Create a CPU with cleared registers, interrupts disabled, in the
    /// running state.
    pub fn new() -> (r: Cpu)
        ensures
            r == (Cpu {
                reg: Registers::spec_cleared(),
                ime: false,
                state: CpuState::Running,
                cycles: 0u32,
            }),
    {
        Cpu { reg: Registers::new(), ime: false, state: CpuState::Running, cycles: 0 }
    }

    /// Read the byte at PC, advance PC, and spend one machine cycle.
    /// The returned byte is what the bus held before any device ticked.
    pub fn imm_byte(&mut self, bus: &mut Bus) -> (r: u8)
        requires
            old(self).cycles < 1000,
            old(bus).wf(),
        ensures
            final(bus).wf(),
            r == old(bus).spec_read(old(self).reg.pc),
            *final(self) == (Cpu {
                reg: (Registers { pc: old(self).reg.pc.wrapping_add(1), ..old(self).reg }),
                cycles: (old(self).cycles + 1) as u32,
                ..*old(self)
            }),
            final(bus).ticks@ == old(bus).ticks@ + 1,
            bus_mem_unchanged(*old(bus), *final(bus)),
            final(bus).if_flag & old(bus).if_flag == old(bus).if_flag,
            final(bus).if_flag | 3 == old(bus).if_flag | 3,
    {
        let value: u8 = bus.read_byte(self.reg.pc);
        self.cycles = self.cycles + 1;
        self.reg.pc = self.reg.pc.wrapping_add(1);
        bus.tick();
        value
    }

    /// Spend one machine cycle with no memory access, still advancing
    /// every device on the bus.
    pub fn internal_cycle(&mut self, bus: &mut Bus)
        requires
            old(self).cycles < 1000,
            old(bus).wf(),
        ensures
            final(bus).wf(),
            *final(self) == (Cpu { cycles: (old(self).cycles + 1) as u32, ..*old(self) }),
            final(bus).ticks@ == old(bus).ticks@ + 1,
            bus_mem_unchanged(*old(bus), *final(bus)),
            final(bus).if_flag & old(bus).if_flag == old(bus).if_flag,
            final(bus).if_flag | 3 == old(bus).if_flag | 3,
    {
        self.cycles = self.cycles + 1;
        bus.tick();
    }

    /// Read a byte from the bus and spend the machine cycle that the
    /// access costs.
    pub(crate) fn read_cycle(&mut self, bus: &mut Bus, addr: u16) -> (r: u8)
        requires
            old(self).cycles < 1000,
            old(bus).wf(),
        ensures
            final(bus).wf(),
            r == old(bus).spec_read(addr),
            *final(self) == (Cpu { cycles: (old(self).cycles + 1) as u32, ..*old(self) }),
            final(bus).ticks@ == old(bus).ticks@ + 1,
            bus_mem_unchanged(*old(bus), *final(bus)),
            final(bus).if_flag & old(bus).if_flag == old(bus).if_flag,
            final(bus).if_flag | 3 == old(bus).if_flag | 3,
    {
        let value: u8 = bus.read_byte(addr);
        self.cycles = self.cycles + 1;
        bus.tick();
        value
    }

    /// Write a byte through the bus and spend the machine cycle that the
    /// access costs.  The clauses on single regions hold because a
    /// device tick never touches memory.
    pub(crate) fn write_cycle(&mut self, bus: &mut Bus, addr: u16, value: u8)
        requires
            old(self).cycles < 1000,
            old(bus).wf(),
        ensures
            final(bus).wf(),
            *final(self) == (Cpu { cycles: (old(self).cycles + 1) as u32, ..*old(self) }),
            final(bus).ticks@ == old(bus).ticks@ + 1,
            final(bus).rom@ == old(bus).rom@,
            0xC000 <= addr && addr < 0xE000 ==> final(bus).wram@ == old(bus).wram@.update(
                addr - 0xC000,
                value,
            ),
            0xE000 <= addr && addr < 0xFE00 ==> final(bus).wram@ == old(bus).wram@.update(
                addr - 0xE000,
                value,
            ),
            0xFF80 <= addr && addr < 0xFFFF ==> final(bus).hram@ == old(bus).hram@.update(
                addr - 0xFF80,
                value,
            ),
            0x8000 <= addr && addr < 0xA000 ==> final(bus).ppu.vram@ == old(bus).ppu.vram@.update(addr - 0x8000, value),
            0xFE00 <= addr && addr < 0xFEA0 ==> final(bus).ppu.oam@ == old(bus).ppu.oam@.update(
                addr - 0xFE00,
                value,
            ),
            addr == 0xFFFF ==> final(bus).ie_flag == value,
            crate::bus::spec_writable(addr) ==> final(bus).spec_read(addr) == value,
            0xC000 <= addr && addr < 0xDE00 ==> final(bus).spec_read((addr + 0x2000) as u16)
                == value,
            0xE000 <= addr && addr < 0xFE00 ==> final(bus).spec_read((addr - 0x2000) as u16)
                == value,
            !(0xC000 <= addr && addr < 0xFE00) ==> final(bus).wram@ == old(bus).wram@,
            !(0xFF80 <= addr && addr < 0xFFFF) ==> final(bus).hram@ == old(bus).hram@,
            !(0x8000 <= addr && addr < 0xA000) ==> final(bus).ppu.vram@ == old(bus).ppu.vram@,
            !(0xFE00 <= addr && addr < 0xFEA0) ==> final(bus).ppu.oam@ == old(bus).ppu.oam@,
            addr != 0xFFFF ==> final(bus).ie_flag == old(bus).ie_flag,
            addr != 0xFF0F ==> final(bus).if_flag | 3 == old(bus).if_flag | 3 && final(bus).if_flag & old(bus).if_flag == old(bus).if_flag,
    {
        bus.write_byte(addr, value);
        self.cycles = self.cycles + 1;
        bus.tick();
    }

    /// Fetch a 16-bit immediate, low byte first, spending two machine
    /// cycles.
    pub(crate) fn imm_word(&mut self, bus: &mut Bus) -> (r: u16)
        requires
            old(self).cycles < 900,
            old(bus).wf(),
        ensures
            final(bus).wf(),
            *final(self) == (Cpu {
                reg: (Registers { pc: old(self).reg.pc.wrapping_add(2), ..old(self).reg }),
                cycles: (old(self).cycles + 2) as u32,
                ..*old(self)
            }),
            final(bus).ticks@ == old(bus).ticks@ + 2,
            bus_mem_unchanged(*old(bus), *final(bus)),
            !crate::bus::spec_tick_volatile(old(self).reg.pc.wrapping_add(1)) ==> r == old(bus).spec_read(old(self).reg.pc.wrapping_add(1)) * 256 + old(bus).spec_read(
                old(self).reg.pc,
            ),
    {
        let ghost b0 = *bus;
        let lo: u8 = self.imm_byte(bus);
        proof {
            if !crate::bus::spec_tick_volatile(old(self).reg.pc.wrapping_add(1)) {
                crate::bus::lemma_read_stable(b0, *bus, old(self).reg.pc.wrapping_add(1));
            }
        }
        let hi: u8 = self.imm_byte(bus);
        proof {
            assert(old(self).reg.pc.wrapping_add(1).wrapping_add(1) == old(self).reg.pc.wrapping_add(2));
        }
        (hi as u16) * 256 + (lo as u16)
    }

    /// Pop a 16-bit value from the stack, low byte first, spending two
    /// machine cycles.
    pub(crate) fn pop16(&mut self, bus: &mut Bus) -> (r: u16)
        requires
            old(self).cycles < 900,
            old(bus).wf(),
        ensures
            final(bus).wf(),
            *final(self) == (Cpu {
                reg: (Registers { sp: old(self).reg.sp.wrapping_add(2), ..old(self).reg }),
                cycles: (old(self).cycles + 2) as u32,
                ..*old(self)
            }),
            final(bus).ticks@ == old(bus).ticks@ + 2,
            bus_mem_unchanged(*old(bus), *final(bus)),
            !crate::bus::spec_tick_volatile(old(self).reg.sp.wrapping_add(1)) ==> r == old(bus).spec_read(old(self).reg.sp.wrapping_add(1)) * 256 + old(bus).spec_read(
                old(self).reg.sp,
            ),
    {
        let ghost b0 = *bus;
        let lo: u8 = self.read_cycle(bus, self.reg.sp);
        self.reg.sp = self.reg.sp.wrapping_add(1);
        proof {
            if !crate::bus::spec_tick_volatile(old(self).reg.sp.wrapping_add(1)) {
                crate::bus::lemma_read_stable(b0, *bus, old(self).reg.sp.wrapping_add(1));
            }
        }
        let hi: u8 = self.read_cycle(bus, self.reg.sp);
        self.reg.sp = self.reg.sp.wrapping_add(1);
        proof {
            assert(old(self).reg.sp.wrapping_add(1).wrapping_add(1) == old(self).reg.sp.wrapping_add(2));
        }
        (hi as u16) * 256 + (lo as u16)
    }

    /// Push a 16-bit value onto the stack, high byte first, spending two
    /// machine cycles.
    pub(crate) fn push16(&mut self, bus: &mut Bus, value: u16)
        requires
            old(self).cycles < 900,
            old(bus).wf(),
        ensures
            final(bus).wf(),
            *final(self) == (Cpu {
                reg: (Registers { sp: old(self).reg.sp.wrapping_sub(2), ..old(self).reg }),
                cycles: (old(self).cycles + 2) as u32,
                ..*old(self)
            }),
            final(bus).ticks@ == old(bus).ticks@ + 2,
            final(bus).rom@ == old(bus).rom@,
            0xFF82 <= old(self).reg.sp ==> final(bus).hram@ == old(bus).hram@.update(
                old(self).reg.sp - 1 - 0xFF80,
                (value / 256) as u8,
            ).update(old(self).reg.sp - 2 - 0xFF80, (value % 256) as u8),
            0xC002 <= old(self).reg.sp && old(self).reg.sp <= 0xE000 ==> final(bus).wram@ == old(bus).wram@.update(old(self).reg.sp - 1 - 0xC000, (value / 256) as u8).update(
                old(self).reg.sp - 2 - 0xC000,
                (value % 256) as u8,
            ),
            crate::bus::spec_writable(old(self).reg.sp.wrapping_sub(1)) ==> final(bus).spec_read(
                old(self).reg.sp.wrapping_sub(1),
            ) == value / 256,
            crate::bus::spec_writable(old(self).reg.sp.wrapping_sub(2)) ==> final(bus).spec_read(
                old(self).reg.sp.wrapping_sub(2),
            ) == value % 256,
            old(self).reg.sp.wrapping_sub(1) != 0xFF0F && old(self).reg.sp.wrapping_sub(2)
                != 0xFF0F ==> final(bus).if_flag | 3 == old(bus).if_flag | 3 && final(bus).if_flag
                & old(bus).if_flag == old(bus).if_flag,
    {
        proof {
            assert(forall|a: u8, b: u8, c: u8|
                (#[trigger] (b & a)) == a && (#[trigger] (c & b)) == b ==> (c & a) == a)
                by (bit_vector);
        }
        self.reg.sp = self.reg.sp.wrapping_sub(1);
        let hi: u8 = (value / 256) as u8;
        self.write_cycle(bus, self.reg.sp, hi);
        self.reg.sp = self.reg.sp.wrapping_sub(1);
        let lo: u8 = (value % 256) as u8;
        self.write_cycle(bus, self.reg.sp, lo);
        proof {
            assert(old(self).reg.sp.wrapping_sub(1).wrapping_sub(1) == old(self).reg.sp.wrapping_sub(2));
        }
    }

    /// Read the 8-bit operand an opcode's 3-bit field selects; index 6
    /// reads memory at HL and therefore costs a machine cycle.
    pub fn read_r8(&mut self, bus: &mut Bus, r8: u8) -> (r: u8)
        requires
            r8 < 8,
            old(self).cycles < 1000,
            old(bus).wf(),
        ensures
            final(bus).wf(),
            bus_mem_unchanged(*old(bus), *final(bus)),
            r8 != 6 ==> *final(self) == *old(self) && *final(bus) == *old(bus) && r == spec_r8(
                old(self).reg,
                r8,
            ),
            r8 == 6 ==> *final(self) == (Cpu {
                cycles: (old(self).cycles + 1) as u32,
                ..*old(self)
            }) && r == old(bus).spec_read(old(self).reg.spec_hl()) && final(bus).ticks@ == old(bus).ticks@ + 1,
            final(bus).ticks@ == old(bus).ticks@ + (final(self).cycles - old(self).cycles),
    {
        if r8 == 0 {
            self.reg.b
        } else if r8 == 1 {
            self.reg.c
        } else if r8 == 2 {
            self.reg.d
        } else if r8 == 3 {
            self.reg.e
        } else if r8 == 4 {
            self.reg.h
        } else if r8 == 5 {
            self.reg.l
        } else if r8 == 6 {
            let addr: u16 = self.reg.get_hl();
            self.read_cycle(bus, addr)
        } else {
            self.reg.a
        }
    }

    /// Write the 8-bit operand an opcode's 3-bit field selects; index 6
    /// writes memory at HL and therefore costs a machine cycle.
    pub fn write_r8(&mut self, bus: &mut Bus, r8: u8, value: u8)
        requires
            r8 < 8,
            old(self).cycles < 1000,
            old(bus).wf(),
        ensures
            final(bus).wf(),
            final(bus).rom@ == old(bus).rom@,
            r8 != 6 ==> *final(self) == (Cpu {
                reg: spec_set_r8(old(self).reg, r8, value),
                ..*old(self)
            }) && *final(bus) == *old(bus),
            r8 == 6 ==> *final(self) == (Cpu {
                cycles: (old(self).cycles + 1) as u32,
                ..*old(self)
            }) && final(bus).ticks@ == old(bus).ticks@ + 1,
            final(bus).ticks@ == old(bus).ticks@ + (final(self).cycles - old(self).cycles),
            r8 == 6 && crate::bus::spec_writable(old(self).reg.spec_hl()) ==> final(bus).spec_read(old(self).reg.spec_hl()) == value,
            r8 == 6 && 0xC000 <= old(self).reg.spec_hl() && old(self).reg.spec_hl() < 0xE000
                ==> final(bus).wram@ == old(bus).wram@.update(
                old(self).reg.spec_hl() - 0xC000,
                value,
            ),
            r8 == 6 && 0xFF80 <= old(self).reg.spec_hl() && old(self).reg.spec_hl() < 0xFFFF
                ==> final(bus).hram@ == old(bus).hram@.update(
                old(self).reg.spec_hl() - 0xFF80,
                value,
            ),
            r8 == 6 && 0x8000 <= old(self).reg.spec_hl() && old(self).reg.spec_hl() < 0xA000
                ==> final(bus).ppu.vram@ == old(bus).ppu.vram@.update(
                old(self).reg.spec_hl() - 0x8000,
                value,
            ),
            r8 == 6 && 0xFE00 <= old(self).reg.spec_hl() && old(self).reg.spec_hl() < 0xFEA0
                ==> final(bus).ppu.oam@ == old(bus).ppu.oam@.update(
                old(self).reg.spec_hl() - 0xFE00,
                value,
            ),
            r8 == 6 && 0xC000 <= old(self).reg.spec_hl() && old(self).reg.spec_hl() < 0xDE00
                ==> final(bus).spec_read((old(self).reg.spec_hl() + 0x2000) as u16) == value,
            r8 == 6 && 0xE000 <= old(self).reg.spec_hl() && old(self).reg.spec_hl() < 0xFE00
                ==> final(bus).spec_read((old(self).reg.spec_hl() - 0x2000) as u16) == value,
    {
        if r8 == 0 {
            self.reg.b = value;
        } else if r8 == 1 {
            self.reg.c = value;
        } else if r8 == 2 {
            self.reg.d = value;
        } else if r8 == 3 {
            self.reg.e = value;
        } else if r8 == 4 {
            self.reg.h = value;
        } else if r8 == 5 {
            self.reg.l = value;
        } else if r8 == 6 {
            let addr: u16 = self.reg.get_hl();
            self.write_cycle(bus, addr, value);
        } else {
            self.reg.a = value;
        }
    }

    /// Read a 16-bit register by group and index.  Group 2's indices 2
    /// and 3 read HL and then post-increment or post-decrement it.
    pub fn read_r16<const GROUP: u8>(&mut self, r16: u8) -> (r: u16)
        requires
            1 <= GROUP && GROUP <= 3,
            r16 < 4,
        ensures
            r == spec_read_r16(old(self).reg, GROUP, r16),
            *final(self) == (Cpu { reg: spec_read_r16_reg(old(self).reg, GROUP, r16), ..*old(self) }),
    {
        if r16 == 0 {
            self.reg.get_bc()
        } else if r16 == 1 {
            self.reg.get_de()
        } else if r16 == 3 && GROUP == 1 {
            self.reg.sp
        } else if r16 == 3 && GROUP == 3 {
            self.reg.get_af()
        } else {
            let value: u16 = self.reg.get_hl();
            if GROUP == 2 {
                if r16 == 2 {
                    self.reg.set_hl(value.wrapping_add(1));
                } else {
                    self.reg.set_hl(value.wrapping_sub(1));
                }
            }
            value
        }
    }

    /// Write a 16-bit register by group and index.
    pub fn write_r16<const GROUP: u8>(&mut self, r16: u8, value: u16)
        requires
            1 <= GROUP && GROUP <= 3,
            r16 < 4,
        ensures
            *final(self) == (Cpu { reg: spec_write_r16(old(self).reg, GROUP, r16, value), ..*old(self) }),
    {
        if r16 == 0 {
            self.reg.set_bc(value);
        } else if r16 == 1 {
            self.reg.set_de(value);
        } else if r16 == 2 {
            self.reg.set_hl(value);
        } else if GROUP == 1 {
            self.reg.sp = value;
        } else if GROUP == 3 {
            self.reg.set_af(value);
        } else {
            self.reg.set_hl(value);
        }
    }

    /// Service pending interrupts: any pending request wakes a halted
    /// CPU, and when the master enable is set the highest-priority
    /// pending source is dispatched, costing five machine cycles.
    pub fn handle_interrupts(&mut self, bus: &mut Bus)
        requires
            old(self).cycles < 500,
            old(bus).wf(),
        ensures
            final(bus).wf(),
            final(bus).rom@ == old(bus).rom@,
            final(bus).ticks@ == old(bus).ticks@ + (final(self).cycles - old(self).cycles),
            old(self).cycles <= final(self).cycles <= old(self).cycles + 5,
            spec_pending(*old(bus)) != 0 ==> final(self).state is Running,
            spec_pending(*old(bus)) == 0 ==> *final(self) == *old(self) && *final(bus) == *old(bus),
            !old(self).ime ==> *final(self) == (Cpu {
                state: (if spec_pending(*old(bus)) != 0 {
                    CpuState::Running
                } else {
                    old(self).state
                }),
                ..*old(self)
            }) && *final(bus) == *old(bus),
            old(self).ime && spec_pending(*old(bus)) != 0 ==> {
                &&& final(self).ime == false
                &&& final(self).state is Running
                &&& final(self).cycles == old(self).cycles + 5
                &&& final(self).reg == (Registers {
                    pc: (0x40 + 8 * spec_lowest_bit(spec_pending(*old(bus)))) as u16,
                    sp: old(self).reg.sp.wrapping_sub(2),
                    ..old(self).reg
                })
                &&& (0xFF82 <= old(self).reg.sp ==> final(bus).hram@ == old(bus).hram@.update(
                    old(self).reg.sp - 1 - 0xFF80,
                    (old(self).reg.pc / 256) as u8,
                ).update(old(self).reg.sp - 2 - 0xFF80, (old(self).reg.pc % 256) as u8))
                &&& (0xC002 <= old(self).reg.sp && old(self).reg.sp <= 0xE000 ==> final(bus).wram@
                    == old(bus).wram@.update(
                    old(self).reg.sp - 1 - 0xC000,
                    (old(self).reg.pc / 256) as u8,
                ).update(old(self).reg.sp - 2 - 0xC000, (old(self).reg.pc % 256) as u8))
                &&& (crate::bus::spec_writable(old(self).reg.sp.wrapping_sub(1)) ==> final(bus).spec_read(old(self).reg.sp.wrapping_sub(1)) == old(self).reg.pc / 256)
                &&& (crate::bus::spec_writable(old(self).reg.sp.wrapping_sub(2)) ==> final(bus).spec_read(old(self).reg.sp.wrapping_sub(2)) == old(self).reg.pc % 256)
                &&& (old(self).reg.sp.wrapping_sub(1) != 0xFF0F && old(self).reg.sp.wrapping_sub(2)
                    != 0xFF0F ==> {
                    let cleared = old(bus).if_flag & spec_if_clear_mask(
                        spec_lowest_bit(spec_pending(*old(bus))),
                    );
                    final(bus).if_flag | 3 == cleared | 3 && final(bus).if_flag & cleared
                        == cleared
                })
            },
    {
        let pending: u8 = (bus.ie_flag & bus.if_flag) & 0x1F;
        if pending != 0 {
            self.state = CpuState::Running;
        }
        if !self.ime {
            return ;
        }
        if pending == 0 {
            return ;
        }
        let index: u8 = if pending & 1 != 0 {
            0
        } else if pending & 2 != 0 {
            1
        } else if pending & 4 != 0 {
            2
        } else if pending & 8 != 0 {
            3
        } else {
            4
        };
        let mask: u8 = if index == 0 {
            0xFE
        } else if index == 1 {
            0xFD
        } else if index == 2 {
            0xFB
        } else if index == 3 {
            0xF7
        } else {
            0xEF
        };
        proof {
            assert(forall|a: u8, b: u8, c: u8|
                (#[trigger] (b & a)) == a && (#[trigger] (c & b)) == b ==> (c & a) == a)
                by (bit_vector);
        }
        // Drop the serviced request and the master enable.
        bus.if_flag = bus.if_flag & mask;
        self.ime = false;
        // Two wait states precede every dispatch.
        self.internal_cycle(bus);
        self.internal_cycle(bus);
        // Push PC, high byte first.
        let pc: u16 = self.reg.pc;
        self.push16(bus, pc);
        self.reg.pc = 0x40 + 8 * (index as u16);
        let ghost b_pushed = *bus;
        self.internal_cycle(bus);
        proof {
            if crate::bus::spec_writable(old(self).reg.sp.wrapping_sub(1)) {
                crate::bus::lemma_read_stable(b_pushed, *bus, old(self).reg.sp.wrapping_sub(1));
            }
            if crate::bus::spec_writable(old(self).reg.sp.wrapping_sub(2)) {
                crate::bus::lemma_read_stable(b_pushed, *bus, old(self).reg.sp.wrapping_sub(2));
            }
        }
    }

    /// Execute one step: service at most one interrupt, then run one
    /// instruction (or burn one cycle when halted).  Returns the machine
    /// cycles consumed, which equals exactly the number of times the bus
    /// was ticked; an undefined opcode is surfaced as the error.
    #[verifier::rlimit(100)]
    pub fn execute_next(&mut self, bus: &mut Bus) -> (r: Result<u32, u8>)
        requires
            old(bus).wf(),
        ensures
            final(bus).wf(),
            final(bus).rom@ == old(bus).rom@,
            final(bus).ticks@ == old(bus).ticks@ + final(self).cycles,
            1 <= final(self).cycles <= 11,
            r is Ok ==> r->Ok_0 == final(self).cycles,
            r is Err ==> spec_illegal_opcode(r->Err_0),
            spec_plain_fetch(*old(self), *old(bus)) ==> ((r is Err) <==> spec_illegal_opcode(
                old(bus).spec_read(old(self).reg.pc),
            )) && (r is Err ==> r->Err_0 == old(bus).spec_read(old(self).reg.pc)),
            old(self).state is Halted && spec_pending(*old(bus)) == 0 ==> r == Ok::<u32, u8>(1)
                && *final(self) == (Cpu { cycles: 1u32, ..*old(self) }),
            r is Err && !crate::bus::spec_tick_volatile(final(self).reg.pc.wrapping_sub(1))
                ==> spec_illegal_opcode(final(bus).spec_read(final(self).reg.pc.wrapping_sub(1)))
                && r->Err_0 == final(bus).spec_read(final(self).reg.pc.wrapping_sub(1)),
            ({
                let op = old(bus).spec_read(old(self).reg.pc);
                spec_plain_fetch(*old(self), *old(bus)) && op == 0x76 ==> *final(self) == (Cpu {
                    reg: (Registers {
                        pc: old(self).reg.pc.wrapping_add(1),
                        ..old(self).reg
                    }),
                    ime: old(self).ime,
                    state: CpuState::Halted,
                    cycles: 1u32,
                })
            }),
            ({
                let op = old(bus).spec_read(old(self).reg.pc);
                spec_plain_fetch(*old(self), *old(bus)) && 0x40 <= op && op < 0x80 && op != 0x76
                    && (op / 8) % 8 != 6 && op % 8 != 6 ==> *final(self) == (Cpu {
                    reg: (Registers {
                        pc: old(self).reg.pc.wrapping_add(1),
                        ..spec_set_r8(old(self).reg, (op / 8) % 8, spec_r8(old(self).reg, op % 8))
                    }),
                    ime: old(self).ime,
                    state: CpuState::Running,
                    cycles: 1u32,
                })
            }),
            ({
                let op = old(bus).spec_read(old(self).reg.pc);
                spec_plain_fetch(*old(self), *old(bus)) && 0x80 <= op && op < 0xC0 && op % 8 != 6
                    ==> *final(self) == (Cpu {
                    reg: (Registers {
                        pc: old(self).reg.pc.wrapping_add(1),
                        ..crate::instructions::spec_alu(
                            old(self).reg,
                            (op / 8) % 8,
                            spec_r8(old(self).reg, op % 8),
                        )
                    }),
                    ime: old(self).ime,
                    state: CpuState::Running,
                    cycles: 1u32,
                })
            }),
            ({
                let op = old(bus).spec_read(old(self).reg.pc);
                spec_plain_fetch(*old(self), *old(bus)) && 0xC0 <= op && op % 8 == 6
                    && !crate::bus::spec_tick_volatile(old(self).reg.pc.wrapping_add(1))
                    ==> *final(self) == (Cpu {
                    reg: (Registers {
                        pc: old(self).reg.pc.wrapping_add(2),
                        ..crate::instructions::spec_alu(
                            old(self).reg,
                            (op / 8) % 8,
                            old(bus).spec_read(old(self).reg.pc.wrapping_add(1)),
                        )
                    }),
                    ime: old(self).ime,
                    state: CpuState::Running,
                    cycles: 2u32,
                })
            }),
            ({
                let op = old(bus).spec_read(old(self).reg.pc);
                spec_plain_fetch(*old(self), *old(bus)) && 0x40 <= op && op < 0x80 && op != 0x76
                    && op % 8 == 6 && !crate::bus::spec_tick_volatile(old(self).reg.spec_hl())
                    ==> *final(self) == (Cpu {
                    reg: (Registers {
                        pc: old(self).reg.pc.wrapping_add(1),
                        ..spec_set_r8(
                            old(self).reg,
                            (op / 8) % 8,
                            old(bus).spec_read(old(self).reg.spec_hl()),
                        )
                    }),
                    ime: old(self).ime,
                    state: CpuState::Running,
                    cycles: 2u32,
                })
            }),
            ({
                let op = old(bus).spec_read(old(self).reg.pc);
                spec_plain_fetch(*old(self), *old(bus)) && 0x80 <= op && op < 0xC0 && op % 8 == 6
                    && !crate::bus::spec_tick_volatile(old(self).reg.spec_hl()) ==> *final(self)
                    == (Cpu {
                    reg: (Registers {
                        pc: old(self).reg.pc.wrapping_add(1),
                        ..crate::instructions::spec_alu(
                            old(self).reg,
                            (op / 8) % 8,
                            old(bus).spec_read(old(self).reg.spec_hl()),
                        )
                    }),
                    ime: old(self).ime,
                    state: CpuState::Running,
                    cycles: 2u32,
                })
            }),
            ({
                let op = old(bus).spec_read(old(self).reg.pc);
                spec_plain_fetch(*old(self), *old(bus)) && 0x40 <= op && op < 0x80 && op != 0x76
                    && (op / 8) % 8 == 6 && crate::bus::spec_writable(old(self).reg.spec_hl())
                    ==> final(bus).spec_read(old(self).reg.spec_hl()) == spec_r8(
                    old(self).reg,
                    op % 8,
                ) && *final(self) == (Cpu {
                    reg: (Registers {
                        pc: old(self).reg.pc.wrapping_add(1),
                        ..old(self).reg
                    }),
                    ime: old(self).ime,
                    state: CpuState::Running,
                    cycles: 2u32,
                })
            }),
            ({
                let op = old(bus).spec_read(old(self).reg.pc);
                spec_plain_fetch(*old(self), *old(bus)) && op < 0x40 && op % 8 == 4 && (op / 8) % 8
                    != 6 ==> *final(self) == (Cpu {
                    reg: (Registers {
                        pc: old(self).reg.pc.wrapping_add(1),
                        f: (Flags {
                            z: spec_r8(old(self).reg, (op / 8) % 8).wrapping_add(1) == 0,
                            n: false,
                            h: spec_r8(old(self).reg, (op / 8) % 8) % 16 == 15,
                            c: old(self).reg.f.c,
                        }),
                        ..spec_set_r8(
                            old(self).reg,
                            (op / 8) % 8,
                            spec_r8(old(self).reg, (op / 8) % 8).wrapping_add(1),
                        )
                    }),
                    ime: old(self).ime,
                    state: CpuState::Running,
                    cycles: 1u32,
                })
            }),
            ({
                let op = old(bus).spec_read(old(self).reg.pc);
                spec_plain_fetch(*old(self), *old(bus)) && op < 0x40 && op % 8 == 5 && (op / 8) % 8
                    != 6 ==> *final(self) == (Cpu {
                    reg: (Registers {
                        pc: old(self).reg.pc.wrapping_add(1),
                        f: (Flags {
                            z: spec_r8(old(self).reg, (op / 8) % 8).wrapping_sub(1) == 0,
                            n: true,
                            h: spec_r8(old(self).reg, (op / 8) % 8) % 16 == 0,
                            c: old(self).reg.f.c,
                        }),
                        ..spec_set_r8(
                            old(self).reg,
                            (op / 8) % 8,
                            spec_r8(old(self).reg, (op / 8) % 8).wrapping_sub(1),
                        )
                    }),
                    ime: old(self).ime,
                    state: CpuState::Running,
                    cycles: 1u32,
                })
            }),
    {
        self.cycles = 0;
        self.handle_interrupts(bus);
        if self.state == CpuState::Halted {
            self.internal_cycle(bus);
            Ok(self.cycles)
        } else {
            let ghost b_fetch = *bus;
            let ghost pc_fetch = self.reg.pc;
            let opcode: u8 = self.imm_byte(bus);
            proof {
                if !crate::bus::spec_tick_volatile(pc_fetch) {
                    crate::bus::lemma_read_stable(b_fetch, *bus, pc_fetch);
                }
                if !crate::bus::spec_tick_volatile(pc_fetch.wrapping_add(1)) {
                    crate::bus::lemma_read_stable(b_fetch, *bus, pc_fetch.wrapping_add(1));
                }
                if !crate::bus::spec_tick_volatile(self.reg.spec_hl()) {
                    crate::bus::lemma_read_stable(b_fetch, *bus, self.reg.spec_hl());
                }
                let op = b_fetch.spec_read(pc_fetch);
                lemma_r8_ignores_pc(
                    old(self).reg,
                    pc_fetch.wrapping_add(1),
                    (op / 8) % 8,
                    spec_r8(old(self).reg, op % 8),
                );
                lemma_r8_ignores_pc(old(self).reg, pc_fetch.wrapping_add(1), op % 8, 0);
                crate::instructions::lemma_alu_ignores_pc(
                    old(self).reg,
                    pc_fetch.wrapping_add(1),
                    (op / 8) % 8,
                    spec_r8(old(self).reg, op % 8),
                );
            }
            match self.decode_and_execute(bus, opcode) {
                Ok(()) => Ok(self.cycles),
                Err(op) => Err(op),
            }
        }
    }
}

} // verus!
