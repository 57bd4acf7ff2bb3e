use vstd::prelude::*;
use crate::bus::Bus;
use crate::bus::GbKey;
use crate::bus::spec_key_pressed;
use crate::bus::spec_key_selected;
use crate::bus::spec_with_key;
use crate::cpu::Cpu;
use crate::cpu::CpuState;
use crate::cpu::spec_illegal_opcode;
use crate::registers::Flags;
use crate::registers::Registers;

verus! {

/// Machine cycles per frame: 70,224 T-cycles at 4 T-cycles each.
pub const M_CYCLES_PER_FRAME: u32 = 17556;

/// The whole machine: the CPU and the bus it drives, stepped a frame at
/// a time.
pub struct GameBoy {
    pub bus: Bus,
    pub cpu: Cpu,
}

impl GameBoy {
    /// The machine invariant.
    pub open spec fn wf(self) -> bool {
        self.bus.wf()
    }

    /// Create a machine with the given cartridge image loaded at
    /// address 0.
    pub fn new(rom: &[u8]) -> (r: GameBoy)
        ensures
            r.wf(),
            r.bus.rom@ == rom@,
            r.bus.ticks@ == 0,
            r.cpu == (Cpu {
                reg: Registers::spec_cleared(),
                ime: false,
                state: CpuState::Running,
                cycles: 0u32,
            }),
            r.bus.ie_flag == 0 && r.bus.if_flag == 0,
            r.bus.ppu.ly == 0 && r.bus.ppu.current_mode is OamSearch && r.bus.ppu.total_cycles
                == 0 && r.bus.ppu.lcdc == 0x91,
    {
        GameBoy { bus: Bus::new(rom), cpu: Cpu::new() }
    }

    /// Set the registers and I/O values the boot ROM would have left
    /// behind, so execution can start straight at the cartridge entry.
    pub fn skip_bootrom(&mut self)
        requires
            old(self).wf(),
        ensures
            final(self).wf(),
            final(self).cpu == (Cpu {
                reg: (Registers {
                    a: 0x01u8,
                    f: Flags { z: true, n: false, h: true, c: true },
                    b: 0x00u8,
                    c: 0x13u8,
                    d: 0x00u8,
                    e: 0xD8u8,
                    h: 0x01u8,
                    l: 0x4Du8,
                    sp: 0xFFFEu16,
                    pc: 0x0100u16,
                }),
                ..old(self).cpu
            }),
            final(self).bus == (Bus { ppu: final(self).bus.ppu, ..old(self).bus }),
            final(self).bus.ppu == (crate::ppu::Ppu {
                lcdc: 0x91u8,
                bgp: 0xFCu8,
                obp0: 0xFFu8,
                obp1: 0xFFu8,
                ..old(self).bus.ppu
            }),
    {
        self.cpu.reg.a = 0x01;
        self.cpu.reg.set_f(0xB0);
        self.cpu.reg.set_bc(0x0013);
        self.cpu.reg.set_de(0x00D8);
        self.cpu.reg.set_hl(0x014D);
        self.cpu.reg.sp = 0xFFFE;
        self.cpu.reg.pc = 0x0100;
        self.bus.ppu.lcdc = 0x91;
        self.bus.ppu.bgp = 0xFC;
        self.bus.ppu.obp0 = 0xFF;
        self.bus.ppu.obp1 = 0xFF;
        proof {
            assert(Flags::spec_of_bits(0xB0) == (Flags { z: true, n: false, h: true, c: true }))
                by (bit_vector);
        }
    }

    /// Run CPU steps until a frame's worth of machine cycles has
    /// accumulated.  On success the accumulated cycle count — equal to
    /// the number of bus ticks — lies in the frame window; an undefined
    /// opcode stops execution and is surfaced as the error.
    pub fn execute_frame(&mut self) -> (r: Result<(), u8>)
        requires
            old(self).wf(),
        ensures
            final(self).wf(),
            final(self).bus.rom@ == old(self).bus.rom@,
            final(self).bus.ticks@ > old(self).bus.ticks@,
            r is Ok ==> M_CYCLES_PER_FRAME <= final(self).bus.ticks@ - old(self).bus.ticks@
                < M_CYCLES_PER_FRAME + 11,
            r is Err ==> spec_illegal_opcode(r->Err_0),
            r is Err && !crate::bus::spec_tick_volatile(final(self).cpu.reg.pc.wrapping_sub(1))
                ==> spec_illegal_opcode(
                final(self).bus.spec_read(final(self).cpu.reg.pc.wrapping_sub(1)),
            ) && r->Err_0 == final(self).bus.spec_read(final(self).cpu.reg.pc.wrapping_sub(1)),
    {
        let mut cycles: u32 = 0;
        while cycles < M_CYCLES_PER_FRAME
            invariant
                self.wf(),
                self.bus.rom@ == old(self).bus.rom@,
                self.bus.ticks@ == old(self).bus.ticks@ + cycles,
                cycles < M_CYCLES_PER_FRAME + 11,
            decreases M_CYCLES_PER_FRAME + 11 - cycles,
        {
            match self.cpu.execute_next(&mut self.bus) {
                Ok(c) => {
                    cycles = cycles + c;
                },
                Err(e) => {
                    return Err(e);
                },
            }
        }
        Ok(())
    }

    /// Borrow the front framebuffer: 160x144 RGBA pixels, row-major,
    /// top to bottom, presented once per frame.
    pub fn get_framebuffer(&self) -> (r: &[u8])
        ensures
            r@ == self.bus.ppu.front_framebuffer@,
    {
        self.bus.ppu.front_framebuffer.as_slice()
    }

    /// Press a button; a falling edge on a selected column requests the
    /// joypad interrupt.
    pub fn key_down(&mut self, key: GbKey)
        requires
            old(self).wf(),
        ensures
            final(self).wf(),
            final(self).cpu == old(self).cpu,
            final(self).bus == (Bus {
                if_flag: final(self).bus.if_flag,
                ..spec_with_key(old(self).bus, key, true)
            }),
            final(self).bus.if_flag == (if spec_key_selected(old(self).bus, key)
                && !spec_key_pressed(old(self).bus, key) {
                old(self).bus.if_flag | 0x10
            } else {
                old(self).bus.if_flag
            }),
    {
        self.bus.press_key(key);
    }

    /// Release a button.
    pub fn key_up(&mut self, key: GbKey)
        requires
            old(self).wf(),
        ensures
            final(self).wf(),
            final(self).cpu == old(self).cpu,
            final(self).bus == spec_with_key(old(self).bus, key, false),
    {
        self.bus.release_key(key);
    }
}

} // verus!
