use vstd::prelude::*;
use crate::bus::Bus;
use crate::registers::Flags;
use crate::cpu::Cpu;
use crate::cpu::CpuState;
use crate::cpu::spec_illegal_opcode;

verus! {

/// 8-bit addition with optional carry-in: the result modulo 256, with
/// Z from the result, N clear, H from the low-nibble carry and C from
/// the full carry.
pub fn alu_add(a: u8, b: u8, cin: u8) -> (r: (u8, Flags))
    requires
        cin <= 1,
    ensures
        r.0 == (a + b + cin) % 256,
        r.1 == (Flags {
            z: ((a + b + cin) % 256 == 0),
            n: false,
            h: (a % 16 + b % 16 + cin > 15),
            c: (a + b + cin > 255),
        }),
{
    let sum: u32 = a as u32 + b as u32 + cin as u32;
    let res: u8 = (sum % 256) as u8;
    let half: bool = a % 16 + b % 16 + cin > 15;
    (res, Flags { z: res == 0, n: false, h: half, c: sum > 255 })
}

/// 8-bit subtraction with optional borrow-in: the result modulo 256,
/// with Z from the result, N set, H from the low-nibble borrow and C
/// from the full borrow.
pub fn alu_sub(a: u8, b: u8, cin: u8) -> (r: (u8, Flags))
    requires
        cin <= 1,
    ensures
        r.0 == (a - b - cin) % 256,
        r.1 == (Flags {
            z: ((a - b - cin) % 256 == 0),
            n: true,
            h: (a % 16 < b % 16 + cin),
            c: ((a as int) < b + cin),
        }),
{
    let res: u8 = a.wrapping_sub(b).wrapping_sub(cin);
    let half: bool = a % 16 < b % 16 + cin;
    let carry: bool = (a as u16) < b as u16 + cin as u16;
    (res, Flags { z: res == 0, n: true, h: half, c: carry })
}

/// Rotate left circular: bit 7 moves to both the carry and bit 0.
pub fn rot_rlc(v: u8) -> (r: (u8, bool))
    ensures
        r.0 == v.wrapping_mul(2).wrapping_add(
            if v >= 128 {
                1u8
            } else {
                0u8
            },
        ),
        r.1 == (v >= 128),
{
    let c: u8 = if v >= 128 {
        1
    } else {
        0
    };
    (v.wrapping_mul(2).wrapping_add(c), v >= 128)
}

/// Rotate right circular: bit 0 moves to both the carry and bit 7.
pub fn rot_rrc(v: u8) -> (r: (u8, bool))
    ensures
        r.0 == v / 2 + (if v % 2 == 1 {
            128u8
        } else {
            0u8
        }),
        r.1 == (v % 2 == 1),
{
    let hi: u8 = if v % 2 == 1 {
        128
    } else {
        0
    };
    (v / 2 + hi, v % 2 == 1)
}

/// Rotate left through the carry flag.
pub fn rot_rl(v: u8, cin: bool) -> (r: (u8, bool))
    ensures
        r.0 == v.wrapping_mul(2).wrapping_add(
            if cin {
                1u8
            } else {
                0u8
            },
        ),
        r.1 == (v >= 128),
{
    let c: u8 = if cin {
        1
    } else {
        0
    };
    (v.wrapping_mul(2).wrapping_add(c), v >= 128)
}

/// Rotate right through the carry flag.
pub fn rot_rr(v: u8, cin: bool) -> (r: (u8, bool))
    ensures
        r.0 == v / 2 + (if cin {
            128u8
        } else {
            0u8
        }),
        r.1 == (v % 2 == 1),
{
    let hi: u8 = if cin {
        128
    } else {
        0
    };
    (v / 2 + hi, v % 2 == 1)
}

/// Arithmetic shift left; bit 7 goes to the carry.
pub fn rot_sla(v: u8) -> (r: (u8, bool))
    ensures
        r.0 == v.wrapping_mul(2),
        r.1 == (v >= 128),
{
    (v.wrapping_mul(2), v >= 128)
}

/// Arithmetic shift right; bit 7 is kept, bit 0 goes to the carry.
pub fn rot_sra(v: u8) -> (r: (u8, bool))
    ensures
        r.0 == v / 2 + (if v >= 128 {
            128u8
        } else {
            0u8
        }),
        r.1 == (v % 2 == 1),
{
    let hi: u8 = if v >= 128 {
        128
    } else {
        0
    };
    (v / 2 + hi, v % 2 == 1)
}

/// Swap the two nibbles; the carry is cleared.
pub fn rot_swap(v: u8) -> (r: (u8, bool))
    ensures
        r.0 == (v % 16) * 16 + v / 16,
        r.1 == false,
{
    ((v % 16) * 16 + v / 16, false)
}

/// Logical shift right; bit 0 goes to the carry.
pub fn rot_srl(v: u8) -> (r: (u8, bool))
    ensures
        r.0 == v / 2,
        r.1 == (v % 2 == 1),
{
    (v / 2, v % 2 == 1)
}

/// The accumulator after decimal adjustment: each BCD digit is pushed
/// back into range, adding or subtracting according to the N flag.
pub open spec fn spec_daa_res(a: u8, f: Flags) -> u8 {
    if !f.n {
        let a1 = if f.c || a > 0x99 {
            a.wrapping_add(0x60)
        } else {
            a
        };
        if f.h || a % 16 > 9 {
            a1.wrapping_add(0x06)
        } else {
            a1
        }
    } else {
        let a1 = if f.c {
            a.wrapping_sub(0x60)
        } else {
            a
        };
        if f.h {
            a1.wrapping_sub(0x06)
        } else {
            a1
        }
    }
}

/// Decimal-adjust the accumulator after a BCD addition or subtraction.
pub fn alu_daa(a: u8, f: Flags) -> (r: (u8, Flags))
    ensures
        r.0 == spec_daa_res(a, f),
        r.1 == (Flags {
            z: spec_daa_res(a, f) == 0,
            n: f.n,
            h: false,
            c: f.c || (!f.n && a > 0x99),
        }),
{
    let mut res: u8 = a;
    let mut carry: bool = f.c;
    if !f.n {
        if f.c || a > 0x99 {
            res = res.wrapping_add(0x60);
            carry = true;
        }
        if f.h || a % 16 > 9 {
            res = res.wrapping_add(0x06);
        }
    } else {
        if f.c {
            res = res.wrapping_sub(0x60);
        }
        if f.h {
            res = res.wrapping_sub(0x06);
        }
    }
    (res, Flags { z: res == 0, n: f.n, h: false, c: carry })
}

/// The mask that clears bit `y`.
fn res_mask(y: u8) -> (r: u8)
    requires
        y < 8,
{
    if y == 0 {
        0xFE
    } else if y == 1 {
        0xFD
    } else if y == 2 {
        0xFB
    } else if y == 3 {
        0xF7
    } else if y == 4 {
        0xEF
    } else if y == 5 {
        0xDF
    } else if y == 6 {
        0xBF
    } else {
        0x7F
    }
}

/// The mask that sets bit `y`.
fn set_mask(y: u8) -> (r: u8)
    requires
        y < 8,
{
    if y == 0 {
        0x01
    } else if y == 1 {
        0x02
    } else if y == 2 {
        0x04
    } else if y == 3 {
        0x08
    } else if y == 4 {
        0x10
    } else if y == 5 {
        0x20
    } else if y == 6 {
        0x40
    } else {
        0x80
    }
}

/// The register file after the accumulator ALU operation `op` with
/// operand `v`: ADD, ADC, SUB, SBC, AND, XOR, OR, CP, with the carry-in
/// taken from the current carry flag where the operation uses one.
pub open spec fn spec_alu(reg: crate::registers::Registers, op: u8, v: u8) -> crate::registers::Registers {
    let a = reg.a;
    let cin: u8 = if reg.f.c {
        1
    } else {
        0
    };
    if op == 0 {
        crate::registers::Registers {
            a: ((a + v) % 256) as u8,
            f: Flags { z: (a + v) % 256 == 0, n: false, h: a % 16 + v % 16 > 15, c: a + v > 255 },
            ..reg
        }
    } else if op == 1 {
        crate::registers::Registers {
            a: ((a + v + cin) % 256) as u8,
            f: Flags {
                z: (a + v + cin) % 256 == 0,
                n: false,
                h: a % 16 + v % 16 + cin > 15,
                c: a + v + cin > 255,
            },
            ..reg
        }
    } else if op == 2 {
        crate::registers::Registers {
            a: ((a - v) % 256) as u8,
            f: Flags {
                z: (a - v) % 256 == 0,
                n: true,
                h: a % 16 < v % 16,
                c: (a as int) < v,
            },
            ..reg
        }
    } else if op == 3 {
        crate::registers::Registers {
            a: ((a - v - cin) % 256) as u8,
            f: Flags {
                z: (a - v - cin) % 256 == 0,
                n: true,
                h: a % 16 < v % 16 + cin,
                c: (a as int) < v + cin,
            },
            ..reg
        }
    } else if op == 4 {
        crate::registers::Registers {
            a: a & v,
            f: Flags { z: a & v == 0, n: false, h: true, c: false },
            ..reg
        }
    } else if op == 5 {
        crate::registers::Registers {
            a: a ^ v,
            f: Flags { z: a ^ v == 0, n: false, h: false, c: false },
            ..reg
        }
    } else if op == 6 {
        crate::registers::Registers {
            a: a | v,
            f: Flags { z: a | v == 0, n: false, h: false, c: false },
            ..reg
        }
    } else {
        crate::registers::Registers {
            f: Flags {
                z: (a - v) % 256 == 0,
                n: true,
                h: a % 16 < v % 16,
                c: (a as int) < v,
            },
            ..reg
        }
    }
}

/// The ALU result commutes with moving PC: the operation reads and
/// writes only the accumulator and the flags.
pub proof fn lemma_alu_ignores_pc(reg: crate::registers::Registers, p2: u16, op: u8, v: u8)
    ensures
        spec_alu(crate::registers::Registers { pc: p2, ..reg }, op, v)
            == (crate::registers::Registers { pc: p2, ..spec_alu(reg, op, v) }),
{
}

/// The branch condition an opcode's 2-bit field selects: NZ, Z, NC, C.
pub open spec fn spec_cond(f: Flags, c: u8) -> bool {
    if c == 0 {
        !f.z
    } else if c == 1 {
        f.z
    } else if c == 2 {
        !f.c
    } else {
        f.c
    }
}

impl Cpu {
    /// Evaluate a branch condition against the current flags.
    fn test_cond(&self, c: u8) -> (r: bool)
        requires
            c < 4,
        ensures
            r == spec_cond(self.reg.f, c),
    {
        if c == 0 {
            !self.reg.f.z
        } else if c == 1 {
            self.reg.f.z
        } else if c == 2 {
            !self.reg.f.c
        } else {
            self.reg.f.c
        }
    }

    /// Take a relative jump: one internal cycle, then PC moves by the
    /// sign-extended offset.
    fn jump_rel(&mut self, bus: &mut Bus, off: u8)
        requires
            old(self).cycles < 1000,
            old(bus).wf(),
        ensures
            final(bus).wf(),
            final(bus).rom@ == old(bus).rom@,
            final(self).cycles == old(self).cycles + 1,
            final(bus).ticks@ == old(bus).ticks@ + 1,
            *final(self) == (Cpu {
                reg: (crate::registers::Registers { pc: final(self).reg.pc, ..old(self).reg }),
                cycles: (old(self).cycles + 1) as u32,
                ..*old(self)
            }),
            final(self).reg.pc == (if off >= 128 {
                old(self).reg.pc.wrapping_add(off as u16).wrapping_sub(256)
            } else {
                old(self).reg.pc.wrapping_add(off as u16)
            }),
    {
        self.internal_cycle(bus);
        let target: u16 = self.reg.pc.wrapping_add(off as u16);
        let target: u16 = if off >= 128 {
            target.wrapping_sub(256)
        } else {
            target
        };
        self.reg.pc = target;
    }

    /// Apply the ALU operation an opcode's 3-bit field selects to the
    /// accumulator: ADD, ADC, SUB, SBC, AND, XOR, OR, CP.
    fn apply_alu(&mut self, op: u8, operand: u8)
        requires
            op < 8,
        ensures
            *final(self) == (Cpu { reg: spec_alu(old(self).reg, op, operand), ..*old(self) }),
    {
        let a: u8 = self.reg.a;
        let cin: u8 = if self.reg.f.c {
            1
        } else {
            0
        };
        if op == 0 {
            let (res, fl) = alu_add(a, operand, 0);
            self.reg.a = res;
            self.reg.f = fl;
        } else if op == 1 {
            let (res, fl) = alu_add(a, operand, cin);
            self.reg.a = res;
            self.reg.f = fl;
        } else if op == 2 {
            let (res, fl) = alu_sub(a, operand, 0);
            self.reg.a = res;
            self.reg.f = fl;
        } else if op == 3 {
            let (res, fl) = alu_sub(a, operand, cin);
            self.reg.a = res;
            self.reg.f = fl;
        } else if op == 4 {
            let res: u8 = a & operand;
            self.reg.a = res;
            self.reg.f = Flags { z: res == 0, n: false, h: true, c: false };
        } else if op == 5 {
            let res: u8 = a ^ operand;
            self.reg.a = res;
            self.reg.f = Flags { z: res == 0, n: false, h: false, c: false };
        } else if op == 6 {
            let res: u8 = a | operand;
            self.reg.a = res;
            self.reg.f = Flags { z: res == 0, n: false, h: false, c: false };
        } else {
            let (_, fl) = alu_sub(a, operand, 0);
            self.reg.f = fl;
        }
    }

    /// Execute an opcode from the first quarter of the map: loads,
    /// 16-bit arithmetic, increments, relative jumps and the
    /// accumulator/flag operations.
    #[verifier::rlimit(100)]
    fn exec_x0(&mut self, bus: &mut Bus, opcode: u8)
        requires
            opcode < 0x40,
            old(self).cycles < 500,
            old(bus).wf(),
        ensures
            final(bus).wf(),
            final(bus).rom@ == old(bus).rom@,
            final(bus).ticks@ == old(bus).ticks@ + (final(self).cycles - old(self).cycles),
            old(self).cycles <= final(self).cycles <= old(self).cycles + 4,
            opcode % 8 == 4 && (opcode / 8) % 8 != 6 ==> *final(self) == (Cpu {
                reg: (crate::registers::Registers {
                    f: Flags {
                        z: crate::cpu::spec_r8(old(self).reg, (opcode / 8) % 8).wrapping_add(1)
                            == 0,
                        n: false,
                        h: crate::cpu::spec_r8(old(self).reg, (opcode / 8) % 8) % 16 == 15,
                        c: old(self).reg.f.c,
                    },
                    ..crate::cpu::spec_set_r8(
                        old(self).reg,
                        (opcode / 8) % 8,
                        crate::cpu::spec_r8(old(self).reg, (opcode / 8) % 8).wrapping_add(1),
                    )
                }),
                ..*old(self)
            }) && *final(bus) == *old(bus),
            opcode % 8 == 5 && (opcode / 8) % 8 != 6 ==> *final(self) == (Cpu {
                reg: (crate::registers::Registers {
                    f: Flags {
                        z: crate::cpu::spec_r8(old(self).reg, (opcode / 8) % 8).wrapping_sub(1)
                            == 0,
                        n: true,
                        h: crate::cpu::spec_r8(old(self).reg, (opcode / 8) % 8) % 16 == 0,
                        c: old(self).reg.f.c,
                    },
                    ..crate::cpu::spec_set_r8(
                        old(self).reg,
                        (opcode / 8) % 8,
                        crate::cpu::spec_r8(old(self).reg, (opcode / 8) % 8).wrapping_sub(1),
                    )
                }),
                ..*old(self)
            }) && *final(bus) == *old(bus),
    {
        let y: u8 = (opcode / 8) % 8;
        let z: u8 = opcode % 8;
        if z == 0 {
            if y == 0 {
                // NOP
            } else if y == 1 {
                // LD (nn), SP
                let addr: u16 = self.imm_word(bus);
                let sp: u16 = self.reg.sp;
                self.write_cycle(bus, addr, (sp % 256) as u8);
                self.write_cycle(bus, addr.wrapping_add(1), (sp / 256) as u8);
            } else if y == 2 {
                // STOP consumes its padding byte and otherwise idles.
                let _ = self.imm_byte(bus);
            } else if y == 3 {
                // JR d
                let off: u8 = self.imm_byte(bus);
                self.jump_rel(bus, off);
            } else {
                // JR cc, d
                let off: u8 = self.imm_byte(bus);
                if self.test_cond(y - 4) {
                    self.jump_rel(bus, off);
                }
            }
        } else if z == 1 {
            let p: u8 = y / 2;
            if y % 2 == 0 {
                // LD rr, nn
                let value: u16 = self.imm_word(bus);
                self.write_r16::<1>(p, value);
            } else {
                // ADD HL, rr
                let rr: u16 = self.read_r16::<1>(p);
                let hl: u16 = self.reg.get_hl();
                let sum: u32 = hl as u32 + rr as u32;
                let half: bool = hl % 0x1000 + rr % 0x1000 > 0xFFF;
                self.reg.set_hl((sum % 0x10000) as u16);
                let zf: bool = self.reg.f.z;
                self.reg.f = Flags { z: zf, n: false, h: half, c: sum > 0xFFFF };
                self.internal_cycle(bus);
            }
        } else if z == 2 {
            let p: u8 = y / 2;
            if y % 2 == 0 {
                // LD (rr), A
                let addr: u16 = self.read_r16::<2>(p);
                let a: u8 = self.reg.a;
                self.write_cycle(bus, addr, a);
            } else {
                // LD A, (rr)
                let addr: u16 = self.read_r16::<2>(p);
                let value: u8 = self.read_cycle(bus, addr);
                self.reg.a = value;
            }
        } else if z == 3 {
            // INC rr / DEC rr
            let p: u8 = y / 2;
            let value: u16 = self.read_r16::<1>(p);
            if y % 2 == 0 {
                self.write_r16::<1>(p, value.wrapping_add(1));
            } else {
                self.write_r16::<1>(p, value.wrapping_sub(1));
            }
            self.internal_cycle(bus);
        } else if z == 4 {
            // INC r8
            let value: u8 = self.read_r8(bus, y);
            let res: u8 = value.wrapping_add(1);
            let cf: bool = self.reg.f.c;
            self.reg.f = Flags { z: res == 0, n: false, h: value % 16 == 15, c: cf };
            self.write_r8(bus, y, res);
        } else if z == 5 {
            // DEC r8
            let value: u8 = self.read_r8(bus, y);
            let res: u8 = value.wrapping_sub(1);
            let cf: bool = self.reg.f.c;
            self.reg.f = Flags { z: res == 0, n: true, h: value % 16 == 0, c: cf };
            self.write_r8(bus, y, res);
        } else if z == 6 {
            // LD r8, n
            let value: u8 = self.imm_byte(bus);
            self.write_r8(bus, y, value);
        } else {
            if y == 0 {
                let (res, c) = rot_rlc(self.reg.a);
                self.reg.a = res;
                self.reg.f = Flags { z: false, n: false, h: false, c };
            } else if y == 1 {
                let (res, c) = rot_rrc(self.reg.a);
                self.reg.a = res;
                self.reg.f = Flags { z: false, n: false, h: false, c };
            } else if y == 2 {
                let (res, c) = rot_rl(self.reg.a, self.reg.f.c);
                self.reg.a = res;
                self.reg.f = Flags { z: false, n: false, h: false, c };
            } else if y == 3 {
                let (res, c) = rot_rr(self.reg.a, self.reg.f.c);
                self.reg.a = res;
                self.reg.f = Flags { z: false, n: false, h: false, c };
            } else if y == 4 {
                let (res, fl) = alu_daa(self.reg.a, self.reg.f);
                self.reg.a = res;
                self.reg.f = fl;
            } else if y == 5 {
                // CPL
                self.reg.a = !self.reg.a;
                let f: Flags = self.reg.f;
                self.reg.f = Flags { z: f.z, n: true, h: true, c: f.c };
            } else if y == 6 {
                // SCF
                let f: Flags = self.reg.f;
                self.reg.f = Flags { z: f.z, n: false, h: false, c: true };
            } else {
                // CCF
                let f: Flags = self.reg.f;
                self.reg.f = Flags { z: f.z, n: false, h: false, c: !f.c };
            }
        }
    }

    /// Execute a 0xCB-prefixed opcode: rotates and shifts, bit tests,
    /// bit clears and bit sets.
    #[verifier::rlimit(100)]
    fn exec_cb(&mut self, bus: &mut Bus)
        requires
            old(self).cycles < 500,
            old(bus).wf(),
        ensures
            final(bus).wf(),
            final(bus).rom@ == old(bus).rom@,
            final(bus).ticks@ == old(bus).ticks@ + (final(self).cycles - old(self).cycles),
            old(self).cycles <= final(self).cycles <= old(self).cycles + 3,
    {
        let cb: u8 = self.imm_byte(bus);
        let x: u8 = cb / 64;
        let y: u8 = (cb / 8) % 8;
        let z: u8 = cb % 8;
        if x == 0 {
            let value: u8 = self.read_r8(bus, z);
            let (res, c) = if y == 0 {
                rot_rlc(value)
            } else if y == 1 {
                rot_rrc(value)
            } else if y == 2 {
                rot_rl(value, self.reg.f.c)
            } else if y == 3 {
                rot_rr(value, self.reg.f.c)
            } else if y == 4 {
                rot_sla(value)
            } else if y == 5 {
                rot_sra(value)
            } else if y == 6 {
                rot_swap(value)
            } else {
                rot_srl(value)
            };
            self.reg.f = Flags { z: res == 0, n: false, h: false, c };
            self.write_r8(bus, z, res);
        } else if x == 1 {
            // BIT y, r8
            let value: u8 = self.read_r8(bus, z);
            let mask: u8 = set_mask(y);
            let cf: bool = self.reg.f.c;
            self.reg.f = Flags { z: value & mask == 0, n: false, h: true, c: cf };
        } else if x == 2 {
            // RES y, r8
            let value: u8 = self.read_r8(bus, z);
            let res: u8 = value & res_mask(y);
            self.write_r8(bus, z, res);
        } else {
            // SET y, r8
            let value: u8 = self.read_r8(bus, z);
            let res: u8 = value | set_mask(y);
            self.write_r8(bus, z, res);
        }
    }

    /// Execute an opcode from the last quarter of the map: returns,
    /// jumps, calls, stack operations, immediate ALU operations and the
    /// interrupt-enable switches.  The undefined opcodes live here and
    /// are reported as errors without any effect.
    #[verifier::rlimit(100)]
    fn exec_x3(&mut self, bus: &mut Bus, opcode: u8) -> (r: Result<(), u8>)
        requires
            0xC0 <= opcode,
            old(self).cycles < 500,
            old(bus).wf(),
        ensures
            final(bus).wf(),
            final(bus).rom@ == old(bus).rom@,
            final(bus).ticks@ == old(bus).ticks@ + (final(self).cycles - old(self).cycles),
            old(self).cycles <= final(self).cycles <= old(self).cycles + 5,
            (r is Err) <==> spec_illegal_opcode(opcode),
            r is Err ==> r->Err_0 == opcode && *final(self) == *old(self) && *final(bus) == *old(bus),
            opcode % 8 == 6 ==> *final(self) == (Cpu {
                reg: (crate::registers::Registers {
                    pc: old(self).reg.pc.wrapping_add(1),
                    ..spec_alu(
                        old(self).reg,
                        (opcode / 8) % 8,
                        old(bus).spec_read(old(self).reg.pc),
                    )
                }),
                cycles: (old(self).cycles + 1) as u32,
                ..*old(self)
            }),
    {
        let y: u8 = (opcode / 8) % 8;
        let z: u8 = opcode % 8;
        let p: u8 = y / 2;
        if z == 0 {
            if y < 4 {
                // RET cc
                self.internal_cycle(bus);
                if self.test_cond(y) {
                    let addr: u16 = self.pop16(bus);
                    self.reg.pc = addr;
                    self.internal_cycle(bus);
                }
            } else if y == 4 {
                // LD (0xFF00 + n), A
                let offset: u8 = self.imm_byte(bus);
                let a: u8 = self.reg.a;
                self.write_cycle(bus, 0xFF00 + offset as u16, a);
            } else if y == 5 {
                // ADD SP, d
                let off: u8 = self.imm_byte(bus);
                let sp: u16 = self.reg.sp;
                let target: u16 = sp.wrapping_add(off as u16);
                let target: u16 = if off >= 128 {
                    target.wrapping_sub(256)
                } else {
                    target
                };
                self.reg.f = Flags {
                    z: false,
                    n: false,
                    h: sp % 16 + (off % 16) as u16 > 15,
                    c: sp % 256 + off as u16 > 255,
                };
                self.reg.sp = target;
                self.internal_cycle(bus);
                self.internal_cycle(bus);
            } else if y == 6 {
                // LD A, (0xFF00 + n)
                let offset: u8 = self.imm_byte(bus);
                let value: u8 = self.read_cycle(bus, 0xFF00 + offset as u16);
                self.reg.a = value;
            } else {
                // LD HL, SP + d
                let off: u8 = self.imm_byte(bus);
                let sp: u16 = self.reg.sp;
                let target: u16 = sp.wrapping_add(off as u16);
                let target: u16 = if off >= 128 {
                    target.wrapping_sub(256)
                } else {
                    target
                };
                self.reg.f = Flags {
                    z: false,
                    n: false,
                    h: sp % 16 + (off % 16) as u16 > 15,
                    c: sp % 256 + off as u16 > 255,
                };
                self.reg.set_hl(target);
                self.internal_cycle(bus);
            }
            Ok(())
        } else if z == 1 {
            if y % 2 == 0 {
                // POP rr
                let value: u16 = self.pop16(bus);
                self.write_r16::<3>(p, value);
            } else if p == 0 {
                // RET
                let addr: u16 = self.pop16(bus);
                self.reg.pc = addr;
                self.internal_cycle(bus);
            } else if p == 1 {
                // RETI
                let addr: u16 = self.pop16(bus);
                self.reg.pc = addr;
                self.ime = true;
                self.internal_cycle(bus);
            } else if p == 2 {
                // JP HL
                let hl: u16 = self.reg.get_hl();
                self.reg.pc = hl;
            } else {
                // LD SP, HL
                let hl: u16 = self.reg.get_hl();
                self.reg.sp = hl;
                self.internal_cycle(bus);
            }
            Ok(())
        } else if z == 2 {
            if y < 4 {
                // JP cc, nn
                let addr: u16 = self.imm_word(bus);
                if self.test_cond(y) {
                    self.reg.pc = addr;
                    self.internal_cycle(bus);
                }
            } else if y == 4 {
                // LD (0xFF00 + C), A
                let c: u8 = self.reg.c;
                let a: u8 = self.reg.a;
                self.write_cycle(bus, 0xFF00 + c as u16, a);
            } else if y == 5 {
                // LD (nn), A
                let addr: u16 = self.imm_word(bus);
                let a: u8 = self.reg.a;
                self.write_cycle(bus, addr, a);
            } else if y == 6 {
                // LD A, (0xFF00 + C)
                let c: u8 = self.reg.c;
                let value: u8 = self.read_cycle(bus, 0xFF00 + c as u16);
                self.reg.a = value;
            } else {
                // LD A, (nn)
                let addr: u16 = self.imm_word(bus);
                let value: u8 = self.read_cycle(bus, addr);
                self.reg.a = value;
            }
            Ok(())
        } else if z == 3 {
            if y == 0 {
                // JP nn
                let addr: u16 = self.imm_word(bus);
                self.reg.pc = addr;
                self.internal_cycle(bus);
                Ok(())
            } else if y == 1 {
                self.exec_cb(bus);
                Ok(())
            } else if y == 6 {
                // DI
                self.ime = false;
                Ok(())
            } else if y == 7 {
                // EI
                self.ime = true;
                Ok(())
            } else {
                Err(opcode)
            }
        } else if z == 4 {
            if y < 4 {
                // CALL cc, nn
                let addr: u16 = self.imm_word(bus);
                if self.test_cond(y) {
                    self.internal_cycle(bus);
                    let pc: u16 = self.reg.pc;
                    self.push16(bus, pc);
                    self.reg.pc = addr;
                }
                Ok(())
            } else {
                Err(opcode)
            }
        } else if z == 5 {
            if y % 2 == 0 {
                // PUSH rr
                self.internal_cycle(bus);
                let value: u16 = self.read_r16::<3>(p);
                self.push16(bus, value);
                Ok(())
            } else if p == 0 {
                // CALL nn
                let addr: u16 = self.imm_word(bus);
                self.internal_cycle(bus);
                let pc: u16 = self.reg.pc;
                self.push16(bus, pc);
                self.reg.pc = addr;
                Ok(())
            } else {
                Err(opcode)
            }
        } else if z == 6 {
            // ALU op with immediate operand
            let value: u8 = self.imm_byte(bus);
            self.apply_alu(y, value);
            Ok(())
        } else {
            // RST: call a fixed vector
            self.internal_cycle(bus);
            let pc: u16 = self.reg.pc;
            self.push16(bus, pc);
            self.reg.pc = 8 * y as u16;
            Ok(())
        }
    }

    /// Decode an opcode and execute it.  An undefined opcode is
    /// reported as an error with no effect on the machine.
    pub fn decode_and_execute(&mut self, bus: &mut Bus, opcode: u8) -> (r: Result<(), u8>)
        requires
            old(self).cycles < 400,
            old(bus).wf(),
        ensures
            final(bus).wf(),
            final(bus).rom@ == old(bus).rom@,
            final(bus).ticks@ == old(bus).ticks@ + (final(self).cycles - old(self).cycles),
            old(self).cycles <= final(self).cycles <= old(self).cycles + 5,
            (r is Err) <==> spec_illegal_opcode(opcode),
            r is Err ==> r->Err_0 == opcode && *final(self) == *old(self) && *final(bus) == *old(bus),
            opcode == 0x76 ==> *final(self) == (Cpu { state: CpuState::Halted, ..*old(self) })
                && *final(bus) == *old(bus),
            0x40 <= opcode && opcode < 0x80 && opcode != 0x76 && (opcode / 8) % 8 != 6 && opcode
                % 8 != 6 ==> *final(self) == (Cpu {
                reg: crate::cpu::spec_set_r8(
                    old(self).reg,
                    (opcode / 8) % 8,
                    crate::cpu::spec_r8(old(self).reg, opcode % 8),
                ),
                ..*old(self)
            }) && *final(bus) == *old(bus),
            0x80 <= opcode && opcode < 0xC0 && opcode % 8 != 6 ==> *final(self) == (Cpu {
                reg: spec_alu(
                    old(self).reg,
                    (opcode / 8) % 8,
                    crate::cpu::spec_r8(old(self).reg, opcode % 8),
                ),
                ..*old(self)
            }) && *final(bus) == *old(bus),
            opcode < 0x40 && opcode % 8 == 4 && (opcode / 8) % 8 != 6 ==> *final(self) == (Cpu {
                reg: (crate::registers::Registers {
                    f: Flags {
                        z: crate::cpu::spec_r8(old(self).reg, (opcode / 8) % 8).wrapping_add(1)
                            == 0,
                        n: false,
                        h: crate::cpu::spec_r8(old(self).reg, (opcode / 8) % 8) % 16 == 15,
                        c: old(self).reg.f.c,
                    },
                    ..crate::cpu::spec_set_r8(
                        old(self).reg,
                        (opcode / 8) % 8,
                        crate::cpu::spec_r8(old(self).reg, (opcode / 8) % 8).wrapping_add(1),
                    )
                }),
                ..*old(self)
            }) && *final(bus) == *old(bus),
            opcode < 0x40 && opcode % 8 == 5 && (opcode / 8) % 8 != 6 ==> *final(self) == (Cpu {
                reg: (crate::registers::Registers {
                    f: Flags {
                        z: crate::cpu::spec_r8(old(self).reg, (opcode / 8) % 8).wrapping_sub(1)
                            == 0,
                        n: true,
                        h: crate::cpu::spec_r8(old(self).reg, (opcode / 8) % 8) % 16 == 0,
                        c: old(self).reg.f.c,
                    },
                    ..crate::cpu::spec_set_r8(
                        old(self).reg,
                        (opcode / 8) % 8,
                        crate::cpu::spec_r8(old(self).reg, (opcode / 8) % 8).wrapping_sub(1),
                    )
                }),
                ..*old(self)
            }) && *final(bus) == *old(bus),
            0xC0 <= opcode && opcode % 8 == 6 ==> *final(self) == (Cpu {
                reg: (crate::registers::Registers {
                    pc: old(self).reg.pc.wrapping_add(1),
                    ..spec_alu(
                        old(self).reg,
                        (opcode / 8) % 8,
                        old(bus).spec_read(old(self).reg.pc),
                    )
                }),
                cycles: (old(self).cycles + 1) as u32,
                ..*old(self)
            }),
            0x40 <= opcode && opcode < 0x80 && opcode != 0x76 && opcode % 8 == 6 ==> *final(self)
                == (Cpu {
                reg: crate::cpu::spec_set_r8(
                    old(self).reg,
                    (opcode / 8) % 8,
                    old(bus).spec_read(old(self).reg.spec_hl()),
                ),
                cycles: (old(self).cycles + 1) as u32,
                ..*old(self)
            }),
            0x40 <= opcode && opcode < 0x80 && opcode != 0x76 && (opcode / 8) % 8 == 6 ==> *final(self) == (Cpu { cycles: (old(self).cycles + 1) as u32, ..*old(self) }) && (
            crate::bus::spec_writable(old(self).reg.spec_hl()) ==> final(bus).spec_read(
                old(self).reg.spec_hl(),
            ) == crate::cpu::spec_r8(old(self).reg, opcode % 8)),
            0x80 <= opcode && opcode < 0xC0 && opcode % 8 == 6 ==> *final(self) == (Cpu {
                reg: spec_alu(
                    old(self).reg,
                    (opcode / 8) % 8,
                    old(bus).spec_read(old(self).reg.spec_hl()),
                ),
                cycles: (old(self).cycles + 1) as u32,
                ..*old(self)
            }),
    {
        if opcode < 0x40 {
            self.exec_x0(bus, opcode);
            Ok(())
        } else if opcode < 0x80 {
            if opcode == 0x76 {
                // HALT
                self.state = CpuState::Halted;
            } else {
                // LD r8, r8
                let y: u8 = (opcode / 8) % 8;
                let z: u8 = opcode % 8;
                let value: u8 = self.read_r8(bus, z);
                self.write_r8(bus, y, value);
            }
            Ok(())
        } else if opcode < 0xC0 {
            // ALU op with register operand
            let y: u8 = (opcode / 8) % 8;
            let z: u8 = opcode % 8;
            let value: u8 = self.read_r8(bus, z);
            self.apply_alu(y, value);
            Ok(())
        } else {
            self.exec_x3(bus, opcode)
        }
    }
}

} // verus!
