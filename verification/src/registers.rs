use vstd::prelude::*;

verus! {

/// The four SM83 flags, stored as booleans.
///
/// `F` is reconstructed on read with the flag bits in the top nibble and
/// zeros below, so the low nibble can never hold stray bits.
#[derive(Clone, Copy, PartialEq, Eq, Structural, Debug)]
pub struct Flags {
    /// Zero flag (bit 7 of `F`).
    pub z: bool,
    /// Subtract flag (bit 6 of `F`).
    pub n: bool,
    /// Half-carry flag (bit 5 of `F`).
    pub h: bool,
    /// Carry flag (bit 4 of `F`).
    pub c: bool,
}

impl Flags {
    /// The byte value of `F`: Z, N, H, C at bits 7..4, zeros at bits 3..0.
    pub open spec fn spec_bits(self) -> u8 {
        ((if self.z {
            0x80int
        } else {
            0int
        }) + (if self.n {
            0x40int
        } else {
            0int
        }) + (if self.h {
            0x20int
        } else {
            0int
        }) + (if self.c {
            0x10int
        } else {
            0int
        })) as u8
    }

    /// The flag set encoded by a byte: bits 7..4 select Z, N, H, C.
    pub open spec fn spec_of_bits(v: u8) -> Flags {
        Flags { z: v & 0x80 != 0, n: v & 0x40 != 0, h: v & 0x20 != 0, c: v & 0x10 != 0 }
    }

    /// Read `F` as a byte.  The low nibble is always zero.
    pub fn bits(&self) -> (r: u8)
        ensures
            r == self.spec_bits(),
            r & 0x0F == 0,
            r % 16 == 0,
    {
        let zb: u8 = if self.z {
            0x80
        } else {
            0
        };
        let nb: u8 = if self.n {
            0x40
        } else {
            0
        };
        let hb: u8 = if self.h {
            0x20
        } else {
            0
        };
        let cb: u8 = if self.c {
            0x10
        } else {
            0
        };
        let r: u8 = zb + nb + hb + cb;
        proof {
            assert(r & 0x0F == 0 && r % 16 == 0) by (bit_vector)
                requires
                    zb == 0x80u8 || zb == 0u8,
                    nb == 0x40u8 || nb == 0u8,
                    hb == 0x20u8 || hb == 0u8,
                    cb == 0x10u8 || cb == 0u8,
                    r == zb + nb + hb + cb,
            ;
        }
        r
    }
}

/// Whatever the four flags hold, the byte value of `F` always has a
/// zero low nibble.
pub proof fn lemma_flag_low_nibble_zero(f: Flags)
    ensures
        f.spec_bits() & 0x0F == 0,
        f.spec_bits() % 16 == 0,
{
    let v: u8 = f.spec_bits();
    assert(v == 0x00 || v == 0x10 || v == 0x20 || v == 0x30 || v == 0x40 || v == 0x50 || v == 0x60
        || v == 0x70 || v == 0x80 || v == 0x90 || v == 0xA0 || v == 0xB0 || v == 0xC0 || v == 0xD0
        || v == 0xE0 || v == 0xF0);
    assert(v % 16 == 0 ==> v & 0x0F == 0) by (bit_vector);
}

/// The byte `F` reads back after being written with `v`: only the top
/// nibble of `v` survives.
pub proof fn lemma_flag_write_mask(v: u8)
    ensures
        Flags::spec_of_bits(v).spec_bits() == v & 0xF0,
{
    let zb: u8 = if v & 0x80 != 0 {
        0x80
    } else {
        0
    };
    let nb: u8 = if v & 0x40 != 0 {
        0x40
    } else {
        0
    };
    let hb: u8 = if v & 0x20 != 0 {
        0x20
    } else {
        0
    };
    let cb: u8 = if v & 0x10 != 0 {
        0x10
    } else {
        0
    };
    assert(Flags::spec_of_bits(v).spec_bits() == zb + nb + hb + cb);
    assert(zb + nb + hb + cb == v & 0xF0) by (bit_vector)
        requires
            zb == (if v & 0x80 != 0 {
                0x80u8
            } else {
                0u8
            }),
            nb == (if v & 0x40 != 0 {
                0x40u8
            } else {
                0u8
            }),
            hb == (if v & 0x20 != 0 {
                0x20u8
            } else {
                0u8
            }),
            cb == (if v & 0x10 != 0 {
                0x10u8
            } else {
                0u8
            }),
    ;
}

/// The SM83 register file: eight 8-bit registers (with `F` held as
/// structured flags), the 16-bit `SP` and `PC`, and little-endian pair
/// views `AF`, `BC`, `DE`, `HL`.
#[derive(Clone, Copy, PartialEq, Eq, Structural, Debug)]
pub struct Registers {
    pub a: u8,
    pub f: Flags,
    pub b: u8,
    pub c: u8,
    pub d: u8,
    pub e: u8,
    pub h: u8,
    pub l: u8,
    pub sp: u16,
    pub pc: u16,
}

impl Registers {
    /// The register file with every register cleared.
    pub open spec fn spec_cleared() -> Registers {
        Registers {
            a: 0u8,
            f: Flags { z: false, n: false, h: false, c: false },
            b: 0u8,
            c: 0u8,
            d: 0u8,
            e: 0u8,
            h: 0u8,
            l: 0u8,
            sp: 0u16,
            pc: 0u16,
        }
    }

    /// A register file with every register cleared.
    pub fn new() -> (r: Registers)
        ensures
            r == (Registers {
                a: 0u8,
                f: Flags { z: false, n: false, h: false, c: false },
                b: 0u8,
                c: 0u8,
                d: 0u8,
                e: 0u8,
                h: 0u8,
                l: 0u8,
                sp: 0u16,
                pc: 0u16,
            }),
    {
        Registers {
            a: 0,
            f: Flags { z: false, n: false, h: false, c: false },
            b: 0,
            c: 0,
            d: 0,
            e: 0,
            h: 0,
            l: 0,
            sp: 0,
            pc: 0,
        }
    }

    /// The value of the pair formed by a high and a low byte.
    pub open spec fn spec_pair(hi: u8, lo: u8) -> u16 {
        (hi * 256 + lo) as u16
    }

    pub open spec fn spec_af(self) -> u16 {
        Self::spec_pair(self.a, self.f.spec_bits())
    }

    pub open spec fn spec_bc(self) -> u16 {
        Self::spec_pair(self.b, self.c)
    }

    pub open spec fn spec_de(self) -> u16 {
        Self::spec_pair(self.d, self.e)
    }

    pub open spec fn spec_hl(self) -> u16 {
        Self::spec_pair(self.h, self.l)
    }

    pub fn get_af(&self) -> (r: u16)
        ensures
            r == self.spec_af(),
            r & 0x0F == 0,
    {
        let fb: u8 = self.f.bits();
        let hi: u8 = self.a;
        let r: u16 = (hi as u16) * 256 + (fb as u16);
        proof {
            assert(fb & 0x0Fu8 == 0 ==> r & 0x0F == 0) by (bit_vector)
                requires
                    r == (hi as u16) * 256 + (fb as u16),
            ;
        }
        r
    }

    pub fn get_bc(&self) -> (r: u16)
        ensures
            r == self.spec_bc(),
    {
        (self.b as u16) * 256 + (self.c as u16)
    }

    pub fn get_de(&self) -> (r: u16)
        ensures
            r == self.spec_de(),
    {
        (self.d as u16) * 256 + (self.e as u16)
    }

    pub fn get_hl(&self) -> (r: u16)
        ensures
            r == self.spec_hl(),
    {
        (self.h as u16) * 256 + (self.l as u16)
    }

    /// Write `F`.  Only the top nibble of `value` is kept.
    pub fn set_f(&mut self, value: u8)
        ensures
            *final(self) == (Registers { f: Flags::spec_of_bits(value), ..*old(self) }),
            final(self).f.spec_bits() == value & 0xF0,
    {
        self.f = Flags {
            z: value & 0x80 != 0,
            n: value & 0x40 != 0,
            h: value & 0x20 != 0,
            c: value & 0x10 != 0,
        };
        proof {
            lemma_flag_write_mask(value);
        }
    }

    pub fn set_af(&mut self, value: u16)
        ensures
            *final(self) == (Registers {
                a: (value / 256) as u8,
                f: Flags::spec_of_bits((value % 256) as u8),
                ..*old(self)
            }),
            final(self).spec_af() == value & 0xF0F0 || final(self).spec_af() == (value & 0xFFF0),
    {
        self.a = (value / 256) as u8;
        self.set_f((value % 256) as u8);
        proof {
            lemma_flag_write_mask((value % 256) as u8);
            let lo = (value % 256) as u8;
            assert((value / 256) as u8 * 256 + (lo & 0xF0) == (value & 0xFFF0)) by (bit_vector)
                requires
                    lo == (value % 256) as u8,
            ;
        }
    }

    pub fn set_bc(&mut self, value: u16)
        ensures
            *final(self) == (Registers {
                b: (value / 256) as u8,
                c: (value % 256) as u8,
                ..*old(self)
            }),
            final(self).spec_bc() == value,
    {
        self.b = (value / 256) as u8;
        self.c = (value % 256) as u8;
    }

    pub fn set_de(&mut self, value: u16)
        ensures
            *final(self) == (Registers {
                d: (value / 256) as u8,
                e: (value % 256) as u8,
                ..*old(self)
            }),
            final(self).spec_de() == value,
    {
        self.d = (value / 256) as u8;
        self.e = (value % 256) as u8;
    }

    pub fn set_hl(&mut self, value: u16)
        ensures
            *final(self) == (Registers {
                h: (value / 256) as u8,
                l: (value % 256) as u8,
                ..*old(self)
            }),
            final(self).spec_hl() == value,
    {
        self.h = (value / 256) as u8;
        self.l = (value % 256) as u8;
    }
}

} // verus!
