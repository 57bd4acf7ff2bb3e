use vstd::prelude::*;
use crate::ppu::Ppu;
use crate::ppu::spec_tick;
use crate::ppu::spec_rollover;

verus! {

/// The eight Game Boy buttons.
#[derive(Clone, Copy, PartialEq, Eq, Structural, Debug)]
pub enum GbKey {
    Up,
    Down,
    Left,
    Right,
    Start,
    Select,
    A,
    B,
}

/// The 16-bit address-space multiplexer.  It holds the cartridge ROM,
/// work RAM, high RAM, the interrupt registers and the joypad state, owns
/// the PPU, and counts (in ghost state) every machine cycle it has
/// propagated to the attached devices.
pub struct Bus {
    /// Cartridge ROM, read-only, mapped from address 0; reads past its
    /// end return 0xFF.
    pub rom: Vec<u8>,
    /// 8 KiB work RAM at 0xC000..0xDFFF, echoed at 0xE000..0xFDFF.
    pub wram: Vec<u8>,
    /// 127 bytes high RAM at 0xFF80..0xFFFE.
    pub hram: Vec<u8>,
    /// The pixel processing unit, responding at 0x8000..0x9FFF,
    /// 0xFE00..0xFE9F and 0xFF40..0xFF4B.
    pub ppu: Ppu,
    /// Interrupt enable, at 0xFFFF.
    pub ie_flag: u8,
    /// Interrupt request flags, at 0xFF0F (low 5 bits meaningful).
    pub if_flag: u8,
    /// Joypad column select bit 5 as last written (0 selects the action
    /// buttons).
    pub joyp_bit5: bool,
    /// Joypad column select bit 4 as last written (0 selects the
    /// direction pad).
    pub joyp_bit4: bool,
    /// Pressed state of each button.
    pub key_up: bool,
    pub key_down: bool,
    pub key_left: bool,
    pub key_right: bool,
    pub key_start: bool,
    pub key_select: bool,
    pub key_a: bool,
    pub key_b: bool,
    /// How many machine cycles have been propagated to the devices.
    pub ticks: Ghost<nat>,
}

/// Whether the bus currently holds `key` as pressed.
pub open spec fn spec_key_pressed(b: Bus, key: GbKey) -> bool {
    match key {
        GbKey::Up => b.key_up,
        GbKey::Down => b.key_down,
        GbKey::Left => b.key_left,
        GbKey::Right => b.key_right,
        GbKey::Start => b.key_start,
        GbKey::Select => b.key_select,
        GbKey::A => b.key_a,
        GbKey::B => b.key_b,
    }
}

/// The bus with one button's pressed state replaced.
pub open spec fn spec_with_key(b: Bus, key: GbKey, pressed: bool) -> Bus {
    match key {
        GbKey::Up => Bus { key_up: pressed, ..b },
        GbKey::Down => Bus { key_down: pressed, ..b },
        GbKey::Left => Bus { key_left: pressed, ..b },
        GbKey::Right => Bus { key_right: pressed, ..b },
        GbKey::Start => Bus { key_start: pressed, ..b },
        GbKey::Select => Bus { key_select: pressed, ..b },
        GbKey::A => Bus { key_a: pressed, ..b },
        GbKey::B => Bus { key_b: pressed, ..b },
    }
}

/// Whether the column `key` sits on is currently selected (its select
/// line is driven low).
pub open spec fn spec_key_selected(b: Bus, key: GbKey) -> bool {
    match key {
        GbKey::Up | GbKey::Down | GbKey::Left | GbKey::Right => !b.joyp_bit4,
        GbKey::Start | GbKey::Select | GbKey::A | GbKey::B => !b.joyp_bit5,
    }
}

/// What the joypad register at 0xFF00 reads: the two select bits as
/// written, the upper two bits high, and a low nibble whose bits are
/// pulled low by pressed buttons on selected columns.
pub open spec fn spec_joyp_read(b: Bus) -> u8 {
    let bit0 = !((!b.joyp_bit4 && b.key_right) || (!b.joyp_bit5 && b.key_a));
    let bit1 = !((!b.joyp_bit4 && b.key_left) || (!b.joyp_bit5 && b.key_b));
    let bit2 = !((!b.joyp_bit4 && b.key_up) || (!b.joyp_bit5 && b.key_select));
    let bit3 = !((!b.joyp_bit4 && b.key_down) || (!b.joyp_bit5 && b.key_start));
    (0xC0 + (if b.joyp_bit5 {
        0x20int
    } else {
        0int
    }) + (if b.joyp_bit4 {
        0x10int
    } else {
        0int
    }) + (if bit3 {
        8int
    } else {
        0int
    }) + (if bit2 {
        4int
    } else {
        0int
    }) + (if bit1 {
        2int
    } else {
        0int
    }) + (if bit0 {
        1int
    } else {
        0int
    })) as u8
}

/// The parts of the bus a pure read or a device tick can never change:
/// every memory region, the interrupt-enable byte, the joypad state and
/// the stable LCD registers.  (The interrupt-flag byte may gain bits
/// from a tick, and LY/STAT track the PPU's progress.)
pub open spec fn bus_mem_unchanged(pre: Bus, post: Bus) -> bool {
    &&& post.rom@ == pre.rom@
    &&& post.wram@ == pre.wram@
    &&& post.hram@ == pre.hram@
    &&& post.ie_flag == pre.ie_flag
    &&& post.ppu.vram@ == pre.ppu.vram@
    &&& post.ppu.oam@ == pre.ppu.oam@
    &&& post.ppu.lcdc == pre.ppu.lcdc && post.ppu.lyc == pre.ppu.lyc && post.ppu.scy
        == pre.ppu.scy && post.ppu.scx == pre.ppu.scx && post.ppu.bgp == pre.ppu.bgp
        && post.ppu.obp0 == pre.ppu.obp0 && post.ppu.obp1 == pre.ppu.obp1 && post.ppu.wx
        == pre.ppu.wx && post.ppu.wy == pre.ppu.wy
    &&& post.joyp_bit5 == pre.joyp_bit5 && post.joyp_bit4 == pre.joyp_bit4
    &&& post.key_up == pre.key_up && post.key_down == pre.key_down && post.key_left
        == pre.key_left && post.key_right == pre.key_right && post.key_start == pre.key_start
        && post.key_select == pre.key_select && post.key_a == pre.key_a && post.key_b == pre.key_b
}

/// The three registers whose value a device tick can move: the
/// interrupt-flag byte, STAT (mode and coincidence) and LY.  Every other
/// address reads the same before and after a tick.
pub open spec fn spec_tick_volatile(addr: u16) -> bool {
    addr == 0xFF0F || addr == 0xFF41 || addr == 0xFF44
}

/// Reads at tick-stable addresses agree across any bus change that
/// leaves the memories, the joypad and the stable LCD registers alone.
pub proof fn lemma_read_stable(pre: Bus, post: Bus, addr: u16)
    requires
        bus_mem_unchanged(pre, post),
        !spec_tick_volatile(addr),
    ensures
        post.spec_read(addr) == pre.spec_read(addr),
{
}

/// The writable memory regions: VRAM, work RAM, its echo, OAM, high RAM.
pub open spec fn spec_writable(addr: u16) -> bool {
    (0x8000 <= addr && addr < 0xA000) || (0xC000 <= addr && addr < 0xE000) || (0xE000 <= addr
        && addr < 0xFE00) || (0xFE00 <= addr && addr < 0xFEA0) || (0xFF80 <= addr && addr < 0xFFFF)
}

impl Bus {
    /// The bus invariant: RAM sizes and the PPU's own invariant.
    pub open spec fn wf(self) -> bool {
        &&& self.wram@.len() == 0x2000
        &&& self.hram@.len() == 0x7F
        &&& self.ppu.wf()
    }

    /// What a read of any bus address returns, following the address
    /// decode table.  Unmapped addresses read as 0xFF.
    pub open spec fn spec_read(self, addr: u16) -> u8 {
        if addr < 0x8000 {
            if addr < self.rom@.len() {
                self.rom@[addr as int]
            } else {
                0xFF
            }
        } else if addr < 0xA000 {
            self.ppu.spec_read(addr)
        } else if 0xC000 <= addr && addr < 0xE000 {
            self.wram@[addr - 0xC000]
        } else if 0xE000 <= addr && addr < 0xFE00 {
            self.wram@[addr - 0xE000]
        } else if 0xFE00 <= addr && addr < 0xFEA0 {
            self.ppu.spec_read(addr)
        } else if addr == 0xFF00 {
            spec_joyp_read(self)
        } else if addr == 0xFF0F {
            self.if_flag | 0xE0
        } else if 0xFF40 <= addr && addr <= 0xFF4B {
            self.ppu.spec_read(addr)
        } else if 0xFF80 <= addr && addr < 0xFFFF {
            self.hram@[addr - 0xFF80]
        } else if addr == 0xFFFF {
            self.ie_flag
        } else {
            0xFF
        }
    }

    /// What a write to any bus address does.  ROM and unmapped addresses
    /// drop the byte; the PPU applies its own register semantics (in
    /// particular, LY ignores CPU writes).
    pub open spec fn spec_write(pre: Bus, post: Bus, addr: u16, value: u8) -> bool {
        if addr < 0x8000 {
            post == pre
        } else if addr < 0xA000 {
            post == (Bus { ppu: post.ppu, ..pre }) && Ppu::spec_write(pre.ppu, post.ppu, addr, value)
        } else if 0xC000 <= addr && addr < 0xE000 {
            post == (Bus { wram: post.wram, ..pre }) && post.wram@ == pre.wram@.update(
                addr - 0xC000,
                value,
            )
        } else if 0xE000 <= addr && addr < 0xFE00 {
            post == (Bus { wram: post.wram, ..pre }) && post.wram@ == pre.wram@.update(
                addr - 0xE000,
                value,
            )
        } else if 0xFE00 <= addr && addr < 0xFEA0 {
            post == (Bus { ppu: post.ppu, ..pre }) && Ppu::spec_write(pre.ppu, post.ppu, addr, value)
        } else if addr == 0xFF00 {
            post == (Bus { joyp_bit5: value & 0x20 != 0, joyp_bit4: value & 0x10 != 0, ..pre })
        } else if addr == 0xFF0F {
            post == (Bus { if_flag: value, ..pre })
        } else if 0xFF40 <= addr && addr <= 0xFF4B {
            post == (Bus { ppu: post.ppu, ..pre }) && Ppu::spec_write(pre.ppu, post.ppu, addr, value)
        } else if 0xFF80 <= addr && addr < 0xFFFF {
            post == (Bus { hram: post.hram, ..pre }) && post.hram@ == pre.hram@.update(
                addr - 0xFF80,
                value,
            )
        } else if addr == 0xFFFF {
            post == (Bus { ie_flag: value, ..pre })
        } else {
            post == pre
        }
    }

    /// Create a bus holding the given cartridge image, with cleared RAM
    /// and a freshly initialized PPU.
    pub fn new(rom: &[u8]) -> (r: Bus)
        ensures
            r.wf(),
            r.rom@ == rom@,
            r == (Bus {
                rom: r.rom,
                wram: r.wram,
                hram: r.hram,
                ppu: r.ppu,
                ie_flag: 0u8,
                if_flag: 0u8,
                joyp_bit5: true,
                joyp_bit4: true,
                key_up: false,
                key_down: false,
                key_left: false,
                key_right: false,
                key_start: false,
                key_select: false,
                key_a: false,
                key_b: false,
                ticks: Ghost(0nat),
            }),
            forall|i: int| 0 <= i < 0x2000 ==> r.wram@[i] == 0,
            forall|i: int| 0 <= i < 0x7F ==> r.hram@[i] == 0,
            r.ppu.ly == 0 && r.ppu.lyc == 0 && r.ppu.lcdc == 0x91 && r.ppu.stat == 0
                && r.ppu.scy == 0 && r.ppu.scx == 0 && r.ppu.bgp == 0xFC && r.ppu.obp0 == 0xFF
                && r.ppu.obp1 == 0xFF && r.ppu.wx == 0 && r.ppu.wy == 0 && r.ppu.window_line == 0
                && r.ppu.current_mode is OamSearch && r.ppu.total_cycles == 0,
            forall|i: int| 0 <= i < 0x2000 ==> r.ppu.vram@[i] == 0,
            forall|i: int| 0 <= i < 0xA0 ==> r.ppu.oam@[i] == 0,
            r.ticks@ == 0,
    {
        Bus {
            rom: vstd::slice::slice_to_vec(rom),
            wram: vec![0u8; 0x2000],
            hram: vec![0u8; 0x7F],
            ppu: Ppu::new(),
            ie_flag: 0,
            if_flag: 0,
            joyp_bit5: true,
            joyp_bit4: true,
            key_up: false,
            key_down: false,
            key_left: false,
            key_right: false,
            key_start: false,
            key_select: false,
            key_a: false,
            key_b: false,
            ticks: Ghost(0nat),
        }
    }

    /// Read a byte; a pure read, the companion tick is driven by the CPU
    /// around the access.
    pub fn read_byte(&self, addr: u16) -> (r: u8)
        requires
            self.wf(),
        ensures
            r == self.spec_read(addr),
    {
        if addr < 0x8000 {
            if (addr as usize) < self.rom.len() {
                self.rom[addr as usize]
            } else {
                0xFF
            }
        } else if addr < 0xA000 {
            self.ppu.read_byte(addr)
        } else if 0xC000 <= addr && addr < 0xE000 {
            self.wram[(addr - 0xC000) as usize]
        } else if 0xE000 <= addr && addr < 0xFE00 {
            self.wram[(addr - 0xE000) as usize]
        } else if 0xFE00 <= addr && addr < 0xFEA0 {
            self.ppu.read_byte(addr)
        } else if addr == 0xFF00 {
            let b0: u8 = if (!self.joyp_bit4 && self.key_right) || (!self.joyp_bit5 && self.key_a) {
                0
            } else {
                1
            };
            let b1: u8 = if (!self.joyp_bit4 && self.key_left) || (!self.joyp_bit5 && self.key_b) {
                0
            } else {
                2
            };
            let b2: u8 = if (!self.joyp_bit4 && self.key_up) || (!self.joyp_bit5
                && self.key_select) {
                0
            } else {
                4
            };
            let b3: u8 = if (!self.joyp_bit4 && self.key_down) || (!self.joyp_bit5
                && self.key_start) {
                0
            } else {
                8
            };
            let sel: u8 = (if self.joyp_bit5 {
                0x20
            } else {
                0
            }) + (if self.joyp_bit4 {
                0x10
            } else {
                0
            });
            0xC0 + sel + b3 + b2 + b1 + b0
        } else if addr == 0xFF0F {
            self.if_flag | 0xE0
        } else if 0xFF40 <= addr && addr <= 0xFF4B {
            self.ppu.read_byte(addr)
        } else if 0xFF80 <= addr && addr < 0xFFFF {
            self.hram[(addr - 0xFF80) as usize]
        } else if addr == 0xFFFF {
            self.ie_flag
        } else {
            0xFF
        }
    }

    /// Write a byte; a pure write, the companion tick is driven by the
    /// CPU around the access.
    #[verifier::rlimit(60)]
    pub fn write_byte(&mut self, addr: u16, value: u8)
        requires
            old(self).wf(),
        ensures
            final(self).wf(),
            Bus::spec_write(*old(self), *final(self), addr, value),
            final(self).ticks == old(self).ticks,
    {
        if addr < 0x8000 {
        } else if addr < 0xA000 {
            self.ppu.write_byte(addr, value);
        } else if 0xC000 <= addr && addr < 0xE000 {
            self.wram[(addr - 0xC000) as usize] = value;
        } else if 0xE000 <= addr && addr < 0xFE00 {
            self.wram[(addr - 0xE000) as usize] = value;
        } else if 0xFE00 <= addr && addr < 0xFEA0 {
            self.ppu.write_byte(addr, value);
        } else if addr == 0xFF00 {
            self.joyp_bit5 = value & 0x20 != 0;
            self.joyp_bit4 = value & 0x10 != 0;
        } else if addr == 0xFF0F {
            self.if_flag = value;
        } else if 0xFF40 <= addr && addr <= 0xFF4B {
            self.ppu.write_byte(addr, value);
        } else if 0xFF80 <= addr && addr < 0xFFFF {
            self.hram[(addr - 0xFF80) as usize] = value;
        } else if addr == 0xFFFF {
            self.ie_flag = value;
        }
    }

    /// Advance every attached device by one machine cycle: the PPU runs
    /// for 4 T-cycles and may raise interrupt-request bits.
    pub fn tick(&mut self)
        requires
            old(self).wf(),
        ensures
            final(self).wf(),
            *final(self) == (Bus {
                ppu: final(self).ppu,
                if_flag: final(self).if_flag,
                ticks: final(self).ticks,
                ..*old(self)
            }),
            spec_tick(old(self).ppu, final(self).ppu, old(self).if_flag, final(self).if_flag),
            final(self).ticks@ == old(self).ticks@ + 1,
            final(self).if_flag & old(self).if_flag == old(self).if_flag,
            final(self).if_flag | 3 == old(self).if_flag | 3,
            final(self).ppu.vram@ == old(self).ppu.vram@,
            final(self).ppu.oam@ == old(self).ppu.oam@,
            final(self).ppu.lcdc == old(self).ppu.lcdc && final(self).ppu.lyc == old(self).ppu.lyc,
            !spec_rollover(old(self).ppu) ==> final(self).ppu.front_framebuffer@ == old(
                self,
            ).ppu.front_framebuffer@,
    {
        proof {
            assert(forall|a: u8, b: u8| b <= 3 ==> ((#[trigger] (a | b)) | 3) == a | 3)
                by (bit_vector);
        }
        let mut ifr: u8 = self.if_flag;
        self.ppu.tick(&mut ifr);
        self.if_flag = ifr;
        self.ticks = Ghost(self.ticks@ + 1);
    }

    /// Whether `key` is currently held down.
    fn key_pressed(&self, key: GbKey) -> (r: bool)
        ensures
            r == spec_key_pressed(*self, key),
    {
        match key {
            GbKey::Up => self.key_up,
            GbKey::Down => self.key_down,
            GbKey::Left => self.key_left,
            GbKey::Right => self.key_right,
            GbKey::Start => self.key_start,
            GbKey::Select => self.key_select,
            GbKey::A => self.key_a,
            GbKey::B => self.key_b,
        }
    }

    /// Set the stored pressed state of `key`.
    fn set_key(&mut self, key: GbKey, pressed: bool)
        ensures
            *final(self) == spec_with_key(*old(self), key, pressed),
    {
        match key {
            GbKey::Up => {
                self.key_up = pressed;
            },
            GbKey::Down => {
                self.key_down = pressed;
            },
            GbKey::Left => {
                self.key_left = pressed;
            },
            GbKey::Right => {
                self.key_right = pressed;
            },
            GbKey::Start => {
                self.key_start = pressed;
            },
            GbKey::Select => {
                self.key_select = pressed;
            },
            GbKey::A => {
                self.key_a = pressed;
            },
            GbKey::B => {
                self.key_b = pressed;
            },
        }
    }

    /// Press a button.  A falling edge on a currently selected column
    /// requests the joypad interrupt.
    pub fn press_key(&mut self, key: GbKey)
        requires
            old(self).wf(),
        ensures
            final(self).wf(),
            *final(self) == (Bus {
                if_flag: final(self).if_flag,
                ..spec_with_key(*old(self), key, true)
            }),
            final(self).if_flag == (if spec_key_selected(*old(self), key) && !spec_key_pressed(
                *old(self),
                key,
            ) {
                old(self).if_flag | 0x10
            } else {
                old(self).if_flag
            }),
    {
        let selected: bool = match key {
            GbKey::Up | GbKey::Down | GbKey::Left | GbKey::Right => !self.joyp_bit4,
            GbKey::Start | GbKey::Select | GbKey::A | GbKey::B => !self.joyp_bit5,
        };
        let was: bool = self.key_pressed(key);
        self.set_key(key, true);
        if selected && !was {
            self.if_flag = self.if_flag | 0x10;
        }
    }

    /// Release a button.
    pub fn release_key(&mut self, key: GbKey)
        requires
            old(self).wf(),
        ensures
            final(self).wf(),
            *final(self) == spec_with_key(*old(self), key, false),
    {
        self.set_key(key, false);
    }
}

/// A byte written to VRAM, work RAM, OAM or high RAM reads back
/// identically at the same address; work RAM bytes also read back through
/// the echo region, and bytes written through the echo read back from the
/// mirrored work RAM address.
pub proof fn lemma_mem_write_read_back(pre: Bus, post: Bus, addr: u16, value: u8)
    requires
        pre.wf(),
        Bus::spec_write(pre, post, addr, value),
        spec_writable(addr),
    ensures
        post.spec_read(addr) == value,
        0xC000 <= addr && addr < 0xDE00 ==> post.spec_read((addr + 0x2000) as u16) == value,
        0xE000 <= addr && addr < 0xFE00 ==> post.spec_read((addr - 0x2000) as u16) == value,
{
}

/// A CPU write to the LY register is ignored: the PPU is left exactly as
/// it was, and LY reads back unchanged.
pub proof fn lemma_ly_write_ignored(pre: Bus, post: Bus, value: u8)
    requires
        pre.wf(),
        Bus::spec_write(pre, post, 0xFF44, value),
    ensures
        post.ppu == pre.ppu,
        post.spec_read(0xFF44) == pre.spec_read(0xFF44),
{
}

} // verus!
