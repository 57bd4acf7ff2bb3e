//! A cycle-synchronized Game Boy (DMG) core.
//!
//! The crate models the Sharp SM83 CPU, the pixel processing unit and the
//! memory bus that joins them.  Every machine cycle the CPU spends on a
//! memory access or an internal wait is propagated to the bus, which in
//! turn advances the PPU by four T-cycles, so instruction timing, sprite
//! timing and interrupt latency keep their hardware relationships.

pub mod registers;
pub mod ppu;
pub mod render;
pub mod bus;
pub mod cpu;
pub mod instructions;
pub mod gameboy;

pub use registers::Flags;
pub use registers::Registers;
pub use ppu::Ppu;
pub use ppu::PpuModes;
pub use bus::Bus;
pub use bus::GbKey;
pub use cpu::Cpu;
pub use cpu::CpuState;
pub use gameboy::GameBoy;
