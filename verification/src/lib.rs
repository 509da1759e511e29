use vstd::prelude::*;

pub mod error;
pub mod bus;
pub mod wram;
pub mod state;
pub mod vram;
pub mod cgram;
pub mod oam;
pub mod io;
pub mod dma;
pub mod ppu;
pub mod cpu;
pub mod renderer;

pub use error::EmulationError;
pub use bus::{BusResult, MemoryBus};
pub use wram::Wram;
pub use cpu::{Cpu, CpuFlags};
pub use vram::Vram;
pub use cgram::Cgram;
pub use oam::Oam;
pub use ppu::{Ppu, PpuMode, PpuRegisters};
pub use io::IoRegisters;
pub use dma::{Dma, DmaChannel};

verus! {
} // verus!
