//! Core of a Game Boy Advance emulator: the ARM7TDMI register file and its
//! ARM and Thumb executors, the memory bus, the DMA controller, the
//! interrupt controller and the halt unit, each with its behaviour stated
//! and proved.
pub mod arm;
pub mod bus;
pub mod cpu;
pub mod dma;
pub mod gba;
pub mod irq;
pub mod reg;
pub mod thumb;
pub mod video;
