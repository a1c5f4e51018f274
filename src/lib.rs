//! A CHIP-8 interpreter core: memory, registers, framebuffer, timers and the
//! fetch / decode / execute engine, with the dialect quirks of legacy CHIP-8,
//! SUPER-CHIP and XO-CHIP.
pub mod instruction;
pub mod state;
pub mod semantics;
pub mod cpu;
mod ops;
pub mod timer;
pub mod keypad;
pub mod laws;
