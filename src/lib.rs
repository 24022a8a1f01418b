//! Core of a Game Boy emulator: the processor, the memory bus, the cartridge
//! controllers, the timers, the joypad and the picture processing unit, each
//! stated against a mathematical model and verified.
#![allow(non_snake_case)]
#![allow(non_camel_case_types)]

pub mod apu;
pub mod cpu;
pub mod emulator;
pub mod gpu;
pub mod irq;
pub mod joypad;
pub mod keypad;
pub mod mbc;
pub mod memory;
pub mod mmu;
pub mod registers;
pub mod serial;
mod strings;
