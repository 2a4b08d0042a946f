//! NES emulation core for reinforcement-learning environments: cartridge
//! parsing, mappers, controller ports, CPU/PPU state machines and shared
//! data types, each with a machine-checked contract.
pub mod apu;
pub mod bits;
pub mod bus;
pub mod bytes;
pub mod cartridge;
pub mod common;
pub mod cpu;
pub mod input;
pub mod mapper;
pub mod ppu;
pub mod state;
pub mod trace;

pub use common::action::{NesAction, NesButton};
