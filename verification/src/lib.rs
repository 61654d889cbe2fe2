//! Game Boy / Game Boy Color emulator core: CPU, cartridge and audio logic
//! with machine-checked contracts.

pub mod cpu;
pub mod snapshot;
pub mod apu;
pub mod boot;
pub mod bus;
pub mod cart;
pub mod text;
