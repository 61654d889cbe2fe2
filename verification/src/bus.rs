//! Memory-bus components that stand on their own: address decoding and
//! I/O port routing, work RAM banking, I/O open-bus rules, serial capture and
//! the boot firmware overlay.

pub mod boot;
pub mod io;
pub mod map;
pub mod ports;
pub mod scratch;
pub mod serial;
pub mod wram;
