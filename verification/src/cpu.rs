//! LR35902 CPU: ALU, registers, instruction set, decoder, disassembly,
//! cycle costs and interrupt rules.

pub mod alu;
pub mod decode;
pub mod execute;
pub mod instruction;
pub mod interrupts;
pub mod mnemonic;
pub mod registers;
pub mod semantics;
pub mod step;
pub mod timing;

pub use decode::{Decoded, decode};
pub use execute::StepError;
pub use instruction::{Cond, Instruction, Operand8, Reg16, Reg8, jr_target};
pub use interrupts::Interrupt;
pub use registers::{Cpu, FLAG_C, FLAG_H, FLAG_N, FLAG_Z};
