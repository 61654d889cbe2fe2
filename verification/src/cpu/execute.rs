//! Errors reported by the instruction step loop.

use vstd::prelude::*;
use super::instruction::Instruction;
use super::mnemonic::{hex2, hex4, spec_mnemonic};
use crate::cart::report::{hex_bytes, spec_hex_bytes};
use crate::text::push_hex;

verus! {

/// Why one CPU step could not run.
#[derive(Debug, Clone, Copy, PartialEq, Eq)]
pub enum StepError {
    Decode {
        pc: u16,
        /// Up to 8 bytes starting at `pc` (for diagnostics).
        bytes: [u8; 8],
    },
    Unimplemented { pc: u16, instruction: Instruction },
}

/// Text of a step error.
pub open spec fn spec_step_error_message(e: StepError) -> Seq<char> {
    match e {
        StepError::Decode { pc, bytes } => "failed to decode opcode $"@ + hex2(bytes[0]) + " at $"@ + hex4(pc)
            + " ("@ + spec_hex_bytes(bytes@) + ")"@,
        StepError::Unimplemented { pc, instruction } => "unimplemented "@ + spec_mnemonic(instruction, pc)
            + " at $"@ + hex4(pc),
    }
}

impl StepError {
    /// Human-readable description of the error.
    pub fn message(&self) -> (r: String)
        ensures
            r@ == spec_step_error_message(*self),
    {
        match self {
            StepError::Decode { pc, bytes } => {
                let mut s: String = String::from_str("failed to decode opcode $");
                push_hex(&mut s, bytes[0] as u64, 2);
                s.append(" at $");
                push_hex(&mut s, *pc as u64, 4);
                s.append(" (");
                let hb: String = hex_bytes(bytes);
                s.append(hb.as_str());
                s.append(")");
                assert(s@ =~= spec_step_error_message(*self));
                s
            },
            StepError::Unimplemented { pc, instruction } => {
                let mut s: String = String::from_str("unimplemented ");
                let m: String = instruction.mnemonic(*pc);
                s.append(m.as_str());
                s.append(" at $");
                push_hex(&mut s, *pc as u64, 4);
                assert(s@ =~= spec_step_error_message(*self));
                s
            },
        }
    }
}

} // verus!
