//! Encoding, decoding and execution of RV32 base-ISA instruction words.
//!
//! `codec` packs and unpacks single fields; `format` names the instruction layouts;
//! `encode` and `decode` go between operand fields and words; `exec` runs a decoded
//! instruction against the capabilities of `resources`; `laws` states what ties them
//! together.
use vstd::prelude::*;

pub mod codec;
pub mod decode;
pub mod encode;
pub mod error;
pub mod exec;
pub mod format;
pub mod laws;
pub mod resources;

pub use decode::{decode, DecodedInstruction, Op};
pub use encode::{encode, encode_csr_index, encode_csr_uimm};
pub use error::{AssemblerError, RiscvError};
pub use exec::{cycle, execute};
pub use format::{extract, Fields, InstructionFormat};
pub use resources::{CsrBank, CsrFile, FlatMemory, Memory, RegisterFile, Registers, Width};

verus! {

} // verus!
