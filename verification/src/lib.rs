//! Binary emission of RISC-V machine code: one 32-bit word per instruction,
//! with a relocation for every branch displacement that is not yet known.

pub mod encode;
pub mod ir;
pub mod laws;
pub mod recipes;
pub mod reloc;
pub mod sink;
