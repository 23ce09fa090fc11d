//! The recipes: one per instruction format. A recipe reads the operands of an
//! instruction, looks up the registers they live in, and has the matching
//! packer emit the word. A branch recipe first records the relocation that
//! will fill in the displacement.
//!
//! A recipe that fails has written nothing.

use vstd::prelude::*;
use crate::encode::{
    i_word, put_i, put_r, put_rshamt, put_sb, put_u, r_word, rshamt_word, sb_word, u_word,
};
use crate::ir::{
    Ebb, Function, Inst, InstructionData, InstructionFormat, RegUnit, Value, ValueLoc,
};
use crate::reloc::RelocKind;
use crate::sink::{code_with_word, relocs_with_ebb, CodeSink, Reloc};

verus! {

/// Why an instruction could not be encoded. The first three mean that an
/// earlier pass has handed over a function that breaks what the encoder relies
/// on; the last names a recipe that does not exist yet.
#[derive(Clone, Copy, Debug, PartialEq, Eq)]
pub enum EncodeError {
    /// The function has no such instruction, or no encoding for it.
    UnknownInst { inst: Inst },
    /// The recipe is for the format `expected`; the instruction is `found`.
    FormatMismatch { expected: InstructionFormat, found: InstructionData },
    /// An operand that must be in a register has the location `location`.
    NotInRegister { value: Value, location: ValueLoc },
    /// The recipe is not implemented.
    Unimplemented,
}

/// What one successful recipe call appends to the sink.
pub struct Emission {
    /// The instruction word.
    pub word: int,
    /// The destination of the branch, where the word is one.
    pub branch: Option<Ebb>,
}

/// `after` is `before` with `emission` appended: the four bytes of the word,
/// and for a branch one `Branch` relocation against its destination, at the
/// offset where the word starts.
pub open spec fn appended<CS: CodeSink>(before: CS, after: CS, emission: Emission) -> bool {
    &&& after.code() == code_with_word(before.code(), emission.word)
    &&& after.relocs() == match emission.branch {
        Some(ebb) => relocs_with_ebb(
            before.relocs(),
            before.code(),
            Reloc(RelocKind::Branch.ordinal()),
            ebb,
        ),
        None => before.relocs(),
    }
}

/// `after` holds what `before` holds.
pub open spec fn untouched<CS: CodeSink>(before: CS, after: CS) -> bool {
    &&& after.code() == before.code()
    &&& after.relocs() == before.relocs()
}

/// The register that holds `value`, or the error of a value that is not in one.
pub open spec fn reg_of(func: &Function, value: Value) -> Result<RegUnit, EncodeError> {
    match func.location(value) {
        ValueLoc::Reg(unit) => Ok(unit),
        location => Err(EncodeError::NotInRegister { value, location }),
    }
}

/// Looks up the register that holds `value`.
pub fn unwrap_reg(func: &Function, value: Value) -> (res: Result<RegUnit, EncodeError>)
    ensures
        res == reg_of(func, value),
{
    let location = func.location(value);
    match location.reg() {
        Some(unit) => Ok(unit),
        None => Err(EncodeError::NotInRegister { value, location }),
    }
}

/// The word of a register-register instruction with the sources `args` and the
/// destination `result`, or the error of the first of `args[0]`, `args[1]`,
/// `result` that is not in a register.
pub open spec fn r_operands(func: &Function, bits: u16, args: [Value; 2], result: Value) -> Result<
    Emission,
    EncodeError,
> {
    match (reg_of(func, args[0]), reg_of(func, args[1]), reg_of(func, result)) {
        (Err(e), _, _) => Err(e),
        (_, Err(e), _) => Err(e),
        (_, _, Err(e)) => Err(e),
        (Ok(rs1), Ok(rs2), Ok(rd)) => Ok(
            Emission { word: r_word(bits, rs1, rs2, rd), branch: None },
        ),
    }
}

/// The word of a register-shift instruction with the source `arg`, the shift
/// amount `imm` and the destination `result`, or the error of the first of
/// `arg`, `result` that is not in a register.
pub open spec fn rshamt_operands(
    func: &Function,
    bits: u16,
    arg: Value,
    imm: i64,
    result: Value,
) -> Result<Emission, EncodeError> {
    match (reg_of(func, arg), reg_of(func, result)) {
        (Err(e), _) => Err(e),
        (_, Err(e)) => Err(e),
        (Ok(rs1), Ok(rd)) => Ok(Emission { word: rshamt_word(bits, rs1, imm, rd), branch: None }),
    }
}

/// The word of a register-immediate instruction with the source `arg`, the
/// immediate `imm` and the destination `result`, or the error of the first of
/// `arg`, `result` that is not in a register.
pub open spec fn i_operands(
    func: &Function,
    bits: u16,
    arg: Value,
    imm: i64,
    result: Value,
) -> Result<Emission, EncodeError> {
    match (reg_of(func, arg), reg_of(func, result)) {
        (Err(e), _) => Err(e),
        (_, Err(e)) => Err(e),
        (Ok(rs1), Ok(rd)) => Ok(Emission { word: i_word(bits, rs1, imm, rd), branch: None }),
    }
}

/// The word of an upper-immediate instruction with the immediate `imm` and the
/// destination `result`, or the error of a `result` that is not in a register.
pub open spec fn u_operands(func: &Function, bits: u16, imm: i64, result: Value) -> Result<
    Emission,
    EncodeError,
> {
    match reg_of(func, result) {
        Err(e) => Err(e),
        Ok(rd) => Ok(Emission { word: u_word(bits, imm, rd), branch: None }),
    }
}

/// The word of a branch to `destination` that compares the two registers of
/// `args`, or the error of the first of them that is not in a register.
pub open spec fn sb_operands(func: &Function, bits: u16, args: [Value; 2], destination: Ebb) -> Result<
    Emission,
    EncodeError,
> {
    match (reg_of(func, args[0]), reg_of(func, args[1])) {
        (Err(e), _) => Err(e),
        (_, Err(e)) => Err(e),
        (Ok(rs1), Ok(rs2)) => Ok(
            Emission { word: sb_word(bits, rs1, rs2), branch: Some(destination) },
        ),
    }
}

/// The word of a branch to `destination` that compares the register of `arg`
/// with the zero register, or the error of an `arg` that is not in a register.
pub open spec fn sbzero_operands(func: &Function, bits: u16, arg: Value, destination: Ebb) -> Result<
    Emission,
    EncodeError,
> {
    match reg_of(func, arg) {
        Err(e) => Err(e),
        Ok(rs1) => Ok(Emission { word: sb_word(bits, rs1, 0), branch: Some(destination) }),
    }
}

/// What `recipe_r` does for `inst`: what it appends, or the error.
pub open spec fn r_outcome(func: &Function, inst: Inst) -> Result<Emission, EncodeError> {
    if !func.has_inst(inst) {
        Err(EncodeError::UnknownInst { inst })
    } else {
        match func.data(inst) {
            InstructionData::Binary { args, result } => r_operands(func, func.encoding(inst).bits, args, result),
            found => Err(
                EncodeError::FormatMismatch { expected: InstructionFormat::Binary, found },
            ),
        }
    }
}

/// Emits a register-register instruction for a `Binary` instruction.
pub fn recipe_r<CS: CodeSink>(func: &Function, inst: Inst, sink: &mut CS) -> (res: Result<
    (),
    EncodeError,
>)
    ensures
        match r_outcome(func, inst) {
            Ok(emission) => res is Ok && appended(*old(sink), *final(sink), emission),
            Err(e) => res == Err::<(), EncodeError>(e) && untouched(*old(sink), *final(sink)),
        },
        func.has_inst(inst) && func.data(inst).format() != InstructionFormat::Binary ==> res == Err::<
            (),
            EncodeError,
        >(
            EncodeError::FormatMismatch {
                expected: InstructionFormat::Binary,
                found: func.data(inst),
            },
        ),
{
    let (data, encoding) = match func.inst(inst) {
        Some(found) => found,
        None => return Err(EncodeError::UnknownInst { inst }),
    };
    if let InstructionData::Binary { args, result } = data {
        let rs1 = unwrap_reg(func, args[0])?;
        let rs2 = unwrap_reg(func, args[1])?;
        let rd = unwrap_reg(func, result)?;
        put_r(encoding.bits(), rs1, rs2, rd, sink);
        Ok(())
    } else {
        Err(EncodeError::FormatMismatch { expected: InstructionFormat::Binary, found: data })
    }
}

/// What `recipe_ricmp` does for `inst`: what it appends, or the error.
pub open spec fn ricmp_outcome(func: &Function, inst: Inst) -> Result<Emission, EncodeError> {
    if !func.has_inst(inst) {
        Err(EncodeError::UnknownInst { inst })
    } else {
        match func.data(inst) {
            InstructionData::IntCompare { args, result, .. } => r_operands(func, func.encoding(inst).bits, args, result),
            found => Err(
                EncodeError::FormatMismatch { expected: InstructionFormat::IntCompare, found },
            ),
        }
    }
}

/// Emits a register-register instruction for an `IntCompare` instruction.
pub fn recipe_ricmp<CS: CodeSink>(func: &Function, inst: Inst, sink: &mut CS) -> (res: Result<
    (),
    EncodeError,
>)
    ensures
        match ricmp_outcome(func, inst) {
            Ok(emission) => res is Ok && appended(*old(sink), *final(sink), emission),
            Err(e) => res == Err::<(), EncodeError>(e) && untouched(*old(sink), *final(sink)),
        },
        func.has_inst(inst) && func.data(inst).format() != InstructionFormat::IntCompare ==> res == Err::<
            (),
            EncodeError,
        >(
            EncodeError::FormatMismatch {
                expected: InstructionFormat::IntCompare,
                found: func.data(inst),
            },
        ),
{
    let (data, encoding) = match func.inst(inst) {
        Some(found) => found,
        None => return Err(EncodeError::UnknownInst { inst }),
    };
    if let InstructionData::IntCompare { args, result, .. } = data {
        let rs1 = unwrap_reg(func, args[0])?;
        let rs2 = unwrap_reg(func, args[1])?;
        let rd = unwrap_reg(func, result)?;
        put_r(encoding.bits(), rs1, rs2, rd, sink);
        Ok(())
    } else {
        Err(EncodeError::FormatMismatch { expected: InstructionFormat::IntCompare, found: data })
    }
}

/// What `recipe_rshamt` does for `inst`: what it appends, or the error.
pub open spec fn rshamt_outcome(func: &Function, inst: Inst) -> Result<Emission, EncodeError> {
    if !func.has_inst(inst) {
        Err(EncodeError::UnknownInst { inst })
    } else {
        match func.data(inst) {
            InstructionData::BinaryImm { arg, imm, result } => rshamt_operands(
                func,
                func.encoding(inst).bits,
                arg,
                imm,
                result,
            ),
            found => Err(
                EncodeError::FormatMismatch { expected: InstructionFormat::BinaryImm, found },
            ),
        }
    }
}

/// Emits a register-shift instruction for a `BinaryImm` instruction: the
/// immediate is the shift amount.
pub fn recipe_rshamt<CS: CodeSink>(func: &Function, inst: Inst, sink: &mut CS) -> (res: Result<
    (),
    EncodeError,
>)
    ensures
        match rshamt_outcome(func, inst) {
            Ok(emission) => res is Ok && appended(*old(sink), *final(sink), emission),
            Err(e) => res == Err::<(), EncodeError>(e) && untouched(*old(sink), *final(sink)),
        },
        func.has_inst(inst) && func.data(inst).format() != InstructionFormat::BinaryImm ==> res == Err::<
            (),
            EncodeError,
        >(
            EncodeError::FormatMismatch {
                expected: InstructionFormat::BinaryImm,
                found: func.data(inst),
            },
        ),
{
    let (data, encoding) = match func.inst(inst) {
        Some(found) => found,
        None => return Err(EncodeError::UnknownInst { inst }),
    };
    if let InstructionData::BinaryImm { arg, imm, result } = data {
        let rs1 = unwrap_reg(func, arg)?;
        let rd = unwrap_reg(func, result)?;
        put_rshamt(encoding.bits(), rs1, imm, rd, sink);
        Ok(())
    } else {
        Err(EncodeError::FormatMismatch { expected: InstructionFormat::BinaryImm, found: data })
    }
}

/// What `recipe_i` does for `inst`: what it appends, or the error.
pub open spec fn i_outcome(func: &Function, inst: Inst) -> Result<Emission, EncodeError> {
    if !func.has_inst(inst) {
        Err(EncodeError::UnknownInst { inst })
    } else {
        match func.data(inst) {
            InstructionData::BinaryImm { arg, imm, result } => i_operands(func, func.encoding(inst).bits, arg, imm, result),
            found => Err(
                EncodeError::FormatMismatch { expected: InstructionFormat::BinaryImm, found },
            ),
        }
    }
}

/// Emits a register-immediate instruction for a `BinaryImm` instruction.
pub fn recipe_i<CS: CodeSink>(func: &Function, inst: Inst, sink: &mut CS) -> (res: Result<
    (),
    EncodeError,
>)
    ensures
        match i_outcome(func, inst) {
            Ok(emission) => res is Ok && appended(*old(sink), *final(sink), emission),
            Err(e) => res == Err::<(), EncodeError>(e) && untouched(*old(sink), *final(sink)),
        },
        func.has_inst(inst) && func.data(inst).format() != InstructionFormat::BinaryImm ==> res == Err::<
            (),
            EncodeError,
        >(
            EncodeError::FormatMismatch {
                expected: InstructionFormat::BinaryImm,
                found: func.data(inst),
            },
        ),
{
    let (data, encoding) = match func.inst(inst) {
        Some(found) => found,
        None => return Err(EncodeError::UnknownInst { inst }),
    };
    if let InstructionData::BinaryImm { arg, imm, result } = data {
        let rs1 = unwrap_reg(func, arg)?;
        let rd = unwrap_reg(func, result)?;
        put_i(encoding.bits(), rs1, imm, rd, sink);
        Ok(())
    } else {
        Err(EncodeError::FormatMismatch { expected: InstructionFormat::BinaryImm, found: data })
    }
}

/// What `recipe_iicmp` does for `inst`: what it appends, or the error.
pub open spec fn iicmp_outcome(func: &Function, inst: Inst) -> Result<Emission, EncodeError> {
    if !func.has_inst(inst) {
        Err(EncodeError::UnknownInst { inst })
    } else {
        match func.data(inst) {
            InstructionData::IntCompareImm { arg, imm, result, .. } => i_operands(func, func.encoding(inst).bits, arg, imm, result),
            found => Err(
                EncodeError::FormatMismatch { expected: InstructionFormat::IntCompareImm, found },
            ),
        }
    }
}

/// Emits a register-immediate instruction for an `IntCompareImm` instruction.
pub fn recipe_iicmp<CS: CodeSink>(func: &Function, inst: Inst, sink: &mut CS) -> (res: Result<
    (),
    EncodeError,
>)
    ensures
        match iicmp_outcome(func, inst) {
            Ok(emission) => res is Ok && appended(*old(sink), *final(sink), emission),
            Err(e) => res == Err::<(), EncodeError>(e) && untouched(*old(sink), *final(sink)),
        },
        func.has_inst(inst) && func.data(inst).format() != InstructionFormat::IntCompareImm ==> res == Err::<
            (),
            EncodeError,
        >(
            EncodeError::FormatMismatch {
                expected: InstructionFormat::IntCompareImm,
                found: func.data(inst),
            },
        ),
{
    let (data, encoding) = match func.inst(inst) {
        Some(found) => found,
        None => return Err(EncodeError::UnknownInst { inst }),
    };
    if let InstructionData::IntCompareImm { arg, imm, result, .. } = data {
        let rs1 = unwrap_reg(func, arg)?;
        let rd = unwrap_reg(func, result)?;
        put_i(encoding.bits(), rs1, imm, rd, sink);
        Ok(())
    } else {
        Err(EncodeError::FormatMismatch { expected: InstructionFormat::IntCompareImm, found: data })
    }
}

/// The recipe for return instructions. It is not implemented: every call
/// fails with `Unimplemented` and writes nothing.
pub fn recipe_iret<CS: CodeSink>(func: &Function, inst: Inst, sink: &mut CS) -> (res: Result<
    (),
    EncodeError,
>)
    ensures
        res == Err::<(), EncodeError>(EncodeError::Unimplemented),
        untouched(*old(sink), *final(sink)),
{
    Err(EncodeError::Unimplemented)
}

/// What `recipe_u` does for `inst`: what it appends, or the error.
pub open spec fn u_outcome(func: &Function, inst: Inst) -> Result<Emission, EncodeError> {
    if !func.has_inst(inst) {
        Err(EncodeError::UnknownInst { inst })
    } else {
        match func.data(inst) {
            InstructionData::UnaryImm { imm, result } => u_operands(func, func.encoding(inst).bits, imm, result),
            found => Err(
                EncodeError::FormatMismatch { expected: InstructionFormat::UnaryImm, found },
            ),
        }
    }
}

/// Emits an upper-immediate instruction for a `UnaryImm` instruction.
pub fn recipe_u<CS: CodeSink>(func: &Function, inst: Inst, sink: &mut CS) -> (res: Result<
    (),
    EncodeError,
>)
    ensures
        match u_outcome(func, inst) {
            Ok(emission) => res is Ok && appended(*old(sink), *final(sink), emission),
            Err(e) => res == Err::<(), EncodeError>(e) && untouched(*old(sink), *final(sink)),
        },
        func.has_inst(inst) && func.data(inst).format() != InstructionFormat::UnaryImm ==> res == Err::<
            (),
            EncodeError,
        >(
            EncodeError::FormatMismatch {
                expected: InstructionFormat::UnaryImm,
                found: func.data(inst),
            },
        ),
{
    let (data, encoding) = match func.inst(inst) {
        Some(found) => found,
        None => return Err(EncodeError::UnknownInst { inst }),
    };
    if let InstructionData::UnaryImm { imm, result } = data {
        let rd = unwrap_reg(func, result)?;
        put_u(encoding.bits(), imm, rd, sink);
        Ok(())
    } else {
        Err(EncodeError::FormatMismatch { expected: InstructionFormat::UnaryImm, found: data })
    }
}

/// What `recipe_sb` does for `inst`: what it appends, or the error.
pub open spec fn sb_outcome(func: &Function, inst: Inst) -> Result<Emission, EncodeError> {
    if !func.has_inst(inst) {
        Err(EncodeError::UnknownInst { inst })
    } else {
        match func.data(inst) {
            InstructionData::BranchIcmp { destination, args, .. } => sb_operands(
                func,
                func.encoding(inst).bits,
                args,
                destination,
            ),
            found => Err(
                EncodeError::FormatMismatch { expected: InstructionFormat::BranchIcmp, found },
            ),
        }
    }
}

/// Emits a comparison branch for a `BranchIcmp` instruction, behind a
/// `Branch` relocation against its destination.
pub fn recipe_sb<CS: CodeSink>(func: &Function, inst: Inst, sink: &mut CS) -> (res: Result<
    (),
    EncodeError,
>)
    ensures
        match sb_outcome(func, inst) {
            Ok(emission) => res is Ok && appended(*old(sink), *final(sink), emission),
            Err(e) => res == Err::<(), EncodeError>(e) && untouched(*old(sink), *final(sink)),
        },
        func.has_inst(inst) && func.data(inst).format() != InstructionFormat::BranchIcmp ==> res == Err::<
            (),
            EncodeError,
        >(
            EncodeError::FormatMismatch {
                expected: InstructionFormat::BranchIcmp,
                found: func.data(inst),
            },
        ),
{
    let (data, encoding) = match func.inst(inst) {
        Some(found) => found,
        None => return Err(EncodeError::UnknownInst { inst }),
    };
    if let InstructionData::BranchIcmp { destination, args, .. } = data {
        let rs1 = unwrap_reg(func, args[0])?;
        let rs2 = unwrap_reg(func, args[1])?;
        sink.reloc_ebb(RelocKind::Branch.into(), destination);
        put_sb(encoding.bits(), rs1, rs2, sink);
        Ok(())
    } else {
        Err(EncodeError::FormatMismatch { expected: InstructionFormat::BranchIcmp, found: data })
    }
}

/// What `recipe_sbzero` does for `inst`: what it appends, or the error.
pub open spec fn sbzero_outcome(func: &Function, inst: Inst) -> Result<Emission, EncodeError> {
    if !func.has_inst(inst) {
        Err(EncodeError::UnknownInst { inst })
    } else {
        match func.data(inst) {
            InstructionData::Branch { destination, arg } => sbzero_operands(func, func.encoding(inst).bits, arg, destination),
            found => Err(
                EncodeError::FormatMismatch { expected: InstructionFormat::Branch, found },
            ),
        }
    }
}

/// Emits a comparison branch for a `Branch` instruction, behind a `Branch`
/// relocation against its destination: the one operand is compared with the
/// zero register.
pub fn recipe_sbzero<CS: CodeSink>(func: &Function, inst: Inst, sink: &mut CS) -> (res: Result<
    (),
    EncodeError,
>)
    ensures
        match sbzero_outcome(func, inst) {
            Ok(emission) => res is Ok && appended(*old(sink), *final(sink), emission),
            Err(e) => res == Err::<(), EncodeError>(e) && untouched(*old(sink), *final(sink)),
        },
        func.has_inst(inst) && func.data(inst).format() != InstructionFormat::Branch ==> res == Err::<
            (),
            EncodeError,
        >(
            EncodeError::FormatMismatch {
                expected: InstructionFormat::Branch,
                found: func.data(inst),
            },
        ),
{
    let (data, encoding) = match func.inst(inst) {
        Some(found) => found,
        None => return Err(EncodeError::UnknownInst { inst }),
    };
    if let InstructionData::Branch { destination, arg } = data {
        let rs1 = unwrap_reg(func, arg)?;
        sink.reloc_ebb(RelocKind::Branch.into(), destination);
        put_sb(encoding.bits(), rs1, 0, sink);
        Ok(())
    } else {
        Err(EncodeError::FormatMismatch { expected: InstructionFormat::Branch, found: data })
    }
}

/// The recipes of the target, by name.
#[derive(Clone, Copy, Debug, PartialEq, Eq, Structural)]
pub enum Recipe {
    R,
    Ricmp,
    Rshamt,
    I,
    Iicmp,
    Iret,
    U,
    Sb,
    Sbzero,
}

impl Recipe {
    /// The format of the instructions that this recipe encodes. The recipe for
    /// returns has none yet.
    pub open spec fn format(self) -> Option<InstructionFormat> {
        match self {
            Recipe::R => Some(InstructionFormat::Binary),
            Recipe::Ricmp => Some(InstructionFormat::IntCompare),
            Recipe::Rshamt => Some(InstructionFormat::BinaryImm),
            Recipe::I => Some(InstructionFormat::BinaryImm),
            Recipe::Iicmp => Some(InstructionFormat::IntCompareImm),
            Recipe::Iret => None,
            Recipe::U => Some(InstructionFormat::UnaryImm),
            Recipe::Sb => Some(InstructionFormat::BranchIcmp),
            Recipe::Sbzero => Some(InstructionFormat::Branch),
        }
    }
}

/// What the recipe `recipe` does for `inst`: what it appends, or the error.
pub open spec fn outcome(recipe: Recipe, func: &Function, inst: Inst) -> Result<
    Emission,
    EncodeError,
> {
    match recipe {
        Recipe::R => r_outcome(func, inst),
        Recipe::Ricmp => ricmp_outcome(func, inst),
        Recipe::Rshamt => rshamt_outcome(func, inst),
        Recipe::I => i_outcome(func, inst),
        Recipe::Iicmp => iicmp_outcome(func, inst),
        Recipe::Iret => Err(EncodeError::Unimplemented),
        Recipe::U => u_outcome(func, inst),
        Recipe::Sb => sb_outcome(func, inst),
        Recipe::Sbzero => sbzero_outcome(func, inst),
    }
}

/// Encodes `inst` with the recipe `recipe`: the table from a recipe's name to
/// its routine. Which recipe an instruction takes is decided where its
/// encoding is chosen.
pub fn emit_inst<CS: CodeSink>(recipe: Recipe, func: &Function, inst: Inst, sink: &mut CS) -> (res:
    Result<(), EncodeError>)
    ensures
        match outcome(recipe, func, inst) {
            Ok(emission) => res is Ok && appended(*old(sink), *final(sink), emission),
            Err(e) => res == Err::<(), EncodeError>(e) && untouched(*old(sink), *final(sink)),
        },
{
    match recipe {
        Recipe::R => recipe_r(func, inst, sink),
        Recipe::Ricmp => recipe_ricmp(func, inst, sink),
        Recipe::Rshamt => recipe_rshamt(func, inst, sink),
        Recipe::I => recipe_i(func, inst, sink),
        Recipe::Iicmp => recipe_iicmp(func, inst, sink),
        Recipe::Iret => recipe_iret(func, inst, sink),
        Recipe::U => recipe_u(func, inst, sink),
        Recipe::Sb => recipe_sb(func, inst, sink),
        Recipe::Sbzero => recipe_sbzero(func, inst, sink),
    }
}

} // verus!
