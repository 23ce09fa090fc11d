//! The parts of a function's intermediate representation that the encoder reads.

use vstd::prelude::*;

verus! {

/// A reference to an instruction of a function.
#[derive(Clone, Copy, Debug, PartialEq, Eq, Structural)]
pub struct Inst(pub u32);

/// A reference to an SSA value of a function.
#[derive(Clone, Copy, Debug, PartialEq, Eq, Structural)]
pub struct Value(pub u32);

/// A reference to an extended basic block, the target of a branch.
#[derive(Clone, Copy, Debug, PartialEq, Eq, Structural)]
pub struct Ebb(pub u32);

/// A reference to a slot of the stack frame.
#[derive(Clone, Copy, Debug, PartialEq, Eq, Structural)]
pub struct StackSlot(pub u32);

/// The number of a register unit of the target.
pub type RegUnit = u16;

/// Where the register allocator has put a value.
#[derive(Clone, Copy, Debug, PartialEq, Eq, Structural)]
pub enum ValueLoc {
    /// The value has no location yet.
    Unassigned,
    /// The value lives in a register.
    Reg(RegUnit),
    /// The value lives in a stack slot.
    Stack(StackSlot),
}

/// Condition code of an integer comparison.
#[derive(Clone, Copy, Debug, PartialEq, Eq, Structural)]
pub enum IntCC {
    Equal,
    NotEqual,
    SignedLessThan,
    SignedGreaterThanOrEqual,
    SignedGreaterThan,
    SignedLessThanOrEqual,
    UnsignedLessThan,
    UnsignedGreaterThanOrEqual,
    UnsignedGreaterThan,
    UnsignedLessThanOrEqual,
}

/// The operand shapes an instruction can have.
#[derive(Clone, Copy, Debug, PartialEq, Eq, Structural)]
pub enum InstructionFormat {
    Binary,
    IntCompare,
    BinaryImm,
    IntCompareImm,
    UnaryImm,
    BranchIcmp,
    Branch,
}

/// The operands of one instruction, by format.
#[derive(Clone, Copy, Debug, PartialEq, Eq)]
pub enum InstructionData {
    /// Two register arguments, one result.
    Binary { args: [Value; 2], result: Value },
    /// Two register arguments compared under `cond`, one boolean result.
    IntCompare { cond: IntCC, args: [Value; 2], result: Value },
    /// One register argument and an immediate, one result.
    BinaryImm { arg: Value, imm: i64, result: Value },
    /// One register argument compared with an immediate under `cond`, one boolean result.
    IntCompareImm { cond: IntCC, arg: Value, imm: i64, result: Value },
    /// A single immediate, one result.
    UnaryImm { imm: i64, result: Value },
    /// Branch to `destination` if the two register arguments compare under `cond`.
    BranchIcmp { cond: IntCC, destination: Ebb, args: [Value; 2] },
    /// Branch to `destination` on the one register argument.
    Branch { destination: Ebb, arg: Value },
}

impl InstructionData {
    /// The format of these operands.
    pub open spec fn spec_format(self) -> InstructionFormat {
        match self {
            InstructionData::Binary { .. } => InstructionFormat::Binary,
            InstructionData::IntCompare { .. } => InstructionFormat::IntCompare,
            InstructionData::BinaryImm { .. } => InstructionFormat::BinaryImm,
            InstructionData::IntCompareImm { .. } => InstructionFormat::IntCompareImm,
            InstructionData::UnaryImm { .. } => InstructionFormat::UnaryImm,
            InstructionData::BranchIcmp { .. } => InstructionFormat::BranchIcmp,
            InstructionData::Branch { .. } => InstructionFormat::Branch,
        }
    }

    /// The format of these operands.
    #[verifier::when_used_as_spec(spec_format)]
    pub fn format(self) -> (f: InstructionFormat)
        ensures
            f == self.spec_format(),
    {
        match self {
            InstructionData::Binary { .. } => InstructionFormat::Binary,
            InstructionData::IntCompare { .. } => InstructionFormat::IntCompare,
            InstructionData::BinaryImm { .. } => InstructionFormat::BinaryImm,
            InstructionData::IntCompareImm { .. } => InstructionFormat::IntCompareImm,
            InstructionData::UnaryImm { .. } => InstructionFormat::UnaryImm,
            InstructionData::BranchIcmp { .. } => InstructionFormat::BranchIcmp,
            InstructionData::Branch { .. } => InstructionFormat::Branch,
        }
    }
}

impl ValueLoc {
    /// The register of a value that lives in one.
    pub fn reg(self) -> (reg: Option<RegUnit>)
        ensures
            reg == (match self {
                ValueLoc::Reg(unit) => Some(unit),
                _ => None,
            }),
    {
        match self {
            ValueLoc::Reg(unit) => Some(unit),
            _ => None,
        }
    }
}

/// The encoding chosen for an instruction: the recipe that emits it, and the
/// bits the recipe is to put into the opcode and function fields.
#[derive(Clone, Copy, Debug, PartialEq, Eq, Structural)]
pub struct Encoding {
    /// The number of the recipe.
    pub recipe: u16,
    /// `opcode[6:2] | (funct3 << 5) | (funct7 << 8)`.
    pub bits: u16,
}

impl Encoding {
    /// An encoding from its two parts.
    pub fn new(recipe: u16, bits: u16) -> (encoding: Encoding)
        ensures
            encoding == (Encoding { recipe, bits }),
    {
        Encoding { recipe, bits }
    }

    /// The number of the recipe.
    pub fn recipe(&self) -> (recipe: u16)
        ensures
            recipe == self.recipe,
    {
        self.recipe
    }

    /// The bits for the recipe.
    pub fn bits(&self) -> (bits: u16)
        ensures
            bits == self.bits,
    {
        self.bits
    }
}

/// The instructions of a function. An `Inst` is an index into `insts`.
pub struct DataFlowGraph {
    pub insts: Vec<InstructionData>,
}

/// A function as the encoder sees it: its instructions, the encoding chosen
/// for each, and the location given to each value.
pub struct Function {
    /// The instructions with their operands.
    pub dfg: DataFlowGraph,
    /// The encoding of each instruction, by `Inst`.
    pub encodings: Vec<Encoding>,
    /// The location of each value, by `Value`.
    pub locations: Vec<ValueLoc>,
}

impl Function {
    /// Whether `inst` names an instruction of this function that has an encoding.
    pub open spec fn has_inst(&self, inst: Inst) -> bool {
        inst.0 < self.dfg.insts@.len() && inst.0 < self.encodings@.len()
    }

    /// The operands of `inst`. Meaningful where `has_inst(inst)`.
    pub open spec fn data(&self, inst: Inst) -> InstructionData {
        self.dfg.insts@[inst.0 as int]
    }

    /// The encoding of `inst`. Meaningful where `has_inst(inst)`.
    pub open spec fn encoding(&self, inst: Inst) -> Encoding {
        self.encodings@[inst.0 as int]
    }

    /// The location of `value`: a value without an entry is unassigned.
    pub open spec fn spec_location(&self, value: Value) -> ValueLoc {
        if value.0 < self.locations@.len() {
            self.locations@[value.0 as int]
        } else {
            ValueLoc::Unassigned
        }
    }

    /// The operands and the encoding of `inst`, or `None` where this function
    /// has no such instruction.
    pub fn inst(&self, inst: Inst) -> (found: Option<(InstructionData, Encoding)>)
        ensures
            found == (if self.has_inst(inst) {
                Some((self.data(inst), self.encoding(inst)))
            } else {
                None
            }),
    {
        let index = inst.0 as usize;
        if index < self.dfg.insts.len() && index < self.encodings.len() {
            Some((self.dfg.insts[index], self.encodings[index]))
        } else {
            None
        }
    }

    /// The location of `value`.
    #[verifier::when_used_as_spec(spec_location)]
    pub fn location(&self, value: Value) -> (loc: ValueLoc)
        ensures
            loc == self.spec_location(value),
    {
        let index = value.0 as usize;
        if index < self.locations.len() {
            self.locations[index]
        } else {
            ValueLoc::Unassigned
        }
    }
}

} // verus!
