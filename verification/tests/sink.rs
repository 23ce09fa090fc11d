use riscv_binemit::ir::{
    DataFlowGraph, Ebb, Encoding, Function, Inst, InstructionData, InstructionFormat, StackSlot,
    Value, ValueLoc,
};
use riscv_binemit::sink::{CodeSink, EbbReloc, MemorySink, Reloc};

#[test]
fn a_new_sink_is_empty() {
    let sink = MemorySink::new();
    assert!(sink.bytes.is_empty());
    assert!(sink.pending.is_empty());
    assert_eq!(sink.offset(), 0);
}

#[test]
fn put4_writes_the_least_significant_byte_first() {
    let mut sink = MemorySink::new();
    sink.put4(0x12345678);
    assert_eq!(sink.bytes, vec![0x78, 0x56, 0x34, 0x12]);
    assert_eq!(sink.offset(), 4);
    sink.put4(0);
    sink.put4(0xffffffff);
    sink.put4(0x000000ff);
    sink.put4(0xff000000);
    assert_eq!(
        sink.bytes,
        vec![
            0x78, 0x56, 0x34, 0x12, 0, 0, 0, 0, 0xff, 0xff, 0xff, 0xff, 0xff, 0, 0, 0, 0, 0, 0,
            0xff,
        ]
    );
    assert_eq!(sink.offset(), 20);
    assert!(sink.pending.is_empty());
}

#[test]
fn reloc_ebb_records_the_current_offset() {
    let mut sink = MemorySink::new();
    sink.reloc_ebb(Reloc(0), Ebb(3));
    sink.put4(1);
    sink.put4(2);
    sink.reloc_ebb(Reloc(7), Ebb(4));
    sink.reloc_ebb(Reloc(0), Ebb(3));
    assert_eq!(
        sink.pending,
        vec![
            EbbReloc { offset: 0, reloc: Reloc(0), ebb: Ebb(3) },
            EbbReloc { offset: 8, reloc: Reloc(7), ebb: Ebb(4) },
            EbbReloc { offset: 8, reloc: Reloc(0), ebb: Ebb(3) },
        ]
    );
    assert_eq!(sink.bytes.len(), 8);
}

#[test]
fn a_function_answers_for_what_it_holds() {
    let data = InstructionData::UnaryImm { imm: 5, result: Value(0) };
    let func = Function {
        dfg: DataFlowGraph { insts: vec![data, data] },
        encodings: vec![Encoding::new(3, 0x0d)],
        locations: vec![ValueLoc::Reg(9), ValueLoc::Stack(StackSlot(1))],
    };
    assert_eq!(func.inst(Inst(0)), Some((data, Encoding { recipe: 3, bits: 0x0d })));
    assert_eq!(func.inst(Inst(1)), None);
    assert_eq!(func.inst(Inst(2)), None);
    assert_eq!(func.location(Value(0)), ValueLoc::Reg(9));
    assert_eq!(func.location(Value(1)), ValueLoc::Stack(StackSlot(1)));
    assert_eq!(func.location(Value(2)), ValueLoc::Unassigned);
    assert_eq!(func.location(Value(0)).reg(), Some(9));
    assert_eq!(func.location(Value(1)).reg(), None);
    assert_eq!(ValueLoc::Unassigned.reg(), None);
    assert_eq!(data.format(), InstructionFormat::UnaryImm);
    let encoding = Encoding::new(3, 0x0d);
    assert_eq!(encoding.recipe(), 3);
    assert_eq!(encoding.bits(), 0x0d);
}
