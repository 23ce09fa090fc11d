//! The code sink: the append-only destination of machine words and relocations.

use vstd::prelude::*;
use crate::ir::Ebb;

verus! {

/// Offset in bytes from the beginning of a function's code.
pub type CodeOffset = usize;

/// The number of a relocation kind. What a number means is up to the target.
#[derive(Clone, Copy, Debug, PartialEq, Eq, Structural)]
pub struct Reloc(pub u16);

/// A relocation against a block, waiting for the final layout of the function.
#[derive(Clone, Copy, Debug, PartialEq, Eq, Structural)]
pub struct EbbReloc {
    /// Where in the code the word to be patched starts.
    pub offset: CodeOffset,
    /// What kind of patch is wanted.
    pub reloc: Reloc,
    /// The block whose address is wanted.
    pub ebb: Ebb,
}

/// A relocation as the contracts speak of it: its offset is a number without
/// an upper limit.
pub struct RelocRecord {
    pub offset: nat,
    pub reloc: Reloc,
    pub ebb: Ebb,
}

impl View for EbbReloc {
    type V = RelocRecord;

    open spec fn view(&self) -> RelocRecord {
        RelocRecord { offset: self.offset as nat, reloc: self.reloc, ebb: self.ebb }
    }
}

/// The four bytes of the 32-bit word `word`, least significant byte first.
pub open spec fn le_bytes(word: int) -> Seq<u8> {
    seq![
        (word % 256) as u8,
        (word / 0x100 % 256) as u8,
        (word / 0x1_0000 % 256) as u8,
        (word / 0x100_0000 % 256) as u8,
    ]
}

/// What a sink holds after `word` has been appended to `code`.
pub open spec fn code_with_word(code: Seq<u8>, word: int) -> Seq<u8> {
    code + le_bytes(word)
}

/// What a sink holds after a relocation against `ebb` has been recorded at the
/// end of `code`.
pub open spec fn relocs_with_ebb(
    relocs: Seq<RelocRecord>,
    code: Seq<u8>,
    reloc: Reloc,
    ebb: Ebb,
) -> Seq<RelocRecord> {
    relocs.push(RelocRecord { offset: code.len(), reloc, ebb })
}

/// An append-only destination for the code of one function.
pub trait CodeSink {
    /// The bytes written so far.
    spec fn code(&self) -> Seq<u8>;

    /// The relocations recorded so far, oldest first.
    spec fn relocs(&self) -> Seq<RelocRecord>;

    /// Appends the four bytes of `word`, least significant first.
    fn put4(&mut self, word: u32)
        ensures
            final(self).code() == code_with_word(old(self).code(), word as int),
            final(self).relocs() == old(self).relocs(),
    ;

    /// Records a relocation against `ebb` at the current end of the code.
    fn reloc_ebb(&mut self, reloc: Reloc, ebb: Ebb)
        ensures
            final(self).code() == old(self).code(),
            final(self).relocs() == relocs_with_ebb(old(self).relocs(), old(self).code(), reloc, ebb),
    ;
}

/// A sink that keeps code and relocations in memory.
pub struct MemorySink {
    /// The code written so far.
    pub bytes: Vec<u8>,
    /// The relocations recorded so far, oldest first.
    pub pending: Vec<EbbReloc>,
}

impl MemorySink {
    /// An empty sink.
    pub fn new() -> (sink: MemorySink)
        ensures
            sink.code() == Seq::<u8>::empty(),
            sink.relocs() == Seq::<RelocRecord>::empty(),
    {
        let sink = MemorySink { bytes: Vec::new(), pending: Vec::new() };
        assert(sink.relocs() =~= Seq::<RelocRecord>::empty());
        sink
    }

    /// The offset at which the next word will start.
    pub fn offset(&self) -> (offset: CodeOffset)
        ensures
            offset == self.code().len(),
    {
        self.bytes.len()
    }
}

impl CodeSink for MemorySink {
    open spec fn code(&self) -> Seq<u8> {
        self.bytes@
    }

    open spec fn relocs(&self) -> Seq<RelocRecord> {
        self.pending@.map_values(|r: EbbReloc| r@)
    }

    fn put4(&mut self, word: u32) {
        let b0: u8 = (word & 0xff) as u8;
        let b1: u8 = ((word >> 8) & 0xff) as u8;
        let b2: u8 = ((word >> 16) & 0xff) as u8;
        let b3: u8 = ((word >> 24) & 0xff) as u8;
        assert(word & 0xff == word % 256 && (word >> 8) & 0xff == word / 0x100 % 256 && (word >> 16)
            & 0xff == word / 0x1_0000 % 256 && (word >> 24) & 0xff == word / 0x100_0000 % 256)
            by (bit_vector);
        self.bytes.push(b0);
        self.bytes.push(b1);
        self.bytes.push(b2);
        self.bytes.push(b3);
        assert(self.bytes@ =~= old(self).bytes@ + le_bytes(word as int));
    }

    fn reloc_ebb(&mut self, reloc: Reloc, ebb: Ebb) {
        let offset = self.bytes.len();
        self.pending.push(EbbReloc { offset, reloc, ebb });
        assert(self.relocs() =~= relocs_with_ebb(
            old(self).relocs(),
            old(self).code(),
            reloc,
            ebb,
        ));
    }
}

} // verus!
