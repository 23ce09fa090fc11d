//! The relocation kinds of the target.

use vstd::prelude::*;
use vstd::std_specs::convert::FromSpecImpl;
use crate::sink::Reloc;

verus! {

/// RISC-V relocation kinds.
#[derive(Clone, Copy, Debug, PartialEq, Eq, Structural)]
pub enum RelocKind {
    /// A conditional (SB-type) branch to an EBB.
    Branch,
}

impl RelocKind {
    /// The number of this kind. A kind keeps its number when kinds are added.
    pub open spec fn ordinal(self) -> u16 {
        match self {
            RelocKind::Branch => 0,
        }
    }

    /// The name of this kind as a sequence of characters.
    pub open spec fn spec_name(self) -> Seq<char> {
        match self {
            RelocKind::Branch => "Branch"@,
        }
    }

    /// The kind whose number `reloc` holds, if this target has one.
    pub open spec fn spec_from_reloc(reloc: Reloc) -> Option<RelocKind> {
        if reloc.0 == 0 {
            Some(RelocKind::Branch)
        } else {
            None
        }
    }

    /// The name of this kind, for diagnostics and listings.
    pub fn name(self) -> (name: &'static str)
        ensures
            name@ == self.spec_name(),
    {
        match self {
            RelocKind::Branch => "Branch",
        }
    }

    /// The kind whose number `reloc` holds, or `None` where this target has no
    /// kind of that number.
    #[verifier::when_used_as_spec(spec_from_reloc)]
    pub fn from_reloc(reloc: Reloc) -> (kind: Option<RelocKind>)
        ensures
            kind == Self::spec_from_reloc(reloc),
            kind matches Some(k) ==> k.ordinal() == reloc.0,
            kind is None ==> forall|k: RelocKind| k.ordinal() != reloc.0,
    {
        if reloc.0 == 0 {
            Some(RelocKind::Branch)
        } else {
            None
        }
    }
}

impl From<RelocKind> for Reloc {
    fn from(kind: RelocKind) -> (reloc: Reloc) {
        match kind {
            RelocKind::Branch => Reloc(0),
        }
    }
}

impl FromSpecImpl<RelocKind> for Reloc {
    open spec fn obeys_from_spec() -> bool {
        true
    }

    open spec fn from_spec(kind: RelocKind) -> Reloc {
        Reloc(kind.ordinal())
    }
}

} // verus!
