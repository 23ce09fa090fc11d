use riscv_binemit::reloc::RelocKind;
use riscv_binemit::sink::Reloc;

#[test]
fn branch_is_relocation_zero() {
    let reloc: Reloc = RelocKind::Branch.into();
    assert_eq!(reloc, Reloc(0));
    assert_eq!(Reloc::from(RelocKind::Branch), Reloc(0));
    assert_eq!(reloc.0, 0);
}

#[test]
fn branch_has_its_name() {
    assert_eq!(RelocKind::Branch.name(), "Branch");
}

#[test]
fn a_relocation_number_names_its_kind() {
    assert_eq!(RelocKind::from_reloc(Reloc(0)), Some(RelocKind::Branch));
    assert_eq!(RelocKind::from_reloc(Reloc(1)), None);
    assert_eq!(RelocKind::from_reloc(Reloc(u16::MAX)), None);
    assert_eq!(RelocKind::from_reloc(RelocKind::Branch.into()), Some(RelocKind::Branch));
    assert_eq!(RelocKind::from_reloc(Reloc(0)).map(RelocKind::name), Some("Branch"));
}
