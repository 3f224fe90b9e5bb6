use shy_isa_lib::addr::{RAM_BASE, VRAM_MAX_END, VRAM_START};
use shy_isa_lib::{Addr, AddrKind};

#[test]
fn addr_kind_detection() {
    assert_eq!(Addr::new(0x00).kind(), AddrKind::Reg);
    assert_eq!(Addr::new(0x10).kind(), AddrKind::Reg); // PC
    assert_eq!(Addr::new(0x1D).kind(), AddrKind::Reg);
    assert_eq!(Addr::new(0x20).kind(), AddrKind::Opcode);
    assert_eq!(Addr::new(0x54).kind(), AddrKind::Opcode);
    assert_eq!(Addr::new(0x70).kind(), AddrKind::Io);
    assert_eq!(Addr::new(0xFF).kind(), AddrKind::Io);
    assert_eq!(Addr::new(0x0000_0100).kind(), AddrKind::Vram);
    assert_eq!(Addr::new(0x0010_0100).kind(), AddrKind::Ram);
}

#[test]
fn addr_offset_calculation() {
    assert_eq!(Addr::new(0x00).offset(), 0);
    assert_eq!(Addr::new(0x10).offset(), 0x10); // PC
    assert_eq!(Addr::new(0x70).offset(), 0);
    assert_eq!(Addr::new(0x80).offset(), 0x10); // ASCII 'P'
    assert_eq!(Addr::new(0x0000_0100).offset(), 0);
    assert_eq!(Addr::new(0x0010_0100).offset(), 0);
    assert_eq!(Addr::new(0x0010_0105).offset(), 5);
}

#[test]
fn addr_kind_reserved_gaps() {
    assert_eq!(Addr::new(0x1E).kind(), AddrKind::Reserved);
    assert_eq!(Addr::new(0x1F).kind(), AddrKind::Reserved);
    assert_eq!(Addr::new(0x55).kind(), AddrKind::Reserved);
    assert_eq!(Addr::new(0x6F).kind(), AddrKind::Reserved);
    assert_eq!(Addr::new(VRAM_MAX_END).kind(), AddrKind::Vram);
    assert_eq!(Addr::new(u32::MAX).kind(), AddrKind::Ram);
}

#[test]
fn addr_offset_unmapped_is_zero() {
    assert_eq!(Addr::new(0x20).offset(), 0);
    assert_eq!(Addr::new(0x54).offset(), 0);
    assert_eq!(Addr::new(0x1E).offset(), 0);
    assert_eq!(Addr::new(0x6F).offset(), 0);
}

#[test]
fn addr_raw_and_conversions() {
    assert_eq!(Addr::new(0xDEAD_BEEF).raw(), 0xDEAD_BEEF);
    assert_eq!(Addr::from(7u32), Addr::new(7));
    assert_eq!(u32::from(Addr::new(9)), 9);
    assert_eq!(Addr::from_ram_idx(5).raw(), RAM_BASE + 5);
    assert_eq!(Addr::from_ram_idx(0).raw(), RAM_BASE);
    assert_eq!(Addr::new(VRAM_START).offset(), 0);
}
