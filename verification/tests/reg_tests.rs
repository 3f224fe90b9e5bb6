use shy_isa_lib::{AddrPort, RegFile, SpecialReg};

#[test]
fn test_regfile_creation() {
    let regs = RegFile::new();
    assert_eq!(regs.len(), 0x20);

    for i in 0..0x20 {
        assert_eq!(regs.read(i).unwrap(), 0);
    }
}

#[test]
fn test_regfile_read_write() {
    let mut regs = RegFile::new();

    assert!(regs.write(0x00, 0x12345678).is_ok());
    assert!(regs.write(0x0F, 0xABCDEF00).is_ok());
    assert!(regs.write(0x1F, 0xFFFFFFFF).is_ok());

    assert_eq!(regs.read(0x00).unwrap(), 0x12345678);
    assert_eq!(regs.read(0x0F).unwrap(), 0xABCDEF00);
    assert_eq!(regs.read(0x1F).unwrap(), 0xFFFFFFFF);
}

#[test]
fn test_regfile_bounds() {
    let mut regs = RegFile::new();

    assert!(regs.read(0x20).is_err());
    assert!(regs.write(0x20, 0x12345678).is_err());
}

#[test]
fn test_special_registers() {
    let mut regs = RegFile::new();

    assert!(regs.set_special(SpecialReg::PC, 0x00100000).is_ok());
    assert!(regs.set_special(SpecialReg::SP, 0x00300000).is_ok());
    assert!(regs.set_special(SpecialReg::EX, 0x00000001).is_ok());

    assert_eq!(regs.get_special(SpecialReg::PC), 0x00100000);
    assert_eq!(regs.get_special(SpecialReg::SP), 0x00300000);
    assert_eq!(regs.get_special(SpecialReg::EX), 0x00000001);

    assert_eq!(SpecialReg::from_offset(0x10), Some(SpecialReg::PC));
    assert_eq!(SpecialReg::from_offset(0x1B), Some(SpecialReg::EX));
    assert_eq!(SpecialReg::from_offset(0x0F), None);
}

#[test]
fn reg_test_raw_access() {
    let mut regs = RegFile::new();

    assert!(regs.set_raw(0x05, 0x12345678).is_ok());
    assert_eq!(regs.get_raw(0x05), Some(0x12345678));
    assert_eq!(regs.get_raw(0x20), None); // out of bounds
}

#[test]
fn reg_test_hello_world_level() {
    let regs = RegFile::new();
    assert_eq!(regs.len(), 32);
    assert!(!regs.is_empty());

    let mut regs = RegFile::new();
    assert!(regs.write(0, 42).is_ok());
    assert_eq!(regs.read(0).unwrap(), 42);
}

#[test]
fn special_reg_offsets_cover_the_range() {
    let all = [
        SpecialReg::PC,
        SpecialReg::MD,
        SpecialReg::SP,
        SpecialReg::TM,
        SpecialReg::TA1,
        SpecialReg::TA2,
        SpecialReg::M1,
        SpecialReg::M2,
        SpecialReg::M3,
        SpecialReg::M4,
        SpecialReg::RS,
        SpecialReg::EX,
        SpecialReg::BLTS,
        SpecialReg::BLTL,
    ];
    for (i, reg) in all.iter().enumerate() {
        assert_eq!(reg.offset(), 0x10 + i);
        assert_eq!(SpecialReg::from_offset(0x10 + i), Some(*reg));
    }
    assert_eq!(SpecialReg::from_offset(0x1E), None);
    // Offsets are taken as given, never truncated to a byte.
    assert_eq!(SpecialReg::from_offset(0x110), None);
}

#[test]
fn regfile_default_is_zeroed() {
    let regs = RegFile::default();
    assert_eq!(regs.len(), 32);
    for i in 0..32 {
        assert_eq!(regs.read(i).unwrap(), 0);
    }
}

#[test]
fn regfile_oob_messages_name_the_offset() {
    let mut regs = RegFile::new();
    match regs.set_raw(0x20, 1) {
        Err(shy_isa_lib::CoreError::MemoryError(msg)) => {
            assert_eq!(msg, "RegFile offset 0x20 OOB");
        }
        _ => panic!("expected MemoryError"),
    }
    match regs.write(0x21, 1) {
        Err(shy_isa_lib::CoreError::MemoryError(msg)) => {
            assert_eq!(msg, "RegFile offset 0x21 out of bounds (len=0x20)");
        }
        _ => panic!("expected MemoryError"),
    }
}
