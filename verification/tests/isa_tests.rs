use shy_isa_lib::isa_def::{
    IO_ASCII_END, IO_ASCII_START, IO_KEY_ESC, IO_KEY_UP, MEM_CODE_START, MEM_USER_START,
    MEM_VRAM_END, MEM_VRAM_START,
};
use shy_isa_lib::{Opcode, Register};

#[test]
fn register_codes_round_trip() {
    assert_eq!(Register::from_word(0x01), Ok(Register::R1x));
    assert_eq!(Register::from_word(0x0F), Ok(Register::Rfx));
    assert_eq!(Register::from_word(0x10), Ok(Register::PC));
    assert_eq!(Register::from_word(0x1D), Ok(Register::BLTL));
    assert_eq!(Register::PC.code(), 0x10);
    assert_eq!(Register::BLTL.code(), 0x1D);
    assert_eq!(Register::R1x.code(), 0x01);
    for v in 0x01..=0x1Du32 {
        let reg = Register::from_word(v).unwrap();
        assert_eq!(reg.code(), v);
    }
}

#[test]
fn register_rejects_out_of_range_words() {
    assert_eq!(Register::from_word(0x00), Err("invalid register id"));
    assert_eq!(Register::from_word(0x1E), Err("invalid register id"));
    assert_eq!(Register::from_word(0xFFFF_FFFF), Err("invalid register id"));
}

#[test]
fn opcode_codes_round_trip() {
    assert_eq!(Opcode::from_word(0x20), Ok(Opcode::Adda));
    assert_eq!(Opcode::from_word(0x3D), Ok(Opcode::Seta));
    assert_eq!(Opcode::from_word(0x54), Ok(Opcode::Blta));
    assert_eq!(Opcode::Adda.code(), 0x20);
    assert_eq!(Opcode::Ret.code(), 0x4D);
    for v in 0x20..=0x54u32 {
        let op = Opcode::from_word(v).unwrap();
        assert_eq!(op.code(), v);
    }
}

#[test]
fn opcode_rejects_out_of_range_words() {
    assert_eq!(Opcode::from_word(0x1F), Err("invalid opcode"));
    assert_eq!(Opcode::from_word(0x55), Err("invalid opcode"));
    assert_eq!(Opcode::from_word(0), Err("invalid opcode"));
}

#[test]
fn memory_map_constants() {
    assert_eq!(IO_KEY_UP, 0x70);
    assert_eq!(IO_KEY_ESC, 0x75);
    assert_eq!(IO_ASCII_START, 0x80);
    assert_eq!(IO_ASCII_END, 0xFF);
    assert_eq!(MEM_VRAM_START, 0x0000_0100);
    assert_eq!(MEM_VRAM_END, 0x0010_00FF);
    assert_eq!(MEM_CODE_START, 0x0010_0100);
    assert_eq!(MEM_USER_START, MEM_CODE_START);
}
