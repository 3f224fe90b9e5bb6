//! ISA definitions: register and opcode encodings, and the fixed I/O and
//! memory-map constants.
//!
//! Register codes occupy `0x01..=0x1D` and opcode encodings `0x20..=0x54`
//! of the address space.  Enum discriminants are not used; the numeric
//! encoding of each name is given by `code` and recovered by `from_word`.

use vstd::prelude::*;
use crate::types::Word;

verus! {

/// Key port: up arrow.
pub const IO_KEY_UP: Word = 0x70;

/// Key port: down arrow.
pub const IO_KEY_DOWN: Word = 0x71;

/// Key port: left arrow.
pub const IO_KEY_LEFT: Word = 0x72;

/// Key port: right arrow.
pub const IO_KEY_RIGHT: Word = 0x73;

/// Key port: confirm.
pub const IO_KEY_ENTER: Word = 0x74;

/// Key port: cancel.
pub const IO_KEY_ESC: Word = 0x75;

/// First port of the ASCII-indexed output range.
pub const IO_ASCII_START: Word = 0x80;

/// Last port of the ASCII-indexed output range.
pub const IO_ASCII_END: Word = 0xFF;

/// First video-memory address.
pub const MEM_VRAM_START: Word = 0x0000_0100;

/// Architectural ceiling of the video-memory range.
pub const MEM_VRAM_END: Word = 0x0010_00FF;

/// Program entry: first code address.
pub const MEM_CODE_START: Word = 0x0010_0100;

/// First user read/write address, same as the code start.
pub const MEM_USER_START: Word = 0x0010_0100;

/// The registers, general-purpose (`0x01..=0x0F`) and special-purpose
/// (`0x10..=0x1D`).
#[derive(Debug, Clone, Copy, PartialEq, Eq, Structural)]
pub enum Register {
    R1x,
    R2x,
    R3x,
    R4x,
    R5x,
    R6x,
    R7x,
    R8x,
    R9x,
    Rax,
    Rbx,
    Rcx,
    Rdx,
    Rex,
    Rfx,
    /// Program counter.
    PC,
    /// Mode switch.
    MD,
    /// Stack pointer (must be initialized manually).
    SP,
    /// Timer value.
    TM,
    /// Interrupt handler entry.
    TA1,
    /// Interrupt return address storage.
    TA2,
    /// Sound: sine.
    M1,
    /// Sound: square.
    M2,
    /// Sound: triangle.
    M3,
    /// Sound: sawtooth.
    M4,
    /// Result status (comparison flag): 1 or 0.
    RS,
    /// Exit register (any change exits).
    EX,
    /// Block transfer source.
    BLTS,
    /// Block transfer length.
    BLTL,
}

/// The numeric code of a register.
pub open spec fn register_code(r: Register) -> Word {
    match r {
        Register::R1x => 0x01,
        Register::R2x => 0x02,
        Register::R3x => 0x03,
        Register::R4x => 0x04,
        Register::R5x => 0x05,
        Register::R6x => 0x06,
        Register::R7x => 0x07,
        Register::R8x => 0x08,
        Register::R9x => 0x09,
        Register::Rax => 0x0A,
        Register::Rbx => 0x0B,
        Register::Rcx => 0x0C,
        Register::Rdx => 0x0D,
        Register::Rex => 0x0E,
        Register::Rfx => 0x0F,
        Register::PC => 0x10,
        Register::MD => 0x11,
        Register::SP => 0x12,
        Register::TM => 0x13,
        Register::TA1 => 0x14,
        Register::TA2 => 0x15,
        Register::M1 => 0x16,
        Register::M2 => 0x17,
        Register::M3 => 0x18,
        Register::M4 => 0x19,
        Register::RS => 0x1A,
        Register::EX => 0x1B,
        Register::BLTS => 0x1C,
        Register::BLTL => 0x1D,
    }
}

/// The register a word encodes, if any: codes `0x01..=0x1D`.
pub open spec fn spec_register_from_word(v: Word) -> Option<Register> {
    if v == 0x01 {
        Some(Register::R1x)
    } else if v == 0x02 {
        Some(Register::R2x)
    } else if v == 0x03 {
        Some(Register::R3x)
    } else if v == 0x04 {
        Some(Register::R4x)
    } else if v == 0x05 {
        Some(Register::R5x)
    } else if v == 0x06 {
        Some(Register::R6x)
    } else if v == 0x07 {
        Some(Register::R7x)
    } else if v == 0x08 {
        Some(Register::R8x)
    } else if v == 0x09 {
        Some(Register::R9x)
    } else if v == 0x0A {
        Some(Register::Rax)
    } else if v == 0x0B {
        Some(Register::Rbx)
    } else if v == 0x0C {
        Some(Register::Rcx)
    } else if v == 0x0D {
        Some(Register::Rdx)
    } else if v == 0x0E {
        Some(Register::Rex)
    } else if v == 0x0F {
        Some(Register::Rfx)
    } else if v == 0x10 {
        Some(Register::PC)
    } else if v == 0x11 {
        Some(Register::MD)
    } else if v == 0x12 {
        Some(Register::SP)
    } else if v == 0x13 {
        Some(Register::TM)
    } else if v == 0x14 {
        Some(Register::TA1)
    } else if v == 0x15 {
        Some(Register::TA2)
    } else if v == 0x16 {
        Some(Register::M1)
    } else if v == 0x17 {
        Some(Register::M2)
    } else if v == 0x18 {
        Some(Register::M3)
    } else if v == 0x19 {
        Some(Register::M4)
    } else if v == 0x1A {
        Some(Register::RS)
    } else if v == 0x1B {
        Some(Register::EX)
    } else if v == 0x1C {
        Some(Register::BLTS)
    } else if v == 0x1D {
        Some(Register::BLTL)
    } else {
        None
    }
}

impl Register {
    /// The numeric code of this register.
    pub fn code(self) -> (v: Word)
        ensures
            v == register_code(self),
    {
        match self {
            Register::R1x => 0x01,
            Register::R2x => 0x02,
            Register::R3x => 0x03,
            Register::R4x => 0x04,
            Register::R5x => 0x05,
            Register::R6x => 0x06,
            Register::R7x => 0x07,
            Register::R8x => 0x08,
            Register::R9x => 0x09,
            Register::Rax => 0x0A,
            Register::Rbx => 0x0B,
            Register::Rcx => 0x0C,
            Register::Rdx => 0x0D,
            Register::Rex => 0x0E,
            Register::Rfx => 0x0F,
            Register::PC => 0x10,
            Register::MD => 0x11,
            Register::SP => 0x12,
            Register::TM => 0x13,
            Register::TA1 => 0x14,
            Register::TA2 => 0x15,
            Register::M1 => 0x16,
            Register::M2 => 0x17,
            Register::M3 => 0x18,
            Register::M4 => 0x19,
            Register::RS => 0x1A,
            Register::EX => 0x1B,
            Register::BLTS => 0x1C,
            Register::BLTL => 0x1D,
        }
    }

    /// Decodes a register code, rejecting any word outside `0x01..=0x1D`.
    pub fn from_word(v: Word) -> (r: Result<Register, &'static str>)
        ensures
            spec_register_from_word(v) matches Some(reg) ==> r == Ok::<Register, &'static str>(
                reg,
            ),
            spec_register_from_word(v) is None ==> (r matches Err(m) && m@
                == "invalid register id"@),
            r is Ok <==> 0x01 <= v <= 0x1D,
    {
        match v {
            0x01 => Ok(Register::R1x),
            0x02 => Ok(Register::R2x),
            0x03 => Ok(Register::R3x),
            0x04 => Ok(Register::R4x),
            0x05 => Ok(Register::R5x),
            0x06 => Ok(Register::R6x),
            0x07 => Ok(Register::R7x),
            0x08 => Ok(Register::R8x),
            0x09 => Ok(Register::R9x),
            0x0A => Ok(Register::Rax),
            0x0B => Ok(Register::Rbx),
            0x0C => Ok(Register::Rcx),
            0x0D => Ok(Register::Rdx),
            0x0E => Ok(Register::Rex),
            0x0F => Ok(Register::Rfx),
            0x10 => Ok(Register::PC),
            0x11 => Ok(Register::MD),
            0x12 => Ok(Register::SP),
            0x13 => Ok(Register::TM),
            0x14 => Ok(Register::TA1),
            0x15 => Ok(Register::TA2),
            0x16 => Ok(Register::M1),
            0x17 => Ok(Register::M2),
            0x18 => Ok(Register::M3),
            0x19 => Ok(Register::M4),
            0x1A => Ok(Register::RS),
            0x1B => Ok(Register::EX),
            0x1C => Ok(Register::BLTS),
            0x1D => Ok(Register::BLTL),
            _ => Err("invalid register id"),
        }
    }
}

/// Decoding the code of any register gives that register back.
pub proof fn lemma_register_code_round_trip(reg: Register)
    ensures
        spec_register_from_word(register_code(reg)) == Some(reg),
{
}

/// The opcodes, `0x20..=0x54`.
#[derive(Debug, Clone, Copy, PartialEq, Eq, Structural)]
pub enum Opcode {
    Adda,
    Addn,
    Suba,
    Subn,
    Mula,
    Muln,
    Diva,
    Divn,
    Lsa,
    Lsn,
    Rsa,
    Rsn,
    Anda,
    Andn,
    Ora,
    Orn,
    Xora,
    Xorn,
    Nota,
    Equa,
    Equn,
    Biga,
    Bign,
    Bigequa,
    Bigequn,
    Smaa,
    Sman,
    Smaequa,
    Smaequn,
    Seta,
    Setn,
    Geta,
    Getn,
    Puta,
    Putn,
    Pusha,
    Pushn,
    Popa,
    Pop,
    Jmpa,
    Jmpn,
    Ujmpa,
    Ujmpn,
    Calla,
    Calln,
    Ret,
    Ina,
    Inaasc,
    Outa,
    Outn,
    Outaasc,
    Outnasc,
    Blta,
}

/// The numeric encoding of an opcode.
pub open spec fn opcode_code(o: Opcode) -> Word {
    match o {
        Opcode::Adda => 0x20,
        Opcode::Addn => 0x21,
        Opcode::Suba => 0x22,
        Opcode::Subn => 0x23,
        Opcode::Mula => 0x24,
        Opcode::Muln => 0x25,
        Opcode::Diva => 0x26,
        Opcode::Divn => 0x27,
        Opcode::Lsa => 0x28,
        Opcode::Lsn => 0x29,
        Opcode::Rsa => 0x2A,
        Opcode::Rsn => 0x2B,
        Opcode::Anda => 0x2C,
        Opcode::Andn => 0x2D,
        Opcode::Ora => 0x2E,
        Opcode::Orn => 0x2F,
        Opcode::Xora => 0x30,
        Opcode::Xorn => 0x31,
        Opcode::Nota => 0x32,
        Opcode::Equa => 0x33,
        Opcode::Equn => 0x34,
        Opcode::Biga => 0x35,
        Opcode::Bign => 0x36,
        Opcode::Bigequa => 0x37,
        Opcode::Bigequn => 0x38,
        Opcode::Smaa => 0x39,
        Opcode::Sman => 0x3A,
        Opcode::Smaequa => 0x3B,
        Opcode::Smaequn => 0x3C,
        Opcode::Seta => 0x3D,
        Opcode::Setn => 0x3E,
        Opcode::Geta => 0x3F,
        Opcode::Getn => 0x40,
        Opcode::Puta => 0x41,
        Opcode::Putn => 0x42,
        Opcode::Pusha => 0x43,
        Opcode::Pushn => 0x44,
        Opcode::Popa => 0x45,
        Opcode::Pop => 0x46,
        Opcode::Jmpa => 0x47,
        Opcode::Jmpn => 0x48,
        Opcode::Ujmpa => 0x49,
        Opcode::Ujmpn => 0x4A,
        Opcode::Calla => 0x4B,
        Opcode::Calln => 0x4C,
        Opcode::Ret => 0x4D,
        Opcode::Ina => 0x4E,
        Opcode::Inaasc => 0x4F,
        Opcode::Outa => 0x50,
        Opcode::Outn => 0x51,
        Opcode::Outaasc => 0x52,
        Opcode::Outnasc => 0x53,
        Opcode::Blta => 0x54,
    }
}

/// The opcode a word encodes, if any: encodings `0x20..=0x54`.
pub open spec fn spec_opcode_from_word(v: Word) -> Option<Opcode> {
    if v == 0x20 {
        Some(Opcode::Adda)
    } else if v == 0x21 {
        Some(Opcode::Addn)
    } else if v == 0x22 {
        Some(Opcode::Suba)
    } else if v == 0x23 {
        Some(Opcode::Subn)
    } else if v == 0x24 {
        Some(Opcode::Mula)
    } else if v == 0x25 {
        Some(Opcode::Muln)
    } else if v == 0x26 {
        Some(Opcode::Diva)
    } else if v == 0x27 {
        Some(Opcode::Divn)
    } else if v == 0x28 {
        Some(Opcode::Lsa)
    } else if v == 0x29 {
        Some(Opcode::Lsn)
    } else if v == 0x2A {
        Some(Opcode::Rsa)
    } else if v == 0x2B {
        Some(Opcode::Rsn)
    } else if v == 0x2C {
        Some(Opcode::Anda)
    } else if v == 0x2D {
        Some(Opcode::Andn)
    } else if v == 0x2E {
        Some(Opcode::Ora)
    } else if v == 0x2F {
        Some(Opcode::Orn)
    } else if v == 0x30 {
        Some(Opcode::Xora)
    } else if v == 0x31 {
        Some(Opcode::Xorn)
    } else if v == 0x32 {
        Some(Opcode::Nota)
    } else if v == 0x33 {
        Some(Opcode::Equa)
    } else if v == 0x34 {
        Some(Opcode::Equn)
    } else if v == 0x35 {
        Some(Opcode::Biga)
    } else if v == 0x36 {
        Some(Opcode::Bign)
    } else if v == 0x37 {
        Some(Opcode::Bigequa)
    } else if v == 0x38 {
        Some(Opcode::Bigequn)
    } else if v == 0x39 {
        Some(Opcode::Smaa)
    } else if v == 0x3A {
        Some(Opcode::Sman)
    } else if v == 0x3B {
        Some(Opcode::Smaequa)
    } else if v == 0x3C {
        Some(Opcode::Smaequn)
    } else if v == 0x3D {
        Some(Opcode::Seta)
    } else if v == 0x3E {
        Some(Opcode::Setn)
    } else if v == 0x3F {
        Some(Opcode::Geta)
    } else if v == 0x40 {
        Some(Opcode::Getn)
    } else if v == 0x41 {
        Some(Opcode::Puta)
    } else if v == 0x42 {
        Some(Opcode::Putn)
    } else if v == 0x43 {
        Some(Opcode::Pusha)
    } else if v == 0x44 {
        Some(Opcode::Pushn)
    } else if v == 0x45 {
        Some(Opcode::Popa)
    } else if v == 0x46 {
        Some(Opcode::Pop)
    } else if v == 0x47 {
        Some(Opcode::Jmpa)
    } else if v == 0x48 {
        Some(Opcode::Jmpn)
    } else if v == 0x49 {
        Some(Opcode::Ujmpa)
    } else if v == 0x4A {
        Some(Opcode::Ujmpn)
    } else if v == 0x4B {
        Some(Opcode::Calla)
    } else if v == 0x4C {
        Some(Opcode::Calln)
    } else if v == 0x4D {
        Some(Opcode::Ret)
    } else if v == 0x4E {
        Some(Opcode::Ina)
    } else if v == 0x4F {
        Some(Opcode::Inaasc)
    } else if v == 0x50 {
        Some(Opcode::Outa)
    } else if v == 0x51 {
        Some(Opcode::Outn)
    } else if v == 0x52 {
        Some(Opcode::Outaasc)
    } else if v == 0x53 {
        Some(Opcode::Outnasc)
    } else if v == 0x54 {
        Some(Opcode::Blta)
    } else {
        None
    }
}

impl Opcode {
    /// The numeric encoding of this opcode.
    pub fn code(self) -> (v: Word)
        ensures
            v == opcode_code(self),
    {
        match self {
            Opcode::Adda => 0x20,
            Opcode::Addn => 0x21,
            Opcode::Suba => 0x22,
            Opcode::Subn => 0x23,
            Opcode::Mula => 0x24,
            Opcode::Muln => 0x25,
            Opcode::Diva => 0x26,
            Opcode::Divn => 0x27,
            Opcode::Lsa => 0x28,
            Opcode::Lsn => 0x29,
            Opcode::Rsa => 0x2A,
            Opcode::Rsn => 0x2B,
            Opcode::Anda => 0x2C,
            Opcode::Andn => 0x2D,
            Opcode::Ora => 0x2E,
            Opcode::Orn => 0x2F,
            Opcode::Xora => 0x30,
            Opcode::Xorn => 0x31,
            Opcode::Nota => 0x32,
            Opcode::Equa => 0x33,
            Opcode::Equn => 0x34,
            Opcode::Biga => 0x35,
            Opcode::Bign => 0x36,
            Opcode::Bigequa => 0x37,
            Opcode::Bigequn => 0x38,
            Opcode::Smaa => 0x39,
            Opcode::Sman => 0x3A,
            Opcode::Smaequa => 0x3B,
            Opcode::Smaequn => 0x3C,
            Opcode::Seta => 0x3D,
            Opcode::Setn => 0x3E,
            Opcode::Geta => 0x3F,
            Opcode::Getn => 0x40,
            Opcode::Puta => 0x41,
            Opcode::Putn => 0x42,
            Opcode::Pusha => 0x43,
            Opcode::Pushn => 0x44,
            Opcode::Popa => 0x45,
            Opcode::Pop => 0x46,
            Opcode::Jmpa => 0x47,
            Opcode::Jmpn => 0x48,
            Opcode::Ujmpa => 0x49,
            Opcode::Ujmpn => 0x4A,
            Opcode::Calla => 0x4B,
            Opcode::Calln => 0x4C,
            Opcode::Ret => 0x4D,
            Opcode::Ina => 0x4E,
            Opcode::Inaasc => 0x4F,
            Opcode::Outa => 0x50,
            Opcode::Outn => 0x51,
            Opcode::Outaasc => 0x52,
            Opcode::Outnasc => 0x53,
            Opcode::Blta => 0x54,
        }
    }

    /// Decodes an opcode encoding, rejecting any word outside `0x20..=0x54`.
    pub fn from_word(v: Word) -> (r: Result<Opcode, &'static str>)
        ensures
            spec_opcode_from_word(v) matches Some(op) ==> r == Ok::<Opcode, &'static str>(op),
            spec_opcode_from_word(v) is None ==> (r matches Err(m) && m@ == "invalid opcode"@),
            r is Ok <==> 0x20 <= v <= 0x54,
    {
        match v {
            0x20 => Ok(Opcode::Adda),
            0x21 => Ok(Opcode::Addn),
            0x22 => Ok(Opcode::Suba),
            0x23 => Ok(Opcode::Subn),
            0x24 => Ok(Opcode::Mula),
            0x25 => Ok(Opcode::Muln),
            0x26 => Ok(Opcode::Diva),
            0x27 => Ok(Opcode::Divn),
            0x28 => Ok(Opcode::Lsa),
            0x29 => Ok(Opcode::Lsn),
            0x2A => Ok(Opcode::Rsa),
            0x2B => Ok(Opcode::Rsn),
            0x2C => Ok(Opcode::Anda),
            0x2D => Ok(Opcode::Andn),
            0x2E => Ok(Opcode::Ora),
            0x2F => Ok(Opcode::Orn),
            0x30 => Ok(Opcode::Xora),
            0x31 => Ok(Opcode::Xorn),
            0x32 => Ok(Opcode::Nota),
            0x33 => Ok(Opcode::Equa),
            0x34 => Ok(Opcode::Equn),
            0x35 => Ok(Opcode::Biga),
            0x36 => Ok(Opcode::Bign),
            0x37 => Ok(Opcode::Bigequa),
            0x38 => Ok(Opcode::Bigequn),
            0x39 => Ok(Opcode::Smaa),
            0x3A => Ok(Opcode::Sman),
            0x3B => Ok(Opcode::Smaequa),
            0x3C => Ok(Opcode::Smaequn),
            0x3D => Ok(Opcode::Seta),
            0x3E => Ok(Opcode::Setn),
            0x3F => Ok(Opcode::Geta),
            0x40 => Ok(Opcode::Getn),
            0x41 => Ok(Opcode::Puta),
            0x42 => Ok(Opcode::Putn),
            0x43 => Ok(Opcode::Pusha),
            0x44 => Ok(Opcode::Pushn),
            0x45 => Ok(Opcode::Popa),
            0x46 => Ok(Opcode::Pop),
            0x47 => Ok(Opcode::Jmpa),
            0x48 => Ok(Opcode::Jmpn),
            0x49 => Ok(Opcode::Ujmpa),
            0x4A => Ok(Opcode::Ujmpn),
            0x4B => Ok(Opcode::Calla),
            0x4C => Ok(Opcode::Calln),
            0x4D => Ok(Opcode::Ret),
            0x4E => Ok(Opcode::Ina),
            0x4F => Ok(Opcode::Inaasc),
            0x50 => Ok(Opcode::Outa),
            0x51 => Ok(Opcode::Outn),
            0x52 => Ok(Opcode::Outaasc),
            0x53 => Ok(Opcode::Outnasc),
            0x54 => Ok(Opcode::Blta),
            _ => Err("invalid opcode"),
        }
    }
}

/// Decoding the encoding of any opcode gives that opcode back.
pub proof fn lemma_opcode_code_round_trip(op: Opcode)
    ensures
        spec_opcode_from_word(opcode_code(op)) == Some(op),
{
}

} // verus!
