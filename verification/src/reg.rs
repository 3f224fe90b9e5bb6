//! The register file device: thirty-two words, fixed at construction, with
//! named access to the fourteen special registers at offsets `0x10..=0x1D`.

use vstd::prelude::*;
use vstd::string::*;
use crate::addr::REG_WORDS;
use crate::device::AddrPort;
use crate::error::CoreError;
use crate::hex::{append_hex, hex_digits};
use crate::types::Word;

verus! {

/// The named special registers, one per fixed offset `0x10..=0x1D`.
/// Writing the exit trigger or the interrupt and timer slots has side
/// effects in the owning execution engine; the device itself only stores.
#[derive(Copy, Clone, Debug, Eq, PartialEq, Structural)]
pub enum SpecialReg {
    /// Program counter, offset `0x10`.
    PC,
    /// Mode switch, offset `0x11`.
    MD,
    /// Stack pointer, offset `0x12`.
    SP,
    /// Timer value, offset `0x13`.
    TM,
    /// Interrupt handler entry, offset `0x14`.
    TA1,
    /// Interrupt return address, offset `0x15`.
    TA2,
    /// Sound channel: sine, offset `0x16`.
    M1,
    /// Sound channel: square, offset `0x17`.
    M2,
    /// Sound channel: triangle, offset `0x18`.
    M3,
    /// Sound channel: sawtooth, offset `0x19`.
    M4,
    /// Comparison-result flag, offset `0x1A`.
    RS,
    /// Exit trigger, offset `0x1B`.
    EX,
    /// Block-transfer source, offset `0x1C`.
    BLTS,
    /// Block-transfer length, offset `0x1D`.
    BLTL,
}

/// The fixed word offset of a special register.
pub open spec fn special_offset(reg: SpecialReg) -> nat {
    match reg {
        SpecialReg::PC => 0x10,
        SpecialReg::MD => 0x11,
        SpecialReg::SP => 0x12,
        SpecialReg::TM => 0x13,
        SpecialReg::TA1 => 0x14,
        SpecialReg::TA2 => 0x15,
        SpecialReg::M1 => 0x16,
        SpecialReg::M2 => 0x17,
        SpecialReg::M3 => 0x18,
        SpecialReg::M4 => 0x19,
        SpecialReg::RS => 0x1A,
        SpecialReg::EX => 0x1B,
        SpecialReg::BLTS => 0x1C,
        SpecialReg::BLTL => 0x1D,
    }
}

/// The special register at a word offset, if the offset names one.
pub open spec fn spec_special_from_offset(off: nat) -> Option<SpecialReg> {
    if off == 0x10 {
        Some(SpecialReg::PC)
    } else if off == 0x11 {
        Some(SpecialReg::MD)
    } else if off == 0x12 {
        Some(SpecialReg::SP)
    } else if off == 0x13 {
        Some(SpecialReg::TM)
    } else if off == 0x14 {
        Some(SpecialReg::TA1)
    } else if off == 0x15 {
        Some(SpecialReg::TA2)
    } else if off == 0x16 {
        Some(SpecialReg::M1)
    } else if off == 0x17 {
        Some(SpecialReg::M2)
    } else if off == 0x18 {
        Some(SpecialReg::M3)
    } else if off == 0x19 {
        Some(SpecialReg::M4)
    } else if off == 0x1A {
        Some(SpecialReg::RS)
    } else if off == 0x1B {
        Some(SpecialReg::EX)
    } else if off == 0x1C {
        Some(SpecialReg::BLTS)
    } else if off == 0x1D {
        Some(SpecialReg::BLTL)
    } else {
        None
    }
}

impl SpecialReg {
    /// The special register at a word offset, if any.
    pub fn from_offset(off: usize) -> (r: Option<SpecialReg>)
        ensures
            r == spec_special_from_offset(off as nat),
    {
        match off {
            0x10 => Some(SpecialReg::PC),
            0x11 => Some(SpecialReg::MD),
            0x12 => Some(SpecialReg::SP),
            0x13 => Some(SpecialReg::TM),
            0x14 => Some(SpecialReg::TA1),
            0x15 => Some(SpecialReg::TA2),
            0x16 => Some(SpecialReg::M1),
            0x17 => Some(SpecialReg::M2),
            0x18 => Some(SpecialReg::M3),
            0x19 => Some(SpecialReg::M4),
            0x1A => Some(SpecialReg::RS),
            0x1B => Some(SpecialReg::EX),
            0x1C => Some(SpecialReg::BLTS),
            0x1D => Some(SpecialReg::BLTL),
            _ => None,
        }
    }

    /// The fixed word offset of this special register.
    pub fn offset(self) -> (off: usize)
        ensures
            off == special_offset(self),
    {
        match self {
            SpecialReg::PC => 0x10,
            SpecialReg::MD => 0x11,
            SpecialReg::SP => 0x12,
            SpecialReg::TM => 0x13,
            SpecialReg::TA1 => 0x14,
            SpecialReg::TA2 => 0x15,
            SpecialReg::M1 => 0x16,
            SpecialReg::M2 => 0x17,
            SpecialReg::M3 => 0x18,
            SpecialReg::M4 => 0x19,
            SpecialReg::RS => 0x1A,
            SpecialReg::EX => 0x1B,
            SpecialReg::BLTS => 0x1C,
            SpecialReg::BLTL => 0x1D,
        }
    }
}

/// Every special register's offset is inside the register file.
pub proof fn lemma_special_offset_in_range(reg: SpecialReg)
    ensures
        0x10 <= special_offset(reg) <= 0x1D,
        special_offset(reg) < REG_WORDS,
{
}

/// The message of a register-file bounds violation: the offending offset
/// and the file's capacity.
pub open spec fn reg_oob_msg(off: nat, len: nat) -> Seq<char> {
    "RegFile offset 0x"@ + hex_digits(off) + " out of bounds (len=0x"@ + hex_digits(len) + ")"@
}

/// The short bounds-violation message of the raw setter.
pub open spec fn reg_oob_short_msg(off: nat) -> Seq<char> {
    "RegFile offset 0x"@ + hex_digits(off) + " OOB"@
}

fn make_reg_oob_msg(off: usize, len: usize) -> (s: String)
    ensures
        s@ == reg_oob_msg(off as nat, len as nat),
{
    let mut s = String::new();
    s.append("RegFile offset 0x");
    append_hex(&mut s, off);
    s.append(" out of bounds (len=0x");
    append_hex(&mut s, len);
    s.append(")");
    proof {
        assert(s@ =~= reg_oob_msg(off as nat, len as nat));
    }
    s
}

fn make_reg_oob_short_msg(off: usize) -> (s: String)
    ensures
        s@ == reg_oob_short_msg(off as nat),
{
    let mut s = String::new();
    s.append("RegFile offset 0x");
    append_hex(&mut s, off);
    s.append(" OOB");
    proof {
        assert(s@ =~= reg_oob_short_msg(off as nat));
    }
    s
}

/// The register file: thirty-two words, all zero at construction.
pub struct RegFile {
    regs: Vec<Word>,
}

impl RegFile {
    /// The register file always holds exactly `REG_WORDS` words.
    pub open spec fn wf(&self) -> bool {
        self.contents().len() == REG_WORDS
    }

    /// A fresh register file, every slot zero.
    pub fn new() -> (r: RegFile)
        ensures
            r.contents() == Seq::new(REG_WORDS as nat, |i: int| 0u32),
            r.wf(),
    {
        let mut regs: Vec<Word> = Vec::new();
        while regs.len() < REG_WORDS
            invariant
                regs@.len() <= REG_WORDS,
                regs@ =~= Seq::new(regs@.len(), |i: int| 0u32),
            decreases REG_WORDS - regs@.len(),
        {
            regs.push(0);
            proof {
                assert(regs@ =~= Seq::new(regs@.len(), |i: int| 0u32));
            }
        }
        proof {
            assert(regs@ =~= Seq::new(REG_WORDS as nat, |i: int| 0u32));
        }
        RegFile { regs }
    }

    /// Reads the slot at `off` directly, `None` past the end.
    pub fn get_raw(&self, off: usize) -> (r: Option<Word>)
        ensures
            off < self.contents().len() ==> r == Some(self.contents()[off as int]),
            off >= self.contents().len() ==> r is None,
    {
        if off < self.regs.len() {
            Some(self.regs[off])
        } else {
            None
        }
    }

    /// Writes the slot at `off` directly, rejecting an offset past the end
    /// without touching the file.
    pub fn set_raw(&mut self, off: usize, val: Word) -> (r: Result<(), CoreError>)
        ensures
            off < old(self).contents().len() ==> r is Ok && final(self).contents() == old(
                self,
            ).contents().update(off as int, val),
            off >= old(self).contents().len() ==> (r matches Err(CoreError::MemoryError(m)) && m@
                == reg_oob_short_msg(off as nat)) && final(self).contents() == old(
                self,
            ).contents(),
    {
        if off >= self.regs.len() {
            return Err(CoreError::MemoryError(make_reg_oob_short_msg(off)));
        }
        self.regs.set(off, val);
        Ok(())
    }

    /// Reads a special register by name.
    pub fn get_special(&self, reg: SpecialReg) -> (w: Word)
        requires
            self.wf(),
        ensures
            w == self.contents()[special_offset(reg) as int],
    {
        self.regs[reg.offset()]
    }

    /// Writes a special register by name.  The storage update is the whole
    /// effect here; engine-level side effects live with the engine.
    pub fn set_special(&mut self, reg: SpecialReg, val: Word) -> (r: Result<(), CoreError>)
        requires
            old(self).wf(),
        ensures
            r is Ok,
            final(self).contents() == old(self).contents().update(special_offset(reg) as int, val),
            final(self).wf(),
    {
        let off = reg.offset();
        self.regs.set(off, val);
        Ok(())
    }
}

impl Default for RegFile {
    /// Same as `RegFile::new`: every slot zero.
    fn default() -> (r: RegFile)
        ensures
            r.contents() == Seq::new(REG_WORDS as nat, |i: int| 0u32),
            r.wf(),
    {
        RegFile::new()
    }
}

impl AddrPort for RegFile {
    closed spec fn contents(&self) -> Seq<Word> {
        self.regs@
    }

    fn read(&self, off: usize) -> (r: Result<Word, CoreError>)
        ensures
            off >= self.contents().len() ==> (r matches Err(CoreError::MemoryError(m)) && m@
                == reg_oob_msg(off as nat, self.contents().len())),
    {
        if off < self.regs.len() {
            Ok(self.regs[off])
        } else {
            Err(CoreError::MemoryError(make_reg_oob_msg(off, self.regs.len())))
        }
    }

    fn write(&mut self, off: usize, val: Word) -> (r: Result<(), CoreError>)
        ensures
            off >= old(self).contents().len() ==> (r matches Err(CoreError::MemoryError(m)) && m@
                == reg_oob_msg(off as nat, old(self).contents().len())),
    {
        if off >= self.regs.len() {
            return Err(CoreError::MemoryError(make_reg_oob_msg(off, self.regs.len())));
        }
        self.regs.set(off, val);
        Ok(())
    }

    fn len(&self) -> (n: usize) {
        self.regs.len()
    }
}

} // verus!
