//! Typed 32-bit addresses and their classification into address-space kinds.
//!
//! The flat 32-bit address space is partitioned into six fixed, disjoint,
//! ordered regions: registers, opcode space, I/O ports, video memory, main
//! memory, and the reserved gaps between them.  Classification is a pure,
//! total function of the raw value; the in-kind offset is meaningful only
//! for the four kinds that are backed by a device.

use vstd::prelude::*;

verus! {

/// First register address.
pub const REG_START: u32 = 0x00;

/// Last register address.
pub const REG_END: u32 = 0x1D;

/// First opcode-space address.
pub const OPC_START: u32 = 0x20;

/// Last opcode-space address.
pub const OPC_END: u32 = 0x54;

/// First I/O-port address.
pub const IO_START: u32 = 0x70;

/// Last I/O-port address.
pub const IO_END: u32 = 0xFF;

/// First video-memory address.
pub const VRAM_START: u32 = 0x0000_0100;

/// Largest video-memory end address any configuration may reach.
pub const VRAM_MAX_END: u32 = 0x0010_00FF;

/// First main-memory address.
pub const RAM_BASE: u32 = 0x0010_0100;

/// Word capacity of the register file device.
pub const REG_WORDS: usize = 0x20;

/// Word capacity of the I/O-ports device.
pub const IO_WORDS: usize = 0x90;

/// Largest video-memory capacity, in words, that keeps the configured end
/// address within `VRAM_MAX_END`.
pub const VRAM_MAX_WORDS: usize = 0x0010_0000;

/// Largest main-memory capacity, in words, that keeps every cell reachable
/// through a 32-bit address (`RAM_BASE + RAM_MAX_WORDS - 1 == u32::MAX`).
pub const RAM_MAX_WORDS: usize = 0xFFEF_FF00;

/// A typed 32-bit address value.  All 32-bit values are legal addresses;
/// classification decides whether one is mapped.
#[derive(Copy, Clone, Debug, Eq, PartialEq, Ord, PartialOrd, Hash, Structural)]
pub struct Addr(pub u32);

/// The six kinds an address can classify into.
#[derive(Copy, Clone, Debug, Eq, PartialEq, Structural)]
pub enum AddrKind {
    /// Registers, `0x00..=0x1D`.
    Reg,
    /// Instruction opcodes, `0x20..=0x54`; never a readable or writable cell.
    Opcode,
    /// I/O ports, `0x70..=0xFF`.
    Io,
    /// Video memory, `0x0000_0100..=0x0010_00FF`.
    Vram,
    /// Main memory, `0x0010_0100` and above.
    Ram,
    /// Every unmapped gap.
    Reserved,
}

/// The kind of a raw address: a pure, total function of the value, with the
/// closed boundary comparisons of the memory map.
pub open spec fn kind_of(a: u32) -> AddrKind {
    if a <= REG_END {
        AddrKind::Reg
    } else if OPC_START <= a && a <= OPC_END {
        AddrKind::Opcode
    } else if IO_START <= a && a <= IO_END {
        AddrKind::Io
    } else if VRAM_START <= a && a <= VRAM_MAX_END {
        AddrKind::Vram
    } else if a >= RAM_BASE {
        AddrKind::Ram
    } else {
        AddrKind::Reserved
    }
}

/// The device-local offset of a raw address: the distance to its kind's
/// base for the four device-backed kinds, zero for the two others, which
/// are never indexed into a device.
pub open spec fn offset_of(a: u32) -> nat {
    match kind_of(a) {
        AddrKind::Reg => (a - REG_START) as nat,
        AddrKind::Io => (a - IO_START) as nat,
        AddrKind::Vram => (a - VRAM_START) as nat,
        AddrKind::Ram => (a - RAM_BASE) as nat,
        _ => 0,
    }
}

/// Classification is total: the six kinds partition the 32-bit address
/// space, so every value falls under exactly one kind, with the closed
/// boundaries of the memory map.
pub proof fn lemma_classification_total(a: u32)
    ensures
        kind_of(a) == AddrKind::Reg <==> a <= REG_END,
        kind_of(a) == AddrKind::Opcode <==> OPC_START <= a <= OPC_END,
        kind_of(a) == AddrKind::Io <==> IO_START <= a <= IO_END,
        kind_of(a) == AddrKind::Vram <==> VRAM_START <= a <= VRAM_MAX_END,
        kind_of(a) == AddrKind::Ram <==> a >= RAM_BASE,
        kind_of(a) == AddrKind::Reserved <==> (REG_END < a < OPC_START) || (OPC_END < a
            < IO_START),
{
}

/// Within each device-backed kind, the offset is the distance to the kind's
/// base, and for the two fixed-size devices it is below the device capacity.
/// The video and main-memory bounds depend on the configured capacities and
/// are stated against the owning bus.
pub proof fn lemma_offset_in_range(a: u32)
    ensures
        kind_of(a) == AddrKind::Reg ==> offset_of(a) == a - REG_START && offset_of(a)
            < REG_WORDS,
        kind_of(a) == AddrKind::Io ==> offset_of(a) == a - IO_START && offset_of(a) < IO_WORDS,
        kind_of(a) == AddrKind::Vram ==> offset_of(a) == a - VRAM_START && offset_of(a)
            < VRAM_MAX_WORDS,
        kind_of(a) == AddrKind::Ram ==> offset_of(a) == a - RAM_BASE && offset_of(a)
            < RAM_MAX_WORDS,
        kind_of(a) == AddrKind::Opcode || kind_of(a) == AddrKind::Reserved ==> offset_of(a) == 0,
{
}

impl Addr {
    /// The raw 32-bit value.
    pub open spec fn spec_raw(self) -> u32 {
        self.0
    }

    /// Wraps a raw 32-bit value; every value is a legal address.
    pub fn new(raw: u32) -> (a: Addr)
        ensures
            a.spec_raw() == raw,
    {
        Addr(raw)
    }

    /// The raw 32-bit value back out.
    #[verifier::when_used_as_spec(spec_raw)]
    pub fn raw(self) -> (r: u32)
        ensures
            r == self.spec_raw(),
    {
        self.0
    }

    /// Classifies this address into its kind.
    pub fn kind(self) -> (k: AddrKind)
        ensures
            k == kind_of(self.spec_raw()),
    {
        let a = self.0;
        if a <= REG_END {
            AddrKind::Reg
        } else if OPC_START <= a && a <= OPC_END {
            AddrKind::Opcode
        } else if IO_START <= a && a <= IO_END {
            AddrKind::Io
        } else if VRAM_START <= a && a <= VRAM_MAX_END {
            AddrKind::Vram
        } else if a >= RAM_BASE {
            AddrKind::Ram
        } else {
            AddrKind::Reserved
        }
    }

    /// The device-local offset, in words.  Meaningful only for the four
    /// device-backed kinds; zero for opcode and reserved space.
    pub fn offset(self) -> (off: usize)
        ensures
            off == offset_of(self.spec_raw()),
    {
        match self.kind() {
            AddrKind::Reg => (self.0 - REG_START) as usize,
            AddrKind::Io => (self.0 - IO_START) as usize,
            AddrKind::Vram => (self.0 - VRAM_START) as usize,
            AddrKind::Ram => (self.0 - RAM_BASE) as usize,
            _ => 0,
        }
    }

    /// The address of the main-memory cell at index `idx`.
    pub fn from_ram_idx(idx: usize) -> (a: Addr)
        requires
            idx < RAM_MAX_WORDS,
        ensures
            a.spec_raw() == RAM_BASE + idx,
    {
        Addr::new(RAM_BASE + idx as u32)
    }
}

impl core::convert::From<u32> for Addr {
    fn from(raw: u32) -> (a: Addr) {
        Addr(raw)
    }
}

impl vstd::std_specs::convert::FromSpecImpl<u32> for Addr {
    open spec fn obeys_from_spec() -> bool {
        true
    }

    open spec fn from_spec(raw: u32) -> Addr {
        Addr(raw)
    }
}

impl core::convert::From<Addr> for u32 {
    fn from(a: Addr) -> (r: u32) {
        a.0
    }
}

impl vstd::std_specs::convert::FromSpecImpl<Addr> for u32 {
    open spec fn obeys_from_spec() -> bool {
        true
    }

    open spec fn from_spec(a: Addr) -> u32 {
        a.spec_raw()
    }
}

} // verus!
