//! The unified address space: one bus owning one register file, one main
//! memory bank, one I/O-ports device and one framebuffer, dispatching every
//! read and write by address classification, plus the image operations that
//! save and restore main memory.
//!
//! Access policy: the four device-backed kinds forward to their device at
//! the classified offset; opcode space is execute-only and reserved space
//! is unmapped, so reads and writes of both fail uniformly with a
//! `MemoryError`.  A rejected access never changes any device.

use vstd::prelude::*;
use vstd::string::*;
use crate::addr::{
    kind_of, offset_of, Addr, AddrKind, IO_START, IO_WORDS, RAM_BASE, RAM_MAX_WORDS, REG_START,
    REG_WORDS, VRAM_MAX_WORDS, VRAM_START,
};
use crate::device::AddrPort;
use crate::error::CoreError;
use crate::hex::{append_hex, append_hex_pad8, hex_digits, hex_pad8};
use crate::image::{be_word_at, bytes_to_words, lemma_bytes_to_words_index, lemma_bytes_to_words_len, words_to_bytes};
use crate::io::Io;
use crate::memory::Memory;
use crate::reg::RegFile;
use crate::types::Word;
use crate::vram::Vram;

verus! {

/// The message rejecting an access to reserved (unmapped) address space.
pub open spec fn reserved_msg(a: nat) -> Seq<char> {
    "Reserved address space: 0x"@ + hex_pad8(a)
}

fn make_reserved_msg(a: u32) -> (s: String)
    ensures
        s@ == reserved_msg(a as nat),
{
    let mut s = String::new();
    s.append("Reserved address space: 0x");
    append_hex_pad8(&mut s, a as usize);
    proof {
        assert(s@ =~= reserved_msg(a as nat));
    }
    s
}

/// The message rejecting a video-memory configuration beyond the
/// architectural ceiling.
pub open spec fn vram_too_large_msg(words: nat) -> Seq<char> {
    "VRAM size too large: 0x"@ + hex_digits(words) + " words exceeds max 0x"@ + hex_digits(
        VRAM_MAX_WORDS as nat,
    ) + " words"@
}

fn make_vram_too_large_msg(words: usize) -> (s: String)
    ensures
        s@ == vram_too_large_msg(words as nat),
{
    let mut s = String::new();
    s.append("VRAM size too large: 0x");
    append_hex(&mut s, words);
    s.append(" words exceeds max 0x");
    append_hex(&mut s, VRAM_MAX_WORDS);
    s.append(" words");
    proof {
        assert(s@ =~= vram_too_large_msg(words as nat));
    }
    s
}

/// The message rejecting a main-memory configuration whose cells could not
/// all be reached through 32-bit addresses.
pub open spec fn ram_too_large_msg(words: nat) -> Seq<char> {
    "RAM size too large: 0x"@ + hex_digits(words) + " words exceeds max 0x"@ + hex_digits(
        RAM_MAX_WORDS as nat,
    ) + " words"@
}

fn make_ram_too_large_msg(words: usize) -> (s: String)
    ensures
        s@ == ram_too_large_msg(words as nat),
{
    let mut s = String::new();
    s.append("RAM size too large: 0x");
    append_hex(&mut s, words);
    s.append(" words exceeds max 0x");
    append_hex(&mut s, RAM_MAX_WORDS);
    s.append(" words");
    proof {
        assert(s@ =~= ram_too_large_msg(words as nat));
    }
    s
}

/// The unified address space: exactly one instance of each device, plus the
/// resolved video-memory end address.
pub struct Address {
    regs: RegFile,
    vram: Vram,
    ram: Memory,
    io: Io,
    vram_end: u32,
}

impl Address {
    /// The register file's words.
    pub closed spec fn spec_regs(&self) -> Seq<Word> {
        self.regs.contents()
    }

    /// The I/O ports' words.
    pub closed spec fn spec_io(&self) -> Seq<Word> {
        self.io.contents()
    }

    /// The framebuffer's words.
    pub closed spec fn spec_vram(&self) -> Seq<Word> {
        self.vram.contents()
    }

    /// The main-memory bank's words.
    pub closed spec fn spec_ram(&self) -> Seq<Word> {
        self.ram.contents()
    }

    /// The resolved video-memory end address.
    pub closed spec fn spec_vram_end(&self) -> u32 {
        self.vram_end
    }

    /// Well-formedness, established at construction and preserved by every
    /// operation: the fixed devices have their architectural capacities,
    /// the configured devices fit the 32-bit memory map, and the stored
    /// video end address matches the framebuffer capacity.
    pub open spec fn wf(&self) -> bool {
        &&& self.spec_regs().len() == REG_WORDS
        &&& self.spec_io().len() == IO_WORDS
        &&& self.spec_vram().len() <= VRAM_MAX_WORDS
        &&& self.spec_ram().len() <= RAM_MAX_WORDS
        &&& self.spec_vram_end() as int == VRAM_START + self.spec_vram().len() - 1
    }

    /// Whether an access at raw address `a` succeeds: the address must
    /// classify into a device-backed kind and its offset must be below that
    /// device's capacity.  Reads and writes succeed on exactly the same
    /// addresses; opcode and reserved space fail both ways.
    pub open spec fn access_ok(&self, a: u32) -> bool {
        match kind_of(a) {
            AddrKind::Reg => offset_of(a) < self.spec_regs().len(),
            AddrKind::Opcode => false,
            AddrKind::Io => offset_of(a) < self.spec_io().len(),
            AddrKind::Vram => offset_of(a) < self.spec_vram().len(),
            AddrKind::Ram => offset_of(a) < self.spec_ram().len(),
            AddrKind::Reserved => false,
        }
    }

    /// The word a successful read at raw address `a` returns.
    pub open spec fn read_val(&self, a: u32) -> Word {
        match kind_of(a) {
            AddrKind::Reg => self.spec_regs()[offset_of(a) as int],
            AddrKind::Io => self.spec_io()[offset_of(a) as int],
            AddrKind::Vram => self.spec_vram()[offset_of(a) as int],
            AddrKind::Ram => self.spec_ram()[offset_of(a) as int],
            _ => 0,
        }
    }

    /// The state after a successful write of `v` at raw address `a`: the
    /// one addressed cell is updated and everything else is kept.
    pub open spec fn written(pre: Address, post: Address, a: u32, v: Word) -> bool {
        &&& post.spec_regs() == (if kind_of(a) == AddrKind::Reg {
            pre.spec_regs().update(offset_of(a) as int, v)
        } else {
            pre.spec_regs()
        })
        &&& post.spec_io() == (if kind_of(a) == AddrKind::Io {
            pre.spec_io().update(offset_of(a) as int, v)
        } else {
            pre.spec_io()
        })
        &&& post.spec_vram() == (if kind_of(a) == AddrKind::Vram {
            pre.spec_vram().update(offset_of(a) as int, v)
        } else {
            pre.spec_vram()
        })
        &&& post.spec_ram() == (if kind_of(a) == AddrKind::Ram {
            pre.spec_ram().update(offset_of(a) as int, v)
        } else {
            pre.spec_ram()
        })
        &&& post.spec_vram_end() == pre.spec_vram_end()
    }

    /// Two bus states with identical device contents and configuration.
    pub open spec fn same_state(pre: Address, post: Address) -> bool {
        &&& post.spec_regs() == pre.spec_regs()
        &&& post.spec_io() == pre.spec_io()
        &&& post.spec_vram() == pre.spec_vram()
        &&& post.spec_ram() == pre.spec_ram()
        &&& post.spec_vram_end() == pre.spec_vram_end()
    }

    /// A new address space with all devices zeroed, for capacities inside
    /// the memory map.  `try_new` is the checked form for untrusted
    /// capacities.
    pub fn new(ram_words: usize, vram_words: usize) -> (bus: Address)
        requires
            vram_words <= VRAM_MAX_WORDS,
            ram_words <= RAM_MAX_WORDS,
        ensures
            bus.wf(),
            bus.spec_regs() == Seq::new(REG_WORDS as nat, |i: int| 0u32),
            bus.spec_io() == Seq::new(IO_WORDS as nat, |i: int| 0u32),
            bus.spec_vram() == Seq::new(vram_words as nat, |i: int| 0u32),
            bus.spec_ram() == Seq::new(ram_words as nat, |i: int| 0u32),
            bus.spec_vram_end() as int == VRAM_START + vram_words - 1,
    {
        let vram_end: u32 = (VRAM_START - 1) + vram_words as u32;
        Address {
            regs: RegFile::new(),
            vram: Vram::new(vram_words),
            ram: Memory::new(ram_words),
            io: Io::new(),
            vram_end,
        }
    }

    /// Validates the configuration and builds the address space, or reports
    /// why the machine configuration is invalid: a framebuffer whose end
    /// address would pass the architectural ceiling, or a main memory with
    /// cells beyond the 32-bit address space.  An invalid configuration
    /// never yields a bus.
    pub fn try_new(ram_words: usize, vram_words: usize) -> (r: Result<Address, CoreError>)
        ensures
            r is Ok <==> vram_words <= VRAM_MAX_WORDS && ram_words <= RAM_MAX_WORDS,
            r matches Ok(bus) ==> bus.wf() && bus.spec_regs() == Seq::new(
                REG_WORDS as nat,
                |i: int| 0u32,
            ) && bus.spec_io() == Seq::new(IO_WORDS as nat, |i: int| 0u32) && bus.spec_vram()
                == Seq::new(vram_words as nat, |i: int| 0u32) && bus.spec_ram() == Seq::new(
                ram_words as nat,
                |i: int| 0u32,
            ) && bus.spec_vram_end() as int == VRAM_START + vram_words - 1,
            vram_words > VRAM_MAX_WORDS ==> (r matches Err(CoreError::InvalidInput(m)) && m@
                == vram_too_large_msg(vram_words as nat)),
            vram_words <= VRAM_MAX_WORDS && ram_words > RAM_MAX_WORDS ==> (r matches Err(
                CoreError::InvalidInput(m),
            ) && m@ == ram_too_large_msg(ram_words as nat)),
    {
        if vram_words > VRAM_MAX_WORDS {
            return Err(CoreError::InvalidInput(make_vram_too_large_msg(vram_words)));
        }
        if ram_words > RAM_MAX_WORDS {
            return Err(CoreError::InvalidInput(make_ram_too_large_msg(ram_words)));
        }
        Ok(Address::new(ram_words, vram_words))
    }

    /// Reads the word at `addr`: classified, bounds-checked, forwarded to
    /// the owning device.  Opcode and reserved space always fail.
    pub fn read(&self, addr: Addr) -> (r: Result<Word, CoreError>)
        ensures
            r is Ok <==> self.access_ok(addr.spec_raw()),
            self.access_ok(addr.spec_raw()) ==> r == Ok::<Word, CoreError>(
                self.read_val(addr.spec_raw()),
            ),
            !self.access_ok(addr.spec_raw()) ==> (r matches Err(e) && e is MemoryError),
            kind_of(addr.spec_raw()) == AddrKind::Opcode ==> (r matches Err(
                CoreError::MemoryError(m),
            ) && m@ == "Cannot read from opcode space"@),
            kind_of(addr.spec_raw()) == AddrKind::Reserved ==> (r matches Err(
                CoreError::MemoryError(m),
            ) && m@ == reserved_msg(addr.spec_raw() as nat)),
            !self.access_ok(addr.spec_raw()) && kind_of(addr.spec_raw()) == AddrKind::Reg ==> (r
                matches Err(CoreError::MemoryError(m)) && m@ == crate::reg::reg_oob_msg(
                offset_of(addr.spec_raw()),
                self.spec_regs().len(),
            )),
            !self.access_ok(addr.spec_raw()) && kind_of(addr.spec_raw()) == AddrKind::Io ==> (r
                matches Err(CoreError::MemoryError(m)) && m@ == crate::io::io_oob_msg(
                offset_of(addr.spec_raw()),
                self.spec_io().len(),
            )),
            !self.access_ok(addr.spec_raw()) && kind_of(addr.spec_raw()) == AddrKind::Vram ==> (r
                matches Err(CoreError::MemoryError(m)) && m@ == crate::vram::vram_oob_msg(
                offset_of(addr.spec_raw()),
                self.spec_vram().len(),
            )),
            !self.access_ok(addr.spec_raw()) && kind_of(addr.spec_raw()) == AddrKind::Ram ==> (r
                matches Err(CoreError::MemoryError(m)) && m@ == crate::memory::mem_oob_msg(
                offset_of(addr.spec_raw()),
                self.spec_ram().len(),
            )),
    {
        match addr.kind() {
            AddrKind::Reg => self.regs.read(addr.offset()),
            AddrKind::Io => self.io.read(addr.offset()),
            AddrKind::Vram => self.vram.read(addr.offset()),
            AddrKind::Ram => self.ram.read(addr.offset()),
            AddrKind::Opcode => Err(
                CoreError::MemoryError("Cannot read from opcode space".to_owned()),
            ),
            AddrKind::Reserved => Err(CoreError::MemoryError(make_reserved_msg(addr.raw()))),
        }
    }

    /// Writes `val` at `addr`: classified, bounds-checked, forwarded to the
    /// owning device.  Opcode space is execute-only, so opcode writes
    /// always fail; reserved space always fails; a rejected write leaves
    /// every device untouched, and an accepted one is readable back.
    pub fn write(&mut self, addr: Addr, val: Word) -> (r: Result<(), CoreError>)
        ensures
            r is Ok <==> old(self).access_ok(addr.spec_raw()),
            r is Ok ==> Address::written(*old(self), *final(self), addr.spec_raw(), val),
            r is Ok ==> final(self).access_ok(addr.spec_raw()) && final(self).read_val(
                addr.spec_raw(),
            ) == val,
            r is Err ==> Address::same_state(*old(self), *final(self)) && (r matches Err(e) && e
                is MemoryError),
            kind_of(addr.spec_raw()) == AddrKind::Opcode ==> (r matches Err(
                CoreError::MemoryError(m),
            ) && m@ == "Cannot write to opcode space"@),
            kind_of(addr.spec_raw()) == AddrKind::Reserved ==> (r matches Err(
                CoreError::MemoryError(m),
            ) && m@ == reserved_msg(addr.spec_raw() as nat)),
            old(self).wf() ==> final(self).wf(),
            !old(self).access_ok(addr.spec_raw()) && kind_of(addr.spec_raw()) == AddrKind::Reg
                ==> (r matches Err(CoreError::MemoryError(m)) && m@ == crate::reg::reg_oob_msg(
                offset_of(addr.spec_raw()),
                old(self).spec_regs().len(),
            )),
            !old(self).access_ok(addr.spec_raw()) && kind_of(addr.spec_raw()) == AddrKind::Io
                ==> (r matches Err(CoreError::MemoryError(m)) && m@ == crate::io::io_oob_msg(
                offset_of(addr.spec_raw()),
                old(self).spec_io().len(),
            )),
            !old(self).access_ok(addr.spec_raw()) && kind_of(addr.spec_raw()) == AddrKind::Vram
                ==> (r matches Err(CoreError::MemoryError(m)) && m@ == crate::vram::vram_oob_msg(
                offset_of(addr.spec_raw()),
                old(self).spec_vram().len(),
            )),
            !old(self).access_ok(addr.spec_raw()) && kind_of(addr.spec_raw()) == AddrKind::Ram
                ==> (r matches Err(CoreError::MemoryError(m)) && m@ == crate::memory::mem_oob_msg(
                offset_of(addr.spec_raw()),
                old(self).spec_ram().len(),
            )),
    {
        match addr.kind() {
            AddrKind::Reg => self.regs.write(addr.offset(), val),
            AddrKind::Io => self.io.write(addr.offset(), val),
            AddrKind::Vram => self.vram.write(addr.offset(), val),
            AddrKind::Ram => self.ram.write(addr.offset(), val),
            AddrKind::Opcode => Err(
                CoreError::MemoryError("Cannot write to opcode space".to_owned()),
            ),
            AddrKind::Reserved => Err(CoreError::MemoryError(make_reserved_msg(addr.raw()))),
        }
    }

    /// The register file, read-only.
    pub fn regs(&self) -> (r: &RegFile)
        ensures
            r.contents() == self.spec_regs(),
    {
        &self.regs
    }

    /// The framebuffer, read-only.
    pub fn vram(&self) -> (r: &Vram)
        ensures
            r.contents() == self.spec_vram(),
    {
        &self.vram
    }

    /// The main-memory bank, read-only.
    pub fn ram(&self) -> (r: &Memory)
        ensures
            r.contents() == self.spec_ram(),
    {
        &self.ram
    }

    /// The I/O ports, read-only.
    pub fn io(&self) -> (r: &Io)
        ensures
            r.contents() == self.spec_io(),
    {
        &self.io
    }

    /// The register file, for direct engine-level access.
    pub fn regs_mut(&mut self) -> (r: &mut RegFile)
        ensures
            r.contents() == old(self).spec_regs(),
            final(self).spec_regs() == final(r).contents(),
            final(self).spec_io() == old(self).spec_io(),
            final(self).spec_vram() == old(self).spec_vram(),
            final(self).spec_ram() == old(self).spec_ram(),
            final(self).spec_vram_end() == old(self).spec_vram_end(),
    {
        &mut self.regs
    }

    /// The framebuffer, for direct engine-level access.
    pub fn vram_mut(&mut self) -> (r: &mut Vram)
        ensures
            r.contents() == old(self).spec_vram(),
            final(self).spec_vram() == final(r).contents(),
            final(self).spec_regs() == old(self).spec_regs(),
            final(self).spec_io() == old(self).spec_io(),
            final(self).spec_ram() == old(self).spec_ram(),
            final(self).spec_vram_end() == old(self).spec_vram_end(),
    {
        &mut self.vram
    }

    /// The main-memory bank, for direct engine-level access.
    pub fn ram_mut(&mut self) -> (r: &mut Memory)
        ensures
            r.contents() == old(self).spec_ram(),
            final(self).spec_ram() == final(r).contents(),
            final(self).spec_regs() == old(self).spec_regs(),
            final(self).spec_io() == old(self).spec_io(),
            final(self).spec_vram() == old(self).spec_vram(),
            final(self).spec_vram_end() == old(self).spec_vram_end(),
    {
        &mut self.ram
    }

    /// The I/O ports, for direct engine-level access.
    pub fn io_mut(&mut self) -> (r: &mut Io)
        ensures
            r.contents() == old(self).spec_io(),
            final(self).spec_io() == final(r).contents(),
            final(self).spec_regs() == old(self).spec_regs(),
            final(self).spec_vram() == old(self).spec_vram(),
            final(self).spec_ram() == old(self).spec_ram(),
            final(self).spec_vram_end() == old(self).spec_vram_end(),
    {
        &mut self.io
    }

    /// The resolved video-memory end address.
    pub fn vram_end(&self) -> (e: u32)
        ensures
            e == self.spec_vram_end(),
    {
        self.vram_end
    }

    /// The byte image of the machine state: the main-memory bank alone,
    /// four big-endian bytes per word in ascending address order.  Register,
    /// I/O and video contents are transient and are not part of an image.
    pub fn image_bytes(&self) -> (img: Vec<u8>)
        ensures
            img@ == words_to_bytes(self.spec_ram()),
    {
        self.ram.to_u8_vec()
    }

    /// Restores main memory from a byte image, one bus write per word at
    /// ascending main-memory addresses.
    ///
    /// The image must hold at least one word and a whole number of
    /// four-byte groups; a malformed image is rejected without touching any
    /// device.  An image longer than the bank fails on the first word past
    /// the end, leaving the words before it written: a partial load is
    /// surfaced, never silent, and a caller needing atomicity loads into a
    /// fresh bus and swaps it in.
    pub fn load_image_bytes(&mut self, data: &Vec<u8>) -> (r: Result<(), CoreError>)
        requires
            old(self).spec_ram().len() <= RAM_MAX_WORDS,
        ensures
            r is Ok <==> data@.len() >= 4 && data@.len() % 4 == 0 && data@.len() / 4 <= old(
                self,
            ).spec_ram().len(),
            data@.len() < 4 ==> (r matches Err(CoreError::MemoryError(m)) && m@
                == "SFS file too small"@) && Address::same_state(*old(self), *final(self)),
            data@.len() >= 4 && data@.len() % 4 != 0 ==> (r matches Err(CoreError::InvalidInput(m))
                && m@ == "Image size is not a whole number of words"@) && Address::same_state(
                *old(self),
                *final(self),
            ),
            r is Ok ==> final(self).spec_ram() == bytes_to_words(data@) + old(self).spec_ram().skip(
                data@.len() as int / 4,
            ),
            data@.len() >= 4 && data@.len() % 4 == 0 && data@.len() / 4 > old(
                self,
            ).spec_ram().len() ==> (r matches Err(e) && e is MemoryError) && final(self).spec_ram()
                == bytes_to_words(data@).take(old(self).spec_ram().len() as int),
            final(self).spec_regs() == old(self).spec_regs(),
            final(self).spec_io() == old(self).spec_io(),
            final(self).spec_vram() == old(self).spec_vram(),
            final(self).spec_vram_end() == old(self).spec_vram_end(),
            old(self).wf() ==> final(self).wf(),
    {
        let total = data.len();
        if total < 4 {
            return Err(CoreError::MemoryError("SFS file too small".to_owned()));
        }
        proof {
            vstd::arithmetic::div_mod::lemma_fundamental_div_mod(total as int, 4);
        }
        if total % 4 != 0 {
            return Err(CoreError::InvalidInput("Image size is not a whole number of words".to_owned()));
        }
        let word_count = total / 4;
        let ghost pre = *self;
        let ghost ram_len = self.spec_ram().len();
        let mut i: usize = 0;
        while i < word_count
            invariant
                pre == *old(self),
                ram_len == pre.spec_ram().len(),
                i <= word_count,
                i <= ram_len,
                word_count == total / 4,
                total == data@.len(),
                total % 4 == 0,
                4 <= total,
                ram_len <= RAM_MAX_WORDS,
                self.spec_ram().len() == ram_len,
                forall|j: int| 0 <= j < i ==> self.spec_ram()[j] == bytes_to_words(data@)[j],
                forall|j: int| i <= j < ram_len ==> self.spec_ram()[j] == pre.spec_ram()[j],
                self.spec_regs() == pre.spec_regs(),
                self.spec_io() == pre.spec_io(),
                self.spec_vram() == pre.spec_vram(),
                self.spec_vram_end() == pre.spec_vram_end(),
            decreases word_count - i,
        {
            if let Err(e) = self.ram.check_bounds(i) {
                proof {
                    lemma_bytes_to_words_len(data@);
                    assert(self.spec_ram() =~= bytes_to_words(data@).take(ram_len as int));
                }
                return Err(e);
            }
            proof {
                assert(4 * i + 4 <= total);
            }
            let w = be_word_at(data, 4 * i);
            let a = Addr::from_ram_idx(i);
            proof {
                lemma_bytes_to_words_len(data@);
                lemma_bytes_to_words_index(data@, i as int);
            }
            match self.write(a, w) {
                Ok(()) => {},
                Err(e) => {
                    proof {
                        assert(kind_of(a.spec_raw()) == AddrKind::Ram);
                        assert(offset_of(a.spec_raw()) == i);
                        assert(false);
                    }
                    return Err(e);
                },
            }
            i = i + 1;
        }
        proof {
            lemma_bytes_to_words_len(data@);
            assert(self.spec_ram() =~= bytes_to_words(data@) + pre.spec_ram().skip(
                word_count as int,
            ));
        }
        Ok(())
    }
}

/// Within a well-formed bus, the classified offset of every mapped address
/// relates to its device's capacity exactly: register and I/O offsets are
/// always inside their fixed devices, a video offset is inside the
/// framebuffer exactly up to the configured end address, and a main-memory
/// offset is inside the bank exactly up to its configured capacity.
pub proof fn lemma_mapped_offset_bounds(bus: &Address, a: u32)
    requires
        bus.wf(),
    ensures
        kind_of(a) == AddrKind::Reg ==> offset_of(a) == a - REG_START && offset_of(a)
            < bus.spec_regs().len(),
        kind_of(a) == AddrKind::Io ==> offset_of(a) == a - IO_START && offset_of(a)
            < bus.spec_io().len(),
        kind_of(a) == AddrKind::Vram ==> offset_of(a) == a - VRAM_START && (offset_of(a)
            < bus.spec_vram().len() <==> a <= bus.spec_vram_end()),
        kind_of(a) == AddrKind::Ram ==> offset_of(a) == a - RAM_BASE && (offset_of(a)
            < bus.spec_ram().len() <==> (a as int) < RAM_BASE + bus.spec_ram().len()),
{
}

/// Round trip through the bus: a successful write of `v` at `a` leaves a
/// state where reading `a` succeeds and returns exactly `v`.
pub proof fn lemma_write_read_round_trip(pre: Address, post: Address, a: u32, v: Word)
    requires
        pre.access_ok(a),
        Address::written(pre, post, a, v),
    ensures
        post.access_ok(a),
        post.read_val(a) == v,
{
}

} // verus!
