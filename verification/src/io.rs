//! The I/O-ports device: one hundred forty-four words mapped at addresses
//! `0x70..=0xFF`, the lowest six reserved for key ports and `0x80..=0xFF`
//! for an ASCII-indexed output range.

use vstd::prelude::*;
use vstd::string::*;
use crate::addr::{IO_START, IO_WORDS};
use crate::device::AddrPort;
use crate::error::CoreError;
use crate::hex::{append_hex, hex_digits};
use crate::types::Word;

verus! {

/// The message of an I/O bounds violation: the offending offset and the
/// device's capacity.
pub open spec fn io_oob_msg(off: nat, len: nat) -> Seq<char> {
    "IO offset 0x"@ + hex_digits(off) + " out of bounds (len=0x"@ + hex_digits(len) + ")"@
}

/// The short bounds-violation message of the raw setter.
pub open spec fn io_oob_short_msg(off: nat) -> Seq<char> {
    "IO offset 0x"@ + hex_digits(off) + " OOB"@
}

fn make_io_oob_msg(off: usize, len: usize) -> (s: String)
    ensures
        s@ == io_oob_msg(off as nat, len as nat),
{
    let mut s = String::new();
    s.append("IO offset 0x");
    append_hex(&mut s, off);
    s.append(" out of bounds (len=0x");
    append_hex(&mut s, len);
    s.append(")");
    proof {
        assert(s@ =~= io_oob_msg(off as nat, len as nat));
    }
    s
}

fn make_io_oob_short_msg(off: usize) -> (s: String)
    ensures
        s@ == io_oob_short_msg(off as nat),
{
    let mut s = String::new();
    s.append("IO offset 0x");
    append_hex(&mut s, off);
    s.append(" OOB");
    proof {
        assert(s@ =~= io_oob_short_msg(off as nat));
    }
    s
}

/// The I/O ports: one hundred forty-four words, all zero at construction.
/// The device itself only stores; key and sound side effects live with the
/// owning execution engine.
pub struct Io {
    ports: Vec<Word>,
}

impl Io {
    /// The ports device always holds exactly `IO_WORDS` words.
    pub open spec fn wf(&self) -> bool {
        self.contents().len() == IO_WORDS
    }

    /// A fresh ports device, every port zero.
    pub fn new() -> (io: Io)
        ensures
            io.contents() == Seq::new(IO_WORDS as nat, |i: int| 0u32),
            io.wf(),
    {
        let mut ports: Vec<Word> = Vec::new();
        while ports.len() < IO_WORDS
            invariant
                ports@.len() <= IO_WORDS,
                ports@ =~= Seq::new(ports@.len(), |i: int| 0u32),
            decreases IO_WORDS - ports@.len(),
        {
            ports.push(0);
            proof {
                assert(ports@ =~= Seq::new(ports@.len(), |i: int| 0u32));
            }
        }
        proof {
            assert(ports@ =~= Seq::new(IO_WORDS as nat, |i: int| 0u32));
        }
        Io { ports }
    }

    /// Reads the port at `off` directly, `None` past the end.
    pub fn get_raw(&self, off: usize) -> (r: Option<Word>)
        ensures
            off < self.contents().len() ==> r == Some(self.contents()[off as int]),
            off >= self.contents().len() ==> r is None,
    {
        if off < self.ports.len() {
            Some(self.ports[off])
        } else {
            None
        }
    }

    /// Writes the port at `off` directly, rejecting an offset past the end
    /// without touching the device.
    pub fn set_raw(&mut self, off: usize, val: Word) -> (r: Result<(), CoreError>)
        ensures
            off < old(self).contents().len() ==> r is Ok && final(self).contents() == old(
                self,
            ).contents().update(off as int, val),
            off >= old(self).contents().len() ==> (r matches Err(CoreError::MemoryError(m)) && m@
                == io_oob_short_msg(off as nat)) && final(self).contents() == old(self).contents(),
    {
        if off >= self.ports.len() {
            return Err(CoreError::MemoryError(make_io_oob_short_msg(off)));
        }
        self.ports.set(off, val);
        Ok(())
    }

    /// The bus address of the port at device offset `offset`.
    pub fn port_addr(offset: usize) -> (a: u32)
        requires
            offset < IO_WORDS,
        ensures
            a == IO_START + offset,
    {
        IO_START + offset as u32
    }

    /// The device offset of the port at bus address `addr`.
    pub fn port_offset(addr: u32) -> (off: usize)
        requires
            addr >= IO_START,
        ensures
            off == addr - IO_START,
    {
        (addr - IO_START) as usize
    }
}

impl Default for Io {
    /// Same as `Io::new`: every port zero.
    fn default() -> (io: Io)
        ensures
            io.contents() == Seq::new(IO_WORDS as nat, |i: int| 0u32),
            io.wf(),
    {
        Io::new()
    }
}

impl AddrPort for Io {
    closed spec fn contents(&self) -> Seq<Word> {
        self.ports@
    }

    fn read(&self, off: usize) -> (r: Result<Word, CoreError>)
        ensures
            off >= self.contents().len() ==> (r matches Err(CoreError::MemoryError(m)) && m@
                == io_oob_msg(off as nat, self.contents().len())),
    {
        if off < self.ports.len() {
            Ok(self.ports[off])
        } else {
            Err(CoreError::MemoryError(make_io_oob_msg(off, self.ports.len())))
        }
    }

    fn write(&mut self, off: usize, val: Word) -> (r: Result<(), CoreError>)
        ensures
            off >= old(self).contents().len() ==> (r matches Err(CoreError::MemoryError(m)) && m@
                == io_oob_msg(off as nat, old(self).contents().len())),
    {
        if off >= self.ports.len() {
            return Err(CoreError::MemoryError(make_io_oob_msg(off, self.ports.len())));
        }
        self.ports.set(off, val);
        Ok(())
    }

    fn len(&self) -> (n: usize) {
        self.ports.len()
    }
}

} // verus!
