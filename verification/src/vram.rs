//! The video-memory device: a framebuffer of words whose capacity is fixed
//! at construction, typically the square of the display resolution.

use vstd::prelude::*;
use vstd::string::*;
use crate::device::AddrPort;
use crate::error::CoreError;
use crate::hex::{append_hex, hex_digits};
use crate::types::Word;

verus! {

/// The message of a video-memory bounds violation: the offending offset and
/// the framebuffer's capacity.
pub open spec fn vram_oob_msg(off: nat, len: nat) -> Seq<char> {
    "VRAM offset 0x"@ + hex_digits(off) + " out of bounds (len=0x"@ + hex_digits(len) + ")"@
}

fn make_vram_oob_msg(off: usize, len: usize) -> (s: String)
    ensures
        s@ == vram_oob_msg(off as nat, len as nat),
{
    let mut s = String::new();
    s.append("VRAM offset 0x");
    append_hex(&mut s, off);
    s.append(" out of bounds (len=0x");
    append_hex(&mut s, len);
    s.append(")");
    proof {
        assert(s@ =~= vram_oob_msg(off as nat, len as nat));
    }
    s
}

/// The framebuffer: `words` cells, all zero at construction.
pub struct Vram {
    data: Vec<Word>,
}

impl Vram {
    /// A fresh framebuffer of `words` words, all zero.
    pub fn new(words: usize) -> (v: Vram)
        ensures
            v.contents() == Seq::new(words as nat, |i: int| 0u32),
    {
        let mut data: Vec<Word> = Vec::new();
        while data.len() < words
            invariant
                data@.len() <= words,
                data@ =~= Seq::new(data@.len(), |i: int| 0u32),
            decreases words - data@.len(),
        {
            data.push(0);
            proof {
                assert(data@ =~= Seq::new(data@.len(), |i: int| 0u32));
            }
        }
        proof {
            assert(data@ =~= Seq::new(words as nat, |i: int| 0u32));
        }
        Vram { data }
    }

    /// Read-only access to the underlying words.
    pub fn data(&self) -> (r: &Vec<Word>)
        ensures
            r@ == self.contents(),
    {
        &self.data
    }

    /// Mutable access to the underlying words.
    pub fn data_mut(&mut self) -> (r: &mut Vec<Word>)
        ensures
            r@ == old(self).contents(),
            final(self).contents() == final(r)@,
    {
        &mut self.data
    }
}

impl AddrPort for Vram {
    closed spec fn contents(&self) -> Seq<Word> {
        self.data@
    }

    fn read(&self, off: usize) -> (r: Result<Word, CoreError>)
        ensures
            off >= self.contents().len() ==> (r matches Err(CoreError::MemoryError(m)) && m@
                == vram_oob_msg(off as nat, self.contents().len())),
    {
        if off < self.data.len() {
            Ok(self.data[off])
        } else {
            Err(CoreError::MemoryError(make_vram_oob_msg(off, self.data.len())))
        }
    }

    fn write(&mut self, off: usize, val: Word) -> (r: Result<(), CoreError>)
        ensures
            off >= old(self).contents().len() ==> (r matches Err(CoreError::MemoryError(m)) && m@
                == vram_oob_msg(off as nat, old(self).contents().len())),
    {
        if off >= self.data.len() {
            return Err(CoreError::MemoryError(make_vram_oob_msg(off, self.data.len())));
        }
        self.data.set(off, val);
        Ok(())
    }

    fn len(&self) -> (n: usize) {
        self.data.len()
    }
}

} // verus!
