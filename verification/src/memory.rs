//! The main-memory device: a bounds-checked, capacity-configured bank of
//! words, with big-endian image encode/decode of its full contents.

use vstd::prelude::*;
use vstd::string::*;
use crate::device::AddrPort;
use crate::error::CoreError;
use crate::hex::{append_hex, append_hex_pad8, hex_digits, hex_pad8};
use crate::image::{
    be_word_at, bytes_to_words, lemma_bytes_to_words_index, lemma_bytes_to_words_len,
    lemma_words_to_bytes_push, push_be_word, word_from_be_bytes, words_to_bytes,
};
use crate::types::Word;

verus! {

/// The message of a main-memory bounds violation: the offending address,
/// zero-padded to eight hex digits, and the bank's capacity.
pub open spec fn mem_oob_msg(addr: nat, len: nat) -> Seq<char> {
    "Address 0x"@ + hex_pad8(addr) + " out of bounds (len=0x"@ + hex_digits(len) + ")"@
}

fn make_mem_oob_msg(addr: usize, len: usize) -> (s: String)
    ensures
        s@ == mem_oob_msg(addr as nat, len as nat),
{
    let mut s = String::new();
    s.append("Address 0x");
    append_hex_pad8(&mut s, addr);
    s.append(" out of bounds (len=0x");
    append_hex(&mut s, len);
    s.append(")");
    proof {
        assert(s@ =~= mem_oob_msg(addr as nat, len as nat));
    }
    s
}

/// A bank of words, all zero at construction, indexed by word offset.
pub struct Memory {
    values: Vec<Word>,
}

impl Memory {
    /// A fresh bank of `nsize` words, all zero.
    pub fn new(nsize: usize) -> (m: Memory)
        ensures
            m.contents() == Seq::new(nsize as nat, |i: int| 0u32),
    {
        let mut values: Vec<Word> = Vec::new();
        while values.len() < nsize
            invariant
                values@.len() <= nsize,
                values@ =~= Seq::new(values@.len(), |i: int| 0u32),
            decreases nsize - values@.len(),
        {
            values.push(0);
            proof {
                assert(values@ =~= Seq::new(values@.len(), |i: int| 0u32));
            }
        }
        proof {
            assert(values@ =~= Seq::new(nsize as nat, |i: int| 0u32));
        }
        Memory { values }
    }

    /// Checks a word offset against the bank's capacity; the error quotes
    /// the offset and the capacity.
    pub fn check_bounds(&self, addr: usize) -> (r: Result<(), CoreError>)
        ensures
            r is Ok <==> addr < self.contents().len(),
            addr >= self.contents().len() ==> (r matches Err(CoreError::MemoryError(m)) && m@
                == mem_oob_msg(addr as nat, self.contents().len())),
    {
        if addr >= self.values.len() {
            Err(CoreError::MemoryError(make_mem_oob_msg(addr, self.values.len())))
        } else {
            Ok(())
        }
    }

    /// Stores `value` at word offset `addr`, rejecting an offset at or past
    /// the capacity without touching the bank.
    pub fn load(&mut self, addr: usize, value: Word) -> (r: Result<(), CoreError>)
        ensures
            addr < old(self).contents().len() ==> r is Ok && final(self).contents() == old(
                self,
            ).contents().update(addr as int, value),
            addr >= old(self).contents().len() ==> (r matches Err(CoreError::MemoryError(m)) && m@
                == mem_oob_msg(addr as nat, old(self).contents().len())) && final(self).contents()
                == old(self).contents(),
    {
        match self.check_bounds(addr) {
            Err(e) => Err(e),
            Ok(()) => {
                self.values.set(addr, value);
                Ok(())
            },
        }
    }

    /// Reads the word at offset `addr`, rejecting an offset at or past the
    /// capacity.
    pub fn read(&self, addr: usize) -> (r: Result<Word, CoreError>)
        ensures
            addr < self.contents().len() ==> r == Ok::<Word, CoreError>(
                self.contents()[addr as int],
            ),
            addr >= self.contents().len() ==> (r matches Err(CoreError::MemoryError(m)) && m@
                == mem_oob_msg(addr as nat, self.contents().len())),
    {
        match self.check_bounds(addr) {
            Err(e) => Err(e),
            Ok(()) => Ok(self.values[addr]),
        }
    }

    /// Stores without reporting: an in-bounds offset is written, an
    /// out-of-bounds one is silently ignored.
    pub fn load_unsafe(&mut self, addr: usize, value: Word)
        ensures
            addr < old(self).contents().len() ==> final(self).contents() == old(
                self,
            ).contents().update(addr as int, value),
            addr >= old(self).contents().len() ==> final(self).contents() == old(self).contents(),
    {
        if addr < self.values.len() {
            self.values.set(addr, value);
        }
    }

    /// Reads without reporting: an out-of-bounds offset yields zero instead
    /// of an error.
    pub fn read_unsafe(&self, addr: usize) -> (w: Word)
        ensures
            addr < self.contents().len() ==> w == self.contents()[addr as int],
            addr >= self.contents().len() ==> w == 0,
    {
        if addr < self.values.len() {
            self.values[addr]
        } else {
            0
        }
    }

    /// The big-endian byte image of the whole bank, four bytes per word in
    /// ascending offset order.
    pub fn to_u8_vec(&self) -> (img: Vec<u8>)
        ensures
            img@ == words_to_bytes(self.contents()),
    {
        let mut img: Vec<u8> = Vec::new();
        let mut i: usize = 0;
        while i < self.values.len()
            invariant
                i <= self.values@.len(),
                img@ == words_to_bytes(self.values@.take(i as int)),
            decreases self.values@.len() - i,
        {
            push_be_word(&mut img, self.values[i]);
            proof {
                lemma_words_to_bytes_push(self.values@.take(i as int), self.values@[i as int]);
                assert(self.values@.take(i as int).push(self.values@[i as int]) =~= self.values@.take(
                    i as int + 1,
                ));
            }
            i = i + 1;
        }
        proof {
            assert(self.values@.take(self.values@.len() as int) =~= self.values@);
        }
        img
    }

    /// Replaces the bank's contents with the words of a byte image.  The
    /// image must be exactly four bytes per cell of the bank; a mismatch is
    /// rejected without touching the bank.
    pub fn load_from_bytes(&mut self, img: &Vec<u8>) -> (r: Result<(), CoreError>)
        ensures
            r is Ok <==> img@.len() == 4 * old(self).contents().len(),
            r is Ok ==> final(self).contents() == bytes_to_words(img@),
            r is Err ==> final(self).contents() == old(self).contents() && (r matches Err(
                CoreError::IOError(m),
            ) && m@ == "Image size mismatch"@),
    {
        let n = self.values.len();
        let total = img.len();
        proof {
            vstd::arithmetic::div_mod::lemma_fundamental_div_mod(total as int, 4);
        }
        if total % 4 != 0 || total / 4 != n {
            return Err(CoreError::IOError("Image size mismatch".to_owned()));
        }
        let mut i: usize = 0;
        while i < n
            invariant
                i <= n,
                self.values@.len() == n,
                total == img@.len(),
                img@.len() == 4 * n,
                forall|j: int|
                    0 <= j < i ==> self.values@[j] == word_from_be_bytes(
                        img@[4 * j],
                        img@[4 * j + 1],
                        img@[4 * j + 2],
                        img@[4 * j + 3],
                    ),
            decreases n - i,
        {
            let w = be_word_at(img, 4 * i);
            self.values.set(i, w);
            i = i + 1;
        }
        proof {
            lemma_bytes_to_words_len(img@);
            assert forall|j: int| 0 <= j < n implies self.values@[j] == bytes_to_words(img@)[j] by {
                lemma_bytes_to_words_index(img@, j);
            }
            assert(self.values@ =~= bytes_to_words(img@));
        }
        Ok(())
    }

    /// Read-only access to the underlying words.
    pub fn data(&self) -> (r: &Vec<Word>)
        ensures
            r@ == self.contents(),
    {
        &self.values
    }

    /// Mutable access to the underlying words.
    pub fn data_mut(&mut self) -> (r: &mut Vec<Word>)
        ensures
            r@ == old(self).contents(),
            final(self).contents() == final(r)@,
    {
        &mut self.values
    }
}

impl AddrPort for Memory {
    closed spec fn contents(&self) -> Seq<Word> {
        self.values@
    }

    fn read(&self, off: usize) -> (r: Result<Word, CoreError>)
        ensures
            off >= self.contents().len() ==> (r matches Err(CoreError::MemoryError(m)) && m@
                == mem_oob_msg(off as nat, self.contents().len())),
    {
        Memory::read(self, off)
    }

    fn write(&mut self, off: usize, val: Word) -> (r: Result<(), CoreError>)
        ensures
            off >= old(self).contents().len() ==> (r matches Err(CoreError::MemoryError(m)) && m@
                == mem_oob_msg(off as nat, old(self).contents().len())),
    {
        self.load(off, val)
    }

    fn len(&self) -> (n: usize) {
        self.values.len()
    }
}

} // verus!
