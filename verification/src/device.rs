//! The uniform capability implemented by every memory-mapped component.

use vstd::prelude::*;
use crate::error::CoreError;
use crate::types::Word;

verus! {

/// Bounded word storage: read or write one word at a device-local offset,
/// with the offset checked against the device's capacity.  A violation is a
/// `MemoryError`; no device ever panics or silently clamps, and a rejected
/// write leaves the device untouched.
pub trait AddrPort {
    /// The words the device holds, in offset order.
    spec fn contents(&self) -> Seq<Word>;

    /// Reads the word at offset `off`.
    fn read(&self, off: usize) -> (r: Result<Word, CoreError>)
        ensures
            off < self.contents().len() ==> r == Ok::<Word, CoreError>(
                self.contents()[off as int],
            ),
            off >= self.contents().len() ==> (r matches Err(e) && e is MemoryError),
    ;

    /// Writes `val` at offset `off`; either fully applied or fully rejected.
    fn write(&mut self, off: usize, val: Word) -> (r: Result<(), CoreError>)
        ensures
            off < old(self).contents().len() ==> r is Ok && final(self).contents() == old(
                self,
            ).contents().update(off as int, val),
            off >= old(self).contents().len() ==> (r matches Err(e) && e is MemoryError)
                && final(self).contents() == old(self).contents(),
    ;

    /// The device capacity, in words.
    fn len(&self) -> (n: usize)
        ensures
            n == self.contents().len(),
    ;

    /// Whether the device holds no words at all.
    fn is_empty(&self) -> (b: bool)
        ensures
            b == (self.contents().len() == 0),
    {
        self.len() == 0
    }
}

} // verus!
