//! Breakpoint bookkeeping for a process-control tool that patches trap
//! instructions into a running program's memory word by word.

use vstd::prelude::*;

verus! {

/// How many bytes one machine word of the patched program holds.
pub const WORD_BYTES: usize = 8;

/// A breakpoint: the patched address and the byte the trap replaced, kept
/// so the instruction can be restored.
#[derive(Clone, Copy)]
pub struct Breakpoint {
    /// The address whose byte was replaced by the trap instruction.
    pub addr: usize,
    /// The original byte at that address.
    pub orig_byte: u8,
}

/// Rounds an address down to the start of its machine word: the greatest
/// word-aligned address not above `addr`.
pub fn align_addr_to_word(addr: usize) -> (r: usize)
    ensures
        r == addr - (addr % WORD_BYTES),
        r % WORD_BYTES == 0,
        r <= addr,
        addr - r < WORD_BYTES,
{
    addr - (addr % WORD_BYTES)
}

} // verus!
