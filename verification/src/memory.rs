//! Memory management.

use vstd::prelude::*;

verus! {

/// Zero a range of memory, word by word.
///
/// The range is the kernel's BSS section, handed over by the embedding
/// program as the buffer of words the linker-provided boundary symbols
/// span; on the machine itself each store is a volatile word write.
pub fn zero_volatile(words: &mut Vec<u64>)
    ensures
        final(words)@.len() == old(words)@.len(),
        forall|i: int| 0 <= i < final(words)@.len() ==> final(words)@[i] == 0,
{
    let mut i: usize = 0;
    while i < words.len()
        invariant
            i <= words@.len(),
            words@.len() == old(words)@.len(),
            forall|j: int| 0 <= j < i ==> words@[j] == 0,
        decreases words@.len() - i,
    {
        words[i] = 0;
        i = i + 1;
    }
}

} // verus!
