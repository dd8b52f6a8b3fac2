//! Bookkeeping of physical memory.

use vstd::prelude::*;

verus! {

/// Physical memory assumed present until the boot loader reports otherwise (4 GiB).
pub const DEFAULT_TOTAL_MEMORY: u64 = 0x1_0000_0000;

/// How much physical memory there is and how much of it is handed out.
pub struct MemoryManager {
    pub total_memory: u64,
    pub allocated: u64,
}

impl MemoryManager {
    pub fn new() -> (r: Self)
        ensures
            r.total_memory == DEFAULT_TOTAL_MEMORY,
            r.allocated == 0,
    {
        MemoryManager { total_memory: DEFAULT_TOTAL_MEMORY, allocated: 0 }
    }
}

} // verus!
