use vstd::prelude::*;

verus! {

/// Size of the console's work RAM in bytes.
pub const MEMORY_LENGTH: usize = 2048;

/// The 2 KiB work RAM.
pub struct Memory {
    pub cells: Vec<u8>,
}

impl Default for Memory {
    /// Zero-filled RAM.
    fn default() -> (r: Memory)
        ensures
            r.wf(),
            forall|i: int| 0 <= i < MEMORY_LENGTH ==> r.cells@[i] == 0,
    {
        Memory::new()
    }
}

impl Memory {
    pub open spec fn wf(&self) -> bool {
        self.cells@.len() == MEMORY_LENGTH
    }

    /// Creates the RAM filled with zeros.
    pub fn new() -> (r: Memory)
        ensures
            r.wf(),
            forall|i: int| 0 <= i < MEMORY_LENGTH ==> r.cells@[i] == 0,
    {
        let cells = vec![0u8; MEMORY_LENGTH];
        Memory { cells }
    }

    /// Reads the byte at `addr`.
    pub fn load(&self, addr: u16) -> (r: u8)
        requires
            self.wf(),
            addr < MEMORY_LENGTH,
        ensures
            r == self.cells@[addr as int],
    {
        self.cells[addr as usize]
    }

    /// Writes `val` at `addr`.
    pub fn store(&mut self, addr: u16, val: u8)
        requires
            old(self).wf(),
            addr < MEMORY_LENGTH,
        ensures
            final(self).wf(),
            final(self).cells@ == old(self).cells@.update(addr as int, val),
    {
        self.cells.set(addr as usize, val);
    }
}

} // verus!
