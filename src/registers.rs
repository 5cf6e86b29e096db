//! The integer register file x0..x31, with x0 hardwired to zero.
use vstd::prelude::*;

verus! {

pub const NUM_REGS: usize = 32;

/// The registers after writing `val` into register `idx`: a write to x0 is dropped.
pub open spec fn write_reg(regs: Seq<u32>, idx: int, val: u32) -> Seq<u32> {
    if idx == 0 {
        regs
    } else {
        regs.update(idx, val)
    }
}

pub struct RegFile {
    regs: Vec<u32>,
}

impl View for RegFile {
    type V = Seq<u32>;

    closed spec fn view(&self) -> Seq<u32> {
        self.regs@
    }
}

impl RegFile {
    /// Thirty-two registers, of which x0 reads as zero.
    pub open spec fn wf(&self) -> bool {
        self@.len() == NUM_REGS && self@[0] == 0
    }

    pub fn new() -> (r: RegFile)
        ensures
            r.wf(),
            r@ == Seq::new(NUM_REGS as nat, |i: int| 0u32),
    {
        let mut regs: Vec<u32> = Vec::new();
        let mut i: usize = 0;
        while i < NUM_REGS
            invariant
                i <= NUM_REGS,
                regs@ == Seq::new(i as nat, |j: int| 0u32),
            decreases NUM_REGS - i,
        {
            regs.push(0);
            i = i + 1;
        }
        RegFile { regs }
    }

    pub fn read(&self, idx: u8) -> (r: u32)
        requires
            self.wf(),
            idx < NUM_REGS,
        ensures
            r == self@[idx as int],
            idx == 0 ==> r == 0,
    {
        self.regs[idx as usize]
    }

    pub fn write(&mut self, idx: u8, val: u32)
        requires
            old(self).wf(),
            idx < NUM_REGS,
        ensures
            final(self).wf(),
            final(self)@ == write_reg(old(self)@, idx as int, val),
    {
        if idx != 0 {
            self.regs.set(idx as usize, val);
        }
    }
}

impl Default for RegFile {
    fn default() -> (r: RegFile)
        ensures
            r.wf(),
            r@ == Seq::new(NUM_REGS as nat, |i: int| 0u32),
    {
        RegFile::new()
    }
}

} // verus!
