//! Byte-addressed memory.
use crate::bus::{le_byte, le_stored, le_value, valid_width, BusError, Device, DeviceState};
use vstd::prelude::*;

verus! {

pub struct Dram {
    mem: Vec<u8>,
}

impl View for Dram {
    type V = Seq<u8>;

    closed spec fn view(&self) -> Seq<u8> {
        self.mem@
    }
}

impl Dram {
    /// `size` bytes of zeroed memory; a memory of no bytes is a configuration error.
    pub fn new(size: u32) -> (r: Dram)
        requires
            size > 0,
        ensures
            r@ == Seq::new(size as nat, |i: int| 0u8),
            r.state().wf(),
    {
        let mut mem: Vec<u8> = Vec::new();
        let mut i: u32 = 0;
        while i < size
            invariant
                i <= size,
                mem@ == Seq::new(i as nat, |j: int| 0u8),
            decreases size - i,
        {
            mem.push(0);
            i = i + 1;
        }
        Dram { mem }
    }

    /// Copies `data` into memory from `offset` on; fails, changing nothing, where it would
    /// run past the end.
    pub fn flash(&mut self, data: &[u8], offset: usize) -> (r: Result<(), ()>)
        ensures
            offset + data@.len() <= old(self)@.len() ==> r is Ok && final(self)@ == old(
                self,
            )@.subrange(0, offset as int) + data@ + old(self)@.subrange(
                offset + data@.len(),
                old(self)@.len() as int,
            ),
            offset + data@.len() > old(self)@.len() ==> r is Err && final(self)@ == old(self)@,
    {
        if offset > self.mem.len() || data.len() > self.mem.len() - offset {
            return Err(());
        }
        let ghost before = self.mem@;
        let mut i: usize = 0;
        while i < data.len()
            invariant
                offset + data@.len() <= before.len(),
                i <= data@.len(),
                self.mem@.len() == before.len(),
                forall|j: int| 0 <= j < offset ==> self.mem@[j] == before[j],
                forall|j: int| 0 <= j < i ==> self.mem@[offset + j] == data@[j],
                forall|j: int| offset + i <= j < before.len() ==> self.mem@[j] == before[j],
            decreases data@.len() - i,
        {
            assert(offset + i < self.mem.len());
            self.mem.set(offset + i, data[i]);
            i = i + 1;
        }
        assert(self.mem@ =~= before.subrange(0, offset as int) + data@ + before.subrange(
            offset + data@.len(),
            before.len() as int,
        ));
        Ok(())
    }
}

impl Device for Dram {
    open spec fn state(&self) -> DeviceState {
        DeviceState::Ram(self@)
    }

    fn name(&self) -> &'static str {
        "DRAM"
    }

    fn size(&self) -> (r: u32) {
        self.mem.len() as u32
    }

    fn load(&mut self, offset: u32, size: u8) -> (r: Result<u32, BusError>) {
        let o = offset as usize;
        if o > self.mem.len() || (size as usize) > self.mem.len() - o {
            return Err(BusError::LoadAccessFault(offset));
        }
        if size == 1 {
            Ok(self.mem[o] as u32)
        } else if size == 2 {
            Ok(self.mem[o] as u32 | ((self.mem[o + 1] as u32) << 8))
        } else {
            Ok(self.mem[o] as u32 | ((self.mem[o + 1] as u32) << 8) | ((self.mem[o + 2] as u32)
                << 16) | ((self.mem[o + 3] as u32) << 24))
        }
    }

    fn store(&mut self, offset: u32, size: u8, val: u32) -> (r: Result<(), BusError>) {
        let o = offset as usize;
        if o > self.mem.len() || (size as usize) > self.mem.len() - o {
            return Err(BusError::StoreAccessFault(offset));
        }
        let ghost before = self.mem@;
        self.mem.set(o, le_byte(val, 0));
        if size >= 2 {
            self.mem.set(o + 1, le_byte(val, 1));
        }
        if size == 4 {
            self.mem.set(o + 2, le_byte(val, 2));
            self.mem.set(o + 3, le_byte(val, 3));
        }
        assert(self.mem@ =~= le_stored(before, o as int, size, val));
        Ok(())
    }
}

} // verus!
