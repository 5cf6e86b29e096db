//! A console whose stores emit bytes.
use crate::bus::{le_byte, valid_width, BusError, Device, DeviceState, CONSOLE_SIZE};
use vstd::prelude::*;

verus! {

/// A console: loads read zero; each store emits the low byte of the stored value. Emitted
/// bytes wait in the console until the host takes them.
pub struct Uart {
    output: Vec<u8>,
}

impl View for Uart {
    type V = Seq<u8>;

    closed spec fn view(&self) -> Seq<u8> {
        self.output@
    }
}

impl Uart {
    pub fn new() -> (r: Uart)
        ensures
            r@ == Seq::<u8>::empty(),
    {
        Uart { output: Vec::new() }
    }

    /// Hands over the bytes emitted so far, oldest first, and forgets them.
    pub fn take_output(&mut self) -> (r: Vec<u8>)
        ensures
            r@ == old(self)@,
            final(self)@ == Seq::<u8>::empty(),
    {
        let mut out: Vec<u8> = Vec::new();
        std::mem::swap(&mut out, &mut self.output);
        out
    }
}

impl Device for Uart {
    open spec fn state(&self) -> DeviceState {
        DeviceState::Console(self@)
    }

    fn name(&self) -> &'static str {
        "UART"
    }

    fn size(&self) -> (r: u32) {
        CONSOLE_SIZE
    }

    fn load(&mut self, offset: u32, size: u8) -> (r: Result<u32, BusError>) {
        if offset > CONSOLE_SIZE || (size as u32) > CONSOLE_SIZE - offset {
            return Err(BusError::LoadAccessFault(offset));
        }
        Ok(0)
    }

    fn store(&mut self, offset: u32, size: u8, val: u32) -> (r: Result<(), BusError>) {
        if offset > CONSOLE_SIZE || (size as u32) > CONSOLE_SIZE - offset {
            return Err(BusError::StoreAccessFault(offset));
        }
        self.output.push(le_byte(val, 0));
        Ok(())
    }
}

} // verus!
