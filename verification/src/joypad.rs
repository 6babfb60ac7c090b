//! The joypad register: a readable/writable byte reflecting button state.
//! Button lines are active-low, so cleared low-nibble bits read as 1.

use vstd::prelude::*;

verus! {

/// What a read of the joypad register returns for a stored byte: the low
/// nibble is forced to read as all-ones (inactive lines).
pub open spec fn spec_joypad_get(data: u8) -> u8 {
    data | 0x0F
}

/// What a write of `data` leaves stored: only the top nibble (the selection
/// lines) is retained, the low nibble is ignored.
pub open spec fn spec_joypad_set(data: u8) -> u8 {
    data & 0xF0
}

/// The raw button-line byte behind the joypad's mapped register.
pub struct Joypad {
    data: u8,
}

impl View for Joypad {
    type V = u8;

    closed spec fn view(&self) -> u8 {
        self.data
    }
}

impl Joypad {
    pub fn new() -> (r: Joypad)
        ensures
            r@ == 0x0F,
    {
        Joypad { data: 0x0F }
    }

    pub fn get(&self) -> (r: u8)
        ensures
            r == spec_joypad_get(self@),
    {
        self.data | 0x0F
    }

    pub fn set(&mut self, data: u8)
        ensures
            final(self)@ == spec_joypad_set(data),
    {
        self.data = data & 0xF0;
    }
}

} // verus!
