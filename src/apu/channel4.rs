use vstd::prelude::*;
use super::envelope::Envelope;

verus! {

/// The noise channel.
pub struct Channel4 {
    pub envelope: Envelope,
    pub noise_opt: u8,
    pub use_counter: bool,
    pub counter: usize,
    pub status: bool,
}

impl Channel4 {
    pub open spec fn is_default(&self) -> bool {
        &&& self.envelope == (Envelope { volume: 0, increasing: false, length: 0 })
        &&& self.noise_opt == 0 && !self.use_counter && self.counter == 0 && !self.status
    }

    pub fn new() -> (r: Channel4)
        ensures
            r.is_default(),
    {
        Channel4 { envelope: Envelope::new(), noise_opt: 0, use_counter: false, counter: 0, status: false }
    }

    pub fn reset(&mut self)
        ensures
            final(self).is_default(),
    {
        *self = Channel4::new();
    }

    /// One length step.
    pub fn tick(&mut self)
        ensures
            old(self).use_counter && old(self).counter > 0 ==> *final(self) == (Channel4 {
                counter: (old(self).counter - 1) as usize,
                status: old(self).status && old(self).counter != 1,
                ..*old(self)
            }),
            !(old(self).use_counter && old(self).counter > 0) ==> *final(self) == *old(self),
    {
        if self.use_counter && self.counter > 0 {
            self.counter = self.counter - 1;
            if self.counter == 0 {
                self.status = false;
            }
        }
    }

    /// Length (bits 5-0).
    pub fn write_reg1(&mut self, value: u8)
        ensures
            *final(self) == (Channel4 { counter: (64 - value as nat % 64) as usize, ..*old(self) }),
    {
        self.counter = 64 - (value % 64) as usize;
    }

    /// The polynomial counter register.
    pub fn read_reg3(&self) -> (r: u8)
        ensures
            r == self.noise_opt,
    {
        self.noise_opt
    }

    pub fn write_reg3(&mut self, value: u8)
        ensures
            *final(self) == (Channel4 { noise_opt: value, ..*old(self) }),
    {
        self.noise_opt = value;
    }

    /// Counter use (bit 6); the other bits read as one.
    pub fn read_reg4(&self) -> (r: u8)
        ensures
            r == if self.use_counter { 0xFFu8 } else { 0xBFu8 },
    {
        if self.use_counter { 0xFF } else { 0xBF }
    }

    /// Trigger (bit 7) and counter use (bit 6).
    pub fn write_reg4(&mut self, value: u8)
        ensures
            *final(self) == (Channel4 {
                status: value >= 128,
                use_counter: value / 64 % 2 == 1,
                counter: if value >= 128 && old(self).counter == 0 { 64 } else { old(self).counter },
                ..*old(self)
            }),
    {
        self.status = value >= 128;
        self.use_counter = value / 64 % 2 == 1;
        if self.status && self.counter == 0 {
            self.counter = 64;
        }
    }
}

} // verus!
