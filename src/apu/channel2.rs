use vstd::prelude::*;
use super::envelope::Envelope;
use super::wave::{duty_bits, WaveDuty};

verus! {

/// The second square channel.
pub struct Channel2 {
    pub wave_duty: WaveDuty,
    pub envelope: Envelope,
    pub freq_bits: u16,
    pub use_counter: bool,
    pub counter: usize,
    pub status: bool,
}

impl Channel2 {
    pub open spec fn is_default(&self) -> bool {
        &&& self.wave_duty == WaveDuty::HalfQuarter
        &&& self.envelope == (Envelope { volume: 0, increasing: false, length: 0 })
        &&& self.freq_bits == 0 && !self.use_counter && self.counter == 0 && !self.status
    }

    pub fn new() -> (r: Channel2)
        ensures
            r.is_default(),
    {
        Channel2 {
            wave_duty: WaveDuty::HalfQuarter,
            envelope: Envelope::new(),
            freq_bits: 0,
            use_counter: false,
            counter: 0,
            status: false,
        }
    }

    pub fn reset(&mut self)
        ensures
            final(self).is_default(),
    {
        *self = Channel2::new();
    }

    /// One length step: the counter, when in use, runs down and stops the
    /// channel at zero.
    pub fn tick(&mut self)
        ensures
            old(self).use_counter && old(self).counter > 0 ==> *final(self) == (Channel2 {
                counter: (old(self).counter - 1) as usize,
                status: old(self).status && old(self).counter != 1,
                ..*old(self)
            }),
            !(old(self).use_counter && old(self).counter > 0) ==> *final(self) == *old(self),
    {
        if self.use_counter && self.counter > 0 {
            self.counter = self.counter - 1;
            if self.counter == 0 {
                self.status = false;
            }
        }
    }

    /// Duty (bits 7-6); the other bits read as one.
    pub fn read_register_1(&self) -> (r: u8)
        ensures
            r as nat == 0x3F + duty_bits(self.wave_duty) as nat * 64,
    {
        0x3F + self.wave_duty.bits() * 64
    }

    /// Duty (bits 7-6) and length (bits 5-0).
    pub fn write_register_1(&mut self, value: u8)
        ensures
            duty_bits(final(self).wave_duty) == value / 64,
            final(self).counter == 64 - value % 64,
            final(self).freq_bits == old(self).freq_bits && final(self).status == old(self).status,
            final(self).use_counter == old(self).use_counter,
    {
        self.wave_duty = match WaveDuty::from_u8(value / 64) {
            Some(d) => d,
            None => WaveDuty::HalfQuarter,
        };
        self.counter = 64 - (value % 64) as usize;
    }

    /// The low eight frequency bits.
    pub fn write_register_3(&mut self, value: u8)
        ensures
            *final(self) == (Channel2 {
                freq_bits: (old(self).freq_bits as nat / 256 % 8 * 256 + value as nat) as u16,
                ..*old(self)
            }),
    {
        self.freq_bits = self.freq_bits / 256 % 8 * 256 + value as u16;
    }

    /// Counter use (bit 6); the other bits read as one.
    pub fn read_register_4(&self) -> (r: u8)
        ensures
            r == if self.use_counter { 0xFFu8 } else { 0xBFu8 },
    {
        if self.use_counter { 0xFF } else { 0xBF }
    }

    /// Trigger (bit 7), counter use (bit 6) and the high frequency bits.
    pub fn write_register_4(&mut self, byte: u8)
        ensures
            final(self).status == (byte >= 128),
            final(self).use_counter == (byte / 64 % 2 == 1),
            final(self).freq_bits as nat == (byte as nat % 8) * 256 + old(self).freq_bits as nat % 256,
            final(self).counter == if byte >= 128 && old(self).counter == 0 { 64 } else { old(self).counter },
            final(self).wave_duty == old(self).wave_duty && final(self).envelope == old(self).envelope,
    {
        self.status = byte >= 128;
        self.use_counter = byte / 64 % 2 == 1;
        self.freq_bits = (byte % 8) as u16 * 256 + self.freq_bits % 256;
        if self.status && self.counter == 0 {
            self.counter = 64;
        }
    }
}

} // verus!
