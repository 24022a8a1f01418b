use vstd::prelude::*;

verus! {

/// A volume envelope register: initial volume (bits 7-4), direction (bit 3)
/// and step length (bits 2-0).
#[derive(Clone, Copy, Debug, PartialEq, Eq, Structural)]
pub struct Envelope {
    pub volume: u8,
    pub increasing: bool,
    pub length: u8,
}

impl Envelope {
    pub fn new() -> (r: Envelope)
        ensures
            r.volume == 0 && !r.increasing && r.length == 0,
    {
        Envelope { volume: 0, increasing: false, length: 0 }
    }

    /// The register byte.
    pub fn read(&self) -> (r: u8)
        requires
            self.volume < 16 && self.length < 8,
        ensures
            r as nat == self.volume as nat * 16 + (if self.increasing { 8nat } else { 0nat }) + self.length as nat,
    {
        self.volume * 16 + if self.increasing { 8 } else { 0 } + self.length
    }

    /// Load the register byte.
    pub fn write(&mut self, byte: u8)
        ensures
            final(self).volume == byte / 16,
            final(self).increasing == (byte / 8 % 2 == 1),
            final(self).length == byte % 8,
    {
        self.volume = byte / 16;
        self.increasing = byte / 8 % 2 == 1;
        self.length = byte % 8;
    }
}

} // verus!
