use vstd::prelude::*;

verus! {

/// The output level of the wave channel.
#[derive(Clone, Copy, Debug, PartialEq, Eq, Structural)]
pub enum Volume {
    Mute,
    Full,
    Half,
    Quarter,
}

/// The two register bits of an output level.
pub open spec fn level_bits(v: Volume) -> u8 {
    match v {
        Volume::Mute => 0,
        Volume::Full => 1,
        Volume::Half => 2,
        Volume::Quarter => 3,
    }
}

impl Volume {
    pub fn from_u8(byte: u8) -> (r: Option<Volume>)
        ensures
            byte < 4 ==> r.is_some() && level_bits(r.unwrap()) == byte,
            byte >= 4 ==> r.is_none(),
    {
        match byte {
            0 => Some(Volume::Mute),
            1 => Some(Volume::Full),
            2 => Some(Volume::Half),
            3 => Some(Volume::Quarter),
            _ => None,
        }
    }

    fn bits(&self) -> (r: u8)
        ensures
            r == level_bits(*self),
    {
        match *self {
            Volume::Mute => 0,
            Volume::Full => 1,
            Volume::Half => 2,
            Volume::Quarter => 3,
        }
    }
}

/// The wave channel: 32 four-bit samples in 16 bytes of wave RAM.
pub struct Channel3 {
    pub wave_ram: [u8; 16],
    pub enabled: bool,
    pub volume: Volume,
    pub freq_bits: u16,
    pub use_counter: bool,
    pub counter: usize,
    pub status: bool,
}

impl Channel3 {
    pub fn new() -> (r: Channel3)
        ensures
            r.wave_ram@ == Seq::new(16, |i: int| 0u8),
            !r.enabled && r.volume == Volume::Mute && r.freq_bits == 0,
            !r.use_counter && r.counter == 0 && !r.status,
    {
        let r = Channel3 {
            wave_ram: [0u8; 16],
            enabled: false,
            volume: Volume::Mute,
            freq_bits: 0,
            use_counter: false,
            counter: 0,
            status: false,
        };
        assert(r.wave_ram@ =~= Seq::new(16, |i: int| 0u8));
        r
    }

    /// Stop the channel; wave RAM and frequency are kept.
    pub fn reset(&mut self)
        ensures
            *final(self) == (Channel3 {
                enabled: false,
                volume: Volume::Mute,
                use_counter: false,
                counter: 0,
                status: false,
                ..*old(self)
            }),
    {
        self.enabled = false;
        self.volume = Volume::Mute;
        self.use_counter = false;
        self.counter = 0;
        self.status = false;
    }

    /// One length step.
    pub fn tick(&mut self)
        ensures
            old(self).use_counter && old(self).counter > 0 ==> *final(self) == (Channel3 {
                counter: (old(self).counter - 1) as usize,
                status: old(self).status && old(self).counter != 1,
                ..*old(self)
            }),
            !(old(self).use_counter && old(self).counter > 0) ==> *final(self) == *old(self),
    {
        if self.use_counter && self.counter > 0 {
            self.counter = self.counter - 1;
            if self.counter == 0 {
                self.status = false;
            }
        }
    }

    pub fn read_wave_ram(&self, relative_address: u16) -> (r: u8)
        requires
            relative_address < 16,
        ensures
            r == self.wave_ram@[relative_address as int],
    {
        self.wave_ram[relative_address as usize]
    }

    pub fn write_wave_ram(&mut self, relative_address: u16, value: u8)
        requires
            relative_address < 16,
        ensures
            final(self).wave_ram@ == old(self).wave_ram@.update(relative_address as int, value),
    {
        self.wave_ram[relative_address as usize] = value;
    }

    /// Enable (bit 7); the other bits read as one.
    pub fn read_register_0(&self) -> (r: u8)
        ensures
            r == if self.enabled { 0xFFu8 } else { 0x7Fu8 },
    {
        if self.enabled { 0xFF } else { 0x7F }
    }

    pub fn write_register_0(&mut self, value: u8)
        ensures
            *final(self) == (Channel3 { enabled: value >= 128, ..*old(self) }),
    {
        self.enabled = value >= 128;
    }

    /// Length.
    pub fn write_register_1(&mut self, value: u8)
        ensures
            *final(self) == (Channel3 { counter: (256 - value as nat) as usize, ..*old(self) }),
    {
        self.counter = 256 - value as usize;
    }

    /// Output level (bits 6-5); the other bits read as one.
    pub fn read_register_2(&self) -> (r: u8)
        ensures
            r as nat == 0x9F + level_bits(self.volume) as nat * 32,
    {
        0x9F + self.volume.bits() * 32
    }

    pub fn write_register_2(&mut self, value: u8)
        ensures
            level_bits(final(self).volume) == value / 32 % 4,
            final(self).enabled == old(self).enabled && final(self).counter == old(self).counter,
    {
        self.volume = match Volume::from_u8(value / 32 % 4) {
            Some(v) => v,
            None => Volume::Mute,
        };
    }

    /// The low eight frequency bits.
    pub fn write_register_3(&mut self, value: u8)
        ensures
            *final(self) == (Channel3 {
                freq_bits: (old(self).freq_bits as nat / 256 % 8 * 256 + value as nat) as u16,
                ..*old(self)
            }),
    {
        self.freq_bits = self.freq_bits / 256 % 8 * 256 + value as u16;
    }

    /// Counter use (bit 6); the other bits read as one.
    pub fn read_register_4(&self) -> (r: u8)
        ensures
            r == if self.use_counter { 0xFFu8 } else { 0xBFu8 },
    {
        if self.use_counter { 0xFF } else { 0xBF }
    }

    /// Trigger (bit 7), counter use (bit 6) and the high frequency bits.
    pub fn write_register_4(&mut self, value: u8)
        ensures
            final(self).status == (value >= 128),
            final(self).use_counter == (value / 64 % 2 == 1),
            final(self).freq_bits as nat == (value as nat % 8) * 256 + old(self).freq_bits as nat % 256,
            final(self).counter == if value >= 128 && old(self).counter == 0 { 256 } else { old(self).counter },
            final(self).enabled == old(self).enabled && final(self).volume == old(self).volume,
    {
        self.status = value >= 128;
        self.use_counter = value / 64 % 2 == 1;
        self.freq_bits = (value % 8) as u16 * 256 + self.freq_bits % 256;
        if self.status && self.counter == 0 {
            self.counter = 256;
        }
    }
}

} // verus!
