use vstd::prelude::*;

verus! {

/// The sweep period, in steps of 1/128 s (zero: no sweep).
#[derive(Clone, Copy, Debug, PartialEq, Eq, Structural)]
pub enum SweepTime {
    Off,
    Div1,
    Div2,
    Div3,
    Div4,
    Div5,
    Div6,
    Div7,
}

/// The three register bits of a sweep period.
pub open spec fn sweep_bits(t: SweepTime) -> u8 {
    match t {
        SweepTime::Off => 0,
        SweepTime::Div1 => 1,
        SweepTime::Div2 => 2,
        SweepTime::Div3 => 3,
        SweepTime::Div4 => 4,
        SweepTime::Div5 => 5,
        SweepTime::Div6 => 6,
        SweepTime::Div7 => 7,
    }
}

impl SweepTime {
    pub fn from_u8(byte: u8) -> (r: Option<SweepTime>)
        ensures
            byte < 8 ==> r.is_some() && sweep_bits(r.unwrap()) == byte,
            byte >= 8 ==> r.is_none(),
    {
        match byte {
            0 => Some(SweepTime::Off),
            1 => Some(SweepTime::Div1),
            2 => Some(SweepTime::Div2),
            3 => Some(SweepTime::Div3),
            4 => Some(SweepTime::Div4),
            5 => Some(SweepTime::Div5),
            6 => Some(SweepTime::Div6),
            7 => Some(SweepTime::Div7),
            _ => None,
        }
    }

    fn bits(&self) -> (r: u8)
        ensures
            r == sweep_bits(*self),
    {
        match *self {
            SweepTime::Off => 0,
            SweepTime::Div1 => 1,
            SweepTime::Div2 => 2,
            SweepTime::Div3 => 3,
            SweepTime::Div4 => 4,
            SweepTime::Div5 => 5,
            SweepTime::Div6 => 6,
            SweepTime::Div7 => 7,
        }
    }
}

/// The frequency sweep register: period (bits 6-4), direction (bit 3) and
/// shift (bits 2-0); bit 7 reads as one.
#[derive(Clone, Copy, Debug, PartialEq, Eq, Structural)]
pub struct Sweep {
    pub time: SweepTime,
    pub increasing: bool,
    pub shift: u8,
}

impl Sweep {
    pub fn new() -> (r: Sweep)
        ensures
            r.time == SweepTime::Off && !r.increasing && r.shift == 0,
    {
        Sweep { time: SweepTime::Off, increasing: false, shift: 0 }
    }

    /// The register byte.
    pub fn read(&self) -> (r: u8)
        requires
            self.shift < 8,
        ensures
            r as nat == 0x80 + sweep_bits(self.time) as nat * 16 + (if self.increasing { 8nat } else { 0nat })
                + self.shift as nat,
    {
        0x80 + self.time.bits() * 16 + if self.increasing { 8 } else { 0 } + self.shift
    }

    /// Load the register byte.
    pub fn write(&mut self, byte: u8)
        ensures
            sweep_bits(final(self).time) == byte / 16 % 8,
            final(self).increasing == (byte / 8 % 2 == 1),
            final(self).shift == byte % 8,
    {
        let time = match SweepTime::from_u8(byte / 16 % 8) {
            Some(t) => t,
            None => SweepTime::Off,
        };
        self.time = time;
        self.increasing = byte / 8 % 2 == 1;
        self.shift = byte % 8;
    }
}

} // verus!
