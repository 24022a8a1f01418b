use vstd::prelude::*;

verus! {

/// The duty cycle of a square wave.
#[derive(Clone, Copy, Debug, PartialEq, Eq, Structural)]
pub enum WaveDuty {
    HalfQuarter,
    Quarter,
    Half,
    ThreeQuarters,
}

/// The two register bits of a duty cycle.
pub open spec fn duty_bits(d: WaveDuty) -> u8 {
    match d {
        WaveDuty::HalfQuarter => 0,
        WaveDuty::Quarter => 1,
        WaveDuty::Half => 2,
        WaveDuty::ThreeQuarters => 3,
    }
}

impl WaveDuty {
    /// The duty cycle of the two bits `byte`, if it is one.
    pub fn from_u8(byte: u8) -> (r: Option<WaveDuty>)
        ensures
            byte < 4 ==> r.is_some() && duty_bits(r.unwrap()) == byte,
            byte >= 4 ==> r.is_none(),
    {
        match byte {
            0 => Some(WaveDuty::HalfQuarter),
            1 => Some(WaveDuty::Quarter),
            2 => Some(WaveDuty::Half),
            3 => Some(WaveDuty::ThreeQuarters),
            _ => None,
        }
    }

    pub fn bits(&self) -> (r: u8)
        ensures
            r == duty_bits(*self),
    {
        match *self {
            WaveDuty::HalfQuarter => 0,
            WaveDuty::Quarter => 1,
            WaveDuty::Half => 2,
            WaveDuty::ThreeQuarters => 3,
        }
    }
}

} // verus!
