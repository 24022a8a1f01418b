//! The sound registers. Sound itself is not produced: the channels keep
//! their register state and length counters only.
use vstd::prelude::*;
use crate::cpu::CycleType;

pub mod channel1;
pub mod channel2;
pub mod channel3;
pub mod channel4;
pub mod envelope;
pub mod sweep;
pub mod wave;

verus! {

/// A master volume level, 0 to 7.
#[derive(Clone, Copy, Debug, PartialEq, Eq, Structural)]
pub enum Volume {
    Vol0,
    Vol1,
    Vol2,
    Vol3,
    Vol4,
    Vol5,
    Vol6,
    Vol7,
}

/// The level of a volume.
pub open spec fn volume_level(v: Volume) -> u8 {
    match v {
        Volume::Vol0 => 0,
        Volume::Vol1 => 1,
        Volume::Vol2 => 2,
        Volume::Vol3 => 3,
        Volume::Vol4 => 4,
        Volume::Vol5 => 5,
        Volume::Vol6 => 6,
        Volume::Vol7 => 7,
    }
}

impl Volume {
    /// The volume of level `byte`, if it is one.
    pub fn from_u8(byte: u8) -> (r: Option<Volume>)
        ensures
            byte < 8 ==> r.is_some() && volume_level(r.unwrap()) == byte,
            byte >= 8 ==> r.is_none(),
    {
        match byte {
            0x00 => Some(Volume::Vol0),
            0x01 => Some(Volume::Vol1),
            0x02 => Some(Volume::Vol2),
            0x03 => Some(Volume::Vol3),
            0x04 => Some(Volume::Vol4),
            0x05 => Some(Volume::Vol5),
            0x06 => Some(Volume::Vol6),
            0x07 => Some(Volume::Vol7),
            _ => None,
        }
    }
}

/// The kind of sound channel.
#[derive(Clone, Copy, Debug, PartialEq, Eq, Structural)]
pub enum ApuChannel {
    SweepAndEnvelope,
    Envelop,
    Wave,
    Noise,
    Mixed,
}

/// The sound unit.
pub struct Apu {
    pub enabled: bool,
    pub channel: ApuChannel,
    pub cycles: CycleType,
}

impl Apu {
    pub fn new(channel: ApuChannel) -> (r: Apu)
        ensures
            r.enabled && r.channel == channel && r.cycles == 4096,
    {
        Apu { enabled: true, channel, cycles: 4096 }
    }
}

} // verus!
