use vstd::prelude::*;
use super::envelope::Envelope;
use super::sweep::Sweep;
use super::wave::WaveDuty;

verus! {

/// The first square channel, with sweep.
pub struct Channel1 {
    pub sweep: Sweep,
    pub wave_duty: WaveDuty,
    pub envelope: Envelope,
    pub freq_bits: u16,
    pub use_counter: bool,
    pub counter: usize,
    pub status: bool,
}

} // verus!
