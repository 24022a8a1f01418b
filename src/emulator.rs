//! The emulation driver: what to do on each message from the host, and how
//! far to run the machine between two displayed frames.
use vstd::prelude::*;
use crate::cpu::{stepped, Cpu, CycleType};
use crate::gpu::{Gpu, RGB};
use crate::joypad::{Joypad, JoypadKey};
use crate::mmu::MMU;

verus! {

/// Machine cycles per frame.
pub const FRAME_CYCLES: CycleType = 70224;

/// A message from the host to the emulation.
#[derive(Copy, Clone, Debug, PartialEq, Eq, Structural)]
pub enum BackendMessage {
    /// Run (true) or pause (false).
    UpdateRunStatus(bool),
    KeyDown(JoypadKey),
    KeyUp(JoypadKey),
    /// Run one instruction while paused.
    Step,
    /// Start the machine again from the cartridge.
    Reset,
    /// Stop; the emulation answers with `Finished`.
    Quit,
}

/// A message from the emulation to the host.
pub enum EmulationMessage {
    /// A completed frame to show.
    UpdateDisplay(Vec<RGB>),
    /// The emulation stopped.
    Finished,
}

/// What the host must do after a message was handled.
#[derive(Copy, Clone, Debug, PartialEq, Eq, Structural)]
pub enum LoopAction {
    /// Go on.
    Continue,
    /// Rebuild the machine from the cartridge.
    Reset,
    /// Send `Finished` and stop.
    Finish,
}

/// The state of the emulation driver.
pub struct EmulationLoop {
    /// Whether frames are being run.
    pub running: bool,
    /// Machine cycles run past the last frame boundary.
    pub ticks: CycleType,
}

impl EmulationLoop {
    pub fn new() -> (r: EmulationLoop)
        ensures
            r.running && r.ticks == 0,
    {
        EmulationLoop { running: true, ticks: 0 }
    }

    /// Handle one message from the host.
    pub fn on_message(&mut self, cpu: &mut Cpu<MMU>, message: BackendMessage) -> (r: LoopAction)
        ensures
            match message {
                BackendMessage::UpdateRunStatus(run) => {
                    &&& r == LoopAction::Continue
                    &&& final(self).running == run && final(self).ticks == old(self).ticks
                    &&& *final(cpu) == *old(cpu)
                },
                BackendMessage::KeyDown(key) => {
                    &&& r == LoopAction::Continue && *final(self) == *old(self)
                    &&& key.is_direction() ==> final(cpu).mem.joypad == (Joypad {
                        directions: old(cpu).mem.joypad.directions & !key.bit(),
                        ..old(cpu).mem.joypad
                    })
                    &&& !key.is_direction() ==> final(cpu).mem.joypad == (Joypad {
                        buttons: old(cpu).mem.joypad.buttons & !key.bit(),
                        ..old(cpu).mem.joypad
                    })
                    &&& final(cpu).mem.irq_handler.if_reg == old(cpu).mem.irq_handler.if_reg | 0x10
                    &&& final(cpu).regs == old(cpu).regs && final(cpu).cycles == old(cpu).cycles
                },
                BackendMessage::KeyUp(key) => {
                    &&& r == LoopAction::Continue && *final(self) == *old(self)
                    &&& key.is_direction() ==> final(cpu).mem.joypad == (Joypad {
                        directions: old(cpu).mem.joypad.directions | key.bit(),
                        ..old(cpu).mem.joypad
                    })
                    &&& !key.is_direction() ==> final(cpu).mem.joypad == (Joypad {
                        buttons: old(cpu).mem.joypad.buttons | key.bit(),
                        ..old(cpu).mem.joypad
                    })
                    &&& final(cpu).regs == old(cpu).regs && final(cpu).cycles == old(cpu).cycles
                },
                BackendMessage::Step => {
                    &&& r == LoopAction::Continue && *final(self) == *old(self)
                    &&& old(self).running ==> *final(cpu) == *old(cpu)
                    &&& !old(self).running ==> exists|k: CycleType| stepped(*old(cpu), *final(cpu), k)
                },
                BackendMessage::Reset => {
                    &&& r == LoopAction::Reset
                    &&& final(self).ticks == 0 && final(self).running == old(self).running
                    &&& *final(cpu) == *old(cpu)
                },
                BackendMessage::Quit => {
                    &&& r == LoopAction::Finish
                    &&& !final(self).running && final(self).ticks == old(self).ticks
                    &&& *final(cpu) == *old(cpu)
                },
            },
    {
        match message {
            BackendMessage::UpdateRunStatus(run) => {
                self.running = run;
                LoopAction::Continue
            },
            BackendMessage::KeyDown(key) => {
                cpu.mem.key_down(&key);
                LoopAction::Continue
            },
            BackendMessage::KeyUp(key) => {
                cpu.mem.key_up(&key);
                LoopAction::Continue
            },
            BackendMessage::Step => {
                if !self.running {
                    cpu.step();
                }
                LoopAction::Continue
            },
            BackendMessage::Reset => {
                self.ticks = 0;
                LoopAction::Reset
            },
            BackendMessage::Quit => {
                self.running = false;
                LoopAction::Finish
            },
        }
    }

    /// While running, execute instructions until a frame's worth of machine
    /// cycles has passed (or a bound on the number of steps is reached), keep
    /// the cycles past the frame boundary, and take the frame the bus
    /// completed, if any. Nothing runs while paused.
    pub fn run_frame(&mut self, cpu: &mut Cpu<MMU>) -> (r: Option<Vec<RGB>>)
        requires
            old(self).ticks < FRAME_CYCLES,
        ensures
            final(self).ticks < FRAME_CYCLES,
            final(self).running == old(self).running,
            !old(self).running ==> r.is_none() && *final(cpu) == *old(cpu) && *final(self) == *old(self),
            old(self).running ==> exists|states: Seq<Cpu<MMU>>, spent: Seq<CycleType>|
                #[trigger] steps_taken(*old(cpu), states, spent) && frame_ran(
                    old(self).ticks,
                    states,
                    spent,
                    final(self).ticks,
                ) && frame_taken(states.last(), *final(cpu), r),
    {
        if !self.running {
            return None;
        }
        let ghost mut states: Seq<Cpu<MMU>> = seq![*cpu];
        let ghost mut spent_seq: Seq<CycleType> = Seq::empty();
        let mut n: u64 = 0;
        while self.ticks < FRAME_CYCLES && n < 2 * FRAME_CYCLES
            invariant
                self.running == old(self).running,
                self.ticks < FRAME_CYCLES + 6,
                n <= 2 * FRAME_CYCLES,
                spent_seq.len() == n,
                steps_taken(*old(cpu), states, spent_seq),
                states.last() == *cpu,
                self.ticks as int == old(self).ticks as int + total(spent_seq),
            decreases 2 * FRAME_CYCLES - n,
        {
            let spent = cpu.step();
            proof {
                let old_spent = spent_seq;
                let old_states = states;
                spent_seq = spent_seq.push(spent);
                states = states.push(*cpu);
                assert(spent_seq.drop_last() =~= old_spent);
                assert forall|i: int| 0 <= i < spent_seq.len() implies #[trigger] stepped(
                    states[i],
                    states[i + 1],
                    spent_seq[i],
                ) by {
                    if i < old_spent.len() {
                        assert(stepped(old_states[i], old_states[i + 1], old_spent[i]));
                    }
                }
            }
            self.ticks = self.ticks + spent;
            n = n + 1;
        }
        if self.ticks >= FRAME_CYCLES {
            self.ticks = self.ticks - FRAME_CYCLES;
        }
        let r = cpu.mem.frame_buffer();
        assert(steps_taken(*old(cpu), states, spent_seq) && frame_ran(old(self).ticks, states, spent_seq, self.ticks)
            && frame_taken(states.last(), *cpu, r));
        r
    }
}

/// The sum of a sequence of cycle counts.
pub open spec fn total(s: Seq<CycleType>) -> int
    decreases s.len(),
{
    if s.len() == 0 {
        0
    } else {
        total(s.drop_last()) + s.last()
    }
}

/// `states` starts at `start` and each state follows the one before it by
/// one processor step, which took the matching count of `spent`.
pub open spec fn steps_taken(start: Cpu<MMU>, states: Seq<Cpu<MMU>>, spent: Seq<CycleType>) -> bool {
    &&& states.len() == spent.len() + 1
    &&& states[0] == start
    &&& forall|i: int| 0 <= i < spent.len() ==> #[trigger] stepped(states[i], states[i + 1], spent[i])
}

/// The steps ran a frame: they stopped once the cycles counted from `ticks`
/// reached a frame (or at the step bound), and `post_ticks` is the count
/// with the frame taken off.
pub open spec fn frame_ran(ticks: CycleType, states: Seq<Cpu<MMU>>, spent: Seq<CycleType>, post_ticks: CycleType) -> bool {
    let run = ticks as int + total(spent);
    &&& run >= FRAME_CYCLES || spent.len() == 2 * FRAME_CYCLES
    &&& post_ticks == if run >= FRAME_CYCLES { run - FRAME_CYCLES } else { run }
}

/// `post` is `last` after the completed frame was taken from the bus, and
/// `r` is that frame: present exactly when the picture unit had marked one.
pub open spec fn frame_taken(last: Cpu<MMU>, post: Cpu<MMU>, r: Option<Vec<RGB>>) -> bool {
    &&& post == (Cpu { mem: MMU { gpu: Gpu { dirty: false, ..last.mem.gpu }, ..last.mem }, ..last })
    &&& last.mem.gpu.dirty ==> r.is_some() && r.unwrap()@ == last.mem.gpu.frame_buffer@
    &&& !last.mem.gpu.dirty ==> r.is_none()
}

} // verus!
