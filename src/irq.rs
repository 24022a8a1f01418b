use vstd::prelude::*;

verus! {

/// Address of the interrupt flag register (IF).
pub const INTERRUPT_FLAG_ADDRESS: u16 = 0xFF0F;

/// Address of the interrupt enable register (IE).
pub const INTERRUPT_ENABLE_ADDRESS: u16 = 0xFFFF;

/// The five interrupt lines, in priority order.
#[derive(Copy, Clone, Debug, PartialEq, Eq, Structural)]
pub enum Interrupt {
    V_Blank,
    LCD_Stat,
    Timer,
    Serial,
    Joypad,
}

/// The bit index of the lowest pending line of `pending` (among the five
/// lines), or 5 when none of them is set.
pub open spec fn lowest_line(pending: u8) -> nat {
    if pending & 0x01 != 0 {
        0
    } else if pending & 0x02 != 0 {
        1
    } else if pending & 0x04 != 0 {
        2
    } else if pending & 0x08 != 0 {
        3
    } else if pending & 0x10 != 0 {
        4
    } else {
        5
    }
}

/// The one-bit mask of line `i`.
pub open spec fn line_mask(i: nat) -> u8 {
    if i == 0 {
        0x01
    } else if i == 1 {
        0x02
    } else if i == 2 {
        0x04
    } else if i == 3 {
        0x08
    } else {
        0x10
    }
}

/// The address of the handler of line `i`.
pub open spec fn line_vector(i: nat) -> u16 {
    (0x40 + 8 * i) as u16
}

impl Interrupt {
    pub open spec fn spec_mask(&self) -> u8 {
        match *self {
            Interrupt::V_Blank => 0x01,
            Interrupt::LCD_Stat => 0x02,
            Interrupt::Timer => 0x04,
            Interrupt::Serial => 0x08,
            Interrupt::Joypad => 0x10,
        }
    }

    pub open spec fn spec_address(&self) -> u16 {
        match *self {
            Interrupt::V_Blank => 0x40,
            Interrupt::LCD_Stat => 0x48,
            Interrupt::Timer => 0x50,
            Interrupt::Serial => 0x58,
            Interrupt::Joypad => 0x60,
        }
    }

    /// The bit of this line in the IE and IF registers.
    pub fn mask(&self) -> (r: u8)
        ensures
            r == self.spec_mask(),
    {
        match *self {
            Interrupt::V_Blank => 0x01,
            Interrupt::LCD_Stat => 0x02,
            Interrupt::Timer => 0x04,
            Interrupt::Serial => 0x08,
            Interrupt::Joypad => 0x10,
        }
    }

    /// The line whose bit is exactly `byte`, if any.
    pub fn from_u8(byte: u8) -> (r: Option<Interrupt>)
        ensures
            match r {
                Some(i) => i.spec_mask() == byte,
                None => byte != 0x01 && byte != 0x02 && byte != 0x04 && byte != 0x08 && byte
                    != 0x10,
            },
    {
        match byte {
            0x01 => Some(Interrupt::V_Blank),
            0x02 => Some(Interrupt::LCD_Stat),
            0x04 => Some(Interrupt::Timer),
            0x08 => Some(Interrupt::Serial),
            0x10 => Some(Interrupt::Joypad),
            _ => None,
        }
    }

    /// The address the processor jumps to in order to handle the line.
    pub fn address(&self) -> (r: u16)
        ensures
            r == self.spec_address(),
    {
        match *self {
            Interrupt::V_Blank => 0x40,
            Interrupt::LCD_Stat => 0x48,
            Interrupt::Timer => 0x50,
            Interrupt::Serial => 0x58,
            Interrupt::Joypad => 0x60,
        }
    }
}

/// Something that peripherals can raise interrupt requests on.
pub trait IrqHandler: Sized {
    /// `post` is a state that a request of `interrupt` leaves.
    spec fn requested(&self, interrupt: Interrupt, post: Self) -> bool;

    fn request_interrupt(&mut self, interrupt: Interrupt)
        ensures
            old(self).requested(interrupt, *final(self)),
    ;
}

/// A handler that drops every request.
pub struct EmptyIrqHandler;

impl IrqHandler for EmptyIrqHandler {
    open spec fn requested(&self, interrupt: Interrupt, post: EmptyIrqHandler) -> bool {
        true
    }

    fn request_interrupt(&mut self, interrupt: Interrupt) {
    }
}

/// The interrupt enable and flag registers of the machine.
pub struct MachineIrqHandler {
    /// Interrupt enable register (IE).
    pub ie_reg: u8,
    /// Interrupt flag register (IF).
    pub if_reg: u8,
}

impl MachineIrqHandler {
    pub fn new() -> (r: MachineIrqHandler)
        ensures
            r.ie_reg == 0 && r.if_reg == 0,
    {
        MachineIrqHandler { ie_reg: 0, if_reg: 0 }
    }
}

impl IrqHandler for MachineIrqHandler {
    open spec fn requested(&self, interrupt: Interrupt, post: MachineIrqHandler) -> bool {
        post == MachineIrqHandler { if_reg: self.if_reg | interrupt.spec_mask(), ..*self }
    }

    fn request_interrupt(&mut self, interrupt: Interrupt) {
        let mask = interrupt.mask();
        self.if_reg = self.if_reg | mask;
        assert(old(self).requested(interrupt, *self));
    }
}

} // verus!
