use vstd::prelude::*;

verus! {

/// The serial port: a data byte, a control byte, and the bytes sent so far.
///
/// Writing 0x81 to the control register (transfer start, internal clock)
/// sends the current data byte; the sent bytes wait in `output` until the
/// host takes them.
pub struct Serial {
    pub data: u8,
    pub control: u8,
    pub output: Vec<u8>,
}

impl Serial {
    pub fn new() -> (r: Serial)
        ensures
            r.data == 0 && r.control == 0 && r.output@ == Seq::<u8>::empty(),
    {
        Serial { data: 0, control: 0, output: Vec::new() }
    }

    pub fn read_data(&self) -> (r: u8)
        ensures
            r == self.data,
    {
        self.data
    }

    pub fn write_data(&mut self, data: u8)
        ensures
            final(self).data == data && final(self).control == old(self).control
                && final(self).output@ == old(self).output@,
    {
        self.data = data;
    }

    pub fn read_control(&self) -> (r: u8)
        ensures
            r == self.control,
    {
        self.control
    }

    /// Load the control register; 0x81 sends the data byte.
    pub fn write_control(&mut self, control: u8)
        ensures
            final(self).control == control && final(self).data == old(self).data,
            final(self).output@ == if control == 0x81 {
                old(self).output@.push(old(self).data)
            } else {
                old(self).output@
            },
    {
        self.control = control;
        if control == 0x81 {
            self.output.push(self.data);
        }
    }

    /// Hand over the bytes sent since the last call.
    pub fn take_output(&mut self) -> (r: Vec<u8>)
        ensures
            r@ == old(self).output@,
            final(self).output@ == Seq::<u8>::empty(),
            final(self).data == old(self).data && final(self).control == old(self).control,
    {
        let mut out: Vec<u8> = Vec::new();
        std::mem::swap(&mut out, &mut self.output);
        out
    }
}

} // verus!
