use vstd::prelude::*;

verus! {

/// One address past the given one, wrapping at the end of the address space.
pub open spec fn next_address(a: u16) -> u16 {
    ((a as nat + 1) % 0x10000) as u16
}

/// A device that answers reads and writes on the 16-bit address bus.
///
/// Reads have no effect on the device. A write is described by the relation
/// `written`, between the state before it and the state after it.
pub trait Memory: Sized {
    /// The byte that a read of `address` returns in this state.
    spec fn read_value(&self, address: u16) -> u8;

    /// `post` is a state that a write of `byte` at `address` leaves.
    spec fn written(&self, address: u16, byte: u8, post: Self) -> bool;

    fn read_byte(&mut self, address: u16) -> (r: u8)
        ensures
            r == old(self).read_value(address),
            *final(self) == *old(self),
    ;

    fn write_byte(&mut self, address: u16, byte: u8)
        ensures
            old(self).written(address, byte, *final(self)),
    ;
}

/// The little-endian word that the bytes at `a` and the next address form.
pub open spec fn word_value<M: Memory>(m: M, a: u16) -> u16 {
    (m.read_value(a) as nat + 256 * m.read_value(next_address(a)) as nat) as u16
}

/// `post` is a state that writing the word `w` at `a`, low byte first, leaves.
pub open spec fn word_written<M: Memory>(m: M, a: u16, w: u16, post: M) -> bool {
    exists|mid: M|
        m.written(a, (w as nat % 256) as u8, mid) && #[trigger] mid.written(
            next_address(a),
            (w as nat / 256) as u8,
            post,
        )
}

/// Read a little-endian word at `address`.
pub fn read_word<M: Memory>(m: &mut M, address: u16) -> (r: u16)
    ensures
        r == word_value(*old(m), address),
        *final(m) == *old(m),
{
    let lo = m.read_byte(address);
    let hi = m.read_byte(address.wrapping_add(1));
    hi as u16 * 256 + lo as u16
}

/// Write a little-endian word at `address`, low byte first.
pub fn write_word<M: Memory>(m: &mut M, address: u16, word: u16)
    ensures
        word_written(*old(m), address, word, *final(m)),
{
    let ghost m0 = *m;
    m.write_byte(address, (word % 256) as u8);
    let ghost mid = *m;
    m.write_byte(address.wrapping_add(1), (word / 256) as u8);
    assert(address.wrapping_add(1) == next_address(address));
    assert(m0.written(address, (word as nat % 256) as u8, mid) && mid.written(
        next_address(address),
        (word as nat / 256) as u8,
        *m,
    ));
}

/// A plain array of bytes without any mapping: every address inside it
/// reads back what was last written there, and the others read zero.
/// It lets the processor run alone.
pub struct FlatMemory {
    pub bytes: Vec<u8>,
}

impl FlatMemory {
    /// A memory of `size` zero bytes.
    pub fn new(size: usize) -> (r: FlatMemory)
        ensures
            r.bytes@ == Seq::new(size as nat, |i: int| 0u8),
    {
        let mut bytes: Vec<u8> = Vec::new();
        let mut i: usize = 0;
        while i < size
            invariant
                i <= size,
                bytes@ == Seq::new(i as nat, |k: int| 0u8),
            decreases size - i,
        {
            bytes.push(0);
            i = i + 1;
            assert(bytes@ =~= Seq::new(i as nat, |k: int| 0u8));
        }
        FlatMemory { bytes }
    }

    /// Copy `data` to the start of the memory, as far as it fits.
    pub fn load(&mut self, data: &Vec<u8>)
        ensures
            final(self).bytes@.len() == old(self).bytes@.len(),
            forall|i: int|
                0 <= i < old(self).bytes@.len() ==> #[trigger] final(self).bytes@[i] == if i
                    < data@.len() {
                    data@[i]
                } else {
                    old(self).bytes@[i]
                },
    {
        let mut i: usize = 0;
        while i < data.len() && i < self.bytes.len()
            invariant
                i <= self.bytes@.len(),
                i <= data@.len(),
                self.bytes@.len() == old(self).bytes@.len(),
                forall|k: int|
                    0 <= k < old(self).bytes@.len() ==> #[trigger] self.bytes@[k] == if k < i {
                        data@[k]
                    } else {
                        old(self).bytes@[k]
                    },
            decreases data.len() - i,
        {
            self.bytes.set(i, data[i]);
            i = i + 1;
        }
        assert(i == data@.len() || i == self.bytes@.len());
    }
}

impl Memory for FlatMemory {
    open spec fn read_value(&self, address: u16) -> u8 {
        if (address as int) < self.bytes@.len() {
            self.bytes@[address as int]
        } else {
            0
        }
    }

    open spec fn written(&self, address: u16, byte: u8, post: FlatMemory) -> bool {
        post.bytes@ == if (address as int) < self.bytes@.len() {
            self.bytes@.update(address as int, byte)
        } else {
            self.bytes@
        }
    }

    fn read_byte(&mut self, address: u16) -> (r: u8) {
        if (address as usize) < self.bytes.len() {
            self.bytes[address as usize]
        } else {
            0
        }
    }

    fn write_byte(&mut self, address: u16, byte: u8) {
        if (address as usize) < self.bytes.len() {
            self.bytes.set(address as usize, byte);
        }
    }
}

} // verus!
