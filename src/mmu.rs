use vstd::prelude::*;
use crate::cpu::CycleType;
use crate::gpu::{Gpu, RGB};
use crate::irq::{MachineIrqHandler, INTERRUPT_ENABLE_ADDRESS, INTERRUPT_FLAG_ADDRESS};
use crate::joypad::{Joypad, JoypadKey};
use crate::mbc::{Cartridge, MBC};
use crate::memory::{FlatMemory, Memory};
use crate::serial::Serial;
use self::timers::Timers;

pub mod timers;

verus! {

/// A bus the processor drives: besides reads and writes it is told when an
/// opcode is fetched and how many machine cycles each step took.
pub trait MemoryManagementUnit: Memory {
    /// `post` is a state that advancing the bus by `ticks` leaves.
    spec fn stepped(&self, ticks: CycleType, post: Self) -> bool;

    /// The state after the processor fetched an opcode at `pc`.
    spec fn after_fetch(&self, pc: u16) -> Self;

    /// Advance the peripherals by `ticks` machine cycles.
    fn step(&mut self, ticks: CycleType) -> (r: CycleType)
        ensures
            old(self).stepped(ticks, *final(self)),
    ;

    /// Note that an opcode is about to be fetched at `pc`.
    fn fetch_at(&mut self, pc: u16)
        ensures
            *final(self) == old(self).after_fetch(pc),
    ;

    /// The interrupt enable register.
    fn interrupt_enable(&mut self) -> (r: u8)
        ensures
            r == old(self).read_value(INTERRUPT_ENABLE_ADDRESS),
            *final(self) == *old(self),
    ;

    /// The interrupt flag register.
    fn interrupt_flag(&mut self) -> (r: u8)
        ensures
            r == old(self).read_value(INTERRUPT_FLAG_ADDRESS),
            *final(self) == *old(self),
    ;

    /// Load the interrupt flag register.
    fn set_interrupt_flag(&mut self, flag: u8)
        ensures
            old(self).written(INTERRUPT_FLAG_ADDRESS, flag, *final(self)),
    ;
}

impl MemoryManagementUnit for FlatMemory {
    open spec fn stepped(&self, ticks: CycleType, post: FlatMemory) -> bool {
        post == *self
    }

    open spec fn after_fetch(&self, pc: u16) -> FlatMemory {
        *self
    }

    fn step(&mut self, ticks: CycleType) -> (r: CycleType) {
        0
    }

    fn fetch_at(&mut self, pc: u16) {
    }

    fn interrupt_enable(&mut self) -> (r: u8) {
        self.read_byte(INTERRUPT_ENABLE_ADDRESS)
    }

    fn interrupt_flag(&mut self) -> (r: u8) {
        self.read_byte(INTERRUPT_FLAG_ADDRESS)
    }

    fn set_interrupt_flag(&mut self, flag: u8) {
        self.write_byte(INTERRUPT_FLAG_ADDRESS, flag)
    }
}


/// The size of the work RAM.
pub const WRAM_SIZE: usize = 0x2000;

/// The size of the high RAM.
pub const ZRAM_SIZE: usize = 0x7F;

/// The size of the sound register block (0xFF10-0xFF3F), kept as plain storage.
pub const AUDIO_SIZE: usize = 0x30;

/// The size of the boot program overlay.
pub const BIOS_SIZE: usize = 0x100;

/// The memory bus: routes each address to the component behind it, holds
/// the work and high RAM, the interrupt registers and the boot program,
/// and advances the timers and the picture unit.
pub struct MMU {
    /// The boot program is mapped over 0x0000-0x00FF.
    pub in_bios: bool,
    /// The boot program.
    pub bios: Vec<u8>,
    pub timers: Timers,
    pub gpu: Gpu,
    /// The cartridge and its controller.
    pub mbc: Cartridge,
    pub joypad: Joypad,
    pub serial: Serial,
    /// The interrupt enable and flag registers.
    pub irq_handler: MachineIrqHandler,
    /// 8 KiB of work RAM, echoed at 0xE000-0xFDFF.
    pub wram: Vec<u8>,
    /// High RAM, 0xFF80-0xFFFE.
    pub zram: Vec<u8>,
    /// The sound registers (sound itself is not produced).
    pub audio: Vec<u8>,
}

/// A vector of `n` zero bytes.
fn zeros(n: usize) -> (r: Vec<u8>)
    ensures
        r@ == Seq::new(n as nat, |i: int| 0u8),
{
    let mut v: Vec<u8> = Vec::new();
    let mut i: usize = 0;
    while i < n
        invariant
            i <= n,
            v@ == Seq::new(i as nat, |k: int| 0u8),
        decreases n - i,
    {
        v.push(0);
        i = i + 1;
        assert(v@ =~= Seq::new(i as nat, |k: int| 0u8));
    }
    v
}

/// The byte at index `i` of `v`, or zero past its end.
pub open spec fn byte_at(v: Seq<u8>, i: int) -> u8 {
    if 0 <= i < v.len() {
        v[i]
    } else {
        0
    }
}

/// `v` with index `i` replaced, when it has one.
pub open spec fn byte_set(v: Seq<u8>, i: int, b: u8) -> Seq<u8> {
    if 0 <= i < v.len() {
        v.update(i, b)
    } else {
        v
    }
}

fn get(v: &Vec<u8>, i: usize) -> (r: u8)
    ensures
        r == byte_at(v@, i as int),
{
    if i < v.len() {
        v[i]
    } else {
        0
    }
}

fn put(v: &mut Vec<u8>, i: usize, b: u8)
    ensures
        final(v)@ == byte_set(old(v)@, i as int, b),
{
    if i < v.len() {
        v.set(i, b);
    }
}

impl MMU {
    /// A bus around the cartridge `mbc`. Unless `skip_bios`, the boot
    /// program `bios` is mapped until the processor reaches 0x0100.
    pub fn new(mbc: Cartridge, cgb_mode: bool, skip_bios: bool, bios: Vec<u8>) -> (r: MMU)
        ensures
            r.in_bios == !skip_bios,
            r.bios@ == bios@,
            r.mbc == mbc,
            r.gpu.wf() && r.gpu.line_ok(),
            r.irq_handler.ie_reg == 0 && r.irq_handler.if_reg == 0,
            r.wram@.len() == WRAM_SIZE && r.zram@.len() == ZRAM_SIZE && r.audio@.len() == AUDIO_SIZE,
            r.wf(),
    {
        MMU {
            in_bios: !skip_bios,
            bios,
            timers: Timers::new(),
            gpu: Gpu::new(cgb_mode),
            mbc,
            joypad: Joypad::new(),
            serial: Serial::new(),
            irq_handler: MachineIrqHandler::new(),
            wram: zeros(WRAM_SIZE),
            zram: zeros(ZRAM_SIZE),
            audio: zeros(AUDIO_SIZE),
        }
    }

    /// A key goes down on the joypad; a Joypad interrupt is requested.
    pub fn key_down(&mut self, key: &JoypadKey)
        ensures
            key.is_direction() ==> final(self).joypad == (Joypad {
                directions: old(self).joypad.directions & !key.bit(),
                ..old(self).joypad
            }),
            !key.is_direction() ==> final(self).joypad == (Joypad {
                buttons: old(self).joypad.buttons & !key.bit(),
                ..old(self).joypad
            }),
            *final(self) == (MMU { joypad: final(self).joypad, irq_handler: final(self).irq_handler, ..*old(self) }),
            final(self).irq_handler == (MachineIrqHandler {
                if_reg: old(self).irq_handler.if_reg | 0x10,
                ..old(self).irq_handler
            }),
    {
        self.joypad.key_down(key, &mut self.irq_handler);
    }

    /// A key goes up on the joypad.
    pub fn key_up(&mut self, key: &JoypadKey)
        ensures
            key.is_direction() ==> final(self).joypad == (Joypad {
                directions: old(self).joypad.directions | key.bit(),
                ..old(self).joypad
            }),
            !key.is_direction() ==> final(self).joypad == (Joypad {
                buttons: old(self).joypad.buttons | key.bit(),
                ..old(self).joypad
            }),
            *final(self) == (MMU { joypad: final(self).joypad, ..*old(self) }),
    {
        self.joypad.key_up(key);
    }

    /// The frame, once per completed frame: when one was completed since
    /// the last call, return it and clear the mark.
    pub fn frame_buffer(&mut self) -> (r: Option<Vec<RGB>>)
        ensures
            old(self).gpu.dirty ==> r.is_some() && r.unwrap()@ == old(self).gpu.frame_buffer@,
            !old(self).gpu.dirty ==> r.is_none(),
            *final(self) == (MMU { gpu: Gpu { dirty: false, ..old(self).gpu }, ..*old(self) }),
    {
        if self.gpu.dirty {
            self.gpu.dirty = false;
            Some(self.gpu.screen_data())
        } else {
            None
        }
    }

    /// The bytes the serial port sent since the last call.
    pub fn take_serial_output(&mut self) -> (r: Vec<u8>)
        ensures
            r@ == old(self).serial.output@,
            final(self).serial.output@ == Seq::<u8>::empty(),
            *final(self) == (MMU { serial: final(self).serial, ..*old(self) }),
            final(self).serial.data == old(self).serial.data,
            final(self).serial.control == old(self).serial.control,
    {
        self.serial.take_output()
    }
}

impl MMU {
    /// The bus's memories have their sizes.
    pub open spec fn wf(&self) -> bool {
        &&& self.wram@.len() == WRAM_SIZE
        &&& self.zram@.len() == ZRAM_SIZE
        &&& self.audio@.len() == AUDIO_SIZE
        &&& self.gpu.wf()
    }
}

/// The storage cell behind an address of work RAM (and its echo) or high RAM.
pub open spec fn ram_cell(a: u16) -> int {
    if a < 0xFE00 {
        a as int % 0x2000
    } else {
        0x2000 + a as int - 0xFF80
    }
}

/// Whether `a` lies in video RAM or the object attribute memory.
pub open spec fn video_ram(a: u16) -> bool {
    (0x8000 <= a && a < 0xA000) || (0xFE00 <= a && a < 0xFEA0)
}

/// Whether `a` lies in one of the ranges a program can write and read back
/// unchanged: work RAM, its echo, and high RAM.
pub open spec fn plain_ram(a: u16) -> bool {
    (0xC000 <= a && a < 0xFE00) || (0xFF80 <= a && a < 0xFFFF)
}

impl MMU {
    /// `post` is this bus after an object attribute DMA from page `page`:
    /// the 160 bytes at `page` * 0x100 are copied into OAM.
    pub open spec fn dma_done(&self, page: u8, post: MMU) -> bool {
        &&& post == MMU { gpu: Gpu { oam: post.gpu.oam, ..self.gpu }, ..*self }
        &&& post.gpu.oam@ == if self.gpu.oam@.len() == 160 {
            Seq::new(160, |i: int| self.read_value((page as int * 256 + i) as u16))
        } else {
            self.gpu.oam@
        }
    }

    /// Copy 160 bytes from page `page` into the object attribute memory.
    fn dma_transfer(&mut self, page: u8)
        ensures
            old(self).dma_done(page, *final(self)),
    {
        let base: u16 = page as u16 * 256;
        let mut data: Vec<u8> = Vec::new();
        let mut i: u16 = 0;
        while i < 160
            invariant
                i <= 160,
                base == page as int * 256,
                *self == *old(self),
                data@.len() == i,
                forall|k: int| 0 <= k < i ==> #[trigger] data@[k] == old(self).read_value((page as int * 256 + k) as u16),
            decreases 160 - i,
        {
            let b = self.read_byte(base + i);
            data.push(b);
            i = i + 1;
        }
        if self.gpu.oam.len() == 160 {
            self.gpu.oam = data;
            assert(self.gpu.oam@ =~= Seq::new(160, |k: int| old(self).read_value((page as int * 256 + k) as u16)));
        }
    }
}

impl Memory for MMU {
    open spec fn read_value(&self, address: u16) -> u8 {
        let a = address as int;
        if self.in_bios && a < 0x100 {
            byte_at(self.bios@, a)
        } else if a < 0x8000 {
            self.mbc.rom_value(address)
        } else if a < 0xA000 {
            self.gpu.read_value(address)
        } else if a < 0xC000 {
            self.mbc.ram_value(address)
        } else if a < 0xFE00 {
            byte_at(self.wram@, a % 0x2000)
        } else if a < 0xFEA0 {
            self.gpu.read_value(address)
        } else if a < 0xFF00 {
            0
        } else if a == 0xFF00 {
            self.joypad.read_value(address)
        } else if a == 0xFF01 {
            self.serial.data
        } else if a == 0xFF02 {
            self.serial.control
        } else if 0xFF04 <= a < 0xFF08 {
            self.timers.read_value(address)
        } else if a == 0xFF0F {
            self.irq_handler.if_reg
        } else if 0xFF10 <= a < 0xFF40 {
            byte_at(self.audio@, a - 0xFF10)
        } else if (0xFF40 <= a < 0xFF50) || (0xFF68 <= a < 0xFF6C) {
            self.gpu.read_value(address)
        } else if 0xFF80 <= a < 0xFFFF {
            byte_at(self.zram@, a - 0xFF80)
        } else if a == 0xFFFF {
            self.irq_handler.ie_reg
        } else {
            0
        }
    }

    open spec fn written(&self, address: u16, byte: u8, post: MMU) -> bool {
        let a = address as int;
        if a < 0x8000 {
            self.mbc.controlled(address, byte, post.mbc) && post == MMU { mbc: post.mbc, ..*self }
        } else if a < 0xA000 {
            self.gpu.written(address, byte, post.gpu) && post == MMU { gpu: post.gpu, ..*self }
        } else if a < 0xC000 {
            self.mbc.ram_written(address, byte, post.mbc) && post == MMU { mbc: post.mbc, ..*self }
        } else if a < 0xFE00 {
            post == MMU { wram: post.wram, ..*self } && post.wram@ == byte_set(self.wram@, a % 0x2000, byte)
        } else if a < 0xFEA0 {
            self.gpu.written(address, byte, post.gpu) && post == MMU { gpu: post.gpu, ..*self }
        } else if a < 0xFF00 {
            post == *self
        } else if a == 0xFF00 {
            self.joypad.written(address, byte, post.joypad) && post == MMU { joypad: post.joypad, ..*self }
        } else if a == 0xFF01 {
            post == MMU { serial: post.serial, ..*self } && post.serial.data == byte
                && post.serial.control == self.serial.control && post.serial.output@ == self.serial.output@
        } else if a == 0xFF02 {
            post == MMU { serial: post.serial, ..*self } && post.serial.control == byte
                && post.serial.data == self.serial.data && post.serial.output@ == if byte == 0x81 {
                self.serial.output@.push(self.serial.data)
            } else {
                self.serial.output@
            }
        } else if 0xFF04 <= a < 0xFF08 {
            self.timers.written(address, byte, post.timers) && post == MMU { timers: post.timers, ..*self }
        } else if a == 0xFF0F {
            post == MMU { irq_handler: MachineIrqHandler { if_reg: byte, ..self.irq_handler }, ..*self }
        } else if 0xFF10 <= a < 0xFF40 {
            post == MMU { audio: post.audio, ..*self } && post.audio@ == byte_set(self.audio@, a - 0xFF10, byte)
        } else if a == 0xFF46 {
            self.dma_done(byte, post)
        } else if (0xFF40 <= a < 0xFF50) || (0xFF68 <= a < 0xFF6C) {
            self.gpu.written(address, byte, post.gpu) && post == MMU { gpu: post.gpu, ..*self }
        } else if 0xFF80 <= a < 0xFFFF {
            post == MMU { zram: post.zram, ..*self } && post.zram@ == byte_set(self.zram@, a - 0xFF80, byte)
        } else if a == 0xFFFF {
            post == MMU { irq_handler: MachineIrqHandler { ie_reg: byte, ..self.irq_handler }, ..*self }
        } else {
            post == *self
        }
    }

    fn read_byte(&mut self, address: u16) -> (r: u8) {
        if self.in_bios && address < 0x100 {
            get(&self.bios, address as usize)
        } else if address < 0x8000 {
            self.mbc.rom_read(address)
        } else if address < 0xA000 {
            self.gpu.read_byte(address)
        } else if address < 0xC000 {
            self.mbc.ram_read(address)
        } else if address < 0xFE00 {
            get(&self.wram, (address % 0x2000) as usize)
        } else if address < 0xFEA0 {
            self.gpu.read_byte(address)
        } else if address < 0xFF00 {
            0
        } else if address == 0xFF00 {
            self.joypad.read_byte(address)
        } else if address == 0xFF01 {
            self.serial.read_data()
        } else if address == 0xFF02 {
            self.serial.read_control()
        } else if 0xFF04 <= address && address < 0xFF08 {
            self.timers.read_byte(address)
        } else if address == 0xFF0F {
            self.irq_handler.if_reg
        } else if 0xFF10 <= address && address < 0xFF40 {
            get(&self.audio, (address - 0xFF10) as usize)
        } else if (0xFF40 <= address && address < 0xFF50) || (0xFF68 <= address && address < 0xFF6C) {
            self.gpu.read_byte(address)
        } else if 0xFF80 <= address && address < 0xFFFF {
            get(&self.zram, (address - 0xFF80) as usize)
        } else if address == 0xFFFF {
            self.irq_handler.ie_reg
        } else {
            0
        }
    }

    fn write_byte(&mut self, address: u16, byte: u8) {
        if address < 0x8000 {
            self.mbc.rom_control(address, byte);
        } else if address < 0xA000 {
            self.gpu.write_byte(address, byte);
        } else if address < 0xC000 {
            self.mbc.ram_write(address, byte);
        } else if address < 0xFE00 {
            put(&mut self.wram, (address % 0x2000) as usize, byte);
        } else if address < 0xFEA0 {
            self.gpu.write_byte(address, byte);
        } else if address < 0xFF00 {
        } else if address == 0xFF00 {
            self.joypad.write_byte(address, byte);
        } else if address == 0xFF01 {
            self.serial.write_data(byte);
        } else if address == 0xFF02 {
            self.serial.write_control(byte);
        } else if 0xFF04 <= address && address < 0xFF08 {
            self.timers.write_byte(address, byte);
        } else if address == 0xFF0F {
            self.irq_handler.if_reg = byte;
        } else if 0xFF10 <= address && address < 0xFF40 {
            put(&mut self.audio, (address - 0xFF10) as usize, byte);
        } else if address == 0xFF46 {
            self.dma_transfer(byte);
        } else if (0xFF40 <= address && address < 0xFF50) || (0xFF68 <= address && address < 0xFF6C) {
            self.gpu.write_byte(address, byte);
        } else if 0xFF80 <= address && address < 0xFFFF {
            put(&mut self.zram, (address - 0xFF80) as usize, byte);
        } else if address == 0xFFFF {
            self.irq_handler.ie_reg = byte;
        }
    }
}

impl MemoryManagementUnit for MMU {
    open spec fn stepped(&self, ticks: CycleType, post: MMU) -> bool {
        &&& post == MMU { timers: post.timers, gpu: post.gpu, irq_handler: post.irq_handler, ..*self }
        &&& exists|irq: MachineIrqHandler|
            #[trigger] self.timers.cycled(ticks, self.irq_handler, post.timers, irq) && self.gpu.stepped_by(
                ticks,
                irq,
                post.gpu,
                post.irq_handler,
            )
        &&& (self.gpu.line_ok() ==> post.gpu.line_ok())
        &&& (self.wf() ==> post.wf())
    }

    open spec fn after_fetch(&self, pc: u16) -> MMU {
        if pc >= 0x100 {
            MMU { in_bios: false, ..*self }
        } else {
            *self
        }
    }

    fn step(&mut self, ticks: CycleType) -> (r: CycleType) {
        let ghost pre = *self;
        self.timers.cycle(ticks, &mut self.irq_handler);
        let ghost irq = self.irq_handler;
        self.gpu.step(ticks, &mut self.irq_handler);
        assert(pre.timers.cycled(ticks, pre.irq_handler, self.timers, irq));
        ticks
    }

    fn fetch_at(&mut self, pc: u16) {
        // the boot program ends when the processor reaches 0x0100
        if pc >= 0x100 {
            self.in_bios = false;
        }
    }

    fn interrupt_enable(&mut self) -> (r: u8) {
        self.irq_handler.ie_reg
    }

    fn interrupt_flag(&mut self) -> (r: u8) {
        self.irq_handler.if_reg
    }

    fn set_interrupt_flag(&mut self, flag: u8) {
        self.irq_handler.if_reg = flag;
    }
}


/// Writes keep the bus's memories at their sizes.
pub proof fn lemma_written_wf(m: MMU, address: u16, byte: u8, post: MMU)
    requires
        m.wf(),
        m.written(address, byte, post),
    ensures
        post.wf(),
{
}

/// A byte written to work RAM, its echo, high RAM, video RAM or the object
/// attribute memory reads back unchanged.
pub proof fn lemma_ram_write_read(m: MMU, address: u16, byte: u8, post: MMU)
    requires
        m.wf(),
        plain_ram(address) || video_ram(address),
        m.written(address, byte, post),
    ensures
        post.read_value(address) == byte,
{
    if 0x8000 <= address && address < 0x9800 {
        let a = address as int;
        let t = (a - 0x8000) / 16;
        assert(t < m.gpu.tileset@.len());
        assert(post.gpu.tileset@[t].raw_data@ == m.gpu.tileset@[t].raw_data@.update((a - 0x8000) % 16, byte));
    }
}

/// A write to work RAM or high RAM changes no other readable byte but the
/// ones backed by the same cell (an address and its echo).
pub proof fn lemma_ram_write_keeps_others(m: MMU, address: u16, byte: u8, post: MMU, other: u16)
    requires
        m.wf(),
        plain_ram(address),
        m.written(address, byte, post),
        !(plain_ram(other) && ram_cell(other) == ram_cell(address)),
    ensures
        post.read_value(other) == m.read_value(other),
{
}

/// On a plain memory, a byte written inside it reads back unchanged.
pub proof fn lemma_flat_write_read(m: FlatMemory, address: u16, byte: u8, post: FlatMemory)
    requires
        (address as int) < m.bytes@.len(),
        m.written(address, byte, post),
    ensures
        post.read_value(address) == byte,
{
}

} // verus!
