use vstd::prelude::*;
use super::GpuMode;

verus! {

/// LCD control register (LCDC).
pub const CONTROL: u16 = 0xFF40;
/// LCD status register (STAT).
pub const STAT: u16 = 0xFF41;
pub const SCY: u16 = 0xFF42;
pub const SCX: u16 = 0xFF43;
/// The current line (LY); a write resets it.
pub const LY: u16 = 0xFF44;
pub const LYC: u16 = 0xFF45;
pub const BGP: u16 = 0xFF47;
pub const OBP_0: u16 = 0xFF48;
pub const OBP_1: u16 = 0xFF49;
pub const WY: u16 = 0xFF4A;
pub const WX: u16 = 0xFF4B;

/// Whether bit `k` of `register` is set.
pub open spec fn bit_set(register: u8, k: u8) -> bool {
    (register >> k) & 1 == 1
}

/// The bits of the LCD control register, bit 0 first.
#[derive(Copy, Clone, Debug, PartialEq, Eq, Structural)]
pub enum LcdControl {
    BgDisplayEnable,
    ObjDisplayEnable,
    ObjSize,
    BgTileMapDisplaySelect,
    BgWindowTileDataSelect,
    WindowDisplayEnable,
    WindowTileMapDisplaySelect,
    LcdDisplayEnable,
}

impl LcdControl {
    pub open spec fn index(&self) -> u8 {
        match *self {
            LcdControl::BgDisplayEnable => 0,
            LcdControl::ObjDisplayEnable => 1,
            LcdControl::ObjSize => 2,
            LcdControl::BgTileMapDisplaySelect => 3,
            LcdControl::BgWindowTileDataSelect => 4,
            LcdControl::WindowDisplayEnable => 5,
            LcdControl::WindowTileMapDisplaySelect => 6,
            LcdControl::LcdDisplayEnable => 7,
        }
    }

    /// Whether this bit is set in the control register.
    pub fn is_set(&self, register: u8) -> (r: bool)
        ensures
            r == bit_set(register, self.index()),
    {
        let v: u8 = match *self {
            LcdControl::BgDisplayEnable => 0,
            LcdControl::ObjDisplayEnable => 1,
            LcdControl::ObjSize => 2,
            LcdControl::BgTileMapDisplaySelect => 3,
            LcdControl::BgWindowTileDataSelect => 4,
            LcdControl::WindowDisplayEnable => 5,
            LcdControl::WindowTileMapDisplaySelect => 6,
            LcdControl::LcdDisplayEnable => 7,
        };
        (register >> v) & 1 == 1
    }
}

/// The interrupt source bits of the LCD status register.
#[derive(Copy, Clone, Debug, PartialEq, Eq, Structural)]
pub enum LcdControllerInterruptStatus {
    HBlank,
    VBlank,
    Oam,
    LyCoincidence,
}

/// The two low STAT bits that report a mode.
pub open spec fn mode_bits(mode: GpuMode) -> u8 {
    match mode {
        GpuMode::H_Blank => 0,
        GpuMode::V_Blank => 1,
        GpuMode::OAM_Read => 2,
        GpuMode::VRAM_Read => 3,
    }
}

impl LcdControllerInterruptStatus {
    pub open spec fn index(&self) -> u8 {
        match *self {
            LcdControllerInterruptStatus::HBlank => 3,
            LcdControllerInterruptStatus::VBlank => 4,
            LcdControllerInterruptStatus::Oam => 5,
            LcdControllerInterruptStatus::LyCoincidence => 6,
        }
    }

    /// Whether this source is enabled in the status register.
    pub fn is_set(&self, register: u8) -> (r: bool)
        ensures
            r == bit_set(register, self.index()),
    {
        let v: u8 = match *self {
            LcdControllerInterruptStatus::HBlank => 3,
            LcdControllerInterruptStatus::VBlank => 4,
            LcdControllerInterruptStatus::Oam => 5,
            LcdControllerInterruptStatus::LyCoincidence => 6,
        };
        (register >> v) & 1 == 1
    }

    /// The status register reporting `mode` in its two low bits.
    pub fn with_mode(register: u8, mode: GpuMode) -> (r: u8)
        ensures
            r == (register & 0xFC) | mode_bits(mode),
    {
        let bits: u8 = match mode {
            GpuMode::H_Blank => 0,
            GpuMode::V_Blank => 1,
            GpuMode::OAM_Read => 2,
            GpuMode::VRAM_Read => 3,
        };
        (register & 0xFC) | bits
    }

    /// The status register with bit 2 set exactly when LYC = LY.
    pub fn with_coincidence_flag(register: u8, coincidence: bool) -> (r: u8)
        ensures
            r == (register & 0xFB) | if coincidence { 0x04u8 } else { 0x00u8 },
    {
        (register & 0xFB) | if coincidence { 0x04 } else { 0x00 }
    }
}

} // verus!
