use vstd::prelude::*;
use vstd::string::StringExecFns;

verus! {

/// Zero flag: set when the last operation evaluated to zero.
pub const Z_FLAG: u8 = 0x80;
/// Subtraction flag: set when the last operation was a subtraction.
pub const N_FLAG: u8 = 0x40;
/// Half-carry flag: set on a carry out of bit 3 (or bit 11 for words).
pub const H_FLAG: u8 = 0x20;
/// Carry flag: set on a carry out of bit 7 (or bit 15 for words).
pub const C_FLAG: u8 = 0x10;

/// The 16-bit value made of a high and a low byte.
pub open spec fn pair(hi: u8, lo: u8) -> u16 {
    (hi as nat * 256 + lo as nat) as u16
}

/// The high byte of a word.
pub open spec fn high(w: u16) -> u8 {
    (w as nat / 256) as u8
}

/// The low byte of a word.
pub open spec fn low(w: u16) -> u8 {
    (w as nat % 256) as u8
}

/// Whether any bit of `mask` is set in the flag byte `f`.
pub open spec fn has_flag(f: u8, mask: u8) -> bool {
    f & mask != 0
}

/// The flag byte holding exactly the given four flags, low nibble clear.
pub open spec fn flags_of(z: bool, n: bool, h: bool, c: bool) -> u8 {
    ((if z { 0x80nat } else { 0nat }) + (if n { 0x40nat } else { 0nat }) + (if h { 0x20nat } else {
        0nat
    }) + (if c { 0x10nat } else { 0nat })) as u8
}

/// Each flag of `flags_of` reads back as given, and the low nibble is clear.
pub proof fn lemma_flags_of(z: bool, n: bool, h: bool, c: bool)
    ensures
        has_flag(flags_of(z, n, h, c), Z_FLAG) == z,
        has_flag(flags_of(z, n, h, c), N_FLAG) == n,
        has_flag(flags_of(z, n, h, c), H_FLAG) == h,
        has_flag(flags_of(z, n, h, c), C_FLAG) == c,
        flags_of(z, n, h, c) & 0x0F == 0,
{
    let f = flags_of(z, n, h, c);
    let zb: u8 = if z { 0x80 } else { 0 };
    let nb: u8 = if n { 0x40 } else { 0 };
    let hb: u8 = if h { 0x20 } else { 0 };
    let cb: u8 = if c { 0x10 } else { 0 };
    assert(f == zb + nb + hb + cb);
    assert((zb == 0x80 || zb == 0) && (nb == 0x40 || nb == 0) && (hb == 0x20 || hb == 0) && (cb
        == 0x10 || cb == 0) ==> {
        let g = (zb + nb + hb + cb) as u8;
        &&& (g & 0x80 != 0) == (zb == 0x80)
        &&& (g & 0x40 != 0) == (nb == 0x40)
        &&& (g & 0x20 != 0) == (hb == 0x20)
        &&& (g & 0x10 != 0) == (cb == 0x10)
        &&& g & 0x0F == 0
    }) by (bit_vector);
}

/// Pairing two bytes and splitting the word again gives the bytes back.
pub proof fn lemma_pair_split(hi: u8, lo: u8)
    ensures
        high(pair(hi, lo)) == hi,
        low(pair(hi, lo)) == lo,
{
}

/// Holds the state of the processor's internal registers.
/// A, F, B, C, D, E, H, L pair up as AF, BC, DE, HL, high byte first.
pub struct Registers {
    /// Accumulator: most of the processed data passes through it.
    pub a: u8,
    /// Flag register; only the high nibble is used.
    pub f: u8,
    pub b: u8,
    pub c: u8,
    pub d: u8,
    pub e: u8,
    pub h: u8,
    pub l: u8,
    /// Program counter.
    pub pc: u16,
    /// Stack pointer.
    pub sp: u16,
}

fn make_pair(hi: u8, lo: u8) -> (r: u16)
    ensures
        r == pair(hi, lo),
{
    hi as u16 * 256 + lo as u16
}

impl Registers {
    /// Create a register file with every register at zero.
    pub fn new() -> (r: Registers)
        ensures
            r.a == 0 && r.f == 0 && r.b == 0 && r.c == 0 && r.d == 0 && r.e == 0 && r.h == 0
                && r.l == 0 && r.pc == 0 && r.sp == 0,
    {
        Registers { a: 0, f: 0, b: 0, c: 0, d: 0, e: 0, h: 0, l: 0, pc: 0, sp: 0 }
    }

    pub open spec fn spec_af(&self) -> u16 {
        pair(self.a, self.f)
    }

    pub open spec fn spec_bc(&self) -> u16 {
        pair(self.b, self.c)
    }

    pub open spec fn spec_de(&self) -> u16 {
        pair(self.d, self.e)
    }

    pub open spec fn spec_hl(&self) -> u16 {
        pair(self.h, self.l)
    }

    pub fn af(&self) -> (r: u16)
        ensures
            r == self.spec_af(),
    {
        make_pair(self.a, self.f)
    }

    pub fn bc(&self) -> (r: u16)
        ensures
            r == self.spec_bc(),
    {
        make_pair(self.b, self.c)
    }

    pub fn de(&self) -> (r: u16)
        ensures
            r == self.spec_de(),
    {
        make_pair(self.d, self.e)
    }

    pub fn hl(&self) -> (r: u16)
        ensures
            r == self.spec_hl(),
    {
        make_pair(self.h, self.l)
    }

    /// Load AF; the low nibble of F always reads as zero.
    pub fn set_af(&mut self, af: u16)
        ensures
            *final(self) == (Registers { a: high(af), f: (low(af) as nat / 16 * 16) as u8, ..*old(self) }),
    {
        self.a = (af / 256) as u8;
        let lo = (af % 256) as u8;
        self.f = lo / 16 * 16;
    }

    pub fn set_bc(&mut self, bc: u16)
        ensures
            *final(self) == (Registers { b: high(bc), c: low(bc), ..*old(self) }),
    {
        self.b = (bc / 256) as u8;
        self.c = (bc % 256) as u8;
    }

    pub fn set_de(&mut self, de: u16)
        ensures
            *final(self) == (Registers { d: high(de), e: low(de), ..*old(self) }),
    {
        self.d = (de / 256) as u8;
        self.e = (de % 256) as u8;
    }

    pub fn set_hl(&mut self, hl: u16)
        ensures
            *final(self) == (Registers { h: high(hl), l: low(hl), ..*old(self) }),
    {
        self.h = (hl / 256) as u8;
        self.l = (hl % 256) as u8;
    }

    /// Whether any flag of `mask` is set.
    pub fn flag(&self, mask: u8) -> (r: bool)
        ensures
            r == has_flag(self.f, mask),
    {
        self.f & mask != 0
    }

    /// Set or clear the flags of `mask`, keeping the others.
    pub fn set_flag(&mut self, mask: u8, value: bool)
        ensures
            *final(self) == (Registers {
                f: if value { old(self).f | mask } else { old(self).f & !mask },
                ..*old(self)
            }),
    {
        if value {
            self.f = self.f | mask;
        } else {
            self.f = self.f & !mask;
        }
    }
}

/// Reading AF and loading it back leaves every register as it was, when the
/// low nibble of F was clear.
pub proof fn lemma_af_round_trip(r: Registers)
    requires
        r.f & 0x0F == 0,
    ensures
        ({
            let v = r.spec_af();
            (Registers { a: high(v), f: (low(v) as nat / 16 * 16) as u8, ..r }) == r
        }),
{
    let v = r.spec_af();
    lemma_pair_split(r.a, r.f);
    let f = r.f;
    assert(f & 0x0F == 0 ==> f / 16 * 16 == f) by (bit_vector);
}


/// The uppercase hexadecimal digit of `n` (below 16).
pub open spec fn hex_digit(n: u8) -> Seq<char> {
    if n == 0 {
        "0"@
    } else 
    if n == 1 {
        "1"@
    } else 
    if n == 2 {
        "2"@
    } else 
    if n == 3 {
        "3"@
    } else 
    if n == 4 {
        "4"@
    } else 
    if n == 5 {
        "5"@
    } else 
    if n == 6 {
        "6"@
    } else 
    if n == 7 {
        "7"@
    } else 
    if n == 8 {
        "8"@
    } else 
    if n == 9 {
        "9"@
    } else 
    if n == 10 {
        "A"@
    } else 
    if n == 11 {
        "B"@
    } else 
    if n == 12 {
        "C"@
    } else 
    if n == 13 {
        "D"@
    } else 
    if n == 14 {
        "E"@
    } else {
        "F"@
    }
}

/// A byte as two uppercase hexadecimal digits.
pub open spec fn hex2(b: u8) -> Seq<char> {
    hex_digit(b / 16) + hex_digit(b % 16)
}

/// A word as four uppercase hexadecimal digits.
pub open spec fn hex4(w: u16) -> Seq<char> {
    hex2(high(w)) + hex2(low(w))
}

/// The binary digit of bit `k` of `b`.
pub open spec fn bit_digit(b: u8, k: nat) -> Seq<char> {
    if (b as nat / pow2_8(k)) % 2 == 1 {
        "1"@
    } else {
        "0"@
    }
}

/// 2 to the power `k`, for `k` below 8.
pub open spec fn pow2_8(k: nat) -> nat {
    if k == 0 {
        1
    } else if k == 1 {
        2
    } else if k == 2 {
        4
    } else if k == 3 {
        8
    } else if k == 4 {
        16
    } else if k == 5 {
        32
    } else if k == 6 {
        64
    } else {
        128
    }
}

/// A byte as eight binary digits, most significant first.
pub open spec fn bin8(b: u8) -> Seq<char> {
    bit_digit(b, 7) + bit_digit(b, 6) + bit_digit(b, 5) + bit_digit(b, 4) + bit_digit(b, 3) + bit_digit(
        b,
        2,
    ) + bit_digit(b, 1) + bit_digit(b, 0)
}

/// The text that describes a register file.
pub open spec fn registers_text(r: Registers) -> Seq<char> {
    "A:"@ + hex2(r.a) + " B:"@ + hex2(r.b) + " C:"@ + hex2(r.c) + " D:"@ + hex2(r.d) + " E:"@ + hex2(
        r.e,
    ) + " F:"@ + bin8(r.f) + " H:"@ + hex2(r.h) + " L:"@ + hex2(r.l) + " SP:"@ + hex4(r.sp) + " PC:"@
        + hex4(r.pc)
}

fn hex_char(n: u8) -> (r: &'static str)
    requires
        n < 16,
    ensures
        r@ == hex_digit(n),
{
    match n {
        0 => "0",
        1 => "1",
        2 => "2",
        3 => "3",
        4 => "4",
        5 => "5",
        6 => "6",
        7 => "7",
        8 => "8",
        9 => "9",
        10 => "A",
        11 => "B",
        12 => "C",
        13 => "D",
        14 => "E",
        15 => "F",
        _ => "F",
    }
}

fn push_hex2(s: &mut String, b: u8)
    ensures
        final(s)@ == old(s)@ + hex2(b),
{
    s.append(hex_char(b / 16));
    s.append(hex_char(b % 16));
}

fn bit_char(b: u8, d: u8) -> (r: &'static str)
    requires
        d > 0,
    ensures
        r@ == if (b as nat / d as nat) % 2 == 1 { "1"@ } else { "0"@ },
{
    if (b / d) % 2 == 1 {
        "1"
    } else {
        "0"
    }
}

fn push_bin8(s: &mut String, b: u8)
    ensures
        final(s)@ == old(s)@ + bin8(b),
{
    let mut t = String::from_str(bit_char(b, 128));
    t.append(bit_char(b, 64));
    t.append(bit_char(b, 32));
    t.append(bit_char(b, 16));
    t.append(bit_char(b, 8));
    t.append(bit_char(b, 4));
    t.append(bit_char(b, 2));
    t.append(bit_char(b, 1));
    s.append(t.as_str());
}

impl Registers {
    /// The registers as text: the bytes in uppercase hexadecimal, F in
    /// binary.
    pub fn debug_text(&self) -> (r: String)
        ensures
            r@ == registers_text(*self),
    {
        let mut s = String::from_str("A:");
        push_hex2(&mut s, self.a);
        s.append(" B:");
        push_hex2(&mut s, self.b);
        s.append(" C:");
        push_hex2(&mut s, self.c);
        s.append(" D:");
        push_hex2(&mut s, self.d);
        s.append(" E:");
        push_hex2(&mut s, self.e);
        s.append(" F:");
        push_bin8(&mut s, self.f);
        s.append(" H:");
        push_hex2(&mut s, self.h);
        s.append(" L:");
        push_hex2(&mut s, self.l);
        s.append(" SP:");
        push_hex2(&mut s, (self.sp / 256) as u8);
        push_hex2(&mut s, (self.sp % 256) as u8);
        s.append(" PC:");
        push_hex2(&mut s, (self.pc / 256) as u8);
        push_hex2(&mut s, (self.pc % 256) as u8);
        proof {
            assert(s@ =~= registers_text(*self));
        }
        s
    }
}

} // verus!
