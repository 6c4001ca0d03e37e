use vstd::prelude::*;

verus! {

/// A storage cell of some width that can be read and loaded.
pub trait Register: Sized {
    type Size;

    /// The value the cell reads as.
    spec fn contents(&self) -> Self::Size;

    /// The cell after `bits` is loaded into it.
    spec fn loaded(&self, bits: Self::Size) -> Self;

    fn read(&self) -> (r: Self::Size)
        ensures
            r == self.contents(),
    ;

    fn load(&mut self, bits: Self::Size)
        ensures
            *final(self) == old(self).loaded(bits),
    ;
}

/// An 8-bit register cell.
#[derive(Debug, Clone, Copy, PartialEq, Eq, Structural)]
pub struct Register8 {
    pub bits: u8,
}

impl Register8 {
    pub fn new(bits: u8) -> (r: Self)
        ensures
            r.bits == bits,
    {
        Self { bits }
    }

    /// A view of this register through `mask`: only the bits set in `mask`
    /// are read or written.
    pub fn masked(self, mask: u8) -> (r: MaskedRegister)
        ensures
            r == (MaskedRegister { reg: self, mask }),
    {
        MaskedRegister { reg: self, mask }
    }
}

impl Default for Register8 {
    fn default() -> (r: Self)
        ensures
            r.bits == 0,
    {
        Self { bits: 0 }
    }
}

impl Register for Register8 {
    type Size = u8;

    open spec fn contents(&self) -> u8 {
        self.bits
    }

    open spec fn loaded(&self, bits: u8) -> Self {
        Register8 { bits }
    }

    fn read(&self) -> (r: u8) {
        self.bits
    }

    fn load(&mut self, bits: u8) {
        self.bits = bits
    }
}

/// A register seen through a mask: reads give the masked bits, loads change
/// only the masked bits.
#[derive(Debug, Clone, Copy, PartialEq, Eq, Structural)]
pub struct MaskedRegister {
    pub reg: Register8,
    pub mask: u8,
}

impl MaskedRegister {
    /// The underlying register, with whatever the view loaded into it.
    pub fn unmasked(self) -> (r: Register8)
        ensures
            r == self.reg,
    {
        self.reg
    }
}

impl Register for MaskedRegister {
    type Size = u8;

    open spec fn contents(&self) -> u8 {
        self.reg.bits & self.mask
    }

    open spec fn loaded(&self, bits: u8) -> Self {
        MaskedRegister { reg: Register8 { bits: (bits & self.mask) | (self.reg.bits & !self.mask) }, ..*self }
    }

    fn read(&self) -> (r: u8) {
        self.reg.read() & self.mask
    }

    fn load(&mut self, bits: u8) {
        let bits = (bits & self.mask) | (self.reg.read() & !self.mask);
        self.reg.load(bits)
    }
}

/// The big-endian word of a high and a low byte.
pub open spec fn word_of(h: u8, l: u8) -> u16 {
    (h as int * 256 + l as int) as u16
}

/// The high byte of a word.
pub open spec fn high_of(w: u16) -> u8 {
    (w as int / 256) as u8
}

/// The low byte of a word.
pub open spec fn low_of(w: u16) -> u8 {
    (w as int % 256) as u8
}

/// Two 8-bit registers read and loaded together as one big-endian 16-bit value.
#[derive(Debug, Clone, Copy, PartialEq, Eq, Structural)]
pub struct Register8Pair {
    pub h: Register8,
    pub l: Register8,
}

impl Default for Register8Pair {
    fn default() -> (r: Self)
        ensures
            r.h.bits == 0,
            r.l.bits == 0,
    {
        Self { h: Register8 { bits: 0 }, l: Register8 { bits: 0 } }
    }
}

impl Register8Pair {
    pub fn new(h: Register8, l: Register8) -> (r: Self)
        ensures
            r == (Register8Pair { h, l }),
    {
        Self { h, l }
    }

    pub fn from_tuple(hl: (Register8, Register8)) -> (r: Self)
        ensures
            r == (Register8Pair { h: hl.0, l: hl.1 }),
    {
        Self { h: hl.0, l: hl.1 }
    }

    pub fn split(self) -> (r: (Register8, Register8))
        ensures
            r == (self.h, self.l),
    {
        (self.h, self.l)
    }

    /// Adds one to the pair's value, wrapping from 0xFFFF to 0.
    pub fn increment(&mut self)
        ensures
            final(self).contents() == (old(self).contents() + 1) % 0x10000,
    {
        let hl = self.as_u16();
        self.load(hl.wrapping_add(1));
    }

    /// Subtracts one from the pair's value, wrapping from 0 to 0xFFFF.
    pub fn decrement(&mut self)
        ensures
            final(self).contents() == (old(self).contents() + 0xFFFF) % 0x10000,
    {
        let hl = self.as_u16();
        self.load(hl.wrapping_sub(1));
    }

    pub fn as_u16(&self) -> (r: u16)
        ensures
            r == self.contents(),
    {
        self.read()
    }
}

impl Register for Register8Pair {
    type Size = u16;

    open spec fn contents(&self) -> u16 {
        word_of(self.h.bits, self.l.bits)
    }

    open spec fn loaded(&self, bits: u16) -> Self {
        Register8Pair { h: Register8 { bits: high_of(bits) }, l: Register8 { bits: low_of(bits) } }
    }

    fn read(&self) -> (r: u16) {
        self.h.read() as u16 * 256 + self.l.read() as u16
    }

    fn load(&mut self, bits: u16) {
        self.h.load((bits / 256) as u8);
        self.l.load((bits % 256) as u8);
    }
}

/// Loading a word into a register pair and reading the pair gives the word back.
pub proof fn lemma_pair_load_read(p: Register8Pair, w: u16)
    ensures
        p.loaded(w).contents() == w,
{
}

} // verus!
