use vstd::prelude::*;

use crate::alu::{
    ALU, Adder, DecimalAdjuster, IncDecOperator, LogicalOperator, Rotator, StatusFlag,
    StatusFlagSet,
};
use crate::bus::{AddressBus, DataBus};
use crate::memory::{Memory, RamB8A16, MEMORY_SIZE};
use crate::register::{high_of, low_of, word_of, Register, Register8};

verus! {

/// Number of 8-bit register cells of the console.
pub const REGISTER_COUNT: usize = 16;

/// The 8-bit registers, internal scratch ones included.
#[derive(Debug, Clone, Copy, PartialEq, Eq, Structural, Hash)]
pub enum I8080RegisterCode {
    Acc,
    Flag,
    B,
    C,
    D,
    E,
    H,
    L,
    Tmp,
    Inst,
    PcH,
    PcL,
    SpH,
    SpL,
    W,
    Z,
}

impl I8080RegisterCode {
    /// The slot of the register in the register file.
    pub open spec fn slot(self) -> int {
        match self {
            I8080RegisterCode::Acc => 0,
            I8080RegisterCode::Flag => 1,
            I8080RegisterCode::B => 2,
            I8080RegisterCode::C => 3,
            I8080RegisterCode::D => 4,
            I8080RegisterCode::E => 5,
            I8080RegisterCode::H => 6,
            I8080RegisterCode::L => 7,
            I8080RegisterCode::Tmp => 8,
            I8080RegisterCode::Inst => 9,
            I8080RegisterCode::PcH => 10,
            I8080RegisterCode::PcL => 11,
            I8080RegisterCode::SpH => 12,
            I8080RegisterCode::SpL => 13,
            I8080RegisterCode::W => 14,
            I8080RegisterCode::Z => 15,
        }
    }

    pub fn index(self) -> (r: usize)
        ensures
            r as int == self.slot(),
            r < REGISTER_COUNT,
    {
        match self {
            I8080RegisterCode::Acc => 0,
            I8080RegisterCode::Flag => 1,
            I8080RegisterCode::B => 2,
            I8080RegisterCode::C => 3,
            I8080RegisterCode::D => 4,
            I8080RegisterCode::E => 5,
            I8080RegisterCode::H => 6,
            I8080RegisterCode::L => 7,
            I8080RegisterCode::Tmp => 8,
            I8080RegisterCode::Inst => 9,
            I8080RegisterCode::PcH => 10,
            I8080RegisterCode::PcL => 11,
            I8080RegisterCode::SpH => 12,
            I8080RegisterCode::SpL => 13,
            I8080RegisterCode::W => 14,
            I8080RegisterCode::Z => 15,
        }
    }

    /// Whether the register belongs to one of the pairs PSW, BC, DE, HL, WZ.
    pub open spec fn has_pair(self) -> bool {
        match self {
            I8080RegisterCode::Acc | I8080RegisterCode::Flag | I8080RegisterCode::B
            | I8080RegisterCode::C | I8080RegisterCode::D | I8080RegisterCode::E
            | I8080RegisterCode::W | I8080RegisterCode::Z | I8080RegisterCode::H
            | I8080RegisterCode::L => true,
            _ => false,
        }
    }

    /// The pair that this register belongs to, high register first.
    pub open spec fn pair_members(self) -> (I8080RegisterCode, I8080RegisterCode) {
        match self {
            I8080RegisterCode::Acc | I8080RegisterCode::Flag => (
                I8080RegisterCode::Acc,
                I8080RegisterCode::Flag,
            ),
            I8080RegisterCode::B | I8080RegisterCode::C => (I8080RegisterCode::B, I8080RegisterCode::C),
            I8080RegisterCode::D | I8080RegisterCode::E => (I8080RegisterCode::D, I8080RegisterCode::E),
            I8080RegisterCode::W | I8080RegisterCode::Z => (I8080RegisterCode::W, I8080RegisterCode::Z),
            _ => (I8080RegisterCode::H, I8080RegisterCode::L),
        }
    }

    /// The pair, high register first, that this register belongs to.
    pub fn pair(self) -> (r: [Self; 2])
        requires
            self.has_pair(),
        ensures
            (r[0], r[1]) == self.pair_members(),
    {
        match self {
            I8080RegisterCode::Acc | I8080RegisterCode::Flag => [
                I8080RegisterCode::Acc,
                I8080RegisterCode::Flag,
            ],
            I8080RegisterCode::B | I8080RegisterCode::C => [
                I8080RegisterCode::B,
                I8080RegisterCode::C,
            ],
            I8080RegisterCode::D | I8080RegisterCode::E => [
                I8080RegisterCode::D,
                I8080RegisterCode::E,
            ],
            I8080RegisterCode::W | I8080RegisterCode::Z => [
                I8080RegisterCode::W,
                I8080RegisterCode::Z,
            ],
            _ => [I8080RegisterCode::H, I8080RegisterCode::L],
        }
    }
}

/// The 16-bit register pairs.
#[derive(Debug, Clone, Copy, PartialEq, Eq, Structural, Hash)]
pub enum I8080RegisterCode16 {
    PSW,
    BC,
    DE,
    HL,
    SP,
    PC,
    WZ,
}

impl I8080RegisterCode16 {
    /// The register holding the high byte of the pair.
    pub open spec fn high(self) -> I8080RegisterCode {
        match self {
            I8080RegisterCode16::PSW => I8080RegisterCode::Acc,
            I8080RegisterCode16::BC => I8080RegisterCode::B,
            I8080RegisterCode16::DE => I8080RegisterCode::D,
            I8080RegisterCode16::HL => I8080RegisterCode::H,
            I8080RegisterCode16::SP => I8080RegisterCode::SpH,
            I8080RegisterCode16::PC => I8080RegisterCode::PcH,
            I8080RegisterCode16::WZ => I8080RegisterCode::W,
        }
    }

    /// The register holding the low byte of the pair.
    pub open spec fn low(self) -> I8080RegisterCode {
        match self {
            I8080RegisterCode16::PSW => I8080RegisterCode::Flag,
            I8080RegisterCode16::BC => I8080RegisterCode::C,
            I8080RegisterCode16::DE => I8080RegisterCode::E,
            I8080RegisterCode16::HL => I8080RegisterCode::L,
            I8080RegisterCode16::SP => I8080RegisterCode::SpL,
            I8080RegisterCode16::PC => I8080RegisterCode::PcL,
            I8080RegisterCode16::WZ => I8080RegisterCode::Z,
        }
    }

    /// The pair's registers, high first.
    pub fn split(self) -> (r: [I8080RegisterCode; 2])
        ensures
            r[0] == self.high(),
            r[1] == self.low(),
    {
        match self {
            I8080RegisterCode16::PSW => [I8080RegisterCode::Acc, I8080RegisterCode::Flag],
            I8080RegisterCode16::BC => [I8080RegisterCode::B, I8080RegisterCode::C],
            I8080RegisterCode16::DE => [I8080RegisterCode::D, I8080RegisterCode::E],
            I8080RegisterCode16::HL => [I8080RegisterCode::H, I8080RegisterCode::L],
            I8080RegisterCode16::SP => [I8080RegisterCode::SpH, I8080RegisterCode::SpL],
            I8080RegisterCode16::PC => [I8080RegisterCode::PcH, I8080RegisterCode::PcL],
            I8080RegisterCode16::WZ => [I8080RegisterCode::W, I8080RegisterCode::Z],
        }
    }
}

/// The word after `w`, wrapping.
pub open spec fn inc16(w: u16) -> u16 {
    ((w as int + 1) % 0x10000) as u16
}

/// The word before `w`, wrapping.
pub open spec fn dec16(w: u16) -> u16 {
    ((w as int + 0xFFFF) % 0x10000) as u16
}

/// The whole state of a console: buses, memory, register file and the halt
/// latch.
pub ghost struct ConsoleState {
    pub data_bus: u8,
    pub address_bus: u16,
    pub memory: Seq<u8>,
    pub regs: Seq<u8>,
    pub halted: bool,
}

impl ConsoleState {
    pub open spec fn wf(self) -> bool {
        &&& self.regs.len() == REGISTER_COUNT
        &&& self.memory.len() == MEMORY_SIZE
    }

    pub open spec fn reg(self, c: I8080RegisterCode) -> u8 {
        self.regs[c.slot()]
    }

    pub open spec fn reg16(self, p: I8080RegisterCode16) -> u16 {
        word_of(self.reg(p.high()), self.reg(p.low()))
    }

    pub open spec fn mem(self, a: u16) -> u8 {
        self.memory[a as int]
    }

    pub open spec fn with_reg(self, c: I8080RegisterCode, v: u8) -> ConsoleState {
        ConsoleState { regs: self.regs.update(c.slot(), v), ..self }
    }

    pub open spec fn with_reg16(self, p: I8080RegisterCode16, w: u16) -> ConsoleState {
        self.with_reg(p.high(), high_of(w)).with_reg(p.low(), low_of(w))
    }

    pub open spec fn with_data(self, v: u8) -> ConsoleState {
        ConsoleState { data_bus: v, ..self }
    }

    pub open spec fn with_address(self, a: u16) -> ConsoleState {
        ConsoleState { address_bus: a, ..self }
    }

    pub open spec fn with_halted(self, h: bool) -> ConsoleState {
        ConsoleState { halted: h, ..self }
    }

    /// The register's byte put on the data bus.
    pub open spec fn reg_to_data(self, c: I8080RegisterCode) -> ConsoleState {
        self.with_data(self.reg(c))
    }

    /// The data bus's byte loaded into the register.
    pub open spec fn data_to_reg(self, c: I8080RegisterCode) -> ConsoleState {
        self.with_reg(c, self.data_bus)
    }

    /// The pair's word put on the address bus.
    pub open spec fn reg16_to_address(self, p: I8080RegisterCode16) -> ConsoleState {
        self.with_address(self.reg16(p))
    }

    /// The data bus's byte written to memory at the address bus.
    pub open spec fn stored(self) -> ConsoleState {
        ConsoleState { memory: self.memory.update(self.address_bus as int, self.data_bus), ..self }
    }

    /// The byte of memory at the address bus put on the data bus.
    pub open spec fn fetched(self) -> ConsoleState {
        self.with_data(self.mem(self.address_bus))
    }

    pub open spec fn incremented(self, p: I8080RegisterCode16) -> ConsoleState {
        self.with_reg16(p, inc16(self.reg16(p)))
    }

    pub open spec fn decremented(self, p: I8080RegisterCode16) -> ConsoleState {
        self.with_reg16(p, dec16(self.reg16(p)))
    }

    /// The byte at PC on the data bus, PC past it.
    pub open spec fn next_byte(self) -> ConsoleState {
        self.reg16_to_address(I8080RegisterCode16::PC).fetched().incremented(I8080RegisterCode16::PC)
    }
}

/// A console: an 8080 processor with its buses and 64 KiB of memory.
#[derive(Debug)]
pub struct I8080Console {
    data_bus: u8,
    address_bus: u16,
    memory: RamB8A16,
    regs: Vec<u8>,
    halted: bool,
}

impl View for I8080Console {
    type V = ConsoleState;

    closed spec fn view(&self) -> ConsoleState {
        ConsoleState {
            data_bus: self.data_bus,
            address_bus: self.address_bus,
            memory: self.memory.cells(),
            regs: self.regs@,
            halted: self.halted,
        }
    }
}

impl Default for I8080Console {
    fn default() -> (r: Self)
        ensures
            r@.wf(),
            r@.memory == Seq::new(MEMORY_SIZE as nat, |i: int| 0u8),
            r@.regs == Seq::new(REGISTER_COUNT as nat, |i: int| 0u8),
            r@.data_bus == 0,
            r@.address_bus == 0,
            !r@.halted,
    {
        Self::new()
    }
}

impl I8080Console {
    /// A console with zeroed memory and registers.
    pub fn new() -> (r: Self)
        ensures
            r@.wf(),
            r@.memory == Seq::new(MEMORY_SIZE as nat, |i: int| 0u8),
            r@.regs == Seq::new(REGISTER_COUNT as nat, |i: int| 0u8),
            r@.data_bus == 0,
            r@.address_bus == 0,
            !r@.halted,
    {
        Self::with_memory(RamB8A16::new())
    }

    /// A console with zeroed registers over the given memory.
    pub fn with_memory(memory: RamB8A16) -> (r: Self)
        requires
            memory.cells().len() == MEMORY_SIZE,
        ensures
            r@.wf(),
            r@.memory == memory.cells(),
            r@.regs == Seq::new(REGISTER_COUNT as nat, |i: int| 0u8),
            r@.data_bus == 0,
            r@.address_bus == 0,
            !r@.halted,
    {
        let regs = vec![0u8; REGISTER_COUNT];
        assert(regs@ =~= Seq::new(REGISTER_COUNT as nat, |i: int| 0u8));
        I8080Console { data_bus: 0, address_bus: 0, memory, regs, halted: false }
    }

    /// Copies a program into memory from address 0 on.
    pub fn flash(&mut self, data: &[u8])
        requires
            old(self)@.wf(),
        ensures
            final(self)@ == (ConsoleState {
                memory: crate::memory::flashed(old(self)@.memory, data@, 0),
                ..old(self)@
            }),
            final(self)@.wf(),
    {
        self.memory.flash(data, 0);
    }

    /// The byte of memory at `address`.
    pub fn memory_at(&self, address: u16) -> (r: u8)
        requires
            self@.wf(),
        ensures
            r == self@.mem(address),
    {
        self.memory.read(address)
    }

    pub fn is_halted(&self) -> (r: bool)
        ensures
            r == self@.halted,
    {
        self.halted
    }

    /// The register's byte.
    pub fn code_reg_as_u8(&self, code: I8080RegisterCode) -> (r: u8)
        requires
            self@.wf(),
        ensures
            r == self@.reg(code),
    {
        self.regs[code.index()]
    }

    /// The pair's big-endian word.
    pub fn code_reg16_as_u16(&self, code: I8080RegisterCode16) -> (r: u16)
        requires
            self@.wf(),
        ensures
            r == self@.reg16(code),
    {
        let hl = code.split();
        let (h, l) = (hl[0], hl[1]);
        self.code_reg_as_u8(h) as u16 * 256 + self.code_reg_as_u8(l) as u16
    }

    /// The register's cell, for reading or writing in place.
    pub fn code_reg_mut(&mut self, code: I8080RegisterCode) -> (r: &mut u8)
        requires
            old(self)@.wf(),
        ensures
            *r == old(self)@.reg(code),
            final(self)@ == old(self)@.with_reg(code, *final(r)),
    {
        let i = code.index();
        &mut self.regs[i]
    }

    fn set_reg(&mut self, code: I8080RegisterCode, v: u8)
        requires
            old(self)@.wf(),
        ensures
            final(self)@ == old(self)@.with_reg(code, v),
    {
        self.regs.set(code.index(), v);
    }

    fn set_reg16(&mut self, code: I8080RegisterCode16, w: u16)
        requires
            old(self)@.wf(),
        ensures
            final(self)@ == old(self)@.with_reg16(code, w),
    {
        let hl = code.split();
        let (h, l) = (hl[0], hl[1]);
        self.set_reg(h, (w / 256) as u8);
        self.set_reg(l, (w % 256) as u8);
    }

    /// Puts the register's byte on the data bus.
    pub fn read_to_data(&mut self, code: I8080RegisterCode)
        requires
            old(self)@.wf(),
        ensures
            final(self)@ == old(self)@.reg_to_data(code),
    {
        self.data_bus = self.code_reg_as_u8(code);
    }

    /// Loads the data bus's byte into the register.
    pub fn load_from_data(&mut self, code: I8080RegisterCode)
        requires
            old(self)@.wf(),
        ensures
            final(self)@ == old(self)@.data_to_reg(code),
    {
        let d = self.data_bus;
        self.set_reg(code, d);
    }

    /// Puts the pair's word on the address bus.
    pub fn code_reg16_read_to_address(&mut self, code: I8080RegisterCode16)
        requires
            old(self)@.wf(),
        ensures
            final(self)@ == old(self)@.reg16_to_address(code),
    {
        self.address_bus = self.code_reg16_as_u16(code);
    }

    /// Adds one to the pair, wrapping.
    pub fn reg16_increment(&mut self, code: I8080RegisterCode16)
        requires
            old(self)@.wf(),
        ensures
            final(self)@ == old(self)@.incremented(code),
    {
        let w = self.code_reg16_as_u16(code);
        self.set_reg16(code, w.wrapping_add(1));
    }

    /// Subtracts one from the pair, wrapping.
    pub fn reg16_decrement(&mut self, code: I8080RegisterCode16)
        requires
            old(self)@.wf(),
        ensures
            final(self)@ == old(self)@.decremented(code),
    {
        let w = self.code_reg16_as_u16(code);
        self.set_reg16(code, w.wrapping_sub(1));
    }

    /// Reads the byte at PC onto the data bus and moves PC past it.
    pub fn fetch_instruction(&mut self)
        requires
            old(self)@.wf(),
        ensures
            final(self)@ == old(self)@.next_byte(),
    {
        self.code_reg16_read_to_address(I8080RegisterCode16::PC);
        self.fetch();
        self.reg16_increment(I8080RegisterCode16::PC);
    }
}

/// A processor that can fetch data from its memory and make it store data.
pub trait ProcMemory: Sized {
    spec fn ready(&self) -> bool;

    /// `after` is `before` once the data bus was written at the address bus.
    spec fn stores(before: Self, after: Self) -> bool;

    /// `after` is `before` once the byte at the address bus was put on the data bus.
    spec fn fetches(before: Self, after: Self) -> bool;

    fn store(&mut self)
        requires
            old(self).ready(),
        ensures
            final(self).ready(),
            Self::stores(*old(self), *final(self)),
    ;

    fn fetch(&mut self)
        requires
            old(self).ready(),
        ensures
            final(self).ready(),
            Self::fetches(*old(self), *final(self)),
    ;
}

impl ProcMemory for I8080Console {
    open spec fn ready(&self) -> bool {
        self@.wf()
    }

    open spec fn stores(before: Self, after: Self) -> bool {
        after@ == before@.stored()
    }

    open spec fn fetches(before: Self, after: Self) -> bool {
        after@ == before@.fetched()
    }

    fn store(&mut self) {
        let (a, d) = (self.address_bus, self.data_bus);
        self.memory.write(a, d);
    }

    fn fetch(&mut self) {
        self.data_bus = self.memory.read(self.address_bus);
    }
}

/// A processor that reads its program: the byte at PC onto the data bus, PC
/// moved past it.
pub trait ProcInstructionFetch: Sized {
    spec fn fetch_ready(&self) -> bool;

    /// `after` is `before` with the byte at PC on the data bus and PC past it.
    spec fn fetches_instruction(before: Self, after: Self) -> bool;

    fn fetch_instruction(&mut self)
        requires
            old(self).fetch_ready(),
        ensures
            final(self).fetch_ready(),
            Self::fetches_instruction(*old(self), *final(self)),
    ;
}

/// A processor that reads immediate operands from its program.
pub trait ProcImmediateValue: ProcInstructionFetch {
    /// An immediate operand is the next program byte.
    fn fetch_immediate_value(&mut self)
        requires
            old(self).fetch_ready(),
        ensures
            final(self).fetch_ready(),
            Self::fetches_instruction(*old(self), *final(self)),
    {
        self.fetch_instruction();
    }
}

impl ProcInstructionFetch for I8080Console {
    open spec fn fetch_ready(&self) -> bool {
        self@.wf()
    }

    open spec fn fetches_instruction(before: Self, after: Self) -> bool {
        after@ == before@.next_byte()
    }

    fn fetch_instruction(&mut self) {
        I8080Console::fetch_instruction(self);
    }
}

impl ProcImmediateValue for I8080Console {
}

impl DataBus for I8080Console {
    type Data = u8;

    open spec fn data(&self) -> u8 {
        self@.data_bus
    }

    open spec fn drives_data(before: Self, after: Self, data: u8) -> bool {
        after@ == before@.with_data(data)
    }

    fn set_data(&mut self, data: u8) {
        self.data_bus = data;
    }

    fn get_data(&self) -> (r: u8) {
        self.data_bus
    }
}

impl AddressBus for I8080Console {
    type Address = u16;

    open spec fn address(&self) -> u16 {
        self@.address_bus
    }

    open spec fn drives_address(before: Self, after: Self, address: u16) -> bool {
        after@ == before@.with_address(address)
    }

    fn set_address(&mut self, address: u16) {
        self.address_bus = address;
    }

    fn get_address(&self) -> (r: u16) {
        self.address_bus
    }
}

/// The bit of the flag register that holds `f`.
pub open spec fn flag_mask(f: StatusFlag) -> u8 {
    match f {
        StatusFlag::Zero => 64,
        StatusFlag::Sign => 128,
        StatusFlag::Parity => 4,
        StatusFlag::Carry => 1,
        StatusFlag::AuxiliaryCarry => 16,
    }
}

/// The flag register byte of a flag set, laid out `S Z 0 A 0 P 1 C`.
pub open spec fn scramble(s: StatusFlagSet) -> u8 {
    (2 + (if s.sign { 128int } else { 0 }) + (if s.zero { 64int } else { 0 }) + (if s.auxiliary_carry {
        16int
    } else {
        0
    }) + (if s.parity { 4int } else { 0 }) + (if s.carry { 1int } else { 0 })) as u8
}

/// The flags whose bits are set in a flag register byte.
pub open spec fn collect(b: u8) -> StatusFlagSet {
    StatusFlagSet {
        zero: b & 64 != 0,
        sign: b & 128 != 0,
        parity: b & 4 != 0,
        carry: b & 1 != 0,
        auxiliary_carry: b & 16 != 0,
    }
}

/// What loading `v` through `mask` leaves in a register holding `old`.
pub open spec fn masked_load(old: u8, mask: u8, v: u8) -> u8 {
    (v & mask) | (old & !mask)
}

/// Decoding a flag register byte of the form `(x | 2) & !0x28` (bit 1 set,
/// bits 3 and 5 clear) and encoding the flags again gives the same byte.
pub proof fn lemma_scramble_collect(x: u8)
    ensures
        scramble(collect((x | 2) & !0x28u8)) == (x | 2) & !0x28u8,
{
    let b = (x | 2) & !0x28u8;
    assert(b == 2 + (if b & 128 != 0 { 128u8 } else { 0 }) + (if b & 64 != 0 { 64u8 } else { 0 }) + (
    if b & 16 != 0 {
        16u8
    } else {
        0
    }) + (if b & 4 != 0 { 4u8 } else { 0 }) + (if b & 1 != 0 { 1u8 } else { 0 })) by (bit_vector)
        requires
            b == (x | 2) & !0x28u8,
    ;
}

/// Every encoded flag set has bit 1 set and bits 3 and 5 clear.
pub proof fn lemma_scramble_layout(s: StatusFlagSet)
    ensures
        scramble(s) & 0x2A == 2,
{
    let (a, b, c, d, e) = (s.sign, s.zero, s.auxiliary_carry, s.parity, s.carry);
    let v = scramble(s);
    assert(v == 2 + (if a { 128u8 } else { 0 }) + (if b { 64u8 } else { 0 }) + (if c { 16u8 } else {
        0
    }) + (if d { 4u8 } else { 0 }) + (if e { 1u8 } else { 0 }));
    assert(v & 0x2A == 2) by (bit_vector)
        requires
            v == 2 + (if a { 128u8 } else { 0 }) + (if b { 64u8 } else { 0 }) + (if c { 16u8 } else {
                0
            }) + (if d { 4u8 } else { 0 }) + (if e { 1u8 } else { 0 }),
    ;
}

/// The operations the processor asks of its ALU.
#[derive(Debug, Clone, Copy, PartialEq, Eq, Structural)]
pub enum I8080AluCode {
    Add,
    AddCarried,
    Sub,
    SubBorrowed,
    Increment,
    Decrement,
    DecimalAdjust,
    LogicAnd,
    LogicOr,
    LogicXor,
    RotateLeft,
    RotateRight,
    RotateLeftThroughCarry,
    RotateRightThroughCarry,
    ComplementAcc,
}

/// One of the ALU variants, chosen at run time.
#[derive(Debug, Clone, Copy, PartialEq, Eq, Structural)]
pub enum AluUnit {
    Add(Adder),
    IncDec(IncDecOperator),
    Logic(LogicalOperator),
    Rotate(Rotator),
    Decimal(DecimalAdjuster),
}

impl ALU for AluUnit {
    open spec fn spec_op(&self, lhs: u8, rhs: u8) -> (u8, StatusFlagSet) {
        match *self {
            AluUnit::Add(a) => a.spec_op(lhs, rhs),
            AluUnit::IncDec(a) => a.spec_op(lhs, rhs),
            AluUnit::Logic(a) => a.spec_op(lhs, rhs),
            AluUnit::Rotate(a) => a.spec_op(lhs, rhs),
            AluUnit::Decimal(a) => a.spec_op(lhs, rhs),
        }
    }

    fn op(&self, lhs: u8, rhs: u8) -> (r: (u8, StatusFlagSet)) {
        match self {
            AluUnit::Add(a) => a.op(lhs, rhs),
            AluUnit::IncDec(a) => a.op(lhs, rhs),
            AluUnit::Logic(a) => a.op(lhs, rhs),
            AluUnit::Rotate(a) => a.op(lhs, rhs),
            AluUnit::Decimal(a) => a.op(lhs, rhs),
        }
    }
}

/// The ALU that carries out `code` when the flag register holds `flags`.
pub open spec fn alu_for(code: I8080AluCode, flags: StatusFlagSet) -> AluUnit {
    match code {
        I8080AluCode::Add => AluUnit::Add(Adder { neg: false, cin: false }),
        I8080AluCode::AddCarried => AluUnit::Add(Adder { neg: false, cin: flags.carry }),
        I8080AluCode::Sub => AluUnit::Add(Adder { neg: true, cin: true }),
        I8080AluCode::SubBorrowed => AluUnit::Add(Adder { neg: true, cin: !flags.carry }),
        I8080AluCode::Increment => AluUnit::IncDec(IncDecOperator::Increase),
        I8080AluCode::Decrement => AluUnit::IncDec(IncDecOperator::Decrease),
        I8080AluCode::DecimalAdjust => AluUnit::Decimal(
            DecimalAdjuster { carry: flags.carry, auxiliary: flags.auxiliary_carry },
        ),
        I8080AluCode::LogicAnd => AluUnit::Logic(LogicalOperator::And),
        I8080AluCode::LogicOr => AluUnit::Logic(LogicalOperator::Or),
        I8080AluCode::LogicXor => AluUnit::Logic(LogicalOperator::Xor),
        I8080AluCode::RotateLeft => AluUnit::Rotate(
            Rotator { carry: false, through_carry: false, rotate_right: false },
        ),
        I8080AluCode::RotateRight => AluUnit::Rotate(
            Rotator { carry: false, through_carry: false, rotate_right: true },
        ),
        I8080AluCode::RotateLeftThroughCarry => AluUnit::Rotate(
            Rotator { carry: flags.carry, through_carry: true, rotate_right: false },
        ),
        I8080AluCode::RotateRightThroughCarry => AluUnit::Rotate(
            Rotator { carry: flags.carry, through_carry: true, rotate_right: true },
        ),
        I8080AluCode::ComplementAcc => AluUnit::Logic(LogicalOperator::Not),
    }
}

/// Branch conditions.
#[derive(Debug, Clone, Copy, PartialEq, Eq, Structural)]
pub enum I8080JumpCondition {
    Anytime,
    OnNonZero,
    OnZero,
    OnNonCarry,
    OnCarry,
    OnParityOdd,
    OnParityEven,
    OnPlus,
    OnMinus,
}

/// The flag a condition tests and the value it asks of it.
pub open spec fn condition_flag(cond: I8080JumpCondition) -> (StatusFlag, bool) {
    match cond {
        I8080JumpCondition::OnNonZero => (StatusFlag::Zero, false),
        I8080JumpCondition::OnZero => (StatusFlag::Zero, true),
        I8080JumpCondition::OnNonCarry => (StatusFlag::Carry, false),
        I8080JumpCondition::OnCarry => (StatusFlag::Carry, true),
        I8080JumpCondition::OnParityOdd => (StatusFlag::Parity, false),
        I8080JumpCondition::OnParityEven => (StatusFlag::Parity, true),
        I8080JumpCondition::OnPlus => (StatusFlag::Sign, false),
        _ => (StatusFlag::Sign, true),
    }
}

impl ConsoleState {
    /// The flags that the flag register holds.
    pub open spec fn flags(self) -> StatusFlagSet {
        collect(self.reg(I8080RegisterCode::Flag))
    }

    pub open spec fn satisfies(self, cond: I8080JumpCondition) -> bool {
        cond == I8080JumpCondition::Anytime || self.flags().has(condition_flag(cond).0)
            == condition_flag(cond).1
    }

    /// Register `dst` loaded from `src` through the data bus.
    pub open spec fn reg_copied(self, dst: I8080RegisterCode, src: I8080RegisterCode) -> ConsoleState {
        self.reg_to_data(src).data_to_reg(dst)
    }

    /// Pair `dst` loaded from pair `src`, high byte first.
    pub open spec fn copied(self, dst: I8080RegisterCode16, src: I8080RegisterCode16) -> ConsoleState {
        self.reg_copied(dst.high(), src.high()).reg_copied(dst.low(), src.low())
    }

    /// A two-byte operand at PC in WZ, low byte first.
    pub open spec fn operand_in_wz(self) -> ConsoleState {
        self.next_byte().data_to_reg(I8080RegisterCode::Z).next_byte().data_to_reg(
            I8080RegisterCode::W,
        )
    }

    /// The pair's high then low byte stored below SP, SP lowered by two.
    pub open spec fn pushed(self, p: I8080RegisterCode16) -> ConsoleState {
        self.decremented(I8080RegisterCode16::SP).reg_to_data(p.high()).reg16_to_address(
            I8080RegisterCode16::SP,
        ).stored().decremented(I8080RegisterCode16::SP).reg_to_data(p.low()).reg16_to_address(
            I8080RegisterCode16::SP,
        ).stored()
    }

    /// The pair's low then high byte loaded from SP on, SP raised by two.
    pub open spec fn popped(self, p: I8080RegisterCode16) -> ConsoleState {
        self.reg16_to_address(I8080RegisterCode16::SP).fetched().data_to_reg(p.low()).incremented(
            I8080RegisterCode16::SP,
        ).reg16_to_address(I8080RegisterCode16::SP).fetched().data_to_reg(p.high()).incremented(
            I8080RegisterCode16::SP,
        )
    }

    /// The ALU applied to the accumulator and Tmp: the result on the data bus,
    /// the flags in the flag register.
    pub open spec fn alu_applied(self, code: I8080AluCode) -> ConsoleState {
        let r = alu_for(code, self.flags()).spec_op(
            self.reg(I8080RegisterCode::Acc),
            self.reg(I8080RegisterCode::Tmp),
        );
        self.with_data(r.0).with_reg(I8080RegisterCode::Flag, scramble(r.1))
    }

    /// The flag register loaded with `v` through the mask of `f`.
    pub open spec fn flag_loaded(self, f: StatusFlag, v: u8) -> ConsoleState {
        self.with_reg(
            I8080RegisterCode::Flag,
            masked_load(self.reg(I8080RegisterCode::Flag), flag_mask(f), v),
        )
    }
}

impl I8080Console {
    /// The mask of `flag` in the flag register.
    pub fn flag_decode(flag: StatusFlag) -> (r: u8)
        ensures
            r == flag_mask(flag),
    {
        match flag {
            StatusFlag::Zero => 64,
            StatusFlag::Sign => 128,
            StatusFlag::Parity => 4,
            StatusFlag::Carry => 1,
            StatusFlag::AuxiliaryCarry => 16,
        }
    }

    /// Encodes a flag set as the flag register byte.
    pub fn flag_scramble(status: StatusFlagSet) -> (r: u8)
        ensures
            r == scramble(status),
    {
        let mut acc: u8 = 2;
        if status.sign {
            acc = acc + Self::flag_decode(StatusFlag::Sign);
        }
        if status.zero {
            acc = acc + Self::flag_decode(StatusFlag::Zero);
        }
        if status.auxiliary_carry {
            acc = acc + Self::flag_decode(StatusFlag::AuxiliaryCarry);
        }
        if status.parity {
            acc = acc + Self::flag_decode(StatusFlag::Parity);
        }
        if status.carry {
            acc = acc + Self::flag_decode(StatusFlag::Carry);
        }
        acc
    }

    /// Decodes a flag register byte into a flag set.
    pub fn flag_collect(flags: u8) -> (r: StatusFlagSet)
        ensures
            r == collect(flags),
    {
        StatusFlagSet {
            zero: flags & Self::flag_decode(StatusFlag::Zero) != 0,
            sign: flags & Self::flag_decode(StatusFlag::Sign) != 0,
            parity: flags & Self::flag_decode(StatusFlag::Parity) != 0,
            carry: flags & Self::flag_decode(StatusFlag::Carry) != 0,
            auxiliary_carry: flags & Self::flag_decode(StatusFlag::AuxiliaryCarry) != 0,
        }
    }

    fn flag_status(&self) -> (r: StatusFlagSet)
        requires
            self@.wf(),
        ensures
            r == self@.flags(),
    {
        Self::flag_collect(self.code_reg_as_u8(I8080RegisterCode::Flag))
    }

    fn alu_from_code(&self, code: I8080AluCode) -> (r: AluUnit)
        requires
            self@.wf(),
        ensures
            r == alu_for(code, self@.flags()),
    {
        let carry = self.flag_status().contains(StatusFlag::Carry);
        match code {
            I8080AluCode::Add => AluUnit::Add(Adder::adder()),
            I8080AluCode::AddCarried => {
                if carry {
                    AluUnit::Add(Adder::carried_adder())
                } else {
                    AluUnit::Add(Adder::adder())
                }
            },
            I8080AluCode::Sub => AluUnit::Add(Adder::subber()),
            I8080AluCode::SubBorrowed => {
                if carry {
                    AluUnit::Add(Adder::borrowed_subber())
                } else {
                    AluUnit::Add(Adder::subber())
                }
            },
            I8080AluCode::Increment => AluUnit::IncDec(IncDecOperator::Increase),
            I8080AluCode::Decrement => AluUnit::IncDec(IncDecOperator::Decrease),
            I8080AluCode::DecimalAdjust => AluUnit::Decimal(
                DecimalAdjuster::from_status(self.flag_status()),
            ),
            I8080AluCode::LogicAnd => AluUnit::Logic(LogicalOperator::And),
            I8080AluCode::LogicOr => AluUnit::Logic(LogicalOperator::Or),
            I8080AluCode::LogicXor => AluUnit::Logic(LogicalOperator::Xor),
            I8080AluCode::RotateLeft => AluUnit::Rotate(Rotator::rotate_left()),
            I8080AluCode::RotateRight => AluUnit::Rotate(Rotator::rotate_right()),
            I8080AluCode::RotateLeftThroughCarry => AluUnit::Rotate(
                Rotator::rotate_left().through_carry().carried(carry),
            ),
            I8080AluCode::RotateRightThroughCarry => AluUnit::Rotate(
                Rotator::rotate_right().through_carry().carried(carry),
            ),
            I8080AluCode::ComplementAcc => AluUnit::Logic(LogicalOperator::Not),
        }
    }

    fn alu_op(&mut self, code: I8080AluCode)
        requires
            old(self)@.wf(),
        ensures
            final(self)@ == old(self)@.alu_applied(code),
    {
        let alu = self.alu_from_code(code);
        let lhs = self.code_reg_as_u8(I8080RegisterCode::Acc);
        let rhs = self.code_reg_as_u8(I8080RegisterCode::Tmp);
        let (res, flag) = alu.op(lhs, rhs);
        self.data_bus = res;
        self.set_reg(I8080RegisterCode::Flag, Self::flag_scramble(flag));
    }

    fn store_hl(&mut self)
        requires
            old(self)@.wf(),
        ensures
            final(self)@ == old(self)@.reg16_to_address(I8080RegisterCode16::HL).stored(),
    {
        self.code_reg16_read_to_address(I8080RegisterCode16::HL);
        self.store()
    }

    fn fetch_hl(&mut self)
        requires
            old(self)@.wf(),
        ensures
            final(self)@ == old(self)@.reg16_to_address(I8080RegisterCode16::HL).fetched(),
    {
        self.code_reg16_read_to_address(I8080RegisterCode16::HL);
        self.fetch()
    }

    fn fetch_operand_to_wz(&mut self)
        requires
            old(self)@.wf(),
        ensures
            final(self)@ == old(self)@.operand_in_wz(),
    {
        self.fetch_instruction();
        self.load_from_data(I8080RegisterCode::Z);
        self.fetch_instruction();
        self.load_from_data(I8080RegisterCode::W);
    }

    fn move_through_data(&mut self, dst: I8080RegisterCode, src: I8080RegisterCode)
        requires
            old(self)@.wf(),
        ensures
            final(self)@ == old(self)@.reg_copied(dst, src),
    {
        self.read_to_data(src);
        self.load_from_data(dst);
    }

    fn load_reg16_from_reg16(&mut self, dst: I8080RegisterCode16, src: I8080RegisterCode16)
        requires
            old(self)@.wf(),
        ensures
            final(self)@ == old(self)@.copied(dst, src),
    {
        let d = dst.split();
        let s = src.split();
        self.move_through_data(d[0], s[0]);
        self.move_through_data(d[1], s[1]);
    }

    /// MOV r, r: through Tmp.
    pub fn move_reg_to_reg(&mut self, dst: I8080RegisterCode, src: I8080RegisterCode)
        requires
            old(self)@.wf(),
        ensures
            final(self)@ == old(self)@.reg_copied(I8080RegisterCode::Tmp, src).reg_copied(
                dst,
                I8080RegisterCode::Tmp,
            ),
    {
        self.move_through_data(I8080RegisterCode::Tmp, src);
        self.move_through_data(dst, I8080RegisterCode::Tmp);
    }

    /// MOV r, M.
    pub fn move_hl_mem_to_reg(&mut self, dst: I8080RegisterCode)
        requires
            old(self)@.wf(),
        ensures
            final(self)@ == old(self)@.reg16_to_address(I8080RegisterCode16::HL).fetched().data_to_reg(
                dst,
            ),
    {
        self.fetch_hl();
        self.load_from_data(dst);
    }

    /// MOV M, r: through Tmp.
    pub fn store_reg_to_hl_mem(&mut self, src: I8080RegisterCode)
        requires
            old(self)@.wf(),
        ensures
            final(self)@ == old(self)@.reg_copied(I8080RegisterCode::Tmp, src).reg_to_data(
                I8080RegisterCode::Tmp,
            ).reg16_to_address(I8080RegisterCode16::HL).stored(),
    {
        self.move_through_data(I8080RegisterCode::Tmp, src);
        self.read_to_data(I8080RegisterCode::Tmp);
        self.store_hl();
    }

    /// MVI r, byte.
    pub fn move_reg_immediate(&mut self, dst: I8080RegisterCode)
        requires
            old(self)@.wf(),
        ensures
            final(self)@ == old(self)@.next_byte().data_to_reg(dst),
    {
        self.fetch_instruction();
        self.load_from_data(dst);
    }

    /// MVI M, byte: through Tmp.
    pub fn store_hl_immediate(&mut self)
        requires
            old(self)@.wf(),
        ensures
            final(self)@ == old(self)@.next_byte().data_to_reg(I8080RegisterCode::Tmp).reg_to_data(
                I8080RegisterCode::Tmp,
            ).reg16_to_address(I8080RegisterCode16::HL).stored(),
    {
        self.fetch_instruction();
        self.load_from_data(I8080RegisterCode::Tmp);
        self.read_to_data(I8080RegisterCode::Tmp);
        self.store_hl();
    }

    /// SP loaded from HL.
    pub fn move_sp_from_hl(&mut self)
        requires
            old(self)@.wf(),
        ensures
            final(self)@ == old(self)@.copied(I8080RegisterCode16::SP, I8080RegisterCode16::HL),
    {
        self.load_reg16_from_reg16(I8080RegisterCode16::SP, I8080RegisterCode16::HL);
    }

    /// LXI rp, word: the first byte after the opcode goes to the high register.
    pub fn move_reg16_immediate(&mut self, dst: I8080RegisterCode16)
        requires
            old(self)@.wf(),
        ensures
            final(self)@ == old(self)@.next_byte().data_to_reg(dst.high()).next_byte().data_to_reg(
                dst.low(),
            ),
    {
        let hl = dst.split();
        self.fetch_instruction();
        self.load_from_data(hl[0]);
        self.fetch_instruction();
        self.load_from_data(hl[1]);
    }

    /// LDA addr (for the accumulator): the byte at a direct address.
    pub fn move_reg_direct(&mut self, dst: I8080RegisterCode)
        requires
            old(self)@.wf(),
        ensures
            final(self)@ == old(self)@.operand_in_wz().reg16_to_address(
                I8080RegisterCode16::WZ,
            ).fetched().data_to_reg(dst),
    {
        self.fetch_operand_to_wz();
        self.code_reg16_read_to_address(I8080RegisterCode16::WZ);
        self.fetch();
        self.load_from_data(dst);
    }

    /// STA addr (for the accumulator): the register stored at a direct address.
    pub fn store_reg_direct(&mut self, src: I8080RegisterCode)
        requires
            old(self)@.wf(),
        ensures
            final(self)@ == old(self)@.operand_in_wz().reg16_to_address(
                I8080RegisterCode16::WZ,
            ).reg_to_data(src).stored(),
    {
        self.fetch_operand_to_wz();
        self.code_reg16_read_to_address(I8080RegisterCode16::WZ);
        self.read_to_data(src);
        self.store();
    }

    /// LHLD addr (for HL): low register from the address, high from the next.
    pub fn move_reg16_direct(&mut self, dst: I8080RegisterCode16)
        requires
            old(self)@.wf(),
        ensures
            final(self)@ == old(self)@.operand_in_wz().reg16_to_address(
                I8080RegisterCode16::WZ,
            ).fetched().data_to_reg(dst.low()).incremented(I8080RegisterCode16::WZ).reg16_to_address(
                I8080RegisterCode16::WZ,
            ).fetched().data_to_reg(dst.high()),
    {
        let hl = dst.split();
        self.fetch_operand_to_wz();
        self.code_reg16_read_to_address(I8080RegisterCode16::WZ);
        self.fetch();
        self.load_from_data(hl[1]);
        self.reg16_increment(I8080RegisterCode16::WZ);
        self.code_reg16_read_to_address(I8080RegisterCode16::WZ);
        self.fetch();
        self.load_from_data(hl[0]);
    }

    /// SHLD addr (for HL): low register to the address, high to the next.
    pub fn store_reg16_direct(&mut self, src: I8080RegisterCode16)
        requires
            old(self)@.wf(),
        ensures
            final(self)@ == old(self)@.operand_in_wz().reg16_to_address(
                I8080RegisterCode16::WZ,
            ).reg_to_data(src.low()).stored().incremented(I8080RegisterCode16::WZ).reg16_to_address(
                I8080RegisterCode16::WZ,
            ).reg_to_data(src.high()).stored(),
    {
        let hl = src.split();
        self.fetch_operand_to_wz();
        self.code_reg16_read_to_address(I8080RegisterCode16::WZ);
        self.read_to_data(hl[1]);
        self.store();
        self.reg16_increment(I8080RegisterCode16::WZ);
        self.code_reg16_read_to_address(I8080RegisterCode16::WZ);
        self.read_to_data(hl[0]);
        self.store();
    }

    /// LDAX rp (for the accumulator): the byte at the address in a pair.
    pub fn move_indirect(&mut self, dst: I8080RegisterCode, src: I8080RegisterCode16)
        requires
            old(self)@.wf(),
        ensures
            final(self)@ == old(self)@.reg16_to_address(src).fetched().data_to_reg(dst),
    {
        self.code_reg16_read_to_address(src);
        self.fetch();
        self.load_from_data(dst);
    }

    /// STAX rp (for the accumulator): the register stored at the address in a pair.
    pub fn store_indirect(&mut self, dst: I8080RegisterCode, src: I8080RegisterCode16)
        requires
            old(self)@.wf(),
        ensures
            final(self)@ == old(self)@.reg_to_data(dst).reg16_to_address(src).stored(),
    {
        self.read_to_data(dst);
        self.code_reg16_read_to_address(src);
        self.store();
    }

    fn exchange8(&mut self, dst: I8080RegisterCode, src: I8080RegisterCode)
        requires
            old(self)@.wf(),
        ensures
            final(self)@ == old(self)@.with_reg(src, old(self)@.reg(dst)).with_reg(
                dst,
                old(self)@.reg(src),
            ),
    {
        let src_tmp = self.code_reg_as_u8(src);
        let dst_tmp = self.code_reg_as_u8(dst);
        self.set_reg(src, dst_tmp);
        self.set_reg(dst, src_tmp);
    }

    /// Swaps two pairs, register by register.
    pub fn exchange16(&mut self, dst: I8080RegisterCode16, src: I8080RegisterCode16)
        requires
            old(self)@.wf(),
        ensures
            ({
                let s1 = old(self)@.with_reg(src.high(), old(self)@.reg(dst.high())).with_reg(
                    dst.high(),
                    old(self)@.reg(src.high()),
                );
                final(self)@ == s1.with_reg(src.low(), s1.reg(dst.low())).with_reg(
                    dst.low(),
                    s1.reg(src.low()),
                )
            }),
    {
        let d = dst.split();
        let s = src.split();
        self.exchange8(d[0], s[0]);
        self.exchange8(d[1], s[1]);
    }
}

impl ConsoleState {
    /// MOV: `dst` loaded from `src` through Tmp.
    pub open spec fn moved(self, dst: I8080RegisterCode, src: I8080RegisterCode) -> ConsoleState {
        self.reg_copied(I8080RegisterCode::Tmp, src).reg_copied(dst, I8080RegisterCode::Tmp)
    }

    /// The byte at the address in HL loaded into Tmp.
    pub open spec fn hl_operand(self) -> ConsoleState {
        self.reg16_to_address(I8080RegisterCode16::HL).fetched().data_to_reg(I8080RegisterCode::Tmp)
    }

    /// The byte at PC loaded into Tmp, PC past it.
    pub open spec fn immediate_operand(self) -> ConsoleState {
        self.next_byte().data_to_reg(I8080RegisterCode::Tmp)
    }

    /// The ALU on the accumulator and register `rhs`, the result in the accumulator.
    pub open spec fn alu_reg(self, code: I8080AluCode, rhs: I8080RegisterCode) -> ConsoleState {
        self.reg_copied(I8080RegisterCode::Tmp, rhs).alu_applied(code).data_to_reg(
            I8080RegisterCode::Acc,
        )
    }

    /// The ALU on register `rhs`, the result back in `rhs`.
    pub open spec fn alu_reg_to_reg(self, code: I8080AluCode, rhs: I8080RegisterCode) -> ConsoleState {
        self.reg_copied(I8080RegisterCode::Tmp, rhs).alu_applied(code).data_to_reg(rhs)
    }

    /// The ALU on the accumulator and the byte at HL, the result in the accumulator.
    pub open spec fn alu_mem(self, code: I8080AluCode) -> ConsoleState {
        self.hl_operand().alu_applied(code).data_to_reg(I8080RegisterCode::Acc)
    }

    /// The ALU on the byte at HL, the result stored back there.
    pub open spec fn alu_mem_to_mem(self, code: I8080AluCode) -> ConsoleState {
        self.hl_operand().alu_applied(code).stored()
    }

    /// The ALU on the accumulator and the byte at PC, the result in the accumulator.
    pub open spec fn alu_immediate(self, code: I8080AluCode) -> ConsoleState {
        self.immediate_operand().alu_applied(code).data_to_reg(I8080RegisterCode::Acc)
    }

    /// DAD: the pair added to HL, Carry alone set to the carry out of bit 15.
    pub open spec fn added_to_hl(self, p: I8080RegisterCode16) -> ConsoleState {
        let sum: int = self.reg16(I8080RegisterCode16::HL) + self.reg16(p);
        self.flag_loaded(StatusFlag::Carry, if sum >= 0x10000 { 0xFF } else { 0 }).with_reg16(
            I8080RegisterCode16::HL,
            (sum % 0x10000) as u16,
        )
    }

    pub open spec fn jumped(self, cond: I8080JumpCondition) -> ConsoleState {
        let s = self.operand_in_wz();
        if s.satisfies(cond) {
            s.copied(I8080RegisterCode16::PC, I8080RegisterCode16::WZ)
        } else {
            s
        }
    }

    pub open spec fn called(self, cond: I8080JumpCondition) -> ConsoleState {
        let s = self.operand_in_wz();
        if s.satisfies(cond) {
            s.pushed(I8080RegisterCode16::PC).copied(I8080RegisterCode16::PC, I8080RegisterCode16::WZ)
        } else {
            s
        }
    }

    pub open spec fn returned(self, cond: I8080JumpCondition) -> ConsoleState {
        if self.satisfies(cond) {
            self.popped(I8080RegisterCode16::WZ).copied(I8080RegisterCode16::PC, I8080RegisterCode16::WZ)
        } else {
            self
        }
    }

    /// RST n: a call to `n * 8`.
    pub open spec fn restarted(self, n: u8) -> ConsoleState {
        self.with_data(0).data_to_reg(I8080RegisterCode::W).with_data((n * 8) as u8).data_to_reg(
            I8080RegisterCode::Z,
        ).pushed(I8080RegisterCode16::PC).copied(I8080RegisterCode16::PC, I8080RegisterCode16::WZ)
    }

    /// XTHL: L swapped with the byte at SP, H with the byte after it.
    pub open spec fn stack_top_exchanged(self) -> ConsoleState {
        self.reg16_to_address(I8080RegisterCode16::SP).fetched().data_to_reg(
            I8080RegisterCode::Z,
        ).reg_to_data(I8080RegisterCode::L).stored().incremented(
            I8080RegisterCode16::SP,
        ).reg16_to_address(I8080RegisterCode16::SP).fetched().data_to_reg(
            I8080RegisterCode::W,
        ).reg_to_data(I8080RegisterCode::H).stored().decremented(I8080RegisterCode16::SP).copied(
            I8080RegisterCode16::HL,
            I8080RegisterCode16::WZ,
        )
    }

    /// XCHG-style swap of two pairs, high registers first.
    pub open spec fn exchanged16(self, dst: I8080RegisterCode16, src: I8080RegisterCode16) -> ConsoleState {
        let s1 = self.with_reg(src.high(), self.reg(dst.high())).with_reg(
            dst.high(),
            self.reg(src.high()),
        );
        s1.with_reg(src.low(), s1.reg(dst.low())).with_reg(dst.low(), s1.reg(src.low()))
    }
}

impl I8080Console {
    /// The ALU on the accumulator and a register; the result goes to the accumulator.
    pub fn alu_with_reg(&mut self, alu: I8080AluCode, rhs: I8080RegisterCode)
        requires
            old(self)@.wf(),
        ensures
            final(self)@ == old(self)@.alu_reg(alu, rhs),
    {
        self.move_through_data(I8080RegisterCode::Tmp, rhs);
        self.alu_op(alu);
        self.load_from_data(I8080RegisterCode::Acc);
    }

    /// The ALU on a register; the result goes back to it.
    pub fn alu_with_reg_to_reg(&mut self, alu: I8080AluCode, rhs: I8080RegisterCode)
        requires
            old(self)@.wf(),
        ensures
            final(self)@ == old(self)@.alu_reg_to_reg(alu, rhs),
    {
        self.move_through_data(I8080RegisterCode::Tmp, rhs);
        self.alu_op(alu);
        self.load_from_data(rhs);
    }

    /// The ALU on the accumulator and the byte at HL; the result goes to the accumulator.
    pub fn alu_with_mem(&mut self, alu: I8080AluCode)
        requires
            old(self)@.wf(),
        ensures
            final(self)@ == old(self)@.alu_mem(alu),
    {
        self.fetch_hl();
        self.load_from_data(I8080RegisterCode::Tmp);
        self.alu_op(alu);
        self.load_from_data(I8080RegisterCode::Acc);
    }

    /// The ALU on the byte at HL; the result is stored back there.
    pub fn alu_with_mem_to_mem(&mut self, alu: I8080AluCode)
        requires
            old(self)@.wf(),
        ensures
            final(self)@ == old(self)@.alu_mem_to_mem(alu),
    {
        self.fetch_hl();
        self.load_from_data(I8080RegisterCode::Tmp);
        self.alu_op(alu);
        self.store();
    }

    /// The ALU on the accumulator and the next program byte.
    pub fn alu_with_immediate(&mut self, alu: I8080AluCode)
        requires
            old(self)@.wf(),
        ensures
            final(self)@ == old(self)@.alu_immediate(alu),
    {
        self.fetch_instruction();
        self.load_from_data(I8080RegisterCode::Tmp);
        self.alu_op(alu);
        self.load_from_data(I8080RegisterCode::Acc);
    }

    /// CMP r: the flags of a subtraction, the accumulator kept.
    pub fn cmp_with_reg(&mut self, rhs: I8080RegisterCode)
        requires
            old(self)@.wf(),
        ensures
            final(self)@ == old(self)@.reg_copied(I8080RegisterCode::Tmp, rhs).alu_applied(
                I8080AluCode::Sub,
            ),
    {
        self.move_through_data(I8080RegisterCode::Tmp, rhs);
        self.alu_op(I8080AluCode::Sub);
    }

    /// CMP M.
    pub fn cmp_with_mem(&mut self)
        requires
            old(self)@.wf(),
        ensures
            final(self)@ == old(self)@.hl_operand().alu_applied(I8080AluCode::Sub),
    {
        self.fetch_hl();
        self.load_from_data(I8080RegisterCode::Tmp);
        self.alu_op(I8080AluCode::Sub);
    }

    /// CPI byte.
    pub fn cmp_with_immediate(&mut self)
        requires
            old(self)@.wf(),
        ensures
            final(self)@ == old(self)@.immediate_operand().alu_applied(I8080AluCode::Sub),
    {
        self.fetch_instruction();
        self.load_from_data(I8080RegisterCode::Tmp);
        self.alu_op(I8080AluCode::Sub);
    }

    /// Flips one flag of the flag register, the other bits kept.
    pub fn flag_complement(&mut self, flag: StatusFlag)
        requires
            old(self)@.wf(),
        ensures
            final(self)@ == old(self)@.flag_loaded(
                flag,
                if old(self)@.flags().has(flag) { 0 } else { 0xFF },
            ),
    {
        let status = self.flag_status();
        let v: u8 = if status.contains(flag) { 0 } else { 0xFF };
        let i = I8080RegisterCode::Flag.index();
        let mut flag_reg = Register8::new(self.regs[i]).masked(Self::flag_decode(flag));
        flag_reg.load(v);
        self.set_reg(I8080RegisterCode::Flag, flag_reg.unmasked().read());
    }

    /// Sets one flag of the flag register, the other bits kept.
    pub fn flag_set(&mut self, flag: StatusFlag)
        requires
            old(self)@.wf(),
        ensures
            final(self)@ == old(self)@.flag_loaded(flag, 0xFF),
    {
        let i = I8080RegisterCode::Flag.index();
        let mut flag_reg = Register8::new(self.regs[i]).masked(Self::flag_decode(flag));
        flag_reg.load(0xFF);
        self.set_reg(I8080RegisterCode::Flag, flag_reg.unmasked().read());
    }

    /// DAD rp: HL plus the pair into HL, Carry set to the carry out, other flags kept.
    pub fn add_to_hl(&mut self, code: I8080RegisterCode16)
        requires
            old(self)@.wf(),
        ensures
            final(self)@ == old(self)@.added_to_hl(code),
    {
        let hl = self.code_reg16_as_u16(I8080RegisterCode16::HL);
        let rp = self.code_reg16_as_u16(code);
        let sum: u32 = hl as u32 + rp as u32;
        if sum >= 0x10000 {
            self.flag_set(StatusFlag::Carry);
        } else {
            let i = I8080RegisterCode::Flag.index();
            let mut flag_reg = Register8::new(self.regs[i]).masked(
                Self::flag_decode(StatusFlag::Carry),
            );
            flag_reg.load(0);
            self.set_reg(I8080RegisterCode::Flag, flag_reg.unmasked().read());
        }
        self.set_reg16(I8080RegisterCode16::HL, (sum % 0x10000) as u16);
    }

    fn flag_objected_by(cond: I8080JumpCondition) -> (r: (StatusFlag, bool))
        ensures
            r == condition_flag(cond),
    {
        match cond {
            I8080JumpCondition::OnNonZero => (StatusFlag::Zero, false),
            I8080JumpCondition::OnZero => (StatusFlag::Zero, true),
            I8080JumpCondition::OnNonCarry => (StatusFlag::Carry, false),
            I8080JumpCondition::OnCarry => (StatusFlag::Carry, true),
            I8080JumpCondition::OnParityOdd => (StatusFlag::Parity, false),
            I8080JumpCondition::OnParityEven => (StatusFlag::Parity, true),
            I8080JumpCondition::OnPlus => (StatusFlag::Sign, false),
            _ => (StatusFlag::Sign, true),
        }
    }

    /// Whether the flags satisfy the condition.
    pub fn satisfying_condition(&self, cond: I8080JumpCondition) -> (r: bool)
        requires
            self@.wf(),
        ensures
            r == self@.satisfies(cond),
    {
        match cond {
            I8080JumpCondition::Anytime => true,
            _ => {
                let (flag, set) = Self::flag_objected_by(cond);
                self.flag_status().contains(flag) == set
            },
        }
    }

    /// JMP / Jcc addr.
    pub fn jump_immediate(&mut self, cond: I8080JumpCondition)
        requires
            old(self)@.wf(),
        ensures
            final(self)@ == old(self)@.jumped(cond),
    {
        self.fetch_operand_to_wz();
        if self.satisfying_condition(cond) {
            self.load_reg16_from_reg16(I8080RegisterCode16::PC, I8080RegisterCode16::WZ);
        }
    }

    /// CALL / Ccc addr: PC pushed, then PC set to the address.
    pub fn call_immediate(&mut self, cond: I8080JumpCondition)
        requires
            old(self)@.wf(),
        ensures
            final(self)@ == old(self)@.called(cond),
    {
        self.fetch_operand_to_wz();
        if self.satisfying_condition(cond) {
            self.push_reg16(I8080RegisterCode16::PC);
            self.load_reg16_from_reg16(I8080RegisterCode16::PC, I8080RegisterCode16::WZ);
        }
    }

    /// RET / Rcc: PC popped.
    pub fn ret(&mut self, cond: I8080JumpCondition)
        requires
            old(self)@.wf(),
        ensures
            final(self)@ == old(self)@.returned(cond),
    {
        if self.satisfying_condition(cond) {
            self.pop_reg16(I8080RegisterCode16::WZ);
            self.load_reg16_from_reg16(I8080RegisterCode16::PC, I8080RegisterCode16::WZ);
        }
    }

    /// RST n: a call to `n * 8`.
    pub fn restart(&mut self, n: u8)
        requires
            old(self)@.wf(),
            n < 8,
        ensures
            final(self)@ == old(self)@.restarted(n),
    {
        self.data_bus = 0;
        self.load_from_data(I8080RegisterCode::W);
        self.data_bus = n * 8;
        self.load_from_data(I8080RegisterCode::Z);
        self.push_reg16(I8080RegisterCode16::PC);
        self.load_reg16_from_reg16(I8080RegisterCode16::PC, I8080RegisterCode16::WZ);
    }

    /// PCHL: PC loaded from HL.
    pub fn pchl(&mut self)
        requires
            old(self)@.wf(),
        ensures
            final(self)@ == old(self)@.copied(I8080RegisterCode16::PC, I8080RegisterCode16::HL),
    {
        self.load_reg16_from_reg16(I8080RegisterCode16::PC, I8080RegisterCode16::HL);
    }

    /// PUSH rp: high byte at SP - 1, low byte at SP - 2, SP lowered by two.
    pub fn push_reg16(&mut self, code: I8080RegisterCode16)
        requires
            old(self)@.wf(),
        ensures
            final(self)@ == old(self)@.pushed(code),
    {
        let hl = code.split();
        self.reg16_decrement(I8080RegisterCode16::SP);
        self.read_to_data(hl[0]);
        self.code_reg16_read_to_address(I8080RegisterCode16::SP);
        self.store();
        self.reg16_decrement(I8080RegisterCode16::SP);
        self.read_to_data(hl[1]);
        self.code_reg16_read_to_address(I8080RegisterCode16::SP);
        self.store();
    }

    /// POP rp: low byte from SP, high byte from SP + 1, SP raised by two.
    pub fn pop_reg16(&mut self, code: I8080RegisterCode16)
        requires
            old(self)@.wf(),
        ensures
            final(self)@ == old(self)@.popped(code),
    {
        let hl = code.split();
        self.code_reg16_read_to_address(I8080RegisterCode16::SP);
        self.fetch();
        self.load_from_data(hl[1]);
        self.reg16_increment(I8080RegisterCode16::SP);
        self.code_reg16_read_to_address(I8080RegisterCode16::SP);
        self.fetch();
        self.load_from_data(hl[0]);
        self.reg16_increment(I8080RegisterCode16::SP);
    }

    /// XTHL: HL swapped with the word at the top of the stack.
    pub fn exchange_stack_top_with_hl(&mut self)
        requires
            old(self)@.wf(),
        ensures
            final(self)@ == old(self)@.stack_top_exchanged(),
    {
        self.code_reg16_read_to_address(I8080RegisterCode16::SP);
        self.fetch();
        self.load_from_data(I8080RegisterCode::Z);
        self.read_to_data(I8080RegisterCode::L);
        self.store();
        self.reg16_increment(I8080RegisterCode16::SP);
        self.code_reg16_read_to_address(I8080RegisterCode16::SP);
        self.fetch();
        self.load_from_data(I8080RegisterCode::W);
        self.read_to_data(I8080RegisterCode::H);
        self.store();
        self.reg16_decrement(I8080RegisterCode16::SP);
        self.load_reg16_from_reg16(I8080RegisterCode16::HL, I8080RegisterCode16::WZ);
    }

    /// SPHL: SP loaded from HL.
    pub fn sphl(&mut self)
        requires
            old(self)@.wf(),
        ensures
            final(self)@ == old(self)@.copied(I8080RegisterCode16::SP, I8080RegisterCode16::HL),
    {
        self.load_reg16_from_reg16(I8080RegisterCode16::SP, I8080RegisterCode16::HL)
    }

    /// IN port, completed with the byte that the input source gave: the port
    /// byte is skipped and `byte` goes to the accumulator.
    pub fn input(&mut self, byte: u8)
        requires
            old(self)@.wf(),
        ensures
            final(self)@ == old(self)@.next_byte().with_data(byte).data_to_reg(
                I8080RegisterCode::Acc,
            ),
    {
        self.fetch_instruction();
        self.data_bus = byte;
        self.load_from_data(I8080RegisterCode::Acc);
    }

    /// OUT port: the port byte is skipped and the accumulator is returned for
    /// the output sink.
    pub fn output(&mut self) -> (r: u8)
        requires
            old(self)@.wf(),
        ensures
            final(self)@ == old(self)@.next_byte().reg_to_data(I8080RegisterCode::Acc),
            r == old(self)@.reg(I8080RegisterCode::Acc),
    {
        self.fetch_instruction();
        self.read_to_data(I8080RegisterCode::Acc);
        self.data_bus
    }

    /// EI: no effect on the core.
    pub fn enable_interrupt(&mut self)
        ensures
            final(self)@ == old(self)@,
    {
    }

    /// DI: no effect on the core.
    pub fn disable_interrupt(&mut self)
        ensures
            final(self)@ == old(self)@,
    {
    }

    /// Releases the halt latch so that execution can go on.
    pub(crate) fn clear_halt(&mut self)
        ensures
            final(self)@ == old(self)@.with_halted(false),
    {
        self.halted = false;
    }

    /// HLT: the run loop stops.
    pub fn halt(&mut self)
        ensures
            final(self)@ == old(self)@.with_halted(true),
    {
        self.halted = true;
    }

    /// NOP.
    pub fn no_op(&mut self)
        ensures
            final(self)@ == old(self)@,
    {
    }
}

} // verus!
