use vstd::prelude::*;

verus! {

/// A status flag of the 8080 flag register.
#[derive(Debug, Clone, Copy, PartialEq, Eq, Structural)]
pub enum StatusFlag {
    /// result is zero.
    Zero,
    /// result is signed.
    Sign,
    /// result parity sum is even.
    Parity,
    /// result cause carrying
    Carry,
    /// result on bcd overflowing
    AuxiliaryCarry,
}

/// Marker for enumerations usable as status flags.
pub trait Flag: Sized + Copy {
}

impl Flag for StatusFlag {
}

/// A set of status flags, one membership bit per flag.
#[derive(Debug, Clone, Copy, PartialEq, Eq, Structural)]
pub struct StatusFlagSet {
    pub zero: bool,
    pub sign: bool,
    pub parity: bool,
    pub carry: bool,
    pub auxiliary_carry: bool,
}

/// Number of one bits in `x`.
pub open spec fn popcount(x: nat) -> nat
    decreases x,
{
    if x == 0 {
        0
    } else {
        x % 2 + popcount(x / 2)
    }
}

/// The flags that a result byte determines by itself: Zero, Sign and Parity.
pub open spec fn flags_of_result(r: u8) -> StatusFlagSet {
    StatusFlagSet {
        zero: r == 0,
        sign: r >= 0x80,
        parity: popcount(r as nat) % 2 == 0,
        carry: false,
        auxiliary_carry: false,
    }
}

impl StatusFlagSet {
    /// Membership of `f`.
    pub open spec fn has(self, f: StatusFlag) -> bool {
        match f {
            StatusFlag::Zero => self.zero,
            StatusFlag::Sign => self.sign,
            StatusFlag::Parity => self.parity,
            StatusFlag::Carry => self.carry,
            StatusFlag::AuxiliaryCarry => self.auxiliary_carry,
        }
    }

    pub open spec fn none() -> StatusFlagSet {
        StatusFlagSet {
            zero: false,
            sign: false,
            parity: false,
            carry: false,
            auxiliary_carry: false,
        }
    }

    /// The set with `f` present or absent as `present` says, the others unchanged.
    pub open spec fn with_spec(self, f: StatusFlag, present: bool) -> StatusFlagSet {
        match f {
            StatusFlag::Zero => StatusFlagSet { zero: present, ..self },
            StatusFlag::Sign => StatusFlagSet { sign: present, ..self },
            StatusFlag::Parity => StatusFlagSet { parity: present, ..self },
            StatusFlag::Carry => StatusFlagSet { carry: present, ..self },
            StatusFlag::AuxiliaryCarry => StatusFlagSet { auxiliary_carry: present, ..self },
        }
    }

    pub fn empty() -> (r: StatusFlagSet)
        ensures
            r == StatusFlagSet::none(),
            forall|f: StatusFlag| !r.has(f),
    {
        StatusFlagSet { zero: false, sign: false, parity: false, carry: false, auxiliary_carry: false }
    }

    pub fn all() -> (r: StatusFlagSet)
        ensures
            forall|f: StatusFlag| r.has(f),
    {
        StatusFlagSet { zero: true, sign: true, parity: true, carry: true, auxiliary_carry: true }
    }

    pub fn contains(&self, f: StatusFlag) -> (r: bool)
        ensures
            r == self.has(f),
    {
        match f {
            StatusFlag::Zero => self.zero,
            StatusFlag::Sign => self.sign,
            StatusFlag::Parity => self.parity,
            StatusFlag::Carry => self.carry,
            StatusFlag::AuxiliaryCarry => self.auxiliary_carry,
        }
    }

    /// This set with `f` added.
    pub fn with(self, f: StatusFlag) -> (r: StatusFlagSet)
        ensures
            r == self.with_spec(f, true),
            forall|g: StatusFlag| r.has(g) == (g == f || self.has(g)),
    {
        let mut r = self;
        r.set(f, true);
        r
    }

    /// Puts `f` in the set or takes it out, as `present` says.
    pub fn set(&mut self, f: StatusFlag, present: bool)
        ensures
            *final(self) == old(self).with_spec(f, present),
            forall|g: StatusFlag| final(self).has(g) == (if g == f { present } else { old(self).has(g) }),
    {
        match f {
            StatusFlag::Zero => self.zero = present,
            StatusFlag::Sign => self.sign = present,
            StatusFlag::Parity => self.parity = present,
            StatusFlag::Carry => self.carry = present,
            StatusFlag::AuxiliaryCarry => self.auxiliary_carry = present,
        }
    }

    /// Flips the membership of `f`.
    pub fn toggle(&mut self, f: StatusFlag)
        ensures
            *final(self) == old(self).with_spec(f, !old(self).has(f)),
            forall|g: StatusFlag| final(self).has(g) == (if g == f { !old(self).has(g) } else { old(self).has(g) }),
    {
        let present = self.contains(f);
        self.set(f, !present);
    }

    pub fn union(self, o: StatusFlagSet) -> (r: StatusFlagSet)
        ensures
            forall|f: StatusFlag| r.has(f) == (self.has(f) || o.has(f)),
    {
        StatusFlagSet {
            zero: self.zero || o.zero,
            sign: self.sign || o.sign,
            parity: self.parity || o.parity,
            carry: self.carry || o.carry,
            auxiliary_carry: self.auxiliary_carry || o.auxiliary_carry,
        }
    }

    pub fn intersection(self, o: StatusFlagSet) -> (r: StatusFlagSet)
        ensures
            forall|f: StatusFlag| r.has(f) == (self.has(f) && o.has(f)),
    {
        StatusFlagSet {
            zero: self.zero && o.zero,
            sign: self.sign && o.sign,
            parity: self.parity && o.parity,
            carry: self.carry && o.carry,
            auxiliary_carry: self.auxiliary_carry && o.auxiliary_carry,
        }
    }

    pub fn symmetric_difference(self, o: StatusFlagSet) -> (r: StatusFlagSet)
        ensures
            forall|f: StatusFlag| r.has(f) == (self.has(f) != o.has(f)),
    {
        StatusFlagSet {
            zero: self.zero != o.zero,
            sign: self.sign != o.sign,
            parity: self.parity != o.parity,
            carry: self.carry != o.carry,
            auxiliary_carry: self.auxiliary_carry != o.auxiliary_carry,
        }
    }

    pub fn complement(self) -> (r: StatusFlagSet)
        ensures
            forall|f: StatusFlag| r.has(f) == !self.has(f),
    {
        StatusFlagSet {
            zero: !self.zero,
            sign: !self.sign,
            parity: !self.parity,
            carry: !self.carry,
            auxiliary_carry: !self.auxiliary_carry,
        }
    }

    /// The flags present, in declaration order.
    pub open spec fn present_seq(self) -> Seq<StatusFlag> {
        let s0 = if self.zero { seq![StatusFlag::Zero] } else { Seq::empty() };
        let s1 = if self.sign { s0.push(StatusFlag::Sign) } else { s0 };
        let s2 = if self.parity { s1.push(StatusFlag::Parity) } else { s1 };
        let s3 = if self.carry { s2.push(StatusFlag::Carry) } else { s2 };
        if self.auxiliary_carry { s3.push(StatusFlag::AuxiliaryCarry) } else { s3 }
    }

    /// The flags present, each once, in declaration order.
    pub fn present_flags(&self) -> (r: Vec<StatusFlag>)
        ensures
            r@ == self.present_seq(),
    {
        let mut r: Vec<StatusFlag> = Vec::new();
        if self.zero {
            r.push(StatusFlag::Zero);
        }
        assert(r@ =~= (if self.zero { seq![StatusFlag::Zero] } else { Seq::empty() }));
        if self.sign {
            r.push(StatusFlag::Sign);
        }
        if self.parity {
            r.push(StatusFlag::Parity);
        }
        if self.carry {
            r.push(StatusFlag::Carry);
        }
        if self.auxiliary_carry {
            r.push(StatusFlag::AuxiliaryCarry);
        }
        r
    }

    pub fn is_empty(&self) -> (r: bool)
        ensures
            r == (forall|f: StatusFlag| !self.has(f)),
    {
        let r = !(self.zero || self.sign || self.parity || self.carry || self.auxiliary_carry);
        proof {
            if !r {
                if self.zero {
                    assert(self.has(StatusFlag::Zero));
                } else if self.sign {
                    assert(self.has(StatusFlag::Sign));
                } else if self.parity {
                    assert(self.has(StatusFlag::Parity));
                } else if self.carry {
                    assert(self.has(StatusFlag::Carry));
                } else {
                    assert(self.has(StatusFlag::AuxiliaryCarry));
                }
            }
        }
        r
    }
}

/// Counts the one bits of `x`.
fn count_ones(x: u8) -> (r: u32)
    ensures
        r as nat == popcount(x as nat),
{
    let mut v: u8 = x;
    let mut count: u32 = 0;
    while v > 0
        invariant
            count as nat + popcount(v as nat) == popcount(x as nat),
            count as nat + v as nat <= 255,
        decreases v,
    {
        count = count + (v % 2) as u32;
        v = v / 2;
    }
    count
}

impl StatusFlag {
    /// The Zero, Sign and Parity flags of a result byte.
    pub fn set_by_result(result: u8) -> (r: StatusFlagSet)
        ensures
            r == flags_of_result(result),
            r.has(StatusFlag::Zero) <==> result == 0,
            r.has(StatusFlag::Sign) <==> result >= 0x80,
            r.has(StatusFlag::Parity) <==> popcount(result as nat) % 2 == 0,
            !r.has(StatusFlag::Carry),
            !r.has(StatusFlag::AuxiliaryCarry),
    {
        let mut flag_set = StatusFlagSet::empty();
        if result == 0 {
            flag_set.set(StatusFlag::Zero, true);
        }
        if result >= 0x80 {
            flag_set.set(StatusFlag::Sign, true);
        }
        if count_ones(result) % 2 == 0 {
            flag_set.set(StatusFlag::Parity, true);
        }
        flag_set
    }
}

/// An 8-bit arithmetic/logic unit: a pure function from two operand bytes to
/// a result byte and the complete set of flags it produces.
pub trait ALU {
    spec fn spec_op(&self, lhs: u8, rhs: u8) -> (u8, StatusFlagSet);

    /// if operation is unary, lhs won't be used.
    fn op(&self, lhs: u8, rhs: u8) -> (r: (u8, StatusFlagSet))
        ensures
            r == self.spec_op(lhs, rhs),
    ;
}

/// The flags of an addition: those of the result, Carry out of bit 7 and
/// AuxiliaryCarry out of bit 3, each inverted when `neg` says the addend was
/// complemented (so that a subtraction reports borrows).
pub open spec fn add_flags(res: u8, carry: bool, aux: bool, neg: bool) -> StatusFlagSet {
    StatusFlagSet {
        zero: res == 0,
        sign: res >= 0x80,
        parity: popcount(res as nat) % 2 == 0,
        carry: carry != neg,
        auxiliary_carry: aux != neg,
    }
}

/// What the adder with parameters `neg` and `cin` gives on `(lhs, rhs)`:
/// `lhs + rhs' + cin` with `rhs'` the complement of `rhs` when `neg` holds.
pub open spec fn add_result(neg: bool, cin: bool, lhs: u8, rhs: u8) -> (u8, StatusFlagSet) {
    let b: int = if neg { 255 - rhs } else { rhs as int };
    let c: int = if cin { 1 } else { 0 };
    let sum: int = lhs + b + c;
    let res = (sum % 256) as u8;
    (res, add_flags(res, sum >= 256, (lhs as int) % 16 + b % 16 + c >= 16, neg))
}

proof fn lemma_not_u8(x: u8)
    ensures
        !x == 255 - x,
{
    assert(!x == 255 - x) by (bit_vector);
}

fn primary_adder(cin: bool, lhs: u8, rhs: u8) -> (r: (u8, StatusFlagSet))
    ensures
        r == add_result(false, cin, lhs, rhs),
{
    let c: u8 = if cin { 1 } else { 0 };
    let auxiliary_carry = lhs % 0x10 + rhs % 0x10 + c >= 0x10;
    let sum: u16 = lhs as u16 + rhs as u16 + c as u16;
    let res = (sum % 256) as u8;
    let mut status = StatusFlag::set_by_result(res);
    if sum >= 256 {
        status.set(StatusFlag::Carry, true);
    }
    if auxiliary_carry {
        status.set(StatusFlag::AuxiliaryCarry, true);
    }
    (res, status)
}

/// Adder and subtracter: `neg` complements the right operand, `cin` adds one.
#[derive(Debug, Clone, Copy, PartialEq, Eq, Structural)]
pub struct Adder {
    pub neg: bool,
    pub cin: bool,
}

impl Adder {
    /// `lhs + rhs`.
    pub fn adder() -> (r: Self)
        ensures
            r == (Adder { neg: false, cin: false }),
    {
        Adder { neg: false, cin: false }
    }

    /// `lhs - rhs`, Carry reporting a borrow.
    pub fn subber() -> (r: Self)
        ensures
            r == (Adder { neg: true, cin: true }),
    {
        Self { neg: true, cin: true }
    }

    /// `lhs + rhs + 1`.
    pub fn carried_adder() -> (r: Self)
        ensures
            r == (Adder { neg: false, cin: true }),
    {
        Self { neg: false, cin: true }
    }

    /// `lhs - rhs - 1`, Carry reporting a borrow.
    pub fn borrowed_subber() -> (r: Self)
        ensures
            r == (Adder { neg: true, cin: false }),
    {
        Self { neg: true, cin: false }
    }
}

impl ALU for Adder {
    open spec fn spec_op(&self, lhs: u8, rhs: u8) -> (u8, StatusFlagSet) {
        add_result(self.neg, self.cin, lhs, rhs)
    }

    fn op(&self, lhs: u8, rhs: u8) -> (r: (u8, StatusFlagSet)) {
        let mut rhs = rhs;
        if self.neg {
            proof {
                lemma_not_u8(rhs);
            }
            rhs = !rhs;
        }
        let (res, mut status) = primary_adder(self.cin, lhs, rhs);
        if self.neg {
            status.toggle(StatusFlag::Carry);
            status.toggle(StatusFlag::AuxiliaryCarry);
        }
        (res, status)
    }
}

/// Increment or decrement of the right operand.
#[derive(Debug, Clone, Copy, PartialEq, Eq, Structural)]
pub enum IncDecOperator {
    Increase,
    Decrease,
}

/// `rhs + 1` or `rhs - 1` wrapping, with Carry on wraparound and
/// AuxiliaryCarry on a carry out of (for a decrement: no borrow into) bit 3.
pub open spec fn inc_dec_result(increase: bool, rhs: u8) -> (u8, StatusFlagSet) {
    if increase {
        let res = ((rhs + 1) % 256) as u8;
        (res, add_flags(res, rhs == 255, rhs % 16 == 15, false))
    } else {
        let res = ((rhs + 255) % 256) as u8;
        (res, add_flags(res, rhs == 0, rhs % 16 != 0, false))
    }
}

impl ALU for IncDecOperator {
    open spec fn spec_op(&self, lhs: u8, rhs: u8) -> (u8, StatusFlagSet) {
        inc_dec_result(*self == IncDecOperator::Increase, rhs)
    }

    fn op(&self, _lhs: u8, rhs: u8) -> (r: (u8, StatusFlagSet)) {
        let (res, carry, aux) = match self {
            IncDecOperator::Increase => (rhs.wrapping_add(1), rhs == 255, rhs % 16 == 15),
            IncDecOperator::Decrease => (rhs.wrapping_sub(1), rhs == 0, rhs % 16 != 0),
        };
        let mut status = StatusFlag::set_by_result(res);
        if carry {
            status.set(StatusFlag::Carry, true);
        }
        if aux {
            status.set(StatusFlag::AuxiliaryCarry, true);
        }
        (res, status)
    }
}

/// Bitwise logic; `Not` ignores the left operand.
#[derive(Debug, Clone, Copy, PartialEq, Eq, Structural)]
pub enum LogicalOperator {
    And,
    Or,
    Not,
    Xor,
}

impl ALU for LogicalOperator {
    open spec fn spec_op(&self, lhs: u8, rhs: u8) -> (u8, StatusFlagSet) {
        let res = match *self {
            LogicalOperator::And => lhs & rhs,
            LogicalOperator::Or => lhs | rhs,
            LogicalOperator::Not => !rhs,
            LogicalOperator::Xor => lhs ^ rhs,
        };
        (res, flags_of_result(res))
    }

    fn op(&self, lhs: u8, rhs: u8) -> (r: (u8, StatusFlagSet)) {
        let res = match self {
            LogicalOperator::And => lhs & rhs,
            LogicalOperator::Or => lhs | rhs,
            LogicalOperator::Not => !rhs,
            LogicalOperator::Xor => lhs ^ rhs,
        };
        (res, StatusFlag::set_by_result(res))
    }
}

/// One-bit rotation of the right operand, left or right, either plain (the bit
/// shifted out comes back in) or through the carry (`carry` comes in).
#[derive(Debug, Clone, Copy, PartialEq, Eq, Structural)]
pub struct Rotator {
    pub carry: bool,
    pub through_carry: bool,
    pub rotate_right: bool,
}

/// The rotation of `rhs`; the flag set holds Carry alone, set to the bit
/// shifted out.
pub open spec fn rotate_result(rot: Rotator, rhs: u8) -> (u8, StatusFlagSet) {
    let out: bool = if rot.rotate_right { rhs % 2 == 1 } else { rhs >= 128 };
    let fill: bool = if rot.through_carry { rot.carry } else { out };
    let res: int = if rot.rotate_right {
        rhs / 2 + (if fill { 128int } else { 0 })
    } else {
        (rhs * 2) % 256 + (if fill { 1int } else { 0 })
    };
    (res as u8, StatusFlagSet { carry: out, ..StatusFlagSet::none() })
}

impl Rotator {
    pub fn new(carry: bool, through_carry: bool, rotate_right: bool) -> (r: Self)
        ensures
            r == (Rotator { carry, through_carry, rotate_right }),
    {
        Self { carry, through_carry, rotate_right }
    }

    pub fn rotate_left() -> (r: Self)
        ensures
            r == (Rotator { carry: false, through_carry: false, rotate_right: false }),
    {
        Self { carry: false, through_carry: false, rotate_right: false }
    }

    pub fn rotate_right() -> (r: Self)
        ensures
            r == (Rotator { carry: false, through_carry: false, rotate_right: true }),
    {
        Self { carry: false, through_carry: false, rotate_right: true }
    }

    pub fn through_carry(self) -> (r: Self)
        ensures
            r == (Rotator { through_carry: true, ..self }),
    {
        Self { through_carry: true, ..self }
    }

    pub fn carried(self, carry: bool) -> (r: Self)
        ensures
            r == (Rotator { carry, ..self }),
    {
        Self { carry, ..self }
    }
}

impl ALU for Rotator {
    open spec fn spec_op(&self, lhs: u8, rhs: u8) -> (u8, StatusFlagSet) {
        rotate_result(*self, rhs)
    }

    fn op(&self, _lhs: u8, rhs: u8) -> (r: (u8, StatusFlagSet)) {
        let carry = if self.rotate_right { rhs % 2 == 1 } else { rhs >= 0x80 };
        let fill = if self.through_carry { self.carry } else { carry };
        let res: u8 = if self.rotate_right {
            rhs / 2 + if fill { 0x80 } else { 0 }
        } else {
            rhs % 0x80 * 2 + if fill { 1 } else { 0 }
        };
        let mut status = StatusFlagSet::empty();
        if carry {
            status.set(StatusFlag::Carry, true);
        }
        (res, status)
    }
}

/// Decimal adjustment of the right operand after a BCD addition, given the
/// Carry and AuxiliaryCarry flags that the addition left.
#[derive(Debug, Clone, Copy, PartialEq, Eq, Structural)]
pub struct DecimalAdjuster {
    pub carry: bool,
    pub auxiliary: bool,
}

/// The decimal adjustment of `rhs`: six is added to the low digit when it is
/// above nine or AuxiliaryCarry was set, and to the high digit (after the
/// low digit's carry) when it is above nine or Carry was set.
pub open spec fn decimal_adjust_result(carry: bool, auxiliary: bool, rhs: u8) -> (u8, StatusFlagSet) {
    let lsb0: int = (rhs as int) % 16;
    let lsb: int = if auxiliary || lsb0 >= 10 { lsb0 + 6 } else { lsb0 };
    let msb0: int = (rhs as int) / 16 + (if lsb >= 16 { 1int } else { 0 });
    let msb: int = if carry || msb0 >= 10 { msb0 + 6 } else { msb0 };
    let res = ((msb % 16) * 16 + lsb % 16) as u8;
    (res, StatusFlagSet {
        carry: msb >= 16 || carry,
        auxiliary_carry: lsb >= 16,
        ..flags_of_result(res)
    })
}

impl DecimalAdjuster {
    pub fn from_status(status: StatusFlagSet) -> (r: Self)
        ensures
            r == (DecimalAdjuster {
                carry: status.has(StatusFlag::Carry),
                auxiliary: status.has(StatusFlag::AuxiliaryCarry),
            }),
    {
        Self {
            carry: status.contains(StatusFlag::Carry),
            auxiliary: status.contains(StatusFlag::AuxiliaryCarry),
        }
    }
}

impl ALU for DecimalAdjuster {
    open spec fn spec_op(&self, lhs: u8, rhs: u8) -> (u8, StatusFlagSet) {
        decimal_adjust_result(self.carry, self.auxiliary, rhs)
    }

    fn op(&self, _lhs: u8, rhs: u8) -> (r: (u8, StatusFlagSet)) {
        let mut lsb = rhs % 16;
        if self.auxiliary || lsb >= 10 {
            lsb = lsb + 6;
        }
        let mut msb = rhs / 16;
        if lsb >= 0x10 {
            msb = msb + 1;
        }
        if self.carry || msb >= 10 {
            msb = msb + 6;
        }
        let res = (msb % 16) * 16 + lsb % 16;
        let mut status = StatusFlag::set_by_result(res);
        if lsb >= 0x10 {
            status.set(StatusFlag::AuxiliaryCarry, true);
        }
        if msb >= 0x10 || self.carry {
            status.set(StatusFlag::Carry, true);
        }
        (res, status)
    }
}

/// The adder's result byte is the sum of its operands modulo 256.
pub proof fn lemma_adder_wraps(lhs: u8, rhs: u8)
    ensures
        (Adder { neg: false, cin: false }).spec_op(lhs, rhs).0 as int == (lhs + rhs) % 256,
{
}

/// The subtracter's result byte is the difference of its operands modulo 256.
pub proof fn lemma_subber_wraps(lhs: u8, rhs: u8)
    ensures
        (Adder { neg: true, cin: true }).spec_op(lhs, rhs).0 as int == (lhs - rhs) % 256,
{
}

/// The packed BCD byte of a number below 100.
pub open spec fn bcd_of(d: int) -> u8 {
    ((d / 10) * 16 + d % 10) as u8
}

/// The number that a packed BCD byte stands for.
pub open spec fn bcd_value(b: u8) -> int {
    (b as int / 16) * 10 + b as int % 16
}

/// `q * d + r` split back into quotient and remainder by `d`.
proof fn lemma_div_mod_parts(x: int, d: int, q: int, r: int)
    requires
        d > 0,
        0 <= r < d,
        x == q * d + r,
    ensures
        x / d == q,
        x % d == r,
{
    vstd::arithmetic::div_mod::lemma_fundamental_div_mod_converse(x, d, q, r);
}

/// Decimal adjustment of `16 * y + x`, the binary sum of two BCD bytes whose
/// high digits add to `y` and low digits to `x`.
proof fn lemma_decimal_adjust_digits(x: int, y: int)
    requires
        0 <= x <= 18,
        0 <= y <= 18,
    ensures
        ({
            let sum = 16 * y + x;
            let (r, st) = decimal_adjust_result(sum >= 256, x >= 16, (sum % 256) as u8);
            bcd_value(r) == (10 * y + x) % 100 && st.carry == (10 * y + x >= 100)
        }),
{
    let sum = 16 * y + x;
    let (hi, lo) = if x < 16 {
        (y, x)
    } else {
        (y + 1, x - 16)
    };
    let res: int = if hi < 16 {
        sum
    } else {
        sum - 256
    };
    let rhi: int = if hi < 16 {
        hi
    } else {
        hi - 16
    };
    lemma_div_mod_parts(sum, 256, if hi < 16 { 0 } else { 1 }, res);
    lemma_div_mod_parts(res, 16, rhi, lo);
    let lsb: int = if x >= 16 || lo >= 10 { lo + 6 } else { lo };
    let msb0: int = rhi + (if lsb >= 16 { 1int } else { 0 });
    let msb: int = if sum >= 256 || msb0 >= 10 { msb0 + 6 } else { msb0 };
    let (m, l) = (if msb >= 16 { msb - 16 } else { msb }, if lsb >= 16 { lsb - 16 } else { lsb });
    lemma_div_mod_parts(msb, 16, if msb >= 16 { 1 } else { 0 }, m);
    lemma_div_mod_parts(lsb, 16, if lsb >= 16 { 1 } else { 0 }, l);
    lemma_div_mod_parts(m * 16 + l, 16, m, l);
    let total = 10 * y + x;
    lemma_div_mod_parts(total, 100, if total >= 100 { 1 } else { 0 }, if total >= 100 {
        total - 100
    } else {
        total
    });
}

/// Adding two packed BCD bytes and decimal-adjusting the sum with the flags of
/// the addition gives the BCD digits of the decimal sum modulo 100, with Carry
/// set exactly when the decimal sum reaches 100.
pub proof fn lemma_decimal_adjust_after_add(ld: int, rd: int)
    requires
        0 <= ld < 100,
        0 <= rd < 100,
    ensures
        ({
            let (res, status) = (Adder { neg: false, cin: false }).spec_op(bcd_of(ld), bcd_of(rd));
            let adj = DecimalAdjuster {
                carry: status.has(StatusFlag::Carry),
                auxiliary: status.has(StatusFlag::AuxiliaryCarry),
            };
            let (r, st) = adj.spec_op(0, res);
            bcd_value(r) == (ld + rd) % 100 && st.has(StatusFlag::Carry) == (ld + rd >= 100)
        }),
{
    let (a, b) = (ld / 10, ld % 10);
    let (c, d) = (rd / 10, rd % 10);
    lemma_div_mod_parts(ld, 10, a, b);
    lemma_div_mod_parts(rd, 10, c, d);
    assert(0 <= a < 10 && 0 <= c < 10) by (nonlinear_arith)
        requires
            ld == a * 10 + b,
            rd == c * 10 + d,
            0 <= b < 10,
            0 <= d < 10,
            0 <= ld < 100,
            0 <= rd < 100,
    ;
    lemma_div_mod_parts(bcd_of(ld) as int, 16, a, b);
    lemma_div_mod_parts(bcd_of(rd) as int, 16, c, d);
    lemma_decimal_adjust_digits(b + d, a + c);
}

} // verus!
