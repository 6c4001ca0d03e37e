use vstd::prelude::*;

use crate::alu::StatusFlag;
use crate::processor::{
    ConsoleState, I8080AluCode, I8080Console, I8080JumpCondition, I8080RegisterCode,
    I8080RegisterCode16,
};

verus! {

/// The register named by a three-bit field (6, the memory operand, is not a register).
pub open spec fn reg_of(bits: u8) -> I8080RegisterCode {
    if bits == 0 {
        I8080RegisterCode::B
    } else if bits == 1 {
        I8080RegisterCode::C
    } else if bits == 2 {
        I8080RegisterCode::D
    } else if bits == 3 {
        I8080RegisterCode::E
    } else if bits == 4 {
        I8080RegisterCode::H
    } else if bits == 5 {
        I8080RegisterCode::L
    } else {
        I8080RegisterCode::Acc
    }
}

/// The pair named by a two-bit field: BC, DE, HL, SP.
pub open spec fn pair_of(bits: u8) -> I8080RegisterCode16 {
    if bits == 0 {
        I8080RegisterCode16::BC
    } else if bits == 1 {
        I8080RegisterCode16::DE
    } else if bits == 2 {
        I8080RegisterCode16::HL
    } else {
        I8080RegisterCode16::SP
    }
}

/// The pair named by a two-bit field in PUSH and POP: BC, DE, HL, PSW.
pub open spec fn stack_pair_of(bits: u8) -> I8080RegisterCode16 {
    if bits == 3 {
        I8080RegisterCode16::PSW
    } else {
        pair_of(bits)
    }
}

/// The condition named by a three-bit field.
pub open spec fn condition_of(bits: u8) -> I8080JumpCondition {
    if bits == 0 {
        I8080JumpCondition::OnNonZero
    } else if bits == 1 {
        I8080JumpCondition::OnZero
    } else if bits == 2 {
        I8080JumpCondition::OnNonCarry
    } else if bits == 3 {
        I8080JumpCondition::OnCarry
    } else if bits == 4 {
        I8080JumpCondition::OnParityOdd
    } else if bits == 5 {
        I8080JumpCondition::OnParityEven
    } else if bits == 6 {
        I8080JumpCondition::OnPlus
    } else {
        I8080JumpCondition::OnMinus
    }
}

/// The accumulator operation named by a three-bit field (7, compare, aside).
pub open spec fn alu_code_of(bits: u8) -> I8080AluCode {
    if bits == 0 {
        I8080AluCode::Add
    } else if bits == 1 {
        I8080AluCode::AddCarried
    } else if bits == 2 {
        I8080AluCode::Sub
    } else if bits == 3 {
        I8080AluCode::SubBorrowed
    } else if bits == 4 {
        I8080AluCode::LogicAnd
    } else if bits == 5 {
        I8080AluCode::LogicXor
    } else {
        I8080AluCode::LogicOr
    }
}

/// What an instruction asks of the world outside the core.
#[derive(Debug, Clone, Copy, PartialEq, Eq, Structural)]
pub enum IoRequest {
    /// Nothing: the instruction is complete.
    Nothing,
    /// IN: the instruction completes once `input` is called with a byte.
    Input,
    /// OUT: the byte is for the output sink; the instruction is complete.
    Output(u8),
}

/// Opcodes `00 ddd sss`: immediates, 16-bit loads and arithmetic, indirect
/// and direct loads and stores, INR/DCR, rotations, DAA, CMA, STC, CMC.
#[verifier::opaque]
pub open spec fn data_block(s: ConsoleState, dst: u8, src: u8) -> ConsoleState {
    if src == 0 {
        s
    } else if src == 1 {
        if dst % 2 == 0 {
            s.next_byte().data_to_reg(pair_of(dst / 2).high()).next_byte().data_to_reg(
                pair_of(dst / 2).low(),
            )
        } else {
            s.added_to_hl(pair_of(dst / 2))
        }
    } else if src == 2 {
        if dst < 4 {
            if dst % 2 == 0 {
                s.reg_to_data(I8080RegisterCode::Acc).reg16_to_address(pair_of(dst / 2)).stored()
            } else {
                s.reg16_to_address(pair_of(dst / 2)).fetched().data_to_reg(I8080RegisterCode::Acc)
            }
        } else if dst == 4 {
            s.operand_in_wz().reg16_to_address(I8080RegisterCode16::WZ).reg_to_data(
                I8080RegisterCode::L,
            ).stored().incremented(I8080RegisterCode16::WZ).reg16_to_address(
                I8080RegisterCode16::WZ,
            ).reg_to_data(I8080RegisterCode::H).stored()
        } else if dst == 5 {
            s.operand_in_wz().reg16_to_address(I8080RegisterCode16::WZ).fetched().data_to_reg(
                I8080RegisterCode::L,
            ).incremented(I8080RegisterCode16::WZ).reg16_to_address(
                I8080RegisterCode16::WZ,
            ).fetched().data_to_reg(I8080RegisterCode::H)
        } else if dst == 6 {
            s.operand_in_wz().reg16_to_address(I8080RegisterCode16::WZ).reg_to_data(
                I8080RegisterCode::Acc,
            ).stored()
        } else {
            s.operand_in_wz().reg16_to_address(I8080RegisterCode16::WZ).fetched().data_to_reg(
                I8080RegisterCode::Acc,
            )
        }
    } else if src == 3 {
        if dst % 2 == 0 {
            s.incremented(pair_of(dst / 2))
        } else {
            s.decremented(pair_of(dst / 2))
        }
    } else if src == 4 {
        if dst == 6 {
            s.alu_mem_to_mem(I8080AluCode::Increment)
        } else {
            s.alu_reg_to_reg(I8080AluCode::Increment, reg_of(dst))
        }
    } else if src == 5 {
        if dst == 6 {
            s.alu_mem_to_mem(I8080AluCode::Decrement)
        } else {
            s.alu_reg_to_reg(I8080AluCode::Decrement, reg_of(dst))
        }
    } else if src == 6 {
        if dst == 6 {
            s.immediate_operand().reg_to_data(I8080RegisterCode::Tmp).reg16_to_address(
                I8080RegisterCode16::HL,
            ).stored()
        } else {
            s.next_byte().data_to_reg(reg_of(dst))
        }
    } else {
        if dst == 0 {
            s.alu_reg(I8080AluCode::RotateLeft, I8080RegisterCode::Acc)
        } else if dst == 1 {
            s.alu_reg(I8080AluCode::RotateRight, I8080RegisterCode::Acc)
        } else if dst == 2 {
            s.alu_reg(I8080AluCode::RotateLeftThroughCarry, I8080RegisterCode::Acc)
        } else if dst == 3 {
            s.alu_reg(I8080AluCode::RotateRightThroughCarry, I8080RegisterCode::Acc)
        } else if dst == 4 {
            s.alu_reg(I8080AluCode::DecimalAdjust, I8080RegisterCode::Acc)
        } else if dst == 5 {
            s.alu_reg(I8080AluCode::ComplementAcc, I8080RegisterCode::Acc)
        } else if dst == 6 {
            s.flag_loaded(StatusFlag::Carry, 0xFF)
        } else {
            s.flag_loaded(StatusFlag::Carry, if s.flags().carry { 0 } else { 0xFF })
        }
    }
}

/// Opcodes `01 ddd sss`: MOV, and HLT in place of MOV M, M.
#[verifier::opaque]
pub open spec fn move_block(s: ConsoleState, dst: u8, src: u8) -> ConsoleState {
    if dst == 6 && src == 6 {
        s.with_halted(true)
    } else if src == 6 {
        s.reg16_to_address(I8080RegisterCode16::HL).fetched().data_to_reg(reg_of(dst))
    } else if dst == 6 {
        s.reg_copied(I8080RegisterCode::Tmp, reg_of(src)).reg_to_data(
            I8080RegisterCode::Tmp,
        ).reg16_to_address(I8080RegisterCode16::HL).stored()
    } else {
        s.moved(reg_of(dst), reg_of(src))
    }
}

/// Opcodes `10 ddd sss`: the accumulator operations on a register or on the
/// byte at HL.
#[verifier::opaque]
pub open spec fn alu_block(s: ConsoleState, dst: u8, src: u8) -> ConsoleState {
    if src == 6 {
        if dst == 7 {
            s.hl_operand().alu_applied(I8080AluCode::Sub)
        } else {
            s.alu_mem(alu_code_of(dst))
        }
    } else {
        if dst == 7 {
            s.reg_copied(I8080RegisterCode::Tmp, reg_of(src)).alu_applied(I8080AluCode::Sub)
        } else {
            s.alu_reg(alu_code_of(dst), reg_of(src))
        }
    }
}

/// Opcodes `11 ddd sss`: returns, jumps, calls, stack, immediate accumulator
/// operations, RST, I/O, exchanges, interrupt enables.
#[verifier::opaque]
pub open spec fn control_block(s: ConsoleState, dst: u8, src: u8) -> (ConsoleState, IoRequest) {
    if src == 0 {
        (s.returned(condition_of(dst)), IoRequest::Nothing)
    } else if src == 1 {
        if dst % 2 == 0 {
            (s.popped(stack_pair_of(dst / 2)), IoRequest::Nothing)
        } else if dst == 5 {
            (s.copied(I8080RegisterCode16::PC, I8080RegisterCode16::HL), IoRequest::Nothing)
        } else if dst == 7 {
            (s.copied(I8080RegisterCode16::SP, I8080RegisterCode16::HL), IoRequest::Nothing)
        } else {
            (s.returned(I8080JumpCondition::Anytime), IoRequest::Nothing)
        }
    } else if src == 2 {
        (s.jumped(condition_of(dst)), IoRequest::Nothing)
    } else if src == 3 {
        if dst < 2 {
            (s.jumped(I8080JumpCondition::Anytime), IoRequest::Nothing)
        } else if dst == 2 {
            (
                s.next_byte().reg_to_data(I8080RegisterCode::Acc),
                IoRequest::Output(s.reg(I8080RegisterCode::Acc)),
            )
        } else if dst == 3 {
            (s, IoRequest::Input)
        } else if dst == 4 {
            (s.stack_top_exchanged(), IoRequest::Nothing)
        } else if dst == 5 {
            (s.exchanged16(I8080RegisterCode16::HL, I8080RegisterCode16::DE), IoRequest::Nothing)
        } else {
            (s, IoRequest::Nothing)
        }
    } else if src == 4 {
        (s.called(condition_of(dst)), IoRequest::Nothing)
    } else if src == 5 {
        if dst % 2 == 0 {
            (s.pushed(stack_pair_of(dst / 2)), IoRequest::Nothing)
        } else {
            (s.called(I8080JumpCondition::Anytime), IoRequest::Nothing)
        }
    } else if src == 6 {
        if dst == 7 {
            (s.immediate_operand().alu_applied(I8080AluCode::Sub), IoRequest::Nothing)
        } else {
            (s.alu_immediate(alu_code_of(dst)), IoRequest::Nothing)
        }
    } else {
        (s.restarted(dst), IoRequest::Nothing)
    }
}

/// One instruction: the opcode at PC is fetched and latched in Inst, then
/// carried out by its block. An IN instruction stops after the opcode and
/// asks for input.
#[verifier::opaque]
pub open spec fn executed(s: ConsoleState) -> (ConsoleState, IoRequest) {
    let s1 = s.next_byte().data_to_reg(I8080RegisterCode::Inst);
    let inst = s1.reg(I8080RegisterCode::Inst);
    let op = inst / 64;
    let dst = (inst / 8) % 8;
    let src = inst % 8;
    if op == 0 {
        (data_block(s1, dst, src), IoRequest::Nothing)
    } else if op == 1 {
        (move_block(s1, dst, src), IoRequest::Nothing)
    } else if op == 2 {
        (alu_block(s1, dst, src), IoRequest::Nothing)
    } else {
        control_block(s1, dst, src)
    }
}

/// Why a run stopped.
#[derive(Debug, Clone, Copy, PartialEq, Eq, Structural)]
pub enum RunStop {
    /// HLT was executed.
    Halted,
    /// An IN instruction waits for `input`.
    Input,
    /// An OUT instruction produced this byte.
    Output(u8),
    /// The step budget ran out.
    StepLimit,
}

/// Instructions executed one after another from `s`, at most `fuel` of them,
/// until the processor halts or an instruction asks for I/O.
pub open spec fn ran(s: ConsoleState, fuel: nat) -> (ConsoleState, RunStop)
    decreases fuel,
{
    if s.halted {
        (s, RunStop::Halted)
    } else if fuel == 0 {
        (s, RunStop::StepLimit)
    } else {
        let (s1, io) = executed(s);
        match io {
            IoRequest::Nothing => ran(s1, (fuel - 1) as nat),
            IoRequest::Input => (s1, RunStop::Input),
            IoRequest::Output(b) => (s1, RunStop::Output(b)),
        }
    }
}

impl I8080Console {
    fn reg16_code_from_bits(bits: u8) -> (r: I8080RegisterCode16)
        requires
            bits < 4,
        ensures
            r == pair_of(bits),
    {
        if bits == 0 {
            I8080RegisterCode16::BC
        } else if bits == 1 {
            I8080RegisterCode16::DE
        } else if bits == 2 {
            I8080RegisterCode16::HL
        } else {
            I8080RegisterCode16::SP
        }
    }

    fn stack_reg16_code_from_bits(bits: u8) -> (r: I8080RegisterCode16)
        requires
            bits < 4,
        ensures
            r == stack_pair_of(bits),
    {
        if bits == 3 {
            I8080RegisterCode16::PSW
        } else {
            Self::reg16_code_from_bits(bits)
        }
    }

    fn reg_code_from_bits(bits: u8) -> (r: I8080RegisterCode)
        requires
            bits < 8,
            bits != 6,
        ensures
            r == reg_of(bits),
    {
        if bits == 0 {
            I8080RegisterCode::B
        } else if bits == 1 {
            I8080RegisterCode::C
        } else if bits == 2 {
            I8080RegisterCode::D
        } else if bits == 3 {
            I8080RegisterCode::E
        } else if bits == 4 {
            I8080RegisterCode::H
        } else if bits == 5 {
            I8080RegisterCode::L
        } else {
            I8080RegisterCode::Acc
        }
    }

    fn condition_code_from_bits(bits: u8) -> (r: I8080JumpCondition)
        requires
            bits < 8,
        ensures
            r == condition_of(bits),
    {
        if bits == 0 {
            I8080JumpCondition::OnNonZero
        } else if bits == 1 {
            I8080JumpCondition::OnZero
        } else if bits == 2 {
            I8080JumpCondition::OnNonCarry
        } else if bits == 3 {
            I8080JumpCondition::OnCarry
        } else if bits == 4 {
            I8080JumpCondition::OnParityOdd
        } else if bits == 5 {
            I8080JumpCondition::OnParityEven
        } else if bits == 6 {
            I8080JumpCondition::OnPlus
        } else {
            I8080JumpCondition::OnMinus
        }
    }

    fn alu_code_from_bits(bits: u8) -> (r: I8080AluCode)
        requires
            bits < 7,
        ensures
            r == alu_code_of(bits),
    {
        if bits == 0 {
            I8080AluCode::Add
        } else if bits == 1 {
            I8080AluCode::AddCarried
        } else if bits == 2 {
            I8080AluCode::Sub
        } else if bits == 3 {
            I8080AluCode::SubBorrowed
        } else if bits == 4 {
            I8080AluCode::LogicAnd
        } else if bits == 5 {
            I8080AluCode::LogicXor
        } else {
            I8080AluCode::LogicOr
        }
    }

    fn execute_data_block(&mut self, dst: u8, src: u8)
        requires
            old(self)@.wf(),
            dst < 8,
            src < 8,
        ensures
            final(self)@ == data_block(old(self)@, dst, src),
            final(self)@.wf(),
    {
        reveal(data_block);
        if src == 0 {
            self.no_op();
        } else if src == 1 {
            let rp = Self::reg16_code_from_bits(dst / 2);
            if dst % 2 == 0 {
                self.move_reg16_immediate(rp);
            } else {
                self.add_to_hl(rp);
            }
        } else if src == 2 {
            if dst < 4 {
                let rp = Self::reg16_code_from_bits(dst / 2);
                if dst % 2 == 0 {
                    self.store_indirect(I8080RegisterCode::Acc, rp);
                } else {
                    self.move_indirect(I8080RegisterCode::Acc, rp);
                }
            } else if dst == 4 {
                self.store_reg16_direct(I8080RegisterCode16::HL);
            } else if dst == 5 {
                self.move_reg16_direct(I8080RegisterCode16::HL);
            } else if dst == 6 {
                self.store_reg_direct(I8080RegisterCode::Acc);
            } else {
                self.move_reg_direct(I8080RegisterCode::Acc);
            }
        } else if src == 3 {
            let rp = Self::reg16_code_from_bits(dst / 2);
            if dst % 2 == 0 {
                self.reg16_increment(rp);
            } else {
                self.reg16_decrement(rp);
            }
        } else if src == 4 {
            if dst == 6 {
                self.alu_with_mem_to_mem(I8080AluCode::Increment);
            } else {
                self.alu_with_reg_to_reg(I8080AluCode::Increment, Self::reg_code_from_bits(dst));
            }
        } else if src == 5 {
            if dst == 6 {
                self.alu_with_mem_to_mem(I8080AluCode::Decrement);
            } else {
                self.alu_with_reg_to_reg(I8080AluCode::Decrement, Self::reg_code_from_bits(dst));
            }
        } else if src == 6 {
            if dst == 6 {
                self.store_hl_immediate();
            } else {
                self.move_reg_immediate(Self::reg_code_from_bits(dst));
            }
        } else {
            if dst == 0 {
                self.alu_with_reg(I8080AluCode::RotateLeft, I8080RegisterCode::Acc);
            } else if dst == 1 {
                self.alu_with_reg(I8080AluCode::RotateRight, I8080RegisterCode::Acc);
            } else if dst == 2 {
                self.alu_with_reg(I8080AluCode::RotateLeftThroughCarry, I8080RegisterCode::Acc);
            } else if dst == 3 {
                self.alu_with_reg(I8080AluCode::RotateRightThroughCarry, I8080RegisterCode::Acc);
            } else if dst == 4 {
                self.alu_with_reg(I8080AluCode::DecimalAdjust, I8080RegisterCode::Acc);
            } else if dst == 5 {
                self.alu_with_reg(I8080AluCode::ComplementAcc, I8080RegisterCode::Acc);
            } else if dst == 6 {
                self.flag_set(StatusFlag::Carry);
            } else {
                self.flag_complement(StatusFlag::Carry);
            }
        }
    }

    fn execute_move_block(&mut self, dst: u8, src: u8)
        requires
            old(self)@.wf(),
            dst < 8,
            src < 8,
        ensures
            final(self)@ == move_block(old(self)@, dst, src),
            final(self)@.wf(),
    {
        reveal(move_block);
        if dst == 6 && src == 6 {
            self.halt();
        } else if src == 6 {
            self.move_hl_mem_to_reg(Self::reg_code_from_bits(dst));
        } else if dst == 6 {
            self.store_reg_to_hl_mem(Self::reg_code_from_bits(src));
        } else {
            self.move_reg_to_reg(Self::reg_code_from_bits(dst), Self::reg_code_from_bits(src));
        }
    }

    fn execute_alu_block(&mut self, dst: u8, src: u8)
        requires
            old(self)@.wf(),
            dst < 8,
            src < 8,
        ensures
            final(self)@ == alu_block(old(self)@, dst, src),
            final(self)@.wf(),
    {
        reveal(alu_block);
        if src == 6 {
            if dst == 7 {
                self.cmp_with_mem();
            } else {
                self.alu_with_mem(Self::alu_code_from_bits(dst));
            }
        } else {
            if dst == 7 {
                self.cmp_with_reg(Self::reg_code_from_bits(src));
            } else {
                self.alu_with_reg(Self::alu_code_from_bits(dst), Self::reg_code_from_bits(src));
            }
        }
    }

    fn execute_control_block(&mut self, dst: u8, src: u8) -> (r: IoRequest)
        requires
            old(self)@.wf(),
            dst < 8,
            src < 8,
        ensures
            (final(self)@, r) == control_block(old(self)@, dst, src),
            final(self)@.wf(),
    {
        reveal(control_block);
        if src == 0 {
            self.ret(Self::condition_code_from_bits(dst));
        } else if src == 1 {
            if dst % 2 == 0 {
                self.pop_reg16(Self::stack_reg16_code_from_bits(dst / 2));
            } else if dst == 5 {
                self.pchl();
            } else if dst == 7 {
                self.sphl();
            } else {
                self.ret(I8080JumpCondition::Anytime);
            }
        } else if src == 2 {
            self.jump_immediate(Self::condition_code_from_bits(dst));
        } else if src == 3 {
            if dst < 2 {
                self.jump_immediate(I8080JumpCondition::Anytime);
            } else if dst == 2 {
                let b = self.output();
                return IoRequest::Output(b);
            } else if dst == 3 {
                return IoRequest::Input;
            } else if dst == 4 {
                self.exchange_stack_top_with_hl();
            } else if dst == 5 {
                self.exchange16(I8080RegisterCode16::HL, I8080RegisterCode16::DE);
            } else if dst == 6 {
                self.disable_interrupt();
            } else {
                self.enable_interrupt();
            }
        } else if src == 4 {
            self.call_immediate(Self::condition_code_from_bits(dst));
        } else if src == 5 {
            if dst % 2 == 0 {
                self.push_reg16(Self::stack_reg16_code_from_bits(dst / 2));
            } else {
                self.call_immediate(I8080JumpCondition::Anytime);
            }
        } else if src == 6 {
            if dst == 7 {
                self.cmp_with_immediate();
            } else {
                self.alu_with_immediate(Self::alu_code_from_bits(dst));
            }
        } else {
            self.restart(dst);
        }
        IoRequest::Nothing
    }

    /// Fetches the opcode at PC, latches it in Inst, decodes it as
    /// `(op, dst, src) = (i >> 6, (i >> 3) & 7, i & 7)` and carries it out.
    pub fn execute(&mut self) -> (r: IoRequest)
        requires
            old(self)@.wf(),
        ensures
            (final(self)@, r) == executed(old(self)@),
            final(self)@.wf(),
    {
        reveal(executed);
        self.fetch_instruction();
        self.load_from_data(I8080RegisterCode::Inst);
        let inst = self.code_reg_as_u8(I8080RegisterCode::Inst);
        let op = inst / 64;
        let dst = (inst / 8) % 8;
        let src = inst % 8;
        if op == 0 {
            self.execute_data_block(dst, src);
            IoRequest::Nothing
        } else if op == 1 {
            self.execute_move_block(dst, src);
            IoRequest::Nothing
        } else if op == 2 {
            self.execute_alu_block(dst, src);
            IoRequest::Nothing
        } else {
            self.execute_control_block(dst, src)
        }
    }

    /// Clears the halt latch and executes instructions until HLT, an I/O
    /// instruction, or `max_steps` instructions.
    pub fn run(&mut self, max_steps: u64) -> (r: RunStop)
        requires
            old(self)@.wf(),
        ensures
            (final(self)@, r) == ran(old(self)@.with_halted(false), max_steps as nat),
            final(self)@.wf(),
    {
        self.clear_halt();
        let ghost start = self@;
        assert(start == old(self)@.with_halted(false));
        let mut fuel = max_steps;
        loop
            invariant
                self@.wf(),
                start == old(self)@.with_halted(false),
                ran(self@, fuel as nat) == ran(start, max_steps as nat),
            decreases fuel,
        {
            let ghost before = self@;
            if self.is_halted() {
                assert(ran(before, fuel as nat) == (before, RunStop::Halted));
                return RunStop::Halted;
            }
            if fuel == 0 {
                assert(ran(before, fuel as nat) == (before, RunStop::StepLimit));
                return RunStop::StepLimit;
            }
            assert(ran(before, fuel as nat) == ({
                let (s1, io) = executed(before);
                match io {
                    IoRequest::Nothing => ran(s1, (fuel - 1) as nat),
                    IoRequest::Input => (s1, RunStop::Input),
                    IoRequest::Output(b) => (s1, RunStop::Output(b)),
                }
            }));
            match self.execute() {
                IoRequest::Nothing => {},
                IoRequest::Input => {
                    return RunStop::Input;
                },
                IoRequest::Output(b) => {
                    return RunStop::Output(b);
                },
            }
            fuel = fuel - 1;
        }
    }
}

} // verus!
