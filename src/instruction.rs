use vstd::prelude::*;

use crate::processor::{I8080Console, I8080RegisterCode, I8080RegisterCode16, ProcMemory};

verus! {

/// A micro-instruction that a processor of type `P` can carry out.
pub trait Instruction<P>: Sized {
    /// Whether the processor is in a state where the instruction can run.
    spec fn admits(&self, proc: P) -> bool;

    /// Whether `after` is `before` with the instruction carried out.
    spec fn performs(&self, before: P, after: P) -> bool;

    fn execute(&self, proc: &mut P)
        requires
            self.admits(*old(proc)),
        ensures
            self.performs(*old(proc), *final(proc)),
            self.admits(*final(proc)),
    ;
}

/// Whether a data register instruction loads the register from the data bus
/// or puts the register on it.
#[derive(Debug, Clone, Copy, PartialEq, Eq, Structural)]
pub enum DataRegisterInstructionType {
    Load,
    Read,
}

/// A transfer between a register and the data bus.
#[derive(Debug, Clone, Copy, PartialEq, Eq, Structural)]
pub struct DataRegisterInstruction {
    pub code: I8080RegisterCode,
    pub inst: DataRegisterInstructionType,
}

impl DataRegisterInstruction {
    /// The data bus's byte into `code`.
    pub fn load(code: I8080RegisterCode) -> (r: Self)
        ensures
            r == (DataRegisterInstruction { code, inst: DataRegisterInstructionType::Load }),
    {
        Self { code, inst: DataRegisterInstructionType::Load }
    }

    /// The byte of `code` onto the data bus.
    pub fn read(code: I8080RegisterCode) -> (r: Self)
        ensures
            r == (DataRegisterInstruction { code, inst: DataRegisterInstructionType::Read }),
    {
        Self { code, inst: DataRegisterInstructionType::Read }
    }
}

impl Instruction<I8080Console> for DataRegisterInstruction {
    open spec fn admits(&self, proc: I8080Console) -> bool {
        proc@.wf()
    }

    open spec fn performs(&self, before: I8080Console, after: I8080Console) -> bool {
        after@ == match self.inst {
            DataRegisterInstructionType::Load => before@.data_to_reg(self.code),
            DataRegisterInstructionType::Read => before@.reg_to_data(self.code),
        }
    }

    fn execute(&self, proc: &mut I8080Console) {
        match self.inst {
            DataRegisterInstructionType::Load => proc.load_from_data(self.code),
            DataRegisterInstructionType::Read => proc.read_to_data(self.code),
        }
    }
}

/// A register pair's word onto the address bus.
#[derive(Debug, Clone, Copy, PartialEq, Eq, Structural)]
pub struct AddressingRegisterInstruction(pub I8080RegisterCode16);

impl Instruction<I8080Console> for AddressingRegisterInstruction {
    open spec fn admits(&self, proc: I8080Console) -> bool {
        proc@.wf()
    }

    open spec fn performs(&self, before: I8080Console, after: I8080Console) -> bool {
        after@ == before@.reg16_to_address(self.0)
    }

    fn execute(&self, proc: &mut I8080Console) {
        proc.code_reg16_read_to_address(self.0)
    }
}

/// A memory access at the address bus, through the data bus.
#[derive(Debug, Clone, Copy, PartialEq, Eq, Structural)]
pub enum MemoryInstruction {
    Store,
    Fetch,
}

impl Instruction<I8080Console> for MemoryInstruction {
    open spec fn admits(&self, proc: I8080Console) -> bool {
        proc@.wf()
    }

    open spec fn performs(&self, before: I8080Console, after: I8080Console) -> bool {
        after@ == match *self {
            MemoryInstruction::Store => before@.stored(),
            MemoryInstruction::Fetch => before@.fetched(),
        }
    }

    fn execute(&self, proc: &mut I8080Console) {
        match self {
            MemoryInstruction::Store => proc.store(),
            MemoryInstruction::Fetch => proc.fetch(),
        }
    }
}

} // verus!
