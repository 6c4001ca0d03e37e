pub mod alu;
pub mod bits;
pub mod bus;
pub mod decoder;
pub mod instruction;
pub mod memory;
pub mod processor;
pub mod register;
