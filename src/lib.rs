//! A virtual machine for a 16-bit educational computer: sixteen opcodes,
//! 16-bit words and a 16-bit address space, with console traps.
//!
//! Everything that decides what the machine does lives here and is verified.
//! Reading bytes from the keyboard and writing bytes to the screen happen
//! outside: a step of the machine takes the byte that the input source gave
//! (when the step asked for one) and hands back the bytes to print.
pub mod image;
pub mod machine;
pub mod memory;
pub mod ops;
pub mod registers;
pub mod trap;
pub mod word;

pub use image::{load_image, ImageError};
pub use machine::{InputDemand, Machine, START};
pub use memory::{Memory, MemoryMappedRegisters, KBDR, KBSR, MAX_SIZE};
pub use ops::{
    and, br, get_op_code, jmp, jsr, ldi, load, load_e, load_r, not, store, store_i, store_r,
    OpCode,
};
pub use registers::{Flag, Registers};
pub use trap::{trap, Flow, TrapCode, VmError};
pub use word::sign_extend;
