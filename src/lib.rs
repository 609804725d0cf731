pub mod cpu;
pub mod opcode;
pub mod theorems;
