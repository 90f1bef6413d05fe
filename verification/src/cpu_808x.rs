//! The 8088 core. Leaves first: registers and flags, the ALU, the bus, the
//! prefetch queue and bus interface unit, addressing, stack and string
//! primitives, interrupts, and the instruction dispatcher on top.
pub mod addressing;
pub mod alu;
pub mod bcd;
pub mod biu;
pub mod bitshift;
pub mod bus;
pub mod callstack;
pub mod cycles;
pub mod exec_arith;
pub mod execute;
pub mod exec_common;
pub mod exec_flow;
pub mod exec_group;
pub mod exec_group45;
pub mod exec_move;
pub mod instruction;
pub mod interrupt;
pub mod jump;
pub mod laws;
pub mod microcode;
pub mod muldiv;
pub mod queue;
pub mod registers;
pub mod stack;
pub mod state;
pub mod string;
pub mod timing;
pub mod validity;
